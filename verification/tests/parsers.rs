use pokedia::api::abilities::{
    parse_ability, ApiAbility, ApiAbilityEffectEntry, ApiAbilityFlavorText, ApiAbilityGenRef,
    ApiAbilityLangRef, ApiAbilityName, ApiAbilityPokemon, ApiAbilityPokemonRef,
    ParsedAbilityPokemon,
};
use pokedia::api::client::PokeApiClient;
use pokedia::api::evolution::{
    build_trigger_detail, parse_chain_link, parse_evolution_chain, ApiChainLink,
    ApiEvoResourceRef, ApiEvolutionChain, ApiEvolutionDetail,
};
use pokedia::api::items::{
    parse_item, ApiItem, ApiItemEffectEntry, ApiItemFlavorText, ApiItemLangRef, ApiItemName,
    ApiItemResourceRef, ApiItemSprites,
};
use pokedia::api::moves::{
    parse_move, ApiMove, ApiMoveEffectEntry, ApiMoveFlavorText, ApiMoveLangRef, ApiMoveName,
    ApiMoveResourceRef,
};
use pokedia::api::natures::{
    parse_nature, ApiNature, ApiNatureFlavorRef, ApiNatureLangRef, ApiNatureName,
    ApiNatureStatRef,
};
use pokedia::api::pokemon::{
    parse_pokemon, stats_in_range, ApiOfficialArtwork, ApiOtherSprites, ApiPokemon,
    ApiPokemonAbilitySlot, ApiPokemonMoveEntry, ApiPokemonStat, ApiPokemonTypeSlot,
    ApiResourceRef, ApiSprites, ApiVersionGroupDetail,
};
use pokedia::api::species::{
    clean_flavor_text, parse_species, ApiEvolutionChainRef, ApiFlavorText, ApiLanguageRef,
    ApiName, ApiPokemonSpecies,
};
use pokedia::api::types::{
    parse_type, ApiDamageRelations, ApiType, ApiTypeLangRef, ApiTypeName, ApiTypeRef,
    ParsedTypeEfficacy,
};
use pokedia::models::games::default_coverage;
use pokedia::models::pokemon::{collect_chain_ids, EvolutionNode};
use pokedia::models::settings::AppSettings;
use pokedia::text::{chars_of, decimal_string, push_collapsed, string_of};

fn s(text: &str) -> String {
    text.to_string()
}

fn some(text: &str) -> Option<String> {
    Some(text.to_string())
}

fn reference(name: &str, url: &str) -> ApiResourceRef {
    ApiResourceRef { name: s(name), url: s(url) }
}

#[test]
fn a_url_has_one_slash_between_base_and_path() {
    let client = PokeApiClient::new();
    assert_eq!(client.base_url, "https://pokeapi.co/api/v2");
    assert_eq!(PokeApiClient::default().base_url, "https://pokeapi.co/api/v2");
    assert_eq!(client.url("pokemon/25"), "https://pokeapi.co/api/v2/pokemon/25");
    assert_eq!(client.url("/pokemon/25"), "https://pokeapi.co/api/v2/pokemon/25");
    assert_eq!(client.url("///pokemon/25/"), "https://pokeapi.co/api/v2/pokemon/25/");
    assert_eq!(client.url(""), "https://pokeapi.co/api/v2/");
    let local = PokeApiClient { base_url: s("http://localhost:8000") };
    assert_eq!(local.list_url("move"), "http://localhost:8000/move?limit=100&offset=0");
    assert_eq!(local.detail_url("evolution-chain", 7), "http://localhost:8000/evolution-chain/7");
    assert_eq!(local.detail_url("type", -3), "http://localhost:8000/type/-3");
}

#[test]
fn id_from_url_agrees_with_the_standard_library() {
    let urls = [
        "https://pokeapi.co/api/v2/pokemon/25/",
        "https://pokeapi.co/api/v2/pokemon/25//",
        "https://pokeapi.co/api/v2/pokemon/+25/",
        "https://pokeapi.co/api/v2/pokemon/-25/",
        "https://pokeapi.co/api/v2/pokemon/025",
        "https://pokeapi.co/api/v2/pokemon/9223372036854775807/",
        "https://pokeapi.co/api/v2/pokemon/9223372036854775808/",
        "https://pokeapi.co/api/v2/pokemon/ 25/",
        "https://pokeapi.co/api/v2/pokemon/",
        "25",
        "/",
        "",
        "a/b/c",
    ];
    for url in urls {
        let expected = url.trim_end_matches('/').rsplit('/').next().and_then(|x| x.parse::<i64>().ok());
        assert_eq!(PokeApiClient::id_from_url(url), expected, "{:?}", url);
    }
}

#[test]
fn decimal_numbers_are_written_as_the_standard_library_writes_them() {
    for n in [0, 1, -1, 9, 10, 11, 99, 100, 12345, -12345, i64::MAX, i64::MIN, i64::MIN + 1] {
        assert_eq!(decimal_string(n), n.to_string());
    }
}

#[test]
fn flavor_text_is_cleaned_of_line_breaks_and_form_feeds() {
    assert_eq!(
        clean_flavor_text("When several of\nthese POKéMON\u{c}gather, their\r\nelectricity  could\nbuild."),
        "When several of these POKéMON gather, their electricity could build."
    );
    assert_eq!(clean_flavor_text(""), "");
    assert_eq!(clean_flavor_text(" \n\t "), "");
    assert_eq!(clean_flavor_text("  one  "), "one");
    assert_eq!(clean_flavor_text("a\u{a0}b\u{3000}c"), "a b c");
}

#[test]
fn cleaning_agrees_with_the_standard_library() {
    let samples = [
        "", " ", "a", " a", "a ", "a b", "a  b", "\na\n\nb\n", "a\u{c}b", "a\rb", "\u{2003}x\u{2003}",
        "tab\tseparated\tvalues", "é è", "x\u{85}y", "x\u{200b}y", "x\u{180e}y", "  multiple   spaces   here  ",
    ];
    for text in samples {
        let expected = text
            .replace('\n', " ")
            .replace('\u{000c}', " ")
            .replace('\r', " ")
            .split_whitespace()
            .collect::<Vec<_>>()
            .join(" ");
        assert_eq!(clean_flavor_text(text), expected, "{:?}", text);
        let mut out = chars_of("> ");
        push_collapsed(&mut out, &chars_of(text));
        assert_eq!(string_of(&out), format!("> {}", expected));
    }
}

fn nature() -> ApiNature {
    ApiNature {
        id: 2,
        name: s("bold"),
        names: vec![
            ApiNatureName { name: s("Assuré"), language: ApiNatureLangRef { name: s("fr") } },
            ApiNatureName { name: s("Bold"), language: ApiNatureLangRef { name: s("en") } },
            ApiNatureName { name: s("Bolder"), language: ApiNatureLangRef { name: s("en") } },
        ],
        increased_stat: Some(ApiNatureStatRef { name: s("defense") }),
        decreased_stat: None,
        likes_flavor: Some(ApiNatureFlavorRef { name: s("sour") }),
        hates_flavor: None,
    }
}

#[test]
fn a_nature_is_parsed() {
    let parsed = parse_nature(nature());
    assert_eq!(parsed.id, 2);
    assert_eq!(parsed.name_key, "bold");
    assert_eq!(parsed.name_en, some("Bold"));
    assert_eq!(parsed.name_fr, some("Assuré"));
    assert_eq!(parsed.increased_stat, some("defense"));
    assert_eq!(parsed.decreased_stat, None);
    assert_eq!(parsed.likes_flavor, some("sour"));
    assert_eq!(parsed.hates_flavor, None);
    let mut nameless = nature();
    nameless.names.clear();
    let parsed = parse_nature(nameless);
    assert_eq!(parsed.name_en, None);
    assert_eq!(parsed.name_fr, None);
}

fn item_effect(effect: Option<&str>, short: Option<&str>, lang: &str) -> ApiItemEffectEntry {
    ApiItemEffectEntry {
        effect: effect.map(s),
        short_effect: short.map(s),
        language: ApiItemLangRef { name: s(lang) },
    }
}

fn item() -> ApiItem {
    ApiItem {
        id: 4,
        name: s("poke-ball"),
        names: vec![ApiItemName { name: s("Poké Ball"), language: ApiItemLangRef { name: s("en") } }],
        category: ApiItemResourceRef { name: s("standard-balls"), url: s("https://pokeapi.co/api/v2/item-category/34/") },
        effect_entries: vec![item_effect(Some("Used in battle: long."), Some("Tries to catch."), "en")],
        flavor_text_entries: vec![
            ApiItemFlavorText { text: s("A device."), language: ApiItemLangRef { name: s("en") } },
            ApiItemFlavorText { text: s("Un objet."), language: ApiItemLangRef { name: s("fr") } },
            ApiItemFlavorText { text: s("Un autre."), language: ApiItemLangRef { name: s("fr") } },
        ],
        sprites: ApiItemSprites { default: some("https://img/poke-ball.png") },
    }
}

#[test]
fn an_item_is_parsed() {
    let parsed = parse_item(item());
    assert_eq!(parsed.id, 4);
    assert_eq!(parsed.name_key, "poke-ball");
    assert_eq!(parsed.name_en, some("Poké Ball"));
    assert_eq!(parsed.name_fr, None);
    assert_eq!(parsed.category, "standard-balls");
    assert_eq!(parsed.effect_en, some("Tries to catch."));
    assert_eq!(parsed.effect_fr, some("Un objet."));
    assert_eq!(parsed.sprite_url, some("https://img/poke-ball.png"));
}

#[test]
fn the_effect_of_an_item_falls_back_from_short_to_long_to_flavor() {
    let mut api = item();
    api.effect_entries = vec![
        item_effect(Some("long en"), None, "en"),
        item_effect(None, None, "fr"),
        item_effect(Some("late fr"), Some("late short fr"), "fr"),
    ];
    let parsed = parse_item(api);
    assert_eq!(parsed.effect_en, some("long en"));
    // the first French entry decides, and it has no effect at all
    assert_eq!(parsed.effect_fr, some("Un objet."));
    let mut api = item();
    api.effect_entries = vec![item_effect(Some("long fr"), Some("short fr"), "fr")];
    api.flavor_text_entries.clear();
    let parsed = parse_item(api);
    assert_eq!(parsed.effect_en, None);
    assert_eq!(parsed.effect_fr, some("short fr"));
}

fn a_move() -> ApiMove {
    ApiMove {
        id: 85,
        name: s("thunderbolt"),
        names: vec![
            ApiMoveName { name: s("Tonnerre"), language: ApiMoveLangRef { name: s("fr") } },
            ApiMoveName { name: s("Thunderbolt"), language: ApiMoveLangRef { name: s("en") } },
        ],
        type_info: ApiMoveResourceRef { name: s("electric"), url: s("https://pokeapi.co/api/v2/type/13/") },
        damage_class: Some(ApiMoveResourceRef { name: s("special"), url: s("https://pokeapi.co/api/v2/move-damage-class/3/") }),
        power: Some(90),
        accuracy: Some(100),
        pp: Some(15),
        priority: None,
        effect_entries: vec![ApiMoveEffectEntry {
            effect: some("Inflicts regular damage. Has a 10% chance to paralyze."),
            short_effect: some("Has a 10% chance to paralyze the target."),
            language: ApiMoveLangRef { name: s("en") },
        }],
        flavor_text_entries: vec![
            ApiMoveFlavorText { flavor_text: s("A strong electric blast."), language: ApiMoveLangRef { name: s("en") } },
            ApiMoveFlavorText { flavor_text: s("Une forte décharge."), language: ApiMoveLangRef { name: s("fr") } },
        ],
    }
}

#[test]
fn a_move_is_parsed() {
    let parsed = parse_move(a_move());
    assert_eq!(parsed.id, 85);
    assert_eq!(parsed.name_key, "thunderbolt");
    assert_eq!(parsed.name_en, some("Thunderbolt"));
    assert_eq!(parsed.name_fr, some("Tonnerre"));
    assert_eq!(parsed.type_key, "electric");
    assert_eq!(parsed.damage_class, some("special"));
    assert_eq!(parsed.power, Some(90));
    assert_eq!(parsed.accuracy, Some(100));
    assert_eq!(parsed.pp, Some(15));
    assert_eq!(parsed.priority, 0);
    assert_eq!(parsed.effect_en, some("Has a 10% chance to paralyze the target."));
    assert_eq!(parsed.effect_fr, some("Une forte décharge."));
    let mut quick = a_move();
    quick.priority = Some(-6);
    quick.damage_class = None;
    quick.flavor_text_entries.clear();
    let parsed = parse_move(quick);
    assert_eq!(parsed.priority, -6);
    assert_eq!(parsed.damage_class, None);
    assert_eq!(parsed.effect_fr, None);
}

fn type_ref(name: &str, id: &str) -> ApiTypeRef {
    ApiTypeRef { name: s(name), url: format!("https://pokeapi.co/api/v2/type/{}/", id) }
}

#[test]
fn a_type_is_parsed_with_its_efficacy_as_attacker() {
    let api = ApiType {
        id: 10,
        name: s("fire"),
        names: vec![ApiTypeName { name: s("Feu"), language: ApiTypeLangRef { name: s("fr") } }],
        damage_relations: ApiDamageRelations {
            double_damage_to: vec![type_ref("grass", "12"), type_ref("odd", "x"), type_ref("ice", "15")],
            half_damage_to: vec![type_ref("water", "11")],
            no_damage_to: vec![type_ref("none", "0")],
            double_damage_from: vec![type_ref("water", "11")],
            half_damage_from: vec![type_ref("grass", "12")],
            no_damage_from: Vec::new(),
        },
    };
    let (parsed, efficacies) = parse_type(api);
    assert_eq!(parsed.id, 10);
    assert_eq!(parsed.name_key, "fire");
    assert_eq!(parsed.name_en, None);
    assert_eq!(parsed.name_fr, some("Feu"));
    let entry = |defender, factor| ParsedTypeEfficacy {
        attacking_type_id: 10,
        defending_type_id: defender,
        damage_factor: factor,
    };
    assert_eq!(efficacies, vec![entry(12, 200), entry(15, 200), entry(11, 50), entry(0, 0)]);
}

fn ability_effect(effect: Option<&str>, short: Option<&str>, lang: &str) -> ApiAbilityEffectEntry {
    ApiAbilityEffectEntry {
        effect: effect.map(s),
        short_effect: short.map(s),
        language: ApiAbilityLangRef { name: s(lang) },
    }
}

fn ability() -> ApiAbility {
    ApiAbility {
        id: 9,
        name: s("static"),
        names: vec![
            ApiAbilityName { name: s("Static"), language: ApiAbilityLangRef { name: s("en") } },
            ApiAbilityName { name: s("Statik"), language: ApiAbilityLangRef { name: s("fr") } },
        ],
        effect_entries: vec![ability_effect(Some("Long text."), Some("Short text."), "en")],
        flavor_text_entries: vec![
            ApiAbilityFlavorText { flavor_text: s("Ancien."), language: ApiAbilityLangRef { name: s("fr") } },
            ApiAbilityFlavorText { flavor_text: s("Old."), language: ApiAbilityLangRef { name: s("en") } },
            ApiAbilityFlavorText { flavor_text: s("Récent."), language: ApiAbilityLangRef { name: s("fr") } },
            ApiAbilityFlavorText { flavor_text: s("New."), language: ApiAbilityLangRef { name: s("en") } },
        ],
        generation: ApiAbilityGenRef { name: s("generation-iii"), url: s("https://pokeapi.co/api/v2/generation/3/") },
        pokemon: vec![
            ApiAbilityPokemon {
                is_hidden: false,
                pokemon: ApiAbilityPokemonRef { name: s("pikachu"), url: s("https://pokeapi.co/api/v2/pokemon/25/") },
            },
            ApiAbilityPokemon {
                is_hidden: true,
                pokemon: ApiAbilityPokemonRef { name: s("odd"), url: s("https://pokeapi.co/api/v2/pokemon/odd/") },
            },
            ApiAbilityPokemon {
                is_hidden: true,
                pokemon: ApiAbilityPokemonRef { name: s("zapdos"), url: s("https://pokeapi.co/api/v2/pokemon/145/") },
            },
        ],
    }
}

#[test]
fn an_ability_is_parsed() {
    let parsed = parse_ability(ability());
    assert_eq!(parsed.id, 9);
    assert_eq!(parsed.name_key, "static");
    assert_eq!(parsed.name_en, some("Static"));
    assert_eq!(parsed.name_fr, some("Statik"));
    assert_eq!(parsed.effect_en, some("Long text."));
    assert_eq!(parsed.short_effect_en, some("Short text."));
    // no French effect entry: the last French flavor text stands in
    assert_eq!(parsed.effect_fr, some("Récent."));
    assert_eq!(parsed.short_effect_fr, None);
    assert_eq!(parsed.generation, Some(3));
    assert_eq!(
        parsed.pokemon,
        vec![
            ParsedAbilityPokemon { pokemon_id: 25, is_hidden: false },
            ParsedAbilityPokemon { pokemon_id: 145, is_hidden: true },
        ]
    );
    let mut french = ability();
    french.effect_entries.push(ability_effect(Some("Texte long."), Some("Texte court."), "fr"));
    french.generation.url = s("nowhere");
    let parsed = parse_ability(french);
    assert_eq!(parsed.effect_fr, some("Texte long."));
    assert_eq!(parsed.short_effect_fr, some("Texte court."));
    assert_eq!(parsed.generation, None);
}

#[test]
fn a_species_is_parsed() {
    let api = ApiPokemonSpecies {
        id: 25,
        name: s("pikachu"),
        names: vec![
            ApiName { name: s("Pikachu"), language: ApiLanguageRef { name: s("fr") } },
            ApiName { name: s("Pikachu"), language: ApiLanguageRef { name: s("en") } },
        ],
        flavor_text_entries: vec![
            ApiFlavorText { flavor_text: s("When several\nof these\u{c}gather."), language: ApiLanguageRef { name: s("en") } },
            ApiFlavorText { flavor_text: s("Later text."), language: ApiLanguageRef { name: s("en") } },
        ],
        evolution_chain: Some(ApiEvolutionChainRef { url: s("https://pokeapi.co/api/v2/evolution-chain/10/") }),
    };
    let parsed = parse_species(api);
    assert_eq!(parsed.id, 25);
    assert_eq!(parsed.name_en, some("Pikachu"));
    assert_eq!(parsed.name_fr, some("Pikachu"));
    assert_eq!(parsed.description_en, some("When several of these gather."));
    assert_eq!(parsed.description_fr, None);
    assert_eq!(parsed.evolution_chain_id, Some(10));
    let bare = ApiPokemonSpecies {
        id: 1,
        name: s("x"),
        names: Vec::new(),
        flavor_text_entries: Vec::new(),
        evolution_chain: None,
    };
    let parsed = parse_species(bare);
    assert_eq!(parsed.name_en, None);
    assert_eq!(parsed.evolution_chain_id, None);
}

fn stat(name: &str, value: i64) -> ApiPokemonStat {
    ApiPokemonStat { base_stat: value, stat: reference(name, "https://pokeapi.co/api/v2/stat/1/") }
}

fn detail(level: i64, method: &str, group: &str) -> ApiVersionGroupDetail {
    ApiVersionGroupDetail {
        level_learned_at: level,
        move_learn_method: reference(method, "https://pokeapi.co/api/v2/move-learn-method/1/"),
        version_group: reference(group, "https://pokeapi.co/api/v2/version-group/1/"),
    }
}

fn pokemon() -> ApiPokemon {
    ApiPokemon {
        id: 25,
        name: s("pikachu"),
        height: Some(4),
        weight: None,
        types: vec![
            ApiPokemonTypeSlot { slot: 2, type_info: reference("fairy", "https://pokeapi.co/api/v2/type/18/") },
            ApiPokemonTypeSlot { slot: 1, type_info: reference("electric", "https://pokeapi.co/api/v2/type/13/") },
            ApiPokemonTypeSlot { slot: 1, type_info: reference("late", "https://pokeapi.co/api/v2/type/1/") },
        ],
        stats: vec![
            stat("hp", 35),
            stat("attack", 55),
            stat("defense", 40),
            stat("special-attack", 50),
            stat("special-defense", 50),
            stat("speed", 90),
            stat("speed", 1),
        ],
        abilities: vec![
            ApiPokemonAbilitySlot { ability: reference("static", "https://pokeapi.co/api/v2/ability/9/"), is_hidden: false, slot: 1 },
            ApiPokemonAbilitySlot { ability: reference("lightning-rod", "https://pokeapi.co/api/v2/ability/31/"), is_hidden: true, slot: 3 },
        ],
        moves: vec![
            ApiPokemonMoveEntry {
                move_info: reference("thunderbolt", "https://pokeapi.co/api/v2/move/85/"),
                version_group_details: vec![detail(26, "level-up", "red-blue"), detail(0, "machine", "scarlet-violet")],
            },
            ApiPokemonMoveEntry {
                move_info: reference("forgotten", "https://pokeapi.co/api/v2/move/1/"),
                version_group_details: Vec::new(),
            },
            ApiPokemonMoveEntry {
                move_info: reference("growl", "https://pokeapi.co/api/v2/move/growl/"),
                version_group_details: vec![detail(1, "level-up", "red-blue")],
            },
        ],
        sprites: ApiSprites {
            front_default: some("https://img/front.png"),
            other: Some(ApiOtherSprites {
                official_artwork: Some(ApiOfficialArtwork { front_default: some("https://img/art.png") }),
            }),
        },
        species: reference("pikachu", "https://pokeapi.co/api/v2/pokemon-species/25/"),
    }
}

#[test]
fn a_creature_is_parsed() {
    assert!(stats_in_range(&pokemon()));
    let parsed = parse_pokemon(pokemon());
    assert_eq!(parsed.id, 25);
    assert_eq!(parsed.name_key, "pikachu");
    assert_eq!(parsed.type1_key, some("electric"));
    assert_eq!(parsed.type2_key, some("fairy"));
    assert_eq!((parsed.hp, parsed.atk, parsed.def), (35, 55, 40));
    assert_eq!((parsed.spa, parsed.spd, parsed.spe), (50, 50, 90));
    assert_eq!(parsed.base_stat_total, 320);
    assert_eq!(parsed.sprite_url, some("https://img/art.png"));
    assert_eq!(parsed.height, Some(4));
    assert_eq!(parsed.weight, None);
    assert_eq!(parsed.species_url, "https://pokeapi.co/api/v2/pokemon-species/25/");
    assert_eq!(parsed.abilities.len(), 2);
    assert_eq!(parsed.abilities[0].ability_key, "static");
    assert!(!parsed.abilities[0].is_hidden);
    assert_eq!(parsed.abilities[0].slot, 1);
    assert_eq!(parsed.abilities[1].ability_key, "lightning-rod");
    assert!(parsed.abilities[1].is_hidden);
    assert_eq!(parsed.abilities[1].slot, 3);
    assert_eq!(parsed.moves.len(), 2);
    assert_eq!(parsed.moves[0].move_name, "thunderbolt");
    assert_eq!(parsed.moves[0].move_id, Some(85));
    assert_eq!(parsed.moves[0].learn_method, "machine");
    assert_eq!(parsed.moves[0].level_learned_at, 0);
    assert_eq!(parsed.moves[1].move_name, "growl");
    assert_eq!(parsed.moves[1].move_id, None);
    assert_eq!(parsed.moves[1].level_learned_at, 1);
    let groups: Vec<(&str, &str, &str, i64)> = parsed
        .version_group_moves
        .iter()
        .map(|m| (m.version_group.as_str(), m.move_name.as_str(), m.learn_method.as_str(), m.level_learned_at))
        .collect();
    assert_eq!(
        groups,
        vec![
            ("red-blue", "thunderbolt", "level-up", 26),
            ("scarlet-violet", "thunderbolt", "machine", 0),
            ("red-blue", "growl", "level-up", 1),
        ]
    );
}

#[test]
fn a_creature_without_artwork_types_or_stats_is_parsed() {
    let mut api = pokemon();
    api.sprites.other = Some(ApiOtherSprites { official_artwork: Some(ApiOfficialArtwork { front_default: None }) });
    api.types.clear();
    api.stats = vec![stat("attack", -5)];
    let parsed = parse_pokemon(api);
    assert_eq!(parsed.sprite_url, some("https://img/front.png"));
    assert_eq!(parsed.type1_key, None);
    assert_eq!(parsed.type2_key, None);
    assert_eq!((parsed.hp, parsed.atk, parsed.base_stat_total), (0, -5, -5));
    let mut api = pokemon();
    api.sprites = ApiSprites { front_default: None, other: None };
    assert_eq!(parse_pokemon(api).sprite_url, None);
}

#[test]
fn stats_that_do_not_add_up_in_an_i64_are_told_apart() {
    let mut api = pokemon();
    api.stats = vec![stat("hp", i64::MAX), stat("attack", 1)];
    assert!(!stats_in_range(&api));
    api.stats = vec![stat("hp", i64::MAX), stat("attack", 1), stat("defense", -1)];
    assert!(stats_in_range(&api));
    assert_eq!(parse_pokemon(api).base_stat_total, i64::MAX);
    let mut api = pokemon();
    api.stats = vec![stat("hp", i64::MIN), stat("speed", -1)];
    assert!(!stats_in_range(&api));
}

fn evo_ref(name: &str) -> Option<ApiEvoResourceRef> {
    Some(ApiEvoResourceRef { name: s(name), url: s("https://pokeapi.co/api/v2/x/1/") })
}

fn no_detail() -> ApiEvolutionDetail {
    ApiEvolutionDetail {
        trigger: None,
        min_level: None,
        item: None,
        held_item: None,
        min_happiness: None,
        time_of_day: None,
        known_move: None,
        location: None,
    }
}

#[test]
fn the_trigger_of_an_evolution_is_described() {
    assert_eq!(build_trigger_detail(&no_detail()), None);
    assert_eq!(build_trigger_detail(&ApiEvolutionDetail { min_level: Some(16), ..no_detail() }), some("Level 16"));
    assert_eq!(build_trigger_detail(&ApiEvolutionDetail { item: evo_ref("thunder-stone"), ..no_detail() }), some("Use thunder-stone"));
    assert_eq!(build_trigger_detail(&ApiEvolutionDetail { time_of_day: some(""), ..no_detail() }), None);
    assert_eq!(
        build_trigger_detail(&ApiEvolutionDetail {
            min_happiness: Some(220),
            time_of_day: some("night"),
            ..no_detail()
        }),
        some("Happiness 220, at night")
    );
    assert_eq!(
        build_trigger_detail(&ApiEvolutionDetail {
            trigger: evo_ref("level-up"),
            min_level: Some(-1),
            item: evo_ref("a"),
            held_item: evo_ref("b"),
            min_happiness: Some(0),
            time_of_day: some("day"),
            known_move: evo_ref("c"),
            location: evo_ref("d"),
        }),
        some("Level -1, Use a, Hold b, Happiness 0, at day, Know c, at d")
    );
}

fn link(name: &str, id: &str, details: Vec<ApiEvolutionDetail>, evolves_to: Vec<ApiChainLink>) -> ApiChainLink {
    ApiChainLink {
        species: ApiEvoResourceRef { name: s(name), url: format!("https://pokeapi.co/api/v2/pokemon-species/{}/", id) },
        evolution_details: details,
        evolves_to,
    }
}

fn chain() -> ApiChainLink {
    link(
        "eevee",
        "133",
        Vec::new(),
        vec![
            link(
                "vaporeon",
                "134",
                vec![
                    ApiEvolutionDetail { trigger: evo_ref("use-item"), item: evo_ref("water-stone"), ..no_detail() },
                    ApiEvolutionDetail { trigger: evo_ref("other"), min_level: Some(99), ..no_detail() },
                ],
                Vec::new(),
            ),
            link("mystery", "unknown", vec![no_detail()], vec![link("deep", "700", Vec::new(), Vec::new())]),
            link(
                "umbreon",
                "197",
                vec![ApiEvolutionDetail {
                    trigger: evo_ref("level-up"),
                    min_happiness: Some(160),
                    time_of_day: some("night"),
                    ..no_detail()
                }],
                Vec::new(),
            ),
        ],
    )
}

#[test]
fn a_chain_is_parsed_into_a_tree() {
    let root = parse_chain_link(&chain());
    assert_eq!(root.pokemon_id, Some(133));
    assert_eq!(root.name_key, "eevee");
    assert_eq!(root.name_en, None);
    assert_eq!(root.name_fr, None);
    assert_eq!(root.sprite_url, None);
    assert_eq!(root.trigger, None);
    assert_eq!(root.trigger_detail, None);
    assert_eq!(root.evolves_to.len(), 3);
    let vaporeon = &root.evolves_to[0];
    assert_eq!(vaporeon.pokemon_id, Some(134));
    assert_eq!(vaporeon.trigger, some("use-item"));
    assert_eq!(vaporeon.trigger_detail, some("Use water-stone"));
    assert!(vaporeon.evolves_to.is_empty());
    let mystery = &root.evolves_to[1];
    assert_eq!(mystery.pokemon_id, None);
    assert_eq!(mystery.trigger, None);
    assert_eq!(mystery.trigger_detail, None);
    assert_eq!(mystery.evolves_to[0].pokemon_id, Some(700));
    let umbreon = &root.evolves_to[2];
    assert_eq!(umbreon.trigger, some("level-up"));
    assert_eq!(umbreon.trigger_detail, some("Happiness 160, at night"));
    let (id, tree) = parse_evolution_chain(&ApiEvolutionChain { id: 67, chain: chain() });
    assert_eq!(id, 67);
    assert_eq!(tree.evolves_to.len(), 3);
}

#[test]
fn the_identifiers_of_a_tree_are_collected_node_before_children() {
    let root = parse_chain_link(&chain());
    let mut ids = vec![-1];
    collect_chain_ids(&root, &mut ids);
    assert_eq!(ids, vec![-1, 133, 134, 700, 197]);
    let copy = root.clone();
    let mut again = Vec::new();
    collect_chain_ids(&copy, &mut again);
    assert_eq!(again, vec![133, 134, 700, 197]);
    assert_eq!(copy.evolves_to[2].trigger_detail, some("Happiness 160, at night"));
    let leaf = EvolutionNode {
        pokemon_id: None,
        name_key: s("leaf"),
        name_en: None,
        name_fr: None,
        sprite_url: None,
        trigger: None,
        trigger_detail: None,
        evolves_to: Vec::new(),
    };
    let mut none = Vec::new();
    collect_chain_ids(&leaf, &mut none);
    assert!(none.is_empty());
}

#[test]
fn defaults_are_as_documented() {
    assert_eq!(default_coverage(), "full");
    let settings = AppSettings::default();
    assert_eq!(settings.lang_pokemon_names, "en");
    assert_eq!(settings.lang_move_names, "en");
    assert_eq!(settings.lang_item_names, "en");
    assert_eq!(settings.lang_descriptions, "fr");
    assert_eq!(settings.theme, "dark");
}
