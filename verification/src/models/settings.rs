//! The settings of the application.

use crate::text::{chars_of, push_str, string_of};
use vstd::prelude::*;

verus! {

/// The settings, one field for each key of the settings table.
#[derive(Debug, Clone)]
pub struct AppSettings {
    pub lang_pokemon_names: String,
    pub lang_move_names: String,
    pub lang_item_names: String,
    pub lang_descriptions: String,
    pub theme: String,
}

impl Default for AppSettings {
    /// Names in English, descriptions in French, the dark theme.
    fn default() -> (settings: Self)
        ensures
            settings.lang_pokemon_names@ == "en"@,
            settings.lang_move_names@ == "en"@,
            settings.lang_item_names@ == "en"@,
            settings.lang_descriptions@ == "fr"@,
            settings.theme@ == "dark"@,
    {
        AppSettings {
            lang_pokemon_names: "en".to_owned(),
            lang_move_names: "en".to_owned(),
            lang_item_names: "en".to_owned(),
            lang_descriptions: "fr".to_owned(),
            theme: "dark".to_owned(),
        }
    }
}

/// Whether `key` is the key of a setting.
pub open spec fn is_setting_key(key: Seq<char>) -> bool {
    ||| key == "lang_pokemon_names"@
    ||| key == "lang_move_names"@
    ||| key == "lang_item_names"@
    ||| key == "lang_descriptions"@
    ||| key == "theme"@
}

/// The settings with the one under `key` set to `value`; unchanged where
/// `key` is the key of no setting.
pub open spec fn with_setting(settings: AppSettings, key: Seq<char>, value: String) -> AppSettings {
    if key == "lang_pokemon_names"@ {
        AppSettings { lang_pokemon_names: value, ..settings }
    } else if key == "lang_move_names"@ {
        AppSettings { lang_move_names: value, ..settings }
    } else if key == "lang_item_names"@ {
        AppSettings { lang_item_names: value, ..settings }
    } else if key == "lang_descriptions"@ {
        AppSettings { lang_descriptions: value, ..settings }
    } else if key == "theme"@ {
        AppSettings { theme: value, ..settings }
    } else {
        settings
    }
}

/// The settings after the rows of the settings table have been applied in
/// order, a later row overriding an earlier one.
pub open spec fn with_rows(settings: AppSettings, rows: Seq<(String, String)>) -> AppSettings
    decreases rows.len(),
{
    if rows.len() == 0 {
        settings
    } else {
        with_setting(with_rows(settings, rows.drop_last()), rows.last().0@, rows.last().1)
    }
}

/// What is answered when a setting is to be set under a key that is none.
pub open spec fn invalid_key_message(key: Seq<char>) -> Seq<char> {
    "Invalid setting key: "@ + key
}

fn same_text(a: &str, b: &str) -> (same: bool)
    ensures
        same == (a@ == b@),
{
    a.to_owned() == b.to_owned()
}

impl AppSettings {
    /// Whether `key` is the key of a setting.
    pub fn is_valid_key(key: &str) -> (valid: bool)
        ensures
            valid == is_setting_key(key@),
    {
        same_text(key, "lang_pokemon_names") || same_text(key, "lang_move_names") || same_text(
            key,
            "lang_item_names",
        ) || same_text(key, "lang_descriptions") || same_text(key, "theme")
    }

    /// Sets the setting under `key` to `value`. A key that is the key of no
    /// setting changes nothing.
    pub fn set(&mut self, key: &str, value: String)
        ensures
            *final(self) == with_setting(*old(self), key@, value),
    {
        if same_text(key, "lang_pokemon_names") {
            self.lang_pokemon_names = value;
        } else if same_text(key, "lang_move_names") {
            self.lang_move_names = value;
        } else if same_text(key, "lang_item_names") {
            self.lang_item_names = value;
        } else if same_text(key, "lang_descriptions") {
            self.lang_descriptions = value;
        } else if same_text(key, "theme") {
            self.theme = value;
        }
    }

    /// The settings that the rows of the settings table make of `defaults`.
    pub fn from_rows(defaults: AppSettings, rows: Vec<(String, String)>) -> (settings: Self)
        ensures
            settings == with_rows(defaults, rows@),
    {
        let mut settings = defaults;
        for row in it: rows.into_iter()
            invariant
                it.seq() == rows@,
                settings == with_rows(defaults, it.seq().take(it.index() as int)),
        {
            assert(it.seq().take(it.index() + 1).drop_last() =~= it.seq().take(it.index() as int));
            settings.set(row.0.as_str(), row.1);
        }
        assert(rows@.take(rows@.len() as int) =~= rows@);
        settings
    }

    /// What is answered when a setting is to be set under `key`, which is
    /// none.
    pub fn invalid_key(key: &str) -> (message: String)
        ensures
            message@ == invalid_key_message(key@),
    {
        let mut text = chars_of("Invalid setting key: ");
        push_str(&mut text, key);
        string_of(&text)
    }
}

} // verus!
