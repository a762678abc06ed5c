//! Entries that come in several languages, and how one language is picked.

use vstd::prelude::*;

verus! {

/// An entry of the API that is written in one language.
pub trait Localized {
    /// The code of the language of this entry, such as `en`.
    spec fn language(&self) -> Seq<char>;

    /// The code of the language of this entry.
    fn language_code(&self) -> (code: &String)
        ensures
            code@ == self.language(),
    ;
}

/// The index of the first entry written in `lang`.
pub open spec fn first_in_language<T: Localized>(entries: Seq<T>, lang: Seq<char>) -> Option<int>
    decreases entries.len(),
{
    if entries.len() == 0 {
        None
    } else if entries[0].language() == lang {
        Some(0)
    } else {
        match first_in_language(entries.drop_first(), lang) {
            Some(i) => Some(i + 1),
            None => None,
        }
    }
}

/// The index of the last entry written in `lang`.
pub open spec fn last_in_language<T: Localized>(entries: Seq<T>, lang: Seq<char>) -> Option<int>
    decreases entries.len(),
{
    if entries.len() == 0 {
        None
    } else if entries.last().language() == lang {
        Some(entries.len() - 1)
    } else {
        last_in_language(entries.drop_last(), lang)
    }
}

/// The first entry in `lang` is the one at `i` when none before it is in
/// `lang`; there is none when `i` is the length and no entry is in `lang`.
pub proof fn lemma_first_in_language<T: Localized>(entries: Seq<T>, lang: Seq<char>, i: int)
    requires
        0 <= i <= entries.len(),
        forall|j: int| 0 <= j < i ==> entries[j].language() != lang,
        i < entries.len() ==> entries[i].language() == lang,
    ensures
        first_in_language(entries, lang) == if i < entries.len() {
            Some(i)
        } else {
            None
        },
    decreases i,
{
    if i > 0 {
        let rest = entries.drop_first();
        assert forall|j: int| 0 <= j < i - 1 implies rest[j].language() != lang by {
            assert(rest[j] == entries[j + 1]);
        }
        lemma_first_in_language(rest, lang, i - 1);
    }
}

/// The last entry in `lang` is the one at `i` when none behind it is in
/// `lang`; there is none when `i` is `-1` and no entry is in `lang`.
pub proof fn lemma_last_in_language<T: Localized>(entries: Seq<T>, lang: Seq<char>, i: int)
    requires
        -1 <= i < entries.len(),
        forall|j: int| i < j < entries.len() ==> entries[j].language() != lang,
        0 <= i ==> entries[i].language() == lang,
    ensures
        last_in_language(entries, lang) == if 0 <= i {
            Some(i)
        } else {
            None
        },
    decreases entries.len(),
{
    if entries.len() > 0 && i < entries.len() - 1 {
        lemma_last_in_language(entries.drop_last(), lang, i);
    }
}

/// Finds the first entry written in `lang`.
pub fn find_first<T: Localized>(entries: &Vec<T>, lang: &String) -> (found: Option<usize>)
    ensures
        match found {
            Some(i) => first_in_language(entries@, lang@) == Some(i as int) && i < entries.len(),
            None => first_in_language(entries@, lang@) is None,
        },
{
    let mut i: usize = 0;
    while i < entries.len()
        invariant
            i <= entries.len(),
            forall|j: int| 0 <= j < i ==> entries@[j].language() != lang@,
        decreases entries.len() - i,
    {
        if *entries[i].language_code() == *lang {
            proof {
                lemma_first_in_language(entries@, lang@, i as int);
            }
            return Some(i);
        }
        i += 1;
    }
    proof {
        lemma_first_in_language(entries@, lang@, i as int);
    }
    None
}

/// Finds the last entry written in `lang`.
pub fn find_last<T: Localized>(entries: &Vec<T>, lang: &String) -> (found: Option<usize>)
    ensures
        match found {
            Some(i) => last_in_language(entries@, lang@) == Some(i as int) && i < entries.len(),
            None => last_in_language(entries@, lang@) is None,
        },
{
    let mut i: usize = entries.len();
    while i > 0
        invariant
            i <= entries.len(),
            forall|j: int| i <= j < entries.len() ==> entries@[j].language() != lang@,
        decreases i,
    {
        i -= 1;
        if *entries[i].language_code() == *lang {
            proof {
                lemma_last_in_language(entries@, lang@, i as int);
            }
            return Some(i);
        }
    }
    proof {
        lemma_last_in_language(entries@, lang@, -1);
    }
    None
}

/// The code of the English language.
pub open spec fn english() -> Seq<char> {
    "en"@
}

/// The code of the French language.
pub open spec fn french() -> Seq<char> {
    "fr"@
}

} // verus!
