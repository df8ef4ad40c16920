//! The translation table.
//!
//! A lookup table from a language and a text key to the translated string.
//! The surrounding application fills it once at startup from its
//! translation files and reads it on every render pass. An entry never
//! shadows an earlier one: the first match wins, so duplicate keys keep
//! their first translation.

use vstd::prelude::*;

verus! {

/// A display language of the user interface.
#[derive(Clone, Copy, Debug, PartialEq, Eq, Hash, Structural)]
pub enum Language {
    English,
    Ukrainian,
}

/// Compare two strings by their characters.
fn str_eq(a: &str, b: &str) -> (r: bool)
    ensures
        r == (a@ == b@),
{
    let a_len = a.unicode_len();
    let b_len = b.unicode_len();
    if a_len != b_len {
        return false;
    }
    let mut i: usize = 0;
    while i < a_len
        invariant
            0 <= i <= a_len,
            a_len == a@.len(),
            a_len == b@.len(),
            forall|j: int| 0 <= j < i ==> a@[j] == b@[j],
        decreases a_len - i,
    {
        if a.get_char(i) != b.get_char(i) {
            return false;
        }
        i = i + 1;
    }
    proof {
        assert(a@ =~= b@);
    }
    true
}

/// The translation found for `lang` and `key` among the entries from
/// index `i` on: the first entry whose language and key both match.
pub closed spec fn lookup_from(
    entries: Seq<(Language, String, String)>,
    i: int,
    lang: Language,
    key: Seq<char>,
) -> Option<Seq<char>>
    decreases entries.len() - i,
{
    if i < 0 || i >= entries.len() {
        None
    } else if entries[i].0 == lang && entries[i].1@ == key {
        Some(entries[i].2@)
    } else {
        lookup_from(entries, i + 1, lang, key)
    }
}

proof fn lemma_lookup_from_push(
    entries: Seq<(Language, String, String)>,
    i: int,
    lang: Language,
    key: Seq<char>,
    entry: (Language, String, String),
)
    requires
        0 <= i <= entries.len(),
    ensures
        lookup_from(entries.push(entry), i, lang, key) == (match lookup_from(
            entries,
            i,
            lang,
            key,
        ) {
            Some(v) => Some(v),
            None => if entry.0 == lang && entry.1@ == key {
                Some(entry.2@)
            } else {
                None
            },
        }),
    decreases entries.len() - i,
{
    if i < entries.len() {
        assert(entries.push(entry)[i] == entries[i]);
        if !(entries[i].0 == lang && entries[i].1@ == key) {
            lemma_lookup_from_push(entries, i + 1, lang, key, entry);
        }
    } else {
        assert(entries.push(entry)[i] == entry);
        assert(lookup_from(entries, i, lang, key) is None);
        assert(lookup_from(entries.push(entry), i + 1, lang, key) is None);
    }
}

/// The translation table: language-tagged key/translation entries.
pub struct I18n {
    entries: Vec<(Language, String, String)>,
}

impl I18n {
    /// The translation the table holds for `lang` and `key`, if any.
    pub closed spec fn spec_get(self, lang: Language, key: Seq<char>) -> Option<Seq<char>> {
        lookup_from(self.entries@, 0, lang, key)
    }

    /// An empty table: no translation for any language and key.
    pub fn new() -> (table: I18n)
        ensures
            forall|lang: Language, key: Seq<char>| #[trigger] table.spec_get(lang, key) is None,
    {
        let table = I18n { entries: Vec::new() };
        proof {
            assert forall|lang: Language, key: Seq<char>| #[trigger]
                table.spec_get(lang, key) is None by {
                assert(table.entries@.len() == 0);
            }
        }
        table
    }

    /// Add a translation. It fills the given slot if it was empty; every
    /// slot already filled keeps its translation.
    pub fn insert(&mut self, lang: Language, key: String, value: String)
        ensures
            forall|l: Language, k: Seq<char>| #[trigger]
                final(self).spec_get(l, k) == (match old(self).spec_get(l, k) {
                    Some(v) => Some(v),
                    None => if l == lang && k == key@ {
                        Some(value@)
                    } else {
                        None
                    },
                }),
    {
        let ghost before = self.entries@;
        let ghost entry = (lang, key, value);
        self.entries.push((lang, key, value));
        proof {
            assert(self.entries@ =~= before.push(entry));
            assert forall|l: Language, k: Seq<char>| #[trigger]
                self.spec_get(l, k) == (match lookup_from(before, 0, l, k) {
                    Some(v) => Some(v),
                    None => if l == lang && k == key@ {
                        Some(value@)
                    } else {
                        None
                    },
                }) by {
                lemma_lookup_from_push(before, 0, l, k, entry);
            }
        }
    }

    /// Look a key up for a language: the first matching entry's
    /// translation, or nothing if the table holds none.
    pub fn get(&self, lang: &Language, key: &str) -> (r: Option<&str>)
        ensures
            r is Some <==> self.spec_get(*lang, key@) is Some,
            r matches Some(v) ==> self.spec_get(*lang, key@) == Some(v@),
    {
        let n = self.entries.len();
        let mut i: usize = 0;
        while i < n
            invariant
                0 <= i <= n,
                n == self.entries@.len(),
                lookup_from(self.entries@, 0, *lang, key@) == lookup_from(
                    self.entries@,
                    i as int,
                    *lang,
                    key@,
                ),
            decreases n - i,
        {
            let entry = &self.entries[i];
            if entry.0 == *lang && str_eq(entry.1.as_str(), key) {
                return Some(self.entries[i].2.as_str());
            }
            i = i + 1;
        }
        None
    }
}

impl Default for I18n {
    /// An empty table.
    fn default() -> (table: I18n)
        ensures
            forall|lang: Language, key: Seq<char>| #[trigger] table.spec_get(lang, key) is None,
    {
        I18n::new()
    }
}

} // verus!
