use vstd::prelude::*;

use super::catalog::{ENGLISH_JSON, SPANISH_JSON};

verus! {

/// A source of interface texts.
pub trait I18nPort {
    /// The text for `key`.
    fn t(&self, key: &str) -> String;

    /// The language code of the texts.
    fn language(&self) -> &str;
}

/// (key, text) pairs read as character sequences.
pub open spec fn pairs_view(v: Seq<(String, String)>) -> Seq<(Seq<char>, Seq<char>)> {
    v.map_values(|p: (String, String)| (p.0@, p.1@))
}

/// The text of the first entry with the given key.
pub open spec fn lookup(entries: Seq<(Seq<char>, Seq<char>)>, key: Seq<char>) -> Option<Seq<char>>
    decreases entries.len(),
{
    if entries.len() == 0 {
        None
    } else if entries[0].0 == key {
        Some(entries[0].1)
    } else {
        lookup(entries.subrange(1, entries.len() as int), key)
    }
}

/// The (key, text) pairs of a JSON object whose values are all strings,
/// ordered by key, as serde_json reads it into a `BTreeMap<String, String>`;
/// `None` when the text is not such an object.
pub uninterp spec fn spec_json_string_map(json: Seq<char>) -> Option<Seq<(Seq<char>, Seq<char>)>>;

/// Reads a JSON object of strings (serde_json's `from_str` into a
/// `BTreeMap<String, String>`, whose pairs are then listed in key order).
/// The contract claims that the result is the name `spec_json_string_map`
/// applied to the text.
#[verifier::external_body]
fn parse_string_map(json: &str) -> (r: Option<Vec<(String, String)>>)
    ensures
        match r {
            Some(v) => spec_json_string_map(json@) == Some(pairs_view(v@)),
            None => spec_json_string_map(json@) is None,
        },
{
    match serde_json::from_str::<std::collections::BTreeMap<String, String>>(json) {
        Ok(m) => Some(m.into_iter().collect()),
        Err(_) => None,
    }
}

/// The system locale (sys_locale's `get_locale`), such as "en-US". It
/// depends on the environment, so nothing is promised of it.
#[verifier::external_body]
fn system_locale() -> Option<String> {
    sys_locale::get_locale()
}

/// The catalog a language code selects: Spanish for "es", English otherwise.
pub open spec fn catalog_text(lang: Seq<char>) -> Seq<char> {
    if lang == "es"@ { SPANISH_JSON@ } else { ENGLISH_JSON@ }
}

/// The language whose texts are used for a language code: Spanish for
/// "es", English for any other.
pub open spec fn supported_language(lang: Seq<char>) -> Seq<char> {
    if lang == "es"@ { "es"@ } else { "en"@ }
}

/// The entries loaded for a language: its catalog, else the English one,
/// else none.
pub open spec fn loaded_entries(lang: Seq<char>) -> Seq<(Seq<char>, Seq<char>)> {
    match spec_json_string_map(catalog_text(lang)) {
        Some(e) => e,
        None => match spec_json_string_map(ENGLISH_JSON@) {
            Some(e) => e,
            None => Seq::empty(),
        },
    }
}

/// What std's `str::to_lowercase` gives for a text: its Unicode lowercase.
pub uninterp spec fn spec_str_to_lowercase(s: Seq<char>) -> Seq<char>;

/// The lowercase of a text (std's `str::to_lowercase`). The contract claims
/// only that the result is the name `spec_str_to_lowercase` of the text.
#[verifier::external_body]
fn str_to_lowercase(s: &str) -> (r: String)
    ensures
        r@ == spec_str_to_lowercase(s@),
{
    s.to_lowercase()
}

/// The characters that make up the first two bytes of the UTF-8 text of
/// `l`, when those bytes end at a character boundary: two characters of one
/// byte (below U+0080), or one character of two bytes (U+0080 to U+07FF).
pub open spec fn two_byte_prefix(l: Seq<char>) -> Option<Seq<char>> {
    if l.len() >= 1 && (l[0] as u32) < 0x80 {
        if l.len() >= 2 && (l[1] as u32) < 0x80 {
            Some(l.subrange(0, 2))
        } else {
            None
        }
    } else if l.len() >= 1 && (l[0] as u32) < 0x800 {
        Some(l.subrange(0, 1))
    } else {
        None
    }
}

/// The language code read from a locale name: the lowercase of its first
/// two bytes when they end at a character boundary, "en" otherwise.
pub open spec fn locale_language(locale: Option<Seq<char>>) -> Seq<char> {
    match locale {
        Some(l) => match two_byte_prefix(l) {
            Some(p) => spec_str_to_lowercase(p),
            None => "en"@,
        },
        None => "en"@,
    }
}

/// Interface texts of one language.
#[derive(Debug)]
pub struct Translations {
    entries: Vec<(String, String)>,
    language: String,
}

impl Translations {
    pub closed spec fn spec_entries(&self) -> Seq<(Seq<char>, Seq<char>)> {
        pairs_view(self.entries@)
    }

    pub closed spec fn spec_language(&self) -> Seq<char> {
        self.language@
    }

    /// The text for `key`, or the key itself when no text exists.
    pub open spec fn spec_t(&self, key: Seq<char>) -> Seq<char> {
        match lookup(self.spec_entries(), key) {
            Some(v) => v,
            None => key,
        }
    }

    /// The language code read from a locale name (see `locale_language`).
    pub fn language_of_locale(locale: Option<String>) -> (s: String)
        ensures
            s@ == locale_language(match locale { Some(l) => Some(l@), None => None }),
    {
        match locale {
            Some(l) => {
                let n = l.as_str().unicode_len();
                if n >= 1 {
                    let c0 = l.as_str().get_char(0);
                    if (c0 as u32) < 0x80 {
                        if n >= 2 {
                            let c1 = l.as_str().get_char(1);
                            if (c1 as u32) < 0x80 {
                                return str_to_lowercase(l.as_str().substring_char(0, 2));
                            }
                        }
                    } else if (c0 as u32) < 0x800 {
                        return str_to_lowercase(l.as_str().substring_char(0, 1));
                    }
                }
                crate::text::owned("en")
            },
            None => crate::text::owned("en"),
        }
    }

    /// The two-letter language code of the system locale, "en" when it
    /// cannot be read.
    pub fn detect_locale() -> (s: String)
        ensures
            exists|l: Option<Seq<char>>| s@ == locale_language(l),
    {
        let loc = system_locale();
        Translations::language_of_locale(loc)
    }

    /// Texts given as (key, text) pairs for a language; the first pair of a
    /// key wins.
    pub fn from_entries(entries: Vec<(String, String)>, language: String) -> (t: Translations)
        ensures
            t.spec_entries() == pairs_view(entries@),
            t.spec_language() == language@,
    {
        Translations { entries, language }
    }

    /// Load the texts of a language: Spanish for "es", English for anything
    /// else; when a catalog cannot be read the English one is used, and when
    /// that fails too there are no texts (every key stands for itself).
    pub fn load(lang: &str) -> (t: Translations)
        ensures
            t.spec_entries() == loaded_entries(lang@),
            t.spec_language() == lang@,
    {
        proof {
            reveal_strlit("es");
        }
        let json = if crate::text::str_eq(lang, "es") { SPANISH_JSON } else { ENGLISH_JSON };
        let entries = match parse_string_map(json) {
            Some(e) => e,
            None => match parse_string_map(ENGLISH_JSON) {
                Some(e) => e,
                None => {
                    let e: Vec<(String, String)> = Vec::new();
                    assert(pairs_view(e@) =~= Seq::<(Seq<char>, Seq<char>)>::empty());
                    e
                },
            },
        };
        Translations { entries, language: crate::text::owned(lang) }
    }

    /// Load the texts of the system's language; a language without texts of
    /// its own falls back to English, so the language is "es" or "en".
    pub fn load_auto() -> (t: Translations)
        ensures
            exists|l: Option<Seq<char>>| t.spec_language() == supported_language(locale_language(l))
                && t.spec_entries() == loaded_entries(supported_language(locale_language(l))),
            t.spec_language() == "es"@ || t.spec_language() == "en"@,
    {
        proof {
            reveal_strlit("es");
        }
        let lang = Translations::detect_locale();
        if crate::text::str_eq(lang.as_str(), "es") {
            Translations::load("es")
        } else {
            Translations::load("en")
        }
    }

    /// The language to start in: the saved one, except that the default
    /// "en" defers to the system's language.
    pub fn startup_language(saved: &str) -> (s: String)
        ensures
            saved@ != "en"@ ==> s@ == saved@,
            saved@ == "en"@ ==> exists|l: Option<Seq<char>>| s@ == locale_language(l),
    {
        if crate::text::str_eq(saved, "en") {
            Translations::detect_locale()
        } else {
            crate::text::owned(saved)
        }
    }

    pub fn language(&self) -> (s: &str)
        ensures
            s@ == self.spec_language(),
    {
        self.language.as_str()
    }

    /// The text for `key`, or the key itself when there is none.
    pub fn t(&self, key: &str) -> (s: String)
        ensures
            s@ == self.spec_t(key@),
    {
        let n = self.entries.len();
        let mut i: usize = 0;
        assert(pairs_view(self.entries@).subrange(0, n as int) =~= pairs_view(self.entries@));
        while i < n
            invariant
                n == self.entries@.len(),
                i <= n,
                lookup(pairs_view(self.entries@), key@)
                    == lookup(pairs_view(self.entries@).subrange(i as int, n as int), key@),
            decreases n - i,
        {
            let ghost rest = pairs_view(self.entries@).subrange(i as int, n as int);
            assert(rest[0] == (self.entries@[i as int].0@, self.entries@[i as int].1@));
            assert(rest.subrange(1, rest.len() as int) =~= pairs_view(self.entries@).subrange(i + 1, n as int));
            if crate::text::str_eq(self.entries[i].0.as_str(), key) {
                return self.entries[i].1.clone();
            }
            i = i + 1;
        }
        assert(pairs_view(self.entries@).subrange(n as int, n as int).len() == 0);
        crate::text::owned(key)
    }
}

impl Clone for Translations {
    fn clone(&self) -> (r: Translations)
        ensures
            r.spec_entries() == self.spec_entries(),
            r.spec_language() == self.spec_language(),
    {
        let mut v: Vec<(String, String)> = Vec::new();
        let n = self.entries.len();
        let mut i: usize = 0;
        while i < n
            invariant
                n == self.entries@.len(),
                i <= n,
                v@.len() == i,
                pairs_view(v@) == pairs_view(self.entries@).subrange(0, i as int),
            decreases n - i,
        {
            let k = self.entries[i].0.clone();
            let t = self.entries[i].1.clone();
            assert(k@ == self.entries@[i as int].0@);
            assert(t@ == self.entries@[i as int].1@);
            let ghost pv = v@;
            v.push((k, t));
            assert(v@ == pv.push((k, t)));
            assert(pairs_view(v@).len() == i + 1);
            assert(pairs_view(v@)[i as int] == (k@, t@));
            assert(pairs_view(v@)[i as int] == pairs_view(self.entries@)[i as int]);
            i = i + 1;
            assert(pairs_view(v@) =~= pairs_view(self.entries@).subrange(0, i as int));
        }
        assert(pairs_view(self.entries@).subrange(0, n as int) =~= pairs_view(self.entries@));
        Translations { entries: v, language: self.language.clone() }
    }
}

impl I18nPort for Translations {
    fn t(&self, key: &str) -> (s: String)
        ensures
            s@ == self.spec_t(key@),
    {
        Translations::t(self, key)
    }

    fn language(&self) -> (s: &str)
        ensures
            s@ == self.spec_language(),
    {
        Translations::language(self)
    }
}

} // verus!
