//! The translation layer: the interface language, the translator that serves
//! interface strings, and the resolution of a language code from the command
//! line, the configuration and the system locale.
//!
//! Reading language-pack files from disk is the I/O layer's task; the
//! translator accepts an already-loaded pack as plain key/value pairs and
//! otherwise falls back to the built-in tables.

use vstd::prelude::*;

use crate::pack::{builtin_pack_spec, built_in_pack, en, en_spec, ko, ko_spec};
use crate::text::pairs_view;
use crate::text::{lower, starts_with, str_eq, to_lowercase, trim, trim_spec};

verus! {

/// An interface language with built-in strings.
#[derive(Debug, Clone, Copy, PartialEq, Eq, Structural)]
pub enum Language {
    Ko,
    En,
}

/// The language selected by a code: the `en` family selects English, every
/// other code falls back to Korean.  Over folded (lowercase) input.
pub open spec fn language_of_code(l: Seq<char>) -> Language {
    if l.len() >= 2 && l[0] == 'e' && l[1] == 'n' {
        Language::En
    } else {
        Language::Ko
    }
}

/// The canonical code of a language.
pub open spec fn code_of_language(lang: Language) -> Seq<char> {
    match lang {
        Language::Ko => "ko"@,
        Language::En => "en"@,
    }
}

impl Language {
    /// Selects the language for a code, case-insensitively; unknown codes
    /// fall back to Korean.
    pub fn from_code(code: &str) -> (r: Self)
        ensures
            r == language_of_code(lower(code@)),
    {
        let c = to_lowercase(code);
        if starts_with(c.as_str(), "en") {
            proof {
                reveal_strlit("en");
                let l = lower(code@);
                assert(l.take(2)[0] == l[0] && l.take(2)[1] == l[1]);
            }
            Language::En
        } else {
            proof {
                reveal_strlit("en");
                let l = lower(code@);
                if l.len() >= 2 && l[0] == 'e' && l[1] == 'n' {
                    assert(l.take(2) =~= "en"@);
                }
            }
            Language::Ko
        }
    }

    /// The canonical code of the language.
    pub fn as_code(&self) -> (r: &'static str)
        ensures
            r@ == code_of_language(*self),
    {
        match self {
            Language::Ko => "ko",
            Language::En => "en",
        }
    }
}

/// The first value paired with `k`, scanning left to right.
pub open spec fn find_val(ps: Seq<(Seq<char>, Seq<char>)>, k: Seq<char>) -> Option<Seq<char>>
    decreases ps.len(),
{
    if ps.len() == 0 {
        None
    } else if ps[0].0 == k {
        Some(ps[0].1)
    } else {
        find_val(ps.drop_first(), k)
    }
}

/// Serves interface strings for one language, with an optional override pack.
#[derive(Debug, Clone)]
pub struct Translator {
    lang: Language,
    overrides: Option<Vec<(String, String)>>,
}

impl Translator {
    /// The translator's language.
    pub closed spec fn spec_language(&self) -> Language {
        self.lang
    }

    /// The translator's override pairs, where a pack is loaded.
    pub closed spec fn spec_overrides(&self) -> Option<Seq<(Seq<char>, Seq<char>)>> {
        match self.overrides {
            Some(v) => Some(pairs_view(v@)),
            None => None,
        }
    }

    /// What `lookup` returns: the first override value for the key.
    pub open spec fn lookup_spec(&self, k: Seq<char>) -> Option<Seq<char>> {
        match self.spec_overrides() {
            Some(ps) => find_val(ps, k),
            None => None,
        }
    }

    /// What `t` returns: the override value where the pack has the key, else
    /// the built-in string of the language (English falls back to Korean).
    pub open spec fn t_spec(&self, k: Seq<char>) -> Seq<char> {
        match self.lookup_spec(k) {
            Some(v) => v,
            None => builtin_string(self.spec_language(), k),
        }
    }

    /// A translator without an override pack, for the language the code
    /// selects.
    pub fn new(lang_code: &str) -> (r: Self)
        ensures
            r.spec_language() == language_of_code(lower(lang_code@)),
            r.spec_overrides() is None,
    {
        Translator { lang: Language::from_code(lang_code), overrides: None }
    }

    /// A translator with an override pack: the given pairs where the I/O
    /// layer loaded some, else the built-in pack for the code, else none.
    pub fn new_with_pack(lang_code: &str, pack: Option<Vec<(String, String)>>) -> (r: Self)
        ensures
            r.spec_language() == language_of_code(lower(lang_code@)),
            (match pack {
                Some(p) => r.spec_overrides() == Some(pairs_view(p@)),
                None => r.spec_overrides() == builtin_pack_spec(lower(lang_code@)),
            }),
    {
        let overrides = match pack {
            Some(p) => Some(p),
            None => built_in_pack(lang_code),
        };
        Translator { lang: Language::from_code(lang_code), overrides }
    }

    /// The translator's language.
    pub fn language(&self) -> (r: Language)
        ensures
            r == self.spec_language(),
    {
        self.lang
    }

    /// The canonical code of the translator's language.
    pub fn language_code(&self) -> (r: &'static str)
        ensures
            r@ == code_of_language(self.spec_language()),
    {
        self.lang.as_code()
    }

    /// The override value for a key, where the pack has one.
    pub fn lookup(&self, key: &str) -> (r: Option<String>)
        ensures
            match r {
                Some(v) => self.lookup_spec(key@) == Some(v@),
                None => self.lookup_spec(key@) is None,
            },
    {
        match self.overrides.as_ref() {
            None => None,
            Some(v) => {
                let ghost ps = pairs_view(v@);
                let n = v.len();
                let mut i: usize = 0;
                proof {
                    assert(ps.skip(0) =~= ps);
                    assert(self.spec_overrides() == Some(ps));
                }
                while i < n
                    invariant
                        n == v@.len(),
                        i <= n,
                        ps == pairs_view(v@),
                        self.spec_overrides() == Some(ps),
                        find_val(ps, key@) == find_val(ps.skip(i as int), key@),
                    decreases n - i,
                {
                    let p = &v[i];
                    if str_eq(p.0.as_str(), key) {
                        proof {
                            assert(ps[i as int] == (v@[i as int].0@, v@[i as int].1@));
                            assert(ps.skip(i as int)[0] == ps[i as int]);
                            assert(find_val(ps.skip(i as int), key@) == Some(ps[i as int].1));
                        }
                        return Some(p.1.clone());
                    }
                    proof {
                        assert(ps.skip(i as int).drop_first() =~= ps.skip(i + 1));
                    }
                    i = i + 1;
                }
                proof {
                    assert(ps.skip(n as int) =~= Seq::<(Seq<char>, Seq<char>)>::empty());
                }
                None
            },
        }
    }

    /// The interface string for a key: the override pack first, then the
    /// built-in tables of the language.
    pub fn t(&self, key: &str) -> (r: String)
        ensures
            r@ == self.t_spec(key@),
    {
        if let Some(v) = self.lookup(key) {
            return v;
        }
        match self.lang {
            Language::En => match en(key) {
                Some(v) => v.to_owned(),
                None => ko(key).to_owned(),
            },
            Language::Ko => ko(key).to_owned(),
        }
    }
}

/// The built-in string of a language for a key.
pub open spec fn builtin_string(lang: Language, k: Seq<char>) -> Seq<char> {
    match lang {
        Language::En => match en_spec(k) {
            Some(v) => v,
            None => ko_spec(k),
        },
        Language::Ko => ko_spec(k),
    }
}

/// What `normalize_lang` accepts: the supported language codes and their
/// canonical forms, over trimmed and folded input.
pub open spec fn normalize_lang_spec(l: Seq<char>) -> Option<Seq<char>> {
    if l == "ko"@ {
        Some("ko"@)
    } else if l == "ko-kr"@ {
        Some("ko-kr"@)
    } else if l == "en"@ {
        Some("en"@)
    } else if l == "en-us"@ {
        Some("en-us"@)
    } else if l == "en-uk"@ {
        Some("en-us"@)
    } else if l == "de"@ {
        Some("de-de"@)
    } else if l == "de-de"@ {
        Some("de-de"@)
    } else if l == "auto"@ || l.len() == 0 {
        None
    } else if l.len() >= 2 && l.take(2) == "ko"@ {
        Some("ko"@)
    } else if l.len() >= 2 && l.take(2) == "en"@ {
        Some("en-us"@)
    } else if l.len() >= 2 && l.take(2) == "de"@ {
        Some("de-de"@)
    } else {
        None
    }
}

/// Canonicalises a user-supplied language code, case-insensitively: known
/// codes and their prefixes map to `ko`, `ko-kr`, `en`, `en-us` or `de-de`;
/// `auto`, the empty string and unknown codes are rejected.
pub fn normalize_lang(code: &str) -> (r: Option<String>)
    ensures
        match r {
            Some(v) => normalize_lang_spec(lower(trim_spec(code@))) == Some(v@),
            None => normalize_lang_spec(lower(trim_spec(code@))) is None,
        },
{
    let t = trim(code);
    let low = to_lowercase(t);
    let c = low.as_str();
    proof {
        reveal_strlit("ko");
        reveal_strlit("en");
        reveal_strlit("de");
    }
    if str_eq(c, "ko") {
        Some("ko".to_owned())
    } else if str_eq(c, "ko-kr") {
        Some("ko-kr".to_owned())
    } else if str_eq(c, "en") {
        Some("en".to_owned())
    } else if str_eq(c, "en-us") {
        Some("en-us".to_owned())
    } else if str_eq(c, "en-uk") {
        Some("en-us".to_owned())
    } else if str_eq(c, "de") {
        Some("de-de".to_owned())
    } else if str_eq(c, "de-de") {
        Some("de-de".to_owned())
    } else if str_eq(c, "auto") || c.unicode_len() == 0 {
        None
    } else if starts_with(c, "ko") {
        Some("ko".to_owned())
    } else if starts_with(c, "en") {
        Some("en-us".to_owned())
    } else if starts_with(c, "de") {
        Some("de-de".to_owned())
    } else {
        None
    }
}

/// Whether `c` separates the language part of a locale string.
pub open spec fn is_locale_delim(c: char) -> bool {
    c == '.' || c == '_' || c == '-'
}

/// The length of the language part of a locale string: everything before the
/// first delimiter.
pub open spec fn locale_seg_len(s: Seq<char>) -> int
    decreases s.len(),
{
    if s.len() == 0 || is_locale_delim(s[0]) {
        0
    } else {
        1 + locale_seg_len(s.drop_first())
    }
}

proof fn lemma_locale_seg_len(s: Seq<char>, i: int)
    requires
        0 <= i <= s.len(),
        forall|j: int| 0 <= j < i ==> !is_locale_delim(s[j]),
        i == s.len() || is_locale_delim(s[i]),
    ensures
        locale_seg_len(s) == i,
    decreases i,
{
    if i > 0 {
        lemma_locale_seg_len(s.drop_first(), i - 1);
    }
}

/// What `normalize_locale_string` accepts: the folded language part of the
/// locale, where it is `ko` or `en`.
pub open spec fn normalize_locale_spec(s: Seq<char>) -> Option<Seq<char>> {
    let l = lower(s.take(locale_seg_len(s)));
    if l == "ko"@ {
        Some("ko"@)
    } else if l == "en"@ {
        Some("en"@)
    } else {
        None
    }
}

/// Extracts the language from a locale string such as `ko_KR.UTF-8`: the
/// part before the first `.`, `_` or `-`, lowercased; accepted where it is
/// `ko` or `en`.
pub fn normalize_locale_string(loc: &str) -> (r: Option<String>)
    ensures
        match r {
            Some(v) => normalize_locale_spec(loc@) == Some(v@),
            None => normalize_locale_spec(loc@) is None,
        },
{
    let n = loc.unicode_len();
    let mut i: usize = 0;
    while i < n && !is_locale_delim_exec(loc.get_char(i))
        invariant
            n == loc@.len(),
            i <= n,
            forall|j: int| 0 <= j < i ==> !is_locale_delim(loc@[j]),
        decreases n - i,
    {
        i = i + 1;
    }
    proof {
        lemma_locale_seg_len(loc@, i as int);
    }
    let seg = loc.substring_char(0, i);
    proof {
        assert(seg@ =~= loc@.take(locale_seg_len(loc@)));
    }
    let low = to_lowercase(seg);
    let l = low.as_str();
    if str_eq(l, "ko") {
        Some("ko".to_owned())
    } else if str_eq(l, "en") {
        Some("en".to_owned())
    } else {
        None
    }
}

/// Whether `c` separates the language part of a locale string.
pub fn is_locale_delim_exec(c: char) -> (r: bool)
    ensures
        r == is_locale_delim(c),
{
    c == '.' || c == '_' || c == '-'
}

/// What `resolve_language` returns: the first of the command-line code, the
/// configured code and the detected system language that is usable, with
/// `en-us` as the last resort.
pub open spec fn resolve_language_spec(
    cli: Seq<char>,
    cfg: Option<Seq<char>>,
    sys: Option<Seq<char>>,
) -> Seq<char> {
    match normalize_lang_spec(lower(trim_spec(cli))) {
        Some(v) => v,
        None => {
            let from_cfg = match cfg {
                Some(c) => normalize_lang_spec(lower(trim_spec(c))),
                None => None::<Seq<char>>,
            };
            match from_cfg {
                Some(v) => v,
                None => match sys {
                    Some(s) => s,
                    None => "en-us"@,
                },
            }
        },
    }
}

/// Resolves the interface language: the command-line flag first, then the
/// configured language, then the system language the I/O layer detected,
/// then `en-us`.
pub fn resolve_language(cli_arg: &str, config_lang: Option<&str>, system_lang: Option<&str>) -> (r:
    String)
    ensures
        r@ == resolve_language_spec(
            cli_arg@,
            match config_lang {
                Some(c) => Some(c@),
                None => None::<Seq<char>>,
            },
            match system_lang {
                Some(s) => Some(s@),
                None => None::<Seq<char>>,
            },
        ),
{
    if let Some(v) = normalize_lang(cli_arg) {
        return v;
    }
    if let Some(c) = config_lang {
        if let Some(v) = normalize_lang(c) {
            return v;
        }
    }
    match system_lang {
        Some(s) => s.to_owned(),
        None => "en-us".to_owned(),
    }
}

} // verus!
