use vstd::prelude::*;
use vstd::string::{StrSliceExecFns, StringExecFns};

use crate::text::{replace_all, spec_replace_all};

verus! {

/// A language the interface can be shown in.
#[derive(PartialEq, Eq, Structural, Clone, Copy, Debug)]
pub enum Language {
    /// English, also the fallback for keys other languages lack.
    English,
    /// Russian.
    Russian,
}

impl Language {
    /// The two-letter code the language's translation table is filed under.
    pub fn code(self) -> (r: &'static str)
        ensures
            self is English ==> r@ == "en"@,
            self is Russian ==> r@ == "ru"@,
    {
        match self {
            Language::English => "en",
            Language::Russian => "ru",
        }
    }
}

impl Default for Language {
    fn default() -> (r: Self)
        ensures
            r == Language::English,
    {
        Language::English
    }
}

impl From<u8> for Language {
    fn from(v: u8) -> (r: Self) {
        if v == 1 {
            Language::Russian
        } else {
            Language::English
        }
    }
}

impl vstd::std_specs::convert::FromSpecImpl<u8> for Language {
    open spec fn obeys_from_spec() -> bool {
        true
    }

    open spec fn from_spec(v: u8) -> Language {
        if v == 1 {
            Language::Russian
        } else {
            Language::English
        }
    }
}

/// A translation table's entries, with keys and values seen as character
/// sequences.
pub open spec fn table_views(s: Seq<(String, String)>) -> Seq<(Seq<char>, Seq<char>)> {
    s.map_values(|p: (String, String)| (p.0@, p.1@))
}

/// The translation recorded for `key`: the first entry with that key, if
/// any.
pub open spec fn table_lookup(s: Seq<(Seq<char>, Seq<char>)>, key: Seq<char>) -> Option<
    Seq<char>,
>
    decreases s.len(),
{
    if s.len() == 0 {
        None
    } else if s[0].0 == key {
        Some(s[0].1)
    } else {
        table_lookup(s.drop_first(), key)
    }
}

/// A key's placeholder as it appears inside a translated string: the key
/// between braces.
pub open spec fn brace_key(k: Seq<char>) -> Seq<char> {
    seq!['{'] + k + seq!['}']
}

/// `s` after substituting each argument in turn: every occurrence of the
/// argument's braced key is rewritten to its value.
pub open spec fn spec_apply_args(s: Seq<char>, args: Seq<(Seq<char>, Seq<char>)>) -> Seq<char>
    decreases args.len(),
{
    if args.len() == 0 {
        s
    } else {
        spec_apply_args(
            spec_replace_all(s, brace_key(args[0].0), args[0].1),
            args.drop_first(),
        )
    }
}

/// Substitution arguments, with keys and values seen as character
/// sequences.
pub open spec fn arg_views(args: Seq<(&str, String)>) -> Seq<(Seq<char>, Seq<char>)> {
    args.map_values(|p: (&str, String)| (p.0@, p.1@))
}

/// What the JSON translation-table decoder yields on a given text: the
/// table's key/value pairs, or nothing where the text does not hold a
/// string-to-string table.
pub uninterp spec fn lang_table_of(text: Seq<char>) -> Option<Seq<(Seq<char>, Seq<char>)>>;

/// Relies on serde_json::from_str::<BTreeMap<String, String>>: whether the
/// text decodes, and to which entries, is a function of the text alone, and
/// a map iterates its entries in one fixed (sorted) order.
#[verifier::external_body]
fn parse_lang_table(text: &str) -> (r: Option<Vec<(String, String)>>)
    ensures
        match r {
            Some(v) => lang_table_of(text@) == Some(table_views(v@)),
            None => lang_table_of(text@) is None,
        },
{
    match serde_json::from_str::<std::collections::BTreeMap<String, String>>(text) {
        Ok(m) => Some(m.into_iter().collect()),
        Err(_) => None,
    }
}

/// Step over `i` entries that are known not to hold `key`: the lookup's
/// answer is decided by what remains.
proof fn lemma_table_lookup_skip(s: Seq<(Seq<char>, Seq<char>)>, key: Seq<char>, i: int)
    requires
        0 <= i <= s.len(),
        forall|j: int| 0 <= j < i ==> s[j].0 != key,
    ensures
        table_lookup(s, key) == table_lookup(s.skip(i), key),
    decreases i,
{
    if i > 0 {
        assert(s.drop_first().skip(i - 1) =~= s.skip(i));
        lemma_table_lookup_skip(s.drop_first(), key, i - 1);
    } else {
        assert(s.skip(0) =~= s);
    }
}

/// Find the first entry for `key` and return its translation.
fn table_get<'a>(entries: &'a Vec<(String, String)>, key: &String) -> (r: Option<&'a String>)
    ensures
        match r {
            Some(v) => table_lookup(table_views(entries@), key@) == Some(v@),
            None => table_lookup(table_views(entries@), key@) is None,
        },
{
    let ghost views = table_views(entries@);
    let n = entries.len();
    let mut i: usize = 0;
    while i < n
        invariant
            n == entries.len(),
            i <= n,
            views == table_views(entries@),
            forall|j: int| 0 <= j < i ==> views[j].0 != key@,
        decreases n - i,
    {
        let e = &entries[i];
        if e.0 == *key {
            proof {
                lemma_table_lookup_skip(views, key@, i as int);
                assert(views.skip(i as int)[0] == views[i as int]);
            }
            return Some(&e.1);
        }
        i = i + 1;
    }
    proof {
        lemma_table_lookup_skip(views, key@, n as int);
        assert(views.skip(n as int) =~= Seq::<(Seq<char>, Seq<char>)>::empty());
    }
    None
}

/// The translation state of the interface: which language is active, and
/// one table of translations per language. Keys that the active language
/// lacks fall back to English, and keys English lacks too are shown as
/// themselves.
pub struct I18n {
    lang: Language,
    en: Vec<(String, String)>,
    ru: Vec<(String, String)>,
}

impl I18n {
    /// The active language.
    pub closed spec fn spec_language(self) -> Language {
        self.lang
    }

    /// The translation table installed for a language.
    pub closed spec fn spec_table(self, lang: Language) -> Seq<(Seq<char>, Seq<char>)> {
        match lang {
            Language::English => table_views(self.en@),
            Language::Russian => table_views(self.ru@),
        }
    }

    /// The translation for `key`, if the active language or the English
    /// fallback holds one.
    pub open spec fn spec_try_tr(self, key: Seq<char>) -> Option<Seq<char>> {
        match table_lookup(self.spec_table(self.spec_language()), key) {
            Some(v) => Some(v),
            None => table_lookup(self.spec_table(Language::English), key),
        }
    }

    /// The text shown for `key`: its translation, or the key itself where
    /// none is installed.
    pub open spec fn spec_tr(self, key: Seq<char>) -> Seq<char> {
        match self.spec_try_tr(key) {
            Some(v) => v,
            None => key,
        }
    }

    /// A fresh translation state: English is active and no table holds any
    /// entry yet, so every key is shown as itself.
    pub fn new() -> (r: I18n)
        ensures
            r.spec_language() == Language::English,
            r.spec_table(Language::English) == Seq::<(Seq<char>, Seq<char>)>::empty(),
            r.spec_table(Language::Russian) == Seq::<(Seq<char>, Seq<char>)>::empty(),
    {
        let r = I18n { lang: Language::English, en: Vec::new(), ru: Vec::new() };
        proof {
            assert(table_views(r.en@) =~= Seq::<(Seq<char>, Seq<char>)>::empty());
            assert(table_views(r.ru@) =~= Seq::<(Seq<char>, Seq<char>)>::empty());
        }
        r
    }

    /// The active language.
    pub fn language(&self) -> (r: Language)
        ensures
            r == self.spec_language(),
    {
        self.lang
    }

    /// Make `lang` the active language; its installed table now answers
    /// first.
    pub fn set_language(&mut self, lang: Language)
        ensures
            final(self).spec_language() == lang,
            forall|l: Language| final(self).spec_table(l) == old(self).spec_table(l),
    {
        self.lang = lang;
    }

    /// Install the translation table for a language, replacing whatever it
    /// had.
    pub fn install_language(&mut self, lang: Language, entries: Vec<(String, String)>)
        ensures
            final(self).spec_language() == old(self).spec_language(),
            final(self).spec_table(lang) == table_views(entries@),
            forall|l: Language| l != lang ==> final(self).spec_table(l) == old(self).spec_table(l),
    {
        match lang {
            Language::English => {
                self.en = entries;
            },
            Language::Russian => {
                self.ru = entries;
            },
        }
    }

    /// Decode a JSON string-to-string table and install it for `lang`.
    /// Returns whether the text decoded; on failure the state is unchanged.
    pub fn install_language_from_json(&mut self, lang: Language, text: &str) -> (r: bool)
        ensures
            final(self).spec_language() == old(self).spec_language(),
            match lang_table_of(text@) {
                Some(t) => r && final(self).spec_table(lang) == t && (forall|l: Language|
                    l != lang ==> final(self).spec_table(l) == old(self).spec_table(l)),
                None => !r && *final(self) == *old(self),
            },
    {
        match parse_lang_table(text) {
            Some(entries) => {
                self.install_language(lang, entries);
                true
            },
            None => false,
        }
    }

    /// The translation for `key`, if the active language or the English
    /// fallback holds one.
    pub fn try_tr(&self, key: &str) -> (r: Option<String>)
        ensures
            match r {
                Some(v) => self.spec_try_tr(key@) == Some(v@),
                None => self.spec_try_tr(key@) is None,
            },
    {
        let owned_key = key.to_owned();
        let active = match self.lang {
            Language::English => &self.en,
            Language::Russian => &self.ru,
        };
        match table_get(active, &owned_key) {
            Some(v) => Some(v.clone()),
            None => match table_get(&self.en, &owned_key) {
                Some(v) => Some(v.clone()),
                None => None,
            },
        }
    }

    /// The text shown for `key`: its translation, or the key itself where
    /// none is installed.
    pub fn tr(&self, key: &str) -> (r: String)
        ensures
            r@ == self.spec_tr(key@),
    {
        match self.try_tr(key) {
            Some(v) => v,
            None => key.to_owned(),
        }
    }

    /// Translate `key`, then substitute each argument in turn: every
    /// occurrence of the argument's braced key is rewritten to its value.
    pub fn tr_args(&self, key: &str, args: &[(&str, String)]) -> (r: String)
        ensures
            r@ == spec_apply_args(self.spec_tr(key@), arg_views(args@)),
    {
        let ghost views = arg_views(args@);
        let mut s = self.tr(key);
        proof {
            assert(views.skip(0) =~= views);
        }
        let n = args.len();
        let mut i: usize = 0;
        while i < n
            invariant
                n == args@.len(),
                i <= n,
                views == arg_views(args@),
                spec_apply_args(s@, views.skip(i as int)) == spec_apply_args(
                    self.spec_tr(key@),
                    views,
                ),
            decreases n - i,
        {
            let pair = &args[i];
            let mut pat = String::new();
            pat.append("{");
            pat.append(pair.0);
            pat.append("}");
            proof {
                reveal_strlit("{");
                reveal_strlit("}");
                assert(pat@ =~= brace_key(pair.0@));
                assert(views.skip(i as int)[0] == views[i as int]);
                assert(views.skip(i as int).drop_first() =~= views.skip(i as int + 1));
            }
            s = replace_all(s.as_str(), pat.as_str(), pair.1.as_str());
            i = i + 1;
        }
        proof {
            assert(views.skip(n as int) =~= Seq::<(Seq<char>, Seq<char>)>::empty());
        }
        s
    }

    /// The label shown for a prototype: the translation filed under
    /// "proto.<kind>.<name>", or the given fallback where none is
    /// installed.
    pub fn proto_label(&self, proto_type: &str, name: &str, fallback: &str) -> (r: String)
        ensures
            r@ == match self.spec_try_tr("proto."@ + proto_type@ + "."@ + name@) {
                Some(v) => v,
                None => fallback@,
            },
    {
        let mut key = String::new();
        key.append("proto.");
        key.append(proto_type);
        key.append(".");
        key.append(name);
        proof {
            assert(key@ =~= "proto."@ + proto_type@ + "."@ + name@);
        }
        match self.try_tr(key.as_str()) {
            Some(v) => v,
            None => fallback.to_owned(),
        }
    }
}

impl Default for I18n {
    fn default() -> (r: Self)
        ensures
            r.spec_language() == Language::English,
            r.spec_table(Language::English) == Seq::<(Seq<char>, Seq<char>)>::empty(),
            r.spec_table(Language::Russian) == Seq::<(Seq<char>, Seq<char>)>::empty(),
    {
        I18n::new()
    }
}

} // verus!
