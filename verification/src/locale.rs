//! Deriving the two-state language selector from a raw locale string.
//!
//! The raw value (typically the `LANG` environment variable, read by the
//! caller) is split at its first underscore; the text before the underscore is
//! the language code. The code selects the alternate (Japanese) texts exactly
//! when it equals `"jp"`; an absent variable, an empty code, and any other
//! value all fall back to the default (English) texts.

use vstd::prelude::*;
use vstd::string::StrSliceExecFns;

verus! {

/// The two-state language selector: the default language (English) or the one
/// alternate language (Japanese).
#[derive(Clone, Copy, Debug, PartialEq, Eq, Structural)]
pub enum Locale {
    En,
    Jp,
}

/// The index of the first underscore in `s` at or after position `i`, or
/// `s.len()` if there is none.
pub open spec fn underscore_from(s: Seq<char>, i: int) -> int
    decreases s.len() - i,
{
    if i < 0 || i >= s.len() {
        s.len() as int
    } else if s[i] == '_' {
        i
    } else {
        underscore_from(s, i + 1)
    }
}

/// The language code of a raw locale value: the characters before its first
/// underscore (the whole value if it has none).
pub open spec fn lang_prefix(s: Seq<char>) -> Seq<char> {
    s.take(underscore_from(s, 0))
}

/// The locale selected by a raw value: `Jp` exactly when the language code is
/// `"jp"`; `En` for an absent value and for every other code.
pub open spec fn locale_of(raw: Option<Seq<char>>) -> Locale {
    match raw {
        Option::None => Locale::En,
        Option::Some(s) => if lang_prefix(s) == "jp"@ {
            Locale::Jp
        } else {
            Locale::En
        },
    }
}

/// Every raw locale value whose language code is not exactly `"jp"` selects
/// the default locale, and so does an absent value: nothing but the one
/// alternate code ever leaves the default language.
pub proof fn lemma_default_locale(raw: Option<Seq<char>>)
    requires
        raw matches Option::Some(s) ==> lang_prefix(s) != "jp"@,
    ensures
        locale_of(raw) == Locale::En,
{
}

/// The empty raw locale value selects the default locale: its language code
/// is empty, which is not the alternate code.
pub proof fn lemma_empty_locale()
    ensures
        locale_of(Option::Some(Seq::<char>::empty())) == Locale::En,
{
    reveal_strlit("jp");
    assert(underscore_from(Seq::<char>::empty(), 0) == 0);
    assert(lang_prefix(Seq::<char>::empty()) =~= Seq::<char>::empty());
}

/// Every raw locale value of the shape `"jp"` or `"jp_..."` — the code before
/// the first underscore exactly `"jp"` — selects the alternate locale.
pub proof fn lemma_alternate_locale(s: Seq<char>)
    requires
        s.len() >= 2,
        s[0] == 'j',
        s[1] == 'p',
        s.len() == 2 || s[2] == '_',
    ensures
        lang_prefix(s) == "jp"@,
        locale_of(Option::Some(s)) == Locale::Jp,
{
    reveal_strlit("jp");
    assert(underscore_from(s, 2) == 2);
    assert(underscore_from(s, 1) == 2);
    assert(underscore_from(s, 0) == 2);
    assert(lang_prefix(s) =~= "jp"@);
}

/// Derive the locale from the raw environment value, if any.
///
/// Returns `Locale::Jp` exactly when the value's language code (the part
/// before the first underscore) is `"jp"`; everything else, absence included,
/// yields `Locale::En`.
pub fn resolve_locale(raw: Option<&str>) -> (l: Locale)
    ensures
        l == locale_of(match raw {
            Option::None => Option::None,
            Option::Some(s) => Option::Some(s@),
        }),
{
    match raw {
        Option::None => Locale::En,
        Option::Some(s) => {
            let n = s.unicode_len();
            let mut i: usize = 0;
            while i < n && s.get_char(i) != '_'
                invariant
                    n == s@.len(),
                    0 <= i <= n,
                    underscore_from(s@, 0) == underscore_from(s@, i as int),
                decreases n - i,
            {
                i = i + 1;
            }
            assert(underscore_from(s@, i as int) == i);
            let prefix = s.substring_char(0, i);
            assert(prefix@ == lang_prefix(s@));
            if str_eq(prefix, "jp") {
                Locale::Jp
            } else {
                Locale::En
            }
        },
    }
}

/// Character-by-character string equality: true exactly when the two views
/// are the same character sequence.
pub fn str_eq(a: &str, b: &str) -> (r: bool)
    ensures
        r == (a@ == b@),
{
    let na = a.unicode_len();
    let nb = b.unicode_len();
    if na != nb {
        assert(a@ != b@) by {
            assert(a@.len() != b@.len());
        }
        return false;
    }
    let mut i: usize = 0;
    while i < na
        invariant
            na == a@.len(),
            na == b@.len(),
            0 <= i <= na,
            forall|j: int| 0 <= j < i ==> a@[j] == b@[j],
        decreases na - i,
    {
        if a.get_char(i) != b.get_char(i) {
            assert(a@ != b@) by {
                assert(a@[i as int] != b@[i as int]);
            }
            return false;
        }
        i = i + 1;
    }
    assert(a@ =~= b@);
    true
}

} // verus!
