//! Validation of the names the user types: hostname, username, locale and
//! timezone.

use vstd::prelude::*;
use crate::text::{
    ascii_alphanumeric, ascii_digit, ascii_lowercase, ascii_uppercase, contains, find_char,
    first_index_of, has_substring, occurs_at, is_ascii_alphanumeric, is_ascii_digit, is_ascii_lowercase,
    is_ascii_uppercase, str_eq, str_views,
};
use crate::types::{valid_encodings, valid_encodings_list};

verus! {

// ── Specifications ──────────────────────────────────────────────

pub open spec fn hostname_char(c: char) -> bool {
    is_ascii_alphanumeric(c) || c == '-'
}

/// A hostname: 1 to 253 ASCII letters, digits and dashes, neither starting
/// nor ending with a dash. (Such a string has as many bytes as characters.)
pub open spec fn valid_hostname(s: Seq<char>) -> bool {
    &&& 0 < s.len() <= 253
    &&& s[0] != '-'
    &&& s.last() != '-'
    &&& forall|i: int| 0 <= i < s.len() ==> #[trigger] hostname_char(s[i])
}

pub open spec fn username_first_char(c: char) -> bool {
    is_ascii_lowercase(c) || c == '_'
}

pub open spec fn username_char(c: char) -> bool {
    is_ascii_lowercase(c) || is_ascii_digit(c) || c == '_' || c == '-'
}

/// A username: at most 32 characters, a lowercase ASCII letter or `_`
/// first, then lowercase letters, digits, `_` and `-`.
pub open spec fn valid_username(u: Seq<char>) -> bool {
    &&& 0 < u.len() <= 32
    &&& username_first_char(u[0])
    &&& forall|i: int| 0 <= i < u.len() ==> #[trigger] username_char(u[i])
}

/// `lang_TERR.ENCODING`: splits at the first `_`, then at the first `.`.
pub open spec fn structured_locale(s: Seq<char>) -> bool {
    match first_index_of(s, '_') {
        None => false,
        Some(i) => {
            let lang = s.subrange(0, i);
            let rest = s.subrange(i + 1, s.len() as int);
            match first_index_of(rest, '.') {
                None => false,
                Some(j) => {
                    let terr = rest.subrange(0, j);
                    let enc = rest.subrange(j + 1, rest.len() as int);
                    &&& lang.len() == 2
                    &&& forall|k: int| 0 <= k < 2 ==> #[trigger] is_ascii_lowercase(lang[k])
                    &&& terr.len() == 2
                    &&& forall|k: int| 0 <= k < 2 ==> #[trigger] is_ascii_uppercase(terr[k])
                    &&& valid_encodings().contains(enc)
                }
            }
        }
    }
}

/// A locale: `C`, `POSIX`, or two lowercase letters, `_`, two uppercase
/// letters, `.` and one of the accepted encodings.
pub open spec fn valid_locale(s: Seq<char>) -> bool {
    s == "C"@ || s == "POSIX"@ || structured_locale(s)
}

pub open spec fn timezone_char(c: char) -> bool {
    is_ascii_alphanumeric(c) || c == '/' || c == '_' || c == '-' || c == '+'
}

/// The form of a timezone name: letters, digits and `/_-+`, never `..`.
pub open spec fn timezone_format(tz: Seq<char>) -> bool {
    &&& forall|i: int| 0 <= i < tz.len() ==> #[trigger] timezone_char(tz[i])
    &&& !contains(tz, ".."@)
}

// ── Checks ──────────────────────────────────────────────────────

fn all_hostname_chars(s: &str) -> (r: bool)
    ensures
        r == forall|i: int| 0 <= i < s@.len() ==> #[trigger] hostname_char(s@[i]),
{
    let n = s.unicode_len();
    let mut i: usize = 0;
    while i < n
        invariant
            n == s@.len(),
            i <= n,
            forall|j: int| 0 <= j < i ==> #[trigger] hostname_char(s@[j]),
        decreases n - i,
    {
        let c = s.get_char(i);
        if !(ascii_alphanumeric(c) || c == '-') {
            assert(!hostname_char(s@[i as int]));
            return false;
        }
        i += 1;
    }
    true
}

pub fn validate_hostname(s: &str) -> (r: Result<(), String>)
    ensures
        r is Ok <==> valid_hostname(s@),
        r matches Err(e) ==> e@ == "Invalid hostname format. Please try again."@,
{
    let n = s.unicode_len();
    if n > 0 && n <= 253 && s.get_char(0) != '-' && s.get_char(n - 1) != '-'
        && all_hostname_chars(s) {
        Ok(())
    } else {
        Err(String::from_str("Invalid hostname format. Please try again."))
    }
}

fn all_username_chars(u: &str) -> (r: bool)
    ensures
        r == forall|i: int| 0 <= i < u@.len() ==> #[trigger] username_char(u@[i]),
{
    let n = u.unicode_len();
    let mut i: usize = 0;
    while i < n
        invariant
            n == u@.len(),
            i <= n,
            forall|j: int| 0 <= j < i ==> #[trigger] username_char(u@[j]),
        decreases n - i,
    {
        let c = u.get_char(i);
        if !(ascii_lowercase(c) || ascii_digit(c) || c == '_' || c == '-') {
            assert(!username_char(u@[i as int]));
            return false;
        }
        i += 1;
    }
    true
}

pub fn validate_username(u: &str) -> (r: Result<(), String>)
    ensures
        r is Ok <==> valid_username(u@),
        r matches Err(e) ==> e@ == "Invalid username format. Try again."@,
{
    let n = u.unicode_len();
    if n > 0 && n <= 32 && (ascii_lowercase(u.get_char(0)) || u.get_char(0) == '_')
        && all_username_chars(u) {
        Ok(())
    } else {
        Err(String::from_str("Invalid username format. Try again."))
    }
}

fn two_lowercase(s: &str) -> (r: bool)
    ensures
        r == (s@.len() == 2 && forall|k: int| 0 <= k < 2 ==> #[trigger] is_ascii_lowercase(s@[k])),
{
    if s.unicode_len() != 2 {
        return false;
    }
    let r = ascii_lowercase(s.get_char(0)) && ascii_lowercase(s.get_char(1));
    assert(r ==> forall|k: int| 0 <= k < 2 ==> #[trigger] is_ascii_lowercase(s@[k])) by {
        assert forall|k: int| r && 0 <= k < 2 implies #[trigger] is_ascii_lowercase(s@[k]) by {
            if k == 1 {
            }
        }
    }
    r
}

fn two_uppercase(s: &str) -> (r: bool)
    ensures
        r == (s@.len() == 2 && forall|k: int| 0 <= k < 2 ==> #[trigger] is_ascii_uppercase(s@[k])),
{
    if s.unicode_len() != 2 {
        return false;
    }
    let r = ascii_uppercase(s.get_char(0)) && ascii_uppercase(s.get_char(1));
    assert(r ==> forall|k: int| 0 <= k < 2 ==> #[trigger] is_ascii_uppercase(s@[k])) by {
        assert forall|k: int| r && 0 <= k < 2 implies #[trigger] is_ascii_uppercase(s@[k]) by {
            if k == 1 {
            }
        }
    }
    r
}

fn is_valid_encoding(enc: &str) -> (r: bool)
    ensures
        r == valid_encodings().contains(enc@),
{
    let list = valid_encodings_list();
    let mut i: usize = 0;
    while i < list.len()
        invariant
            i <= list@.len(),
            str_views(list@) == valid_encodings(),
            forall|j: int| 0 <= j < i ==> valid_encodings()[j] != enc@,
        decreases list@.len() - i,
    {
        if str_eq(enc, list[i]) {
            assert(valid_encodings()[i as int] == enc@);
            return true;
        }
        i += 1;
    }
    false
}

fn structured(s: &str) -> (r: bool)
    ensures
        r == structured_locale(s@),
{
    let n = s.unicode_len();
    match find_char(s, '_') {
        None => false,
        Some(i) => {
            let lang = s.substring_char(0, i);
            let rest = s.substring_char(i + 1, n);
            match find_char(rest, '.') {
                None => false,
                Some(j) => {
                    let m = rest.unicode_len();
                    let terr = rest.substring_char(0, j);
                    let enc = rest.substring_char(j + 1, m);
                    two_lowercase(lang) && two_uppercase(terr)
                        && is_valid_encoding(enc)
                },
            }
        },
    }
}

pub fn validate_locale(s: &str) -> (r: Result<(), String>)
    ensures
        r is Ok <==> valid_locale(s@),
        r matches Err(e) ==> e@ == "Invalid locale format (e.g., en_US.UTF-8). Please try again."@,
{
    if str_eq(s, "C") || str_eq(s, "POSIX") || structured(s) {
        Ok(())
    } else {
        Err(String::from_str("Invalid locale format (e.g., en_US.UTF-8). Please try again."))
    }
}

fn all_timezone_chars(tz: &str) -> (r: bool)
    ensures
        r == forall|i: int| 0 <= i < tz@.len() ==> #[trigger] timezone_char(tz@[i]),
{
    let n = tz.unicode_len();
    let mut i: usize = 0;
    while i < n
        invariant
            n == tz@.len(),
            i <= n,
            forall|j: int| 0 <= j < i ==> #[trigger] timezone_char(tz@[j]),
        decreases n - i,
    {
        let c = tz.get_char(i);
        if !(ascii_alphanumeric(c) || c == '/' || c == '_' || c == '-' || c == '+') {
            assert(!timezone_char(tz@[i as int]));
            return false;
        }
        i += 1;
    }
    true
}

/// Accepts `tz` when the zoneinfo file it names exists (`tz_path_exists`,
/// which the caller learns from the filesystem) and its name has the
/// expected form.
pub fn validate_timezone(tz: &str, tz_path_exists: bool) -> (r: Result<(), String>)
    ensures
        r is Ok <==> tz_path_exists && timezone_format(tz@),
        r matches Err(e) ==> e@ == "Timezone not found or invalid format. Please try again."@,
{
    if tz_path_exists && all_timezone_chars(tz) && !has_substring(tz, "..") {
        Ok(())
    } else {
        Err(String::from_str("Timezone not found or invalid format. Please try again."))
    }
}

// ── Laws ────────────────────────────────────────────────────────

/// An accepted timezone name never holds `..`: it takes no parent-directory
/// step out of the zoneinfo directory.
pub proof fn law_timezone_no_traversal(tz: Seq<char>)
    requires
        timezone_format(tz),
    ensures
        !contains(tz, ".."@),
{
}

/// An accepted username never starts with a dash or a digit, and an
/// accepted hostname never starts or ends with a dash.
pub proof fn law_names_dash_rules(u: Seq<char>, h: Seq<char>)
    ensures
        valid_username(u) ==> u[0] != '-' && !is_ascii_digit(u[0]),
        valid_hostname(h) ==> h[0] != '-' && h.last() != '-',
{
}

/// The characters a timezone name may hold besides ASCII letters and digits.
pub open spec fn zone_punctuation() -> Seq<char> {
    seq!['/', '_', '-', '+']
}

proof fn lemma_zone_punctuation(c: char)
    ensures
        zone_punctuation().contains(c) <==> (c == '/' || c == '_' || c == '-' || c == '+'),
{
    if c == '/' || c == '_' || c == '-' || c == '+' {
        let k: int = if c == '/' {
            0
        } else if c == '_' {
            1
        } else if c == '-' {
            2
        } else {
            3
        };
        assert(zone_punctuation()[k] == c);
    }
}

/// A timezone name has the accepted form exactly when every character is
/// an ASCII letter or digit or one of `/`, `_`, `-`, `+`, and it never holds
/// `..`. So these four are interchangeable: putting one in place of another
/// never changes whether a name is accepted.
pub proof fn law_timezone_form(tz: Seq<char>, i: int, p: char)
    ensures
        timezone_format(tz) <==> (forall|k: int|
            0 <= k < tz.len() ==> is_ascii_alphanumeric(#[trigger] tz[k])
                || zone_punctuation().contains(tz[k])) && !contains(tz, ".."@),
        0 <= i < tz.len() && zone_punctuation().contains(tz[i]) && zone_punctuation().contains(p)
            ==> (timezone_format(tz) <==> timezone_format(tz.update(i, p))),
{
    reveal_strlit("..");
    assert(".."@.len() == 2 && ".."@[0] == '.' && ".."@[1] == '.');
    assert forall|k: int| 0 <= k < tz.len() implies (timezone_char(#[trigger] tz[k]) <==> (
    is_ascii_alphanumeric(tz[k]) || zone_punctuation().contains(tz[k]))) by {
        lemma_zone_punctuation(tz[k]);
    }
    if 0 <= i < tz.len() && zone_punctuation().contains(tz[i]) && zone_punctuation().contains(p) {
        lemma_zone_punctuation(tz[i]);
        lemma_zone_punctuation(p);
        let t = tz.update(i, p);
        assert forall|k: int| 0 <= k < t.len() implies (timezone_char(#[trigger] t[k])
            <==> timezone_char(tz[k])) by {}
        assert forall|j: int| #[trigger] occurs_at(tz, ".."@, j) <==> occurs_at(t, ".."@, j) by {
            if 0 <= j && j + 2 <= tz.len() {
                if occurs_at(tz, ".."@, j) {
                    assert(tz[j] == tz.subrange(j, j + 2)[0]);
                    assert(tz[j + 1] == tz.subrange(j, j + 2)[1]);
                    assert(j != i && j + 1 != i);
                    assert(t.subrange(j, j + 2) =~= tz.subrange(j, j + 2));
                }
                if occurs_at(t, ".."@, j) {
                    assert(t[j] == t.subrange(j, j + 2)[0]);
                    assert(t[j + 1] == t.subrange(j, j + 2)[1]);
                    assert(j != i && j + 1 != i);
                    assert(t.subrange(j, j + 2) =~= tz.subrange(j, j + 2));
                }
            }
        }
        if timezone_format(tz) {
            assert forall|k: int| 0 <= k < t.len() implies #[trigger] timezone_char(t[k]) by {
                assert(timezone_char(tz[k]));
            }
        }
        if timezone_format(t) {
            assert forall|k: int| 0 <= k < tz.len() implies #[trigger] timezone_char(tz[k]) by {
                assert(timezone_char(t[k]));
            }
        }
    }
}

} // verus!
