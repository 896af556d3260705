//! Small verified helpers over strings, and the character classes of
//! HTTP header names and values.

use vstd::prelude::*;

verus! {

/// Compare two string slices for character-for-character equality.
pub fn str_eq(a: &str, b: &str) -> (r: bool)
    ensures
        r == (a@ == b@),
{
    let oa = a.to_owned();
    let ob = b.to_owned();
    oa.eq(&ob)
}

/// Whether `c` may appear in an HTTP header value: horizontal tab, space
/// or a visible ASCII character.
pub open spec fn is_header_value_char(c: char) -> bool {
    c == '\t' || (' ' <= c && c <= '~')
}

/// Whether `s` is usable as an HTTP header value.
pub open spec fn is_header_value_str(s: Seq<char>) -> bool {
    forall|i: int| 0 <= i < s.len() ==> is_header_value_char(#[trigger] s[i])
}

/// Whether `c` may appear in an HTTP header name: a lowercase letter, a
/// digit, or one of the token punctuation characters. Uppercase letters
/// are left out: header names are kept in their canonical lowercase
/// form.
pub open spec fn is_header_name_char(c: char) -> bool {
    ('a' <= c && c <= 'z') || ('0' <= c && c <= '9') || c == '!' || c == '#' || c == '$' || c == '%'
        || c == '&' || c == '\'' || c == '*' || c == '+' || c == '-' || c == '.' || c == '^' || c
        == '_' || c == '`' || c == '|' || c == '~'
}

/// Whether `s` is usable as an HTTP header name.
pub open spec fn is_header_name_str(s: Seq<char>) -> bool {
    s.len() > 0 && forall|i: int| 0 <= i < s.len() ==> is_header_name_char(#[trigger] s[i])
}

/// Decide whether `s` is usable as an HTTP header value.
pub fn check_header_value(s: &str) -> (r: bool)
    ensures
        r == is_header_value_str(s@),
{
    let n = s.unicode_len();
    let mut i: usize = 0;
    while i < n
        invariant
            n == s@.len(),
            i <= n,
            forall|k: int| 0 <= k < i ==> is_header_value_char(#[trigger] s@[k]),
        decreases n - i,
    {
        let c = s.get_char(i);
        if !(c == '\t' || (' ' <= c && c <= '~')) {
            return false;
        }
        i = i + 1;
    }
    true
}

/// Decide whether `s` is usable as an HTTP header name.
pub fn check_header_name(s: &str) -> (r: bool)
    ensures
        r == is_header_name_str(s@),
{
    let n = s.unicode_len();
    if n == 0 {
        return false;
    }
    let mut i: usize = 0;
    while i < n
        invariant
            n == s@.len(),
            i <= n,
            forall|k: int| 0 <= k < i ==> is_header_name_char(#[trigger] s@[k]),
        decreases n - i,
    {
        let c = s.get_char(i);
        let ok = ('a' <= c && c <= 'z') || ('0' <= c && c <= '9') || c == '!' || c == '#' || c
            == '$' || c == '%' || c == '&' || c == '\'' || c == '*' || c == '+' || c == '-' || c
            == '.' || c == '^' || c == '_' || c == '`' || c == '|' || c == '~';
        if !ok {
            return false;
        }
        i = i + 1;
    }
    true
}

} // verus!
