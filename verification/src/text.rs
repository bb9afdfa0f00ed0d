//! String comparisons from `std` that the protocol logic relies on.

use vstd::prelude::*;
use vstd::string::*;
use vstd::utf8::{decode_utf8, valid_utf8};

verus! {

/// `str`'s `==`: equal exactly when the characters are equal.
#[verifier::external_body]
pub(crate) fn str_eq(a: &str, b: &str) -> (r: bool)
    ensures
        r == (a@ == b@),
{
    a == b
}

/// `str::starts_with` with a string pattern.
#[verifier::external_body]
pub(crate) fn str_starts_with(s: &str, prefix: &str) -> (r: bool)
    ensures
        r == (prefix@.len() <= s@.len() && s@.subrange(0, prefix@.len() as int) == prefix@),
{
    s.starts_with(prefix)
}

/// `std::str::from_utf8`, taken as an owned string: the text exactly when
/// the bytes are valid UTF-8.
#[verifier::external_body]
pub(crate) fn utf8_string(bytes: &[u8]) -> (r: Option<String>)
    ensures
        r is Some <==> valid_utf8(bytes@),
        r matches Some(s) ==> s@ == decode_utf8(bytes@),
{
    match std::str::from_utf8(bytes) {
        Ok(s) => Some(s.to_owned()),
        Err(_) => None,
    }
}

/// `str::to_owned`.
pub fn owned(s: &str) -> (r: String)
    ensures
        r@ == s@,
{
    s.to_owned()
}

} // verus!

verus! {

/// What `str`'s `Debug` formatting prints for a string with these
/// characters: the text in double quotes, with escapes.
pub uninterp spec fn str_debug_repr(s: Seq<char>) -> Seq<char>;

/// `format!("{:?}", s)` for a string slice.
#[verifier::external_body]
pub(crate) fn debug_quoted(s: &str) -> (r: String)
    ensures
        r@ == str_debug_repr(s@),
{
    format!("{s:?}")
}

/// Joins two pieces of text.
pub fn concat2(a: &str, b: &str) -> (r: String)
    ensures
        r@ == a@ + b@,
{
    let mut r = owned(a);
    r.append(b);
    r
}

/// Joins three pieces of text.
pub fn concat3(a: &str, b: &str, c: &str) -> (r: String)
    ensures
        r@ == a@ + b@ + c@,
{
    let mut r = owned(a);
    r.append(b);
    r.append(c);
    r
}

} // verus!
