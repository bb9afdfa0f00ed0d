//! Checks on the session keys that name main-thread RTC sessions.

use vstd::prelude::*;
use vstd::string::*;
use vstd::utf8::encode_utf8;
use crate::error::Error;

verus! {

/// The longest session key, in UTF-8 bytes.
pub const MAX_SESSION_KEY_LEN: usize = 256;

/// A character of the Unicode general category `Cc` (control codes).
pub open spec fn is_control_char(c: char) -> bool {
    (c as u32) <= 0x1f || (0x7f <= (c as u32) && (c as u32) <= 0x9f)
}

/// The length in UTF-8 bytes that `str::len` reports for a string with
/// these characters.
pub open spec fn utf8_len(key: Seq<char>) -> usize {
    encode_utf8(key).len() as usize
}

/// Why a session key is refused, if it is.
pub open spec fn session_key_problem(key: Seq<char>) -> Option<Seq<char>> {
    if key.len() == 0 {
        Some("session key must not be empty"@)
    } else if utf8_len(key) > MAX_SESSION_KEY_LEN {
        Some("session key is too long"@)
    } else if exists|i: int| 0 <= i < key.len() && is_control_char(#[trigger] key[i]) {
        Some("session key must not contain control characters"@)
    } else {
        None
    }
}

/// Accepts a non-empty session key of at most [`MAX_SESSION_KEY_LEN`] bytes
/// without control characters; refuses any other with `InvalidConfig`.
pub fn validate_session_key(key: &str) -> (r: Result<(), Error>)
    ensures
        match session_key_problem(key@) {
            None => r is Ok,
            Some(m) => r matches Err(Error::InvalidConfig(s)) && s@ == m,
        },
{
    if key.is_empty() {
        return Err(Error::InvalidConfig("session key must not be empty"));
    }
    if key.len() > MAX_SESSION_KEY_LEN {
        return Err(Error::InvalidConfig("session key is too long"));
    }
    let n = key.unicode_len();
    let mut i: usize = 0;
    while i < n
        invariant
            n == key@.len(),
            key@.len() > 0,
            utf8_len(key@) <= MAX_SESSION_KEY_LEN,
            i <= n,
            forall|j: int| 0 <= j < i ==> !is_control_char(#[trigger] key@[j]),
        decreases n - i,
    {
        let c = key.get_char(i);
        let v = c as u32;
        if v <= 0x1f || (0x7f <= v && v <= 0x9f) {
            proof {
                assert(is_control_char(key@[i as int]));
            }
            return Err(Error::InvalidConfig("session key must not contain control characters"));
        }
        i = i + 1;
    }
    Ok(())
}

} // verus!
