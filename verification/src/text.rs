//! Sanitization of text handed to the native side.
//!
//! The native kernel accepts only 7-bit ASCII; every character above 0x7F is
//! replaced with `?` before transmission.

use vstd::prelude::*;
use vstd::string::StrSliceExecFns;

verus! {

/// The byte transmitted for one character: the character itself when it is
/// 7-bit ASCII, `?` (0x3F) otherwise.
pub open spec fn sanitized_byte(c: char) -> u8 {
    if c as u32 <= 0x7F {
        (c as u32) as u8
    } else {
        0x3F
    }
}

/// Map a string to the byte sequence transmitted to the native side:
/// each 7-bit ASCII character passes through, everything else becomes `?`.
pub fn sanitize_for_native(s: &str) -> (r: Vec<u8>)
    ensures
        r@.len() == s@.len(),
        forall|i: int| 0 <= i < s@.len() ==> r@[i] == sanitized_byte(s@[i]),
{
    let n = s.unicode_len();
    let mut r: Vec<u8> = Vec::new();
    let mut i: usize = 0;
    while i < n
        invariant
            n == s@.len(),
            i <= n,
            r@.len() == i,
            forall|j: int| 0 <= j < i ==> r@[j] == sanitized_byte(s@[j]),
        decreases n - i,
    {
        let c = s.get_char(i);
        let code = c as u32;
        let b: u8 = if code <= 0x7F {
            code as u8
        } else {
            0x3F
        };
        r.push(b);
        i += 1;
    }
    r
}

} // verus!
