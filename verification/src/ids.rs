//! Canonical identifier strings.
//!
//! Every entity identity in the system is carried as its canonical textual
//! form: 36 characters, 32 hexadecimal digits in five groups separated by
//! hyphens at positions 8, 13, 18 and 23. Identities arrive from the store
//! and from verified credentials as strings; this module decides whether a
//! string is such a canonical identifier.

use vstd::prelude::*;

verus! {

/// True if `c` is an ASCII hexadecimal digit (either case).
pub open spec fn is_hex_digit_char(c: char) -> bool {
    (48 <= c as u32 && c as u32 <= 57)  // '0'..='9'
    || (97 <= c as u32 && c as u32 <= 102)  // 'a'..='f'
    || (65 <= c as u32 && c as u32 <= 70)  // 'A'..='F'
}

/// What the character at position `i` of a canonical identifier must be:
/// a hyphen at the four group boundaries, a hex digit everywhere else.
pub open spec fn uuid_char_ok(s: Seq<char>, i: int) -> bool {
    if i == 8 || i == 13 || i == 18 || i == 23 {
        s[i] == '-'
    } else {
        is_hex_digit_char(s[i])
    }
}

/// `s` is a canonical (hyphenated, hexadecimal) identifier string.
pub open spec fn is_uuid_str(s: Seq<char>) -> bool {
    s.len() == 36 && (forall|i: int| 0 <= i < 36 ==> uuid_char_ok(s, i))
}

/// Decide whether `s` is a canonical identifier string.
pub fn check_uuid_str(s: &str) -> (r: bool)
    ensures
        r == is_uuid_str(s@),
{
    let n = s.unicode_len();
    if n != 36 {
        return false;
    }
    let mut i: usize = 0;
    while i < 36
        invariant
            s@.len() == 36,
            i <= 36,
            forall|j: int| 0 <= j < i ==> uuid_char_ok(s@, j),
        decreases 36 - i,
    {
        let c = s.get_char(i);
        let u = c as u32;
        let ok: bool = if i == 8 || i == 13 || i == 18 || i == 23 {
            c == '-'
        } else {
            (48 <= u && u <= 57) || (97 <= u && u <= 102) || (65 <= u && u <= 70)
        };
        if !ok {
            assert(!uuid_char_ok(s@, i as int));
            return false;
        }
        i += 1;
    }
    true
}

} // verus!
