//! Input validation helpers.

use vstd::prelude::*;
use vstd::std_specs::iter::IteratorSpec;

verus! {

/// Whether a character is a Unicode alphanumeric: the result of
/// `char::is_alphanumeric`, a function of the character alone.
pub uninterp spec fn unicode_alphanumeric(c: char) -> bool;

/// Relies on char::is_alphanumeric: the result depends on the character
/// alone.
#[verifier::external_body]
fn char_is_alphanumeric(c: char) -> (r: bool)
    ensures
        r == unicode_alphanumeric(c),
{
    c.is_alphanumeric()
}

/// Whether a character is one of the hexadecimal digits 0-9, a-f, A-F.
pub open spec fn spec_is_hex_digit(c: char) -> bool {
    ||| (48 <= c as u32 && c as u32 <= 57)
    ||| (97 <= c as u32 && c as u32 <= 102)
    ||| (65 <= c as u32 && c as u32 <= 70)
}

/// Whether a character is one of the hexadecimal digits 0-9, a-f, A-F.
fn is_hex_digit(c: char) -> (r: bool)
    ensures
        r == spec_is_hex_digit(c),
{
    let n = c as u32;
    (48 <= n && n <= 57) || (97 <= n && n <= 102) || (65 <= n && n <= 70)
}

/// A valid username is 3 to 20 bytes long and made of Unicode
/// alphanumerics and underscores.
pub open spec fn spec_valid_username(s: &str) -> bool {
    &&& 3 <= s.len() <= 20
    &&& forall|i: int|
        0 <= i < s@.len() ==> unicode_alphanumeric(#[trigger] s@[i]) || s@[i] == '_'
}

/// Whether a username is acceptable: 3 to 20 bytes, every character a
/// Unicode alphanumeric or an underscore.
pub fn validate_username(name: &str) -> (r: bool)
    ensures
        r == spec_valid_username(name),
{
    let len = name.len();
    if len < 3 || len > 20 {
        return false;
    }
    let mut it = name.chars();
    let ghost mut seen: int = 0;
    loop
        invariant
            0 <= seen <= name@.len(),
            it.remaining() =~= name@.skip(seen),
            forall|i: int| 0 <= i < seen ==> unicode_alphanumeric(#[trigger] name@[i]) || name@[i]
                == '_',
            3 <= name.len() <= 20,
        decreases name@.len() - seen,
    {
        match it.next() {
            Some(c) => {
                proof {
                    assert(name@.skip(seen)[0] == name@[seen]);
                    assert(name@.skip(seen).drop_first() =~= name@.skip(seen + 1));
                }
                if !(char_is_alphanumeric(c) || c == '_') {
                    return false;
                }
                proof {
                    seen = seen + 1;
                }
            },
            None => {
                proof {
                    assert(name@.skip(seen).len() == 0);
                    assert(seen == name@.len());
                }
                return true;
            },
        }
    }
}

/// A valid colour code is exactly seven bytes: a hash sign and six
/// hexadecimal digits.
pub open spec fn spec_valid_color_hex(s: &str) -> bool {
    &&& s.len() == 7
    &&& s@.len() >= 1 && s@[0] == '#'
    &&& forall|i: int| 1 <= i < s@.len() ==> spec_is_hex_digit(#[trigger] s@[i])
}

/// Whether a colour code is acceptable: seven bytes, a leading hash
/// sign, then hexadecimal digits.
pub fn validate_color_hex(hex: &str) -> (r: bool)
    ensures
        r == spec_valid_color_hex(hex),
{
    if hex.len() != 7 {
        return false;
    }
    let mut it = hex.chars();
    let mut first: bool = true;
    let ghost mut seen: int = 0;
    loop
        invariant
            0 <= seen <= hex@.len(),
            it.remaining() =~= hex@.skip(seen),
            first <==> seen == 0,
            seen >= 1 ==> hex@.len() >= 1 && hex@[0] == '#',
            forall|i: int| 1 <= i < seen ==> spec_is_hex_digit(#[trigger] hex@[i]),
            hex.len() == 7,
        decreases hex@.len() - seen,
    {
        match it.next() {
            Some(c) => {
                proof {
                    assert(hex@.skip(seen)[0] == hex@[seen]);
                    assert(hex@.skip(seen).drop_first() =~= hex@.skip(seen + 1));
                }
                if first {
                    if c != '#' {
                        return false;
                    }
                    first = false;
                } else {
                    if !is_hex_digit(c) {
                        return false;
                    }
                }
                proof {
                    seen = seen + 1;
                }
            },
            None => {
                proof {
                    assert(hex@.skip(seen).len() == 0);
                    assert(seen == hex@.len());
                }
                return !first;
            },
        }
    }
}

} // verus!
