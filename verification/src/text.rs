//! The text-encoding policy for opened files.
//!
//! An opened file is returned as text: its bytes must form well-formed
//! UTF-8, and a file that is not valid UTF-8 yields an encoding failure
//! rather than raw bytes. Validity is defined byte by byte, following the
//! UTF-8 well-formedness table: one-byte sequences up to `0x7F`, and two- to
//! four-byte sequences whose lead byte fixes the admissible range of each
//! continuation byte, which excludes overlong forms, surrogate code points
//! and values above `0x10FFFF`.

use vstd::prelude::*;

verus! {

/// Whether a byte is a UTF-8 continuation byte.
pub open spec fn is_utf8_continuation(b: u8) -> bool {
    0x80 <= b && b <= 0xbf
}

/// The length of the well-formed UTF-8 sequence starting at position `i`
/// of `s`, or 0 when no well-formed sequence starts there.
pub open spec fn utf8_step(s: Seq<u8>, i: int) -> int {
    if i < 0 || i >= s.len() {
        0
    } else {
        let b0 = s[i];
        if b0 <= 0x7f {
            1
        } else if 0xc2 <= b0 && b0 <= 0xdf {
            if i + 1 < s.len() && is_utf8_continuation(s[i + 1]) {
                2
            } else {
                0
            }
        } else if b0 == 0xe0 {
            if i + 2 < s.len() && 0xa0 <= s[i + 1] && s[i + 1] <= 0xbf
                && is_utf8_continuation(s[i + 2]) {
                3
            } else {
                0
            }
        } else if (0xe1 <= b0 && b0 <= 0xec) || b0 == 0xee || b0 == 0xef {
            if i + 2 < s.len() && is_utf8_continuation(s[i + 1])
                && is_utf8_continuation(s[i + 2]) {
                3
            } else {
                0
            }
        } else if b0 == 0xed {
            if i + 2 < s.len() && 0x80 <= s[i + 1] && s[i + 1] <= 0x9f
                && is_utf8_continuation(s[i + 2]) {
                3
            } else {
                0
            }
        } else if b0 == 0xf0 {
            if i + 3 < s.len() && 0x90 <= s[i + 1] && s[i + 1] <= 0xbf
                && is_utf8_continuation(s[i + 2]) && is_utf8_continuation(s[i + 3]) {
                4
            } else {
                0
            }
        } else if 0xf1 <= b0 && b0 <= 0xf3 {
            if i + 3 < s.len() && is_utf8_continuation(s[i + 1])
                && is_utf8_continuation(s[i + 2]) && is_utf8_continuation(s[i + 3]) {
                4
            } else {
                0
            }
        } else if b0 == 0xf4 {
            if i + 3 < s.len() && 0x80 <= s[i + 1] && s[i + 1] <= 0x8f
                && is_utf8_continuation(s[i + 2]) && is_utf8_continuation(s[i + 3]) {
                4
            } else {
                0
            }
        } else {
            0
        }
    }
}

/// Whether the bytes of `s` from position `i` on form well-formed UTF-8.
pub open spec fn valid_utf8_from(s: Seq<u8>, i: int) -> bool
    decreases s.len() - i,
{
    if i >= s.len() {
        true
    } else if utf8_step(s, i) == 0 {
        false
    } else {
        valid_utf8_from(s, i + utf8_step(s, i))
    }
}

/// Whether `s` is well-formed UTF-8 in full.
pub open spec fn valid_utf8(s: Seq<u8>) -> bool {
    valid_utf8_from(s, 0)
}

/// The length of the well-formed UTF-8 sequence starting at position `i`,
/// or 0 when the bytes there are malformed.
fn utf8_step_at(s: &Vec<u8>, i: usize) -> (n: usize)
    requires
        i < s.len(),
    ensures
        n == utf8_step(s@, i as int),
        i + n <= s.len(),
{
    let rem = s.len() - i;
    let b0 = s[i];
    if b0 <= 0x7f {
        1
    } else if 0xc2 <= b0 && b0 <= 0xdf {
        if rem > 1 && is_continuation_byte(s[i + 1]) {
            2
        } else {
            0
        }
    } else if b0 == 0xe0 {
        if rem > 2 && 0xa0 <= s[i + 1] && s[i + 1] <= 0xbf && is_continuation_byte(s[i + 2]) {
            3
        } else {
            0
        }
    } else if (0xe1 <= b0 && b0 <= 0xec) || b0 == 0xee || b0 == 0xef {
        if rem > 2 && is_continuation_byte(s[i + 1]) && is_continuation_byte(s[i + 2]) {
            3
        } else {
            0
        }
    } else if b0 == 0xed {
        if rem > 2 && 0x80 <= s[i + 1] && s[i + 1] <= 0x9f && is_continuation_byte(s[i + 2]) {
            3
        } else {
            0
        }
    } else if b0 == 0xf0 {
        if rem > 3 && 0x90 <= s[i + 1] && s[i + 1] <= 0xbf && is_continuation_byte(s[i + 2])
            && is_continuation_byte(s[i + 3]) {
            4
        } else {
            0
        }
    } else if 0xf1 <= b0 && b0 <= 0xf3 {
        if rem > 3 && is_continuation_byte(s[i + 1]) && is_continuation_byte(s[i + 2])
            && is_continuation_byte(s[i + 3]) {
            4
        } else {
            0
        }
    } else if b0 == 0xf4 {
        if rem > 3 && 0x80 <= s[i + 1] && s[i + 1] <= 0x8f && is_continuation_byte(s[i + 2])
            && is_continuation_byte(s[i + 3]) {
            4
        } else {
            0
        }
    } else {
        0
    }
}

/// Whether a byte is a UTF-8 continuation byte.
fn is_continuation_byte(b: u8) -> (r: bool)
    ensures
        r == is_utf8_continuation(b),
{
    0x80 <= b && b <= 0xbf
}

/// Whether the bytes form well-formed UTF-8 text.
pub fn is_valid_utf8_text(s: &Vec<u8>) -> (r: bool)
    ensures
        r == valid_utf8(s@),
{
    let mut i: usize = 0;
    while i < s.len()
        invariant
            i <= s.len(),
            valid_utf8(s@) == valid_utf8_from(s@, i as int),
        decreases s.len() - i,
    {
        let n = utf8_step_at(s, i);
        if n == 0 {
            return false;
        }
        i = i + n;
    }
    true
}

} // verus!
