//! Structural validation of hyphenated 128-bit identifier strings.

use vstd::prelude::*;

use crate::generator::Generator;

verus! {

/// A lowercase hexadecimal digit: `0`-`9` or `a`-`f`.  Uppercase digits
/// are deliberately rejected.
pub open spec fn is_hex_digit(c: char) -> bool {
    ('0' <= c && c <= '9') || ('a' <= c && c <= 'f')
}

/// The character positions that hold a hyphen in the canonical
/// 8-4-4-4-12 layout of a 36-character identifier.
pub open spec fn is_hyphen_pos(i: int) -> bool {
    i == 8 || i == 13 || i == 18 || i == 23
}

/// Structural validity of a hyphenated 128-bit identifier string:
/// exactly 36 characters, hyphens exactly at positions 8, 13, 18 and 23,
/// and lowercase hexadecimal digits everywhere else.
pub open spec fn spec_valid_hex128(s: Seq<char>) -> bool {
    &&& s.len() == 36
    &&& forall|i: int| 0 <= i < 36 && is_hyphen_pos(i) ==> s[i] == '-'
    &&& forall|i: int| 0 <= i < 36 && !is_hyphen_pos(i) ==> is_hex_digit(#[trigger] s[i])
}

impl Generator {
    /// Returns true exactly when every character of `hex` is a lowercase
    /// hexadecimal digit.
    pub fn valid_hex(hex: &str) -> (r: bool)
        ensures
            r == forall|i: int| 0 <= i < hex@.len() ==> is_hex_digit(#[trigger] hex@[i]),
    {
        let len: usize = hex.unicode_len();
        let mut i: usize = 0;
        while i < len
            invariant
                len == hex@.len(),
                i <= len,
                forall|j: int| 0 <= j < i ==> is_hex_digit(#[trigger] hex@[j]),
            decreases len - i,
        {
            let c = hex.get_char(i);
            if !(('0' <= c && c <= '9') || ('a' <= c && c <= 'f')) {
                return false;
            }
            i += 1;
        }
        true
    }

    /// Returns true exactly when `uuid` is a structurally valid hyphenated
    /// 128-bit identifier: 36 characters, hyphens at positions 8, 13, 18
    /// and 23, lowercase hexadecimal digits elsewhere.
    pub fn is_valid_hex128(uuid: &str) -> (r: bool)
        ensures
            r == spec_valid_hex128(uuid@),
    {
        let len: usize = uuid.unicode_len();
        if len != 36 || uuid.get_char(8) != '-' || uuid.get_char(13) != '-' || uuid.get_char(18)
            != '-' || uuid.get_char(23) != '-' {
            return false;
        }
        let r = Self::valid_hex(uuid.substring_char(0, 8)) && Self::valid_hex(
            uuid.substring_char(9, 13),
        ) && Self::valid_hex(uuid.substring_char(14, 18)) && Self::valid_hex(
            uuid.substring_char(19, 23),
        ) && Self::valid_hex(uuid.substring_char(24, 36));
        proof {
            if r {
                assert forall|i: int| 0 <= i < 36 && !is_hyphen_pos(i) implies is_hex_digit(
                    #[trigger] uuid@[i],
                ) by {
                    if i < 8 {
                        assert(uuid@[i] == uuid@.subrange(0, 8)[i]);
                    } else if i < 13 {
                        assert(uuid@[i] == uuid@.subrange(9, 13)[i - 9]);
                    } else if i < 18 {
                        assert(uuid@[i] == uuid@.subrange(14, 18)[i - 14]);
                    } else if i < 23 {
                        assert(uuid@[i] == uuid@.subrange(19, 23)[i - 19]);
                    } else {
                        assert(uuid@[i] == uuid@.subrange(24, 36)[i - 24]);
                    }
                }
            } else {
                if spec_valid_hex128(uuid@) {
                    assert forall|j: int| 0 <= j < 8 implies is_hex_digit(
                        #[trigger] uuid@.subrange(0, 8)[j],
                    ) by {
                        assert(uuid@.subrange(0, 8)[j] == uuid@[j]);
                    }
                    assert forall|j: int| 0 <= j < 4 implies is_hex_digit(
                        #[trigger] uuid@.subrange(9, 13)[j],
                    ) by {
                        assert(uuid@.subrange(9, 13)[j] == uuid@[j + 9]);
                    }
                    assert forall|j: int| 0 <= j < 4 implies is_hex_digit(
                        #[trigger] uuid@.subrange(14, 18)[j],
                    ) by {
                        assert(uuid@.subrange(14, 18)[j] == uuid@[j + 14]);
                    }
                    assert forall|j: int| 0 <= j < 4 implies is_hex_digit(
                        #[trigger] uuid@.subrange(19, 23)[j],
                    ) by {
                        assert(uuid@.subrange(19, 23)[j] == uuid@[j + 19]);
                    }
                    assert forall|j: int| 0 <= j < 12 implies is_hex_digit(
                        #[trigger] uuid@.subrange(24, 36)[j],
                    ) by {
                        assert(uuid@.subrange(24, 36)[j] == uuid@[j + 24]);
                    }
                    assert(false);
                }
            }
        }
        r
    }
}

} // verus!
