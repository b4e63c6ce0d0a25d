//! The pure 128-bit hexadecimal encoder: turns a 24-byte identifier into
//! a 36-character hyphenated lowercase string shaped like an RFC-4122
//! version-4 UUID.

use vstd::prelude::*;

use crate::generator::spec_identifier;
use crate::generator::Generator;
use crate::validity::is_hex_digit;
use crate::validity::is_hyphen_pos;
use crate::validity::spec_valid_hex128;

verus! {

/// Raised by the checked encoding entry points when the encoded buffer
/// fails UTF-8 validation.  The encoder's output alphabet is ASCII, so
/// this is a defensive contract at the bytes-to-text boundary and never
/// occurs in practice.
#[derive(Debug, PartialEq, Eq)]
pub struct EncodingError;

/// The ASCII hyphen, `-`.
pub const HYPHEN: u8 = 45;

/// The ASCII byte of the lowercase hexadecimal digit for a nibble.
pub open spec fn hex_digit_byte(v: u8) -> u8
    recommends
        v < 16,
{
    if v < 10 {
        (0x30 + v) as u8
    } else {
        (0x57 + v) as u8
    }
}

/// The first 16 bytes of an identifier, reshaped for encoding: bytes 6
/// and 9 are swapped (so the version nibble lands on genuinely varying
/// counter bits), byte 6's high nibble is forced to `0x4` (RFC-4122
/// version 4) and byte 8's two high bits to `10` (RFC-4122 variant).
pub open spec fn spec_swizzle(uuid: Seq<u8>) -> Seq<u8>
    recommends
        uuid.len() >= 16,
{
    Seq::new(
        16,
        |i: int|
            if i == 6 {
                (uuid[9] & 0x0f) | 0x40
            } else if i == 8 {
                (uuid[8] & 0x3f) | 0x80
            } else if i == 9 {
                uuid[6]
            } else {
                uuid[i]
            },
    )
}

/// The lowercase hexadecimal rendering of a byte sequence: two digits
/// per byte, high nibble first.
pub open spec fn spec_hex_bytes(b: Seq<u8>) -> Seq<u8> {
    Seq::new(
        b.len() * 2,
        |i: int|
            if i % 2 == 0 {
                hex_digit_byte(b[i / 2] >> 4)
            } else {
                hex_digit_byte(b[i / 2] & 0x0f)
            },
    )
}

/// Maps a position of the 36-byte hyphenated output back to its
/// position among the 32 hexadecimal digits.
pub open spec fn spec_digit_pos(i: int) -> int {
    if i < 8 {
        i
    } else if i < 13 {
        i - 1
    } else if i < 18 {
        i - 2
    } else if i < 23 {
        i - 3
    } else {
        i - 4
    }
}

/// 32 hexadecimal digits spread into the canonical 8-4-4-4-12 layout:
/// hyphens at positions 8, 13, 18 and 23, digits everywhere else.
pub open spec fn spec_hyphenate(h: Seq<u8>) -> Seq<u8>
    recommends
        h.len() == 32,
{
    Seq::new(
        36,
        |i: int|
            if is_hyphen_pos(i) {
                HYPHEN
            } else {
                h[spec_digit_pos(i)]
            },
    )
}

/// The full encoding of a 24-byte identifier: its first 16 bytes are
/// reshaped, hex-encoded to 32 lowercase digits, and hyphenated into 36
/// ASCII bytes.
pub open spec fn spec_hex128(uuid: Seq<u8>) -> Seq<u8>
    recommends
        uuid.len() == 24,
{
    spec_hyphenate(spec_hex_bytes(spec_swizzle(uuid)))
}

/// An ASCII byte sequence read as the character sequence it spells.
pub open spec fn ascii_view(b: Seq<u8>) -> Seq<char> {
    Seq::new(b.len(), |i: int| b[i] as char)
}

/// Relies on `faster_hex::hex_encode`: encodes every byte of `src` as
/// two lowercase hexadecimal digits, high nibble first, filling `dst`
/// exactly (the destination is twice the source's length, so the call
/// cannot fail).
#[verifier::external_body]
fn hex_encode_lower(src: &[u8; 16], dst: &mut [u8; 32])
    ensures
        final(dst)@ == spec_hex_bytes(src@),
{
    let _ = faster_hex::hex_encode(src, dst);
}

/// Relies on `core::str::from_utf8`: on ASCII input it succeeds, and the
/// returned string spells exactly the given bytes.
#[verifier::external_body]
fn bytes_as_str<'a>(b: &'a [u8]) -> (r: Result<&'a str, EncodingError>)
    requires
        forall|i: int| 0 <= i < b@.len() ==> b@[i] < 128,
    ensures
        r is Ok,
        r matches Ok(s) ==> s@ == ascii_view(b@),
{
    match core::str::from_utf8(b) {
        Ok(s) => Ok(s),
        Err(_) => Err(EncodingError),
    }
}

proof fn lemma_nibbles(b: u8)
    ensures
        (b >> 4) < 16,
        (b & 0x0f) < 16,
{
    assert((b >> 4) < 16) by (bit_vector);
    assert((b & 0x0f) < 16) by (bit_vector);
}

/// Every byte of an encoding is ASCII: a hyphen or a lowercase
/// hexadecimal digit.
proof fn lemma_hex128_ascii(uuid: Seq<u8>)
    requires
        uuid.len() == 24,
    ensures
        forall|i: int| 0 <= i < 36 ==> #[trigger] spec_hex128(uuid)[i] < 128,
{
    assert forall|i: int| 0 <= i < 36 implies #[trigger] spec_hex128(uuid)[i] < 128 by {
        if !is_hyphen_pos(i) {
            let b = spec_swizzle(uuid)[spec_digit_pos(i) / 2];
            lemma_nibbles(b);
        }
    }
}

/// Law: every encoder output is structurally valid — the 36-character
/// rendering of any 24-byte identifier has hyphens exactly at positions
/// 8, 13, 18 and 23 and lowercase hexadecimal digits everywhere else.
pub proof fn lemma_hex128_valid(uuid: Seq<u8>)
    requires
        uuid.len() == 24,
    ensures
        spec_valid_hex128(ascii_view(spec_hex128(uuid))),
{
    let s = ascii_view(spec_hex128(uuid));
    assert forall|i: int| 0 <= i < 36 && !is_hyphen_pos(i) implies is_hex_digit(s[i]) by {
        let b = spec_swizzle(uuid)[spec_digit_pos(i) / 2];
        lemma_nibbles(b);
    }
}

/// Law: the pure encoder is deterministic — equal 24-byte inputs encode
/// to equal 36-character outputs.
pub proof fn lemma_hex128_deterministic(a: Seq<u8>, b: Seq<u8>)
    requires
        a == b,
    ensures
        spec_hex128(a) == spec_hex128(b),
{
}

impl Generator {
    /// Encodes the first 128 bits of the given 24-byte identifier into
    /// `buffer` as 36 ASCII bytes — 32 lowercase hexadecimal digits with
    /// hyphens at positions 8, 13, 18 and 23 — and returns the filled
    /// buffer as a slice.  Pure: no counter interaction.
    pub fn hex128_from_bytes<'a>(uuid: &[u8; 24], buffer: &'a mut [u8; 36]) -> (r: &'a [u8])
        ensures
            final(buffer)@ == spec_hex128(uuid@),
            r@ == spec_hex128(uuid@),
    {
        let mut temp: [u8; 16] = [0; 16];
        let mut i: usize = 0;
        while i < 16
            invariant
                i <= 16,
                forall|j: int| 0 <= j < i ==> temp@[j] == uuid@[j],
            decreases 16 - i,
        {
            temp[i] = uuid[i];
            i += 1;
        }
        let low: u8 = temp[9];
        temp[9] = temp[6];
        temp[6] = (low & 0x0f) | 0x40;
        temp[8] = (temp[8] & 0x3f) | 0x80;
        proof {
            assert(temp@ =~= spec_swizzle(uuid@));
        }
        let mut hex: [u8; 32] = [0; 32];
        hex_encode_lower(&temp, &mut hex);
        let mut j: usize = 0;
        while j < 36
            invariant
                hex@ == spec_hex_bytes(spec_swizzle(uuid@)),
                j <= 36,
                forall|k: int| 0 <= k < j ==> buffer@[k] == #[trigger] spec_hex128(uuid@)[k],
            decreases 36 - j,
        {
            if j == 8 || j == 13 || j == 18 || j == 23 {
                buffer[j] = HYPHEN;
            } else {
                let src: usize = if j < 8 {
                    j
                } else if j < 13 {
                    j - 1
                } else if j < 18 {
                    j - 2
                } else if j < 23 {
                    j - 3
                } else {
                    j - 4
                };
                buffer[j] = hex[src];
            }
            j += 1;
        }
        proof {
            assert(buffer@ =~= spec_hex128(uuid@));
        }
        buffer.as_slice()
    }

    /// Draws the next identifier and encodes it into `buffer`, returning
    /// the 36-character string borrowed from it.  The UTF-8 validation at
    /// the bytes-to-text boundary is a defensive check that the ASCII
    /// output alphabet always passes, so the result is always `Ok`.
    pub fn hex128_as_str<'a>(&self, buffer: &'a mut [u8; 36]) -> (r: Result<
        &'a str,
        EncodingError,
    >)
        ensures
            r matches Ok(s) && s@ == ascii_view(final(buffer)@),
            exists|c: u64| final(buffer)@ == spec_hex128(spec_identifier(c, self.seed_tail())),
            r matches Ok(s) && spec_valid_hex128(s@),
    {
        let id: [u8; 24] = self.next();
        let _ = Self::hex128_from_bytes(&id, buffer);
        proof {
            lemma_hex128_ascii(id@);
            lemma_hex128_valid(id@);
            let c = choose|c: u64| id@ == spec_identifier(c, self.seed_tail());
            assert(buffer@ == spec_hex128(spec_identifier(c, self.seed_tail())));
        }
        bytes_as_str(buffer.as_slice())
    }

    /// Draws the next identifier and returns its 36-character encoding
    /// as a freshly allocated string.  As with [`Generator::hex128_as_str`],
    /// the defensive UTF-8 validation always passes, so the result is
    /// always `Ok`.
    pub fn hex128_as_string(&self) -> (r: Result<String, EncodingError>)
        ensures
            r matches Ok(s) && spec_valid_hex128(s@),
            r matches Ok(s) && (exists|c: u64| s@ == ascii_view(
                spec_hex128(spec_identifier(c, self.seed_tail())),
            )),
    {
        let mut buffer: [u8; 36] = [0; 36];
        match self.hex128_as_str(&mut buffer) {
            Ok(s) => Ok(s.to_owned()),
            Err(e) => Err(e),
        }
    }
}

} // verus!
