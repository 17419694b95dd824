//! Decoding of the hex literals that a parameter set is configured with.
//!
//! A literal is a string such as `0x2a…`: a two-character prefix, then an
//! even number of hex digits. Decoding strips the prefix, reads the digits
//! as big-endian bytes, reverses them into little-endian order, right-pads
//! with zero bytes to a 512-bit buffer, and reduces that wide little-endian
//! integer modulo the field order.
use crate::field::{fr_of_le_bytes, Fr};
use crate::ConfigError;
use vstd::prelude::*;
use vstd::string::StrSliceExecFns;

verus! {

/// Whether a character is a hex digit (`0-9`, `a-f`, `A-F`).
pub open spec fn is_hex_digit(c: char) -> bool {
    ||| '0' as u32 <= c as u32 && c as u32 <= '9' as u32
    ||| 'a' as u32 <= c as u32 && c as u32 <= 'f' as u32
    ||| 'A' as u32 <= c as u32 && c as u32 <= 'F' as u32
}

/// The value of one hex digit.
pub open spec fn hex_digit_val(c: char) -> u8
    recommends
        is_hex_digit(c),
{
    if '0' as u32 <= c as u32 && c as u32 <= '9' as u32 {
        (c as u32 - '0' as u32) as u8
    } else if 'a' as u32 <= c as u32 && c as u32 <= 'f' as u32 {
        (c as u32 - 'a' as u32 + 10) as u8
    } else {
        (c as u32 - 'A' as u32 + 10) as u8
    }
}

/// The bytes an even-length string of hex digits stands for, one byte per
/// digit pair, high digit first.
pub open spec fn hex_bytes_of(s: Seq<char>) -> Seq<u8>
    recommends
        s.len() % 2 == 0,
{
    Seq::new(s.len() / 2, |i: int| (hex_digit_val(s[2 * i]) * 16 + hex_digit_val(s[2 * i + 1])) as u8)
}

/// A well-formed literal: the two-character prefix, then an even number of
/// hex digits, at most 128 of them so the bytes fit the 512-bit buffer.
pub open spec fn valid_hex_literal(s: Seq<char>) -> bool {
    &&& s.len() >= 2
    &&& (s.len() - 2) % 2 == 0
    &&& s.len() <= 130
    &&& forall|i: int| 2 <= i < s.len() ==> is_hex_digit(s[i])
}

/// `b` right-padded with zero bytes to length `n` (`b` unchanged if longer).
pub open spec fn pad_le_bytes(b: Seq<u8>, n: nat) -> Seq<u8> {
    Seq::new(n, |i: int| if i < b.len() { b[i] } else { 0u8 })
}

/// The field element a well-formed hex literal stands for.
pub open spec fn field_of_hex(s: Seq<char>) -> Fr {
    fr_of_le_bytes(pad_le_bytes(hex_bytes_of(s.skip(2)).reverse(), 64))
}

/// Relies on `hex::decode`: it succeeds exactly on even-length strings of
/// hex digits (`0-9`, `a-f`, `A-F`) and yields one byte per digit pair,
/// high digit first.
#[verifier::external_body]
pub(crate) fn hex_decode(s: &str) -> (r: Result<Vec<u8>, ConfigError>)
    ensures
        r is Ok <==> (s@.len() % 2 == 0 && forall|i: int|
            0 <= i < s@.len() ==> is_hex_digit(s@[i])),
        r matches Ok(v) ==> v@ == hex_bytes_of(s@),
        r matches Err(e) ==> e == ConfigError::InvalidHex,
{
    match hex::decode(s) {
        Ok(v) => Ok(v),
        Err(_) => Err(ConfigError::InvalidHex),
    }
}

/// Decodes one hex literal into a field element, exactly as a parameter set
/// is configured: strip the two-character prefix, hex-decode into big-endian
/// bytes, reverse to little-endian, zero-pad to 512 bits, reduce modulo the
/// field order.
pub fn hex_to_field(s: &str) -> (r: Result<Fr, ConfigError>)
    ensures
        r is Ok <==> valid_hex_literal(s@),
        r matches Ok(v) ==> v == field_of_hex(s@),
        r matches Err(e) ==> e == ConfigError::InvalidHex,
{
    let n = s.unicode_len();
    if n < 2 {
        return Err(ConfigError::InvalidHex);
    }
    let digits = s.substring_char(2, n);
    assert(digits@ =~= s@.skip(2));
    let bytes = match hex_decode(digits) {
        Ok(b) => b,
        Err(e) => {
            proof {
                if (s@.len() - 2) % 2 == 0 {
                    // an odd length did not stop the decode, so some digit is bad
                    let j = choose|j: int| 0 <= j < digits@.len() && !is_hex_digit(digits@[j]);
                    assert(s@[j + 2] == digits@[j]);
                    assert(!valid_hex_literal(s@));
                }
            }
            return Err(e);
        },
    };
    if bytes.len() > 64 {
        assert(s@.len() > 130);
        return Err(ConfigError::InvalidHex);
    }
    proof {
        assert forall|i: int| 2 <= i < s@.len() implies is_hex_digit(s@[i]) by {
            assert(digits@[i - 2] == s@[i]);
        }
        assert(valid_hex_literal(s@));
    }
    let ghost rev = bytes@.reverse();
    let mut le: Vec<u8> = Vec::new();
    let mut i: usize = bytes.len();
    while i > 0
        invariant
            i <= bytes@.len(),
            le@.len() == bytes@.len() - i,
            forall|k: int| 0 <= k < le@.len() ==> le@[k] == bytes@[bytes@.len() - 1 - k],
        decreases i,
    {
        i = i - 1;
        le.push(bytes[i]);
    }
    assert(le@ =~= rev);
    while le.len() < 64
        invariant
            rev.len() <= le@.len() <= 64,
            forall|k: int| 0 <= k < le@.len() ==> le@[k] == (if k < rev.len() {
                rev[k]
            } else {
                0u8
            }),
        decreases 64 - le@.len(),
    {
        le.push(0u8);
    }
    assert(le@ =~= pad_le_bytes(rev, 64));
    Ok(Fr::from_le_bytes(&le))
}

} // verus!
