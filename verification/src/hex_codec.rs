//! Hex strings, as the mainchain node uses them: raw transactions arrive
//! as hex, and displayed hashes are the hex of the reversed raw bytes.

use vstd::prelude::*;

use crate::Error;

verus! {

/// Whether `c` is a hex digit, in either case.
pub open spec fn is_hex_digit(c: char) -> bool {
    ('0' <= c && c <= '9') || ('a' <= c && c <= 'f') || ('A' <= c && c <= 'F')
}

/// Numeric value of the hex digit `c`.
pub open spec fn hex_digit_value(c: char) -> int {
    if '0' <= c && c <= '9' {
        c as int - '0' as int
    } else if 'a' <= c && c <= 'f' {
        10 + c as int - 'a' as int
    } else {
        10 + c as int - 'A' as int
    }
}

/// Whether `s` is a well-formed hex string: even length, hex digits only.
pub open spec fn is_hex_str(s: Seq<char>) -> bool {
    s.len() % 2 == 0 && (forall|i: int| 0 <= i < s.len() ==> is_hex_digit(#[trigger] s[i]))
}

/// The bytes a well-formed hex string denotes, one byte per digit pair,
/// high digit first.
pub open spec fn hex_decoded(s: Seq<char>) -> Seq<u8> {
    Seq::new(
        (s.len() / 2) as nat,
        |i: int| (hex_digit_value(s[2 * i]) * 16 + hex_digit_value(s[2 * i + 1])) as u8,
    )
}

/// Relies on hex::decode: it succeeds exactly on even-length strings of
/// hex digits (either case), and maps each digit pair to one byte, high
/// digit first.
#[verifier::external_body]
pub(crate) fn hex_decode(s: &str) -> (r: Result<Vec<u8>, Error>)
    ensures
        r matches Ok(v) ==> is_hex_str(s@) && v@ == hex_decoded(s@),
        r matches Err(e) ==> !is_hex_str(s@) && e == Error::Hex,
{
    match hex::decode(s) {
        Ok(v) => Ok(v),
        Err(_) => Err(Error::Hex),
    }
}

/// Decodes a displayed hash: the hex digits of `s`, read into bytes and
/// then reversed into internal order.
pub fn decode_reverse_hex(s: &str) -> (r: Result<Vec<u8>, Error>)
    ensures
        r is Ok <==> is_hex_str(s@),
        r matches Ok(v) ==> v@ == hex_decoded(s@).reverse(),
        r is Err ==> r == Err::<Vec<u8>, Error>(Error::Hex),
{
    let bytes = match hex_decode(s) {
        Ok(v) => v,
        Err(e) => {
            return Err(e);
        },
    };
    let len = bytes.len();
    let mut out: Vec<u8> = Vec::new();
    let mut i: usize = len;
    while i > 0
        invariant
            i <= len,
            len == bytes@.len(),
            out@.len() == len - i,
            forall|k: int| 0 <= k < out@.len() ==> out@[k] == bytes@[len - 1 - k],
        decreases i,
    {
        i = i - 1;
        out.push(bytes[i]);
    }
    proof {
        assert(out@ =~= bytes@.reverse());
    }
    Ok(out)
}

} // verus!
