//! Text on its way across the native boundary.
//!
//! The native side reads and writes text as NUL-terminated byte strings.
//! Going out, a string becomes its UTF-8 bytes with a terminator behind them,
//! which is only possible where no byte of it is NUL. Coming in, the bytes in
//! front of the terminator become a string where they are well-formed UTF-8.

use vstd::prelude::*;
use vstd::string::StringExecFns;
use vstd::string::StringSliceAdditionalSpecFns;
use vstd::utf8::{decode_utf8, encode_utf8_decode_utf8, valid_utf8};

verus! {

/// No byte of `bytes` is NUL.
pub open spec fn nul_free(bytes: Seq<u8>) -> bool {
    forall|i: int| 0 <= i < bytes.len() ==> bytes[i] != 0u8
}

/// `bytes` with the terminator behind them.
pub open spec fn terminated(bytes: Seq<u8>) -> Seq<u8> {
    bytes.push(0u8)
}

/// `core::str::from_utf8`: it accepts exactly the byte strings that are
/// well-formed UTF-8, and the text it gives back is encoded by those bytes.
#[verifier::external_body]
fn utf8_text(bytes: &[u8]) -> (text: Option<&str>)
    ensures
        text is Some <==> valid_utf8(bytes@),
        text matches Some(s) ==> s.spec_bytes() == bytes@,
{
    core::str::from_utf8(bytes).ok()
}

/// Whether some byte of `value` is NUL, in which case the native side cannot
/// be handed it.
pub fn has_nul(value: &str) -> (found: bool)
    ensures
        found == !nul_free(value.spec_bytes()),
{
    let bytes = value.as_bytes();
    let mut i: usize = 0;
    while i < bytes.len()
        invariant
            0 <= i <= bytes.len(),
            bytes@ == value.spec_bytes(),
            forall|j: int| 0 <= j < i ==> bytes@[j] != 0u8,
        decreases bytes.len() - i,
    {
        if bytes[i] == 0 {
            return true;
        }
        i += 1;
    }
    false
}

/// The NUL-terminated byte string that stands for `value` on the native side.
pub fn into(value: &str) -> (raw: Vec<u8>)
    requires
        nul_free(value.spec_bytes()),
    ensures
        raw@ == terminated(value.spec_bytes()),
{
    let mut raw = value.as_bytes_vec();
    raw.push(0);
    raw
}

/// As [`into`], for a string that may be absent: no string, no bytes.
pub fn into_opt(value: Option<&str>) -> (raw: Option<Vec<u8>>)
    requires
        value matches Some(v) ==> nul_free(v.spec_bytes()),
    ensures
        match value {
            Some(v) => raw matches Some(r) && r@ == terminated(v.spec_bytes()),
            None => raw is None,
        },
{
    match value {
        Some(v) => Some(into(v)),
        None => None,
    }
}

/// The string that the native side handed over: `value` holds the bytes in
/// front of the terminator, or nothing where the pointer was null. There is a
/// string exactly where there are bytes and they are well-formed UTF-8, and
/// it is the text they encode.
pub fn from(value: Option<&[u8]>) -> (text: Option<String>)
    ensures
        text is Some <==> (value matches Some(bytes) && valid_utf8(bytes@)),
        text matches Some(s) ==> s@ == decode_utf8(value.unwrap()@),
{
    match value {
        Some(bytes) => match utf8_text(bytes) {
            Some(s) => {
                proof {
                    encode_utf8_decode_utf8(s@);
                }
                Some(String::from_str(s))
            },
            None => None,
        },
        None => None,
    }
}

} // verus!
