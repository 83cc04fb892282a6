use vstd::prelude::*;
use vstd::utf8::{decode_utf8, decode_utf8_encode_utf8, encode_utf8, valid_utf8};
use crate::error::AttestError;

verus! {

/// The public claim that an attestation is made against.
#[derive(Clone, Copy, Debug, PartialEq, Eq, Structural)]
pub struct PublicInput {
    pub total_supply: u64,
    pub timestamp: u64,
}

/// The number that eight bytes hold in little-endian order.
pub open spec fn le_u64_value(bytes: Seq<u8>) -> nat
    recommends
        bytes.len() == 8,
{
    (bytes[0] as nat) + 0x100 * (bytes[1] as nat) + 0x1_0000 * (bytes[2] as nat) + 0x100_0000 * (
    bytes[3] as nat) + 0x1_0000_0000 * (bytes[4] as nat) + 0x100_0000_0000 * (bytes[5] as nat)
        + 0x1_0000_0000_0000 * (bytes[6] as nat) + 0x100_0000_0000_0000 * (bytes[7] as nat)
}

/// Reads one fixed-width public field: eight bytes, lowest first.
pub fn decode_u64_le(bytes: &[u8; 8]) -> (value: u64)
    ensures
        value as nat == le_u64_value(bytes@),
{
    let mut value: u64 = 0;
    let mut i: usize = 8;
    while i > 0
        invariant
            i <= 8,
            i == 8 ==> value == 0,
            i == 7 ==> value as nat == bytes@[7] as nat,
            i == 6 ==> value as nat == bytes@[6] as nat + 0x100 * (bytes@[7] as nat),
            i == 5 ==> value as nat == bytes@[5] as nat + 0x100 * (bytes@[6] as nat) + 0x1_0000 * (
            bytes@[7] as nat),
            i == 4 ==> value as nat == bytes@[4] as nat + 0x100 * (bytes@[5] as nat) + 0x1_0000 * (
            bytes@[6] as nat) + 0x100_0000 * (bytes@[7] as nat),
            i == 3 ==> value as nat == bytes@[3] as nat + 0x100 * (bytes@[4] as nat) + 0x1_0000 * (
            bytes@[5] as nat) + 0x100_0000 * (bytes@[6] as nat) + 0x1_0000_0000 * (
            bytes@[7] as nat),
            i == 2 ==> value as nat == bytes@[2] as nat + 0x100 * (bytes@[3] as nat) + 0x1_0000 * (
            bytes@[4] as nat) + 0x100_0000 * (bytes@[5] as nat) + 0x1_0000_0000 * (
            bytes@[6] as nat) + 0x100_0000_0000 * (bytes@[7] as nat),
            i == 1 ==> value as nat == bytes@[1] as nat + 0x100 * (bytes@[2] as nat) + 0x1_0000 * (
            bytes@[3] as nat) + 0x100_0000 * (bytes@[4] as nat) + 0x1_0000_0000 * (
            bytes@[5] as nat) + 0x100_0000_0000 * (bytes@[6] as nat) + 0x1_0000_0000_0000 * (
            bytes@[7] as nat),
            i == 0 ==> value as nat == le_u64_value(bytes@),
        decreases i,
    {
        i = i - 1;
        value = value * 256 + bytes[i] as u64;
    }
    value
}

impl PublicInput {
    /// Decodes the two public fields in their declared order: the total
    /// supply, then the timestamp.
    pub fn from_le_fields(total_supply: &[u8; 8], timestamp: &[u8; 8]) -> (input: PublicInput)
        ensures
            input.total_supply as nat == le_u64_value(total_supply@),
            input.timestamp as nat == le_u64_value(timestamp@),
    {
        PublicInput {
            total_supply: decode_u64_le(total_supply),
            timestamp: decode_u64_le(timestamp),
        }
    }
}

/// `String::from_utf8` of std, with its error dropped: a string comes back
/// exactly when the bytes are well-formed UTF-8, and it then holds the
/// characters that the bytes encode.
#[verifier::external_body]
fn string_from_utf8(bytes: Vec<u8>) -> (text: Option<String>)
    ensures
        text is Some <==> valid_utf8(bytes@),
        text matches Some(s) ==> s@ == decode_utf8(bytes@),
{
    String::from_utf8(bytes).ok()
}

/// Interprets the private payload as UTF-8 text. The text is not parsed any
/// further; its encoding is the payload, byte for byte.
pub fn decode_private_input(bytes: Vec<u8>) -> (r: Result<String, AttestError>)
    ensures
        r is Ok <==> valid_utf8(bytes@),
        r matches Ok(text) ==> text@ == decode_utf8(bytes@) && encode_utf8(text@) == bytes@,
        r matches Err(e) ==> e == AttestError::MalformedInput,
{
    let ghost raw = bytes@;
    match string_from_utf8(bytes) {
        Some(text) => {
            proof {
                decode_utf8_encode_utf8(raw);
            }
            Ok(text)
        },
        None => Err(AttestError::MalformedInput),
    }
}

} // verus!
