use vstd::prelude::*;
use vstd::string::StringSliceAdditionalSpecFns;
use vstd::utf8::encode_utf8;
use risc0_zkvm::sha::Sha256;

verus! {

/// The number of bytes of a digest.
pub const DIGEST_LEN: usize = 32;

/// The SHA-256 digest of a message.
pub uninterp spec fn sha256(message: Seq<u8>) -> Seq<u8>;

/// `hash_bytes` of risc0_zkvm's SHA-256 implementation, with the digest
/// copied out as bytes. The digest depends on the message alone and is
/// eight 32-bit words, that is 32 bytes, long.
#[verifier::external_body]
fn sha256_of_bytes(message: &[u8]) -> (digest: Vec<u8>)
    ensures
        digest@ == sha256(message@),
        digest@.len() == 32,
{
    risc0_zkvm::sha::Impl::hash_bytes(message).as_bytes().to_vec()
}

/// `hex::encode`: two lowercase hexadecimal digits for each byte, the high
/// half first, in the order of the bytes.
#[verifier::external_body]
fn hex_encode(bytes: &[u8]) -> (text: String)
    ensures
        text@ == hex_lower(bytes@),
{
    hex::encode(bytes)
}

/// The lowercase hexadecimal digit of a value below sixteen.
pub open spec fn hex_digit(nibble: int) -> char
    recommends
        0 <= nibble < 16,
{
    seq!['0', '1', '2', '3', '4', '5', '6', '7', '8', '9', 'a', 'b', 'c', 'd', 'e', 'f'][nibble]
}

/// The bytes written as lowercase hexadecimal, two digits each.
pub open spec fn hex_lower(bytes: Seq<u8>) -> Seq<char>
    decreases bytes.len(),
{
    if bytes.len() == 0 {
        Seq::<char>::empty()
    } else {
        hex_lower(bytes.drop_last()) + seq![
            hex_digit(bytes.last() as int / 16),
            hex_digit(bytes.last() as int % 16),
        ]
    }
}

/// The digest that binds the private payload: the hash of the bytes of its
/// UTF-8 encoding.
pub fn commitment_digest(private_input: &str) -> (digest: Vec<u8>)
    ensures
        digest@ == sha256(encode_utf8(private_input@)),
        digest@.len() == DIGEST_LEN,
{
    sha256_of_bytes(private_input.as_bytes())
}

/// Hexadecimal text is twice as long as the bytes it renders.
pub proof fn lemma_hex_lower_len(bytes: Seq<u8>)
    ensures
        hex_lower(bytes).len() == 2 * bytes.len(),
    decreases bytes.len(),
{
    if bytes.len() > 0 {
        lemma_hex_lower_len(bytes.drop_last());
    }
}

/// The digest as it appears in the summary: lowercase hexadecimal, two
/// characters for each byte.
pub fn digest_to_hex(digest: &[u8]) -> (text: String)
    ensures
        text@ == hex_lower(digest@),
        text@.len() == 2 * digest@.len(),
{
    proof {
        lemma_hex_lower_len(digest@);
    }
    hex_encode(digest)
}

} // verus!
