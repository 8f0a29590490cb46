//! Genomes: deriving one from entropy and mixing two of them.
use parity_scale_codec::Encode;
use vstd::prelude::*;

verus! {

/// The eight little-endian bytes of `x`.
pub open spec fn le_bytes_u64(x: u64) -> Seq<u8> {
    Seq::new(8, |i: int| ((x >> ((8 * i) as u64)) & 0xff) as u8)
}

/// The four little-endian bytes of `x`.
pub open spec fn le_bytes_u32(x: u32) -> Seq<u8> {
    Seq::new(4, |i: int| ((x >> ((8 * i) as u32)) & 0xff) as u8)
}

/// The SCALE encoding of the tuple `(seed, who, index)`: the seed's bytes as
/// they are, the account little-endian, then a tag byte for the optional index
/// followed by its little-endian bytes when present.
pub open spec fn entropy_payload(seed: Seq<u8>, who: u64, index: Option<u32>) -> Seq<u8> {
    seed + le_bytes_u64(who) + match index {
        None => seq![0u8],
        Some(n) => seq![1u8] + le_bytes_u32(n),
    }
}

/// The 128-bit BLAKE2b digest of `data`.
pub uninterp spec fn blake2_128_of(data: Seq<u8>) -> Seq<u8>;

/// Relies on parity_scale_codec's `Encode` for a tuple: the fields' encodings
/// one after the other, a byte array as its bytes, integers little-endian and
/// an `Option` as a tag byte 0 or 1 followed by the value.
#[verifier::external_body]
fn encode_entropy(seed: &[u8; 32], who: u64, index: Option<u32>) -> (r: Vec<u8>)
    ensures
        r@ == entropy_payload(seed@, who, index),
{
    (*seed, who, index).encode()
}

/// Relies on sp_core_hashing::blake2_128: the 16-byte BLAKE2b digest of the input.
#[verifier::external_body]
fn blake2_128(data: &[u8]) -> (r: [u8; 16])
    ensures
        r@ == blake2_128_of(data@),
{
    sp_core_hashing::blake2_128(data)
}

/// The pseudo-random 16 bytes drawn for `who` from the host's entropy seed and
/// the position of the current command in its batch.
pub open spec fn random_bytes(seed: Seq<u8>, who: u64, index: Option<u32>) -> Seq<u8> {
    blake2_128_of(entropy_payload(seed, who, index))
}

/// Hashes the encoded `(seed, who, index)` down to 16 bytes.
pub fn random_value(seed: &[u8; 32], who: u64, index: Option<u32>) -> (r: [u8; 16])
    ensures
        r@ == random_bytes(seed@, who, index),
{
    let payload = encode_entropy(seed, who, index);
    blake2_128(payload.as_slice())
}

/// One byte of a child genome: the bits set in `selector` come from `a`, the
/// others from `b`.
pub open spec fn mix_byte(selector: u8, a: u8, b: u8) -> u8 {
    (selector & a) | (!selector & b)
}

/// The child genome of `a` and `b` under `selector`, byte by byte.
pub open spec fn mixed(selector: Seq<u8>, a: Seq<u8>, b: Seq<u8>) -> Seq<u8> {
    Seq::new(16, |i: int| mix_byte(selector[i], a[i], b[i]))
}

/// Combines two genomes bit by bit, taking each bit from `dna_1` where the
/// selector's bit is set and from `dna_2` where it is clear.
pub fn mix_dna(selector: &[u8; 16], dna_1: &[u8; 16], dna_2: &[u8; 16]) -> (r: [u8; 16])
    ensures
        r@ == mixed(selector@, dna_1@, dna_2@),
        forall|i: int| 0 <= i < 16 ==> #[trigger] r@[i] == (selector@[i] & dna_1@[i]) | (!selector@[i]
            & dna_2@[i]),
{
    let mut new_dna: [u8; 16] = [0u8; 16];
    let mut i: usize = 0;
    while i < 16
        invariant
            0 <= i <= 16,
            new_dna@.len() == 16,
            forall|j: int| 0 <= j < i ==> #[trigger] new_dna@[j] == mix_byte(selector@[j], dna_1@[j], dna_2@[j]),
        decreases 16 - i,
    {
        new_dna[i] = (selector[i] & dna_1[i]) | (!selector[i] & dna_2[i]);
        i = i + 1;
    }
    assert(new_dna@ =~= mixed(selector@, dna_1@, dna_2@));
    new_dna
}

} // verus!
