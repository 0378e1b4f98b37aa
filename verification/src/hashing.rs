use vstd::prelude::*;

verus! {

/// The little-endian bytes of a `u32`: its SCALE encoding.
pub open spec fn le_bytes_u32(x: u32) -> Seq<u8> {
    seq![
        (x % 0x100) as u8,
        ((x / 0x100) % 0x100) as u8,
        ((x / 0x1_0000) % 0x100) as u8,
        ((x / 0x100_0000) % 0x100) as u8,
    ]
}

/// The little-endian bytes of a `u64`: its SCALE encoding.
pub open spec fn le_bytes_u64(x: u64) -> Seq<u8> {
    seq![
        (x % 0x100) as u8,
        ((x / 0x100) % 0x100) as u8,
        ((x / 0x1_0000) % 0x100) as u8,
        ((x / 0x100_0000) % 0x100) as u8,
        ((x / 0x1_0000_0000) % 0x100) as u8,
        ((x / 0x100_0000_0000) % 0x100) as u8,
        ((x / 0x1_0000_0000_0000) % 0x100) as u8,
        ((x / 0x100_0000_0000_0000) % 0x100) as u8,
    ]
}

/// The SCALE encoding of an `Option<u32>`: a zero byte for `None`, a one byte
/// followed by the value for `Some`.
pub open spec fn option_u32_encoding(x: Option<u32>) -> Seq<u8> {
    match x {
        None => seq![0u8],
        Some(v) => seq![1u8] + le_bytes_u32(v),
    }
}

/// The SCALE encoding of the tuple `(random_seed, sender, extrinsic_index)`
/// from which a kitty's random DNA is hashed: the fields' encodings one
/// after the other, the 32-byte seed as its raw bytes.
pub open spec fn seed_payload(random_seed: Seq<u8>, sender: u64, extrinsic_index: Option<u32>) -> Seq<u8> {
    random_seed + le_bytes_u64(sender) + option_u32_encoding(extrinsic_index)
}

/// The 128-bit Blake2b digest of `data` (`sp_io::hashing::blake2_128`).
pub uninterp spec fn blake2_128_of(data: Seq<u8>) -> Seq<u8>;

/// Encodes `(random_seed, sender, extrinsic_index)` with
/// `parity_scale_codec::Encode::encode`.  Trusted: SCALE encodes a tuple as
/// its fields in order, a byte array as its bytes without a length prefix,
/// integers little-endian, and an `Option` as a 0 or 1 tag byte followed by
/// the value when present.
#[verifier::external_body]
pub(crate) fn encode_seed_payload(random_seed: [u8; 32], sender: u64, extrinsic_index: Option<u32>) -> (bytes: Vec<u8>)
    ensures
        bytes@ == seed_payload(random_seed@, sender, extrinsic_index),
{
    parity_scale_codec::Encode::encode(&(random_seed, sender, extrinsic_index))
}

/// Hashes `data` with `sp_io::hashing::blake2_128`.  Trusted: the digest is a
/// function of the bytes of `data` alone, named `blake2_128_of`.
#[verifier::external_body]
pub(crate) fn blake2_128(data: &[u8]) -> (digest: [u8; 16])
    ensures
        digest@ == blake2_128_of(data@),
{
    sp_io::hashing::blake2_128(data)
}


/// Different `u64` values have different little-endian bytes.
pub proof fn lemma_le_bytes_u64_injective(x: u64, y: u64)
    requires
        le_bytes_u64(x) == le_bytes_u64(y),
    ensures
        x == y,
{
    let a = le_bytes_u64(x);
    let b = le_bytes_u64(y);
    assert(a[0] == b[0] && a[1] == b[1] && a[2] == b[2] && a[3] == b[3]);
    assert(a[4] == b[4] && a[5] == b[5] && a[6] == b[6] && a[7] == b[7]);
    assert(x % 0x100 == y % 0x100);
    assert((x / 0x100) % 0x100 == (y / 0x100) % 0x100);
    assert((x / 0x1_0000) % 0x100 == (y / 0x1_0000) % 0x100);
    assert((x / 0x100_0000) % 0x100 == (y / 0x100_0000) % 0x100);
    assert((x / 0x1_0000_0000) % 0x100 == (y / 0x1_0000_0000) % 0x100);
    assert((x / 0x100_0000_0000) % 0x100 == (y / 0x100_0000_0000) % 0x100);
    assert((x / 0x1_0000_0000_0000) % 0x100 == (y / 0x1_0000_0000_0000) % 0x100);
    assert((x / 0x100_0000_0000_0000) % 0x100 == (y / 0x100_0000_0000_0000) % 0x100);
    assert(x == y) by (bit_vector)
        requires
            x % 0x100 == y % 0x100,
            (x / 0x100) % 0x100 == (y / 0x100) % 0x100,
            (x / 0x1_0000) % 0x100 == (y / 0x1_0000) % 0x100,
            (x / 0x100_0000) % 0x100 == (y / 0x100_0000) % 0x100,
            (x / 0x1_0000_0000) % 0x100 == (y / 0x1_0000_0000) % 0x100,
            (x / 0x100_0000_0000) % 0x100 == (y / 0x100_0000_0000) % 0x100,
            (x / 0x1_0000_0000_0000) % 0x100 == (y / 0x1_0000_0000_0000) % 0x100,
            (x / 0x100_0000_0000_0000) % 0x100 == (y / 0x100_0000_0000_0000) % 0x100,
    ;
}

/// Different `u32` values have different little-endian bytes.
pub proof fn lemma_le_bytes_u32_injective(x: u32, y: u32)
    requires
        le_bytes_u32(x) == le_bytes_u32(y),
    ensures
        x == y,
{
    let a = le_bytes_u32(x);
    let b = le_bytes_u32(y);
    assert(a[0] == b[0] && a[1] == b[1] && a[2] == b[2] && a[3] == b[3]);
    assert(x % 0x100 == y % 0x100);
    assert((x / 0x100) % 0x100 == (y / 0x100) % 0x100);
    assert((x / 0x1_0000) % 0x100 == (y / 0x1_0000) % 0x100);
    assert((x / 0x100_0000) % 0x100 == (y / 0x100_0000) % 0x100);
    assert(x == y) by (bit_vector)
        requires
            x % 0x100 == y % 0x100,
            (x / 0x100) % 0x100 == (y / 0x100) % 0x100,
            (x / 0x1_0000) % 0x100 == (y / 0x1_0000) % 0x100,
            (x / 0x100_0000) % 0x100 == (y / 0x100_0000) % 0x100,
    ;
}

/// The hashed payload determines the seed, the sender and the extrinsic
/// index: two draws that differ in any of them hash different bytes.
pub proof fn law_seed_payload_injective(
    seed1: Seq<u8>,
    sender1: u64,
    index1: Option<u32>,
    seed2: Seq<u8>,
    sender2: u64,
    index2: Option<u32>,
)
    requires
        seed1.len() == 32,
        seed2.len() == 32,
        seed_payload(seed1, sender1, index1) == seed_payload(seed2, sender2, index2),
    ensures
        seed1 == seed2,
        sender1 == sender2,
        index1 == index2,
{
    let p1 = seed_payload(seed1, sender1, index1);
    let p2 = seed_payload(seed2, sender2, index2);
    assert(p1.subrange(0, 32) =~= seed1);
    assert(p2.subrange(0, 32) =~= seed2);
    assert(p1.subrange(32, 40) =~= le_bytes_u64(sender1));
    assert(p2.subrange(32, 40) =~= le_bytes_u64(sender2));
    lemma_le_bytes_u64_injective(sender1, sender2);
    assert(p1.subrange(40, p1.len() as int) =~= option_u32_encoding(index1));
    assert(p2.subrange(40, p2.len() as int) =~= option_u32_encoding(index2));
    let e1 = option_u32_encoding(index1);
    let e2 = option_u32_encoding(index2);
    assert(e1 == e2);
    if let (Some(v1), Some(v2)) = (index1, index2) {
        assert(e1.subrange(1, 5) =~= le_bytes_u32(v1));
        assert(e2.subrange(1, 5) =~= le_bytes_u32(v2));
        lemma_le_bytes_u32_injective(v1, v2);
    } else {
        assert(e1[0] == e2[0]);
    }
}

} // verus!
