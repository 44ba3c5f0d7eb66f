use vstd::prelude::*;
use vstd::bytes::{spec_u64_from_le_bytes, spec_u64_to_le_bytes, u64_from_le_bytes, u64_to_le_bytes};

verus! {

/// The SHA-256 digest of a byte string.
pub uninterp spec fn sha256_of(data: Seq<u8>) -> Seq<u8>;

/// Relies on `solana_program::hash::hash`: the SHA-256 digest of `data`.
#[verifier::external_body]
fn sha256(data: &Vec<u8>) -> (r: [u8; 32])
    ensures
        r@ == sha256_of(data@),
{
    anchor_lang::solana_program::hash::hash(data.as_slice()).to_bytes()
}

/// A timestamp as the eight bytes of its two's complement form, most
/// significant byte first.
pub open spec fn timestamp_bytes(unix_timestamp: i64) -> Seq<u8> {
    spec_u64_to_le_bytes(unix_timestamp as u64).reverse()
}

/// The entropy drawn from a timestamp: the first eight bytes of the
/// timestamp's digest, read least significant byte first.
pub open spec fn seed_of_timestamp(unix_timestamp: i64) -> u64 {
    spec_u64_from_le_bytes(sha256_of(timestamp_bytes(unix_timestamp)).take(8))
}

/// The ticket drawn from entropy `seed` at `slot` among `ticket_count`
/// tickets: the product of seed and slot, reduced modulo 2^32, then mapped
/// onto the ticket ids `1..=ticket_count`.
pub open spec fn winning_ticket(seed: u64, slot: u64, ticket_count: u32) -> u32 {
    ((seed as int * slot as int) % 0x1_0000_0000 % ticket_count as int + 1) as u32
}

/// Hashes the timestamp and reads the entropy out of the digest.
pub fn timestamp_seed(unix_timestamp: i64) -> (r: u64)
    ensures
        r == seed_of_timestamp(unix_timestamp),
{
    let le = u64_to_le_bytes(unix_timestamp as u64);
    let mut be: Vec<u8> = Vec::new();
    let mut i: usize = 8;
    while i > 0
        invariant
            i <= 8,
            le@.len() == 8,
            be@ =~= le@.subrange(i as int, 8).reverse(),
        decreases i,
    {
        i = i - 1;
        be.push(le[i]);
        assert(be@ =~= le@.subrange(i as int, 8).reverse());
    }
    assert(be@ =~= timestamp_bytes(unix_timestamp));
    let digest = sha256(&be);
    let mut head: Vec<u8> = Vec::new();
    let mut k: usize = 0;
    while k < 8
        invariant
            k <= 8,
            digest@.len() == 32,
            head@ =~= digest@.take(k as int),
        decreases 8 - k,
    {
        head.push(digest[k]);
        k = k + 1;
        assert(head@ =~= digest@.take(k as int));
    }
    u64_from_le_bytes(head.as_slice())
}

/// The ticket drawn from entropy `seed` at `slot` among `ticket_count`
/// tickets.
pub fn winning_ticket_for(seed: u64, slot: u64, ticket_count: u32) -> (r: u32)
    requires
        ticket_count > 0,
    ensures
        r == winning_ticket(seed, slot, ticket_count),
        1 <= r <= ticket_count,
{
    let a = seed % 0x1_0000_0000;
    let b = slot % 0x1_0000_0000;
    assert(a * b < 0x1_0000_0000 * 0x1_0000_0000) by (nonlinear_arith)
        requires
            a < 0x1_0000_0000,
            b < 0x1_0000_0000,
    ;
    let v = (a * b) % 0x1_0000_0000;
    proof {
        vstd::arithmetic::div_mod::lemma_mul_mod_noop(seed as int, slot as int, 0x1_0000_0000);
    }
    (v as u32) % ticket_count + 1
}

} // verus!
