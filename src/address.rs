//! Program-derived addresses of a pool's tick arrays and bitmap extension.
use vstd::prelude::*;
use crate::types::Address;

verus! {
/// The address that the program derives from `seeds`.
pub uninterp spec fn program_address_of(seeds: Seq<Seq<u8>>, program: Seq<u8>) -> Seq<u8>;

/// Relies on solana_sdk's `Pubkey::find_program_address`: the program-derived
/// address for the seeds, a function of the seeds and the program alone. It
/// panics where there are 16 seeds or more or a seed is longer than 32 bytes,
/// and, with negligible probability, where no bump seed gives a valid address.
#[verifier::external_body]
pub(crate) fn find_program_address(seeds: &Vec<Vec<u8>>, program_id: &Address) -> (r: Address)
    requires
        seeds@.len() < 16,
        forall|i: int| 0 <= i < seeds@.len() ==> seeds@[i]@.len() <= 32,
    ensures
        r.bytes@ == program_address_of(seeds.deep_view(), program_id.bytes@),
{
    let s: Vec<&[u8]> = seeds.iter().map(|v| v.as_slice()).collect();
    let p = solana_sdk::pubkey::Pubkey::new_from_array(program_id.bytes);
    Address { bytes: solana_sdk::pubkey::Pubkey::find_program_address(&s, &p).0.to_bytes() }
}

/// The bytes of the seed "tick_array".
pub open spec fn tick_array_seed() -> Seq<u8> {
    seq![116u8, 105, 99, 107, 95, 97, 114, 114, 97, 121]
}

/// The bytes of the seed "pool_tick_array_bitmap_extension".
pub open spec fn bitmap_extension_seed() -> Seq<u8> {
    seq![112u8, 111, 111, 108, 95, 116, 105, 99, 107, 95, 97, 114, 114, 97, 121, 95,
        98, 105, 116, 109, 97, 112, 95, 101, 120, 116, 101, 110, 115, 105, 111, 110]
}

/// Big-endian bytes of a signed 32-bit integer.
pub open spec fn be_bytes(x: i32) -> Seq<u8> {
    let u = x as u32;
    seq![(u >> 24u32) as u8, (u >> 16u32) as u8, (u >> 8u32) as u8, u as u8]
}

/// Address of the tick array of `pool` that starts at `start`.
pub open spec fn tick_array_address(pool: Address, start: i32, program: Address) -> Seq<u8> {
    program_address_of(seq![tick_array_seed(), pool.bytes@, be_bytes(start)], program.bytes@)
}

/// Address of the bitmap extension account of `pool`.
pub open spec fn bitmap_extension_address(pool: Address, program: Address) -> Seq<u8> {
    program_address_of(seq![bitmap_extension_seed(), pool.bytes@], program.bytes@)
}

/// `keys` are the addresses of the tick arrays that start at `starts`.
pub open spec fn keys_match(keys: Seq<Address>, starts: Seq<i32>, pool: Address, program: Address) -> bool {
    &&& keys.len() == starts.len()
    &&& forall|i: int| 0 <= i < keys.len() ==> (#[trigger] keys[i]).bytes@ == tick_array_address(pool, starts[i], program)
}

pub(crate) fn tick_array_seed_bytes() -> (r: Vec<u8>)
    ensures
        r@ == tick_array_seed(),
{
    let r = vec![116u8, 105, 99, 107, 95, 97, 114, 114, 97, 121];
    assert(r@ =~= tick_array_seed());
    r
}

pub(crate) fn bitmap_extension_seed_bytes() -> (r: Vec<u8>)
    ensures
        r@ == bitmap_extension_seed(),
{
    let r = vec![112u8, 111, 111, 108, 95, 116, 105, 99, 107, 95, 97, 114, 114, 97, 121, 95,
        98, 105, 116, 109, 97, 112, 95, 101, 120, 116, 101, 110, 115, 105, 111, 110];
    assert(r@ =~= bitmap_extension_seed());
    r
}

pub(crate) fn be_bytes_of(x: i32) -> (r: Vec<u8>)
    ensures
        r@ == be_bytes(x),
{
    let u = x as u32;
    let r = vec![(u >> 24u32) as u8, (u >> 16u32) as u8, (u >> 8u32) as u8, u as u8];
    assert(r@ =~= be_bytes(x));
    r
}

pub(crate) fn address_bytes(a: &Address) -> (r: Vec<u8>)
    ensures
        r@ == a.bytes@,
{
    let mut r: Vec<u8> = Vec::new();
    let mut i: usize = 0;
    while i < 32
        invariant
            i <= 32,
            r@ == a.bytes@.subrange(0, i as int),
        decreases 32 - i,
    {
        r.push(a.bytes[i]);
        i = i + 1;
        assert(r@ =~= a.bytes@.subrange(0, i as int));
    }
    assert(a.bytes@.subrange(0, 32) =~= a.bytes@);
    r
}

pub(crate) fn tick_array_key(pool_key: &Address, start: i32, program_id: &Address) -> (r: Address)
    ensures
        r.bytes@ == tick_array_address(*pool_key, start, *program_id),
{
    let a = tick_array_seed_bytes();
    let b = address_bytes(pool_key);
    let c = be_bytes_of(start);
    let ghost (av, bv, cv) = (a@, b@, c@);
    let seeds: Vec<Vec<u8>> = vec![a, b, c];
    assert(seeds.deep_view() =~~= seq![av, bv, cv]);
    find_program_address(&seeds, program_id)
}

pub(crate) fn bitmap_extension_key_of(pool_key: &Address, program_id: &Address) -> (r: Address)
    ensures
        r.bytes@ == bitmap_extension_address(*pool_key, *program_id),
{
    let a = bitmap_extension_seed_bytes();
    let b = address_bytes(pool_key);
    let ghost (av, bv) = (a@, b@);
    let seeds: Vec<Vec<u8>> = vec![a, b];
    assert(seeds.deep_view() =~~= seq![av, bv]);
    find_program_address(&seeds, program_id)
}

pub(crate) fn tick_array_keys(pool_key: &Address, starts: &Vec<i32>, program_id: &Address) -> (r: Vec<Address>)
    ensures
        keys_match(r@, starts@, *pool_key, *program_id),
{
    let mut r: Vec<Address> = Vec::new();
    let mut i: usize = 0;
    while i < starts.len()
        invariant
            i <= starts@.len(),
            r@.len() == i,
            forall|j: int| 0 <= j < i ==> (#[trigger] r@[j]).bytes@ == tick_array_address(*pool_key, starts@[j], *program_id),
        decreases starts@.len() - i,
    {
        r.push(tick_array_key(pool_key, starts[i], program_id));
        i = i + 1;
    }
    r
}

} // verus!
