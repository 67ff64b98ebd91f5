use vstd::prelude::*;
use solana_program::pubkey::Pubkey;
use crate::codec::{le_bytes_u64, push_u64_le};

verus! {

/// The address that the program `program_id` derives from `seeds`, or `None`
/// where the seeds give no usable derived address (the hash lies on the
/// curve, or the seeds exceed the host's limits).
pub uninterp spec fn derived_address(seeds: Seq<Seq<u8>>, program_id: Seq<u8>) -> Option<Seq<u8>>;

pub open spec fn seeds_view(seeds: &Vec<Vec<u8>>) -> Seq<Seq<u8>> {
    seeds@.map_values(|s: Vec<u8>| s@)
}

/// The seed tuple followed by the one-byte bump seed.
pub open spec fn with_bump(seeds: Seq<Seq<u8>>, bump: u8) -> Seq<Seq<u8>> {
    seeds.push(seq![bump])
}

/// `bump` is the canonical bump of `seeds`: the highest one, from 255 down
/// to 1, that makes the seeds a derived address.
pub open spec fn is_canonical_bump(seeds: Seq<Seq<u8>>, program_id: Seq<u8>, bump: u8) -> bool {
    &&& 1 <= bump
    &&& derived_address(with_bump(seeds, bump), program_id) is Some
    &&& forall|b: u8|
        bump < b ==> (#[trigger] derived_address(with_bump(seeds, b), program_id)) is None
}

/// The outcome of a bump search: the canonical bump and its address, or no
/// bump at all where none from 1 to 255 gives an address.
pub open spec fn is_derivation(
    seeds: Seq<Seq<u8>>,
    program_id: Seq<u8>,
    r: Option<(Seq<u8>, u8)>,
) -> bool {
    match r {
        Some((address, bump)) => is_canonical_bump(seeds, program_id, bump) && derived_address(
            with_bump(seeds, bump),
            program_id,
        ) == Some(address),
        None => forall|b: u8|
            1 <= b ==> (#[trigger] derived_address(with_bump(seeds, b), program_id)) is None,
    }
}

pub open spec fn found_view(r: Option<([u8; 32], u8)>) -> Option<(Seq<u8>, u8)> {
    match r {
        Some((a, b)) => Some((a@, b)),
        None => None,
    }
}

/// Relies on `Pubkey::create_program_address`: it hashes the seeds and the
/// program id and returns that address, or an error where the hash lies on
/// the curve or the seeds exceed the limits; it depends on these bytes alone.
#[verifier::external_body]
fn create_program_address(seeds: &Vec<Vec<u8>>, program_id: &[u8; 32]) -> (r: Option<[u8; 32]>)
    ensures
        match r {
            Some(a) => derived_address(seeds_view(seeds), program_id@) == Some(a@),
            None => derived_address(seeds_view(seeds), program_id@) is None,
        },
{
    let refs: Vec<&[u8]> = seeds.iter().map(|s| s.as_slice()).collect();
    Pubkey::create_program_address(&refs, &Pubkey::new_from_array(*program_id)).ok().map(
        |k| k.to_bytes(),
    )
}

/// Relies on `Pubkey::try_find_program_address`: it appends the bumps 255,
/// 254, ..., 1 in turn and returns the first address that
/// `create_program_address` gives, with its bump. It stops early only on a
/// length error, which does not depend on the bump, so `None` means that no
/// bump from 1 to 255 gives an address.
#[verifier::external_body]
pub(crate) fn try_find_program_address(seeds: &Vec<Vec<u8>>, program_id: &[u8; 32]) -> (r: Option<
    ([u8; 32], u8),
>)
    ensures
        is_derivation(seeds_view(seeds), program_id@, found_view(r)),
{
    let refs: Vec<&[u8]> = seeds.iter().map(|s| s.as_slice()).collect();
    Pubkey::try_find_program_address(&refs, &Pubkey::new_from_array(*program_id)).map(
        |(k, b)| (k.to_bytes(), b),
    )
}

/// The bytes of the label "authority".
pub open spec fn authority_label() -> Seq<u8> {
    seq![0x61u8, 0x75, 0x74, 0x68, 0x6f, 0x72, 0x69, 0x74, 0x79]
}

/// The bytes of the label "vending_machine".
pub open spec fn vending_machine_label() -> Seq<u8> {
    seq![0x76u8, 0x65, 0x6e, 0x64, 0x69, 0x6e, 0x67, 0x5f, 0x6d, 0x61, 0x63, 0x68, 0x69, 0x6e, 0x65]
}

/// The seeds of an authorized buffer: the label, the authority, the buffer seed.
pub open spec fn authority_seeds(authority: Seq<u8>, buffer_seed: u64) -> Seq<Seq<u8>> {
    seq![authority_label(), authority, le_bytes_u64(buffer_seed)]
}

/// The seeds of a vending-machine buffer: the label, the mint, the price.
pub open spec fn vending_machine_seeds(mint: Seq<u8>, price: u64) -> Seq<Seq<u8>> {
    seq![vending_machine_label(), mint, le_bytes_u64(price)]
}

fn key_bytes(key: &[u8; 32]) -> (r: Vec<u8>)
    ensures
        r@ == key@,
{
    let mut out: Vec<u8> = Vec::new();
    let mut i: usize = 0;
    while i < 32
        invariant
            i <= 32,
            key@.len() == 32,
            out@ == key@.subrange(0, i as int),
        decreases 32 - i,
    {
        out.push(key[i]);
        i = i + 1;
        assert(out@ =~= key@.subrange(0, i as int));
    }
    assert(key@.subrange(0, 32) =~= key@);
    out
}

fn u64_seed(v: u64) -> (r: Vec<u8>)
    ensures
        r@ == le_bytes_u64(v),
{
    let mut out: Vec<u8> = Vec::new();
    push_u64_le(&mut out, v);
    assert(out@ =~= le_bytes_u64(v));
    out
}

/// Builds the seeds of the authorized buffer of `authority`.
pub fn make_authority_seeds(authority: &[u8; 32], buffer_seed: u64) -> (r: Vec<Vec<u8>>)
    ensures
        seeds_view(&r) == authority_seeds(authority@, buffer_seed),
{
    let label: Vec<u8> = vec![0x61u8, 0x75, 0x74, 0x68, 0x6f, 0x72, 0x69, 0x74, 0x79];
    let r: Vec<Vec<u8>> = vec![label, key_bytes(authority), u64_seed(buffer_seed)];
    assert(label@ =~= authority_label());
    assert(seeds_view(&r) =~= authority_seeds(authority@, buffer_seed));
    r
}

/// Builds the seeds of the vending-machine buffer of `mint` at `price`.
pub fn make_vending_machine_seeds(mint: &[u8; 32], price: u64) -> (r: Vec<Vec<u8>>)
    ensures
        seeds_view(&r) == vending_machine_seeds(mint@, price),
{
    let label: Vec<u8> = vec![
        0x76u8,
        0x65,
        0x6e,
        0x64,
        0x69,
        0x6e,
        0x67,
        0x5f,
        0x6d,
        0x61,
        0x63,
        0x68,
        0x69,
        0x6e,
        0x65,
    ];
    let r: Vec<Vec<u8>> = vec![label, key_bytes(mint), u64_seed(price)];
    assert(label@ =~= vending_machine_label());
    assert(seeds_view(&r) =~= vending_machine_seeds(mint@, price));
    r
}

/// Appends the bump seed to a seed tuple.
pub fn push_bump_seed(seeds: &mut Vec<Vec<u8>>, bump: u8)
    ensures
        seeds_view(final(seeds)) == with_bump(seeds_view(old(seeds)), bump),
{
    let b: Vec<u8> = vec![bump];
    seeds.push(b);
    assert(b@ =~= seq![bump]);
    assert(seeds_view(seeds) =~= with_bump(seeds_view(old(seeds)), bump));
}

/// Finds the canonical address and bump of the authorized buffer that
/// `authority` holds under `buffer_seed`.
pub fn find_authorized_buffer_address(
    program_id: &[u8; 32],
    authority: &[u8; 32],
    buffer_seed: u64,
) -> (r: Option<([u8; 32], u8)>)
    ensures
        is_derivation(authority_seeds(authority@, buffer_seed), program_id@, found_view(r)),
{
    let seeds = make_authority_seeds(authority, buffer_seed);
    try_find_program_address(&seeds, program_id)
}

/// Finds the canonical address and bump of the vending-machine buffer of
/// `mint` at `price`.
pub fn find_vending_machine_address(program_id: &[u8; 32], mint: &[u8; 32], price: u64) -> (r:
    Option<([u8; 32], u8)>)
    ensures
        is_derivation(vending_machine_seeds(mint@, price), program_id@, found_view(r)),
{
    let seeds = make_vending_machine_seeds(mint, price);
    try_find_program_address(&seeds, program_id)
}

/// Recomputes an authorized buffer's address from its authority and the
/// buffer seed and bump that its header holds.
pub fn authorized_buffer_address(
    program_id: &[u8; 32],
    authority: &[u8; 32],
    buffer_seed: u64,
    bump: u8,
) -> (r: Option<[u8; 32]>)
    ensures
        match r {
            Some(a) => derived_address(
                with_bump(authority_seeds(authority@, buffer_seed), bump),
                program_id@,
            ) == Some(a@),
            None => derived_address(
                with_bump(authority_seeds(authority@, buffer_seed), bump),
                program_id@,
            ) is None,
        },
{
    let mut seeds = make_authority_seeds(authority, buffer_seed);
    push_bump_seed(&mut seeds, bump);
    create_program_address(&seeds, program_id)
}

/// Whether two addresses are the same bytes.
pub fn same_address(a: &[u8; 32], b: &[u8; 32]) -> (r: bool)
    ensures
        r == (a@ == b@),
{
    let mut i: usize = 0;
    while i < 32
        invariant
            i <= 32,
            a@.len() == 32,
            b@.len() == 32,
            a@.subrange(0, i as int) == b@.subrange(0, i as int),
        decreases 32 - i,
    {
        if a[i] != b[i] {
            assert(a@[i as int] != b@[i as int]);
            return false;
        }
        i = i + 1;
        assert(a@.subrange(0, i as int) =~= b@.subrange(0, i as int)) by {
            assert(a@.subrange(0, i - 1) == b@.subrange(0, i - 1));
            assert forall|k: int| 0 <= k < i implies a@[k] == b@[k] by {
                if k < i - 1 {
                    assert(a@.subrange(0, i - 1)[k] == b@.subrange(0, i - 1)[k]);
                }
            }
        }
    }
    assert(a@ =~= a@.subrange(0, 32));
    assert(b@ =~= b@.subrange(0, 32));
    true
}

/// Derivation is a function of the seeds and the program id: any two
/// outcomes of a bump search on the same inputs are the same address and bump.
pub proof fn lemma_derivation_deterministic(
    seeds: Seq<Seq<u8>>,
    program_id: Seq<u8>,
    r1: Option<(Seq<u8>, u8)>,
    r2: Option<(Seq<u8>, u8)>,
)
    requires
        is_derivation(seeds, program_id, r1),
        is_derivation(seeds, program_id, r2),
    ensures
        r1 == r2,
{
    match (r1, r2) {
        (Some((a1, b1)), Some((a2, b2))) => {
            if b1 < b2 {
                assert(derived_address(with_bump(seeds, b2), program_id) is None);
            } else if b2 < b1 {
                assert(derived_address(with_bump(seeds, b1), program_id) is None);
            }
        },
        (Some((a1, b1)), None) => {
            assert(derived_address(with_bump(seeds, b1), program_id) is None);
        },
        (None, Some((a2, b2))) => {
            assert(derived_address(with_bump(seeds, b2), program_id) is None);
        },
        (None, None) => {},
    }
}

/// The authorized-buffer and vending-machine domains never hand the hash the
/// same seeds: whatever the keys, values and bumps, the seed tuples differ,
/// and so do the lengths of their concatenated bytes (50 and 56).
pub proof fn lemma_domains_separated(
    authority: Seq<u8>,
    buffer_seed: u64,
    mint: Seq<u8>,
    price: u64,
    bump_a: u8,
    bump_v: u8,
)
    requires
        authority.len() == 32,
        mint.len() == 32,
    ensures
        with_bump(authority_seeds(authority, buffer_seed), bump_a) != with_bump(
            vending_machine_seeds(mint, price),
            bump_v,
        ),
        with_bump(authority_seeds(authority, buffer_seed), bump_a).flatten().len() == 50,
        with_bump(vending_machine_seeds(mint, price), bump_v).flatten().len() == 56,
{
    let sa = with_bump(authority_seeds(authority, buffer_seed), bump_a);
    let sv = with_bump(vending_machine_seeds(mint, price), bump_v);
    assert(sa[0].len() != sv[0].len());
    reveal_with_fuel(Seq::<_>::flatten, 5);
    assert(sa.drop_first().drop_first().drop_first().drop_first() =~= Seq::<Seq<u8>>::empty());
    assert(sv.drop_first().drop_first().drop_first().drop_first() =~= Seq::<Seq<u8>>::empty());
}

} // verus!
