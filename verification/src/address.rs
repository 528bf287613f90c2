//! Addresses of protocol-owned accounts, derived from a namespace and the
//! identities that own the record.

use anchor_lang::prelude::Pubkey;
use vstd::prelude::*;

use crate::constants::{ARBITER_SEED, CONFIG_SEED, ESCROW_SEED, FEE_COLLECTOR_SEED, REPUTATION_SEED};
use crate::identity::{lemma_identity_ext, Identity};

verus! {

/// The program-derived address and bump seed that Solana assigns to a list of
/// seeds under a program, or `None` where it assigns none: no bump seed
/// yields an address, the seeds with the bump seed are more than 16, or one
/// of them is longer than 32 bytes.
pub uninterp spec fn program_address(seeds: Seq<Seq<u8>>, program_id: Seq<u8>) -> Option<(Seq<u8>, u8)>;

/// A derived address and its bump seed, by their views.
pub open spec fn derived_view(found: Option<(Identity, u8)>) -> Option<(Seq<u8>, u8)> {
    match found {
        Some(pair) => Some((pair.0@, pair.1)),
        None => None,
    }
}

/// A list of seeds, each by its bytes.
pub open spec fn seeds_view(seeds: Seq<Vec<u8>>) -> Seq<Seq<u8>> {
    seeds.map_values(|seed: Vec<u8>| seed@)
}

/// The seeds of a record: its namespace, then each owner's bytes.
pub open spec fn record_seeds(namespace: Seq<u8>, owners: Seq<Identity>) -> Seq<Seq<u8>> {
    Seq::new(
        owners.len() + 1,
        |k: int|
            if k == 0 {
                namespace
            } else {
                owners[k - 1]@
            },
    )
}

/// Calls `Pubkey::try_find_program_address` of solana-program (reached through
/// anchor-lang's prelude). Trusted: the result is the derived address and bump
/// seed of exactly these seeds under this program id, a function of the
/// arguments alone, and `None` where the search finds no bump seed or the
/// seeds are too many or too long.
#[verifier::external_body]
fn try_find_program_address(seeds: &Vec<Vec<u8>>, program_id: &Identity) -> (found: Option<(Identity, u8)>)
    ensures
        derived_view(found) == program_address(seeds_view(seeds@), program_id@),
{
    let parts: Vec<&[u8]> = seeds.iter().map(|seed| seed.as_slice()).collect();
    let id = Pubkey::new_from_array(program_id.bytes);
    match Pubkey::try_find_program_address(&parts, &id) {
        Some((key, bump)) => Some((Identity { bytes: key.to_bytes() }, bump)),
        None => None,
    }
}

fn bytes_of(source: &[u8]) -> (copy: Vec<u8>)
    ensures
        copy@ == source@,
{
    let mut copy: Vec<u8> = Vec::new();
    let mut i: usize = 0;
    while i < source.len()
        invariant
            i <= source.len(),
            copy@ == source@.subrange(0, i as int),
        decreases source.len() - i,
    {
        copy.push(source[i]);
        assert(copy@ =~= source@.subrange(0, i + 1));
        i += 1;
    }
    assert(source@.subrange(0, source@.len() as int) =~= source@);
    copy
}

/// The address of the record that `namespace` holds for `owners`, with its
/// bump seed.
pub fn derive_address(namespace: &[u8], owners: &Vec<Identity>, program_id: &Identity) -> (found: Option<(Identity, u8)>)
    ensures
        derived_view(found) == program_address(record_seeds(namespace@, owners@), program_id@),
{
    let mut seeds: Vec<Vec<u8>> = Vec::new();
    seeds.push(bytes_of(namespace));
    assert(seeds_view(seeds@) =~= record_seeds(namespace@, owners@.subrange(0, 0)));
    let mut i: usize = 0;
    while i < owners.len()
        invariant
            i <= owners.len(),
            seeds@.len() == i + 1,
            seeds_view(seeds@) == record_seeds(namespace@, owners@.subrange(0, i as int)),
        decreases owners.len() - i,
    {
        let ghost before = seeds@;
        let seed = bytes_of(owners[i].bytes.as_slice());
        seeds.push(seed);
        assert forall|k: int| 0 <= k < seeds@.len() implies seeds_view(seeds@)[k] == record_seeds(
            namespace@,
            owners@.subrange(0, i + 1),
        )[k] by {
            if k <= i {
                assert(seeds_view(before)[k] == record_seeds(namespace@, owners@.subrange(0, i as int))[k]);
            }
        }
        assert(seeds_view(seeds@) =~= record_seeds(namespace@, owners@.subrange(0, i + 1)));
        i += 1;
    }
    assert(owners@.subrange(0, owners@.len() as int) =~= owners@);
    try_find_program_address(&seeds, program_id)
}

/// The address of the escrow between `buyer` and `seller`.
pub open spec fn spec_escrow_address(buyer: Identity, seller: Identity, program_id: Identity) -> Option<
    (Seq<u8>, u8),
> {
    program_address(record_seeds(ESCROW_SEED@, seq![buyer, seller]), program_id@)
}

/// The address of `user`'s reputation record.
pub open spec fn spec_reputation_address(user: Identity, program_id: Identity) -> Option<(Seq<u8>, u8)> {
    program_address(record_seeds(REPUTATION_SEED@, seq![user]), program_id@)
}

/// The address of the configuration record.
pub open spec fn spec_config_address(program_id: Identity) -> Option<(Seq<u8>, u8)> {
    program_address(record_seeds(CONFIG_SEED@, Seq::<Identity>::empty()), program_id@)
}

/// The address of the fee vault.
pub open spec fn spec_fee_collector_address(program_id: Identity) -> Option<(Seq<u8>, u8)> {
    program_address(record_seeds(FEE_COLLECTOR_SEED@, Seq::<Identity>::empty()), program_id@)
}

/// The address of `arbiter`'s registry record.
pub open spec fn spec_arbiter_address(arbiter: Identity, program_id: Identity) -> Option<(Seq<u8>, u8)> {
    program_address(record_seeds(ARBITER_SEED@, seq![arbiter]), program_id@)
}

/// Whether `key` is the address that was derived, where one was.
pub open spec fn spec_is_address(derived: Option<(Seq<u8>, u8)>, key: Identity) -> bool {
    derived matches Some(pair) && pair.0 == key@
}

/// Whether `key` is the address that was derived, where one was.
pub fn is_address(derived: &Option<(Identity, u8)>, key: &Identity) -> (r: bool)
    ensures
        r == spec_is_address(derived_view(*derived), *key),
{
    match derived {
        Some(pair) => {
            proof {
                lemma_identity_ext(pair.0, *key);
            }
            pair.0 == *key
        },
        None => false,
    }
}

pub fn escrow_address(buyer: &Identity, seller: &Identity, program_id: &Identity) -> (found: Option<
    (Identity, u8),
>)
    ensures
        derived_view(found) == spec_escrow_address(*buyer, *seller, *program_id),
{
    let mut owners: Vec<Identity> = Vec::new();
    owners.push(*buyer);
    owners.push(*seller);
    assert(owners@ =~= seq![*buyer, *seller]);
    let namespace = ESCROW_SEED;
    derive_address(namespace.as_slice(), &owners, program_id)
}

pub fn reputation_address(user: &Identity, program_id: &Identity) -> (found: Option<(Identity, u8)>)
    ensures
        derived_view(found) == spec_reputation_address(*user, *program_id),
{
    let mut owners: Vec<Identity> = Vec::new();
    owners.push(*user);
    assert(owners@ =~= seq![*user]);
    let namespace = REPUTATION_SEED;
    derive_address(namespace.as_slice(), &owners, program_id)
}

pub fn config_address(program_id: &Identity) -> (found: Option<(Identity, u8)>)
    ensures
        derived_view(found) == spec_config_address(*program_id),
{
    let owners: Vec<Identity> = Vec::new();
    assert(owners@ =~= Seq::<Identity>::empty());
    let namespace = CONFIG_SEED;
    derive_address(namespace.as_slice(), &owners, program_id)
}

pub fn fee_collector_address(program_id: &Identity) -> (found: Option<(Identity, u8)>)
    ensures
        derived_view(found) == spec_fee_collector_address(*program_id),
{
    let owners: Vec<Identity> = Vec::new();
    assert(owners@ =~= Seq::<Identity>::empty());
    let namespace = FEE_COLLECTOR_SEED;
    derive_address(namespace.as_slice(), &owners, program_id)
}

pub fn arbiter_address(arbiter: &Identity, program_id: &Identity) -> (found: Option<(Identity, u8)>)
    ensures
        derived_view(found) == spec_arbiter_address(*arbiter, *program_id),
{
    let mut owners: Vec<Identity> = Vec::new();
    owners.push(*arbiter);
    assert(owners@ =~= seq![*arbiter]);
    let namespace = ARBITER_SEED;
    derive_address(namespace.as_slice(), &owners, program_id)
}

} // verus!
