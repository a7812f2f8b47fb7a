//! The program's derived account addresses and the `seeds` constraints on them.
use vstd::prelude::*;
use vstd::slice::slice_to_vec;
use vstd::string::StringSliceAdditionalSpecFns;
use crate::constants::{AUCTION_SEED, GLOBAL_STATE_SEED, RAFFLE_SEED, REWARD_VAULT_SEED};
use crate::error::{ConstraintViolation, Error};
use crate::external::{program_address, try_find_program_address};
use crate::pubkey::Pubkey;

verus! {

/// The little-endian bytes of `n`, as `u32::to_le_bytes` lays them out.
pub open spec fn le_bytes(n: u32) -> Seq<u8> {
    seq![
        (n % 256) as u8,
        ((n / 256) % 256) as u8,
        ((n / 65536) % 256) as u8,
        (n / 16777216) as u8,
    ]
}

fn le_bytes_vec(n: u32) -> (r: Vec<u8>)
    ensures
        r@ == le_bytes(n),
{
    let mut v: Vec<u8> = Vec::new();
    v.push((n % 256) as u8);
    v.push(((n / 256) % 256) as u8);
    v.push(((n / 65536) % 256) as u8);
    v.push((n / 16777216) as u8);
    assert(v@ =~= le_bytes(n));
    v
}

/// Seeds of the global state address.
pub open spec fn global_state_seeds() -> Seq<Seq<u8>> {
    seq![GLOBAL_STATE_SEED.spec_bytes()]
}

/// Seeds of the address of raffle `raffle_id`.
pub open spec fn raffle_seeds(raffle_id: u32) -> Seq<Seq<u8>> {
    seq![RAFFLE_SEED.spec_bytes(), le_bytes(raffle_id)]
}

/// Seeds of the address of auction `auction_id`.
pub open spec fn auction_seeds(auction_id: u32) -> Seq<Seq<u8>> {
    seq![AUCTION_SEED.spec_bytes(), le_bytes(auction_id)]
}

/// Seeds of the address of the vault for reward mint `mint`.
pub open spec fn reward_vault_seeds(mint: Pubkey) -> Seq<Seq<u8>> {
    seq![REWARD_VAULT_SEED.spec_bytes(), mint.bytes@]
}

pub open spec fn seeds_view(seeds: Seq<Vec<u8>>) -> Seq<Seq<u8>> {
    seeds.map_values(|s: Vec<u8>| s@)
}

fn seeds_of(first: Vec<u8>, second: Option<Vec<u8>>) -> (r: Vec<Vec<u8>>)
    ensures
        seeds_view(r@) == match second {
            Some(s) => seq![first@, s@],
            None => seq![first@],
        },
{
    let mut seeds: Vec<Vec<u8>> = Vec::new();
    let ghost f = first@;
    seeds.push(first);
    match second {
        Some(s) => {
            let ghost sv = s@;
            seeds.push(s);
            assert(seeds_view(seeds@) =~= seq![f, sv]);
        },
        None => {
            assert(seeds_view(seeds@) =~= seq![f]);
        },
    }
    seeds
}

fn global_state_seed_vec() -> (r: Vec<Vec<u8>>)
    ensures
        seeds_view(r@) == global_state_seeds(),
{
    seeds_of(slice_to_vec(GLOBAL_STATE_SEED.as_bytes()), None)
}

fn raffle_seed_vec(raffle_id: u32) -> (r: Vec<Vec<u8>>)
    ensures
        seeds_view(r@) == raffle_seeds(raffle_id),
{
    seeds_of(slice_to_vec(RAFFLE_SEED.as_bytes()), Some(le_bytes_vec(raffle_id)))
}

fn auction_seed_vec(auction_id: u32) -> (r: Vec<Vec<u8>>)
    ensures
        seeds_view(r@) == auction_seeds(auction_id),
{
    seeds_of(slice_to_vec(AUCTION_SEED.as_bytes()), Some(le_bytes_vec(auction_id)))
}

fn reward_vault_seed_vec(mint: &Pubkey) -> (r: Vec<Vec<u8>>)
    ensures
        seeds_view(r@) == reward_vault_seeds(*mint),
{
    seeds_of(slice_to_vec(REWARD_VAULT_SEED.as_bytes()), Some(slice_to_vec(mint.bytes.as_slice())))
}

/// The bump seed with which the program signs for its global state address.
pub open spec fn global_state_bump(program_id: Pubkey) -> Option<u8> {
    match program_address(global_state_seeds(), program_id) {
        Some((_, bump)) => Some(bump),
        None => None,
    }
}

/// Derives the global state address for `program_id` and returns its bump seed,
/// or `None` where no bump gives an address.
pub fn find_global_state_bump(program_id: &Pubkey) -> (r: Option<u8>)
    ensures
        r == global_state_bump(*program_id),
{
    let seeds = global_state_seed_vec();
    match try_find_program_address(&seeds, program_id) {
        Some((_, bump)) => Some(bump),
        None => None,
    }
}

/// The `seeds` constraint: `key` must be the address derived from `seeds`;
/// `None` where no address can be derived from them.
pub open spec fn spec_seeds_constraint(key: Pubkey, seeds: Seq<Seq<u8>>, program_id: Pubkey) -> Option<Result<(), Error>> {
    match program_address(seeds, program_id) {
        None => None,
        Some((address, _)) => Some(
            if key == address { Ok(()) } else { Err(Error::Constraint(ConstraintViolation::Seeds)) },
        ),
    }
}

fn seeds_constraint(key: &Pubkey, seeds: &Vec<Vec<u8>>, program_id: &Pubkey) -> (r: Option<Result<(), Error>>)
    ensures
        r == spec_seeds_constraint(*key, seeds_view(seeds@), *program_id),
{
    match try_find_program_address(seeds, program_id) {
        None => None,
        Some((address, _)) => Some(
            if key.key_eq(&address) { Ok(()) } else { Err(Error::Constraint(ConstraintViolation::Seeds)) },
        ),
    }
}

/// Checks that `key` is the global state address.
pub fn global_state_constraint(key: &Pubkey, program_id: &Pubkey) -> (r: Option<Result<(), Error>>)
    ensures
        r == spec_seeds_constraint(*key, global_state_seeds(), *program_id),
{
    seeds_constraint(key, &global_state_seed_vec(), program_id)
}

/// Checks that `key` is the address of raffle `raffle_id`.
pub fn raffle_constraint(key: &Pubkey, raffle_id: u32, program_id: &Pubkey) -> (r: Option<Result<(), Error>>)
    ensures
        r == spec_seeds_constraint(*key, raffle_seeds(raffle_id), *program_id),
{
    seeds_constraint(key, &raffle_seed_vec(raffle_id), program_id)
}

/// Checks that `key` is the address of auction `auction_id`.
pub fn auction_constraint(key: &Pubkey, auction_id: u32, program_id: &Pubkey) -> (r: Option<Result<(), Error>>)
    ensures
        r == spec_seeds_constraint(*key, auction_seeds(auction_id), *program_id),
{
    seeds_constraint(key, &auction_seed_vec(auction_id), program_id)
}

/// Checks that `key` is the address of the vault for reward mint `mint`.
pub fn reward_vault_constraint(key: &Pubkey, mint: &Pubkey, program_id: &Pubkey) -> (r: Option<Result<(), Error>>)
    ensures
        r == spec_seeds_constraint(*key, reward_vault_seeds(*mint), *program_id),
{
    seeds_constraint(key, &reward_vault_seed_vec(mint), program_id)
}

} // verus!
