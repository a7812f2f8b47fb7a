//! The calls that the rules make into the Solana and SPL crates.
use vstd::prelude::*;
use anchor_lang::solana_program::program_error::ProgramError;
use anchor_lang::solana_program::sysvar::Sysvar;
use crate::pubkey::Pubkey;

verus! {

#[verifier::external_type_specification]
#[verifier::external_body]
pub struct ExProgramError(ProgramError);

/// The address and bump seed that `Pubkey::try_find_program_address` derives from
/// `seeds` for `program_id`: a hash of the seeds, the program id and a bump,
/// searched from bump 255 downwards for a value off the ed25519 curve; `None`
/// where no bump gives one, or where the seeds are too many or too long.
pub uninterp spec fn program_address(seeds: Seq<Seq<u8>>, program_id: Pubkey) -> Option<(Pubkey, u8)>;

/// Calls `Pubkey::try_find_program_address` (solana-program). The contract claims
/// only that the result is the derivation above, a function of the seeds and the
/// program id alone; `find_program_address` is this call with a panic on `None`.
#[verifier::external_body]
pub(crate) fn try_find_program_address(seeds: &Vec<Vec<u8>>, program_id: &Pubkey) -> (r: Option<(Pubkey, u8)>)
    ensures
        r == program_address(seeds@.map_values(|s: Vec<u8>| s@), *program_id),
{
    let seeds: Vec<&[u8]> = seeds.iter().map(|s| s.as_slice()).collect();
    let program_id = anchor_lang::prelude::Pubkey::new_from_array(program_id.bytes);
    match anchor_lang::prelude::Pubkey::try_find_program_address(&seeds, &program_id) {
        Some((key, bump)) => Some((Pubkey { bytes: key.to_bytes() }, bump)),
        None => None,
    }
}

/// Calls `Clock::get()` (solana-program) and picks the clock's `unix_timestamp`.
/// Nothing is claimed of the result: it is the cluster's time where the runtime
/// provides the clock sysvar, and an error where it does not.
#[verifier::external_body]
pub(crate) fn clock_unix_timestamp() -> (r: Result<i64, ProgramError>)
{
    anchor_lang::solana_program::clock::Clock::get().map(|clock| clock.unix_timestamp)
}

/// The length of data that always holds an aligned price record: the
/// record's size in pyth-client's `Price` layout, plus the 7 bytes that an
/// 8-byte alignment can skip.
pub const PYTH_PRICE_DATA_MIN: usize = 3319;

/// Calls `pyth_client::cast::<pyth_client::Price>` on `data` and picks the
/// aggregate price, `agg.price`. The cast reads the first record that starts
/// at an 8-byte aligned address inside `data`, so which bytes it reads depends
/// on where `data` lies in memory: nothing is claimed of the result. It
/// indexes the aligned part that `align_to` splits off, and panics where that
/// part holds no record; the requirement keeps at least one record after the
/// at most 7 bytes that alignment skips. (`align_to`'s documentation lets it
/// split off less; its implementation splits off the longest aligned part.)
#[verifier::external_body]
pub(crate) fn pyth_aggregate_price(data: &[u8]) -> (r: i64)
    requires
        data@.len() >= PYTH_PRICE_DATA_MIN,
{
    pyth_client::cast::<pyth_client::Price>(data).agg.price
}

/// The address of the SPL token program, `TokenkegQfeZyiNwAJbNbGKPFXCWuBvf9Ss623VQ5DA`.
pub open spec fn spec_token_program_id() -> Seq<u8> {
    seq![6u8, 221, 246, 225, 215, 101, 161, 147, 217, 203, 225, 70, 206, 235, 121, 172,
        28, 180, 133, 237, 95, 91, 55, 145, 58, 140, 245, 133, 126, 255, 0, 169]
}

/// Calls `spl_token::id()`. The contract claims the address that the crate's
/// source declares with `declare_id!`, written out as bytes.
#[verifier::external_body]
pub(crate) fn token_program_id() -> (r: Pubkey)
    ensures
        r.bytes@ == spec_token_program_id(),
{
    Pubkey { bytes: spl_token::id().to_bytes() }
}

} // verus!
