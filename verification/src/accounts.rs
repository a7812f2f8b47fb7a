//! The accounts that each instruction takes, and the constraints they must meet.
//!
//! Each struct holds, as plain values, what the rules read of the accounts.
//! `check_constraints` checks the value constraints of the instruction in the
//! order in which the accounts are listed, and returns the first one broken.
use vstd::prelude::*;
use crate::error::{ConstraintViolation, Error, RaffleError};
use crate::address::{
    auction_constraint, auction_seeds, global_state_constraint, global_state_seeds, raffle_constraint,
    raffle_seeds, reward_vault_constraint, reward_vault_seeds, spec_seeds_constraint,
};
use crate::external::{program_address, spec_token_program_id, token_program_id};
use crate::pubkey::Pubkey;
use crate::state::{AccountRef, Auction, BuyerState, GlobalState, Raffle, TokenAccount};

verus! {

/// The refusal for a broken `constraint = ..` expression.
pub open spec fn raw() -> Error {
    Error::Constraint(ConstraintViolation::Raw)
}

/// Accounts of `initialize`.
pub struct Initialize {
    pub admin: Pubkey,
    pub global_state: GlobalState,
    pub zzz_mint: Pubkey,
}

/// Accounts of `create_raffle`.
pub struct CreateRaffle {
    pub admin: Pubkey,
    pub global_state: GlobalState,
    pub raffle: Raffle,
    pub reward_mint: Pubkey,
    pub reward_vault: Pubkey,
    pub source_account: Pubkey,
}

/// Accounts of `set_raffle`.
pub struct SetRaffle {
    pub admin: Pubkey,
    pub global_state: GlobalState,
    pub raffle_key: Pubkey,
    pub raffle: Raffle,
}

/// Accounts of `delete_raffle`.
pub struct DeleteRaffle {
    pub admin: Pubkey,
    pub global_state: GlobalState,
    pub raffle_key: Pubkey,
    pub raffle: Raffle,
}

/// Accounts of `finish_raffle`; `pyth_data` is the data of the price feed account.
pub struct FinishRaffle {
    pub admin: Pubkey,
    pub global_state: GlobalState,
    pub raffle_key: Pubkey,
    pub raffle: Raffle,
    pub pyth_data: Vec<u8>,
}

/// Accounts of `gen_wl_winners`; `pyth_data` is the data of the price feed account.
pub struct GenWlWinners {
    pub pyth_data: Vec<u8>,
}

/// Accounts of `buy_ticket`.
pub struct BuyTicket {
    pub user: Pubkey,
    pub global_state_key: Pubkey,
    pub global_state: GlobalState,
    pub raffle_key: Pubkey,
    pub raffle: Raffle,
    pub buyer_state: BuyerState,
    pub zzz_mint: Pubkey,
    pub zzz_vault: TokenAccount,
    pub source_account: Pubkey,
}

/// Accounts of `claim_rewards`.
pub struct ClaimRewards {
    pub user: Pubkey,
    pub raffle_key: Pubkey,
    pub raffle: Raffle,
    pub buyer_state: BuyerState,
    pub global_state_key: Pubkey,
    pub reward_mint: Pubkey,
    pub reward_vault: TokenAccount,
    pub reward_to_account: Pubkey,
}

/// Accounts of `deposit_reward`.
pub struct DepositReward {
    pub owner: Pubkey,
    pub source_account: AccountRef,
    pub dest_account: AccountRef,
}

/// Accounts of `create_auction`.
pub struct CreateAuction {
    pub admin: Pubkey,
    pub global_state: GlobalState,
    pub auction: Auction,
}

/// Accounts of `bid`.
pub struct Bid {
    pub user: Pubkey,
    pub global_state_key: Pubkey,
    pub auction_key: Pubkey,
    pub auction: Auction,
    pub vault: TokenAccount,
    pub bid_mint: Pubkey,
    pub from: Pubkey,
    pub ori_refund_receiver: Pubkey,
}

/// Accounts of `finish_auction`.
pub struct FinishAuction {
    pub user: Pubkey,
    pub global_state_key: Pubkey,
    pub auction_key: Pubkey,
    pub auction: Auction,
    pub nft_holder: TokenAccount,
    pub nft_mint: Pubkey,
    pub nft_receiver: TokenAccount,
}

/// Accounts of `delete_auction`.
pub struct DeleteAuction {
    pub admin: Pubkey,
    pub global_state: GlobalState,
    pub auction_key: Pubkey,
    pub auction: Auction,
}

/// The constraint of the administrator's instructions: the global state names
/// the signer as its administrator.
pub open spec fn spec_admin_constraint(global_state: GlobalState, admin: Pubkey) -> Result<(), Error> {
    if global_state.admin == admin { Ok(()) } else { Err(raw()) }
}

fn admin_constraint(global_state: &GlobalState, admin: &Pubkey) -> (r: Result<(), Error>)
    ensures
        r == spec_admin_constraint(*global_state, *admin),
{
    if global_state.admin.key_eq(admin) { Ok(()) } else { Err(Error::Constraint(ConstraintViolation::Raw)) }
}

/// The access check of the administrator's raffle instructions.
pub open spec fn spec_is_admin(global_state: GlobalState, signer: Pubkey) -> Result<(), Error> {
    if global_state.admin == signer { Ok(()) } else { Err(Error::Raffle(RaffleError::InvalidAdmin)) }
}

/// Refuses with `InvalidAdmin` unless `signer` is the administrator.
pub fn is_admin(global_state: &GlobalState, signer: &Pubkey) -> (r: Result<(), Error>)
    ensures
        r == spec_is_admin(*global_state, *signer),
{
    if global_state.admin.key_eq(signer) { Ok(()) } else { Err(Error::Raffle(RaffleError::InvalidAdmin)) }
}

/// The checks of `token::authority = authority, token::mint = mint`, in that order.
pub open spec fn spec_token_constraint(account: TokenAccount, authority: Pubkey, mint: Pubkey) -> Result<(), Error> {
    if account.owner != authority {
        Err(Error::Constraint(ConstraintViolation::TokenOwner))
    } else if account.mint != mint {
        Err(Error::Constraint(ConstraintViolation::TokenMint))
    } else {
        Ok(())
    }
}

fn token_constraint(account: &TokenAccount, authority: &Pubkey, mint: &Pubkey) -> (r: Result<(), Error>)
    ensures
        r == spec_token_constraint(*account, *authority, *mint),
{
    if !account.owner.key_eq(authority) {
        Err(Error::Constraint(ConstraintViolation::TokenOwner))
    } else if !account.mint.key_eq(mint) {
        Err(Error::Constraint(ConstraintViolation::TokenMint))
    } else {
        Ok(())
    }
}

/// The check of `address = expected`.
pub open spec fn spec_address_constraint(key: Pubkey, expected: Pubkey) -> Result<(), Error> {
    if key == expected { Ok(()) } else { Err(Error::Constraint(ConstraintViolation::Address)) }
}

fn address_constraint(key: &Pubkey, expected: &Pubkey) -> (r: Result<(), Error>)
    ensures
        r == spec_address_constraint(*key, *expected),
{
    if key.key_eq(expected) { Ok(()) } else { Err(Error::Constraint(ConstraintViolation::Address)) }
}

/// The check of `owner = spl_token::id()`.
pub open spec fn spec_token_owned(account: AccountRef) -> Result<(), Error> {
    if account.owner.bytes@ == spec_token_program_id() {
        Ok(())
    } else {
        Err(Error::Constraint(ConstraintViolation::Owner))
    }
}

fn token_owned(account: &AccountRef) -> (r: Result<(), Error>)
    ensures
        r == spec_token_owned(*account),
{
    let token_program = token_program_id();
    proof {
        broadcast use vstd::array::group_array_axioms;
        if account.owner.bytes@ == spec_token_program_id() {
            assert(account.owner.bytes =~= token_program.bytes);
        }
    }
    if account.owner.key_eq(&token_program) {
        Ok(())
    } else {
        Err(Error::Constraint(ConstraintViolation::Owner))
    }
}

impl CreateRaffle {
    pub open spec fn spec_constraints(&self) -> Result<(), Error> {
        spec_admin_constraint(self.global_state, self.admin)
    }

    /// `global_state.admin == admin`.
    pub fn check_constraints(&self) -> (r: Result<(), Error>)
        ensures
            r == self.spec_constraints(),
            r is Ok <==> self.global_state.admin == self.admin,
    {
        admin_constraint(&self.global_state, &self.admin)
    }
}

impl CreateAuction {
    pub open spec fn spec_constraints(&self) -> Result<(), Error> {
        spec_admin_constraint(self.global_state, self.admin)
    }

    /// `global_state.admin == admin`.
    pub fn check_constraints(&self) -> (r: Result<(), Error>)
        ensures
            r == self.spec_constraints(),
            r is Ok <==> self.global_state.admin == self.admin,
    {
        admin_constraint(&self.global_state, &self.admin)
    }
}

/// Whether `key` is the address derived from `seeds` for `program_id`.
pub open spec fn derived_at(key: Pubkey, seeds: Seq<Seq<u8>>, program_id: Pubkey) -> bool {
    program_address(seeds, program_id) matches Some((address, _)) && address == key
}

/// Whether an address can be derived from `seeds` for `program_id`.
pub open spec fn derivable(seeds: Seq<Seq<u8>>, program_id: Pubkey) -> bool {
    program_address(seeds, program_id) is Some
}

/// Runs the check `first`, and the check `rest` where `first` passed.
pub open spec fn then_check(first: Option<Result<(), Error>>, rest: Option<Result<(), Error>>) -> Option<Result<(), Error>> {
    match first {
        Some(Ok(())) => rest,
        other => other,
    }
}

/// The checks of an administrator's instruction on raffle `raffle_id`: the
/// administrator constraint, then the raffle's address.
pub open spec fn spec_admin_raffle_constraints(
    global_state: GlobalState,
    admin: Pubkey,
    raffle_key: Pubkey,
    raffle_id: u32,
    program_id: Pubkey,
) -> Option<Result<(), Error>> {
    then_check(
        Some(spec_admin_constraint(global_state, admin)),
        spec_seeds_constraint(raffle_key, raffle_seeds(raffle_id), program_id),
    )
}

fn admin_raffle_constraints(
    global_state: &GlobalState,
    admin: &Pubkey,
    raffle_key: &Pubkey,
    raffle_id: u32,
    program_id: &Pubkey,
) -> (r: Option<Result<(), Error>>)
    ensures
        r == spec_admin_raffle_constraints(*global_state, *admin, *raffle_key, raffle_id, *program_id),
{
    match admin_constraint(global_state, admin) {
        Err(e) => Some(Err(e)),
        Ok(()) => raffle_constraint(raffle_key, raffle_id, program_id),
    }
}

impl SetRaffle {
    pub open spec fn spec_constraints(&self, program_id: Pubkey, raffle_id: u32) -> Option<Result<(), Error>> {
        spec_admin_raffle_constraints(self.global_state, self.admin, self.raffle_key, raffle_id, program_id)
    }

    /// `global_state.admin == admin`, and the raffle account is the one of
    /// `raffle_id`. `None` where no address can be derived for it.
    pub fn check_constraints(&self, program_id: &Pubkey, raffle_id: u32) -> (r: Option<Result<(), Error>>)
        ensures
            r == self.spec_constraints(*program_id, raffle_id),
            r == Some(Ok::<(), Error>(())) <==> (self.global_state.admin == self.admin && derived_at(self.raffle_key, raffle_seeds(raffle_id), *program_id)),
            r is None <==> (self.global_state.admin == self.admin && !derivable(raffle_seeds(raffle_id), *program_id)),
    {
        admin_raffle_constraints(&self.global_state, &self.admin, &self.raffle_key, raffle_id, program_id)
    }
}

impl DeleteRaffle {
    pub open spec fn spec_constraints(&self, program_id: Pubkey, raffle_id: u32) -> Option<Result<(), Error>> {
        spec_admin_raffle_constraints(self.global_state, self.admin, self.raffle_key, raffle_id, program_id)
    }

    /// `global_state.admin == admin`, and the raffle account is the one of
    /// `raffle_id`. `None` where no address can be derived for it.
    pub fn check_constraints(&self, program_id: &Pubkey, raffle_id: u32) -> (r: Option<Result<(), Error>>)
        ensures
            r == self.spec_constraints(*program_id, raffle_id),
            r == Some(Ok::<(), Error>(())) <==> (self.global_state.admin == self.admin && derived_at(self.raffle_key, raffle_seeds(raffle_id), *program_id)),
            r is None <==> (self.global_state.admin == self.admin && !derivable(raffle_seeds(raffle_id), *program_id)),
    {
        admin_raffle_constraints(&self.global_state, &self.admin, &self.raffle_key, raffle_id, program_id)
    }
}

impl FinishRaffle {
    pub open spec fn spec_constraints(&self, program_id: Pubkey, raffle_id: u32) -> Option<Result<(), Error>> {
        spec_admin_raffle_constraints(self.global_state, self.admin, self.raffle_key, raffle_id, program_id)
    }

    /// `global_state.admin == admin`, and the raffle account is the one of
    /// `raffle_id`. `None` where no address can be derived for it.
    pub fn check_constraints(&self, program_id: &Pubkey, raffle_id: u32) -> (r: Option<Result<(), Error>>)
        ensures
            r == self.spec_constraints(*program_id, raffle_id),
            r == Some(Ok::<(), Error>(())) <==> (self.global_state.admin == self.admin && derived_at(self.raffle_key, raffle_seeds(raffle_id), *program_id)),
            r is None <==> (self.global_state.admin == self.admin && !derivable(raffle_seeds(raffle_id), *program_id)),
    {
        admin_raffle_constraints(&self.global_state, &self.admin, &self.raffle_key, raffle_id, program_id)
    }
}

impl DeleteAuction {
    pub open spec fn spec_constraints(&self, program_id: Pubkey, auction_id: u32) -> Option<Result<(), Error>> {
        then_check(
            Some(spec_admin_constraint(self.global_state, self.admin)),
            spec_seeds_constraint(self.auction_key, auction_seeds(auction_id), program_id),
        )
    }

    /// `global_state.admin == admin`, and the auction account is the one of
    /// `auction_id`. `None` where no address can be derived for it.
    pub fn check_constraints(&self, program_id: &Pubkey, auction_id: u32) -> (r: Option<Result<(), Error>>)
        ensures
            r == self.spec_constraints(*program_id, auction_id),
            r == Some(Ok::<(), Error>(())) <==> (self.global_state.admin == self.admin && derived_at(self.auction_key, auction_seeds(auction_id), *program_id)),
            r is None <==> (self.global_state.admin == self.admin && !derivable(auction_seeds(auction_id), *program_id)),
    {
        match admin_constraint(&self.global_state, &self.admin) {
            Err(e) => Some(Err(e)),
            Ok(()) => auction_constraint(&self.auction_key, auction_id, program_id),
        }
    }
}

impl BuyTicket {
    pub open spec fn spec_constraints(&self, program_id: Pubkey, raffle_id: u32) -> Option<Result<(), Error>> {
        then_check(
            spec_seeds_constraint(self.global_state_key, global_state_seeds(), program_id),
            then_check(
                spec_seeds_constraint(self.raffle_key, raffle_seeds(raffle_id), program_id),
                then_check(
                    Some(spec_address_constraint(self.zzz_mint, self.global_state.zzz_mint)),
                    Some(spec_token_constraint(self.zzz_vault, self.global_state_key, self.zzz_mint)),
                ),
            ),
        )
    }

    /// The global state and raffle accounts are at their derived addresses,
    /// `zzz_mint` is the mint of the global state, and `zzz_vault` holds that
    /// mint under the global state's authority. `None` where an address
    /// cannot be derived.
    pub fn check_constraints(&self, program_id: &Pubkey, raffle_id: u32) -> (r: Option<Result<(), Error>>)
        ensures
            r == self.spec_constraints(*program_id, raffle_id),
            r == Some(Ok::<(), Error>(())) <==> (derived_at(self.global_state_key, global_state_seeds(), *program_id)
                && derived_at(self.raffle_key, raffle_seeds(raffle_id), *program_id)
                && self.zzz_mint == self.global_state.zzz_mint
                && self.zzz_vault.owner == self.global_state_key && self.zzz_vault.mint == self.zzz_mint),
    {
        match global_state_constraint(&self.global_state_key, program_id) {
            Some(Ok(())) => {},
            other => return other,
        }
        match raffle_constraint(&self.raffle_key, raffle_id, program_id) {
            Some(Ok(())) => {},
            other => return other,
        }
        match address_constraint(&self.zzz_mint, &self.global_state.zzz_mint) {
            Err(e) => return Some(Err(e)),
            Ok(()) => {},
        }
        Some(token_constraint(&self.zzz_vault, &self.global_state_key, &self.zzz_mint))
    }
}

impl ClaimRewards {
    /// Whether the purchase holds the winning ticket: `start <= win <= end`.
    pub open spec fn holds_winning_ticket(&self) -> bool {
        self.buyer_state.ticket_num_start <= self.raffle.win_ticket_num
            && self.raffle.win_ticket_num <= self.buyer_state.ticket_num_end
    }

    /// The checks that read the accounts' contents, in their order.
    pub open spec fn spec_claim_checks(&self) -> Result<(), Error> {
        if self.raffle.claimed == 1 {
            Err(raw())
        } else if self.user != self.buyer_state.buyer {
            Err(raw())
        } else if !self.holds_winning_ticket() {
            Err(raw())
        } else {
            spec_address_constraint(self.reward_mint, self.raffle.reward_mint)
        }
    }

    pub open spec fn spec_constraints(&self, program_id: Pubkey, raffle_id: u32) -> Option<Result<(), Error>> {
        then_check(
            spec_seeds_constraint(self.raffle_key, raffle_seeds(raffle_id), program_id),
            then_check(
                Some(self.spec_claim_checks()),
                then_check(
                    spec_seeds_constraint(self.reward_vault.key, reward_vault_seeds(self.reward_mint), program_id),
                    Some(spec_token_constraint(self.reward_vault, self.global_state_key, self.reward_mint)),
                ),
            ),
        )
    }

    /// The raffle account is the one of `raffle_id`, its reward is not claimed
    /// yet, the signer bought the tickets, the purchase holds the winning
    /// ticket, `reward_mint` is the raffle's reward mint, and `reward_vault` is
    /// that mint's vault and holds it under the global state's authority.
    /// `None` where an address cannot be derived.
    pub fn check_constraints(&self, program_id: &Pubkey, raffle_id: u32) -> (r: Option<Result<(), Error>>)
        ensures
            r == self.spec_constraints(*program_id, raffle_id),
            r == Some(Ok::<(), Error>(())) <==> (derived_at(self.raffle_key, raffle_seeds(raffle_id), *program_id)
                && self.raffle.claimed != 1
                && self.user == self.buyer_state.buyer
                && self.buyer_state.ticket_num_start <= self.raffle.win_ticket_num
                && self.raffle.win_ticket_num <= self.buyer_state.ticket_num_end
                && self.reward_mint == self.raffle.reward_mint
                && derived_at(self.reward_vault.key, reward_vault_seeds(self.reward_mint), *program_id)
                && self.reward_vault.owner == self.global_state_key && self.reward_vault.mint == self.reward_mint),
    {
        match raffle_constraint(&self.raffle_key, raffle_id, program_id) {
            Some(Ok(())) => {},
            other => return other,
        }
        if self.raffle.claimed == 1 {
            return Some(Err(Error::Constraint(ConstraintViolation::Raw)));
        }
        if !self.user.key_eq(&self.buyer_state.buyer) {
            return Some(Err(Error::Constraint(ConstraintViolation::Raw)));
        }
        if !(self.buyer_state.ticket_num_start <= self.raffle.win_ticket_num
            && self.raffle.win_ticket_num <= self.buyer_state.ticket_num_end) {
            return Some(Err(Error::Constraint(ConstraintViolation::Raw)));
        }
        match address_constraint(&self.reward_mint, &self.raffle.reward_mint) {
            Err(e) => return Some(Err(e)),
            Ok(()) => {},
        }
        match reward_vault_constraint(&self.reward_vault.key, &self.reward_mint, program_id) {
            Some(Ok(())) => {},
            other => return other,
        }
        Some(token_constraint(&self.reward_vault, &self.global_state_key, &self.reward_mint))
    }
}

impl DepositReward {
    pub open spec fn spec_constraints(&self) -> Result<(), Error> {
        match spec_token_owned(self.source_account) {
            Err(e) => Err(e),
            Ok(()) => spec_token_owned(self.dest_account),
        }
    }

    /// Both accounts are owned by the SPL token program.
    pub fn check_constraints(&self) -> (r: Result<(), Error>)
        ensures
            r == self.spec_constraints(),
            r is Ok <==> (self.source_account.owner.bytes@ == spec_token_program_id()
                && self.dest_account.owner.bytes@ == spec_token_program_id()),
    {
        token_owned(&self.source_account)?;
        token_owned(&self.dest_account)
    }
}

impl Bid {
    /// The checks that read the accounts' contents, in their order.
    pub open spec fn spec_bid_checks(&self) -> Result<(), Error> {
        if self.auction.closed != 0 {
            Err(raw())
        } else {
            match spec_token_constraint(self.vault, self.global_state_key, self.bid_mint) {
                Err(e) => Err(e),
                Ok(()) => match spec_address_constraint(self.bid_mint, self.auction.bid_mint) {
                    Err(e) => Err(e),
                    Ok(()) => if self.ori_refund_receiver == self.auction.refund_receiver {
                        Ok(())
                    } else {
                        Err(raw())
                    },
                },
            }
        }
    }

    pub open spec fn spec_constraints(&self, program_id: Pubkey, auction_id: u32) -> Option<Result<(), Error>> {
        then_check(
            spec_seeds_constraint(self.auction_key, auction_seeds(auction_id), program_id),
            Some(self.spec_bid_checks()),
        )
    }

    /// The auction account is the one of `auction_id` and still open, `vault`
    /// holds `bid_mint` under the global state's authority, `bid_mint` is the
    /// auction's bid mint, and `ori_refund_receiver` is the auction's current
    /// refund receiver. `None` where the auction's address cannot be derived.
    pub fn check_constraints(&self, program_id: &Pubkey, auction_id: u32) -> (r: Option<Result<(), Error>>)
        ensures
            r == self.spec_constraints(*program_id, auction_id),
            r == Some(Ok::<(), Error>(())) <==> (derived_at(self.auction_key, auction_seeds(auction_id), *program_id)
                && self.auction.closed == 0
                && self.vault.owner == self.global_state_key && self.vault.mint == self.bid_mint
                && self.bid_mint == self.auction.bid_mint
                && self.ori_refund_receiver == self.auction.refund_receiver),
            r is None <==> !derivable(auction_seeds(auction_id), *program_id),
    {
        match auction_constraint(&self.auction_key, auction_id, program_id) {
            Some(Ok(())) => {},
            other => return other,
        }
        if self.auction.closed != 0 {
            return Some(Err(Error::Constraint(ConstraintViolation::Raw)));
        }
        match token_constraint(&self.vault, &self.global_state_key, &self.bid_mint) {
            Err(e) => return Some(Err(e)),
            Ok(()) => {},
        }
        match address_constraint(&self.bid_mint, &self.auction.bid_mint) {
            Err(e) => return Some(Err(e)),
            Ok(()) => {},
        }
        if self.ori_refund_receiver.key_eq(&self.auction.refund_receiver) {
            Some(Ok(()))
        } else {
            Some(Err(Error::Constraint(ConstraintViolation::Raw)))
        }
    }
}

impl FinishAuction {
    /// The checks that read the accounts' contents, in their order.
    pub open spec fn spec_settle_checks(&self) -> Result<(), Error> {
        match spec_token_constraint(self.nft_holder, self.global_state_key, self.nft_mint) {
            Err(e) => Err(e),
            Ok(()) => match spec_address_constraint(self.nft_mint, self.auction.bid_mint) {
                Err(e) => Err(e),
                Ok(()) => if self.nft_receiver.owner == self.auction.bidder {
                    Ok(())
                } else {
                    Err(raw())
                },
            },
        }
    }

    pub open spec fn spec_constraints(&self, program_id: Pubkey, auction_id: u32) -> Option<Result<(), Error>> {
        then_check(
            spec_seeds_constraint(self.auction_key, auction_seeds(auction_id), program_id),
            Some(self.spec_settle_checks()),
        )
    }

    /// The auction account is the one of `auction_id`, `nft_holder` holds
    /// `nft_mint` under the global state's authority, `nft_mint` is the
    /// auction's bid mint, and `nft_receiver` belongs to the highest bidder.
    /// `None` where the auction's address cannot be derived.
    pub fn check_constraints(&self, program_id: &Pubkey, auction_id: u32) -> (r: Option<Result<(), Error>>)
        ensures
            r == self.spec_constraints(*program_id, auction_id),
            r == Some(Ok::<(), Error>(())) <==> (derived_at(self.auction_key, auction_seeds(auction_id), *program_id)
                && self.nft_holder.owner == self.global_state_key && self.nft_holder.mint == self.nft_mint
                && self.nft_mint == self.auction.bid_mint
                && self.nft_receiver.owner == self.auction.bidder),
            r is None <==> !derivable(auction_seeds(auction_id), *program_id),
    {
        match auction_constraint(&self.auction_key, auction_id, program_id) {
            Some(Ok(())) => {},
            other => return other,
        }
        match token_constraint(&self.nft_holder, &self.global_state_key, &self.nft_mint) {
            Err(e) => return Some(Err(e)),
            Ok(()) => {},
        }
        match address_constraint(&self.nft_mint, &self.auction.bid_mint) {
            Err(e) => return Some(Err(e)),
            Ok(()) => {},
        }
        if self.nft_receiver.owner.key_eq(&self.auction.bidder) {
            Some(Ok(()))
        } else {
            Some(Err(Error::Constraint(ConstraintViolation::Raw)))
        }
    }
}

} // verus!
