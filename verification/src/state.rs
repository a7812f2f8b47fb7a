//! The program's accounts, and the token transfers that instructions ask for.
use vstd::prelude::*;
use crate::pubkey::Pubkey;

verus! {

/// The program-wide account.
#[derive(Clone, Copy, Debug)]
pub struct GlobalState {
    pub admin: Pubkey,
    pub zzz_mint: Pubkey,
    pub raffle_count: u32,
    pub auction_count: u32,
}

/// One raffle.
#[derive(Clone, Debug)]
pub struct Raffle {
    pub raffle_id: u32,
    pub ticket_count: u32,
    pub ticket_price: u64,
    pub start_time: i64,
    pub end_time: i64,
    pub reward_mint: Pubkey,
    pub project_name: String,
    pub project_description: String,
    pub discord_link: String,
    pub twitter_link: String,
    pub wl_spot: u32,
    pub image: String,
    pub sold_tickets: u32,
    pub win_ticket_num: u32,
    pub closed: u8,
    pub claimed: u8,
}

/// The record of one ticket purchase: tickets `ticket_num_start..=ticket_num_end`.
#[derive(Clone, Copy, Debug)]
pub struct BuyerState {
    pub raffle_id: u32,
    pub buyer: Pubkey,
    pub sold_time: i64,
    pub ticket_num_start: u32,
    pub ticket_num_end: u32,
}

/// One auction.
#[derive(Clone, Copy, Debug)]
pub struct Auction {
    pub auction_id: u32,
    pub seller: Pubkey,
    pub nft_mint: Pubkey,
    pub min_bid_amount: u32,
    pub start_time: i64,
    pub end_time: i64,
    pub bid_mint: Pubkey,
    pub price: u64,
    pub bidder: Pubkey,
    pub refund_receiver: Pubkey,
    pub closed: u8,
}

/// What the rules read of an SPL token account.
#[derive(Clone, Copy, Debug)]
pub struct TokenAccount {
    /// The account's own address.
    pub key: Pubkey,
    pub mint: Pubkey,
    /// The authority that may move its tokens.
    pub owner: Pubkey,
    pub amount: u64,
}

/// An account's address and the program that owns it.
#[derive(Clone, Copy, Debug)]
pub struct AccountRef {
    pub key: Pubkey,
    pub owner: Pubkey,
}

/// A transfer of tokens that an instruction asks the token program to make.
#[derive(Clone, Copy, Debug)]
pub struct TokenTransfer {
    pub from: Pubkey,
    pub to: Pubkey,
    pub authority: Pubkey,
    /// `Some(bump)` where the program signs for `authority`, the global state
    /// address, with the seeds `[GLOBAL_STATE_SEED, [bump]]`; `None` where
    /// `authority` signed the transaction itself.
    pub signer_bump: Option<u8>,
    pub amount: u64,
}

} // verus!
