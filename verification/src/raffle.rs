//! The raffle instructions: listing, ticket sales, the winner draw and the reward claim.
use vstd::prelude::*;
use crate::accounts::{
    is_admin, spec_is_admin, then_check,
    BuyTicket, ClaimRewards, CreateRaffle, DeleteRaffle, DepositReward, FinishRaffle, GenWlWinners,
    Initialize, SetRaffle,
};
use crate::error::{Error, RaffleError};
use crate::address::{find_global_state_bump, global_state_bump};
use crate::external::{clock_unix_timestamp, pyth_aggregate_price, PYTH_PRICE_DATA_MIN};
use anchor_lang::solana_program::program_error::ProgramError;
use crate::pubkey::Pubkey;
use crate::state::{BuyerState, GlobalState, Raffle, TokenTransfer};

verus! {

/// Records the signer as administrator and the program's own mint.
pub open spec fn spec_initialize(a: Initialize) -> Initialize {
    Initialize { global_state: GlobalState { admin: a.admin, zzz_mint: a.zzz_mint, ..a.global_state }, ..a }
}

/// Sets up the global state: the signer becomes the administrator, and
/// `zzz_mint` the mint in which tickets are paid and bids are made.
pub fn initialize(accounts: &mut Initialize)
    ensures
        *final(accounts) == spec_initialize(*old(accounts)),
{
    accounts.global_state.admin = accounts.admin;
    accounts.global_state.zzz_mint = accounts.zzz_mint;
}

/// A raffle's listing: everything the administrator sets when listing or editing it.
pub struct Listing {
    pub ticket_count: u32,
    pub ticket_price: u64,
    pub start_time: i64,
    pub end_time: i64,
    pub project_name: String,
    pub project_description: String,
    pub discord_link: String,
    pub twitter_link: String,
    pub wl_spot: u32,
    pub image: String,
}

/// `raffle` with the listing and reward mint replaced, the rest kept.
pub open spec fn with_listing(raffle: Raffle, listing: Listing, reward_mint: Pubkey) -> Raffle {
    Raffle {
        ticket_count: listing.ticket_count,
        ticket_price: listing.ticket_price,
        start_time: listing.start_time,
        end_time: listing.end_time,
        reward_mint: reward_mint,
        project_name: listing.project_name,
        project_description: listing.project_description,
        discord_link: listing.discord_link,
        twitter_link: listing.twitter_link,
        wl_spot: listing.wl_spot,
        image: listing.image,
        ..raffle
    }
}

fn apply_listing(raffle: &mut Raffle, listing: Listing, reward_mint: Pubkey)
    ensures
        *final(raffle) == with_listing(*old(raffle), listing, reward_mint),
{
    raffle.ticket_count = listing.ticket_count;
    raffle.ticket_price = listing.ticket_price;
    raffle.start_time = listing.start_time;
    raffle.end_time = listing.end_time;
    raffle.reward_mint = reward_mint;
    raffle.project_name = listing.project_name;
    raffle.project_description = listing.project_description;
    raffle.discord_link = listing.discord_link;
    raffle.twitter_link = listing.twitter_link;
    raffle.wl_spot = listing.wl_spot;
    raffle.image = listing.image;
}

/// The accounts after `create_raffle`, and the transfer of one reward token
/// from the administrator's account into the reward vault.
pub open spec fn spec_create_raffle(a: CreateRaffle, raffle_id: u32, listing: Listing) -> (CreateRaffle, TokenTransfer) {
    (
        CreateRaffle {
            raffle: Raffle {
                raffle_id: raffle_id,
                sold_tickets: 0,
                win_ticket_num: 0,
                closed: 0,
                claimed: 0,
                ..with_listing(a.raffle, listing, a.reward_mint)
            },
            global_state: GlobalState { raffle_count: (a.global_state.raffle_count + 1) as u32, ..a.global_state },
            ..a
        },
        TokenTransfer {
            from: a.source_account,
            to: a.reward_vault,
            authority: a.admin,
            signer_bump: None,
            amount: 1,
        },
    )
}

/// Lists a new raffle of `raffle_id` whose prize is one token of `reward_mint`,
/// counts it in the global state, and asks for the prize to be moved into the
/// reward vault, without the accounts and access checks of `create_raffle`.
/// The raffle account is new: no ticket is sold, none drawn, and it is
/// neither closed nor claimed, as its zero-filled creation leaves it.
pub fn create_raffle_unchecked(
    accounts: &mut CreateRaffle,
    raffle_id: u32,
    ticket_count: u32,
    ticket_price: u64,
    start_time: i64,
    end_time: i64,
    project_name: String,
    project_description: String,
    discord_link: String,
    twitter_link: String,
    wl_spot: u32,
    image: String,
) -> (r: TokenTransfer)
    requires
        old(accounts).global_state.raffle_count < u32::MAX,
    ensures
        (*final(accounts), r) == spec_create_raffle(*old(accounts), raffle_id, (Listing {
            ticket_count, ticket_price, start_time, end_time, project_name, project_description,
            discord_link, twitter_link, wl_spot, image,
        })),
        final(accounts).raffle.ticket_count == ticket_count,
        final(accounts).raffle.ticket_price == ticket_price,
        final(accounts).raffle.start_time == start_time,
        final(accounts).raffle.end_time == end_time,
        final(accounts).raffle.project_name == project_name,
        final(accounts).raffle.project_description == project_description,
        final(accounts).raffle.discord_link == discord_link,
        final(accounts).raffle.twitter_link == twitter_link,
        final(accounts).raffle.wl_spot == wl_spot,
        final(accounts).raffle.image == image,
        final(accounts).raffle.reward_mint == old(accounts).reward_mint,
        final(accounts).raffle.raffle_id == raffle_id,
        final(accounts).raffle.sold_tickets == 0,
        final(accounts).raffle.win_ticket_num == 0,
        final(accounts).raffle.closed == 0,
        final(accounts).raffle.claimed == 0,
        final(accounts).global_state.raffle_count == old(accounts).global_state.raffle_count + 1,
        final(accounts).global_state.admin == old(accounts).global_state.admin,
        r.from == old(accounts).source_account && r.to == old(accounts).reward_vault,
        r.authority == old(accounts).admin && r.amount == 1 && r.signer_bump is None,
{
    let listing = Listing {
        ticket_count, ticket_price, start_time, end_time, project_name, project_description,
        discord_link, twitter_link, wl_spot, image,
    };
    accounts.raffle.raffle_id = raffle_id;
    accounts.raffle.sold_tickets = 0;
    accounts.raffle.win_ticket_num = 0;
    accounts.raffle.closed = 0;
    accounts.raffle.claimed = 0;
    let reward_mint = accounts.reward_mint;
    apply_listing(&mut accounts.raffle, listing, reward_mint);
    accounts.global_state.raffle_count = accounts.global_state.raffle_count + 1;
    TokenTransfer {
        from: accounts.source_account,
        to: accounts.reward_vault,
        authority: accounts.admin,
        signer_bump: None,
        amount: 1,
    }
}

/// Replaces the listing of a raffle and its reward mint; its id, the tickets
/// sold, the draw and the claim are kept. This is the body of `set_raffle`,
/// without its accounts and access checks.
pub fn set_raffle_unchecked(
    accounts: &mut SetRaffle,
    raffle_id: u32,
    ticket_count: u32,
    ticket_price: u64,
    start_time: i64,
    end_time: i64,
    reward_mint: Pubkey,
    project_name: String,
    project_description: String,
    discord_link: String,
    twitter_link: String,
    wl_spot: u32,
    image: String,
)
    ensures
        *final(accounts) == (SetRaffle {
            raffle: with_listing(old(accounts).raffle, (Listing {
                ticket_count, ticket_price, start_time, end_time, project_name, project_description,
                discord_link, twitter_link, wl_spot, image,
            }), reward_mint),
            ..*old(accounts)
        }),
        final(accounts).raffle.ticket_count == ticket_count,
        final(accounts).raffle.ticket_price == ticket_price,
        final(accounts).raffle.start_time == start_time,
        final(accounts).raffle.end_time == end_time,
        final(accounts).raffle.project_name == project_name,
        final(accounts).raffle.project_description == project_description,
        final(accounts).raffle.discord_link == discord_link,
        final(accounts).raffle.twitter_link == twitter_link,
        final(accounts).raffle.wl_spot == wl_spot,
        final(accounts).raffle.image == image,
        final(accounts).raffle.reward_mint == reward_mint,
        final(accounts).raffle.raffle_id == old(accounts).raffle.raffle_id,
        final(accounts).raffle.sold_tickets == old(accounts).raffle.sold_tickets,
        final(accounts).raffle.win_ticket_num == old(accounts).raffle.win_ticket_num,
        final(accounts).raffle.closed == old(accounts).raffle.closed,
        final(accounts).raffle.claimed == old(accounts).raffle.claimed,
        final(accounts).global_state == old(accounts).global_state,
{
    let listing = Listing {
        ticket_count, ticket_price, start_time, end_time, project_name, project_description,
        discord_link, twitter_link, wl_spot, image,
    };
    apply_listing(&mut accounts.raffle, listing, reward_mint);
}

/// The accounts after `delete_raffle`: one raffle fewer is counted.
pub open spec fn spec_delete_raffle(a: DeleteRaffle) -> DeleteRaffle {
    DeleteRaffle {
        global_state: GlobalState { raffle_count: (a.global_state.raffle_count - 1) as u32, ..a.global_state },
        ..a
    }
}

/// Uncounts a raffle that is being deleted: the body of `delete_raffle`,
/// without its accounts and access checks.
pub fn delete_raffle_unchecked(accounts: &mut DeleteRaffle)
    requires
        old(accounts).global_state.raffle_count > 0,
    ensures
        *final(accounts) == spec_delete_raffle(*old(accounts)),
{
    accounts.global_state.raffle_count = accounts.global_state.raffle_count - 1;
}

/// The arithmetic of a purchase of `count` tickets stays within the machine's integers.
pub open spec fn purchase_fits(a: BuyTicket, count: u32) -> bool {
    &&& a.raffle.sold_tickets < u32::MAX
    &&& a.raffle.sold_tickets + count <= u32::MAX
    &&& a.raffle.sold_tickets + count <= a.raffle.ticket_count
        ==> a.raffle.ticket_price * count <= u64::MAX
}

/// A purchase of `count` tickets at time `now`: refused where fewer tickets are
/// left; else the buyer's record gets the next `count` ticket numbers, the sold
/// count grows by `count`, and the buyer pays `count` times the ticket price
/// into the vault of the program's mint.
pub open spec fn spec_buy_ticket(a: BuyTicket, raffle_id: u32, count: u32, now: i64) -> Result<(BuyTicket, TokenTransfer), Error> {
    let sold = a.raffle.sold_tickets;
    if a.raffle.ticket_count < sold + count {
        Err(Error::Raffle(RaffleError::InsufficientTickets))
    } else {
        Ok((
            BuyTicket {
                buyer_state: BuyerState {
                    raffle_id: raffle_id,
                    buyer: a.user,
                    sold_time: now,
                    ticket_num_start: (sold + 1) as u32,
                    ticket_num_end: (sold + count) as u32,
                },
                raffle: Raffle { sold_tickets: (sold + count) as u32, ..a.raffle },
                ..a
            },
            TokenTransfer {
                from: a.source_account,
                to: a.zzz_vault.key,
                authority: a.user,
                signer_bump: None,
                amount: (a.raffle.ticket_price * count) as u64,
            },
        ))
    }
}

/// Buys `count` tickets of a raffle at the time `now`, without the accounts
/// check of `buy_ticket`.
pub fn buy_ticket_unchecked_at(accounts: &mut BuyTicket, raffle_id: u32, count: u32, now: i64) -> (r: Result<TokenTransfer, Error>)
    requires
        purchase_fits(*old(accounts), count),
    ensures
        match r {
            Ok(t) => spec_buy_ticket(*old(accounts), raffle_id, count, now) == Ok::<(BuyTicket, TokenTransfer), Error>((*final(accounts), t)),
            Err(e) => spec_buy_ticket(*old(accounts), raffle_id, count, now) == Err::<(BuyTicket, TokenTransfer), Error>(e)
                && *final(accounts) == *old(accounts),
        },
{
    let sold = accounts.raffle.sold_tickets;
    if accounts.raffle.ticket_count < sold + count {
        return Err(Error::Raffle(RaffleError::InsufficientTickets));
    }
    let amount = accounts.raffle.ticket_price * (count as u64);
    accounts.buyer_state = BuyerState {
        raffle_id: raffle_id,
        buyer: accounts.user,
        sold_time: now,
        ticket_num_start: sold + 1,
        ticket_num_end: sold + count,
    };
    accounts.raffle.sold_tickets = sold + count;
    Ok(TokenTransfer {
        from: accounts.source_account,
        to: accounts.zzz_vault.key,
        authority: accounts.user,
        signer_bump: None,
        amount: amount,
    })
}

/// A purchase of `count` tickets with the clock reading `clock`: refused where
/// fewer tickets are left; else, where the clock was read, the purchase at
/// that time, and `ClockUnavailable` where it could not be read.
pub open spec fn spec_buy_ticket_with_clock(
    a: BuyTicket,
    raffle_id: u32,
    count: u32,
    clock: Result<i64, ProgramError>,
) -> Result<(BuyTicket, TokenTransfer), Error> {
    if a.raffle.ticket_count < a.raffle.sold_tickets + count {
        Err(Error::Raffle(RaffleError::InsufficientTickets))
    } else {
        match clock {
            Ok(now) => spec_buy_ticket(a, raffle_id, count, now),
            Err(_) => Err(Error::ClockUnavailable),
        }
    }
}

/// Buys `count` tickets of a raffle with the clock reading `clock`, without
/// the accounts check of `buy_ticket`.
pub fn buy_ticket_unchecked_with_clock(
    accounts: &mut BuyTicket,
    raffle_id: u32,
    count: u32,
    clock: Result<i64, ProgramError>,
) -> (r: Result<TokenTransfer, Error>)
    requires
        purchase_fits(*old(accounts), count),
    ensures
        match r {
            Ok(t) => spec_buy_ticket_with_clock(*old(accounts), raffle_id, count, clock)
                == Ok::<(BuyTicket, TokenTransfer), Error>((*final(accounts), t)),
            Err(e) => spec_buy_ticket_with_clock(*old(accounts), raffle_id, count, clock)
                == Err::<(BuyTicket, TokenTransfer), Error>(e) && *final(accounts) == *old(accounts),
        },
{
    if accounts.raffle.ticket_count < accounts.raffle.sold_tickets + count {
        return Err(Error::Raffle(RaffleError::InsufficientTickets));
    }
    match clock {
        Ok(now) => buy_ticket_unchecked_at(accounts, raffle_id, count, now),
        Err(_) => Err(Error::ClockUnavailable),
    }
}

/// Buys `count` tickets of a raffle, stamped with the cluster's clock. Where
/// the purchase is allowed but the clock cannot be read, it is refused with
/// `ClockUnavailable` and nothing changes. This is the body of `buy_ticket`,
/// without its accounts check.
pub fn buy_ticket_unchecked(accounts: &mut BuyTicket, raffle_id: u32, count: u32) -> (r: Result<TokenTransfer, Error>)
    requires
        purchase_fits(*old(accounts), count),
    ensures
        match r {
            Ok(t) => spec_buy_ticket(*old(accounts), raffle_id, count, final(accounts).buyer_state.sold_time)
                == Ok::<(BuyTicket, TokenTransfer), Error>((*final(accounts), t)),
            Err(e) => *final(accounts) == *old(accounts) && (
                spec_buy_ticket(*old(accounts), raffle_id, count, 0) == Err::<(BuyTicket, TokenTransfer), Error>(e)
                || (e == Error::ClockUnavailable && spec_buy_ticket(*old(accounts), raffle_id, count, 0) is Ok)),
        },
        exists|clock: Result<i64, ProgramError>| match r {
            Ok(t) => #[trigger] spec_buy_ticket_with_clock(*old(accounts), raffle_id, count, clock)
                == Ok::<(BuyTicket, TokenTransfer), Error>((*final(accounts), t)),
            Err(e) => spec_buy_ticket_with_clock(*old(accounts), raffle_id, count, clock)
                == Err::<(BuyTicket, TokenTransfer), Error>(e),
        },
{
    let clock = clock_unix_timestamp();
    buy_ticket_unchecked_with_clock(accounts, raffle_id, count, clock)
}

/// The draw mixes the price feed's aggregate price with the time; both are
/// read as unsigned 64-bit numbers.
pub open spec fn draw_fits(pyth_price: i64, now: i64, ticket_count: u32) -> bool {
    ticket_count > 0 && (pyth_price as u64) + (now as u64) <= u64::MAX
}

/// The draw: `(price + now) mod ticket_count`, a number below `ticket_count`.
pub open spec fn spec_draw(pyth_price: i64, now: i64, ticket_count: u32) -> u32 {
    ((((pyth_price as u64) + (now as u64)) as u64) % (ticket_count as u64)) as u32
}

fn draw(pyth_price: i64, now: i64, ticket_count: u32) -> (r: u32)
    requires
        draw_fits(pyth_price, now, ticket_count),
    ensures
        r == spec_draw(pyth_price, now, ticket_count),
        r < ticket_count,
{
    let c: u64 = (pyth_price as u64) + (now as u64);
    let r: u64 = c % (ticket_count as u64);
    r as u32
}

/// The raffle after the draw from the price `pyth_price` at time `now`: the
/// winning ticket is the draw plus one, and the raffle is closed.
pub open spec fn spec_finish_raffle(a: FinishRaffle, pyth_price: i64, now: i64) -> FinishRaffle {
    FinishRaffle {
        raffle: Raffle {
            win_ticket_num: (spec_draw(pyth_price, now, a.raffle.ticket_count) + 1) as u32,
            closed: 1,
            ..a.raffle
        },
        ..a
    }
}

/// Draws the winning ticket of a raffle from the price `pyth_price` at the
/// time `now`, without the accounts and access checks of `finish_raffle`.
pub fn finish_raffle_unchecked_at(accounts: &mut FinishRaffle, raffle_id: u32, pyth_price: i64, now: i64)
    requires
        draw_fits(pyth_price, now, old(accounts).raffle.ticket_count),
    ensures
        *final(accounts) == spec_finish_raffle(*old(accounts), pyth_price, now),
        1 <= final(accounts).raffle.win_ticket_num <= final(accounts).raffle.ticket_count,
{
    let r = draw(pyth_price, now, accounts.raffle.ticket_count);
    accounts.raffle.win_ticket_num = r + 1;
    accounts.raffle.closed = 1;
}

/// The raffle after a draw from the price `pyth_price` with the clock reading
/// `clock`: drawn where the clock was read and the draw fits, untouched otherwise.
pub open spec fn spec_finish_raffle_with_clock(a: FinishRaffle, pyth_price: i64, clock: Result<i64, ProgramError>) -> (bool, FinishRaffle) {
    match clock {
        Ok(now) => if draw_fits(pyth_price, now, a.raffle.ticket_count) {
            (true, spec_finish_raffle(a, pyth_price, now))
        } else {
            (false, a)
        },
        Err(_) => (false, a),
    }
}

/// Draws the winning ticket of a raffle from the price `pyth_price` with the
/// clock reading `clock`, without the accounts and access checks of
/// `finish_raffle`. Returns `false`, and changes nothing, where the clock
/// could not be read or the draw does not fit (no tickets, or the price and
/// the time overflow together).
pub fn finish_raffle_unchecked_with_clock(
    accounts: &mut FinishRaffle,
    raffle_id: u32,
    pyth_price: i64,
    clock: Result<i64, ProgramError>,
) -> (r: bool)
    ensures
        (r, *final(accounts)) == spec_finish_raffle_with_clock(*old(accounts), pyth_price, clock),
{
    match clock {
        Ok(now) => {
            if accounts.raffle.ticket_count == 0 {
                return false;
            }
            if (pyth_price as u64) > u64::MAX - (now as u64) {
                return false;
            }
            finish_raffle_unchecked_at(accounts, raffle_id, pyth_price, now);
            true
        },
        Err(_) => false,
    }
}

/// Draws a number below `ticket_count` from the price `pyth_price` and the time `now`.
pub fn gen_wl_winners_at(pyth_price: i64, ticket_count: u32, now: i64) -> (r: u32)
    requires
        draw_fits(pyth_price, now, ticket_count),
    ensures
        r == spec_draw(pyth_price, now, ticket_count),
        r < ticket_count,
{
    draw(pyth_price, now, ticket_count)
}

/// The draw with the clock reading `clock`: a number below `ticket_count`
/// where the clock was read and the draw fits, `None` otherwise.
pub open spec fn spec_gen_wl_winners_with_clock(pyth_price: i64, ticket_count: u32, clock: Result<i64, ProgramError>) -> Option<u32> {
    match clock {
        Ok(now) => if draw_fits(pyth_price, now, ticket_count) {
            Some(spec_draw(pyth_price, now, ticket_count))
        } else {
            None
        },
        Err(_) => None,
    }
}

/// Draws a number below `ticket_count` from the price `pyth_price` and the
/// clock reading `clock`; `None` where the clock could not be read or the
/// draw does not fit.
pub fn gen_wl_winners_with_clock(pyth_price: i64, ticket_count: u32, clock: Result<i64, ProgramError>) -> (r: Option<u32>)
    ensures
        r == spec_gen_wl_winners_with_clock(pyth_price, ticket_count, clock),
        r matches Some(w) ==> w < ticket_count,
{
    match clock {
        Ok(now) => {
            if ticket_count == 0 {
                return None;
            }
            if (pyth_price as u64) > u64::MAX - (now as u64) {
                return None;
            }
            Some(gen_wl_winners_at(pyth_price, ticket_count, now))
        },
        Err(_) => None,
    }
}

/// The instruction `gen_wl_winners`: reads the aggregate price from the price
/// feed account's data and draws a number below `ticket_count` with the
/// cluster's clock, as `gen_wl_winners_with_clock` does for whatever price
/// and clock reading came back. `None` where the data is too short to hold a
/// price record, the clock cannot be read or the draw does not fit.
pub fn gen_wl_winners(accounts: &GenWlWinners, ticket_count: u32) -> (r: Option<u32>)
    ensures
        accounts.pyth_data@.len() < PYTH_PRICE_DATA_MIN ==> r is None,
        accounts.pyth_data@.len() >= PYTH_PRICE_DATA_MIN ==> exists|pyth_price: i64, clock: Result<i64, ProgramError>|
            r == #[trigger] spec_gen_wl_winners_with_clock(pyth_price, ticket_count, clock),
        r matches Some(w) ==> w < ticket_count,
        ticket_count == 0 ==> r is None,
{
    if accounts.pyth_data.len() < PYTH_PRICE_DATA_MIN {
        return None;
    }
    let pyth_price = pyth_aggregate_price(accounts.pyth_data.as_slice());
    let clock = clock_unix_timestamp();
    gen_wl_winners_with_clock(pyth_price, ticket_count, clock)
}

/// A claim: where the reward vault holds tokens, one is moved to the winner's
/// account with the program signing for the vault, and the raffle is marked
/// claimed; an empty vault leaves everything as it is.
pub open spec fn spec_claim_rewards(a: ClaimRewards, bump: u8) -> (ClaimRewards, Seq<TokenTransfer>) {
    if a.reward_vault.amount > 0 {
        (
            ClaimRewards { raffle: Raffle { claimed: 1, ..a.raffle }, ..a },
            seq![TokenTransfer {
                from: a.reward_vault.key,
                to: a.reward_to_account,
                authority: a.global_state_key,
                signer_bump: Some(bump),
                amount: 1,
            }],
        )
    } else {
        (a, Seq::empty())
    }
}

/// Pays out the reward of a raffle, the program signing with `bump`, without
/// the accounts check of `claim_rewards` that admits only the winner.
pub fn claim_rewards_unchecked_with_bump(accounts: &mut ClaimRewards, raffle_id: u32, bump: u8) -> (r: Vec<TokenTransfer>)
    ensures
        (*final(accounts), r@) == spec_claim_rewards(*old(accounts), bump),
{
    let mut transfers: Vec<TokenTransfer> = Vec::new();
    if accounts.reward_vault.amount > 0 {
        transfers.push(TokenTransfer {
            from: accounts.reward_vault.key,
            to: accounts.reward_to_account,
            authority: accounts.global_state_key,
            signer_bump: Some(bump),
            amount: 1,
        });
        accounts.raffle.claimed = 1;
    }
    transfers
}

/// Pays out the reward of a raffle: the body of `claim_rewards`, without its
/// accounts check that admits only the winner. `None`, with nothing changed,
/// where the vault holds tokens but the program's signing address cannot be
/// derived for `program_id`.
pub fn claim_rewards_unchecked(accounts: &mut ClaimRewards, program_id: &Pubkey, raffle_id: u32) -> (r: Option<Vec<TokenTransfer>>)
    ensures
        r is None <==> (old(accounts).reward_vault.amount > 0 && global_state_bump(*program_id) is None),
        r is None ==> *final(accounts) == *old(accounts),
        r matches Some(v) ==> (*final(accounts), v@) == spec_claim_rewards(
            *old(accounts),
            match global_state_bump(*program_id) { Some(b) => b, None => 0u8 },
        ),
{
    if accounts.reward_vault.amount == 0 {
        return Some(claim_rewards_unchecked_with_bump(accounts, raffle_id, 0));
    }
    match find_global_state_bump(program_id) {
        Some(bump) => Some(claim_rewards_unchecked_with_bump(accounts, raffle_id, bump)),
        None => None,
    }
}

/// Moves `amount` tokens between two token accounts on the owner's signature,
/// without the accounts check of `deposit_reward`.
pub fn deposit_reward_unchecked(accounts: &DepositReward, amount: u64) -> (r: TokenTransfer)
    ensures
        r == (TokenTransfer {
            from: accounts.source_account.key,
            to: accounts.dest_account.key,
            authority: accounts.owner,
            signer_bump: None,
            amount: amount,
        }),
{
    TokenTransfer {
        from: accounts.source_account.key,
        to: accounts.dest_account.key,
        authority: accounts.owner,
        signer_bump: None,
        amount: amount,
    }
}

/// Whether the accounts check and then the access check of an instruction
/// pass: `None` where an address cannot be derived, else the first refusal.
pub open spec fn spec_gate(constraints: Option<Result<(), Error>>, access: Result<(), Error>) -> Option<Result<(), Error>> {
    then_check(constraints, Some(access))
}

/// The instruction `create_raffle`: the accounts check, the administrator
/// check, then the listing. A refused instruction changes nothing and asks
/// for no transfer.
pub fn create_raffle(
    accounts: &mut CreateRaffle,
    raffle_id: u32,
    ticket_count: u32,
    ticket_price: u64,
    start_time: i64,
    end_time: i64,
    project_name: String,
    project_description: String,
    discord_link: String,
    twitter_link: String,
    wl_spot: u32,
    image: String,
) -> (r: Result<TokenTransfer, Error>)
    requires
        old(accounts).global_state.admin == old(accounts).admin ==> old(accounts).global_state.raffle_count < u32::MAX,
    ensures
        match r {
            Ok(t) => spec_gate(Some(old(accounts).spec_constraints()),
                    spec_is_admin(old(accounts).global_state, old(accounts).admin)) == Some(Ok::<(), Error>(()))
                && (*final(accounts), t) == spec_create_raffle(*old(accounts), raffle_id, (Listing {
                    ticket_count, ticket_price, start_time, end_time, project_name, project_description,
                    discord_link, twitter_link, wl_spot, image,
                })),
            Err(e) => spec_gate(Some(old(accounts).spec_constraints()),
                    spec_is_admin(old(accounts).global_state, old(accounts).admin)) == Some(Err::<(), Error>(e))
                && *final(accounts) == *old(accounts),
        },
        r is Ok ==> final(accounts).raffle.ticket_count == ticket_count,
        r is Ok ==> final(accounts).raffle.ticket_price == ticket_price,
        r is Ok ==> final(accounts).raffle.start_time == start_time,
        r is Ok ==> final(accounts).raffle.end_time == end_time,
        r is Ok ==> final(accounts).raffle.project_name == project_name,
        r is Ok ==> final(accounts).raffle.project_description == project_description,
        r is Ok ==> final(accounts).raffle.discord_link == discord_link,
        r is Ok ==> final(accounts).raffle.twitter_link == twitter_link,
        r is Ok ==> final(accounts).raffle.wl_spot == wl_spot,
        r is Ok ==> final(accounts).raffle.image == image,
        r is Ok ==> final(accounts).raffle.reward_mint == old(accounts).reward_mint,
        r is Ok ==> final(accounts).raffle.raffle_id == raffle_id,
        r is Ok ==> final(accounts).raffle.sold_tickets == 0,
        r is Ok ==> final(accounts).global_state.raffle_count == old(accounts).global_state.raffle_count + 1,
        r is Ok <==> old(accounts).global_state.admin == old(accounts).admin,
{
    accounts.check_constraints()?;
    is_admin(&accounts.global_state, &accounts.admin)?;
    Ok(create_raffle_unchecked(
        accounts, raffle_id, ticket_count, ticket_price, start_time, end_time, project_name, project_description,
        discord_link, twitter_link, wl_spot, image,
    ))
}

/// The instruction `set_raffle`: the accounts check, the administrator check,
/// then the new listing. `None`, with nothing changed, where the raffle's
/// address cannot be derived; a refused instruction changes nothing.
pub fn set_raffle(
    accounts: &mut SetRaffle,
    program_id: &Pubkey,
    raffle_id: u32,
    ticket_count: u32,
    ticket_price: u64,
    start_time: i64,
    end_time: i64,
    reward_mint: Pubkey,
    project_name: String,
    project_description: String,
    discord_link: String,
    twitter_link: String,
    wl_spot: u32,
    image: String,
) -> (r: Option<Result<(), Error>>)
    ensures
        r == spec_gate(old(accounts).spec_constraints(*program_id, raffle_id),
            spec_is_admin(old(accounts).global_state, old(accounts).admin)),
        r == Some(Ok::<(), Error>(())) ==> *final(accounts) == (SetRaffle {
            raffle: with_listing(old(accounts).raffle, (Listing {
                ticket_count, ticket_price, start_time, end_time, project_name, project_description,
                discord_link, twitter_link, wl_spot, image,
            }), reward_mint),
            ..*old(accounts)
        }),
        r != Some(Ok::<(), Error>(())) ==> *final(accounts) == *old(accounts),
        r == Some(Ok::<(), Error>(())) ==> final(accounts).raffle.ticket_count == ticket_count,
        r == Some(Ok::<(), Error>(())) ==> final(accounts).raffle.ticket_price == ticket_price,
        r == Some(Ok::<(), Error>(())) ==> final(accounts).raffle.start_time == start_time,
        r == Some(Ok::<(), Error>(())) ==> final(accounts).raffle.end_time == end_time,
        r == Some(Ok::<(), Error>(())) ==> final(accounts).raffle.project_name == project_name,
        r == Some(Ok::<(), Error>(())) ==> final(accounts).raffle.project_description == project_description,
        r == Some(Ok::<(), Error>(())) ==> final(accounts).raffle.discord_link == discord_link,
        r == Some(Ok::<(), Error>(())) ==> final(accounts).raffle.twitter_link == twitter_link,
        r == Some(Ok::<(), Error>(())) ==> final(accounts).raffle.wl_spot == wl_spot,
        r == Some(Ok::<(), Error>(())) ==> final(accounts).raffle.image == image,
        r == Some(Ok::<(), Error>(())) ==> final(accounts).raffle.reward_mint == reward_mint,
{
    match accounts.check_constraints(program_id, raffle_id) {
        Some(Ok(())) => {},
        other => return other,
    }
    if let Err(e) = is_admin(&accounts.global_state, &accounts.admin) {
        return Some(Err(e));
    }
    set_raffle_unchecked(
        accounts, raffle_id, ticket_count, ticket_price, start_time, end_time, reward_mint, project_name,
        project_description, discord_link, twitter_link, wl_spot, image,
    );
    Some(Ok(()))
}

/// The instruction `delete_raffle`: the accounts check, the administrator
/// check, then the count. `None`, with nothing changed, where the raffle's
/// address cannot be derived; a refused instruction changes nothing.
pub fn delete_raffle(accounts: &mut DeleteRaffle, program_id: &Pubkey, raffle_id: u32) -> (r: Option<Result<(), Error>>)
    requires
        old(accounts).global_state.admin == old(accounts).admin ==> old(accounts).global_state.raffle_count > 0,
    ensures
        r == spec_gate(old(accounts).spec_constraints(*program_id, raffle_id),
            spec_is_admin(old(accounts).global_state, old(accounts).admin)),
        r == Some(Ok::<(), Error>(())) ==> *final(accounts) == spec_delete_raffle(*old(accounts)),
        r != Some(Ok::<(), Error>(())) ==> *final(accounts) == *old(accounts),
{
    match accounts.check_constraints(program_id, raffle_id) {
        Some(Ok(())) => {},
        other => return other,
    }
    if let Err(e) = is_admin(&accounts.global_state, &accounts.admin) {
        return Some(Err(e));
    }
    delete_raffle_unchecked(accounts);
    Some(Ok(()))
}

/// The instruction `finish_raffle`: the accounts check, the administrator
/// check, then the draw from the price feed account's aggregate price and
/// the cluster's clock, as `finish_raffle_unchecked_with_clock` makes it for
/// whatever price and clock reading came back. `None`, with nothing changed,
/// where the raffle's address cannot be derived, the feed data is too short
/// to hold a price record, or the draw cannot be made; a refused instruction
/// changes nothing.
pub fn finish_raffle(accounts: &mut FinishRaffle, program_id: &Pubkey, raffle_id: u32) -> (r: Option<Result<(), Error>>)
    ensures
        match r {
            None => *final(accounts) == *old(accounts) && (
                spec_gate(old(accounts).spec_constraints(*program_id, raffle_id),
                    spec_is_admin(old(accounts).global_state, old(accounts).admin)) is None
                || (spec_gate(old(accounts).spec_constraints(*program_id, raffle_id),
                    spec_is_admin(old(accounts).global_state, old(accounts).admin)) == Some(Ok::<(), Error>(()))
                    && (old(accounts).pyth_data@.len() < PYTH_PRICE_DATA_MIN
                        || exists|pyth_price: i64, clock: Result<i64, ProgramError>|
                            (false, *old(accounts)) == #[trigger] spec_finish_raffle_with_clock(*old(accounts), pyth_price, clock)))),
            Some(Ok(())) => spec_gate(old(accounts).spec_constraints(*program_id, raffle_id),
                    spec_is_admin(old(accounts).global_state, old(accounts).admin)) == Some(Ok::<(), Error>(()))
                && old(accounts).pyth_data@.len() >= PYTH_PRICE_DATA_MIN
                && exists|pyth_price: i64, clock: Result<i64, ProgramError>|
                    (true, *final(accounts)) == #[trigger] spec_finish_raffle_with_clock(*old(accounts), pyth_price, clock),
            Some(Err(e)) => spec_gate(old(accounts).spec_constraints(*program_id, raffle_id),
                    spec_is_admin(old(accounts).global_state, old(accounts).admin)) == Some(Err::<(), Error>(e))
                && *final(accounts) == *old(accounts),
        },
        r matches Some(Ok(_)) ==> 1 <= final(accounts).raffle.win_ticket_num <= final(accounts).raffle.ticket_count,
        old(accounts).raffle.ticket_count == 0 ==> !(r matches Some(Ok(_))),
{
    match accounts.check_constraints(program_id, raffle_id) {
        Some(Ok(())) => {},
        other => return other,
    }
    if let Err(e) = is_admin(&accounts.global_state, &accounts.admin) {
        return Some(Err(e));
    }
    if accounts.pyth_data.len() < PYTH_PRICE_DATA_MIN {
        return None;
    }
    let pyth_price = pyth_aggregate_price(accounts.pyth_data.as_slice());
    let clock = clock_unix_timestamp();
    if finish_raffle_unchecked_with_clock(accounts, raffle_id, pyth_price, clock) {
        Some(Ok(()))
    } else {
        None
    }
}

/// The instruction `buy_ticket`: the accounts check, then the purchase with
/// the cluster's clock. `None`, with nothing changed, where an address cannot
/// be derived; a refused instruction changes nothing.
pub fn buy_ticket(accounts: &mut BuyTicket, program_id: &Pubkey, raffle_id: u32, count: u32) -> (r: Option<Result<TokenTransfer, Error>>)
    requires
        old(accounts).spec_constraints(*program_id, raffle_id) == Some(Ok::<(), Error>(()))
            ==> purchase_fits(*old(accounts), count),
    ensures
        match r {
            None => old(accounts).spec_constraints(*program_id, raffle_id) is None && *final(accounts) == *old(accounts),
            Some(Ok(t)) => old(accounts).spec_constraints(*program_id, raffle_id) == Some(Ok::<(), Error>(()))
                && spec_buy_ticket(*old(accounts), raffle_id, count, final(accounts).buyer_state.sold_time)
                    == Ok::<(BuyTicket, TokenTransfer), Error>((*final(accounts), t)),
            Some(Err(e)) => *final(accounts) == *old(accounts) && (
                old(accounts).spec_constraints(*program_id, raffle_id) == Some(Err::<(), Error>(e))
                || (old(accounts).spec_constraints(*program_id, raffle_id) == Some(Ok::<(), Error>(())) && (
                    spec_buy_ticket(*old(accounts), raffle_id, count, 0) == Err::<(BuyTicket, TokenTransfer), Error>(e)
                    || (e == Error::ClockUnavailable && spec_buy_ticket(*old(accounts), raffle_id, count, 0) is Ok)))),
        },
        old(accounts).raffle.sold_tickets <= old(accounts).raffle.ticket_count
            ==> final(accounts).raffle.sold_tickets <= final(accounts).raffle.ticket_count,
        final(accounts).raffle.ticket_count == old(accounts).raffle.ticket_count,        r matches Some(res) ==> old(accounts).spec_constraints(*program_id, raffle_id) == Some(Ok::<(), Error>(()))
            ==> exists|clock: Result<i64, ProgramError>| match res {
                Ok(t) => #[trigger] spec_buy_ticket_with_clock(*old(accounts), raffle_id, count, clock)
                    == Ok::<(BuyTicket, TokenTransfer), Error>((*final(accounts), t)),
                Err(e) => spec_buy_ticket_with_clock(*old(accounts), raffle_id, count, clock)
                    == Err::<(BuyTicket, TokenTransfer), Error>(e),
            },
{
    match accounts.check_constraints(program_id, raffle_id) {
        Some(Ok(())) => {},
        Some(Err(e)) => return Some(Err(e)),
        None => return None,
    }
    Some(buy_ticket_unchecked(accounts, raffle_id, count))
}

/// The instruction `claim_rewards`: the accounts check, then the payout.
/// `None`, with nothing changed, where an address cannot be derived; a
/// refused instruction changes nothing.
pub fn claim_rewards(accounts: &mut ClaimRewards, program_id: &Pubkey, raffle_id: u32) -> (r: Option<Result<Vec<TokenTransfer>, Error>>)
    ensures
        match r {
            None => *final(accounts) == *old(accounts) && (
                old(accounts).spec_constraints(*program_id, raffle_id) is None
                || (old(accounts).spec_constraints(*program_id, raffle_id) == Some(Ok::<(), Error>(()))
                    && old(accounts).reward_vault.amount > 0 && global_state_bump(*program_id) is None)),
            Some(Ok(v)) => old(accounts).spec_constraints(*program_id, raffle_id) == Some(Ok::<(), Error>(()))
                && (*final(accounts), v@) == spec_claim_rewards(
                    *old(accounts),
                    match global_state_bump(*program_id) { Some(b) => b, None => 0u8 },
                ),
            Some(Err(e)) => old(accounts).spec_constraints(*program_id, raffle_id) == Some(Err::<(), Error>(e))
                && *final(accounts) == *old(accounts),
        },
{
    match accounts.check_constraints(program_id, raffle_id) {
        Some(Ok(())) => {},
        Some(Err(e)) => return Some(Err(e)),
        None => return None,
    }
    match claim_rewards_unchecked(accounts, program_id, raffle_id) {
        Some(v) => Some(Ok(v)),
        None => None,
    }
}

/// The instruction `deposit_reward`: the accounts check, then the transfer.
pub fn deposit_reward(accounts: &DepositReward, amount: u64) -> (r: Result<TokenTransfer, Error>)
    ensures
        match r {
            Ok(t) => accounts.spec_constraints() == Ok::<(), Error>(()) && t == (TokenTransfer {
                from: accounts.source_account.key,
                to: accounts.dest_account.key,
                authority: accounts.owner,
                signer_bump: None,
                amount: amount,
            }),
            Err(e) => accounts.spec_constraints() == Err::<(), Error>(e),
        },
{
    accounts.check_constraints()?;
    Ok(deposit_reward_unchecked(accounts, amount))
}

} // verus!
