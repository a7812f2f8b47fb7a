//! What every operation keeps, and what calls in a row do.
use vstd::prelude::*;
use crate::accounts::{
    raw, spec_is_admin, Bid, BuyTicket, ClaimRewards, CreateAuction, CreateRaffle,
    DeleteAuction, DeleteRaffle, FinishRaffle, SetRaffle,
};
use crate::auction::{spec_bid, spec_create_auction, spec_finish_auction};
use crate::error::{Error, RaffleError};
use crate::pubkey::Pubkey;
use crate::raffle::{
    draw_fits, purchase_fits, spec_buy_ticket, spec_buy_ticket_with_clock, spec_claim_rewards, spec_create_raffle,
    spec_draw, spec_finish_raffle, spec_finish_raffle_with_clock, spec_gen_wl_winners_with_clock, spec_initialize, with_listing, Listing,
};
use crate::accounts::{derived_at, Initialize};
use crate::address::auction_seeds;
use anchor_lang::solana_program::program_error::ProgramError;
use crate::accounts::FinishAuction;
use crate::state::{Auction, GlobalState, Raffle, TokenTransfer};

verus! {

/// A raffle never sells more tickets than it has: after any purchase that is
/// not refused, the tickets sold are at most the ticket count.
pub proof fn sales_stay_within_ticket_count(a: BuyTicket, raffle_id: u32, count: u32, now: i64)
    ensures
        spec_buy_ticket(a, raffle_id, count, now) matches Ok((b, _))
            ==> b.raffle.sold_tickets <= b.raffle.ticket_count,
{
}

/// Tickets are never oversold: from a raffle that has not sold more tickets
/// than it has, a purchase, taken or refused, leaves the ticket count as it
/// is and the tickets sold within it.
pub proof fn tickets_never_oversold(a: BuyTicket, raffle_id: u32, count: u32, now: i64)
    requires
        a.raffle.sold_tickets <= a.raffle.ticket_count,
    ensures
        ({
            let after = match spec_buy_ticket(a, raffle_id, count, now) {
                Ok((b, _)) => b.raffle,
                Err(_) => a.raffle,
            };
            &&& after.sold_tickets <= after.ticket_count
            &&& after.ticket_count == a.raffle.ticket_count
        }),
{
}

/// A purchase is refused exactly when fewer than `count` tickets are left, and
/// then nothing changes.
pub proof fn purchase_refused_iff_sold_out(a: BuyTicket, raffle_id: u32, count: u32, now: i64)
    ensures
        spec_buy_ticket(a, raffle_id, count, now) is Err
            <==> a.raffle.sold_tickets + count > a.raffle.ticket_count,
        spec_buy_ticket(a, raffle_id, count, now) is Err ==> spec_buy_ticket(a, raffle_id, count, now)
            == Err::<(BuyTicket, TokenTransfer), Error>(Error::Raffle(RaffleError::InsufficientTickets)),
{
}

/// A purchase of `count` tickets takes the next `count` ticket numbers, adds
/// `count` to the tickets sold, and costs `count` times the ticket price.
pub proof fn purchase_takes_next_numbers(a: BuyTicket, raffle_id: u32, count: u32, now: i64)
    requires
        purchase_fits(a, count),
    ensures
        spec_buy_ticket(a, raffle_id, count, now) matches Ok((b, t)) ==> {
            &&& b.buyer_state.ticket_num_start == a.raffle.sold_tickets + 1
            &&& b.buyer_state.ticket_num_end == a.raffle.sold_tickets + count
            &&& b.buyer_state.ticket_num_end - b.buyer_state.ticket_num_start + 1 == count
            &&& b.raffle.sold_tickets == a.raffle.sold_tickets + count
            &&& t.amount == a.raffle.ticket_price * count
            &&& b.buyer_state.buyer == a.user
        },
{
}

/// Two purchases in a row from the same raffle get adjacent ranges of ticket
/// numbers: the second starts right after the first ends, so no ticket is
/// sold twice.
pub proof fn consecutive_purchases_are_disjoint(
    a: BuyTicket,
    raffle_id: u32,
    count1: u32,
    now1: i64,
    next: BuyTicket,
    count2: u32,
    now2: i64,
)
    requires
        purchase_fits(a, count1),
        spec_buy_ticket(a, raffle_id, count1, now1) is Ok,
        next.raffle == spec_buy_ticket(a, raffle_id, count1, now1)->Ok_0.0.raffle,
        purchase_fits(next, count2),
        spec_buy_ticket(next, raffle_id, count2, now2) is Ok,
    ensures
        ({
            let first = spec_buy_ticket(a, raffle_id, count1, now1)->Ok_0.0.buyer_state;
            let second = spec_buy_ticket(next, raffle_id, count2, now2)->Ok_0.0.buyer_state;
            second.ticket_num_start == first.ticket_num_end + 1
        }),
{
}

/// The winning ticket of a finished raffle is one of its tickets,
/// `1..=ticket_count`, and the raffle is closed.
pub proof fn winning_ticket_is_a_ticket(a: FinishRaffle, pyth_price: i64, now: i64)
    requires
        draw_fits(pyth_price, now, a.raffle.ticket_count),
    ensures
        1 <= spec_finish_raffle(a, pyth_price, now).raffle.win_ticket_num <= a.raffle.ticket_count,
        spec_finish_raffle(a, pyth_price, now).raffle.closed == 1,
        spec_finish_raffle(a, pyth_price, now).raffle.ticket_count == a.raffle.ticket_count,
{
}

/// A draw is always below the number it draws from.
pub proof fn draw_is_below_count(pyth_price: i64, now: i64, ticket_count: u32)
    requires
        draw_fits(pyth_price, now, ticket_count),
    ensures
        spec_draw(pyth_price, now, ticket_count) < ticket_count,
{
}

/// Editing a raffle keeps its id, its sales, its draw and its claim.
pub proof fn editing_keeps_sales(raffle: Raffle, listing: Listing, reward_mint: Pubkey)
    ensures
        ({
            let edited = with_listing(raffle, listing, reward_mint);
            &&& edited.raffle_id == raffle.raffle_id
            &&& edited.sold_tickets == raffle.sold_tickets
            &&& edited.win_ticket_num == raffle.win_ticket_num
            &&& edited.closed == raffle.closed
            &&& edited.claimed == raffle.claimed
        }),
{
}

/// Deleting a raffle undoes the count that creating it added.
pub proof fn delete_raffle_undoes_create(a: CreateRaffle, raffle_id: u32, listing: Listing, d: DeleteRaffle)
    requires
        a.global_state.raffle_count < u32::MAX,
        d.global_state == spec_create_raffle(a, raffle_id, listing).0.global_state,
    ensures
        d.global_state.raffle_count > 0,
        (GlobalState { raffle_count: (d.global_state.raffle_count - 1) as u32, ..d.global_state })
            == a.global_state,
{
}

/// Deleting an auction undoes the count that creating it added.
pub proof fn delete_auction_undoes_create(
    a: CreateAuction,
    auction_id: u32,
    seller: Pubkey,
    nft_mint: Pubkey,
    min_bid_amount: u32,
    start_time: i64,
    end_time: i64,
    start_price: u64,
    d: DeleteAuction,
)
    requires
        a.global_state.auction_count < u32::MAX,
        d.global_state == spec_create_auction(
            a, auction_id, seller, nft_mint, min_bid_amount, start_time, end_time, start_price).global_state,
    ensures
        d.global_state.auction_count > 0,
        (GlobalState { auction_count: (d.global_state.auction_count - 1) as u32, ..d.global_state })
            == a.global_state,
{
}

/// Only the administrator recorded in the global state passes the accounts
/// check of the administrator's instructions and their access check; anyone
/// else is refused by the administrator constraint before anything else.
pub proof fn only_admin_manages(
    create: CreateRaffle,
    set: SetRaffle,
    delete: DeleteRaffle,
    finish: FinishRaffle,
    create_auction: CreateAuction,
    delete_auction: DeleteAuction,
    global_state: GlobalState,
    signer: Pubkey,
    program_id: Pubkey,
    id: u32,
)
    ensures
        create.spec_constraints() is Ok <==> create.global_state.admin == create.admin,
        create_auction.spec_constraints() is Ok <==> create_auction.global_state.admin == create_auction.admin,
        set.spec_constraints(program_id, id) matches Some(Ok(_)) ==> set.global_state.admin == set.admin,
        set.global_state.admin != set.admin ==> set.spec_constraints(program_id, id) == Some(Err::<(), Error>(raw())),
        delete.spec_constraints(program_id, id) matches Some(Ok(_)) ==> delete.global_state.admin == delete.admin,
        delete.global_state.admin != delete.admin
            ==> delete.spec_constraints(program_id, id) == Some(Err::<(), Error>(raw())),
        finish.spec_constraints(program_id, id) matches Some(Ok(_)) ==> finish.global_state.admin == finish.admin,
        finish.global_state.admin != finish.admin
            ==> finish.spec_constraints(program_id, id) == Some(Err::<(), Error>(raw())),
        delete_auction.spec_constraints(program_id, id) matches Some(Ok(_))
            ==> delete_auction.global_state.admin == delete_auction.admin,
        delete_auction.global_state.admin != delete_auction.admin
            ==> delete_auction.spec_constraints(program_id, id) == Some(Err::<(), Error>(raw())),
        spec_is_admin(global_state, signer) is Ok <==> global_state.admin == signer,
{
}

/// Only the buyer of the winning ticket may claim, and a reward is paid out
/// at most once: after a paying claim, every claim on that raffle is refused.
pub proof fn reward_is_claimed_once(c: ClaimRewards, bump: u8, later: ClaimRewards, program_id: Pubkey, raffle_id: u32)
    requires
        c.reward_vault.amount > 0,
        later.raffle == spec_claim_rewards(c, bump).0.raffle,
    ensures
        c.spec_constraints(program_id, raffle_id) matches Some(Ok(_))
            ==> c.user == c.buyer_state.buyer && c.holds_winning_ticket(),
        later.spec_claim_checks() == Err::<(), Error>(raw()),
        later.spec_constraints(program_id, raffle_id) != Some(Ok::<(), Error>(())),
        spec_claim_rewards(c, bump).1.len() == 1,
        spec_claim_rewards(c, bump).1[0].amount == 1,
        spec_claim_rewards(c, bump).1[0].to == c.reward_to_account,
        spec_claim_rewards(c, bump).1[0].from == c.reward_vault.key,
        spec_claim_rewards(c, bump).1[0].authority == c.global_state_key,
        spec_claim_rewards(c, bump).1[0].signer_bump == Some(bump),
        spec_claim_rewards(c, bump).0.raffle.claimed == 1,
        spec_claim_rewards(c, bump).0.raffle.win_ticket_num == c.raffle.win_ticket_num,
{
}

/// A bid that is not refused raises the price strictly, makes the signer the
/// bidder, and refunds the previous bid, in full, to the account that paid it.
pub proof fn bid_outbids_and_refunds(a: Bid, price: u64, bump: u8)
    requires
        a.spec_bid_checks() is Ok,
    ensures
        spec_bid(a, price, bump) is Err <==> price <= a.auction.price,
        spec_bid(a, price, bump) matches Ok((b, ts)) ==> {
            &&& b.auction.price == price
            &&& b.auction.price > a.auction.price
            &&& b.auction.bidder == a.user
            &&& b.auction.refund_receiver == a.from
            &&& ts.last().amount == price
            &&& ts.last().to == a.vault.key
            &&& ts.last().from == a.from
            &&& ts.last().authority == a.user
            &&& ts.last().signer_bump is None
            &&& (a.auction.refund_receiver.is_default() ==> ts.len() == 1)
            &&& (!a.auction.refund_receiver.is_default() ==> {
                &&& ts.len() == 2
                &&& ts[0].to == a.auction.refund_receiver
                &&& ts[0].amount == a.auction.price
                &&& ts[0].from == a.vault.key
                &&& ts[0].authority == a.global_state_key
                &&& ts[0].signer_bump == Some(bump)
            })
        },
{
}

/// Settlement pays out to the highest bidder: where the accounts check
/// passes, the whole balance of the holding account, which holds the
/// auction's bid mint, goes, with the program signing, to an account of the
/// highest bidder.
pub proof fn settlement_pays_the_bidder(f: FinishAuction, bump: u8)
    requires
        f.spec_settle_checks() is Ok,
    ensures
        f.nft_holder.mint == f.auction.bid_mint,
        f.nft_receiver.owner == f.auction.bidder,
        ({
            let t = spec_finish_auction(f, bump).1;
            &&& t.from == f.nft_holder.key
            &&& t.to == f.nft_receiver.key
            &&& t.amount == f.nft_holder.amount
            &&& t.signer_bump == Some(bump)
        }),
{
}

/// A settled auction takes no more bids.
pub proof fn settled_auction_takes_no_bids(f: FinishAuction, bump: u8, later: Bid, program_id: Pubkey, auction_id: u32)
    requires
        later.auction == spec_finish_auction(f, bump).0.auction,
    ensures
        later.spec_bid_checks() == Err::<(), Error>(raw()),
        later.spec_constraints(program_id, auction_id) != Some(Ok::<(), Error>(())),
{
}

/// The tokens that `transfers` move into `vault`, less those they move out of it.
pub open spec fn vault_net(transfers: Seq<TokenTransfer>, vault: Pubkey) -> int
    decreases transfers.len(),
{
    if transfers.len() == 0 {
        0
    } else {
        let t = transfers.last();
        vault_net(transfers.drop_last(), vault)
            + (if t.to == vault { t.amount as int } else { 0 })
            - (if t.from == vault { t.amount as int } else { 0 })
    }
}

/// What an auction's vault should hold for it: the leading bid, or nothing
/// where no bid was taken yet.
pub open spec fn escrowed(auction: Auction) -> int {
    if auction.refund_receiver.is_default() { 0 } else { auction.price as int }
}

/// A bid request: the bidder, the account it pays from, and its price.
pub struct BidRequest {
    pub user: Pubkey,
    pub from: Pubkey,
    pub price: u64,
}

/// The auction, and all transfers asked for, after the bids `requests` are
/// placed one after the other on the accounts `template`, each against the
/// auction as the previous bids left it and refunding its current refund
/// receiver (as the accounts check demands); refused bids change nothing.
pub open spec fn run_bids(template: Bid, requests: Seq<BidRequest>, bump: u8) -> (Auction, Seq<TokenTransfer>)
    decreases requests.len(),
{
    if requests.len() == 0 {
        (template.auction, Seq::empty())
    } else {
        let (auction, transfers) = run_bids(template, requests.drop_last(), bump);
        let request = requests.last();
        let accounts = Bid {
            user: request.user,
            from: request.from,
            auction: auction,
            ori_refund_receiver: auction.refund_receiver,
            ..template
        };
        match spec_bid(accounts, request.price, bump) {
            Ok((after, more)) => (after.auction, transfers + more),
            Err(_) => (auction, transfers),
        }
    }
}

proof fn vault_net_append(first: Seq<TokenTransfer>, second: Seq<TokenTransfer>, vault: Pubkey)
    ensures
        vault_net(first + second, vault) == vault_net(first, vault) + vault_net(second, vault),
    decreases second.len(),
{
    if second.len() == 0 {
        assert(first + second =~= first);
    } else {
        vault_net_append(first, second.drop_last(), vault);
        assert((first + second).drop_last() =~= first + second.drop_last());
    }
}

proof fn run_bids_escrow(template: Bid, requests: Seq<BidRequest>, bump: u8)
    requires
        template.auction.refund_receiver.is_default(),
        forall|i: int| 0 <= i < requests.len() ==> {
            &&& !(#[trigger] requests[i]).from.is_default()
            &&& requests[i].from != template.vault.key
        },
    ensures
        vault_net(run_bids(template, requests, bump).1, template.vault.key) == escrowed(run_bids(template, requests, bump).0),
        run_bids(template, requests, bump).0.refund_receiver.is_default()
            || run_bids(template, requests, bump).0.refund_receiver != template.vault.key,
    decreases requests.len(),
{
    if requests.len() > 0 {
        let rest = requests.drop_last();
        assert forall|i: int| 0 <= i < rest.len() implies {
            &&& !(#[trigger] rest[i]).from.is_default()
            &&& rest[i].from != template.vault.key
        } by {
            assert(rest[i] == requests[i]);
        }
        run_bids_escrow(template, rest, bump);
        let (auction, transfers) = run_bids(template, rest, bump);
        let request = requests.last();
        assert(request == requests[requests.len() - 1]);
        let accounts = Bid {
            user: request.user,
            from: request.from,
            auction: auction,
            ori_refund_receiver: auction.refund_receiver,
            ..template
        };
        match spec_bid(accounts, request.price, bump) {
            Ok((after, more)) => {
                assert(run_bids(template, requests, bump) == (after.auction, transfers + more));
                vault_net_append(transfers, more, template.vault.key);
                assert(after.auction.refund_receiver == request.from);
                assert(after.auction.price == request.price);
                if auction.refund_receiver.is_default() {
                    assert(more.len() == 1);
                    assert(more.drop_last() =~= Seq::<TokenTransfer>::empty());
                    assert(vault_net(more.drop_last(), template.vault.key) == 0);
                    assert(more.last().from == request.from && more.last().to == template.vault.key);
                    assert(vault_net(more, template.vault.key) == request.price as int);
                } else {
                    assert(more.len() == 2);
                    assert(more[0].from == template.vault.key);
                    assert(more[0].to != template.vault.key);
                    assert(more.drop_last().drop_last() =~= Seq::<TokenTransfer>::empty());
                    assert(more.drop_last().last() == more[0]);
                    assert(vault_net(more.drop_last().drop_last(), template.vault.key) == 0);
                    assert(more.last().from == request.from && more.last().to == template.vault.key);
                    assert(vault_net(more.drop_last(), template.vault.key) == -(auction.price as int));
                    assert(vault_net(more, template.vault.key) == request.price as int - auction.price as int);
                }
            },
            Err(_) => {
                assert(run_bids(template, requests, bump) == (auction, transfers));
            },
        }
    }
}

/// The vault escrows exactly the leading bid: from an auction with no bid
/// yet, after any sequence of bids, taken or refused, the tokens moved into
/// the vault less those refunded out of it are the current price where a bid
/// was taken, and nothing otherwise. Bids pay from accounts other than the
/// vault and the all-zero address.
pub proof fn vault_escrows_leading_bid(template: Bid, requests: Seq<BidRequest>, bump: u8)
    requires
        template.auction.refund_receiver.is_default(),
        forall|i: int| 0 <= i < requests.len() ==> {
            &&& !(#[trigger] requests[i]).from.is_default()
            &&& requests[i].from != template.vault.key
        },
    ensures
        vault_net(run_bids(template, requests, bump).1, template.vault.key)
            == escrowed(run_bids(template, requests, bump).0),
{
    run_bids_escrow(template, requests, bump);
}

/// A purchase with a readable clock: where enough tickets are left, it is
/// taken, stamped with the time read, numbered from the next ticket, paid
/// by the buyer from the source account into the vault at the ticket price
/// per ticket; the refusal for an unreadable clock comes only from an
/// unreadable clock, and the sold-out refusal only where too few are left.
pub proof fn purchase_with_a_readable_clock(
    a: BuyTicket,
    raffle_id: u32,
    count: u32,
    now: i64,
    clock: Result<i64, ProgramError>,
)
    requires
        purchase_fits(a, count),
    ensures
        a.raffle.sold_tickets + count <= a.raffle.ticket_count ==> {
            &&& spec_buy_ticket_with_clock(a, raffle_id, count, Ok(now)) is Ok
            &&& spec_buy_ticket_with_clock(a, raffle_id, count, Ok(now)) matches Ok((b, t)) && {
                &&& b.buyer_state.sold_time == now
                &&& b.buyer_state.raffle_id == raffle_id
                &&& b.buyer_state.buyer == a.user
                &&& b.buyer_state.ticket_num_start == a.raffle.sold_tickets + 1
                &&& b.buyer_state.ticket_num_end == a.raffle.sold_tickets + count
                &&& b.raffle.sold_tickets == a.raffle.sold_tickets + count
                &&& b.raffle.ticket_count == a.raffle.ticket_count
                &&& t.from == a.source_account
                &&& t.to == a.zzz_vault.key
                &&& t.authority == a.user
                &&& t.amount == a.raffle.ticket_price * count
                &&& t.signer_bump is None
            }
        },
        spec_buy_ticket_with_clock(a, raffle_id, count, clock) == Err::<(BuyTicket, TokenTransfer), Error>(Error::ClockUnavailable)
            ==> clock is Err,
        spec_buy_ticket_with_clock(a, raffle_id, count, clock)
            == Err::<(BuyTicket, TokenTransfer), Error>(Error::Raffle(RaffleError::InsufficientTickets))
            <==> a.raffle.sold_tickets + count > a.raffle.ticket_count,
{
}

/// A draw with a readable clock: wherever the price and the time fit and the
/// raffle has tickets, whatever was sold, the raffle is drawn and closed, and
/// the winning ticket is `(price + time) mod ticket_count + 1`, the price and
/// the time read as unsigned numbers; the draw is left undone only where the
/// clock could not be read or the draw does not fit.
pub proof fn draw_with_a_readable_clock(a: FinishRaffle, pyth_price: i64, now: i64, clock: Result<i64, ProgramError>)
    ensures
        a.raffle.ticket_count > 0 && (pyth_price as u64) + (now as u64) <= u64::MAX ==> {
            let (drawn, b) = spec_finish_raffle_with_clock(a, pyth_price, Ok(now));
            &&& drawn
            &&& b.raffle.closed == 1
            &&& b.raffle.win_ticket_num
                == ((pyth_price as u64) + (now as u64)) % (a.raffle.ticket_count as int) + 1
            &&& b.raffle.sold_tickets == a.raffle.sold_tickets
            &&& b.raffle.ticket_count == a.raffle.ticket_count
            &&& b.raffle.claimed == a.raffle.claimed
        },
        !spec_finish_raffle_with_clock(a, pyth_price, clock).0 ==> {
            &&& spec_finish_raffle_with_clock(a, pyth_price, clock).1 == a
            &&& (clock is Err || !draw_fits(pyth_price, clock->Ok_0, a.raffle.ticket_count))
        },
{
    if a.raffle.ticket_count > 0 && (pyth_price as u64) + (now as u64) <= u64::MAX {
        let c = ((pyth_price as u64) + (now as u64)) as u64;
        let m = a.raffle.ticket_count as u64;
        assert((c % m) as u32 == c % m);
    }
}

/// A whitelist draw with a readable clock is `(price + time) mod
/// ticket_count`, the price and the time read as unsigned numbers, wherever
/// they fit and there are tickets; there is no draw only where the clock
/// could not be read or the draw does not fit.
pub proof fn whitelist_draw_with_a_readable_clock(pyth_price: i64, ticket_count: u32, now: i64, clock: Result<i64, ProgramError>)
    ensures
        ticket_count > 0 && (pyth_price as u64) + (now as u64) <= u64::MAX ==> {
            &&& spec_gen_wl_winners_with_clock(pyth_price, ticket_count, Ok(now)) is Some
            &&& spec_gen_wl_winners_with_clock(pyth_price, ticket_count, Ok(now))->Some_0
                == ((pyth_price as u64) + (now as u64)) % (ticket_count as int)
        },
        spec_gen_wl_winners_with_clock(pyth_price, ticket_count, clock) is None
            ==> (clock is Err || !draw_fits(pyth_price, clock->Ok_0, ticket_count)),
{
    if ticket_count > 0 && (pyth_price as u64) + (now as u64) <= u64::MAX {
        let c = ((pyth_price as u64) + (now as u64)) as u64;
        let m = ticket_count as u64;
        assert((c % m) as u32 == c % m);
    }
}

/// Editing a raffle sets every listing field to the one given, and the
/// reward mint to the one given.
pub proof fn editing_sets_the_listing(raffle: Raffle, listing: Listing, reward_mint: Pubkey)
    ensures
        ({
            let edited = with_listing(raffle, listing, reward_mint);
            &&& edited.ticket_count == listing.ticket_count
            &&& edited.ticket_price == listing.ticket_price
            &&& edited.start_time == listing.start_time
            &&& edited.end_time == listing.end_time
            &&& edited.reward_mint == reward_mint
            &&& edited.project_name == listing.project_name
            &&& edited.project_description == listing.project_description
            &&& edited.discord_link == listing.discord_link
            &&& edited.twitter_link == listing.twitter_link
            &&& edited.wl_spot == listing.wl_spot
            &&& edited.image == listing.image
        }),
{
}

/// Listing a raffle sets its id and listing to the ones given, its reward
/// mint to the reward mint account, starts it with nothing sold, drawn,
/// closed or claimed, and asks for one reward token from the administrator's
/// account into the reward vault.
pub proof fn listing_a_raffle_sets_its_fields(a: CreateRaffle, raffle_id: u32, listing: Listing)
    ensures
        ({
            let (b, t) = spec_create_raffle(a, raffle_id, listing);
            &&& b.raffle.raffle_id == raffle_id
            &&& b.raffle.ticket_count == listing.ticket_count
            &&& b.raffle.ticket_price == listing.ticket_price
            &&& b.raffle.start_time == listing.start_time
            &&& b.raffle.end_time == listing.end_time
            &&& b.raffle.reward_mint == a.reward_mint
            &&& b.raffle.project_name == listing.project_name
            &&& b.raffle.wl_spot == listing.wl_spot
            &&& b.raffle.image == listing.image
            &&& b.raffle.sold_tickets == 0
            &&& b.raffle.win_ticket_num == 0
            &&& b.raffle.closed == 0
            &&& b.raffle.claimed == 0
            &&& t.from == a.source_account
            &&& t.to == a.reward_vault
            &&& t.authority == a.admin
            &&& t.amount == 1
        }),
{
}

/// Listing an auction records the seller, item mint, minimum bid, times and
/// starting price given, takes bids in the program's own mint, and starts it
/// with no bidder, no account to refund, and open.
pub proof fn listing_an_auction_sets_its_fields(
    a: CreateAuction,
    auction_id: u32,
    seller: Pubkey,
    nft_mint: Pubkey,
    min_bid_amount: u32,
    start_time: i64,
    end_time: i64,
    start_price: u64,
)
    ensures
        ({
            let b = spec_create_auction(a, auction_id, seller, nft_mint, min_bid_amount, start_time, end_time, start_price);
            &&& b.auction.auction_id == auction_id
            &&& b.auction.seller == seller
            &&& b.auction.nft_mint == nft_mint
            &&& b.auction.min_bid_amount == min_bid_amount
            &&& b.auction.start_time == start_time
            &&& b.auction.end_time == end_time
            &&& b.auction.price == start_price
            &&& b.auction.bid_mint == a.global_state.zzz_mint
            &&& b.auction.refund_receiver.is_default()
            &&& b.auction.closed == 0
        }),
{
}

/// Setting up the program makes the signer the administrator and records the
/// program's own mint.
pub proof fn setup_records_admin_and_mint(a: Initialize)
    ensures
        spec_initialize(a).global_state.admin == a.admin,
        spec_initialize(a).global_state.zzz_mint == a.zzz_mint,
        spec_initialize(a).global_state.raffle_count == a.global_state.raffle_count,
{
}

/// Anyone may bid: the bid accounts check passes exactly when the auction
/// is at its derived address and open, the vault holds the bid mint under the
/// global state, the bid mint is the auction's and the account to refund is
/// the auction's refund receiver, and it does not depend on who signs.
pub proof fn anyone_may_bid(a: Bid, signer: Pubkey, program_id: Pubkey, auction_id: u32)
    ensures
        a.spec_constraints(program_id, auction_id) == Some(Ok::<(), Error>(())) <==> (
            derived_at(a.auction_key, auction_seeds(auction_id), program_id)
            && a.auction.closed == 0
            && a.vault.owner == a.global_state_key && a.vault.mint == a.bid_mint
            && a.bid_mint == a.auction.bid_mint
            && a.ori_refund_receiver == a.auction.refund_receiver),
        (Bid { user: signer, ..a }).spec_constraints(program_id, auction_id)
            == a.spec_constraints(program_id, auction_id),
{
}

/// The highest bidder may raise their own bid: a bid above the current price
/// is taken whoever places it.
pub proof fn highest_bidder_may_raise(a: Bid, price: u64, bump: u8)
    requires
        price > a.auction.price,
    ensures
        spec_bid(Bid { user: a.auction.bidder, ..a }, price, bump) is Ok,
        spec_bid(a, price, bump) is Ok,
{
}

} // verus!
