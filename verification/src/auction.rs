//! The auction instructions: listing, bidding and settlement.
use vstd::prelude::*;
use crate::accounts::{Bid, CreateAuction, DeleteAuction, FinishAuction};
use crate::error::{AuctionError, Error};
use crate::address::{find_global_state_bump, global_state_bump};
use crate::pubkey::Pubkey;
use crate::state::{Auction, GlobalState, TokenTransfer};

verus! {

/// The accounts after `create_auction`: the auction is listed at `start_price`,
/// bids are made in the program's own mint, and the global state counts it.
pub open spec fn spec_create_auction(
    a: CreateAuction,
    auction_id: u32,
    seller: Pubkey,
    nft_mint: Pubkey,
    min_bid_amount: u32,
    start_time: i64,
    end_time: i64,
    start_price: u64,
) -> CreateAuction {
    CreateAuction {
        auction: Auction {
            auction_id: auction_id,
            seller: seller,
            nft_mint: nft_mint,
            min_bid_amount: min_bid_amount,
            start_time: start_time,
            end_time: end_time,
            bid_mint: a.global_state.zzz_mint,
            price: start_price,
            bidder: Pubkey::zero(),
            refund_receiver: Pubkey::zero(),
            closed: 0,
        },
        global_state: GlobalState { auction_count: (a.global_state.auction_count + 1) as u32, ..a.global_state },
        ..a
    }
}

/// Lists an auction, without the accounts check of `create_auction`. The
/// auction account is new: it has no bidder and no account to refund, and
/// it is open, as its zero-filled creation leaves it.
pub fn create_auction_unchecked(
    accounts: &mut CreateAuction,
    auction_id: u32,
    seller: Pubkey,
    nft_mint: Pubkey,
    min_bid_amount: u32,
    start_time: i64,
    end_time: i64,
    start_price: u64,
)
    requires
        old(accounts).global_state.auction_count < u32::MAX,
    ensures
        *final(accounts) == spec_create_auction(
            *old(accounts), auction_id, seller, nft_mint, min_bid_amount, start_time, end_time, start_price),
        final(accounts).auction.refund_receiver.is_default(),
        final(accounts).auction.closed == 0,
        final(accounts).auction.seller == seller,
        final(accounts).auction.nft_mint == nft_mint,
        final(accounts).auction.min_bid_amount == min_bid_amount,
        final(accounts).auction.start_time == start_time,
        final(accounts).auction.end_time == end_time,
        final(accounts).auction.auction_id == auction_id,
        final(accounts).auction.price == start_price,
        final(accounts).auction.bid_mint == old(accounts).global_state.zzz_mint,
        final(accounts).global_state.auction_count == old(accounts).global_state.auction_count + 1,
{
    accounts.auction.auction_id = auction_id;
    accounts.auction.seller = seller;
    accounts.auction.nft_mint = nft_mint;
    accounts.auction.min_bid_amount = min_bid_amount;
    accounts.auction.start_time = start_time;
    accounts.auction.end_time = end_time;
    accounts.auction.bid_mint = accounts.global_state.zzz_mint;
    accounts.auction.price = start_price;
    accounts.auction.bidder = Pubkey::default_key();
    accounts.auction.refund_receiver = Pubkey::default_key();
    accounts.auction.closed = 0;
    accounts.global_state.auction_count = accounts.global_state.auction_count + 1;
}

/// The accounts after `delete_auction`: one auction fewer is counted.
pub open spec fn spec_delete_auction(a: DeleteAuction) -> DeleteAuction {
    DeleteAuction {
        global_state: GlobalState { auction_count: (a.global_state.auction_count - 1) as u32, ..a.global_state },
        ..a
    }
}

/// Uncounts an auction that is being deleted: the body of `delete_auction`,
/// without its accounts check.
pub fn delete_auction_unchecked(accounts: &mut DeleteAuction)
    requires
        old(accounts).global_state.auction_count > 0,
    ensures
        *final(accounts) == spec_delete_auction(*old(accounts)),
{
    accounts.global_state.auction_count = accounts.global_state.auction_count - 1;
}

/// A bid of `price`: refused unless strictly above the current price; else the
/// previous bid, where there is one, goes back from the vault to its payer
/// with the program signing with `bump`, the new bid is paid into the vault,
/// and the bidder, the account to refund and the price are replaced.
pub open spec fn spec_bid(a: Bid, price: u64, bump: u8) -> Result<(Bid, Seq<TokenTransfer>), Error> {
    if price <= a.auction.price {
        Err(Error::Auction(AuctionError::BidPirceTooLow))
    } else {
        let payment = TokenTransfer {
            from: a.from,
            to: a.vault.key,
            authority: a.user,
            signer_bump: None,
            amount: price,
        };
        let transfers = if a.auction.refund_receiver.is_default() {
            seq![payment]
        } else {
            seq![
                TokenTransfer {
                    from: a.vault.key,
                    to: a.ori_refund_receiver,
                    authority: a.global_state_key,
                    signer_bump: Some(bump),
                    amount: a.auction.price,
                },
                payment,
            ]
        };
        Ok((
            Bid { auction: Auction { bidder: a.user, refund_receiver: a.from, price: price, ..a.auction }, ..a },
            transfers,
        ))
    }
}

/// Places a bid of `price`, the program signing any refund with `bump`,
/// without the accounts check of `bid`.
pub fn bid_unchecked_with_bump(accounts: &mut Bid, price: u64, bump: u8) -> (r: Result<Vec<TokenTransfer>, Error>)
    ensures
        match r {
            Ok(v) => spec_bid(*old(accounts), price, bump) == Ok::<(Bid, Seq<TokenTransfer>), Error>((*final(accounts), v@)),
            Err(e) => spec_bid(*old(accounts), price, bump) == Err::<(Bid, Seq<TokenTransfer>), Error>(e)
                && *final(accounts) == *old(accounts),
        },
{
    if price <= accounts.auction.price {
        return Err(Error::Auction(AuctionError::BidPirceTooLow));
    }
    let payment = TokenTransfer {
        from: accounts.from,
        to: accounts.vault.key,
        authority: accounts.user,
        signer_bump: None,
        amount: price,
    };
    let mut transfers: Vec<TokenTransfer> = Vec::new();
    if !accounts.auction.refund_receiver.key_is_default() {
        let refund = TokenTransfer {
            from: accounts.vault.key,
            to: accounts.ori_refund_receiver,
            authority: accounts.global_state_key,
            signer_bump: Some(bump),
            amount: accounts.auction.price,
        };
        transfers.push(refund);
        transfers.push(payment);
        assert(transfers@ =~= seq![refund, payment]);
    } else {
        transfers.push(payment);
        assert(transfers@ =~= seq![payment]);
    }
    accounts.auction.bidder = accounts.user;
    accounts.auction.refund_receiver = accounts.from;
    accounts.auction.price = price;
    Ok(transfers)
}

/// Places a bid of `price`: the body of `bid`, without its accounts check.
/// `None`, with nothing changed, where a refund is due but the program's
/// signing address cannot be derived for `program_id`.
pub fn bid_unchecked(accounts: &mut Bid, program_id: &Pubkey, auction_id: u32, price: u64) -> (r: Option<Result<Vec<TokenTransfer>, Error>>)
    ensures
        r is None <==> (price > old(accounts).auction.price && !old(accounts).auction.refund_receiver.is_default()
            && global_state_bump(*program_id) is None),
        r is None ==> *final(accounts) == *old(accounts),
        r matches Some(res) ==> {
            let bump = match global_state_bump(*program_id) { Some(b) => b, None => 0u8 };
            match res {
                Ok(v) => spec_bid(*old(accounts), price, bump) == Ok::<(Bid, Seq<TokenTransfer>), Error>((*final(accounts), v@)),
                Err(e) => spec_bid(*old(accounts), price, bump) == Err::<(Bid, Seq<TokenTransfer>), Error>(e)
                    && *final(accounts) == *old(accounts),
            }
        },
{
    if price <= accounts.auction.price || accounts.auction.refund_receiver.key_is_default() {
        return Some(bid_unchecked_with_bump(accounts, price, 0));
    }
    match find_global_state_bump(program_id) {
        Some(bump) => Some(bid_unchecked_with_bump(accounts, price, bump)),
        None => None,
    }
}

/// Settlement: the whole balance of the item's holding account goes to the
/// highest bidder's account, the program signing with `bump`, and the auction
/// is closed.
pub open spec fn spec_finish_auction(a: FinishAuction, bump: u8) -> (FinishAuction, TokenTransfer) {
    (
        FinishAuction { auction: Auction { closed: 1, ..a.auction }, ..a },
        TokenTransfer {
            from: a.nft_holder.key,
            to: a.nft_receiver.key,
            authority: a.global_state_key,
            signer_bump: Some(bump),
            amount: a.nft_holder.amount,
        },
    )
}

/// Settles an auction, the program signing with `bump`, without the
/// accounts check of `finish_auction`.
pub fn finish_auction_unchecked_with_bump(accounts: &mut FinishAuction, bump: u8) -> (r: TokenTransfer)
    ensures
        (*final(accounts), r) == spec_finish_auction(*old(accounts), bump),
{
    accounts.auction.closed = 1;
    TokenTransfer {
        from: accounts.nft_holder.key,
        to: accounts.nft_receiver.key,
        authority: accounts.global_state_key,
        signer_bump: Some(bump),
        amount: accounts.nft_holder.amount,
    }
}

/// Settles an auction: the body of `finish_auction`, without its accounts
/// check. `None`, with nothing changed, where the program's signing address
/// cannot be derived for `program_id`.
pub fn finish_auction_unchecked(accounts: &mut FinishAuction, program_id: &Pubkey) -> (r: Option<TokenTransfer>)
    ensures
        r is None <==> global_state_bump(*program_id) is None,
        r is None ==> *final(accounts) == *old(accounts),
        r matches Some(t) ==> global_state_bump(*program_id) matches Some(b)
            && (*final(accounts), t) == spec_finish_auction(*old(accounts), b),
{
    match find_global_state_bump(program_id) {
        Some(bump) => Some(finish_auction_unchecked_with_bump(accounts, bump)),
        None => None,
    }
}

/// The instruction `create_auction`: the accounts check, then the listing.
/// A refused instruction changes nothing.
pub fn create_auction(
    accounts: &mut CreateAuction,
    auction_id: u32,
    seller: Pubkey,
    nft_mint: Pubkey,
    min_bid_amount: u32,
    start_time: i64,
    end_time: i64,
    start_price: u64,
) -> (r: Result<(), Error>)
    requires
        old(accounts).global_state.admin == old(accounts).admin
            ==> old(accounts).global_state.auction_count < u32::MAX,
    ensures
        r == old(accounts).spec_constraints(),
        r is Ok ==> *final(accounts) == spec_create_auction(
            *old(accounts), auction_id, seller, nft_mint, min_bid_amount, start_time, end_time, start_price),
        r is Err ==> *final(accounts) == *old(accounts),
        r is Ok ==> final(accounts).auction.seller == seller,
        r is Ok ==> final(accounts).auction.nft_mint == nft_mint,
        r is Ok ==> final(accounts).auction.min_bid_amount == min_bid_amount,
        r is Ok ==> final(accounts).auction.start_time == start_time,
        r is Ok ==> final(accounts).auction.end_time == end_time,
        r is Ok ==> final(accounts).auction.auction_id == auction_id,
        r is Ok ==> final(accounts).auction.price == start_price,
        r is Ok <==> old(accounts).global_state.admin == old(accounts).admin,
{
    accounts.check_constraints()?;
    create_auction_unchecked(accounts, auction_id, seller, nft_mint, min_bid_amount, start_time, end_time, start_price);
    Ok(())
}

/// The instruction `delete_auction`: the accounts check, then the count.
/// `None`, with nothing changed, where the auction's address cannot be
/// derived; a refused instruction changes nothing.
pub fn delete_auction(accounts: &mut DeleteAuction, program_id: &Pubkey, auction_id: u32) -> (r: Option<Result<(), Error>>)
    requires
        old(accounts).global_state.admin == old(accounts).admin
            ==> old(accounts).global_state.auction_count > 0,
    ensures
        r == old(accounts).spec_constraints(*program_id, auction_id),
        r == Some(Ok::<(), Error>(())) ==> *final(accounts) == spec_delete_auction(*old(accounts)),
        r != Some(Ok::<(), Error>(())) ==> *final(accounts) == *old(accounts),
{
    match accounts.check_constraints(program_id, auction_id) {
        Some(Ok(())) => {},
        other => return other,
    }
    delete_auction_unchecked(accounts);
    Some(Ok(()))
}

/// The instruction `bid`: the accounts check, then the bid. `None`, with
/// nothing changed, where an address cannot be derived; a refused instruction
/// changes nothing and asks for no transfer.
pub fn bid(accounts: &mut Bid, program_id: &Pubkey, auction_id: u32, price: u64) -> (r: Option<Result<Vec<TokenTransfer>, Error>>)
    ensures
        match r {
            None => *final(accounts) == *old(accounts) && (
                old(accounts).spec_constraints(*program_id, auction_id) is None
                || (old(accounts).spec_constraints(*program_id, auction_id) == Some(Ok::<(), Error>(()))
                    && price > old(accounts).auction.price && !old(accounts).auction.refund_receiver.is_default()
                    && global_state_bump(*program_id) is None)),
            Some(Ok(v)) => old(accounts).spec_constraints(*program_id, auction_id) == Some(Ok::<(), Error>(()))
                && spec_bid(*old(accounts), price, match global_state_bump(*program_id) { Some(b) => b, None => 0u8 })
                    == Ok::<(Bid, Seq<TokenTransfer>), Error>((*final(accounts), v@)),
            Some(Err(e)) => *final(accounts) == *old(accounts) && (
                old(accounts).spec_constraints(*program_id, auction_id) == Some(Err::<(), Error>(e))
                || (old(accounts).spec_constraints(*program_id, auction_id) == Some(Ok::<(), Error>(()))
                    && spec_bid(*old(accounts), price, 0) == Err::<(Bid, Seq<TokenTransfer>), Error>(e))),
        },
{
    match accounts.check_constraints(program_id, auction_id) {
        Some(Ok(())) => {},
        Some(Err(e)) => return Some(Err(e)),
        None => return None,
    }
    bid_unchecked(accounts, program_id, auction_id, price)
}

/// The instruction `finish_auction`: the accounts check, then the settlement.
/// `None`, with nothing changed, where an address cannot be derived; a
/// refused instruction changes nothing and asks for no transfer.
pub fn finish_auction(accounts: &mut FinishAuction, program_id: &Pubkey, auction_id: u32) -> (r: Option<Result<TokenTransfer, Error>>)
    ensures
        match r {
            None => *final(accounts) == *old(accounts) && (
                old(accounts).spec_constraints(*program_id, auction_id) is None
                || (old(accounts).spec_constraints(*program_id, auction_id) == Some(Ok::<(), Error>(()))
                    && global_state_bump(*program_id) is None)),
            Some(Ok(t)) => old(accounts).spec_constraints(*program_id, auction_id) == Some(Ok::<(), Error>(()))
                && (global_state_bump(*program_id) matches Some(b)
                    && (*final(accounts), t) == spec_finish_auction(*old(accounts), b)),
            Some(Err(e)) => old(accounts).spec_constraints(*program_id, auction_id) == Some(Err::<(), Error>(e))
                && *final(accounts) == *old(accounts),
        },
{
    match accounts.check_constraints(program_id, auction_id) {
        Some(Ok(())) => {},
        Some(Err(e)) => return Some(Err(e)),
        None => return None,
    }
    match finish_auction_unchecked(accounts, program_id) {
        Some(t) => Some(Ok(t)),
        None => None,
    }
}

} // verus!
