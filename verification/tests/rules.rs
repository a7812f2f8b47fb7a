use raffle::accounts::{
    is_admin, Bid, BuyTicket, ClaimRewards, CreateAuction, CreateRaffle, DeleteAuction, DeleteRaffle,
    DepositReward, FinishAuction, FinishRaffle, GenWlWinners, Initialize, SetRaffle,
};
use raffle::auction::{
    bid, bid_unchecked, bid_unchecked_with_bump, create_auction, create_auction_unchecked, delete_auction,
    delete_auction_unchecked, finish_auction, finish_auction_unchecked, finish_auction_unchecked_with_bump,
};
use raffle::constants::{AUCTION_SEED, GLOBAL_STATE_SEED, RAFFLE_SEED, REWARD_VAULT_SEED};
use raffle::error::{AuctionError, ConstraintViolation, Error, RaffleError};
use raffle::address::find_global_state_bump;
use raffle::external::PYTH_PRICE_DATA_MIN;
use raffle::pubkey::Pubkey;
use raffle::raffle::{
    buy_ticket, buy_ticket_unchecked, buy_ticket_unchecked_at, claim_rewards, claim_rewards_unchecked,
    claim_rewards_unchecked_with_bump, create_raffle, create_raffle_unchecked, delete_raffle, delete_raffle_unchecked,
    deposit_reward, deposit_reward_unchecked, finish_raffle, finish_raffle_unchecked_at,
    finish_raffle_unchecked_with_clock, gen_wl_winners, gen_wl_winners_at, gen_wl_winners_with_clock, initialize,
    set_raffle, set_raffle_unchecked,
};
use anchor_lang::prelude::ProgramError;
use raffle::state::{AccountRef, Auction, BuyerState, GlobalState, Raffle, TokenAccount};

fn key(n: u8) -> Pubkey {
    let mut bytes = [0u8; 32];
    bytes[0] = n;
    bytes[31] = 7;
    Pubkey { bytes }
}

fn zero_key() -> Pubkey {
    Pubkey { bytes: [0u8; 32] }
}

fn token_program() -> Pubkey {
    Pubkey { bytes: anchor_spl::token::ID.to_bytes() }
}

fn program_id() -> Pubkey {
    key(99)
}

fn pda(seeds: &[&[u8]]) -> Pubkey {
    let pid = anchor_lang::prelude::Pubkey::new_from_array(program_id().bytes);
    Pubkey { bytes: anchor_lang::prelude::Pubkey::find_program_address(seeds, &pid).0.to_bytes() }
}

fn gs_key() -> Pubkey {
    pda(&[GLOBAL_STATE_SEED.as_bytes()])
}

fn raffle_key(id: u32) -> Pubkey {
    pda(&[RAFFLE_SEED.as_bytes(), &id.to_le_bytes()])
}

fn auction_key(id: u32) -> Pubkey {
    pda(&[AUCTION_SEED.as_bytes(), &id.to_le_bytes()])
}

fn reward_vault_key(mint: &Pubkey) -> Pubkey {
    pda(&[REWARD_VAULT_SEED.as_bytes(), &mint.bytes])
}

fn expected_bump() -> u8 {
    let pid = anchor_lang::prelude::Pubkey::new_from_array(program_id().bytes);
    anchor_lang::prelude::Pubkey::find_program_address(&[GLOBAL_STATE_SEED.as_bytes()], &pid).1
}

fn global_state() -> GlobalState {
    GlobalState { admin: key(1), zzz_mint: key(2), raffle_count: 3, auction_count: 4 }
}

fn raffle_with(ticket_count: u32, ticket_price: u64, sold_tickets: u32) -> Raffle {
    Raffle {
        raffle_id: 5,
        ticket_count,
        ticket_price,
        start_time: 100,
        end_time: 200,
        reward_mint: key(10),
        project_name: "p".to_string(),
        project_description: "d".to_string(),
        discord_link: "dc".to_string(),
        twitter_link: "tw".to_string(),
        wl_spot: 2,
        image: "img".to_string(),
        sold_tickets,
        win_ticket_num: 0,
        closed: 0,
        claimed: 0,
    }
}

fn empty_buyer() -> BuyerState {
    BuyerState { raffle_id: 0, buyer: zero_key(), sold_time: 0, ticket_num_start: 0, ticket_num_end: 0 }
}

fn buy_accounts(ticket_count: u32, price: u64, sold: u32) -> BuyTicket {
    BuyTicket {
        user: key(20),
        global_state_key: gs_key(),
        global_state: global_state(),
        raffle_key: raffle_key(5),
        raffle: raffle_with(ticket_count, price, sold),
        buyer_state: empty_buyer(),
        zzz_mint: key(2),
        zzz_vault: TokenAccount { key: key(31), mint: key(2), owner: gs_key(), amount: 0 },
        source_account: key(21),
    }
}

fn auction_with(price: u64, refund_receiver: Pubkey, closed: u8) -> Auction {
    Auction {
        auction_id: 8,
        seller: key(40),
        nft_mint: key(41),
        min_bid_amount: 1,
        start_time: 0,
        end_time: 10,
        bid_mint: key(2),
        price,
        bidder: key(42),
        refund_receiver,
        closed,
    }
}

fn bid_accounts(price: u64, refund_receiver: Pubkey) -> Bid {
    Bid {
        user: key(50),
        global_state_key: gs_key(),
        auction_key: auction_key(8),
        auction: auction_with(price, refund_receiver, 0),
        vault: TokenAccount { key: key(51), mint: key(2), owner: gs_key(), amount: price },
        bid_mint: key(2),
        from: key(52),
        ori_refund_receiver: refund_receiver,
    }
}

fn claim_accounts(vault_amount: u64, claimed: u8, win: u32) -> ClaimRewards {
    let mut raffle = raffle_with(10, 5, 10);
    raffle.claimed = claimed;
    raffle.win_ticket_num = win;
    ClaimRewards {
        user: key(20),
        raffle_key: raffle_key(5),
        raffle,
        buyer_state: BuyerState { raffle_id: 5, buyer: key(20), sold_time: 1, ticket_num_start: 3, ticket_num_end: 6 },
        global_state_key: gs_key(),
        reward_mint: key(10),
        reward_vault: TokenAccount { key: reward_vault_key(&key(10)), mint: key(10), owner: gs_key(), amount: vault_amount },
        reward_to_account: key(61),
    }
}

#[test]
fn pubkey_default_and_equality() {
    assert!(Pubkey::default_key().key_is_default());
    assert!(!key(1).key_is_default());
    assert!(key(3).key_eq(&key(3)));
    assert!(!key(3).key_eq(&key(4)));
}

#[test]
fn initialize_records_admin_and_mint() {
    let mut a = Initialize {
        admin: key(1),
        global_state: GlobalState { admin: zero_key(), zzz_mint: zero_key(), raffle_count: 0, auction_count: 0 },
        zzz_mint: key(2),
    };
    initialize(&mut a);
    assert!(a.global_state.admin.key_eq(&key(1)));
    assert!(a.global_state.zzz_mint.key_eq(&key(2)));
    assert_eq!(a.global_state.raffle_count, 0);
}

#[test]
fn create_raffle_lists_and_counts() {
    let mut a = CreateRaffle {
        admin: key(1),
        global_state: global_state(),
        raffle: raffle_with(0, 0, 0),
        reward_mint: key(11),
        reward_vault: key(12),
        source_account: key(13),
    };
    assert!(a.check_constraints().is_ok());
    a.raffle.sold_tickets = 4;
    a.raffle.win_ticket_num = 2;
    a.raffle.claimed = 1;
    let t = create_raffle_unchecked(
        &mut a, 77, 100, 25, 1000, 2000, "name".to_string(), "desc".to_string(), "discord".to_string(),
        "twitter".to_string(), 4, "image".to_string(),
    );
    assert_eq!(a.raffle.raffle_id, 77);
    assert_eq!(a.raffle.ticket_count, 100);
    assert_eq!(a.raffle.ticket_price, 25);
    assert_eq!(a.raffle.start_time, 1000);
    assert_eq!(a.raffle.end_time, 2000);
    assert!(a.raffle.reward_mint.key_eq(&key(11)));
    assert_eq!(a.raffle.project_name, "name");
    assert_eq!(a.raffle.project_description, "desc");
    assert_eq!(a.raffle.discord_link, "discord");
    assert_eq!(a.raffle.twitter_link, "twitter");
    assert_eq!(a.raffle.wl_spot, 4);
    assert_eq!(a.raffle.image, "image");
    assert_eq!(a.global_state.raffle_count, 4);
    assert_eq!(a.raffle.sold_tickets, 0);
    assert_eq!(a.raffle.win_ticket_num, 0);
    assert_eq!(a.raffle.claimed, 0);
    assert_eq!(t.amount, 1);
    assert!(t.from.key_eq(&key(13)));
    assert!(t.to.key_eq(&key(12)));
    assert!(t.authority.key_eq(&key(1)));
    assert_eq!(t.signer_bump, None);
}

#[test]
fn admin_constraint_refuses_other_signer() {
    let a = CreateRaffle {
        admin: key(9),
        global_state: global_state(),
        raffle: raffle_with(0, 0, 0),
        reward_mint: key(11),
        reward_vault: key(12),
        source_account: key(13),
    };
    assert_eq!(a.check_constraints(), Err(Error::Constraint(ConstraintViolation::Raw)));
    assert_eq!(is_admin(&global_state(), &key(9)), Err(Error::Raffle(RaffleError::InvalidAdmin)));
    assert_eq!(is_admin(&global_state(), &key(1)), Ok(()));
    let s = SetRaffle { admin: key(9), global_state: global_state(), raffle_key: raffle_key(5), raffle: raffle_with(1, 1, 0) };
    assert_eq!(s.check_constraints(&program_id(), 5), Some(Err(Error::Constraint(ConstraintViolation::Raw))));
    let d = DeleteAuction { admin: key(1), global_state: global_state(), auction_key: auction_key(8), auction: auction_with(1, zero_key(), 0) };
    assert_eq!(d.check_constraints(&program_id(), 8), Some(Ok(())));
}

#[test]
fn set_raffle_keeps_sales_and_draw() {
    let mut raffle = raffle_with(10, 5, 7);
    raffle.win_ticket_num = 3;
    raffle.closed = 1;
    let mut a = SetRaffle { admin: key(1), global_state: global_state(), raffle_key: raffle_key(5), raffle };
    set_raffle_unchecked(
        &mut a, 5, 20, 9, 1, 2, key(70), "n".to_string(), "d".to_string(), "c".to_string(), "t".to_string(), 1,
        "i".to_string(),
    );
    assert_eq!(a.raffle.ticket_count, 20);
    assert_eq!(a.raffle.ticket_price, 9);
    assert!(a.raffle.reward_mint.key_eq(&key(70)));
    assert_eq!(a.raffle.raffle_id, 5);
    assert_eq!(a.raffle.sold_tickets, 7);
    assert_eq!(a.raffle.win_ticket_num, 3);
    assert_eq!(a.raffle.closed, 1);
}

#[test]
fn create_then_delete_restores_counts() {
    let mut a = CreateRaffle {
        admin: key(1),
        global_state: global_state(),
        raffle: raffle_with(0, 0, 0),
        reward_mint: key(11),
        reward_vault: key(12),
        source_account: key(13),
    };
    create_raffle_unchecked(&mut a, 1, 1, 1, 0, 0, String::new(), String::new(), String::new(), String::new(), 0, String::new());
    let mut d = DeleteRaffle { admin: key(1), global_state: a.global_state, raffle_key: raffle_key(5), raffle: a.raffle.clone() };
    delete_raffle_unchecked(&mut d);
    assert_eq!(d.global_state.raffle_count, 3);

    let mut c = CreateAuction { admin: key(1), global_state: global_state(), auction: auction_with(0, zero_key(), 0) };
    c.auction.closed = 1;
    c.auction.refund_receiver = key(52);
    create_auction_unchecked(&mut c, 9, key(40), key(41), 2, 3, 4, 500);
    assert_eq!(c.auction.closed, 0);
    assert!(c.auction.refund_receiver.key_is_default());
    assert!(c.auction.bidder.key_is_default());
    assert_eq!(c.global_state.auction_count, 5);
    assert_eq!(c.auction.auction_id, 9);
    assert_eq!(c.auction.price, 500);
    assert_eq!(c.auction.min_bid_amount, 2);
    assert!(c.auction.bid_mint.key_eq(&key(2)));
    let mut d = DeleteAuction { admin: key(1), global_state: c.global_state, auction_key: auction_key(8), auction: c.auction };
    delete_auction_unchecked(&mut d);
    assert_eq!(d.global_state.auction_count, 4);
}

#[test]
fn buy_ticket_assigns_next_numbers_and_charges() {
    let mut a = buy_accounts(10, 25, 4);
    assert!(a.check_constraints(&program_id(), 5) == Some(Ok(())));
    let t = buy_ticket_unchecked_at(&mut a, 5, 3, 1234).unwrap();
    assert_eq!(a.buyer_state.ticket_num_start, 5);
    assert_eq!(a.buyer_state.ticket_num_end, 7);
    assert_eq!(a.buyer_state.sold_time, 1234);
    assert_eq!(a.buyer_state.raffle_id, 5);
    assert!(a.buyer_state.buyer.key_eq(&key(20)));
    assert_eq!(a.raffle.sold_tickets, 7);
    assert_eq!(t.amount, 75);
    assert!(t.from.key_eq(&key(21)));
    assert!(t.to.key_eq(&key(31)));
    assert!(t.authority.key_eq(&key(20)));
    assert!(a.raffle.sold_tickets <= a.raffle.ticket_count);
}

#[test]
fn consecutive_purchases_get_adjacent_ranges() {
    let mut a = buy_accounts(10, 1, 0);
    buy_ticket_unchecked_at(&mut a, 5, 4, 1).unwrap();
    let first = a.buyer_state;
    a.buyer_state = empty_buyer();
    buy_ticket_unchecked_at(&mut a, 5, 6, 2).unwrap();
    let second = a.buyer_state;
    assert_eq!(first.ticket_num_start, 1);
    assert_eq!(first.ticket_num_end, 4);
    assert_eq!(second.ticket_num_start, first.ticket_num_end + 1);
    assert_eq!(second.ticket_num_end, 10);
    assert_eq!(a.raffle.sold_tickets, 10);
}

#[test]
fn buy_ticket_refuses_when_sold_out() {
    let mut a = buy_accounts(10, 1, 8);
    assert_eq!(buy_ticket_unchecked_at(&mut a, 5, 3, 1).err(), Some(Error::Raffle(RaffleError::InsufficientTickets)));
    assert_eq!(a.raffle.sold_tickets, 8);
    assert_eq!(a.buyer_state.ticket_num_end, 0);
    assert_eq!(buy_ticket_unchecked(&mut a, 5, 3).err(), Some(Error::Raffle(RaffleError::InsufficientTickets)));
    assert!(buy_ticket_unchecked_at(&mut a, 5, 2, 1).is_ok());
    assert_eq!(a.raffle.sold_tickets, 10);
}

#[test]
fn buy_ticket_without_clock_changes_nothing() {
    let mut a = buy_accounts(10, 1, 0);
    match buy_ticket_unchecked(&mut a, 5, 2) {
        Ok(t) => {
            assert_eq!(t.amount, 2);
            assert_eq!(a.raffle.sold_tickets, 2);
        }
        Err(e) => {
            assert_eq!(e, Error::ClockUnavailable);
            assert_eq!(a.raffle.sold_tickets, 0);
        }
    }
}

#[test]
fn buy_ticket_constraints() {
    let mut a = buy_accounts(10, 1, 0);
    a.zzz_mint = key(3);
    assert_eq!(a.check_constraints(&program_id(), 5), Some(Err(Error::Constraint(ConstraintViolation::Address))));
    let mut a = buy_accounts(10, 1, 0);
    a.zzz_vault.owner = key(3);
    assert_eq!(a.check_constraints(&program_id(), 5), Some(Err(Error::Constraint(ConstraintViolation::TokenOwner))));
    let mut a = buy_accounts(10, 1, 0);
    a.zzz_vault.mint = key(3);
    assert_eq!(a.check_constraints(&program_id(), 5), Some(Err(Error::Constraint(ConstraintViolation::TokenMint))));
}

fn finish_accounts(ticket_count: u32, sold: u32, pyth_data: Vec<u8>) -> FinishRaffle {
    FinishRaffle {
        admin: key(1),
        global_state: global_state(),
        raffle_key: raffle_key(5),
        raffle: raffle_with(ticket_count, 1, sold),
        pyth_data,
    }
}

#[test]
fn finish_raffle_draws_a_ticket() {
    let mut a = finish_accounts(10, 10, Vec::new());
    assert_eq!(a.check_constraints(&program_id(), 5), Some(Ok(())));
    finish_raffle_unchecked_at(&mut a, 5, 37, 1000);
    // (37 + 1000) % 10 = 7, so ticket 8 wins
    assert_eq!(a.raffle.win_ticket_num, 8);
    assert_eq!(a.raffle.closed, 1);

    let mut a = finish_accounts(10, 10, Vec::new());
    // -1 reads as u64::MAX; with time 0 the sum does not overflow: u64::MAX % 10 = 5
    finish_raffle_unchecked_at(&mut a, 5, -1, 0);
    assert_eq!(a.raffle.win_ticket_num, 6);
}

#[test]
fn finish_raffle_without_feed_data_changes_nothing() {
    let mut a = finish_accounts(4, 0, vec![0u8; PYTH_PRICE_DATA_MIN - 1]);
    assert_eq!(finish_raffle(&mut a, &program_id(), 5), None);
    assert_eq!(a.raffle.closed, 0);
    assert_eq!(a.raffle.win_ticket_num, 0);
    let mut a = finish_accounts(0, 0, vec![0u8; PYTH_PRICE_DATA_MIN]);
    assert_eq!(finish_raffle(&mut a, &program_id(), 5), None);
    assert_eq!(a.raffle.closed, 0);
    let mut a = finish_accounts(4, 0, vec![0u8; PYTH_PRICE_DATA_MIN]);
    match finish_raffle(&mut a, &program_id(), 5) {
        Some(Ok(())) => assert!(1 <= a.raffle.win_ticket_num && a.raffle.win_ticket_num <= 4),
        Some(Err(e)) => panic!("unexpected refusal {:?}", e),
        None => assert_eq!(a.raffle.closed, 0),
    }
}

#[test]
fn price_record_size_matches_the_feed_layout() {
    assert_eq!(PYTH_PRICE_DATA_MIN, std::mem::size_of::<pyth_client::Price>() + 7);
    assert_eq!(std::mem::align_of::<pyth_client::Price>(), 8);
}

#[test]
fn gen_wl_winners_draws_below_count() {
    assert_eq!(gen_wl_winners_at(123, 50, 77), 0);
    assert_eq!(gen_wl_winners_at(123, 7, 1), 5);
    let a = GenWlWinners { pyth_data: vec![0u8; PYTH_PRICE_DATA_MIN] };
    assert_eq!(gen_wl_winners(&a, 0), None);
    if let Some(w) = gen_wl_winners(&a, 9) {
        assert!(w < 9);
    }
    let short = GenWlWinners { pyth_data: vec![0u8; 10] };
    assert_eq!(gen_wl_winners(&short, 9), None);
}

#[test]
fn claim_pays_winner_once() {
    let mut c = claim_accounts(3, 0, 4);
    assert!(c.check_constraints(&program_id(), 5) == Some(Ok(())));
    let ts = claim_rewards_unchecked(&mut c, &program_id(), 5).unwrap();
    assert_eq!(ts.len(), 1);
    assert_eq!(ts[0].amount, 1);
    assert!(ts[0].from.key_eq(&reward_vault_key(&key(10))));
    assert!(ts[0].to.key_eq(&key(61)));
    assert!(ts[0].authority.key_eq(&gs_key()));
    assert_eq!(ts[0].signer_bump, Some(expected_bump()));
    assert_eq!(c.raffle.claimed, 1);
    assert_eq!(c.check_constraints(&program_id(), 5), Some(Err(Error::Constraint(ConstraintViolation::Raw))));
}

#[test]
fn claim_from_empty_vault_changes_nothing() {
    let mut c = claim_accounts(0, 0, 4);
    let ts = claim_rewards_unchecked_with_bump(&mut c, 5, 1);
    assert!(ts.is_empty());
    assert_eq!(c.raffle.claimed, 0);
}

#[test]
fn claim_constraints() {
    let mut c = claim_accounts(1, 0, 7);
    assert_eq!(c.check_constraints(&program_id(), 5), Some(Err(Error::Constraint(ConstraintViolation::Raw))));
    c.raffle.win_ticket_num = 3;
    assert_eq!(c.check_constraints(&program_id(), 5), Some(Ok(())));
    c.user = key(21);
    assert_eq!(c.check_constraints(&program_id(), 5), Some(Err(Error::Constraint(ConstraintViolation::Raw))));
    let mut c = claim_accounts(1, 0, 6);
    c.reward_mint = key(11);
    assert_eq!(c.check_constraints(&program_id(), 5), Some(Err(Error::Constraint(ConstraintViolation::Address))));
    let mut c = claim_accounts(1, 0, 6);
    c.reward_vault.owner = key(11);
    assert_eq!(c.check_constraints(&program_id(), 5), Some(Err(Error::Constraint(ConstraintViolation::TokenOwner))));
    let mut c = claim_accounts(1, 0, 6);
    c.reward_vault.mint = key(11);
    assert_eq!(c.check_constraints(&program_id(), 5), Some(Err(Error::Constraint(ConstraintViolation::TokenMint))));
}

#[test]
fn deposit_reward_moves_amount() {
    let a = DepositReward {
        owner: key(1),
        source_account: AccountRef { key: key(2), owner: token_program() },
        dest_account: AccountRef { key: key(3), owner: token_program() },
    };
    assert_eq!(a.check_constraints(), Ok(()));
    let t = deposit_reward_unchecked(&a, 42);
    assert_eq!(t.amount, 42);
    assert!(t.from.key_eq(&key(2)));
    assert!(t.to.key_eq(&key(3)));
    assert!(t.authority.key_eq(&key(1)));
    let b = DepositReward {
        owner: key(1),
        source_account: AccountRef { key: key(2), owner: token_program() },
        dest_account: AccountRef { key: key(3), owner: key(3) },
    };
    assert_eq!(b.check_constraints(), Err(Error::Constraint(ConstraintViolation::Owner)));
}

#[test]
fn first_bid_pays_into_vault() {
    let mut a = bid_accounts(100, zero_key());
    assert_eq!(a.check_constraints(&program_id(), 8), Some(Ok(())));
    let ts = bid_unchecked(&mut a, &program_id(), 8, 150).unwrap().unwrap();
    assert_eq!(ts.len(), 1);
    assert_eq!(ts[0].amount, 150);
    assert!(ts[0].from.key_eq(&key(52)));
    assert!(ts[0].to.key_eq(&key(51)));
    assert_eq!(a.auction.price, 150);
    assert!(a.auction.bidder.key_eq(&key(50)));
    assert!(a.auction.refund_receiver.key_eq(&key(52)));
}

#[test]
fn outbid_refunds_previous_bid() {
    let mut a = bid_accounts(150, key(52));
    a.user = key(53);
    a.from = key(54);
    let ts = bid_unchecked(&mut a, &program_id(), 8, 200).unwrap().unwrap();
    assert_eq!(ts.len(), 2);
    assert!(ts[0].to.key_eq(&key(52)));
    assert!(ts[0].from.key_eq(&key(51)));
    assert_eq!(ts[0].amount, 150);
    assert_eq!(ts[0].signer_bump, Some(expected_bump()));
    assert!(ts[0].authority.key_eq(&gs_key()));
    assert_eq!(ts[1].amount, 200);
    assert!(ts[1].from.key_eq(&key(54)));
    assert_eq!(a.auction.price, 200);
    assert!(a.auction.refund_receiver.key_eq(&key(54)));
}

#[test]
fn low_bid_is_refused() {
    let mut a = bid_accounts(150, key(52));
    assert_eq!(bid_unchecked_with_bump(&mut a, 150, 0).err(), Some(Error::Auction(AuctionError::BidPirceTooLow)));
    assert_eq!(bid_unchecked(&mut a, &program_id(), 8, 10).unwrap().err(), Some(Error::Auction(AuctionError::BidPirceTooLow)));
    assert_eq!(a.auction.price, 150);
}

#[test]
fn bid_constraints() {
    let mut a = bid_accounts(1, key(52));
    a.auction.closed = 1;
    assert_eq!(a.check_constraints(&program_id(), 8), Some(Err(Error::Constraint(ConstraintViolation::Raw))));
    let mut a = bid_accounts(1, key(52));
    a.ori_refund_receiver = key(1);
    assert_eq!(a.check_constraints(&program_id(), 8), Some(Err(Error::Constraint(ConstraintViolation::Raw))));
    let mut a = bid_accounts(1, key(52));
    a.bid_mint = key(9);
    assert_eq!(a.check_constraints(&program_id(), 8), Some(Err(Error::Constraint(ConstraintViolation::TokenMint))));
    let mut a = bid_accounts(1, key(52));
    a.bid_mint = key(9);
    a.vault.mint = key(9);
    assert_eq!(a.check_constraints(&program_id(), 8), Some(Err(Error::Constraint(ConstraintViolation::Address))));
}

#[test]
fn finish_auction_hands_item_to_bidder_and_closes() {
    let mut f = FinishAuction {
        user: key(1),
        global_state_key: gs_key(),
        auction_key: auction_key(8),
        auction: auction_with(200, key(52), 0),
        nft_holder: TokenAccount { key: key(70), mint: key(2), owner: gs_key(), amount: 1 },
        nft_mint: key(2),
        nft_receiver: TokenAccount { key: key(71), mint: key(2), owner: key(42), amount: 0 },
    };
    assert_eq!(f.check_constraints(&program_id(), 8), Some(Ok(())));
    let t = finish_auction_unchecked(&mut f, &program_id()).unwrap();
    assert_eq!(t.amount, 1);
    assert!(t.from.key_eq(&key(70)));
    assert!(t.to.key_eq(&key(71)));
    assert_eq!(t.signer_bump, Some(expected_bump()));
    assert_eq!(f.auction.closed, 1);
    let later = Bid {
        user: key(50),
        global_state_key: gs_key(),
        auction_key: auction_key(8),
        auction: f.auction,
        vault: TokenAccount { key: key(51), mint: key(2), owner: gs_key(), amount: 0 },
        bid_mint: key(2),
        from: key(52),
        ori_refund_receiver: key(52),
    };
    assert_eq!(later.check_constraints(&program_id(), 8), Some(Err(Error::Constraint(ConstraintViolation::Raw))));
    let t2 = finish_auction_unchecked_with_bump(&mut f, 9);
    assert_eq!(t2.signer_bump, Some(9));
}

#[test]
fn finish_auction_constraints() {
    let mut f = FinishAuction {
        user: key(1),
        global_state_key: gs_key(),
        auction_key: auction_key(8),
        auction: auction_with(200, key(52), 0),
        nft_holder: TokenAccount { key: key(70), mint: key(2), owner: gs_key(), amount: 1 },
        nft_mint: key(2),
        nft_receiver: TokenAccount { key: key(71), mint: key(2), owner: key(43), amount: 0 },
    };
    assert_eq!(f.check_constraints(&program_id(), 8), Some(Err(Error::Constraint(ConstraintViolation::Raw))));
    f.nft_holder.owner = key(1);
    assert_eq!(f.check_constraints(&program_id(), 8), Some(Err(Error::Constraint(ConstraintViolation::TokenOwner))));
}

#[test]
fn global_state_bump_matches_solana() {
    assert_eq!(find_global_state_bump(&program_id()), Some(expected_bump()));
}

#[test]
fn accounts_at_other_addresses_are_refused() {
    let mut a = buy_accounts(10, 1, 0);
    a.raffle_key = raffle_key(6);
    assert_eq!(a.check_constraints(&program_id(), 5), Some(Err(Error::Constraint(ConstraintViolation::Seeds))));
    assert_eq!(a.check_constraints(&program_id(), 6), Some(Ok(())));
    let mut a = buy_accounts(10, 1, 0);
    a.global_state_key = key(30);
    assert_eq!(a.check_constraints(&program_id(), 5), Some(Err(Error::Constraint(ConstraintViolation::Seeds))));
    let mut b = bid_accounts(1, zero_key());
    b.auction_key = auction_key(9);
    assert_eq!(b.check_constraints(&program_id(), 8), Some(Err(Error::Constraint(ConstraintViolation::Seeds))));
    let mut c = claim_accounts(1, 0, 4);
    c.reward_vault.key = reward_vault_key(&key(11));
    assert_eq!(c.check_constraints(&program_id(), 5), Some(Err(Error::Constraint(ConstraintViolation::Seeds))));
    let s = SetRaffle { admin: key(1), global_state: global_state(), raffle_key: raffle_key(5), raffle: raffle_with(1, 1, 0) };
    assert_eq!(s.check_constraints(&program_id(), 5), Some(Ok(())));
    assert_eq!(s.check_constraints(&program_id(), 4), Some(Err(Error::Constraint(ConstraintViolation::Seeds))));
}

#[test]
fn settlement_moves_the_bid_mint() {
    let f = FinishAuction {
        user: key(1),
        global_state_key: gs_key(),
        auction_key: auction_key(8),
        auction: auction_with(200, key(52), 0),
        nft_holder: TokenAccount { key: key(70), mint: key(41), owner: gs_key(), amount: 1 },
        nft_mint: key(41),
        nft_receiver: TokenAccount { key: key(71), mint: key(41), owner: key(42), amount: 0 },
    };
    assert_eq!(f.check_constraints(&program_id(), 8), Some(Err(Error::Constraint(ConstraintViolation::Address))));
}

#[test]
fn finish_raffle_with_clock_reading() {
    let mut a = finish_accounts(10, 10, Vec::new());
    assert!(finish_raffle_unchecked_with_clock(&mut a, 5, 37, Ok(1000)));
    assert_eq!(a.raffle.win_ticket_num, 8);
    assert_eq!(a.raffle.closed, 1);
    let mut a = finish_accounts(10, 10, Vec::new());
    assert!(!finish_raffle_unchecked_with_clock(&mut a, 5, 37, Err(ProgramError::UnsupportedSysvar)));
    assert_eq!(a.raffle.closed, 0);
    let mut a = finish_accounts(10, 10, Vec::new());
    // u64::MAX + 1 overflows: no draw
    assert!(!finish_raffle_unchecked_with_clock(&mut a, 5, -1, Ok(1)));
    assert_eq!(a.raffle.win_ticket_num, 0);
    let mut a = finish_accounts(10, 10, Vec::new());
    // u64::MAX - 1 + 1 = u64::MAX fits: 18446744073709551615 % 10 = 5
    assert!(finish_raffle_unchecked_with_clock(&mut a, 5, -2, Ok(1)));
    assert_eq!(a.raffle.win_ticket_num, 6);
}

#[test]
fn gen_wl_winners_with_clock_reading() {
    assert_eq!(gen_wl_winners_with_clock(123, 7, Ok(1)), Some(5));
    assert_eq!(gen_wl_winners_with_clock(123, 7, Ok(1)), gen_wl_winners_with_clock(123, 7, Ok(1)));
    assert_eq!(gen_wl_winners_with_clock(123, 0, Ok(1)), None);
    assert_eq!(gen_wl_winners_with_clock(123, 7, Err(ProgramError::UnsupportedSysvar)), None);
    assert_eq!(gen_wl_winners_with_clock(-1, 7, Ok(1)), None);
    assert_eq!(gen_wl_winners_with_clock(-1, 7, Ok(0)), Some(1));
}

#[test]
fn admin_instructions_check_first() {
    let mut a = CreateRaffle {
        admin: key(9),
        global_state: global_state(),
        raffle: raffle_with(0, 0, 0),
        reward_mint: key(11),
        reward_vault: key(12),
        source_account: key(13),
    };
    let r = create_raffle(&mut a, 7, 1, 1, 0, 0, String::new(), String::new(), String::new(), String::new(), 0, String::new());
    assert_eq!(r.err(), Some(Error::Constraint(ConstraintViolation::Raw)));
    assert_eq!(a.global_state.raffle_count, 3);
    a.admin = key(1);
    let t = create_raffle(&mut a, 7, 1, 1, 0, 0, String::new(), String::new(), String::new(), String::new(), 0, String::new()).unwrap();
    assert_eq!(t.amount, 1);
    assert_eq!(a.raffle.raffle_id, 7);
    assert_eq!(a.global_state.raffle_count, 4);

    let mut s = SetRaffle { admin: key(1), global_state: global_state(), raffle_key: raffle_key(5), raffle: raffle_with(1, 1, 0) };
    assert_eq!(
        set_raffle(&mut s, &program_id(), 4, 9, 9, 0, 0, key(3), String::new(), String::new(), String::new(), String::new(), 0, String::new()),
        Some(Err(Error::Constraint(ConstraintViolation::Seeds)))
    );
    assert_eq!(s.raffle.ticket_count, 1);
    assert_eq!(
        set_raffle(&mut s, &program_id(), 5, 9, 9, 0, 0, key(3), String::new(), String::new(), String::new(), String::new(), 0, String::new()),
        Some(Ok(()))
    );
    assert_eq!(s.raffle.ticket_count, 9);

    let mut d = DeleteRaffle { admin: key(1), global_state: global_state(), raffle_key: raffle_key(5), raffle: raffle_with(1, 1, 0) };
    assert_eq!(delete_raffle(&mut d, &program_id(), 5), Some(Ok(())));
    assert_eq!(d.global_state.raffle_count, 2);
    let mut d2 = DeleteRaffle { admin: key(2), global_state: global_state(), raffle_key: raffle_key(5), raffle: raffle_with(1, 1, 0) };
    assert_eq!(delete_raffle(&mut d2, &program_id(), 5), Some(Err(Error::Constraint(ConstraintViolation::Raw))));
    assert_eq!(d2.global_state.raffle_count, 3);

    let mut f = FinishRaffle { admin: key(2), global_state: global_state(), raffle_key: raffle_key(5), raffle: raffle_with(10, 1, 10), pyth_data: Vec::new() };
    assert_eq!(finish_raffle(&mut f, &program_id(), 5), Some(Err(Error::Constraint(ConstraintViolation::Raw))));
    assert_eq!(f.raffle.closed, 0);

    let mut c = CreateAuction { admin: key(1), global_state: global_state(), auction: auction_with(0, zero_key(), 0) };
    assert_eq!(create_auction(&mut c, 9, key(40), key(41), 2, 3, 4, 500), Ok(()));
    assert_eq!(c.global_state.auction_count, 5);
    let mut da = DeleteAuction { admin: key(1), global_state: c.global_state, auction_key: auction_key(9), auction: c.auction };
    assert_eq!(delete_auction(&mut da, &program_id(), 9), Some(Ok(())));
    assert_eq!(da.global_state.auction_count, 4);
}

#[test]
fn user_instructions_check_first() {
    let mut a = buy_accounts(10, 3, 9);
    assert_eq!(buy_ticket(&mut a, &program_id(), 5, 2).unwrap().err(), Some(Error::Raffle(RaffleError::InsufficientTickets)));
    assert_eq!(a.raffle.sold_tickets, 9);
    let mut a = buy_accounts(10, 3, 0);
    a.zzz_mint = key(3);
    assert_eq!(buy_ticket(&mut a, &program_id(), 5, 2).unwrap().err(), Some(Error::Constraint(ConstraintViolation::Address)));

    let mut c = claim_accounts(3, 0, 4);
    let ts = claim_rewards(&mut c, &program_id(), 5).unwrap().unwrap();
    assert_eq!(ts.len(), 1);
    assert_eq!(c.raffle.claimed, 1);
    assert_eq!(claim_rewards(&mut c, &program_id(), 5).unwrap().err(), Some(Error::Constraint(ConstraintViolation::Raw)));

    let d = DepositReward {
        owner: key(1),
        source_account: AccountRef { key: key(2), owner: token_program() },
        dest_account: AccountRef { key: key(3), owner: key(3) },
    };
    assert_eq!(deposit_reward(&d, 5).err(), Some(Error::Constraint(ConstraintViolation::Owner)));

    let mut b = bid_accounts(100, zero_key());
    let ts = bid(&mut b, &program_id(), 8, 120).unwrap().unwrap();
    assert_eq!(ts.len(), 1);
    assert_eq!(bid(&mut b, &program_id(), 8, 130).unwrap().err(), Some(Error::Constraint(ConstraintViolation::Raw)));
    assert_eq!(b.auction.price, 120);

    let mut f = FinishAuction {
        user: key(1),
        global_state_key: gs_key(),
        auction_key: auction_key(8),
        auction: auction_with(200, key(52), 0),
        nft_holder: TokenAccount { key: key(70), mint: key(2), owner: gs_key(), amount: 1 },
        nft_mint: key(2),
        nft_receiver: TokenAccount { key: key(71), mint: key(2), owner: key(42), amount: 0 },
    };
    let t = finish_auction(&mut f, &program_id(), 8).unwrap().unwrap();
    assert_eq!(t.amount, 1);
    assert_eq!(f.auction.closed, 1);
}

#[test]
fn vault_holds_the_leading_bid() {
    let vault = key(51);
    let mut b = bid_accounts(100, zero_key());
    let mut net: i128 = 0;
    let bids = [(key(60), 150u64), (key(61), 140), (key(62), 400), (key(63), 401)];
    for (from, price) in bids {
        b.from = from;
        b.ori_refund_receiver = b.auction.refund_receiver;
        if let Ok(ts) = bid_unchecked_with_bump(&mut b, price, 1) {
            for t in ts {
                if t.to.key_eq(&vault) {
                    net += t.amount as i128;
                }
                if t.from.key_eq(&vault) {
                    net -= t.amount as i128;
                }
            }
        }
    }
    assert_eq!(net, 401);
    assert_eq!(b.auction.price, 401);
    assert!(b.auction.refund_receiver.key_eq(&key(63)));
}

#[test]
fn tickets_are_never_oversold() {
    let mut a = buy_accounts(5, 1, 0);
    for count in [2u32, 4, 3, 1, 1] {
        let _ = buy_ticket_unchecked_at(&mut a, 5, count, 0);
        assert!(a.raffle.sold_tickets <= a.raffle.ticket_count);
        assert_eq!(a.raffle.ticket_count, 5);
    }
    assert_eq!(a.raffle.sold_tickets, 5);
}
