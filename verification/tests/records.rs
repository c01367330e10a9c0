//! The record-level operations, driven directly on Market and Bet values
//! as the surrounding runtime would hand them in.

use prediction_market::bet::place_bet;
use prediction_market::errors::ErrorCode;
use prediction_market::market::{cancel_market, close_escrow, create_market, resolve_market,
    set_authorized_resolver, Market};
use prediction_market::settlement::claim_winnings;

const CREATOR: u64 = 11;
const OTHER: u64 = 22;
const TREASURY: u64 = 23;
const ADDRESS: u64 = 5;
const ESCROW: u64 = 900;
const END: i64 = 50_000;

fn fresh_market(grace_minutes: u8) -> Market {
    let (m, _) = create_market(
        String::from("Will the launch hold?"),
        END,
        254,
        100,
        grace_minutes,
        1_000,
        CREATOR,
        ADDRESS,
        ESCROW,
    )
    .unwrap();
    m
}

#[test]
fn create_market_derives_the_deadline() {
    let m = fresh_market(45);
    assert_eq!(m.address, ADDRESS);
    assert_eq!(m.end_time, END);
    assert_eq!(m.resolution_deadline, END + 45 * 60);
    assert_eq!(m.grace_period_minutes, 45);
    let zero_grace = fresh_market(0);
    assert_eq!(zero_grace.resolution_deadline, END);
}

#[test]
fn cancel_market_flips_the_flag_once() {
    let mut m = fresh_market(10);
    let ev = cancel_market(&mut m, CREATOR, 2_000).unwrap();
    assert_eq!(ev.market, ADDRESS);
    assert!(m.cancelled);
    assert_eq!(cancel_market(&mut m, CREATOR, 2_000), Err(ErrorCode::MarketAlreadyCancelled));
}

#[test]
fn resolve_market_fixes_the_outcome_at_the_deadline() {
    let mut m = fresh_market(10);
    let deadline = m.resolution_deadline;
    assert_eq!(
        resolve_market(&mut m, CREATOR, true, deadline - 1),
        Err(ErrorCode::MarketStillInGracePeriod)
    );
    let ev = resolve_market(&mut m, CREATOR, true, deadline).unwrap();
    assert_eq!(ev.outcome, true);
    assert_eq!(m.outcome, Some(true));
    assert!(m.resolved);
}

#[test]
fn set_authorized_resolver_records_the_replacement() {
    let mut m = fresh_market(10);
    let ev = set_authorized_resolver(&mut m, CREATOR, Some(OTHER), 1_500).unwrap();
    assert_eq!(ev.old_resolver, None);
    assert_eq!(ev.new_resolver, Some(OTHER));
    assert_eq!(m.authorized_resolver, Some(OTHER));
    assert_eq!(
        set_authorized_resolver(&mut m, OTHER, None, 1_600),
        Err(ErrorCode::UnauthorizedResolver)
    );
}

#[test]
fn place_bet_writes_the_record_after_the_checks() {
    let mut m = fresh_market(10);
    let mut b = prediction_market::bet::Bet {
        user: 0,
        market: 0,
        side: false,
        amount: 0,
        claimed: false,
        initialized: false,
    };
    let ev = place_bet(&mut m, &mut b, true, 75, OTHER, 1_200).unwrap();
    assert_eq!(ev.amount, 75);
    assert_eq!(m.total_yes, 75);
    assert_eq!(b.user, OTHER);
    assert_eq!(b.market, ADDRESS);
    assert!(b.initialized);
    assert!(!b.claimed);
    assert_eq!(
        place_bet(&mut m, &mut b, false, 10, OTHER, 1_300),
        Err(ErrorCode::DuplicateBet)
    );
    assert_eq!(m.total_no, 0);
}

#[test]
fn claim_winnings_settles_a_single_winner() {
    let mut m = fresh_market(10);
    let mut b = prediction_market::bet::Bet {
        user: 0,
        market: 0,
        side: false,
        amount: 0,
        claimed: false,
        initialized: false,
    };
    place_bet(&mut m, &mut b, true, 400, OTHER, 1_200).unwrap();
    let deadline = m.resolution_deadline;
    resolve_market(&mut m, CREATOR, true, deadline).unwrap();
    // gross = 400 * 400 / 400 = 400; fee = 4, split 2 and 2; net = 396
    let (ev, txs) = claim_winnings(&m, &mut b, OTHER, TREASURY, 400, deadline + 1).unwrap();
    assert_eq!(ev.amount, 396);
    assert_eq!(ev.creator_fee, 2);
    assert_eq!(ev.treasury_fee, 2);
    assert_eq!(txs.len(), 3);
    assert_eq!(txs[0].to, OTHER);
    assert_eq!(txs[0].amount, 396);
    assert_eq!(txs[1].to, CREATOR);
    assert_eq!(txs[1].amount, 2);
    assert_eq!(txs[2].to, TREASURY);
    assert_eq!(txs[2].amount, 2);
    assert!(b.claimed);
    assert_eq!(
        claim_winnings(&m, &mut b, OTHER, TREASURY, 400, deadline + 2),
        Err(ErrorCode::AlreadyClaimed)
    );
}

#[test]
fn claim_gates_on_ownership_and_market_linkage() {
    let mut m = fresh_market(10);
    let mut b = prediction_market::bet::Bet {
        user: 0,
        market: 0,
        side: false,
        amount: 0,
        claimed: false,
        initialized: false,
    };
    place_bet(&mut m, &mut b, true, 400, OTHER, 1_200).unwrap();
    let deadline = m.resolution_deadline;
    resolve_market(&mut m, CREATOR, true, deadline).unwrap();
    assert_eq!(
        claim_winnings(&m, &mut b, CREATOR, TREASURY, 400, deadline + 1),
        Err(ErrorCode::NotYourBet)
    );
    let mut astray = b;
    astray.market = ADDRESS + 1;
    assert_eq!(
        claim_winnings(&m, &mut astray, OTHER, TREASURY, 400, deadline + 1),
        Err(ErrorCode::InvalidMarket)
    );
}

#[test]
fn close_escrow_passes_the_deposit_through() {
    let mut m = fresh_market(10);
    let deadline = m.resolution_deadline;
    resolve_market(&mut m, CREATOR, false, deadline).unwrap();
    let ev = close_escrow(&m, CREATOR, 0, 1_234, deadline + 9).unwrap();
    assert_eq!(ev.rent_reclaimed, 1_234);
    assert_eq!(ev.closed_by, CREATOR);
}
