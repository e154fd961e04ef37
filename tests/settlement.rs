use anchor_lang::AnchorSerialize;
use otcl::engine::{
    approve_order, cancel_order, commit_order, create_order, expire_order, fill_order,
    reveal_order, reveal_with_digest, stake_tokens, withdraw_stake, withdraw_treasury,
    FillOutcome,
};
use otcl::fees::{calculate_fee, calculate_reward, compute_vip_tier};
use otcl::types::{
    AccountId, ErrorCode, MultiSigAccount, Order, OrderRevealData, OrderStatus, StakeAccount,
    Treasury,
};

fn id(b: u8) -> AccountId {
    AccountId::new([b; 32])
}

fn stake(amount: u64) -> StakeAccount {
    StakeAccount { trader: id(9), amount, last_updated: 0, vip_tier: compute_vip_tier(amount) }
}

fn open_order(quantity: u64, ttl: i64, now: i64) -> Order {
    create_order(id(1), 10, quantity, ttl, false, 0, now).unwrap()
}

#[test]
fn fee_without_discount() {
    assert_eq!(calculate_fee(100, 0), 1);
    assert_eq!(calculate_fee(100, 999), 1);
    assert_eq!(calculate_fee(12345, 0), 123);
}

#[test]
fn fee_with_discount_truncates() {
    assert_eq!(calculate_fee(100, 1000), 0);
    assert_eq!(calculate_fee(1000, 1000), 5);
    assert_eq!(calculate_fee(300, 5000), 1);
}

#[test]
fn fee_of_small_fill_is_zero() {
    assert_eq!(calculate_fee(99, 0), 0);
    assert_eq!(calculate_fee(0, 0), 0);
}

#[test]
fn reward_per_hundred_units() {
    assert_eq!(calculate_reward(250), 2);
    assert_eq!(calculate_reward(99), 0);
    assert_eq!(calculate_reward(u64::MAX), u64::MAX / 100);
}

#[test]
fn tier_boundaries() {
    assert_eq!(compute_vip_tier(0), 0);
    assert_eq!(compute_vip_tier(1), 1);
    assert_eq!(compute_vip_tier(999), 1);
    assert_eq!(compute_vip_tier(1000), 2);
    assert_eq!(compute_vip_tier(4999), 2);
    assert_eq!(compute_vip_tier(5000), 3);
    assert_eq!(compute_vip_tier(u64::MAX), 3);
}

#[test]
fn create_initialises_order() {
    let o = create_order(id(1), 10, 1000, 3600, true, 2, 50).unwrap();
    assert!(o.trader.bytes == [1; 32]);
    assert_eq!(o.price, 10);
    assert_eq!(o.quantity, 1000);
    assert_eq!(o.remaining_quantity, 1000);
    assert_eq!(o.status, OrderStatus::Open);
    assert_eq!(o.created_at, 50);
    assert_eq!(o.expiration_at, 3650);
    assert!(o.is_multisig);
    assert_eq!(o.multisig_threshold, 2);
    assert_eq!(o.approvals, 0);
    assert!(o.approved_by.is_empty());
    assert_eq!(o.commit_hash, [0; 32]);
}

#[test]
fn create_rejects_overflowing_expiry() {
    let r = create_order(id(1), 10, 1000, 10, false, 0, i64::MAX - 5);
    assert_eq!(r.err(), Some(ErrorCode::ArithmeticOverflow));
    let r = create_order(id(1), 10, 1000, -10, false, 0, i64::MIN + 5);
    assert_eq!(r.err(), Some(ErrorCode::ArithmeticOverflow));
}

#[test]
fn basic_fill() {
    let mut o = open_order(1000, 3600, 0);
    let mut t = Treasury { total_fees: 0 };
    let out = fill_order(&mut o, &mut t, &stake(0), 100, 10).unwrap();
    assert_eq!(out, FillOutcome { net: 99, fee: 1, reward: 1 });
    assert_eq!(o.remaining_quantity, 900);
    assert_eq!(o.status, OrderStatus::Open);
    assert_eq!(t.total_fees, 1);
}

#[test]
fn full_fill_closes_order() {
    let mut o = open_order(500, 3600, 0);
    let mut t = Treasury { total_fees: 0 };
    let out = fill_order(&mut o, &mut t, &stake(0), 500, 10).unwrap();
    assert_eq!(out, FillOutcome { net: 495, fee: 5, reward: 5 });
    assert_eq!(o.remaining_quantity, 0);
    assert_eq!(o.status, OrderStatus::Filled);
    let again = fill_order(&mut o, &mut t, &stake(0), 0, 10);
    assert_eq!(again, Err(ErrorCode::OrderNotOpen));
    assert_eq!(t.total_fees, 5);
}

#[test]
fn fills_summing_to_quantity_conserve_value() {
    let mut o = open_order(1000, 3600, 0);
    let mut t = Treasury { total_fees: 0 };
    let mut paid: u64 = 0;
    let mut last_remaining = o.remaining_quantity;
    for q in [150u64, 350, 1, 499] {
        let out = fill_order(&mut o, &mut t, &stake(2000), q, 10).unwrap();
        assert_eq!(out.net + out.fee, q);
        assert!(o.remaining_quantity <= last_remaining);
        last_remaining = o.remaining_quantity;
        paid += out.net;
    }
    assert_eq!(o.remaining_quantity, 0);
    assert_eq!(o.status, OrderStatus::Filled);
    assert_eq!(paid + t.total_fees, 1000);
}

#[test]
fn fill_larger_than_remaining_is_rejected() {
    let mut o = open_order(100, 3600, 0);
    let mut t = Treasury { total_fees: 7 };
    assert_eq!(fill_order(&mut o, &mut t, &stake(0), 101, 10), Err(ErrorCode::InvalidFillQuantity));
    assert_eq!(o.remaining_quantity, 100);
    assert_eq!(t.total_fees, 7);
}

#[test]
fn fill_after_expiry_is_rejected() {
    let mut o = open_order(100, 10, 0);
    let mut t = Treasury { total_fees: 0 };
    assert_eq!(fill_order(&mut o, &mut t, &stake(0), 50, 10), Err(ErrorCode::OrderExpired));
    assert_eq!(o.remaining_quantity, 100);
}

#[test]
fn fill_overflowing_treasury_is_rejected() {
    let mut o = open_order(1000, 3600, 0);
    let mut t = Treasury { total_fees: u64::MAX };
    assert_eq!(fill_order(&mut o, &mut t, &stake(0), 100, 10), Err(ErrorCode::ArithmeticOverflow));
    assert_eq!(o.remaining_quantity, 1000);
    let out = fill_order(&mut o, &mut t, &stake(0), 50, 10).unwrap();
    assert_eq!(out.fee, 0);
}

#[test]
fn expiry_gate() {
    let mut o = open_order(800, 10, 100);
    assert_eq!(expire_order(&mut o, 105), Err(ErrorCode::OrderNotExpired));
    assert_eq!(o.status, OrderStatus::Open);
    assert_eq!(expire_order(&mut o, 111), Ok(800));
    assert_eq!(o.status, OrderStatus::Expired);
    assert_eq!(expire_order(&mut o, 200), Err(ErrorCode::OrderNotOpen));
}

#[test]
fn expiry_at_exact_deadline() {
    let mut o = open_order(800, 10, 100);
    assert_eq!(expire_order(&mut o, 110), Ok(800));
}

#[test]
fn cancel_by_trader_returns_remaining() {
    let mut o = open_order(1000, 3600, 0);
    let mut t = Treasury { total_fees: 0 };
    fill_order(&mut o, &mut t, &stake(0), 300, 1).unwrap();
    assert_eq!(cancel_order(&mut o, &id(2)), Err(ErrorCode::Unauthorized));
    assert_eq!(cancel_order(&mut o, &id(1)), Ok(700));
    assert_eq!(o.status, OrderStatus::Cancelled);
    assert_eq!(cancel_order(&mut o, &id(1)), Err(ErrorCode::OrderNotOpen));
}

#[test]
fn terminal_states_stay_terminal() {
    let mut o = open_order(100, 3600, 0);
    cancel_order(&mut o, &id(1)).unwrap();
    let mut t = Treasury { total_fees: 0 };
    let group = MultiSigAccount { owners: vec![id(1)], threshold: 1 };
    assert_eq!(fill_order(&mut o, &mut t, &stake(0), 1, 1), Err(ErrorCode::OrderNotOpen));
    assert_eq!(expire_order(&mut o, 10_000), Err(ErrorCode::OrderNotOpen));
    assert_eq!(approve_order(&mut o, &group, &id(1)), Err(ErrorCode::OrderNotOpen));
    assert_eq!(commit_order(&mut o, [7; 32]), Err(ErrorCode::OrderNotOpen));
    assert_eq!(reveal_order(&mut o, &id(1), 1, 1, 1, false, 0, 1), Err(ErrorCode::OrderNotOpen));
    assert_eq!(o.status, OrderStatus::Cancelled);
}

#[test]
fn treasury_guard() {
    let mut t = Treasury { total_fees: 5 };
    assert_eq!(withdraw_treasury(&mut t, 10), Err(ErrorCode::InsufficientTreasury));
    assert_eq!(t.total_fees, 5);
    assert_eq!(withdraw_treasury(&mut t, 5), Ok(()));
    assert_eq!(t.total_fees, 0);
}

#[test]
fn staking_updates_tier() {
    let mut s = StakeAccount { trader: id(3), amount: 0, last_updated: 0, vip_tier: 0 };
    assert_eq!(stake_tokens(&mut s, &id(3), 999, 5), Ok(1));
    assert_eq!(s.amount, 999);
    assert_eq!(s.last_updated, 5);
    assert_eq!(stake_tokens(&mut s, &id(3), 1, 6), Ok(2));
    assert_eq!(stake_tokens(&mut s, &id(3), 4000, 7), Ok(3));
    assert_eq!(s.vip_tier, 3);
    assert_eq!(stake_tokens(&mut s, &id(3), u64::MAX, 8), Err(ErrorCode::ArithmeticOverflow));
    assert_eq!(s.amount, 5000);
}

#[test]
fn withdrawing_stake() {
    let mut s = StakeAccount { trader: id(3), amount: 5000, last_updated: 0, vip_tier: 3 };
    assert_eq!(withdraw_stake(&mut s, 5001, 1), Err(ErrorCode::InsufficientStake));
    assert_eq!(s.amount, 5000);
    assert_eq!(withdraw_stake(&mut s, 4001, 2), Ok(1));
    assert_eq!(s.last_updated, 2);
    assert_eq!(withdraw_stake(&mut s, 999, 3), Ok(0));
    assert_eq!(s.amount, 0);
}

#[test]
fn approvals_are_counted_once_per_owner() {
    let mut o = create_order(id(1), 10, 100, 3600, true, 2, 0).unwrap();
    let group = MultiSigAccount { owners: vec![id(4), id(5), id(6)], threshold: 2 };
    assert_eq!(approve_order(&mut o, &group, &id(7)), Err(ErrorCode::Unauthorized));
    assert_eq!(approve_order(&mut o, &group, &id(4)), Ok(1));
    assert_eq!(approve_order(&mut o, &group, &id(4)), Ok(1));
    assert_eq!(o.approvals, 1);
    assert_eq!(approve_order(&mut o, &group, &id(6)), Ok(2));
    assert_eq!(o.approved_by.len(), 2);
}

#[test]
fn approval_of_plain_order_is_rejected() {
    let mut o = open_order(100, 3600, 0);
    let group = MultiSigAccount { owners: vec![id(4)], threshold: 1 };
    assert_eq!(approve_order(&mut o, &group, &id(4)), Err(ErrorCode::NotMultisigOrder));
}

#[test]
fn multisig_order_needs_threshold_before_fill() {
    let mut o = create_order(id(1), 10, 100, 3600, true, 1, 0).unwrap();
    let group = MultiSigAccount { owners: vec![id(4)], threshold: 1 };
    let mut t = Treasury { total_fees: 0 };
    assert_eq!(fill_order(&mut o, &mut t, &stake(0), 10, 1), Err(ErrorCode::InsufficientApprovals));
    assert_eq!(cancel_order(&mut o, &id(1)), Err(ErrorCode::InsufficientApprovals));
    approve_order(&mut o, &group, &id(4)).unwrap();
    assert!(fill_order(&mut o, &mut t, &stake(0), 10, 1).is_ok());
    assert_eq!(o.remaining_quantity, 90);
}

fn terms(price: u64) -> OrderRevealData {
    OrderRevealData { price, quantity: 400, ttl: 60, is_multisig: false, multisig_threshold: 0 }
}

#[test]
fn reveal_encoding_layout() {
    let d = OrderRevealData {
        price: 0x0102,
        quantity: 3,
        ttl: -1,
        is_multisig: true,
        multisig_threshold: 9,
    };
    let mut expected = vec![0x02, 0x01, 0, 0, 0, 0, 0, 0, 3, 0, 0, 0, 0, 0, 0, 0];
    expected.extend_from_slice(&[0xff; 8]);
    expected.push(1);
    expected.push(9);
    assert_eq!(d.encode(), expected);
}

#[test]
fn commitment_is_sha256_of_encoding() {
    let d = terms(25);
    let h = d.commitment();
    assert_eq!(h, solana_program::hash::hash(&d.encode()).to_bytes());
    assert_ne!(h.to_vec(), d.encode()[..].to_vec());
    assert_ne!(h, terms(26).commitment());
}

#[test]
fn commit_then_reveal_round_trip() {
    let mut o = open_order(1000, 3600, 0);
    let d = terms(25);
    assert_eq!(commit_order(&mut o, d.commitment()), Ok(()));
    assert_eq!(commit_order(&mut o, d.commitment()), Err(ErrorCode::AlreadyCommitted));
    let mut t = Treasury { total_fees: 0 };
    assert_eq!(fill_order(&mut o, &mut t, &stake(0), 10, 1), Err(ErrorCode::AwaitingReveal));
    assert_eq!(reveal_order(&mut o, &id(2), 25, 400, 60, false, 0, 500), Err(ErrorCode::Unauthorized));
    assert_eq!(reveal_order(&mut o, &id(1), 26, 400, 60, false, 0, 500), Err(ErrorCode::InvalidReveal));
    assert_eq!(reveal_order(&mut o, &id(1), 25, 401, 60, false, 0, 500), Err(ErrorCode::InvalidReveal));
    assert_eq!(reveal_order(&mut o, &id(1), 25, 400, 61, false, 0, 500), Err(ErrorCode::InvalidReveal));
    assert_eq!(reveal_order(&mut o, &id(1), 25, 400, 60, true, 0, 500), Err(ErrorCode::InvalidReveal));
    assert_eq!(reveal_order(&mut o, &id(1), 25, 400, 60, false, 1, 500), Err(ErrorCode::InvalidReveal));
    assert_eq!(o.price, 10);
    assert_eq!(reveal_order(&mut o, &id(1), 25, 400, 60, false, 0, 500), Ok(()));
    assert_eq!(o.price, 25);
    assert_eq!(o.quantity, 400);
    assert_eq!(o.remaining_quantity, 400);
    assert_eq!(o.created_at, 500);
    assert_eq!(o.expiration_at, 560);
    assert_eq!(o.commit_hash, [0; 32]);
    assert!(fill_order(&mut o, &mut t, &stake(0), 100, 501).is_ok());
}

#[test]
fn reveal_with_given_digest() {
    let mut o = open_order(1000, 3600, 0);
    commit_order(&mut o, [5; 32]).unwrap();
    assert_eq!(reveal_with_digest(&mut o, &id(1), &terms(1), &[6; 32], 0), Err(ErrorCode::InvalidReveal));
    assert_eq!(reveal_with_digest(&mut o, &id(1), &terms(1), &[5; 32], 0), Ok(()));
    assert_eq!(o.price, 1);
}

#[test]
fn reveal_with_overflowing_expiry() {
    let mut o = open_order(1000, 3600, 0);
    commit_order(&mut o, [5; 32]).unwrap();
    assert_eq!(
        reveal_with_digest(&mut o, &id(1), &terms(1), &[5; 32], i64::MAX),
        Err(ErrorCode::ArithmeticOverflow)
    );
    assert_eq!(o.commit_hash, [5; 32]);
}

#[test]
fn error_messages() {
    assert_eq!(ErrorCode::InsufficientTreasury.message(), "Insufficient treasury funds.");
    assert_eq!(ErrorCode::OrderNotOpen.message(), "Order is not open.");
}

#[test]
fn well_formedness_check() {
    let mut o = create_order(id(1), 10, 100, 3600, true, 2, 0).unwrap();
    assert!(o.check_wf());
    let group = MultiSigAccount { owners: vec![id(4), id(5)], threshold: 2 };
    approve_order(&mut o, &group, &id(4)).unwrap();
    approve_order(&mut o, &group, &id(5)).unwrap();
    assert!(o.check_wf());
    o.approved_by[1] = id(4);
    assert!(!o.check_wf());
    o.approved_by[1] = id(5);
    o.approvals = 1;
    assert!(!o.check_wf());
    o.approvals = 2;
    o.remaining_quantity = 101;
    assert!(!o.check_wf());
}

#[test]
fn reveal_encoding_matches_borsh() {
    for (price, quantity, ttl, flag, threshold) in
        [(25u64, 400u64, 60i64, false, 0u8), (u64::MAX, 0, i64::MIN, true, 255), (7, 9, -3, true, 2)]
    {
        let d = OrderRevealData { price, quantity, ttl, is_multisig: flag, multisig_threshold: threshold };
        let expected = (price, quantity, ttl, flag, threshold).try_to_vec().unwrap();
        assert_eq!(d.encode(), expected);
    }
}
