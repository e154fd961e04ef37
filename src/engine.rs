use vstd::prelude::*;
use crate::commit::{reveal_encoding, sha256_digest};
use crate::fees::{calculate_fee, calculate_reward, compute_vip_tier, fee_for, reward_for, vip_tier_of};
use crate::types::{
    bytes32_eq, bytes32_is_zero, contains_id, id_listed, is_zero_hash, AccountId, ErrorCode,
    MultiSigAccount, Order, OrderRevealData, OrderStatus, StakeAccount, Treasury,
};

verus! {

/// What a successful fill pays out.
#[derive(Clone, Copy, Debug, PartialEq, Eq, Structural)]
pub struct FillOutcome {
    /// Units transferred from escrow to the filler.
    pub net: u64,
    /// Units credited to the treasury.
    pub fee: u64,
    /// Reward tokens minted to the filler.
    pub reward: u64,
}

/// Whether `now + ttl` fits the timestamp type.
pub open spec fn expiry_fits(now: i64, ttl: i64) -> bool {
    i64::MIN <= now + ttl <= i64::MAX
}

/// `now + ttl`, or an overflow error.
fn expiry_from(now: i64, ttl: i64) -> (r: Result<i64, ErrorCode>)
    ensures
        match r {
            Ok(t) => expiry_fits(now, ttl) && t == now + ttl,
            Err(e) => !expiry_fits(now, ttl) && e == ErrorCode::ArithmeticOverflow,
        },
{
    if ttl > 0 && now > i64::MAX - ttl {
        Err(ErrorCode::ArithmeticOverflow)
    } else if ttl < 0 && now < i64::MIN - ttl {
        Err(ErrorCode::ArithmeticOverflow)
    } else {
        Ok(now + ttl)
    }
}

fn zero_hash() -> (r: [u8; 32])
    ensures
        is_zero_hash(r@),
        r@.len() == 32,
{
    broadcast use vstd::array::group_array_axioms;
    let r: [u8; 32] = vstd::array::array_fill_for_copy_types(0u8);
    r
}

/// Open a new order. The caller escrows `quantity` units from the trader.
pub fn create_order(
    trader: AccountId,
    price: u64,
    quantity: u64,
    ttl: i64,
    is_multisig: bool,
    multisig_threshold: u8,
    now: i64,
) -> (r: Result<Order, ErrorCode>)
    ensures
        r is Ok <==> expiry_fits(now, ttl),
        match r {
            Ok(o) => {
                &&& o.wf()
                &&& o.trader == trader
                &&& o.price == price
                &&& o.quantity == quantity
                &&& o.remaining_quantity == quantity
                &&& o.status == OrderStatus::Open
                &&& o.created_at == now
                &&& o.expiration_at == now + ttl
                &&& o.is_multisig == is_multisig
                &&& o.multisig_threshold == multisig_threshold
                &&& o.approvals == 0
                &&& o.approved_by@ == Seq::<AccountId>::empty()
                &&& o.priority == 0
                &&& !o.has_commitment()
            },
            Err(e) => e == ErrorCode::ArithmeticOverflow,
        },
{
    let expiration_at = match expiry_from(now, ttl) {
        Ok(t) => t,
        Err(e) => return Err(e),
    };
    let o = Order {
        trader,
        price,
        quantity,
        remaining_quantity: quantity,
        status: OrderStatus::Open,
        created_at: now,
        expiration_at,
        is_multisig,
        multisig_threshold,
        approvals: 0,
        approved_by: Vec::new(),
        priority: 0,
        commit_hash: zero_hash(),
    };
    assert(o.approved_by@ =~= Seq::<AccountId>::empty());
    Ok(o)
}

/// Why a cancellation by `trader` is refused, if it is.
pub open spec fn cancel_error(o: Order, trader: Seq<u8>) -> Option<ErrorCode> {
    if o.trader.view() != trader {
        Some(ErrorCode::Unauthorized)
    } else if !o.is_open() {
        Some(ErrorCode::OrderNotOpen)
    } else if !o.approval_gate_open() {
        Some(ErrorCode::InsufficientApprovals)
    } else {
        None
    }
}

/// Cancel an open order on its trader's request. Returns the collateral
/// that goes back to the trader: all that is still unfilled.
pub fn cancel_order(order: &mut Order, trader: &AccountId) -> (r: Result<u64, ErrorCode>)
    ensures
        match r {
            Ok(amount) => {
                &&& cancel_error(*old(order), trader.view()) is None
                &&& amount == old(order).remaining_quantity
                &&& *final(order) == (Order { status: OrderStatus::Cancelled, ..*old(order) })
            },
            Err(e) => {
                &&& cancel_error(*old(order), trader.view()) == Some(e)
                &&& *final(order) == *old(order)
            },
        },
{
    if !order.trader.same_as(trader) {
        return Err(ErrorCode::Unauthorized);
    }
    if order.status != OrderStatus::Open {
        return Err(ErrorCode::OrderNotOpen);
    }
    if order.is_multisig && order.approvals < order.multisig_threshold {
        return Err(ErrorCode::InsufficientApprovals);
    }
    order.status = OrderStatus::Cancelled;
    Ok(order.remaining_quantity)
}

/// Why expiring the order at time `now` is refused, if it is.
pub open spec fn expire_error(o: Order, now: i64) -> Option<ErrorCode> {
    if !o.is_open() {
        Some(ErrorCode::OrderNotOpen)
    } else if now < o.expiration_at {
        Some(ErrorCode::OrderNotExpired)
    } else {
        None
    }
}

/// Expire an open order whose expiration time has come; anyone may do so.
/// Returns the collateral that goes back to the trader.
pub fn expire_order(order: &mut Order, now: i64) -> (r: Result<u64, ErrorCode>)
    ensures
        match r {
            Ok(amount) => {
                &&& expire_error(*old(order), now) is None
                &&& amount == old(order).remaining_quantity
                &&& *final(order) == (Order { status: OrderStatus::Expired, ..*old(order) })
            },
            Err(e) => {
                &&& expire_error(*old(order), now) == Some(e)
                &&& *final(order) == *old(order)
            },
        },
{
    if order.status != OrderStatus::Open {
        return Err(ErrorCode::OrderNotOpen);
    }
    if now < order.expiration_at {
        return Err(ErrorCode::OrderNotExpired);
    }
    order.status = OrderStatus::Expired;
    Ok(order.remaining_quantity)
}

/// Why an approval by `approver` is refused, if it is.
pub open spec fn approve_error(o: Order, owners: Seq<AccountId>, approver: Seq<u8>) -> Option<
    ErrorCode,
> {
    if !o.is_open() {
        Some(ErrorCode::OrderNotOpen)
    } else if !o.is_multisig {
        Some(ErrorCode::NotMultisigOrder)
    } else if !id_listed(owners, approver) {
        Some(ErrorCode::Unauthorized)
    } else if !id_listed(o.approved_by@, approver) && o.approvals == u8::MAX {
        Some(ErrorCode::ArithmeticOverflow)
    } else {
        None
    }
}

/// The two orders agree on everything but the approval record.
pub open spec fn same_but_approvals(a: Order, b: Order) -> bool {
    &&& a.trader == b.trader
    &&& a.price == b.price
    &&& a.quantity == b.quantity
    &&& a.remaining_quantity == b.remaining_quantity
    &&& a.status == b.status
    &&& a.created_at == b.created_at
    &&& a.expiration_at == b.expiration_at
    &&& a.is_multisig == b.is_multisig
    &&& a.multisig_threshold == b.multisig_threshold
    &&& a.priority == b.priority
    &&& a.commit_hash == b.commit_hash
}

/// Record the approval of a multisig owner. Approving twice is a no-op.
/// Returns the number of distinct approvals.
pub fn approve_order(order: &mut Order, multisig: &MultiSigAccount, approver: &AccountId) -> (r:
    Result<u8, ErrorCode>)
    requires
        old(order).wf(),
    ensures
        final(order).wf(),
        match r {
            Ok(n) => {
                &&& approve_error(*old(order), multisig.owners@, approver.view()) is None
                &&& n == final(order).approvals
                &&& if id_listed(old(order).approved_by@, approver.view()) {
                    *final(order) == *old(order)
                } else {
                    &&& same_but_approvals(*final(order), *old(order))
                    &&& final(order).approvals == old(order).approvals + 1
                    &&& final(order).approved_by@ == old(order).approved_by@.push(*approver)
                }
            },
            Err(e) => {
                &&& approve_error(*old(order), multisig.owners@, approver.view()) == Some(e)
                &&& *final(order) == *old(order)
            },
        },
{
    if order.status != OrderStatus::Open {
        return Err(ErrorCode::OrderNotOpen);
    }
    if !order.is_multisig {
        return Err(ErrorCode::NotMultisigOrder);
    }
    if !contains_id(&multisig.owners, approver) {
        return Err(ErrorCode::Unauthorized);
    }
    if contains_id(&order.approved_by, approver) {
        return Ok(order.approvals);
    }
    if order.approvals == u8::MAX {
        return Err(ErrorCode::ArithmeticOverflow);
    }
    let ghost before = order.approved_by@;
    order.approvals = order.approvals + 1;
    order.approved_by.push(*approver);
    assert forall|i: int, j: int|
        0 <= i < order.approved_by@.len() && 0 <= j < order.approved_by@.len() && i != j
            implies order.approved_by@[i].view() != order.approved_by@[j].view() by {
        if i < before.len() && j < before.len() {
        } else if i == before.len() {
            assert(before[j] == order.approved_by@[j]);
        } else {
            assert(before[i] == order.approved_by@[i]);
        }
    }
    Ok(order.approvals)
}

/// Why a fill of `q` units at time `now` is refused, if it is; `total_fees`
/// is the treasury balance and `stake` the filler's staked amount.
pub open spec fn fill_error(o: Order, total_fees: u64, stake: u64, q: u64, now: i64) -> Option<
    ErrorCode,
> {
    if !o.is_open() {
        Some(ErrorCode::OrderNotOpen)
    } else if o.has_commitment() {
        Some(ErrorCode::AwaitingReveal)
    } else if !o.approval_gate_open() {
        Some(ErrorCode::InsufficientApprovals)
    } else if q > o.remaining_quantity {
        Some(ErrorCode::InvalidFillQuantity)
    } else if now >= o.expiration_at {
        Some(ErrorCode::OrderExpired)
    } else if total_fees + fee_for(q as nat, stake as nat) > u64::MAX {
        Some(ErrorCode::ArithmeticOverflow)
    } else {
        None
    }
}

/// The order after `q` units of it were filled.
pub open spec fn order_after_fill(o: Order, q: u64) -> Order {
    let rem = (o.remaining_quantity - q) as u64;
    Order {
        remaining_quantity: rem,
        status: if rem == 0 {
            OrderStatus::Filled
        } else {
            o.status
        },
        ..o
    }
}

/// Fill `fill_quantity` units of an open order. The fee goes to the
/// treasury; the caller transfers `net` units from escrow to the filler and
/// mints `reward` tokens to the filler.
pub fn fill_order(
    order: &mut Order,
    treasury: &mut Treasury,
    filler_stake: &StakeAccount,
    fill_quantity: u64,
    now: i64,
) -> (r: Result<FillOutcome, ErrorCode>)
    requires
        old(order).wf(),
    ensures
        final(order).wf(),
        match r {
            Ok(out) => {
                &&& fill_error(
                    *old(order),
                    old(treasury).total_fees,
                    filler_stake.amount,
                    fill_quantity,
                    now,
                ) is None
                &&& *final(order) == order_after_fill(*old(order), fill_quantity)
                &&& out.fee as nat == fee_for(fill_quantity as nat, filler_stake.amount as nat)
                &&& out.net + out.fee == fill_quantity
                &&& out.reward as nat == reward_for(fill_quantity as nat)
                &&& final(treasury).total_fees == old(treasury).total_fees + out.fee
            },
            Err(e) => {
                &&& fill_error(
                    *old(order),
                    old(treasury).total_fees,
                    filler_stake.amount,
                    fill_quantity,
                    now,
                ) == Some(e)
                &&& *final(order) == *old(order)
                &&& *final(treasury) == *old(treasury)
            },
        },
{
    if order.status != OrderStatus::Open {
        return Err(ErrorCode::OrderNotOpen);
    }
    if !bytes32_is_zero(&order.commit_hash) {
        return Err(ErrorCode::AwaitingReveal);
    }
    if order.is_multisig && order.approvals < order.multisig_threshold {
        return Err(ErrorCode::InsufficientApprovals);
    }
    if fill_quantity > order.remaining_quantity {
        return Err(ErrorCode::InvalidFillQuantity);
    }
    if now >= order.expiration_at {
        return Err(ErrorCode::OrderExpired);
    }
    let fee = calculate_fee(fill_quantity, filler_stake.amount);
    if treasury.total_fees > u64::MAX - fee {
        return Err(ErrorCode::ArithmeticOverflow);
    }
    let net = fill_quantity - fee;
    let reward = calculate_reward(fill_quantity);
    order.remaining_quantity = order.remaining_quantity - fill_quantity;
    if order.remaining_quantity == 0 {
        order.status = OrderStatus::Filled;
    }
    treasury.total_fees = treasury.total_fees + fee;
    Ok(FillOutcome { net, fee, reward })
}

/// Add `amount` to a trader's stake at time `now`; returns the new tier.
/// The caller moves `amount` units from the trader into the staking pool.
pub fn stake_tokens(stake: &mut StakeAccount, trader: &AccountId, amount: u64, now: i64) -> (r:
    Result<u8, ErrorCode>)
    ensures
        r is Ok <==> old(stake).amount + amount <= u64::MAX,
        match r {
            Ok(tier) => {
                &&& final(stake).trader == *trader
                &&& final(stake).amount == old(stake).amount + amount
                &&& final(stake).last_updated == now
                &&& final(stake).vip_tier == vip_tier_of(final(stake).amount)
                &&& tier == final(stake).vip_tier
            },
            Err(e) => e == ErrorCode::ArithmeticOverflow && *final(stake) == *old(stake),
        },
{
    if stake.amount > u64::MAX - amount {
        return Err(ErrorCode::ArithmeticOverflow);
    }
    stake.trader = *trader;
    stake.amount = stake.amount + amount;
    stake.last_updated = now;
    stake.vip_tier = compute_vip_tier(stake.amount);
    Ok(stake.vip_tier)
}

/// Take `amount` out of a stake at time `now`; returns the new tier.
/// The caller moves `amount` units from the staking pool back to the trader.
pub fn withdraw_stake(stake: &mut StakeAccount, amount: u64, now: i64) -> (r: Result<
    u8,
    ErrorCode,
>)
    ensures
        r is Ok <==> amount <= old(stake).amount,
        match r {
            Ok(tier) => {
                &&& final(stake).trader == old(stake).trader
                &&& final(stake).amount == old(stake).amount - amount
                &&& final(stake).last_updated == now
                &&& final(stake).vip_tier == vip_tier_of(final(stake).amount)
                &&& tier == final(stake).vip_tier
            },
            Err(e) => e == ErrorCode::InsufficientStake && *final(stake) == *old(stake),
        },
{
    if amount > stake.amount {
        return Err(ErrorCode::InsufficientStake);
    }
    stake.amount = stake.amount - amount;
    stake.last_updated = now;
    stake.vip_tier = compute_vip_tier(stake.amount);
    Ok(stake.vip_tier)
}

/// Why storing a commitment is refused, if it is.
pub open spec fn commit_error(o: Order) -> Option<ErrorCode> {
    if !o.is_open() {
        Some(ErrorCode::OrderNotOpen)
    } else if o.has_commitment() {
        Some(ErrorCode::AlreadyCommitted)
    } else {
        None
    }
}

/// Store a commitment to the order's terms. The lifecycle state is unchanged.
pub fn commit_order(order: &mut Order, commit_hash: [u8; 32]) -> (r: Result<(), ErrorCode>)
    ensures
        match r {
            Ok(()) => {
                &&& commit_error(*old(order)) is None
                &&& *final(order) == (Order { commit_hash, ..*old(order) })
            },
            Err(e) => commit_error(*old(order)) == Some(e) && *final(order) == *old(order),
        },
{
    if order.status != OrderStatus::Open {
        return Err(ErrorCode::OrderNotOpen);
    }
    if !bytes32_is_zero(&order.commit_hash) {
        return Err(ErrorCode::AlreadyCommitted);
    }
    order.commit_hash = commit_hash;
    Ok(())
}

/// Why a reveal is refused, if it is; `digest` is the digest of the
/// encoding of the revealed terms.
pub open spec fn reveal_error(
    o: Order,
    trader: Seq<u8>,
    ttl: i64,
    digest: Seq<u8>,
    now: i64,
) -> Option<ErrorCode> {
    if !o.is_open() {
        Some(ErrorCode::OrderNotOpen)
    } else if o.trader.view() != trader {
        Some(ErrorCode::Unauthorized)
    } else if digest != o.commit_hash@ {
        Some(ErrorCode::InvalidReveal)
    } else if !expiry_fits(now, ttl) {
        Some(ErrorCode::ArithmeticOverflow)
    } else {
        None
    }
}

/// The order after a successful reveal of `terms` at time `now`: the terms
/// are overwritten, the timing window restarts and the commitment is cleared.
pub open spec fn revealed_matches(after: Order, before: Order, terms: OrderRevealData, now: i64) -> bool {
    &&& after.trader == before.trader
    &&& after.price == terms.price
    &&& after.quantity == terms.quantity
    &&& after.remaining_quantity == terms.quantity
    &&& after.status == before.status
    &&& after.created_at == now
    &&& after.expiration_at == now + terms.ttl
    &&& after.is_multisig == terms.is_multisig
    &&& after.multisig_threshold == terms.multisig_threshold
    &&& after.approvals == before.approvals
    &&& after.approved_by == before.approved_by
    &&& after.priority == before.priority
    &&& !after.has_commitment()
}

/// Reveal `terms` given the digest of their encoding.
pub fn reveal_with_digest(
    order: &mut Order,
    trader: &AccountId,
    terms: &OrderRevealData,
    digest: &[u8; 32],
    now: i64,
) -> (r: Result<(), ErrorCode>)
    requires
        old(order).wf(),
    ensures
        final(order).wf(),
        match r {
            Ok(()) => {
                &&& reveal_error(*old(order), trader.view(), terms.ttl, digest@, now) is None
                &&& revealed_matches(*final(order), *old(order), *terms, now)
            },
            Err(e) => {
                &&& reveal_error(*old(order), trader.view(), terms.ttl, digest@, now) == Some(e)
                &&& *final(order) == *old(order)
            },
        },
{
    if order.status != OrderStatus::Open {
        return Err(ErrorCode::OrderNotOpen);
    }
    if !order.trader.same_as(trader) {
        return Err(ErrorCode::Unauthorized);
    }
    if !bytes32_eq(digest, &order.commit_hash) {
        return Err(ErrorCode::InvalidReveal);
    }
    let expiration_at = match expiry_from(now, terms.ttl) {
        Ok(t) => t,
        Err(e) => return Err(e),
    };
    order.price = terms.price;
    order.quantity = terms.quantity;
    order.remaining_quantity = terms.quantity;
    order.created_at = now;
    order.expiration_at = expiration_at;
    order.is_multisig = terms.is_multisig;
    order.multisig_threshold = terms.multisig_threshold;
    order.commit_hash = zero_hash();
    Ok(())
}

/// Reveal an order's terms: they must hash to the stored commitment.
pub fn reveal_order(
    order: &mut Order,
    trader: &AccountId,
    price: u64,
    quantity: u64,
    ttl: i64,
    is_multisig: bool,
    multisig_threshold: u8,
    now: i64,
) -> (r: Result<(), ErrorCode>)
    requires
        old(order).wf(),
    ensures
        final(order).wf(),
        ({
            let terms = OrderRevealData { price, quantity, ttl, is_multisig, multisig_threshold };
            let digest = sha256_digest(
                reveal_encoding(price, quantity, ttl, is_multisig, multisig_threshold),
            );
            match r {
                Ok(()) => {
                    &&& reveal_error(*old(order), trader.view(), ttl, digest, now) is None
                    &&& revealed_matches(*final(order), *old(order), terms, now)
                },
                Err(e) => {
                    &&& reveal_error(*old(order), trader.view(), ttl, digest, now) == Some(e)
                    &&& *final(order) == *old(order)
                },
            }
        }),
{
    let terms = OrderRevealData { price, quantity, ttl, is_multisig, multisig_threshold };
    let digest = terms.commitment();
    reveal_with_digest(order, trader, &terms, &digest, now)
}

/// Withdraw `amount` of collected fees; the caller transfers it to the
/// governance destination.
pub fn withdraw_treasury(treasury: &mut Treasury, amount: u64) -> (r: Result<(), ErrorCode>)
    ensures
        r is Ok <==> amount <= old(treasury).total_fees,
        match r {
            Ok(()) => final(treasury).total_fees == old(treasury).total_fees - amount,
            Err(e) => e == ErrorCode::InsufficientTreasury && *final(treasury) == *old(treasury),
        },
{
    if treasury.total_fees < amount {
        return Err(ErrorCode::InsufficientTreasury);
    }
    treasury.total_fees = treasury.total_fees - amount;
    Ok(())
}

} // verus!
