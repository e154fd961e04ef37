use vstd::prelude::*;
use crate::commit::{reveal_encoding, sha256_digest};
use crate::engine::{
    approve_error, cancel_error, commit_error, expire_error, expiry_fits, fill_error,
    order_after_fill, reveal_error,
};
use crate::fees::{fee_for, lemma_fee_bounded};
use crate::types::{is_zero_hash, AccountId, ErrorCode, Order, OrderRevealData, OrderStatus};

verus! {

/// Total quantity of a sequence of fills.
pub open spec fn sum_of(fills: Seq<u64>) -> nat
    decreases fills.len(),
{
    if fills.len() == 0 {
        0
    } else {
        sum_of(fills.drop_last()) + fills.last() as nat
    }
}

/// Total fee collected over a sequence of fills by one filler.
pub open spec fn fees_of(fills: Seq<u64>, stake: u64) -> nat
    decreases fills.len(),
{
    if fills.len() == 0 {
        0
    } else {
        fees_of(fills.drop_last(), stake) + fee_for(fills.last() as nat, stake as nat)
    }
}

/// Total net amount paid out over a sequence of fills by one filler.
pub open spec fn nets_of(fills: Seq<u64>, stake: u64) -> nat
    decreases fills.len(),
{
    if fills.len() == 0 {
        0
    } else {
        nets_of(fills.drop_last(), stake) + (fills.last() as nat - fee_for(
            fills.last() as nat,
            stake as nat,
        )) as nat
    }
}

/// The order after each fill of the sequence was applied in turn.
pub open spec fn order_after_fills(o: Order, fills: Seq<u64>) -> Order
    decreases fills.len(),
{
    if fills.len() == 0 {
        o
    } else {
        order_after_fill(order_after_fills(o, fills.drop_last()), fills.last())
    }
}

proof fn lemma_prefix_sum(fills: Seq<u64>, k: int)
    requires
        0 <= k <= fills.len(),
    ensures
        sum_of(fills.take(k)) <= sum_of(fills),
    decreases fills.len(),
{
    if k == fills.len() {
        assert(fills.take(k) =~= fills);
    } else {
        assert(fills.drop_last().take(k) =~= fills.take(k));
        lemma_prefix_sum(fills.drop_last(), k);
    }
}

proof fn lemma_partial_fills(o: Order, fills: Seq<u64>)
    requires
        o.is_open(),
        sum_of(fills) < o.remaining_quantity,
    ensures
        order_after_fills(o, fills).is_open(),
        order_after_fills(o, fills).remaining_quantity == o.remaining_quantity - sum_of(fills),
    decreases fills.len(),
{
    if fills.len() > 0 {
        lemma_partial_fills(o, fills.drop_last());
    }
}

proof fn lemma_fee_net_sum(fills: Seq<u64>, stake: u64)
    ensures
        nets_of(fills, stake) + fees_of(fills, stake) == sum_of(fills),
    decreases fills.len(),
{
    if fills.len() > 0 {
        lemma_fee_net_sum(fills.drop_last(), stake);
        lemma_fee_bounded(fills.last() as nat, stake as nat);
    }
}

/// Conservation: fills of an open order that sum to its remaining quantity,
/// the last of them nonzero, are each within what remains when they come, and
/// leave the order filled with nothing remaining; what is paid out plus the
/// fees collected is exactly the quantity filled, rounding of the fee only
/// shifting units between the two.
pub proof fn lemma_conservation(o: Order, fills: Seq<u64>, stake: u64)
    requires
        o.is_open(),
        fills.len() > 0,
        fills.last() > 0,
        sum_of(fills) == o.remaining_quantity,
    ensures
        forall|k: int|
            0 <= k < fills.len() ==> {
                let before = #[trigger] order_after_fills(o, fills.take(k));
                &&& before.is_open()
                &&& fills[k] <= before.remaining_quantity
            },
        order_after_fills(o, fills).remaining_quantity == 0,
        order_after_fills(o, fills).status == OrderStatus::Filled,
        nets_of(fills, stake) + fees_of(fills, stake) == o.remaining_quantity,
{
    let n = fills.len() as int;
    assert forall|k: int| 0 <= k < fills.len() implies {
        let before = #[trigger] order_after_fills(o, fills.take(k));
        &&& before.is_open()
        &&& fills[k] <= before.remaining_quantity
    } by {
        let pre = fills.take(k + 1);
        assert(pre.drop_last() =~= fills.take(k));
        assert(pre.last() == fills[k]);
        lemma_prefix_sum(fills, k + 1);
        lemma_prefix_sum(fills.drop_last(), k);
        assert(fills.drop_last().take(k) =~= fills.take(k));
        lemma_partial_fills(o, fills.take(k));
    }
    lemma_partial_fills(o, fills.drop_last());
    lemma_fee_net_sum(fills, stake);
}

/// Monotonicity: a fill lowers the remaining quantity by exactly the amount
/// filled, and never raises it; cancel and expiry leave it as it was.
pub proof fn lemma_remaining_non_increasing(o: Order, q: u64)
    requires
        o.wf(),
        q <= o.remaining_quantity,
    ensures
        order_after_fill(o, q).remaining_quantity == o.remaining_quantity - q,
        order_after_fill(o, q).remaining_quantity <= o.remaining_quantity,
        (Order { status: OrderStatus::Cancelled, ..o }).remaining_quantity == o.remaining_quantity,
        (Order { status: OrderStatus::Expired, ..o }).remaining_quantity == o.remaining_quantity,
{
}

/// Commit-reveal: with the trader's identity and a timing window that fits,
/// a reveal succeeds exactly when the digest of the encoding of the revealed
/// terms equals the stored commitment; once `h` commits to those same terms,
/// revealing them succeeds; and a second commitment on a committed order is
/// refused.
pub proof fn lemma_commit_reveal(o: Order, terms: OrderRevealData, now: i64, h: [u8; 32])
    requires
        o.is_open(),
        expiry_fits(now, terms.ttl),
        !is_zero_hash(h@),
    ensures
        ({
            let digest = sha256_digest(
                reveal_encoding(
                    terms.price,
                    terms.quantity,
                    terms.ttl,
                    terms.is_multisig,
                    terms.multisig_threshold,
                ),
            );
            &&& (reveal_error(o, o.trader.view(), terms.ttl, digest, now) is None) <==> (digest
                == o.commit_hash@)
            &&& (digest != o.commit_hash@ ==> reveal_error(
                o,
                o.trader.view(),
                terms.ttl,
                digest,
                now,
            ) == Some(ErrorCode::InvalidReveal))
            &&& (h@ == digest ==> reveal_error(
                Order { commit_hash: h, ..o },
                o.trader.view(),
                terms.ttl,
                digest,
                now,
            ) is None)
        }),
        commit_error(Order { commit_hash: h, ..o }) == Some(ErrorCode::AlreadyCommitted),
{
}

/// Closure of terminal states: on an order that is filled, cancelled or
/// expired, every state-changing operation is refused (each of them leaves
/// the order as it was when refused).
pub proof fn lemma_terminal_closed(
    o: Order,
    who: AccountId,
    owners: Seq<AccountId>,
    total_fees: u64,
    stake: u64,
    q: u64,
    ttl: i64,
    digest: Seq<u8>,
    now: i64,
)
    requires
        !o.is_open(),
    ensures
        cancel_error(o, who.view()) is Some,
        expire_error(o, now) == Some(ErrorCode::OrderNotOpen),
        approve_error(o, owners, who.view()) == Some(ErrorCode::OrderNotOpen),
        fill_error(o, total_fees, stake, q, now) == Some(ErrorCode::OrderNotOpen),
        commit_error(o) == Some(ErrorCode::OrderNotOpen),
        reveal_error(o, who.view(), ttl, digest, now) == Some(ErrorCode::OrderNotOpen),
{
}

} // verus!
