use vstd::prelude::*;

verus! {

/// A 32-byte account identifier (a public key).
#[derive(Clone, Copy)]
pub struct AccountId {
    pub bytes: [u8; 32],
}

/// Byte-wise equality of two 32-byte values.
pub fn bytes32_eq(a: &[u8; 32], b: &[u8; 32]) -> (r: bool)
    ensures
        r == (a@ == b@),
{
    broadcast use vstd::array::group_array_axioms;
    let mut i: usize = 0;
    while i < 32
        invariant
            0 <= i <= 32,
            a@.len() == 32,
            b@.len() == 32,
            forall|j: int| 0 <= j < i ==> a@[j] == b@[j],
        decreases 32 - i,
    {
        if a[i] != b[i] {
            return false;
        }
        i = i + 1;
    }
    assert(a@ =~= b@);
    true
}

/// Whether every byte of a 32-byte value is zero.
pub open spec fn is_zero_hash(h: Seq<u8>) -> bool {
    forall|j: int| 0 <= j < h.len() ==> h[j] == 0u8
}

/// Whether a 32-byte value is all zeros ("no active commitment").
pub fn bytes32_is_zero(h: &[u8; 32]) -> (r: bool)
    ensures
        r == is_zero_hash(h@),
{
    broadcast use vstd::array::group_array_axioms;
    let mut i: usize = 0;
    while i < 32
        invariant
            0 <= i <= 32,
            h@.len() == 32,
            forall|j: int| 0 <= j < i ==> h@[j] == 0u8,
        decreases 32 - i,
    {
        if h[i] != 0 {
            return false;
        }
        i = i + 1;
    }
    true
}

impl AccountId {
    pub open spec fn view(&self) -> Seq<u8> {
        self.bytes@
    }

    pub fn new(bytes: [u8; 32]) -> (r: AccountId)
        ensures
            r.bytes == bytes,
    {
        AccountId { bytes }
    }

    /// Whether two identifiers denote the same account.
    pub fn same_as(&self, other: &AccountId) -> (r: bool)
        ensures
            r == (self.view() == other.view()),
    {
        bytes32_eq(&self.bytes, &other.bytes)
    }
}

/// Whether `who` occurs among `ids`.
pub open spec fn id_listed(ids: Seq<AccountId>, who: Seq<u8>) -> bool {
    exists|i: int| 0 <= i < ids.len() && (#[trigger] ids[i]).view() == who
}

/// Linear search for an identifier in a list.
pub fn contains_id(ids: &Vec<AccountId>, who: &AccountId) -> (r: bool)
    ensures
        r == id_listed(ids@, who.view()),
{
    let mut i: usize = 0;
    while i < ids.len()
        invariant
            0 <= i <= ids@.len(),
            forall|j: int| 0 <= j < i ==> (#[trigger] ids@[j]).view() != who.view(),
        decreases ids@.len() - i,
    {
        if ids[i].same_as(who) {
            return true;
        }
        i = i + 1;
    }
    false
}

/// Lifecycle state of an order. Every state but `Open` is terminal.
#[derive(Clone, Copy, Debug, PartialEq, Eq, Structural)]
pub enum OrderStatus {
    Open,
    Filled,
    Cancelled,
    Expired,
}

/// A posted trade intent backed by escrowed collateral.
pub struct Order {
    pub trader: AccountId,
    pub price: u64,
    pub quantity: u64,
    pub remaining_quantity: u64,
    pub status: OrderStatus,
    pub created_at: i64,
    pub expiration_at: i64,
    pub is_multisig: bool,
    pub multisig_threshold: u8,
    /// Number of distinct owners that approved; always the length of `approved_by`.
    pub approvals: u8,
    /// The owners that approved, each at most once.
    pub approved_by: Vec<AccountId>,
    /// Reserved tier hint; stored, never computed here.
    pub priority: u8,
    /// All zeros means no active commitment.
    pub commit_hash: [u8; 32],
}

/// No identifier appears twice in the list.
pub open spec fn distinct_ids(ids: Seq<AccountId>) -> bool {
    forall|i: int, j: int|
        0 <= i < ids.len() && 0 <= j < ids.len() && i != j ==> ids[i].view() != ids[j].view()
}

impl Order {
    /// The order's internal invariant.
    pub open spec fn wf(&self) -> bool {
        &&& self.remaining_quantity <= self.quantity
        &&& self.approvals as nat == self.approved_by@.len()
        &&& distinct_ids(self.approved_by@)
    }

    pub open spec fn is_open(&self) -> bool {
        self.status == OrderStatus::Open
    }

    /// Whether a commitment is stored and not yet revealed.
    pub open spec fn has_commitment(&self) -> bool {
        !is_zero_hash(self.commit_hash@)
    }

    /// Test the order's internal invariant.
    pub fn check_wf(&self) -> (r: bool)
        ensures
            r == self.wf(),
    {
        if self.remaining_quantity > self.quantity || self.approvals as usize
            != self.approved_by.len() {
            return false;
        }
        let ids = &self.approved_by;
        let mut i: usize = 0;
        while i < ids.len()
            invariant
                0 <= i <= ids@.len(),
                ids@ == self.approved_by@,
                forall|a: int, b: int|
                    0 <= a < i && 0 <= b < ids@.len() && a != b ==> ids@[a].view()
                        != ids@[b].view(),
            decreases ids@.len() - i,
        {
            let mut j: usize = 0;
            while j < ids.len()
                invariant
                    0 <= i < ids@.len(),
                    0 <= j <= ids@.len(),
                    ids@ == self.approved_by@,
                    forall|a: int, b: int|
                        0 <= a < i && 0 <= b < ids@.len() && a != b ==> ids@[a].view()
                            != ids@[b].view(),
                    forall|b: int| 0 <= b < j && b != i ==> ids@[i as int].view() != ids@[b].view(),
                decreases ids@.len() - j,
            {
                if j != i && ids[i].same_as(&ids[j]) {
                    assert(!distinct_ids(ids@)) by {
                        assert(ids@[i as int].view() == ids@[j as int].view());
                    }
                    return false;
                }
                j = j + 1;
            }
            i = i + 1;
        }
        true
    }

    /// Whether the multisig gate lets the order be executed or cancelled.
    pub open spec fn approval_gate_open(&self) -> bool {
        !self.is_multisig || self.approvals >= self.multisig_threshold
    }
}

/// Staked balance of one trader.
pub struct StakeAccount {
    pub trader: AccountId,
    pub amount: u64,
    pub last_updated: i64,
    pub vip_tier: u8,
}

/// Accumulator of collected fees.
pub struct Treasury {
    pub total_fees: u64,
}

/// Group of owners that guard multisig orders.
pub struct MultiSigAccount {
    pub owners: Vec<AccountId>,
    pub threshold: u8,
}

/// Terms disclosed at reveal time; their byte encoding is what gets committed.
pub struct OrderRevealData {
    pub price: u64,
    pub quantity: u64,
    pub ttl: i64,
    pub is_multisig: bool,
    pub multisig_threshold: u8,
}

/// Failure kinds of the settlement operations.
#[derive(Clone, Copy, Debug, PartialEq, Eq, Structural)]
pub enum ErrorCode {
    Unauthorized,
    OrderNotOpen,
    InvalidFillQuantity,
    InsufficientStake,
    OrderNotExpired,
    OrderExpired,
    NotMultisigOrder,
    InvalidReveal,
    AlreadyCommitted,
    InsufficientTreasury,
    ArithmeticOverflow,
    ExternalTransferFailed,
    /// The order carries a commitment that has not been revealed yet.
    AwaitingReveal,
    /// A multisig order has fewer approvals than its threshold.
    InsufficientApprovals,
}

impl ErrorCode {
    /// Human-readable message for the error.
    pub fn message(&self) -> (r: &'static str) {
        match self {
            ErrorCode::Unauthorized => "Unauthorized action.",
            ErrorCode::OrderNotOpen => "Order is not open.",
            ErrorCode::InvalidFillQuantity => "Invalid fill quantity.",
            ErrorCode::InsufficientStake => "Insufficient staked tokens.",
            ErrorCode::OrderNotExpired => "Order has not expired yet.",
            ErrorCode::OrderExpired => "Order is expired.",
            ErrorCode::NotMultisigOrder => "Not a multisig order.",
            ErrorCode::InvalidReveal => "Invalid reveal data.",
            ErrorCode::AlreadyCommitted => "Order already committed.",
            ErrorCode::InsufficientTreasury => "Insufficient treasury funds.",
            ErrorCode::ArithmeticOverflow => "Arithmetic overflow.",
            ErrorCode::ExternalTransferFailed => "External transfer failed.",
            ErrorCode::AwaitingReveal => "Order has an unrevealed commitment.",
            ErrorCode::InsufficientApprovals => "Not enough multisig approvals.",
        }
    }
}

} // verus!
