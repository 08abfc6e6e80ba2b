//! What an escrow is made of: addresses, storage keys, statuses and records.
//!
//! Addresses and strings of the host are byte strings. Each type here has a
//! view in which they are sequences of bytes, and contracts speak of the views.
use vstd::prelude::*;

verus! {

/// Default escrow timeout: 7 days in seconds.
pub const DEFAULT_TIMEOUT_SECS: u64 = 7 * 24 * 60 * 60;

/// Storage TTL: ~30 days in ledgers (assuming ~5-second ledger close time).
pub const TTL_LEDGERS: u32 = 518_400;

/// A copy of a byte string.
pub(crate) fn copy_bytes(bytes: &Vec<u8>) -> (copy: Vec<u8>)
    ensures
        copy@ == bytes@,
{
    let copy = bytes.clone();
    assert(copy@ =~= bytes@);
    copy
}

/// Whether two byte strings are the same.
pub(crate) fn same_bytes(a: &Vec<u8>, b: &Vec<u8>) -> (same: bool)
    ensures
        same == (a@ == b@),
{
    if a.len() != b.len() {
        return false;
    }
    let mut i: usize = 0;
    while i < a.len()
        invariant
            i <= a.len(),
            a.len() == b.len(),
            forall|j: int| 0 <= j < i ==> a@[j] == b@[j],
        decreases a.len() - i,
    {
        if a[i] != b[i] {
            return false;
        }
        i += 1;
    }
    assert(a@ =~= b@);
    true
}

/// An account or a contract, by the bytes of its strkey.
#[derive(Debug)]
pub struct Address {
    pub strkey: Vec<u8>,
}

impl View for Address {
    type V = Seq<u8>;

    open spec fn view(&self) -> Seq<u8> {
        self.strkey@
    }
}

impl Clone for Address {
    fn clone(&self) -> (copy: Self)
        ensures
            copy@ == self@,
    {
        Address { strkey: copy_bytes(&self.strkey) }
    }
}

impl PartialEq for Address {
    fn eq(&self, other: &Self) -> (same: bool) {
        same_bytes(&self.strkey, &other.strkey)
    }
}

impl Eq for Address {

}

impl vstd::std_specs::cmp::PartialEqSpecImpl for Address {
    open spec fn obeys_eq_spec() -> bool {
        true
    }

    open spec fn eq_spec(&self, other: &Self) -> bool {
        self@ == other@
    }
}

/// Under what a persistent entry is stored.
#[derive(Debug)]
pub enum DataKey {
    /// The record of the escrow with this ID.
    Escrow(Vec<u8>),
    /// The address of the admin.
    Admin,
}

/// View of [`DataKey`].
pub enum DataKeyView {
    Escrow(Seq<u8>),
    Admin,
}

impl View for DataKey {
    type V = DataKeyView;

    open spec fn view(&self) -> DataKeyView {
        match self {
            DataKey::Escrow(escrow_id) => DataKeyView::Escrow(escrow_id@),
            DataKey::Admin => DataKeyView::Admin,
        }
    }
}

impl Clone for DataKey {
    fn clone(&self) -> (copy: Self)
        ensures
            copy@ == self@,
    {
        match self {
            DataKey::Escrow(escrow_id) => DataKey::Escrow(copy_bytes(escrow_id)),
            DataKey::Admin => DataKey::Admin,
        }
    }
}

/// Status of an escrow agreement.
#[derive(Copy, Clone, Debug, Eq, PartialEq, Structural)]
pub enum EscrowStatus {
    /// Funds locked, waiting for both parties to confirm.
    Active,
    /// Seller has signalled that credits were transferred; waiting for buyer.
    SellerConfirmed,
    /// Buyer has signalled acceptance; waiting for seller.
    BuyerConfirmed,
    /// Both parties confirmed: funds released to seller.
    Released,
    /// Timeout elapsed or admin cancelled: funds returned to buyer.
    Refunded,
}

impl EscrowStatus {
    /// Whether the locked funds have left the escrow.
    pub open spec fn is_closed(self) -> bool {
        self is Released || self is Refunded
    }
}

/// On-chain escrow record.
#[derive(Debug)]
pub struct EscrowRecord {
    /// Unique ID for this escrow (caller-supplied; e.g., UUID or hash).
    pub escrow_id: Vec<u8>,
    /// Buyer address. Deposited USDC and will receive credits.
    pub buyer: Address,
    /// Seller address. Will receive USDC upon mutual confirmation.
    pub seller: Address,
    /// USDC token contract address (SAC).
    pub usdc_token: Address,
    /// Amount of USDC locked (in stroops).
    pub usdc_amount: i128,
    /// ID of the carbon credit batch being traded.
    pub credit_batch_id: Vec<u8>,
    /// Number of credits expected.
    pub credit_amount: i128,
    /// Unix timestamp after which a refund may be claimed.
    pub timeout_at: u64,
    /// Whether the buyer has confirmed receipt of credits.
    pub buyer_confirmed: bool,
    /// Whether the seller has confirmed transfer of credits.
    pub seller_confirmed: bool,
    /// Current state of this escrow.
    pub status: EscrowStatus,
    /// Unix timestamp when this escrow was created.
    pub created_at: u64,
}

/// View of [`EscrowRecord`].
#[verifier::ext_equal]
pub struct EscrowRecordView {
    pub escrow_id: Seq<u8>,
    pub buyer: Seq<u8>,
    pub seller: Seq<u8>,
    pub usdc_token: Seq<u8>,
    pub usdc_amount: i128,
    pub credit_batch_id: Seq<u8>,
    pub credit_amount: i128,
    pub timeout_at: u64,
    pub buyer_confirmed: bool,
    pub seller_confirmed: bool,
    pub status: EscrowStatus,
    pub created_at: u64,
}

impl View for EscrowRecord {
    type V = EscrowRecordView;

    open spec fn view(&self) -> EscrowRecordView {
        EscrowRecordView {
            escrow_id: self.escrow_id@,
            buyer: self.buyer@,
            seller: self.seller@,
            usdc_token: self.usdc_token@,
            usdc_amount: self.usdc_amount,
            credit_batch_id: self.credit_batch_id@,
            credit_amount: self.credit_amount,
            timeout_at: self.timeout_at,
            buyer_confirmed: self.buyer_confirmed,
            seller_confirmed: self.seller_confirmed,
            status: self.status,
            created_at: self.created_at,
        }
    }
}

impl Clone for EscrowRecord {
    fn clone(&self) -> (copy: Self)
        ensures
            copy@ == self@,
    {
        EscrowRecord {
            escrow_id: copy_bytes(&self.escrow_id),
            buyer: self.buyer.clone(),
            seller: self.seller.clone(),
            usdc_token: self.usdc_token.clone(),
            usdc_amount: self.usdc_amount,
            credit_batch_id: copy_bytes(&self.credit_batch_id),
            credit_amount: self.credit_amount,
            timeout_at: self.timeout_at,
            buyer_confirmed: self.buyer_confirmed,
            seller_confirmed: self.seller_confirmed,
            status: self.status,
            created_at: self.created_at,
        }
    }
}

} // verus!
