//! The calls of the contract as values, and runs of them.
use crate::error::EscrowError;
use crate::host::{EnvView, HostCallView};
use crate::rules::Offer;
use crate::types::{EscrowRecordView, EscrowStatus};
use vstd::prelude::*;

verus! {

/// A call of the contract with its arguments.
pub enum Request {
    Initialize { admin: Seq<u8> },
    Create { offer: Offer },
    Confirm { caller: Seq<u8>, escrow_id: Seq<u8> },
    Refund { escrow_id: Seq<u8> },
    Cancel { admin: Seq<u8>, escrow_id: Seq<u8> },
    Get { escrow_id: Seq<u8> },
}

impl Request {
    /// Who has to authorize the call. Refunds and queries are open to all.
    pub open spec fn signer(self) -> Option<Seq<u8>> {
        match self {
            Request::Initialize { admin } => Some(admin),
            Request::Create { offer } => Some(offer.buyer),
            Request::Confirm { caller, .. } => Some(caller),
            Request::Refund { .. } => None,
            Request::Cancel { admin, .. } => Some(admin),
            Request::Get { .. } => None,
        }
    }

    /// The escrow that the call is about.
    pub open spec fn escrow_id(self) -> Option<Seq<u8>> {
        match self {
            Request::Initialize { .. } => None,
            Request::Create { offer } => Some(offer.escrow_id),
            Request::Confirm { escrow_id, .. } => Some(escrow_id),
            Request::Refund { escrow_id } => Some(escrow_id),
            Request::Cancel { escrow_id, .. } => Some(escrow_id),
            Request::Get { escrow_id } => Some(escrow_id),
        }
    }
}

impl EnvView {
    /// The error that the call answers with, if it fails.
    pub open spec fn error_of(self, request: Request) -> Option<EscrowError> {
        match request {
            Request::Initialize { .. } => self.initialize_error(),
            Request::Create { offer } => self.create_error(offer),
            Request::Confirm { caller, escrow_id } => self.confirm_error(caller, escrow_id),
            Request::Refund { escrow_id } => self.refund_error(escrow_id),
            Request::Cancel { admin, escrow_id } => self.cancel_error(admin, escrow_id),
            Request::Get { escrow_id } => if self.escrows.contains_key(escrow_id) {
                None
            } else {
                Some(EscrowError::EscrowNotFound)
            },
        }
    }

    /// What the call leaves behind.
    pub open spec fn after(self, request: Request) -> Self {
        match request {
            Request::Initialize { admin } => self.after_initialize(admin),
            Request::Create { offer } => self.after_create(offer),
            Request::Confirm { caller, escrow_id } => self.after_confirm(caller, escrow_id),
            Request::Refund { escrow_id } => self.after_refund(escrow_id),
            Request::Cancel { admin, escrow_id } => self.after_cancel(admin, escrow_id),
            Request::Get { escrow_id } => self.look_up(escrow_id),
        }
    }

    /// The same contract at another time.
    pub open spec fn at(self, now: u64) -> Self {
        EnvView { timestamp: now, ..self }
    }

    /// What a run of calls leaves behind, each made at the time beside it.
    pub open spec fn run(self, requests: Seq<(u64, Request)>) -> Self
        decreases requests.len(),
    {
        if requests.len() == 0 {
            self
        } else {
            self.run(requests.drop_last()).at(requests.last().0).after(requests.last().1)
        }
    }

    /// What was asked of the host since `earlier`.
    pub open spec fn calls_since(self, earlier: EnvView) -> Seq<HostCallView> {
        self.calls.skip(earlier.calls.len() as int)
    }

    /// Whether there is an escrow with this ID that is still open.
    pub open spec fn is_open(self, escrow_id: Seq<u8>) -> bool {
        self.escrows.contains_key(escrow_id) && !self.escrows[escrow_id].status.is_closed()
    }

    /// Whether there is an escrow with this ID that has been closed.
    pub open spec fn is_closed(self, escrow_id: Seq<u8>) -> bool {
        self.escrows.contains_key(escrow_id) && self.escrows[escrow_id].status.is_closed()
    }

    /// What holds of the entries at all times: every record is valid and stored
    /// under its own ID.
    pub open spec fn valid(self) -> bool {
        &&& self.escrows.dom().finite()
        &&& forall|escrow_id: Seq<u8>| #[trigger]
            self.escrows.contains_key(escrow_id) ==> self.escrows[escrow_id].valid()
                && self.escrows[escrow_id].escrow_id == escrow_id
    }
}

impl EscrowRecordView {
    /// What holds of a record at all times: amounts are positive, the timeout
    /// lies behind the creation, and the status says who has confirmed.
    pub open spec fn valid(self) -> bool {
        &&& self.usdc_amount > 0
        &&& self.credit_amount > 0
        &&& self.created_at < self.timeout_at
        &&& if self.status is Refunded {
            !(self.buyer_confirmed && self.seller_confirmed)
        } else {
            self.status == crate::rules::status_of(self.buyer_confirmed, self.seller_confirmed)
        }
        &&& self.buyer == self.seller ==> !self.seller_confirmed
    }

    /// Whether `later` is a record of the same agreement: all but the
    /// confirmations and the status is the same.
    pub open spec fn same_terms(self, later: Self) -> bool {
        later == EscrowRecordView {
            buyer_confirmed: later.buyer_confirmed,
            seller_confirmed: later.seller_confirmed,
            status: later.status,
            ..self
        }
    }
}

impl EscrowStatus {
    /// Whether an escrow can go from this status to the other in one call.
    pub open spec fn leads_to(self, next: EscrowStatus) -> bool {
        match self {
            EscrowStatus::Active => next is SellerConfirmed || next is BuyerConfirmed
                || next is Refunded,
            EscrowStatus::SellerConfirmed => next is Released || next is Refunded,
            EscrowStatus::BuyerConfirmed => next is Released || next is Refunded,
            EscrowStatus::Released => false,
            EscrowStatus::Refunded => false,
        }
    }
}

} // verus!
