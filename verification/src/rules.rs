//! The rules of the escrow: for each call of the contract, what it answers and
//! what it leaves behind.
use crate::error::EscrowError;
use crate::events::EventView;
use crate::host::{EnvView, HostCallView};
use crate::types::{
    DataKeyView, EscrowRecordView, EscrowStatus, DEFAULT_TIMEOUT_SECS, TTL_LEDGERS,
};
use vstd::prelude::*;

verus! {

/// The timeout that applies where `timeout_secs` was asked for.
pub open spec fn effective_timeout(timeout_secs: u64) -> u64 {
    if timeout_secs == 0 {
        DEFAULT_TIMEOUT_SECS
    } else {
        timeout_secs
    }
}

/// The status of an escrow that has not been refunded, by who has confirmed.
pub open spec fn status_of(buyer_confirmed: bool, seller_confirmed: bool) -> EscrowStatus {
    if buyer_confirmed && seller_confirmed {
        EscrowStatus::Released
    } else if buyer_confirmed {
        EscrowStatus::BuyerConfirmed
    } else if seller_confirmed {
        EscrowStatus::SellerConfirmed
    } else {
        EscrowStatus::Active
    }
}

/// What a buyer offers when creating an escrow.
#[verifier::ext_equal]
pub struct Offer {
    pub buyer: Seq<u8>,
    pub escrow_id: Seq<u8>,
    pub seller: Seq<u8>,
    pub usdc_token: Seq<u8>,
    pub usdc_amount: i128,
    pub credit_batch_id: Seq<u8>,
    pub credit_amount: i128,
    pub timeout_secs: u64,
}

impl Offer {
    /// The record of an escrow created on this offer at time `now`.
    pub open spec fn record(self, now: u64) -> EscrowRecordView {
        EscrowRecordView {
            escrow_id: self.escrow_id,
            buyer: self.buyer,
            seller: self.seller,
            usdc_token: self.usdc_token,
            usdc_amount: self.usdc_amount,
            credit_batch_id: self.credit_batch_id,
            credit_amount: self.credit_amount,
            timeout_at: (now + effective_timeout(self.timeout_secs)) as u64,
            buyer_confirmed: false,
            seller_confirmed: false,
            status: EscrowStatus::Active,
            created_at: now,
        }
    }
}

impl EscrowRecordView {
    /// Why `caller` cannot confirm, though the escrow is open.
    pub open spec fn confirm_error(self, caller: Seq<u8>) -> Option<EscrowError> {
        if caller == self.buyer {
            if self.buyer_confirmed {
                Some(EscrowError::BuyerAlreadyConfirmed)
            } else {
                None
            }
        } else if caller == self.seller {
            if self.seller_confirmed {
                Some(EscrowError::SellerAlreadyConfirmed)
            } else {
                None
            }
        } else {
            Some(EscrowError::Unauthorized)
        }
    }

    /// The record after `caller`, one of the parties, has confirmed.
    pub open spec fn confirmed_by(self, caller: Seq<u8>) -> Self {
        let buyer_confirmed = self.buyer_confirmed || caller == self.buyer;
        let seller_confirmed = self.seller_confirmed || (caller != self.buyer && caller
            == self.seller);
        EscrowRecordView {
            buyer_confirmed,
            seller_confirmed,
            status: status_of(buyer_confirmed, seller_confirmed),
            ..self
        }
    }

    /// The record after the funds went back to the buyer.
    pub open spec fn refunded(self) -> Self {
        EscrowRecordView { status: EscrowStatus::Refunded, ..self }
    }
}

/// Asks that the entry of the escrow be kept alive.
pub open spec fn keep_alive(escrow_id: Seq<u8>) -> HostCallView {
    HostCallView::ExtendTtl {
        key: DataKeyView::Escrow(escrow_id),
        threshold: TTL_LEDGERS,
        extend_to: TTL_LEDGERS,
    }
}

impl EnvView {
    /// Having asked for the authorization of `address`.
    pub open spec fn ask_auth(self, address: Seq<u8>) -> Self {
        self.ask(HostCallView::RequireAuth { address })
    }

    /// Having looked up an escrow: an entry that is read is kept alive.
    pub open spec fn look_up(self, escrow_id: Seq<u8>) -> Self {
        if self.escrows.contains_key(escrow_id) {
            self.ask(keep_alive(escrow_id))
        } else {
            self
        }
    }

    /// Having stored a record, which is then kept alive.
    pub open spec fn store(self, escrow_id: Seq<u8>, record: EscrowRecordView) -> Self {
        EnvView { escrows: self.escrows.insert(escrow_id, record), ..self }.ask(
            HostCallView::SetEscrow { escrow_id, record },
        ).ask(keep_alive(escrow_id))
    }

    /// Having sent the locked funds to the seller and told so.
    pub open spec fn release(self, record: EscrowRecordView) -> Self {
        self.ask(
            HostCallView::Transfer {
                token: record.usdc_token,
                from: self.contract,
                to: record.seller,
                amount: record.usdc_amount,
            },
        ).ask(
            HostCallView::Publish {
                event: EventView::Released {
                    escrow_id: record.escrow_id,
                    buyer: record.buyer,
                    seller: record.seller,
                    usdc_amount: record.usdc_amount,
                    released_at: self.timestamp,
                },
            },
        )
    }

    /// Having sent the locked funds back to the buyer and told so.
    pub open spec fn give_back(self, record: EscrowRecordView) -> Self {
        self.ask(
            HostCallView::Transfer {
                token: record.usdc_token,
                from: self.contract,
                to: record.buyer,
                amount: record.usdc_amount,
            },
        ).ask(
            HostCallView::Publish {
                event: EventView::Refunded {
                    escrow_id: record.escrow_id,
                    buyer: record.buyer,
                    usdc_amount: record.usdc_amount,
                    refunded_at: self.timestamp,
                },
            },
        )
    }

    // Initialization

    /// Why the contract cannot be initialized.
    pub open spec fn initialize_error(self) -> Option<EscrowError> {
        if self.admin is Some {
            Some(EscrowError::AlreadyInitialized)
        } else {
            None
        }
    }

    /// After initialization with `admin`.
    pub open spec fn after_initialize(self, admin: Seq<u8>) -> Self {
        if self.initialize_error() is Some {
            self
        } else {
            EnvView { admin: Some(admin), ..self.ask_auth(admin) }.ask(
                HostCallView::SetAdmin { admin },
            )
        }
    }

    // Creation

    /// Why no escrow can be created on the offer.
    pub open spec fn create_error(self, offer: Offer) -> Option<EscrowError> {
        if offer.usdc_amount <= 0 || offer.credit_amount <= 0 {
            Some(EscrowError::ZeroAmountNotAllowed)
        } else if self.escrows.contains_key(offer.escrow_id) {
            Some(EscrowError::EscrowAlreadyClosed)
        } else if self.timestamp + effective_timeout(offer.timeout_secs) > u64::MAX {
            Some(EscrowError::Arithmetic)
        } else {
            None
        }
    }

    /// After the creation of an escrow on the offer.
    pub open spec fn after_create(self, offer: Offer) -> Self {
        let asked = self.ask_auth(offer.buyer);
        let record = offer.record(self.timestamp);
        if self.create_error(offer) is Some {
            asked
        } else {
            asked.ask(
                HostCallView::Transfer {
                    token: offer.usdc_token,
                    from: offer.buyer,
                    to: self.contract,
                    amount: offer.usdc_amount,
                },
            ).store(offer.escrow_id, record).ask(
                HostCallView::Publish {
                    event: EventView::Created {
                        escrow_id: offer.escrow_id,
                        buyer: offer.buyer,
                        seller: offer.seller,
                        usdc_amount: offer.usdc_amount,
                        credit_batch_id: offer.credit_batch_id,
                        credit_amount: offer.credit_amount,
                        timeout_at: record.timeout_at,
                    },
                },
            )
        }
    }

    // Confirmation

    /// Why an escrow is not open: there is none, or it is closed.
    pub open spec fn open_error(self, escrow_id: Seq<u8>) -> Option<EscrowError> {
        if !self.escrows.contains_key(escrow_id) {
            Some(EscrowError::EscrowNotFound)
        } else if self.escrows[escrow_id].status.is_closed() {
            Some(EscrowError::EscrowAlreadyClosed)
        } else {
            None
        }
    }

    /// Why `caller` cannot confirm the escrow.
    pub open spec fn confirm_error(self, caller: Seq<u8>, escrow_id: Seq<u8>) -> Option<
        EscrowError,
    > {
        if self.open_error(escrow_id) is Some {
            self.open_error(escrow_id)
        } else {
            self.escrows[escrow_id].confirm_error(caller)
        }
    }

    /// After the confirmation of the escrow by `caller`.
    pub open spec fn after_confirm(self, caller: Seq<u8>, escrow_id: Seq<u8>) -> Self {
        let asked = self.ask_auth(caller).look_up(escrow_id);
        let record = self.escrows[escrow_id].confirmed_by(caller);
        let told = asked.ask(
            HostCallView::Publish {
                event: EventView::Confirmed {
                    escrow_id,
                    confirmed_by: caller,
                    buyer_confirmed: record.buyer_confirmed,
                    seller_confirmed: record.seller_confirmed,
                },
            },
        );
        if self.confirm_error(caller, escrow_id) is Some {
            asked
        } else if record.status is Released {
            told.release(record).store(escrow_id, record)
        } else {
            told.store(escrow_id, record)
        }
    }

    // Refund and cancellation

    /// Why the escrow cannot be refunded.
    pub open spec fn refund_error(self, escrow_id: Seq<u8>) -> Option<EscrowError> {
        if self.open_error(escrow_id) is Some {
            self.open_error(escrow_id)
        } else if self.timestamp <= self.escrows[escrow_id].timeout_at {
            Some(EscrowError::TimeoutNotElapsed)
        } else {
            None
        }
    }

    /// After the refund of the escrow.
    pub open spec fn after_refund(self, escrow_id: Seq<u8>) -> Self {
        let asked = self.look_up(escrow_id);
        let record = self.escrows[escrow_id].refunded();
        if self.refund_error(escrow_id) is Some {
            asked
        } else {
            asked.give_back(record).store(escrow_id, record)
        }
    }

    /// Why `admin` cannot cancel the escrow.
    pub open spec fn cancel_error(self, admin: Seq<u8>, escrow_id: Seq<u8>) -> Option<
        EscrowError,
    > {
        if self.admin != Some(admin) {
            Some(EscrowError::Unauthorized)
        } else {
            self.open_error(escrow_id)
        }
    }

    /// After the cancellation of the escrow by `admin`.
    pub open spec fn after_cancel(self, admin: Seq<u8>, escrow_id: Seq<u8>) -> Self {
        let asked = self.ask_auth(admin);
        let record = self.escrows[escrow_id].refunded();
        if self.admin != Some(admin) {
            asked
        } else if self.cancel_error(admin, escrow_id) is Some {
            asked.look_up(escrow_id)
        } else {
            asked.look_up(escrow_id).give_back(record).store(escrow_id, record)
        }
    }
}

/// The answer of a call that fails with `error`, if there is one, and else
/// succeeds with `value`.
pub open spec fn answer<T>(error: Option<EscrowError>, value: T) -> Result<T, EscrowError> {
    match error {
        Some(error) => Err(error),
        None => Ok(value),
    }
}

} // verus!
