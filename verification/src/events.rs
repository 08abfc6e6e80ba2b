//! The events that the contract publishes.
use crate::types::{copy_bytes, Address};
use vstd::prelude::*;

verus! {

#[derive(Debug)]
pub struct EscrowCreatedEvent {
    pub escrow_id: Vec<u8>,
    pub buyer: Address,
    pub seller: Address,
    pub usdc_amount: i128,
    pub credit_batch_id: Vec<u8>,
    pub credit_amount: i128,
    pub timeout_at: u64,
}

impl Clone for EscrowCreatedEvent {
    fn clone(&self) -> (copy: Self)
        ensures
            copy.escrow_id@ == self.escrow_id@,
            copy.buyer@ == self.buyer@,
            copy.seller@ == self.seller@,
            copy.usdc_amount == self.usdc_amount,
            copy.credit_batch_id@ == self.credit_batch_id@,
            copy.credit_amount == self.credit_amount,
            copy.timeout_at == self.timeout_at,
    {
        EscrowCreatedEvent {
            escrow_id: copy_bytes(&self.escrow_id),
            buyer: self.buyer.clone(),
            seller: self.seller.clone(),
            usdc_amount: self.usdc_amount,
            credit_batch_id: copy_bytes(&self.credit_batch_id),
            credit_amount: self.credit_amount,
            timeout_at: self.timeout_at,
        }
    }
}

#[derive(Debug)]
pub struct EscrowConfirmedEvent {
    pub escrow_id: Vec<u8>,
    pub confirmed_by: Address,
    pub buyer_confirmed: bool,
    pub seller_confirmed: bool,
}

impl Clone for EscrowConfirmedEvent {
    fn clone(&self) -> (copy: Self)
        ensures
            copy.escrow_id@ == self.escrow_id@,
            copy.confirmed_by@ == self.confirmed_by@,
            copy.buyer_confirmed == self.buyer_confirmed,
            copy.seller_confirmed == self.seller_confirmed,
    {
        EscrowConfirmedEvent {
            escrow_id: copy_bytes(&self.escrow_id),
            confirmed_by: self.confirmed_by.clone(),
            buyer_confirmed: self.buyer_confirmed,
            seller_confirmed: self.seller_confirmed,
        }
    }
}

#[derive(Debug)]
pub struct EscrowReleasedEvent {
    pub escrow_id: Vec<u8>,
    pub buyer: Address,
    pub seller: Address,
    pub usdc_amount: i128,
    pub released_at: u64,
}

impl Clone for EscrowReleasedEvent {
    fn clone(&self) -> (copy: Self)
        ensures
            copy.escrow_id@ == self.escrow_id@,
            copy.buyer@ == self.buyer@,
            copy.seller@ == self.seller@,
            copy.usdc_amount == self.usdc_amount,
            copy.released_at == self.released_at,
    {
        EscrowReleasedEvent {
            escrow_id: copy_bytes(&self.escrow_id),
            buyer: self.buyer.clone(),
            seller: self.seller.clone(),
            usdc_amount: self.usdc_amount,
            released_at: self.released_at,
        }
    }
}

#[derive(Debug)]
pub struct EscrowRefundedEvent {
    pub escrow_id: Vec<u8>,
    pub buyer: Address,
    pub usdc_amount: i128,
    pub refunded_at: u64,
}

impl Clone for EscrowRefundedEvent {
    fn clone(&self) -> (copy: Self)
        ensures
            copy.escrow_id@ == self.escrow_id@,
            copy.buyer@ == self.buyer@,
            copy.usdc_amount == self.usdc_amount,
            copy.refunded_at == self.refunded_at,
    {
        EscrowRefundedEvent {
            escrow_id: copy_bytes(&self.escrow_id),
            buyer: self.buyer.clone(),
            usdc_amount: self.usdc_amount,
            refunded_at: self.refunded_at,
        }
    }
}

/// Any event of the contract.
#[derive(Debug)]
pub enum Event {
    Created(EscrowCreatedEvent),
    Confirmed(EscrowConfirmedEvent),
    Released(EscrowReleasedEvent),
    Refunded(EscrowRefundedEvent),
}

/// View of [`Event`].
pub enum EventView {
    Created {
        escrow_id: Seq<u8>,
        buyer: Seq<u8>,
        seller: Seq<u8>,
        usdc_amount: i128,
        credit_batch_id: Seq<u8>,
        credit_amount: i128,
        timeout_at: u64,
    },
    Confirmed {
        escrow_id: Seq<u8>,
        confirmed_by: Seq<u8>,
        buyer_confirmed: bool,
        seller_confirmed: bool,
    },
    Released {
        escrow_id: Seq<u8>,
        buyer: Seq<u8>,
        seller: Seq<u8>,
        usdc_amount: i128,
        released_at: u64,
    },
    Refunded { escrow_id: Seq<u8>, buyer: Seq<u8>, usdc_amount: i128, refunded_at: u64 },
}

impl View for Event {
    type V = EventView;

    open spec fn view(&self) -> EventView {
        match self {
            Event::Created(e) => EventView::Created {
                escrow_id: e.escrow_id@,
                buyer: e.buyer@,
                seller: e.seller@,
                usdc_amount: e.usdc_amount,
                credit_batch_id: e.credit_batch_id@,
                credit_amount: e.credit_amount,
                timeout_at: e.timeout_at,
            },
            Event::Confirmed(e) => EventView::Confirmed {
                escrow_id: e.escrow_id@,
                confirmed_by: e.confirmed_by@,
                buyer_confirmed: e.buyer_confirmed,
                seller_confirmed: e.seller_confirmed,
            },
            Event::Released(e) => EventView::Released {
                escrow_id: e.escrow_id@,
                buyer: e.buyer@,
                seller: e.seller@,
                usdc_amount: e.usdc_amount,
                released_at: e.released_at,
            },
            Event::Refunded(e) => EventView::Refunded {
                escrow_id: e.escrow_id@,
                buyer: e.buyer@,
                usdc_amount: e.usdc_amount,
                refunded_at: e.refunded_at,
            },
        }
    }
}

impl EventView {
    /// The two topics under which the event is published.
    pub open spec fn topics(self) -> (Seq<char>, Seq<char>) {
        (
            "escrow"@,
            match self {
                EventView::Created { .. } => "created"@,
                EventView::Confirmed { .. } => "confirm"@,
                EventView::Released { .. } => "released"@,
                EventView::Refunded { .. } => "refunded"@,
            },
        )
    }
}

impl Event {
    /// The two topics under which the event is published.
    pub fn topics(&self) -> (topics: (&'static str, &'static str))
        ensures
            (topics.0@, topics.1@) == self@.topics(),
    {
        match self {
            Event::Created(_) => ("escrow", "created"),
            Event::Confirmed(_) => ("escrow", "confirm"),
            Event::Released(_) => ("escrow", "released"),
            Event::Refunded(_) => ("escrow", "refunded"),
        }
    }
}

} // verus!
