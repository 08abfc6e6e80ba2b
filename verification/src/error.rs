//! The errors that a call of the contract can answer with.
use vstd::prelude::*;

verus! {

#[derive(Copy, Clone, Debug, Eq, PartialEq, PartialOrd, Ord, Structural)]
pub enum EscrowError {
    /// The specified escrow ID does not exist.
    EscrowNotFound,
    /// The escrow has already been released or refunded, or its ID is taken.
    EscrowAlreadyClosed,
    /// Caller is not a party to this escrow, or not the admin.
    Unauthorized,
    /// The escrow timeout has not yet elapsed; cannot refund early.
    TimeoutNotElapsed,
    /// The amount must be greater than zero.
    ZeroAmountNotAllowed,
    /// Contract has already been initialized.
    AlreadyInitialized,
    /// The escrow is still within the active window; use confirm instead.
    EscrowStillActive,
    /// Integer overflow in arithmetic.
    Arithmetic,
    /// Buyer has already confirmed.
    BuyerAlreadyConfirmed,
    /// Seller has already confirmed.
    SellerAlreadyConfirmed,
}

impl EscrowError {
    /// The number under which the error is reported on chain.
    pub open spec fn spec_code(self) -> u32 {
        match self {
            EscrowError::EscrowNotFound => 1,
            EscrowError::EscrowAlreadyClosed => 2,
            EscrowError::Unauthorized => 3,
            EscrowError::TimeoutNotElapsed => 4,
            EscrowError::ZeroAmountNotAllowed => 5,
            EscrowError::AlreadyInitialized => 6,
            EscrowError::EscrowStillActive => 7,
            EscrowError::Arithmetic => 8,
            EscrowError::BuyerAlreadyConfirmed => 9,
            EscrowError::SellerAlreadyConfirmed => 10,
        }
    }

    /// The number under which the error is reported on chain.
    pub fn code(self) -> (code: u32)
        ensures
            code == self.spec_code(),
    {
        match self {
            EscrowError::EscrowNotFound => 1,
            EscrowError::EscrowAlreadyClosed => 2,
            EscrowError::Unauthorized => 3,
            EscrowError::TimeoutNotElapsed => 4,
            EscrowError::ZeroAmountNotAllowed => 5,
            EscrowError::AlreadyInitialized => 6,
            EscrowError::EscrowStillActive => 7,
            EscrowError::Arithmetic => 8,
            EscrowError::BuyerAlreadyConfirmed => 9,
            EscrowError::SellerAlreadyConfirmed => 10,
        }
    }
}

} // verus!
