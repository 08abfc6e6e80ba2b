//! The calls of the contract.
use crate::error::EscrowError;
use crate::events::{
    EscrowConfirmedEvent, EscrowCreatedEvent, EscrowRefundedEvent, EscrowReleasedEvent, Event,
};
use crate::host::{Env, HostCall};
use crate::rules::Offer;
use crate::types::{
    copy_bytes, Address, DataKey, EscrowRecord, EscrowRecordView, EscrowStatus, DEFAULT_TIMEOUT_SECS, TTL_LEDGERS,
};
use vstd::prelude::*;

verus! {

pub struct CarbonEscrowContract;

impl CarbonEscrowContract {
    // Initialization

    /// Initialize the escrow contract with an admin address.
    /// The admin can force-cancel disputed escrows.
    pub fn initialize(env: &mut Env, admin: Address) -> (result: Result<(), EscrowError>)
        ensures
            result == crate::rules::answer(old(env)@.initialize_error(), ()),
            final(env)@ == old(env)@.after_initialize(admin@),
    {
        if env.storage.has(&DataKey::Admin) {
            return Err(EscrowError::AlreadyInitialized);
        }
        env.ask(HostCall::RequireAuth { address: admin.clone() });
        env.storage.set_admin(admin.clone());
        env.ask(HostCall::SetAdmin { admin });
        Ok(())
    }

    // Core escrow operations

    /// Lock USDC into escrow and record the expected credit batch.
    ///
    /// Transfers `usdc_amount` stroops from `buyer` to the escrow contract's
    /// own account. The escrow becomes active immediately and expires at
    /// `env.timestamp + timeout_secs` (defaulting to 7 days if 0).
    pub fn create_escrow(
        env: &mut Env,
        buyer: Address,
        escrow_id: Vec<u8>,
        seller: Address,
        usdc_token: Address,
        usdc_amount: i128,
        credit_batch_id: Vec<u8>,
        credit_amount: i128,
        timeout_secs: u64,
    ) -> (result: Result<(), EscrowError>)
        ensures
            ({
                let offer = Offer {
                    buyer: buyer@,
                    escrow_id: escrow_id@,
                    seller: seller@,
                    usdc_token: usdc_token@,
                    usdc_amount,
                    credit_batch_id: credit_batch_id@,
                    credit_amount,
                    timeout_secs,
                };
                &&& result == crate::rules::answer(old(env)@.create_error(offer), ())
                &&& final(env)@ == old(env)@.after_create(offer)
            }),
    {
        env.ask(HostCall::RequireAuth { address: buyer.clone() });

        if usdc_amount <= 0 {
            return Err(EscrowError::ZeroAmountNotAllowed);
        }
        if credit_amount <= 0 {
            return Err(EscrowError::ZeroAmountNotAllowed);
        }
        // Reject duplicate escrow IDs.

        let key = DataKey::Escrow(copy_bytes(&escrow_id));
        if env.storage.has(&key) {
            return Err(EscrowError::EscrowAlreadyClosed);
        }
        let effective_timeout: u64 = if timeout_secs == 0 {
            DEFAULT_TIMEOUT_SECS
        } else {
            timeout_secs
        };

        let now: u64 = env.timestamp;
        let timeout_at: u64 = match now.checked_add(effective_timeout) {
            Some(timeout_at) => timeout_at,
            None => {
                return Err(EscrowError::Arithmetic);
            },
        };

        // Lock USDC from buyer into this contract.
        let contract = env.contract.clone();
        env.ask(
            HostCall::Transfer {
                token: usdc_token.clone(),
                from: buyer.clone(),
                to: contract,
                amount: usdc_amount,
            },
        );

        let record = EscrowRecord {
            escrow_id: copy_bytes(&escrow_id),
            buyer: buyer.clone(),
            seller: seller.clone(),
            usdc_token,
            usdc_amount,
            credit_batch_id: copy_bytes(&credit_batch_id),
            credit_amount,
            timeout_at,
            buyer_confirmed: false,
            seller_confirmed: false,
            status: EscrowStatus::Active,
            created_at: now,
        };

        Self::store_escrow(env, &escrow_id, &record);

        env.ask(
            HostCall::Publish {
                event: Event::Created(
                    EscrowCreatedEvent {
                        escrow_id,
                        buyer,
                        seller,
                        usdc_amount,
                        credit_batch_id,
                        credit_amount,
                        timeout_at,
                    },
                ),
            },
        );
        Ok(())
    }

    /// Register a party's confirmation.
    ///
    /// * Seller calls this after transferring credits off-chain (or via a
    ///   cross-contract call) to signal readiness.
    /// * Buyer calls this after verifying the credits arrived.
    ///
    /// When both parties have confirmed, USDC is automatically released to
    /// the seller.
    pub fn confirm_escrow(env: &mut Env, caller: Address, escrow_id: Vec<u8>) -> (result: Result<
        EscrowStatus,
        EscrowError,
    >)
        ensures
            result == crate::rules::answer(
                old(env)@.confirm_error(caller@, escrow_id@),
                old(env)@.escrows[escrow_id@].confirmed_by(caller@).status,
            ),
            result matches Ok(status) ==> status == final(env)@.escrows[escrow_id@].status,
            final(env)@ == old(env)@.after_confirm(caller@, escrow_id@),
    {
        env.ask(HostCall::RequireAuth { address: caller.clone() });

        let mut record = match Self::load_escrow(env, &escrow_id) {
            Ok(record) => record,
            Err(error) => {
                return Err(error);
            },
        };

        // Only accept confirmations on active escrows.
        if record.status == EscrowStatus::Released || record.status == EscrowStatus::Refunded {
            return Err(EscrowError::EscrowAlreadyClosed);
        }
        // Identify which party is confirming.

        if caller == record.buyer {
            if record.buyer_confirmed {
                return Err(EscrowError::BuyerAlreadyConfirmed);
            }
            record.buyer_confirmed = true;
        } else if caller == record.seller {
            if record.seller_confirmed {
                return Err(EscrowError::SellerAlreadyConfirmed);
            }
            record.seller_confirmed = true;
        } else {
            return Err(EscrowError::Unauthorized);
        }

        // Update intermediate status.
        record.status = match (record.buyer_confirmed, record.seller_confirmed) {
            (true, false) => EscrowStatus::BuyerConfirmed,
            (false, true) => EscrowStatus::SellerConfirmed,
            _ => record.status,
        };

        env.ask(
            HostCall::Publish {
                event: Event::Confirmed(
                    EscrowConfirmedEvent {
                        escrow_id: copy_bytes(&escrow_id),
                        confirmed_by: caller,
                        buyer_confirmed: record.buyer_confirmed,
                        seller_confirmed: record.seller_confirmed,
                    },
                ),
            },
        );

        // Mutual agreement reached: release funds.
        if record.buyer_confirmed && record.seller_confirmed {
            Self::release_funds(env, &mut record);
        }
        Self::store_escrow(env, &escrow_id, &record);

        Ok(record.status)
    }

    /// Refund the locked USDC to the buyer after the timeout has elapsed.
    ///
    /// Either party (or any address) may call this once the timeout is past.
    /// This provides the on-chain safety valve when a counterparty goes silent.
    pub fn refund_escrow(env: &mut Env, escrow_id: Vec<u8>) -> (result: Result<(), EscrowError>)
        ensures
            result == crate::rules::answer(old(env)@.refund_error(escrow_id@), ()),
            final(env)@ == old(env)@.after_refund(escrow_id@),
    {
        let mut record = match Self::load_escrow(env, &escrow_id) {
            Ok(record) => record,
            Err(error) => {
                return Err(error);
            },
        };

        if record.status == EscrowStatus::Released || record.status == EscrowStatus::Refunded {
            return Err(EscrowError::EscrowAlreadyClosed);
        }
        let now: u64 = env.timestamp;
        if now <= record.timeout_at {
            return Err(EscrowError::TimeoutNotElapsed);
        }
        Self::return_funds(env, &mut record);
        Self::store_escrow(env, &escrow_id, &record);
        Ok(())
    }

    /// Admin-only: force-cancel an active escrow and return funds to buyer.
    ///
    /// Intended for dispute resolution; bypasses the timeout check.
    pub fn cancel_escrow(env: &mut Env, admin: Address, escrow_id: Vec<u8>) -> (result: Result<
        (),
        EscrowError,
    >)
        ensures
            result == crate::rules::answer(old(env)@.cancel_error(admin@, escrow_id@), ()),
            final(env)@ == old(env)@.after_cancel(admin@, escrow_id@),
    {
        env.ask(HostCall::RequireAuth { address: admin.clone() });
        match Self::require_admin(env, &admin) {
            Ok(()) => {},
            Err(error) => {
                return Err(error);
            },
        }

        let mut record = match Self::load_escrow(env, &escrow_id) {
            Ok(record) => record,
            Err(error) => {
                return Err(error);
            },
        };

        if record.status == EscrowStatus::Released || record.status == EscrowStatus::Refunded {
            return Err(EscrowError::EscrowAlreadyClosed);
        }
        Self::return_funds(env, &mut record);
        Self::store_escrow(env, &escrow_id, &record);
        Ok(())
    }

    // Queries

    /// Returns the escrow record for the given ID.
    pub fn get_escrow(env: &mut Env, escrow_id: Vec<u8>) -> (result: Result<
        EscrowRecord,
        EscrowError,
    >)
        ensures
            match result {
                Ok(record) => old(env)@.escrows.contains_key(escrow_id@) && record@ == old(
                    env,
                )@.escrows[escrow_id@],
                Err(error) => !old(env)@.escrows.contains_key(escrow_id@) && error
                    == EscrowError::EscrowNotFound,
            },
            final(env)@ == old(env)@.look_up(escrow_id@),
    {
        Self::load_escrow(env, &escrow_id)
    }

    // Internal helpers

    fn load_escrow(env: &mut Env, escrow_id: &Vec<u8>) -> (result: Result<
        EscrowRecord,
        EscrowError,
    >)
        ensures
            match result {
                Ok(record) => old(env)@.escrows.contains_key(escrow_id@) && record@ == old(
                    env,
                )@.escrows[escrow_id@],
                Err(error) => !old(env)@.escrows.contains_key(escrow_id@) && error
                    == EscrowError::EscrowNotFound,
            },
            final(env)@ == old(env)@.look_up(escrow_id@),
    {
        let record = match env.storage.get_escrow(escrow_id) {
            Some(record) => record,
            None => {
                return Err(EscrowError::EscrowNotFound);
            },
        };
        env.ask(
            HostCall::ExtendTtl {
                key: DataKey::Escrow(copy_bytes(escrow_id)),
                threshold: TTL_LEDGERS,
                extend_to: TTL_LEDGERS,
            },
        );
        Ok(record)
    }

    /// Store the record and keep its entry alive.
    fn store_escrow(env: &mut Env, escrow_id: &Vec<u8>, record: &EscrowRecord)
        ensures
            final(env)@ == old(env)@.store(escrow_id@, record@),
    {
        env.storage.set_escrow(copy_bytes(escrow_id), record.clone());
        env.ask(HostCall::SetEscrow { escrow_id: copy_bytes(escrow_id), record: record.clone() });
        env.ask(
            HostCall::ExtendTtl {
                key: DataKey::Escrow(copy_bytes(escrow_id)),
                threshold: TTL_LEDGERS,
                extend_to: TTL_LEDGERS,
            },
        );
    }

    /// Transfer USDC to the seller and mark the escrow as Released.
    fn release_funds(env: &mut Env, record: &mut EscrowRecord)
        ensures
            final(env)@ == old(env)@.release(old(record)@),
            final(record)@ == (EscrowRecordView {
                status: EscrowStatus::Released,
                ..old(record)@
            }),
    {
        let contract = env.contract.clone();
        env.ask(
            HostCall::Transfer {
                token: record.usdc_token.clone(),
                from: contract,
                to: record.seller.clone(),
                amount: record.usdc_amount,
            },
        );
        let now: u64 = env.timestamp;
        record.status = EscrowStatus::Released;

        env.ask(
            HostCall::Publish {
                event: Event::Released(
                    EscrowReleasedEvent {
                        escrow_id: copy_bytes(&record.escrow_id),
                        buyer: record.buyer.clone(),
                        seller: record.seller.clone(),
                        usdc_amount: record.usdc_amount,
                        released_at: now,
                    },
                ),
            },
        );
    }

    /// Transfer USDC back to the buyer and mark the escrow as Refunded.
    fn return_funds(env: &mut Env, record: &mut EscrowRecord)
        ensures
            final(env)@ == old(env)@.give_back(old(record)@),
            final(record)@ == old(record)@.refunded(),
    {
        let contract = env.contract.clone();
        env.ask(
            HostCall::Transfer {
                token: record.usdc_token.clone(),
                from: contract,
                to: record.buyer.clone(),
                amount: record.usdc_amount,
            },
        );
        let now: u64 = env.timestamp;
        record.status = EscrowStatus::Refunded;

        env.ask(
            HostCall::Publish {
                event: Event::Refunded(
                    EscrowRefundedEvent {
                        escrow_id: copy_bytes(&record.escrow_id),
                        buyer: record.buyer.clone(),
                        usdc_amount: record.usdc_amount,
                        refunded_at: now,
                    },
                ),
            },
        );
    }

    fn require_admin(env: &Env, caller: &Address) -> (result: Result<(), EscrowError>)
        ensures
            result == (if env@.admin == Some(caller@) {
                Ok(())
            } else {
                Err(EscrowError::Unauthorized)
            }),
    {
        match env.storage.get_admin() {
            Some(admin) => {
                if admin == *caller {
                    Ok(())
                } else {
                    Err(EscrowError::Unauthorized)
                }
            },
            None => Err(EscrowError::Unauthorized),
        }
    }
}

} // verus!
