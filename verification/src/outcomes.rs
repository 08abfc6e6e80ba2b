//! What each call comes to, said of its arguments and of what it finds and
//! leaves, without the help of the rules: when it is refused and with what, which
//! fields of which record it changes, who is debited and credited, and what the
//! host sees of it in which order.
use crate::error::EscrowError;
use crate::events::{Event, EventView};
use crate::host::{Env, EnvView, HostCall, HostCallView};
use crate::rules::Offer;
use crate::types::{DataKey, DataKeyView, EscrowRecord, EscrowRecordView, EscrowStatus};
use vstd::prelude::*;

verus! {

// Refusals

/// The contract can be initialized as long as it has no admin.
pub proof fn law_initialization_refusals(env: EnvView)
    ensures
        env.initialize_error() is None <==> env.admin is None,
        env.initialize_error() == Some(EscrowError::AlreadyInitialized) <==> env.admin is Some,
{
}

/// A creation is refused for an amount that is not positive, else for an ID
/// under which an escrow is stored, else for a timeout past the end of time, and
/// for nothing else.
pub proof fn law_creation_refusals(env: EnvView, offer: Offer)
    ensures
        ({
            let error = env.create_error(offer);
            let positive = offer.usdc_amount > 0 && offer.credit_amount > 0;
            let taken = env.escrows.contains_key(offer.escrow_id);
            let fits = env.timestamp + (if offer.timeout_secs == 0 {
                604_800int
            } else {
                offer.timeout_secs as int
            }) <= 0xffff_ffff_ffff_ffff;
            &&& error is None <==> positive && !taken && fits
            &&& error == Some(EscrowError::ZeroAmountNotAllowed) <==> !positive
            &&& error == Some(EscrowError::EscrowAlreadyClosed) <==> positive && taken
            &&& error == Some(EscrowError::Arithmetic) <==> positive && !taken && !fits
        }),
{
}

/// Whether someone can confirm depends on their own part alone: the buyer until
/// the buyer has confirmed, the seller until the seller has, nobody else. Whoever
/// is both counts as the buyer. An escrow that was released or refunded, or never
/// created, is confirmed by nobody.
pub proof fn law_confirmation_refusals(env: EnvView, caller: Seq<u8>, escrow_id: Seq<u8>)
    ensures
        ({
            let error = env.confirm_error(caller, escrow_id);
            let found = env.escrows.contains_key(escrow_id);
            let record = env.escrows[escrow_id];
            let open = found && record.status != EscrowStatus::Released && record.status
                != EscrowStatus::Refunded;
            let buyer = caller == record.buyer;
            let seller = caller == record.seller && !buyer;
            &&& error is None <==> open && (buyer && !record.buyer_confirmed || seller
                && !record.seller_confirmed)
            &&& error == Some(EscrowError::EscrowNotFound) <==> !found
            &&& error == Some(EscrowError::EscrowAlreadyClosed) <==> found && !open
            &&& error == Some(EscrowError::BuyerAlreadyConfirmed) <==> open && buyer
                && record.buyer_confirmed
            &&& error == Some(EscrowError::SellerAlreadyConfirmed) <==> open && seller
                && record.seller_confirmed
            &&& error == Some(EscrowError::Unauthorized) <==> open && !buyer && !seller
        }),
{
}

/// A refund is refused where there is no escrow, where it is released or
/// refunded, and else up to and at its timeout.
pub proof fn law_refund_refusals(env: EnvView, escrow_id: Seq<u8>)
    ensures
        ({
            let error = env.refund_error(escrow_id);
            let found = env.escrows.contains_key(escrow_id);
            let record = env.escrows[escrow_id];
            let open = found && record.status != EscrowStatus::Released && record.status
                != EscrowStatus::Refunded;
            &&& error is None <==> open && env.timestamp > record.timeout_at
            &&& error == Some(EscrowError::EscrowNotFound) <==> !found
            &&& error == Some(EscrowError::EscrowAlreadyClosed) <==> found && !open
            &&& error == Some(EscrowError::TimeoutNotElapsed) <==> open && env.timestamp
                <= record.timeout_at
        }),
{
}

/// A cancellation is refused to all but the stored admin, and to the admin where
/// there is no escrow or it is released or refunded. The time plays no part.
pub proof fn law_cancellation_refusals(env: EnvView, caller: Seq<u8>, escrow_id: Seq<u8>)
    ensures
        ({
            let error = env.cancel_error(caller, escrow_id);
            let admin = env.admin is Some && env.admin.unwrap() == caller;
            let found = env.escrows.contains_key(escrow_id);
            let record = env.escrows[escrow_id];
            let open = found && record.status != EscrowStatus::Released && record.status
                != EscrowStatus::Refunded;
            &&& error is None <==> admin && open
            &&& error == Some(EscrowError::Unauthorized) <==> !admin
            &&& error == Some(EscrowError::EscrowNotFound) <==> admin && !found
            &&& error == Some(EscrowError::EscrowAlreadyClosed) <==> admin && found && !open
        }),
{
}

/// A call answers with its error where it has one, and only there.
pub proof fn law_answers<T>(error: EscrowError, value: T)
    ensures
        crate::rules::answer(Some(error), value) == Err::<T, EscrowError>(error),
        crate::rules::answer(None, value) == Ok::<T, EscrowError>(value),
{
}

// Records

/// Whether two records agree in all that was settled at creation.
pub open spec fn same_agreement(a: EscrowRecordView, b: EscrowRecordView) -> bool {
    &&& a.escrow_id == b.escrow_id
    &&& a.buyer == b.buyer
    &&& a.seller == b.seller
    &&& a.usdc_token == b.usdc_token
    &&& a.usdc_amount == b.usdc_amount
    &&& a.credit_batch_id == b.credit_batch_id
    &&& a.credit_amount == b.credit_amount
    &&& a.timeout_at == b.timeout_at
    &&& a.created_at == b.created_at
}

/// Whether two contracts differ in nothing but one escrow and in what was asked.
pub open spec fn same_but_one(a: EnvView, b: EnvView, escrow_id: Seq<u8>) -> bool {
    &&& a.contract == b.contract
    &&& a.timestamp == b.timestamp
    &&& a.admin == b.admin
    &&& a.escrows.remove(escrow_id) == b.escrows.remove(escrow_id)
}

/// Whether two contracts differ in nothing but in what was asked.
pub open spec fn same_entries(a: EnvView, b: EnvView) -> bool {
    &&& a.contract == b.contract
    &&& a.timestamp == b.timestamp
    &&& a.admin == b.admin
    &&& a.escrows == b.escrows
}

/// A created escrow carries each term of its offer and the time of its creation,
/// nobody has confirmed it, and nothing else is changed. Its timeout lies behind
/// the creation by the time asked for, or by 7 days of 86 400 seconds where none
/// was.
pub proof fn law_created_record(env: EnvView, offer: Offer)
    requires
        env.create_error(offer) is None,
    ensures
        ({
            let after = env.after_create(offer);
            let record = after.escrows[offer.escrow_id];
            &&& same_but_one(env, after, offer.escrow_id)
            &&& after.escrows.contains_key(offer.escrow_id)
            &&& record.escrow_id == offer.escrow_id
            &&& record.buyer == offer.buyer
            &&& record.seller == offer.seller
            &&& record.usdc_token == offer.usdc_token
            &&& record.usdc_amount == offer.usdc_amount
            &&& record.credit_batch_id == offer.credit_batch_id
            &&& record.credit_amount == offer.credit_amount
            &&& record.created_at == env.timestamp
            &&& offer.timeout_secs != 0 ==> record.timeout_at - record.created_at
                == offer.timeout_secs
            &&& offer.timeout_secs == 0 ==> record.timeout_at - record.created_at == 7 * 86_400
            &&& record.buyer_confirmed == false
            &&& record.seller_confirmed == false
            &&& record.status == EscrowStatus::Active
        }),
{
    assert(env.after_create(offer).escrows.remove(offer.escrow_id) =~= env.escrows.remove(
        offer.escrow_id,
    ));
}

/// Two offers that differ in a term are recorded differently: no term is lost.
pub proof fn law_records_tell_offers_apart(env: EnvView, a: Offer, b: Offer)
    requires
        env.create_error(a) is None,
        env.create_error(b) is None,
        env.after_create(a).escrows[a.escrow_id] == env.after_create(b).escrows[b.escrow_id],
    ensures
        a.timeout_secs == b.timeout_secs ==> a == b,
        a.timeout_secs != b.timeout_secs ==> a.timeout_secs == 0 && b.timeout_secs == 604_800
            || b.timeout_secs == 0 && a.timeout_secs == 604_800,
{
}

/// A confirmation sets the flag of the one who confirms, leaves the other flag
/// and the agreement alone, and gives the escrow the status that goes with the
/// flags: released if both are set, else that of the one that is.
pub proof fn law_confirmed_record(env: EnvView, caller: Seq<u8>, escrow_id: Seq<u8>)
    requires
        env.confirm_error(caller, escrow_id) is None,
    ensures
        ({
            let before = env.escrows[escrow_id];
            let after = env.after_confirm(caller, escrow_id);
            let record = after.escrows[escrow_id];
            &&& same_but_one(env, after, escrow_id)
            &&& after.escrows.contains_key(escrow_id)
            &&& same_agreement(before, record)
            &&& caller == before.buyer ==> record.buyer_confirmed && record.seller_confirmed
                == before.seller_confirmed
            &&& caller != before.buyer ==> record.seller_confirmed && record.buyer_confirmed
                == before.buyer_confirmed
            &&& record.status == EscrowStatus::Released <==> record.buyer_confirmed
                && record.seller_confirmed
            &&& record.status == EscrowStatus::BuyerConfirmed <==> record.buyer_confirmed
                && !record.seller_confirmed
            &&& record.status == EscrowStatus::SellerConfirmed <==> !record.buyer_confirmed
                && record.seller_confirmed
        }),
{
    assert(env.after_confirm(caller, escrow_id).escrows.remove(escrow_id) =~= env.escrows.remove(
        escrow_id,
    ));
}

/// The status that a confirmation answers with is the one that it leaves stored,
/// so that a query right after it reads the same.
pub proof fn law_confirmation_answers_stored_status(
    env: EnvView,
    caller: Seq<u8>,
    escrow_id: Seq<u8>,
)
    requires
        env.confirm_error(caller, escrow_id) is None,
    ensures
        crate::rules::answer(
            env.confirm_error(caller, escrow_id),
            env.escrows[escrow_id].confirmed_by(caller).status,
        ) == Ok::<EscrowStatus, EscrowError>(
            env.after_confirm(caller, escrow_id).escrows[escrow_id].status,
        ),
{
}

/// A refund changes nothing but the status: it neither adds nor takes back a
/// confirmation.
pub proof fn law_refunded_record(env: EnvView, escrow_id: Seq<u8>)
    requires
        env.refund_error(escrow_id) is None,
    ensures
        ({
            let before = env.escrows[escrow_id];
            let after = env.after_refund(escrow_id);
            let record = after.escrows[escrow_id];
            &&& same_but_one(env, after, escrow_id)
            &&& after.escrows.contains_key(escrow_id)
            &&& same_agreement(before, record)
            &&& record.buyer_confirmed == before.buyer_confirmed
            &&& record.seller_confirmed == before.seller_confirmed
            &&& record.status == EscrowStatus::Refunded
        }),
{
    assert(env.after_refund(escrow_id).escrows.remove(escrow_id) =~= env.escrows.remove(escrow_id));
}

/// Neither does a cancellation.
pub proof fn law_cancelled_record(env: EnvView, admin: Seq<u8>, escrow_id: Seq<u8>)
    requires
        env.cancel_error(admin, escrow_id) is None,
    ensures
        ({
            let before = env.escrows[escrow_id];
            let after = env.after_cancel(admin, escrow_id);
            let record = after.escrows[escrow_id];
            &&& same_but_one(env, after, escrow_id)
            &&& after.escrows.contains_key(escrow_id)
            &&& same_agreement(before, record)
            &&& record.buyer_confirmed == before.buyer_confirmed
            &&& record.seller_confirmed == before.seller_confirmed
            &&& record.status == EscrowStatus::Refunded
        }),
{
    assert(env.after_cancel(admin, escrow_id).escrows.remove(escrow_id) =~= env.escrows.remove(
        escrow_id,
    ));
}

/// A cancellation leaves what a refund past the timeout would leave.
pub proof fn law_cancellation_is_an_early_refund(
    env: EnvView,
    admin: Seq<u8>,
    escrow_id: Seq<u8>,
)
    requires
        env.cancel_error(admin, escrow_id) is None,
        env.refund_error(escrow_id) is None,
    ensures
        env.after_cancel(admin, escrow_id).escrows == env.after_refund(escrow_id).escrows,
        env.after_cancel(admin, escrow_id).calls == env.calls + seq![
            HostCallView::RequireAuth { address: admin },
        ] + env.after_refund(escrow_id).calls.skip(env.calls.len() as int),
{
}

/// Initialization stores the admin and changes nothing else; a second one changes
/// nothing at all.
pub proof fn law_initialized(env: EnvView, admin: Seq<u8>)
    ensures
        ({
            let after = env.after_initialize(admin);
            &&& after.contract == env.contract
            &&& after.timestamp == env.timestamp
            &&& after.escrows == env.escrows
            &&& env.admin is None ==> after.admin == Some(admin)
            &&& env.admin is Some ==> after == env
        }),
{
}

/// A query changes no entry, whether it finds one or not.
pub proof fn law_queried(env: EnvView, escrow_id: Seq<u8>)
    ensures
        same_entries(env, env.look_up(escrow_id)),
{
}

/// A refused call changes no entry.
pub proof fn law_refused(env: EnvView, offer: Offer, caller: Seq<u8>, escrow_id: Seq<u8>)
    ensures
        env.create_error(offer) is Some ==> same_entries(env, env.after_create(offer)),
        env.confirm_error(caller, escrow_id) is Some ==> same_entries(
            env,
            env.after_confirm(caller, escrow_id),
        ),
        env.refund_error(escrow_id) is Some ==> same_entries(env, env.after_refund(escrow_id)),
        env.cancel_error(caller, escrow_id) is Some ==> same_entries(
            env,
            env.after_cancel(caller, escrow_id),
        ),
{
}

// Transfers

/// What was asked of the host since `earlier`.
pub open spec fn asked(earlier: EnvView, later: EnvView) -> Seq<HostCallView> {
    later.calls.subrange(earlier.calls.len() as int, later.calls.len() as int)
}

/// Whether the one and only transfer among some host calls is this one.
pub open spec fn one_transfer(
    calls: Seq<HostCallView>,
    token: Seq<u8>,
    from: Seq<u8>,
    to: Seq<u8>,
    amount: i128,
) -> bool {
    exists|k: int|
        {
            &&& 0 <= k < calls.len()
            &&& #[trigger] calls[k] == (HostCallView::Transfer { token, from, to, amount })
            &&& forall|i: int|
                0 <= i < calls.len() && i != k ==> !((#[trigger] calls[i]) is Transfer)
        }
}

/// Whether there is no transfer among some host calls.
pub open spec fn no_transfer(calls: Seq<HostCallView>) -> bool {
    forall|i: int| 0 <= i < calls.len() ==> !((#[trigger] calls[i]) is Transfer)
}

/// A creation moves the USDC amount of the offer, once, from the buyer to the
/// contract.
pub proof fn law_creation_transfer(env: EnvView, offer: Offer)
    ensures
        env.create_error(offer) is None ==> one_transfer(
            asked(env, env.after_create(offer)),
            offer.usdc_token,
            offer.buyer,
            env.contract,
            offer.usdc_amount,
        ),
        env.create_error(offer) is Some ==> no_transfer(asked(env, env.after_create(offer))),
{
    if env.create_error(offer) is None {
        assert(asked(env, env.after_create(offer))[1] is Transfer);
    }
}

/// A confirmation moves funds exactly if it leaves both confirmations: then the
/// USDC amount of the escrow goes, once, from the contract to the seller.
pub proof fn law_confirmation_transfer(env: EnvView, caller: Seq<u8>, escrow_id: Seq<u8>)
    ensures
        ({
            let before = env.escrows[escrow_id];
            let after = env.after_confirm(caller, escrow_id);
            let agreed = env.confirm_error(caller, escrow_id) is None && if caller == before.buyer {
                before.seller_confirmed
            } else {
                before.buyer_confirmed
            };
            &&& agreed ==> one_transfer(
                asked(env, after),
                before.usdc_token,
                env.contract,
                before.seller,
                before.usdc_amount,
            )
            &&& !agreed ==> no_transfer(asked(env, after))
        }),
{
    let calls = asked(env, env.after_confirm(caller, escrow_id));
    if calls.len() > 5 {
        assert(calls[3] is Transfer);
    }
}

/// A refund moves the USDC amount of the escrow, once, from the contract to the
/// buyer: it takes nobody's consent but the contract's.
pub proof fn law_refund_transfer(env: EnvView, escrow_id: Seq<u8>)
    ensures
        ({
            let before = env.escrows[escrow_id];
            let after = env.after_refund(escrow_id);
            &&& env.refund_error(escrow_id) is None ==> one_transfer(
                asked(env, after),
                before.usdc_token,
                env.contract,
                before.buyer,
                before.usdc_amount,
            )
            &&& env.refund_error(escrow_id) is Some ==> no_transfer(asked(env, after))
        }),
{
    if env.refund_error(escrow_id) is None {
        assert(asked(env, env.after_refund(escrow_id))[1] is Transfer);
    }
}

/// So does a cancellation.
pub proof fn law_cancellation_transfer(env: EnvView, admin: Seq<u8>, escrow_id: Seq<u8>)
    ensures
        ({
            let before = env.escrows[escrow_id];
            let after = env.after_cancel(admin, escrow_id);
            &&& env.cancel_error(admin, escrow_id) is None ==> one_transfer(
                asked(env, after),
                before.usdc_token,
                env.contract,
                before.buyer,
                before.usdc_amount,
            )
            &&& env.cancel_error(admin, escrow_id) is Some ==> no_transfer(asked(env, after))
        }),
{
    if env.cancel_error(admin, escrow_id) is None {
        assert(asked(env, env.after_cancel(admin, escrow_id))[2] is Transfer);
    }
}

/// Nobody is debited without having been asked: every transfer is from the
/// contract itself or, at a creation, of a positive amount and from the buyer, who
/// has been asked before.
pub proof fn law_nobody_else_is_debited(
    env: EnvView,
    offer: Offer,
    caller: Seq<u8>,
    escrow_id: Seq<u8>,
    i: int,
)
    ensures
        ({
            let calls = asked(env, env.after_create(offer));
            0 <= i < calls.len() ==> (calls[i] matches HostCallView::Transfer { from, amount, .. }
                ==> amount > 0 && from == offer.buyer && i > 0 && calls[0] == (
            HostCallView::RequireAuth { address: from }))
        }),
        ({
            let calls = asked(env, env.after_confirm(caller, escrow_id));
            0 <= i < calls.len() ==> (calls[i] matches HostCallView::Transfer { from, .. } ==> from
                == env.contract)
        }),
        ({
            let calls = asked(env, env.after_refund(escrow_id));
            0 <= i < calls.len() ==> (calls[i] matches HostCallView::Transfer { from, .. } ==> from
                == env.contract)
        }),
        ({
            let calls = asked(env, env.after_cancel(caller, escrow_id));
            0 <= i < calls.len() ==> (calls[i] matches HostCallView::Transfer { from, .. } ==> from
                == env.contract)
        }),
{
}

// What the host sees, in which order

/// Asks that the entry of an escrow, if it has fewer than 30 days of ledgers left
/// (at 5 seconds each), be given 30 days.
pub open spec fn thirty_days(escrow_id: Seq<u8>) -> HostCallView {
    HostCallView::ExtendTtl {
        key: DataKeyView::Escrow(escrow_id),
        threshold: 518_400,
        extend_to: 518_400,
    }
}

/// Initialization asks the admin, then stores it.
pub proof fn law_initialization_order(env: EnvView, admin: Seq<u8>)
    ensures
        env.admin is None ==> env.after_initialize(admin).calls == env.calls + seq![
            HostCallView::RequireAuth { address: admin },
            HostCallView::SetAdmin { admin },
        ],
        env.admin is Some ==> env.after_initialize(admin).calls == env.calls,
{
}

/// A creation asks the buyer, takes the deposit, stores the very record that can
/// be read afterwards, keeps it alive, and tells its terms. A refused one asks
/// the buyer and stops.
pub proof fn law_creation_order(env: EnvView, offer: Offer)
    ensures
        ({
            let after = env.after_create(offer);
            let record = after.escrows[offer.escrow_id];
            &&& env.create_error(offer) is None ==> after.calls == env.calls + seq![
                HostCallView::RequireAuth { address: offer.buyer },
                HostCallView::Transfer {
                    token: offer.usdc_token,
                    from: offer.buyer,
                    to: env.contract,
                    amount: offer.usdc_amount,
                },
                HostCallView::SetEscrow { escrow_id: offer.escrow_id, record },
                thirty_days(offer.escrow_id),
                HostCallView::Publish {
                    event: EventView::Created {
                        escrow_id: offer.escrow_id,
                        buyer: offer.buyer,
                        seller: offer.seller,
                        usdc_amount: offer.usdc_amount,
                        credit_batch_id: offer.credit_batch_id,
                        credit_amount: offer.credit_amount,
                        timeout_at: record.timeout_at,
                    },
                },
            ]
            &&& env.create_error(offer) is Some ==> after.calls == env.calls + seq![
                HostCallView::RequireAuth { address: offer.buyer },
            ]
        }),
{
}

/// A confirmation asks its caller, reads and keeps alive, tells who has
/// confirmed, pays the seller and tells so if both have, and stores the very
/// record that can be read afterwards. A refused one stops once it has read.
pub proof fn law_confirmation_order(env: EnvView, caller: Seq<u8>, escrow_id: Seq<u8>)
    ensures
        ({
            let before = env.escrows[escrow_id];
            let after = env.after_confirm(caller, escrow_id);
            let record = after.escrows[escrow_id];
            let auth = HostCallView::RequireAuth { address: caller };
            let told = HostCallView::Publish {
                event: EventView::Confirmed {
                    escrow_id,
                    confirmed_by: caller,
                    buyer_confirmed: before.buyer_confirmed || caller == before.buyer,
                    seller_confirmed: before.seller_confirmed || caller != before.buyer,
                },
            };
            let store = HostCallView::SetEscrow { escrow_id, record };
            let alive = thirty_days(escrow_id);
            if !env.escrows.contains_key(escrow_id) {
                after.calls == env.calls + seq![auth]
            } else if env.confirm_error(caller, escrow_id) is Some {
                after.calls == env.calls + seq![auth, alive]
            } else if record.buyer_confirmed && record.seller_confirmed {
                after.calls == env.calls + seq![
                    auth,
                    alive,
                    told,
                    HostCallView::Transfer {
                        token: before.usdc_token,
                        from: env.contract,
                        to: before.seller,
                        amount: before.usdc_amount,
                    },
                    HostCallView::Publish {
                        event: EventView::Released {
                            escrow_id: before.escrow_id,
                            buyer: before.buyer,
                            seller: before.seller,
                            usdc_amount: before.usdc_amount,
                            released_at: env.timestamp,
                        },
                    },
                    store,
                    alive,
                ]
            } else {
                after.calls == env.calls + seq![auth, alive, told, store, alive]
            }
        }),
{
}

/// A refund asks nobody: it reads and keeps alive, pays the buyer, tells so, and
/// stores the very record that can be read afterwards. A refused one stops once
/// it has read.
pub proof fn law_refund_order(env: EnvView, escrow_id: Seq<u8>)
    ensures
        ({
            let before = env.escrows[escrow_id];
            let after = env.after_refund(escrow_id);
            let alive = thirty_days(escrow_id);
            if !env.escrows.contains_key(escrow_id) {
                after.calls == env.calls
            } else if env.refund_error(escrow_id) is Some {
                after.calls == env.calls + seq![alive]
            } else {
                after.calls == env.calls + seq![
                    alive,
                    HostCallView::Transfer {
                        token: before.usdc_token,
                        from: env.contract,
                        to: before.buyer,
                        amount: before.usdc_amount,
                    },
                    HostCallView::Publish {
                        event: EventView::Refunded {
                            escrow_id: before.escrow_id,
                            buyer: before.buyer,
                            usdc_amount: before.usdc_amount,
                            refunded_at: env.timestamp,
                        },
                    },
                    HostCallView::SetEscrow { escrow_id, record: after.escrows[escrow_id] },
                    alive,
                ]
            }
        }),
{
}

/// A cancellation asks its caller and, if that is the admin, does what a refund
/// does, whatever the time. One by anybody else does not even read the escrow.
pub proof fn law_cancellation_order(env: EnvView, caller: Seq<u8>, escrow_id: Seq<u8>)
    ensures
        ({
            let before = env.escrows[escrow_id];
            let after = env.after_cancel(caller, escrow_id);
            let auth = HostCallView::RequireAuth { address: caller };
            let alive = thirty_days(escrow_id);
            if env.admin != Some(caller) || !env.escrows.contains_key(escrow_id) {
                after.calls == env.calls + seq![auth]
            } else if env.cancel_error(caller, escrow_id) is Some {
                after.calls == env.calls + seq![auth, alive]
            } else {
                after.calls == env.calls + seq![
                    auth,
                    alive,
                    HostCallView::Transfer {
                        token: before.usdc_token,
                        from: env.contract,
                        to: before.buyer,
                        amount: before.usdc_amount,
                    },
                    HostCallView::Publish {
                        event: EventView::Refunded {
                            escrow_id: before.escrow_id,
                            buyer: before.buyer,
                            usdc_amount: before.usdc_amount,
                            refunded_at: env.timestamp,
                        },
                    },
                    HostCallView::SetEscrow { escrow_id, record: after.escrows[escrow_id] },
                    alive,
                ]
            }
        }),
{
}

/// A query keeps alive what it finds, and asks for nothing else.
pub proof fn law_query_order(env: EnvView, escrow_id: Seq<u8>)
    ensures
        env.escrows.contains_key(escrow_id) ==> env.look_up(escrow_id).calls == env.calls + seq![
            thirty_days(escrow_id),
        ],
        !env.escrows.contains_key(escrow_id) ==> env.look_up(escrow_id).calls == env.calls,
{
}

// What the views show

/// A new contract has no admin and no escrow, and has asked for nothing.
pub proof fn law_new_contract(contract: Seq<u8>, timestamp: u64, escrow_id: Seq<u8>)
    ensures
        ({
            let env = EnvView::new(contract, timestamp);
            &&& env.contract == contract
            &&& env.timestamp == timestamp
            &&& env.admin is None
            &&& !env.escrows.contains_key(escrow_id)
            &&& env.calls.len() == 0
        }),
{
}

/// The view of a record shows each field as it is, byte strings by their bytes.
pub proof fn law_record_view(record: EscrowRecord)
    ensures
        record@.escrow_id == record.escrow_id@,
        record@.buyer == record.buyer.strkey@,
        record@.seller == record.seller.strkey@,
        record@.usdc_token == record.usdc_token.strkey@,
        record@.usdc_amount == record.usdc_amount,
        record@.credit_batch_id == record.credit_batch_id@,
        record@.credit_amount == record.credit_amount,
        record@.timeout_at == record.timeout_at,
        record@.buyer_confirmed == record.buyer_confirmed,
        record@.seller_confirmed == record.seller_confirmed,
        record@.status == record.status,
        record@.created_at == record.created_at,
{
}

/// The view of an event shows each field as it is.
pub proof fn law_event_view(event: Event)
    ensures
        match event {
            Event::Created(e) => {
                &&& event@ matches EventView::Created {
                    escrow_id,
                    buyer,
                    seller,
                    usdc_amount,
                    credit_batch_id,
                    credit_amount,
                    timeout_at,
                }
                &&& escrow_id == e.escrow_id@
                &&& buyer == e.buyer.strkey@
                &&& seller == e.seller.strkey@
                &&& usdc_amount == e.usdc_amount
                &&& credit_batch_id == e.credit_batch_id@
                &&& credit_amount == e.credit_amount
                &&& timeout_at == e.timeout_at
            },
            Event::Confirmed(e) => {
                &&& event@ matches EventView::Confirmed {
                    escrow_id,
                    confirmed_by,
                    buyer_confirmed,
                    seller_confirmed,
                }
                &&& escrow_id == e.escrow_id@
                &&& confirmed_by == e.confirmed_by.strkey@
                &&& buyer_confirmed == e.buyer_confirmed
                &&& seller_confirmed == e.seller_confirmed
            },
            Event::Released(e) => {
                &&& event@ matches EventView::Released {
                    escrow_id,
                    buyer,
                    seller,
                    usdc_amount,
                    released_at,
                }
                &&& escrow_id == e.escrow_id@
                &&& buyer == e.buyer.strkey@
                &&& seller == e.seller.strkey@
                &&& usdc_amount == e.usdc_amount
                &&& released_at == e.released_at
            },
            Event::Refunded(e) => {
                &&& event@ matches EventView::Refunded {
                    escrow_id,
                    buyer,
                    usdc_amount,
                    refunded_at,
                }
                &&& escrow_id == e.escrow_id@
                &&& buyer == e.buyer.strkey@
                &&& usdc_amount == e.usdc_amount
                &&& refunded_at == e.refunded_at
            },
        },
{
}

/// The view of a host call shows each argument as it is.
pub proof fn law_host_call_view(call: HostCall)
    ensures
        match call {
            HostCall::RequireAuth { address } => call@ == (HostCallView::RequireAuth {
                address: address.strkey@,
            }),
            HostCall::SetAdmin { admin } => call@ == (HostCallView::SetAdmin {
                admin: admin.strkey@,
            }),
            HostCall::SetEscrow { escrow_id, record } => call@ == (HostCallView::SetEscrow {
                escrow_id: escrow_id@,
                record: record@,
            }),
            HostCall::ExtendTtl { key, threshold, extend_to } => call@ == (
            HostCallView::ExtendTtl {
                key: match key {
                    DataKey::Escrow(escrow_id) => DataKeyView::Escrow(escrow_id@),
                    DataKey::Admin => DataKeyView::Admin,
                },
                threshold,
                extend_to,
            }),
            HostCall::Transfer { token, from, to, amount } => call@ == (HostCallView::Transfer {
                token: token.strkey@,
                from: from.strkey@,
                to: to.strkey@,
                amount,
            }),
            HostCall::Publish { event } => call@ == (HostCallView::Publish { event: event@ }),
        },
{
}

/// The view of a contract shows its address, its time, its entries and all that
/// it has asked for, one for one.
pub proof fn law_env_view(env: Env, i: int)
    ensures
        env@.contract == env.contract.strkey@,
        env@.timestamp == env.timestamp,
        env@.admin == env.storage@.admin,
        env@.escrows == env.storage@.escrows,
        env@.calls.len() == env.calls@.len(),
        0 <= i < env.calls@.len() ==> env@.calls[i] == env.calls@[i]@,
{
}

/// Events go out under `escrow` and a word for their kind.
pub proof fn law_event_topics(event: EventView)
    ensures
        event.topics().0 == "escrow"@,
        event is Created ==> event.topics().1 == "created"@,
        event is Confirmed ==> event.topics().1 == "confirm"@,
        event is Released ==> event.topics().1 == "released"@,
        event is Refunded ==> event.topics().1 == "refunded"@,
{
}

/// Errors are reported under the numbers from 1 to 10, each under its own.
pub proof fn law_error_codes(a: EscrowError, b: EscrowError)
    ensures
        1 <= a.spec_code() <= 10,
        a.spec_code() == b.spec_code() ==> a == b,
        a.spec_code() == 1 <==> a is EscrowNotFound,
        a.spec_code() == 2 <==> a is EscrowAlreadyClosed,
        a.spec_code() == 3 <==> a is Unauthorized,
        a.spec_code() == 4 <==> a is TimeoutNotElapsed,
        a.spec_code() == 5 <==> a is ZeroAmountNotAllowed,
        a.spec_code() == 6 <==> a is AlreadyInitialized,
        a.spec_code() == 7 <==> a is EscrowStillActive,
        a.spec_code() == 8 <==> a is Arithmetic,
        a.spec_code() == 9 <==> a is BuyerAlreadyConfirmed,
        a.spec_code() == 10 <==> a is SellerAlreadyConfirmed,
{
}

} // verus!
