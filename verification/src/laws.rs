//! What the contract promises as a whole: of every call, of calls that follow
//! each other, and of whole runs.
use crate::error::EscrowError;
use crate::events::EventView;
use crate::host::{EnvView, HostCallView};
use crate::requests::Request;
use crate::types::{EscrowRecordView, EscrowStatus};
use vstd::prelude::*;

verus! {

/// A new contract is valid.
pub proof fn law_new_contract_is_valid(contract: Seq<u8>, timestamp: u64)
    ensures
        EnvView::new(contract, timestamp).valid(),
{
}

/// Every call keeps the contract valid.
pub proof fn law_calls_keep_validity(env: EnvView, request: Request)
    requires
        env.valid(),
    ensures
        env.after(request).valid(),
{
}

/// A call only adds to what was asked of the host before it, and changes
/// neither the address of the contract nor the time.
pub proof fn law_calls_only_add(env: EnvView, request: Request)
    ensures
        env.after(request).calls == env.calls + env.after(request).calls_since(env),
        env.after(request).contract == env.contract,
        env.after(request).timestamp == env.timestamp,
{
}

/// A refused call leaves all entries as they are, moves no funds, stores
/// nothing and publishes nothing: all it asks of the host is authorization,
/// and to keep alive an entry that it has read.
pub proof fn law_refused_calls_change_nothing(env: EnvView, request: Request, i: int)
    requires
        env.error_of(request) is Some,
    ensures
        env.after(request).admin == env.admin,
        env.after(request).escrows == env.escrows,
        0 <= i < env.after(request).calls_since(env).len() ==> {
            let call = env.after(request).calls_since(env)[i];
            call is RequireAuth || call is ExtendTtl
        },
{
}

/// A call that succeeds has first of all asked for the authorization of its
/// signer, where it has one. The refused ones have too, except that nobody is
/// asked to authorize a second initialization.
pub proof fn law_signer_is_asked_first(env: EnvView, request: Request)
    requires
        request.signer() is Some,
        env.error_of(request) != Some(EscrowError::AlreadyInitialized),
    ensures
        env.after(request).calls_since(env).len() > 0,
        env.after(request).calls_since(env)[0] == (HostCallView::RequireAuth {
            address: request.signer().unwrap(),
        }),
{
}

/// A call touches no escrow but the one that it is about.
pub proof fn law_other_escrows_are_untouched(env: EnvView, request: Request, other: Seq<u8>)
    requires
        request.escrow_id() != Some(other),
    ensures
        env.after(request).escrows.contains_key(other) == env.escrows.contains_key(other),
        env.after(request).escrows[other] == env.escrows[other],
{
}

/// An escrow is never removed and its terms never change; its status moves
/// along the lifecycle, and a confirmation is never taken back.
pub proof fn law_lifecycle(env: EnvView, request: Request, escrow_id: Seq<u8>)
    requires
        env.valid(),
        env.escrows.contains_key(escrow_id),
    ensures
        env.after(request).escrows.contains_key(escrow_id),
        ({
            let before = env.escrows[escrow_id];
            let after = env.after(request).escrows[escrow_id];
            &&& before.same_terms(after)
            &&& after == before || before.status.leads_to(after.status)
            &&& before.buyer_confirmed ==> after.buyer_confirmed
            &&& before.seller_confirmed ==> after.seller_confirmed
        }),
{
}

/// A confirmation is recorded by nothing but a successful confirmation of that
/// party itself: the flag of a party changes if the party confirms, and stays as
/// it is at every other call.
pub proof fn law_confirmations_are_own(env: EnvView, request: Request, escrow_id: Seq<u8>)
    requires
        env.escrows.contains_key(escrow_id),
    ensures
        ({
            let before = env.escrows[escrow_id];
            let after = env.after(request).escrows[escrow_id];
            let confirms = |party: Seq<u8>|
                env.error_of(request) is None && request == (Request::Confirm {
                    caller: party,
                    escrow_id,
                });
            &&& after.buyer_confirmed == (before.buyer_confirmed || confirms(before.buyer))
            &&& after.seller_confirmed == (before.seller_confirmed || (confirms(before.seller)
                && before.seller != before.buyer))
        }),
{
}

/// A call debits nobody but the contract itself and, for a deposit of their own,
/// the one who signs it; it credits nobody but the contract and the parties of
/// the escrow that it is about, and moves nothing but the amount agreed on.
pub proof fn law_only_signers_are_debited(env: EnvView, request: Request, i: int)
    ensures
        ({
            let calls = env.after(request).calls_since(env);
            0 <= i < calls.len() ==> (calls[i] matches HostCallView::Transfer {
                token,
                from,
                to,
                amount,
            } ==> {
                &&& request.escrow_id() is Some
                &&& env.after(request).escrows.contains_key(request.escrow_id().unwrap())
                &&& {
                    let record = env.after(request).escrows[request.escrow_id().unwrap()];
                    &&& token == record.usdc_token
                    &&& amount == record.usdc_amount
                    &&& record.status is Active ==> Some(from) == request.signer() && from
                        == record.buyer && to == env.contract
                    &&& record.status is Released ==> from == env.contract && to == record.seller
                    &&& record.status is Refunded ==> from == env.contract && to == record.buyer
                    &&& record.status is Active || record.status is Released
                        || record.status is Refunded
                }
            })
        }),
{
}

/// A closed escrow stays as it is.
pub proof fn law_closed_is_final(env: EnvView, request: Request, escrow_id: Seq<u8>)
    requires
        env.is_closed(escrow_id),
    ensures
        env.after(request).is_closed(escrow_id),
        env.after(request).escrows[escrow_id] == env.escrows[escrow_id],
        request.escrow_id() == Some(escrow_id) && !(request is Get) ==> env.error_of(
            request,
        ) is Some,
{
}

/// What the host's entries, the admin and the escrows, become when it does one
/// thing that it was asked for.
pub open spec fn entries_step(
    entries: (Option<Seq<u8>>, Map<Seq<u8>, EscrowRecordView>),
    call: HostCallView,
) -> (Option<Seq<u8>>, Map<Seq<u8>, EscrowRecordView>) {
    match call {
        HostCallView::SetAdmin { admin } => (Some(admin), entries.1),
        HostCallView::SetEscrow { escrow_id, record } => (
            entries.0,
            entries.1.insert(escrow_id, record),
        ),
        _ => entries,
    }
}

/// What the host's entries become when it does one after the other what it was
/// asked for.
pub open spec fn entries_after(
    entries: (Option<Seq<u8>>, Map<Seq<u8>, EscrowRecordView>),
    calls: Seq<HostCallView>,
) -> (Option<Seq<u8>>, Map<Seq<u8>, EscrowRecordView>)
    decreases calls.len(),
{
    if calls.len() == 0 {
        entries
    } else {
        entries_step(entries_after(entries, calls.drop_last()), calls.last())
    }
}

/// Whether all that was asked of the host since `start` makes up the entries.
spec fn keeps_up(start: EnvView, env: EnvView) -> bool {
    &&& start.calls.len() <= env.calls.len()
    &&& entries_after((start.admin, start.escrows), env.calls_since(start)) == (
        env.admin,
        env.escrows,
    )
}

/// Asking for one thing more keeps up if the entries are changed along.
proof fn lemma_ask_keeps_up(start: EnvView, env: EnvView, call: HostCallView, next: EnvView)
    requires
        keeps_up(start, env),
        next.calls == env.calls.push(call),
        (next.admin, next.escrows) == entries_step((env.admin, env.escrows), call),
    ensures
        keeps_up(start, next),
{
    assert(next.calls_since(start).drop_last() =~= env.calls_since(start));
}

proof fn lemma_store_keeps_up(
    start: EnvView,
    env: EnvView,
    escrow_id: Seq<u8>,
    record: EscrowRecordView,
)
    requires
        keeps_up(start, env),
    ensures
        keeps_up(start, env.store(escrow_id, record)),
{
    let call = HostCallView::SetEscrow { escrow_id, record };
    let stored = EnvView { escrows: env.escrows.insert(escrow_id, record), ..env }.ask(call);
    lemma_ask_keeps_up(start, env, call, stored);
    let call = crate::rules::keep_alive(escrow_id);
    lemma_ask_keeps_up(start, stored, call, stored.ask(call));
}

/// Asking for nothing but what leaves the entries alone keeps up.
proof fn lemma_same_entries_keep_up(start: EnvView, env: EnvView, next: EnvView)
    requires
        keeps_up(start, env),
        next.admin == env.admin,
        next.escrows == env.escrows,
        env.calls.len() <= next.calls.len(),
        next.calls == env.calls + next.calls_since(env),
        forall|i: int|
            0 <= i < next.calls_since(env).len() ==> !((#[trigger] next.calls_since(env)[i])
                is SetAdmin) && !(next.calls_since(env)[i] is SetEscrow),
    ensures
        keeps_up(start, next),
    decreases next.calls.len(),
{
    let since = next.calls_since(env);
    if since.len() == 0 {
        assert(next.calls =~= env.calls);
    } else {
        let before = EnvView { calls: next.calls.drop_last(), ..next };
        assert(before.calls_since(env) =~= since.drop_last());
        assert(before.calls =~= env.calls + before.calls_since(env));
        assert(since[since.len() - 1] == next.calls.last());
        assert forall|i: int| 0 <= i < before.calls_since(env).len() implies !((
        #[trigger] before.calls_since(env)[i]) is SetAdmin) && !(before.calls_since(env)[i]
            is SetEscrow) by {
            assert(before.calls_since(env)[i] == since[i]);
        }
        lemma_same_entries_keep_up(start, env, before);
        assert(before.calls.push(next.calls.last()) =~= next.calls);
        lemma_ask_keeps_up(start, before, next.calls.last(), next);
    }
}

/// The entries that a call leaves are those that the host has once it has done
/// all that the call asked for: nothing changes that is not asked for.
pub proof fn law_host_keeps_up(env: EnvView, request: Request)
    ensures
        entries_after((env.admin, env.escrows), env.after(request).calls_since(env)) == (
            env.after(request).admin,
            env.after(request).escrows,
        ),
{
    let after = env.after(request);
    assert(keeps_up(env, env));
    if env.error_of(request) is Some || request is Get {
        law_calls_only_add(env, request);
        lemma_same_entries_keep_up(env, env, after);
    } else {
        match request {
            Request::Initialize { admin } => {
                let asked = env.ask_auth(admin);
                lemma_ask_keeps_up(env, env, HostCallView::RequireAuth { address: admin }, asked);
                lemma_ask_keeps_up(env, asked, HostCallView::SetAdmin { admin }, after);
            },
            Request::Create { offer } => {
                let told = EnvView { calls: after.calls.drop_last(), ..after };
                let record = offer.record(env.timestamp);
                let paid = env.ask_auth(offer.buyer).ask(
                    HostCallView::Transfer {
                        token: offer.usdc_token,
                        from: offer.buyer,
                        to: env.contract,
                        amount: offer.usdc_amount,
                    },
                );
                assert(paid.calls =~= env.calls + paid.calls_since(env));
                lemma_same_entries_keep_up(env, env, paid);
                lemma_store_keeps_up(env, paid, offer.escrow_id, record);
                assert(told =~= paid.store(offer.escrow_id, record));
                lemma_ask_keeps_up(env, told, after.calls.last(), after);
            },
            Request::Confirm { escrow_id, .. } | Request::Refund { escrow_id } | Request::Cancel {
                escrow_id,
                ..
            } => {
                let unstored = EnvView {
                    calls: after.calls.take(after.calls.len() - 2),
                    escrows: env.escrows,
                    ..after
                };
                assert(unstored.calls =~= env.calls + unstored.calls_since(env));
                lemma_same_entries_keep_up(env, env, unstored);
                lemma_store_keeps_up(env, unstored, escrow_id, after.escrows[escrow_id]);
                assert(after =~= unstored.store(escrow_id, after.escrows[escrow_id]));
            },
            Request::Get { .. } => {},
        }
    }
}

/// Whenever a call changes an escrow it also stores and tells the change, and
/// then keeps the entry alive.
pub proof fn law_changes_are_told(env: EnvView, request: Request, escrow_id: Seq<u8>)
    requires
        env.valid(),
        env.after(request).escrows.contains_key(escrow_id),
        env.escrows.contains_key(escrow_id) ==> env.after(request).escrows[escrow_id]
            != env.escrows[escrow_id],
    ensures
        ({
            let calls = env.after(request).calls_since(env);
            let record = env.after(request).escrows[escrow_id];
            let told = |event: EventView| calls.contains(HostCallView::Publish { event });
            &&& calls.contains(HostCallView::SetEscrow { escrow_id, record })
            &&& calls.contains(crate::rules::keep_alive(escrow_id))
            &&& !env.escrows.contains_key(escrow_id) ==> told(
                EventView::Created {
                    escrow_id,
                    buyer: record.buyer,
                    seller: record.seller,
                    usdc_amount: record.usdc_amount,
                    credit_batch_id: record.credit_batch_id,
                    credit_amount: record.credit_amount,
                    timeout_at: record.timeout_at,
                },
            )
            &&& record.status is Released ==> told(
                EventView::Released {
                    escrow_id,
                    buyer: record.buyer,
                    seller: record.seller,
                    usdc_amount: record.usdc_amount,
                    released_at: env.timestamp,
                },
            )
            &&& record.status is Refunded ==> told(
                EventView::Refunded {
                    escrow_id,
                    buyer: record.buyer,
                    usdc_amount: record.usdc_amount,
                    refunded_at: env.timestamp,
                },
            )
            &&& request is Confirm ==> told(
                EventView::Confirmed {
                    escrow_id,
                    confirmed_by: request.signer().unwrap(),
                    buyer_confirmed: record.buyer_confirmed,
                    seller_confirmed: record.seller_confirmed,
                },
            )
        }),
{
    let calls = env.after(request).calls_since(env);
    let n = calls.len() as int;
    assert(n >= 5);
    assert(calls.contains(calls[n - 1]));
    assert(calls.contains(calls[n - 2]));
    assert(calls.contains(calls[n - 3]));
    assert(calls.contains(calls[n - 4]));
    assert(calls.contains(calls[n - 5]));
}

/// The contract is initialized once: the admin never changes afterwards.
pub proof fn law_admin_is_set_once(env: EnvView, request: Request)
    ensures
        env.admin is None ==> (env.after(request).admin is Some <==> request is Initialize),
        env.admin is None && request is Initialize ==> env.after(request).admin
            == request.signer(),
        env.admin is Some ==> env.after(request).admin == env.admin,
        env.admin is Some && request is Initialize ==> env.error_of(request) == Some(
            EscrowError::AlreadyInitialized,
        ),
{
}

/// A call depends on little: on the admin only where it initializes or cancels,
/// on the address of the contract and the time only where it neither initializes
/// nor queries, and of the escrows only on the one that it is about. Where those
/// are the same, it answers the same, asks the same of the host, and leaves the
/// same.
pub proof fn law_calls_are_local(env: EnvView, other: EnvView, request: Request)
    requires
        !(request is Initialize) && !(request is Get) ==> env.contract == other.contract
            && env.timestamp == other.timestamp,
        request is Initialize || request is Cancel ==> env.admin == other.admin,
        request.escrow_id() matches Some(escrow_id) ==> {
            &&& env.escrows.contains_key(escrow_id) == other.escrows.contains_key(escrow_id)
            &&& env.escrows.contains_key(escrow_id) ==> env.escrows[escrow_id]
                == other.escrows[escrow_id]
        },
    ensures
        env.error_of(request) == other.error_of(request),
        env.after(request).calls_since(env) == other.after(request).calls_since(other),
        env.admin == other.admin ==> env.after(request).admin == other.after(request).admin,
        request.escrow_id() matches Some(escrow_id) ==> {
            let left = env.after(request).escrows;
            let right = other.after(request).escrows;
            &&& left.contains_key(escrow_id) == right.contains_key(escrow_id)
            &&& left.contains_key(escrow_id) ==> left[escrow_id] == right[escrow_id]
        },
{
}

/// A created escrow can be read back: it is active, it carries the terms of
/// the offer, and it times out once the asked for time is over (7 days where
/// none was asked for).
pub proof fn law_created_is_read_back(env: EnvView, offer: crate::rules::Offer)
    requires
        env.create_error(offer) is None,
    ensures
        ({
            let after = env.after_create(offer);
            let record = after.escrows[offer.escrow_id];
            &&& after.error_of(Request::Get { escrow_id: offer.escrow_id }) is None
            &&& record == offer.record(env.timestamp)
            &&& record.status is Active
            &&& record.timeout_at == env.timestamp + (if offer.timeout_secs == 0 {
                604_800
            } else {
                offer.timeout_secs as int
            })
        }),
{
}

/// An ID that is taken stays taken, whatever became of its escrow.
pub proof fn law_ids_are_not_reused(env: EnvView, offer: crate::rules::Offer)
    requires
        env.escrows.contains_key(offer.escrow_id),
    ensures
        env.create_error(offer) is Some,
        offer.usdc_amount > 0 && offer.credit_amount > 0 ==> env.create_error(offer) == Some(
            EscrowError::EscrowAlreadyClosed,
        ),
{
}

/// Only the parties of an open escrow can confirm it, each of them once.
pub proof fn law_parties_confirm_once(env: EnvView, caller: Seq<u8>, escrow_id: Seq<u8>, now: u64)
    ensures
        env.confirm_error(caller, escrow_id) is None ==> {
            &&& env.is_open(escrow_id)
            &&& caller == env.escrows[escrow_id].buyer || caller == env.escrows[escrow_id].seller
            &&& env.after_confirm(caller, escrow_id).at(now).confirm_error(
                caller,
                escrow_id,
            ) is Some
        },
{
}

/// An escrow is released by mutual confirmation and by nothing else.
pub proof fn law_release_is_mutual(env: EnvView, request: Request, escrow_id: Seq<u8>)
    requires
        env.valid(),
    ensures
        ({
            let after = env.after(request);
            after.escrows.contains_key(escrow_id) ==> (after.escrows[escrow_id].status is Released
                <==> after.escrows[escrow_id].buyer_confirmed
                && after.escrows[escrow_id].seller_confirmed)
        }),
{
    law_calls_keep_validity(env, request);
}

/// Once buyer and seller have both confirmed, in either order and whenever the
/// second does, the escrow is released.
pub proof fn law_mutual_confirmation_releases(
    env: EnvView,
    escrow_id: Seq<u8>,
    buyer_first: bool,
    now: u64,
)
    requires
        env.valid(),
        env.escrows.contains_key(escrow_id),
        env.escrows[escrow_id].status is Active,
        env.escrows[escrow_id].buyer != env.escrows[escrow_id].seller,
    ensures
        ({
            let record = env.escrows[escrow_id];
            let first = if buyer_first {
                record.buyer
            } else {
                record.seller
            };
            let second = if buyer_first {
                record.seller
            } else {
                record.buyer
            };
            let halfway = env.after_confirm(first, escrow_id);
            let done = halfway.at(now).after_confirm(second, escrow_id);
            &&& env.confirm_error(first, escrow_id) is None
            &&& halfway.escrows[escrow_id].status == if buyer_first {
                EscrowStatus::BuyerConfirmed
            } else {
                EscrowStatus::SellerConfirmed
            }
            &&& halfway.at(now).confirm_error(second, escrow_id) is None
            &&& done.escrows[escrow_id] == EscrowRecordView {
                buyer_confirmed: true,
                seller_confirmed: true,
                status: EscrowStatus::Released,
                ..record
            }
        }),
{
}

/// Whenever one party has confirmed and the escrow is still open, the
/// confirmation of the other releases it.
pub proof fn law_second_confirmation_releases(env: EnvView, escrow_id: Seq<u8>, caller: Seq<u8>)
    requires
        env.valid(),
        env.escrows.contains_key(escrow_id),
        env.escrows[escrow_id].buyer != env.escrows[escrow_id].seller,
        match env.escrows[escrow_id].status {
            EscrowStatus::SellerConfirmed => caller == env.escrows[escrow_id].buyer,
            EscrowStatus::BuyerConfirmed => caller == env.escrows[escrow_id].seller,
            _ => false,
        },
    ensures
        env.confirm_error(caller, escrow_id) is None,
        env.after_confirm(caller, escrow_id).escrows[escrow_id].status is Released,
{
}

/// An open escrow can be refunded, by anyone, exactly when its timeout is past.
pub proof fn law_refund_after_timeout(env: EnvView, escrow_id: Seq<u8>)
    requires
        env.is_open(escrow_id),
    ensures
        env.refund_error(escrow_id) is None <==> env.timestamp
            > env.escrows[escrow_id].timeout_at,
        env.refund_error(escrow_id) is None ==> env.after_refund(escrow_id).escrows[escrow_id]
            == env.escrows[escrow_id].refunded(),
        env.refund_error(escrow_id) is Some ==> env.refund_error(escrow_id) == Some(
            EscrowError::TimeoutNotElapsed,
        ),
{
}

/// An open escrow can be cancelled at any time by the admin, and by nobody else.
pub proof fn law_admin_cancels(env: EnvView, caller: Seq<u8>, escrow_id: Seq<u8>)
    requires
        env.is_open(escrow_id),
    ensures
        env.cancel_error(caller, escrow_id) is None <==> env.admin == Some(caller),
        env.cancel_error(caller, escrow_id) is None ==> env.after_cancel(
            caller,
            escrow_id,
        ).escrows[escrow_id] == env.escrows[escrow_id].refunded(),
        env.cancel_error(caller, escrow_id) is Some ==> env.cancel_error(caller, escrow_id)
            == Some(EscrowError::Unauthorized),
{
}

/// Every run keeps the contract valid.
pub proof fn law_runs_keep_validity(env: EnvView, requests: Seq<(u64, Request)>)
    requires
        env.valid(),
    ensures
        env.run(requests).valid(),
    decreases requests.len(),
{
    if requests.len() > 0 {
        law_runs_keep_validity(env, requests.drop_last());
        let before = env.run(requests.drop_last()).at(requests.last().0);
        law_calls_keep_validity(before, requests.last().1);
    }
}

/// A run only adds to what was asked of the host before it, and does not change
/// the address of the contract.
pub proof fn law_runs_only_add(env: EnvView, requests: Seq<(u64, Request)>)
    ensures
        env.run(requests).contract == env.contract,
        env.run(requests).calls == env.calls + env.run(requests).calls_since(env),
    decreases requests.len(),
{
    if requests.len() > 0 {
        law_runs_only_add(env, requests.drop_last());
        let before = env.run(requests.drop_last()).at(requests.last().0);
        law_calls_only_add(before, requests.last().1);
    }
}

/// Whatever is called afterwards, an escrow keeps its terms and its
/// confirmations, a closed escrow its status, and the contract its admin.
pub proof fn law_runs_keep_terms(
    env: EnvView,
    requests: Seq<(u64, Request)>,
    escrow_id: Seq<u8>,
)
    ensures
        env.admin is Some ==> env.run(requests).admin == env.admin,
        env.escrows.contains_key(escrow_id) ==> {
            let before = env.escrows[escrow_id];
            let after = env.run(requests).escrows[escrow_id];
            &&& env.run(requests).escrows.contains_key(escrow_id)
            &&& before.same_terms(after)
            &&& before.buyer_confirmed ==> after.buyer_confirmed
            &&& before.seller_confirmed ==> after.seller_confirmed
            &&& before.status.is_closed() ==> after == before
        },
    decreases requests.len(),
{
    if requests.len() > 0 {
        law_runs_keep_terms(env, requests.drop_last(), escrow_id);
    }
}

/// How many calls of a run close the escrow.
pub open spec fn closings(env: EnvView, requests: Seq<(u64, Request)>, escrow_id: Seq<u8>) -> nat
    decreases requests.len(),
{
    if requests.len() == 0 {
        0
    } else {
        let before = env.run(requests.drop_last());
        let closes = !before.is_closed(escrow_id) && env.run(requests).is_closed(escrow_id);
        closings(env, requests.drop_last(), escrow_id) + if closes {
            1nat
        } else {
            0nat
        }
    }
}

/// An escrow is closed once: no run closes it a second time.
pub proof fn law_closed_once(env: EnvView, requests: Seq<(u64, Request)>, escrow_id: Seq<u8>)
    ensures
        closings(env, requests, escrow_id) <= 1,
        closings(env, requests, escrow_id) == 1 <==> !env.is_closed(escrow_id) && env.run(
            requests,
        ).is_closed(escrow_id),
    decreases requests.len(),
{
    if requests.len() > 0 {
        law_closed_once(env, requests.drop_last(), escrow_id);
        let before = env.run(requests.drop_last()).at(requests.last().0);
        if before.is_closed(escrow_id) {
            law_closed_is_final(before, requests.last().1, escrow_id);
        }
        law_runs_keep_terms(env, requests.drop_last(), escrow_id);
    }
}

} // verus!
