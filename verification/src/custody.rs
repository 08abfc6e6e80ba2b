//! Where the money is: what the contract's transfers do to balances, and what
//! it has to hold for its open escrows.
use crate::host::{EnvView, HostCallView};
use crate::requests::Request;
use crate::rules::Offer;
use crate::types::EscrowRecordView;
use vstd::prelude::*;

verus! {

/// What one transfer adds to the balance of `account` in `token`.
pub open spec fn transfer_effect(call: HostCallView, token: Seq<u8>, account: Seq<u8>) -> int {
    match call {
        HostCallView::Transfer { token: moved, from, to, amount } => if moved == token {
            (if to == account {
                amount as int
            } else {
                0
            }) - (if from == account {
                amount as int
            } else {
                0
            })
        } else {
            0
        },
        _ => 0,
    }
}

/// What all the transfers asked for so far add to the balance of `account` in
/// `token`.
pub open spec fn balance(calls: Seq<HostCallView>, token: Seq<u8>, account: Seq<u8>) -> int
    decreases calls.len(),
{
    if calls.len() == 0 {
        0
    } else {
        balance(calls.drop_last(), token, account) + transfer_effect(calls.last(), token, account)
    }
}

/// What an escrow holds of `token`: its amount while it is open.
pub open spec fn held(record: EscrowRecordView, token: Seq<u8>) -> int {
    if !record.status.is_closed() && record.usdc_token == token {
        record.usdc_amount as int
    } else {
        0
    }
}

/// What all escrows together hold of `token`.
pub open spec fn locked(escrows: Map<Seq<u8>, EscrowRecordView>, token: Seq<u8>) -> int
    decreases escrows.dom().len(),
{
    if escrows.dom().finite() && escrows.dom().len() > 0 {
        let escrow_id = escrows.dom().choose();
        held(escrows[escrow_id], token) + locked(escrows.remove(escrow_id), token)
    } else {
        0
    }
}

broadcast proof fn lemma_balance_push(
    calls: Seq<HostCallView>,
    call: HostCallView,
    token: Seq<u8>,
    account: Seq<u8>,
)
    ensures
        #[trigger] balance(calls.push(call), token, account) == balance(calls, token, account)
            + transfer_effect(call, token, account),
{
    assert(calls.push(call).drop_last() =~= calls);
}

/// The sum can be taken apart at any escrow.
proof fn lemma_locked_remove(
    escrows: Map<Seq<u8>, EscrowRecordView>,
    token: Seq<u8>,
    escrow_id: Seq<u8>,
)
    requires
        escrows.dom().finite(),
        escrows.contains_key(escrow_id),
    ensures
        locked(escrows, token) == held(escrows[escrow_id], token) + locked(
            escrows.remove(escrow_id),
            token,
        ),
    decreases escrows.dom().len(),
{
    let chosen = escrows.dom().choose();
    if chosen != escrow_id {
        lemma_locked_remove(escrows.remove(chosen), token, escrow_id);
        lemma_locked_remove(escrows.remove(escrow_id), token, chosen);
        assert(escrows.remove(chosen).remove(escrow_id) =~= escrows.remove(escrow_id).remove(
            chosen,
        ));
    }
}

/// Storing a record changes the sum by what that escrow holds.
proof fn lemma_locked_insert(
    escrows: Map<Seq<u8>, EscrowRecordView>,
    token: Seq<u8>,
    escrow_id: Seq<u8>,
    record: EscrowRecordView,
)
    requires
        escrows.dom().finite(),
    ensures
        locked(escrows.insert(escrow_id, record), token) == locked(escrows, token) + held(
            record,
            token,
        ) - (if escrows.contains_key(escrow_id) {
            held(escrows[escrow_id], token)
        } else {
            0
        }),
{
    let inserted = escrows.insert(escrow_id, record);
    lemma_locked_remove(inserted, token, escrow_id);
    if escrows.contains_key(escrow_id) {
        lemma_locked_remove(escrows, token, escrow_id);
        assert(inserted.remove(escrow_id) =~= escrows.remove(escrow_id));
    } else {
        assert(inserted.remove(escrow_id) =~= escrows);
    }
}

/// What a call adds to the balance of `account` in `token`: the deposit that
/// it takes, or the payout that it makes.
pub open spec fn payment(
    env: EnvView,
    request: Request,
    token: Seq<u8>,
    account: Seq<u8>,
) -> int {
    if env.error_of(request) is Some {
        0
    } else {
        match request {
            Request::Create { offer } => transfer_effect(
                HostCallView::Transfer {
                    token: offer.usdc_token,
                    from: offer.buyer,
                    to: env.contract,
                    amount: offer.usdc_amount,
                },
                token,
                account,
            ),
            Request::Confirm { escrow_id, .. } | Request::Refund { escrow_id } | Request::Cancel {
                escrow_id,
                ..
            } => {
                let record = env.after(request).escrows[escrow_id];
                if record.status.is_closed() {
                    transfer_effect(
                        HostCallView::Transfer {
                            token: record.usdc_token,
                            from: env.contract,
                            to: if record.status is Released {
                                record.seller
                            } else {
                                record.buyer
                            },
                            amount: record.usdc_amount,
                        },
                        token,
                        account,
                    )
                } else {
                    0
                }
            },
            _ => 0,
        }
    }
}

/// Funds move when an escrow is created, from the buyer to the contract, and
/// when it is closed, from the contract to the seller if it was released and to
/// the buyer if it was refunded. They move in the full amount, and no other call
/// moves any.
pub proof fn law_funds_follow_status(
    env: EnvView,
    request: Request,
    token: Seq<u8>,
    account: Seq<u8>,
)
    ensures
        balance(env.after(request).calls, token, account) == balance(env.calls, token, account)
            + payment(env, request, token, account),
{
    broadcast use lemma_balance_push;

}

/// What a call by which the contract pays itself puts between its balance in
/// `token` and what its escrows hold: a deposit of its own locks what never came
/// in, and a payout to itself frees what never went out.
pub open spec fn self_dealt(env: EnvView, request: Request, token: Seq<u8>) -> int {
    if env.error_of(request) is Some {
        0
    } else {
        match request {
            Request::Create { offer } => if offer.buyer == env.contract && offer.usdc_token
                == token {
                -offer.usdc_amount
            } else {
                0
            },
            Request::Confirm { escrow_id, .. } | Request::Refund { escrow_id } | Request::Cancel {
                escrow_id,
                ..
            } => {
                let record = env.after(request).escrows[escrow_id];
                let payee = if record.status is Released {
                    record.seller
                } else {
                    record.buyer
                };
                if record.status.is_closed() && record.usdc_token == token && payee
                    == env.contract {
                    record.usdc_amount as int
                } else {
                    0
                }
            },
            _ => 0,
        }
    }
}

/// Each call changes what the contract holds of a token by exactly as much as
/// what its escrows hold, except where it makes the contract pay itself.
pub proof fn law_calls_keep_custody(env: EnvView, request: Request, token: Seq<u8>)
    requires
        env.escrows.dom().finite(),
    ensures
        balance(env.after(request).calls, token, env.contract) - locked(
            env.after(request).escrows,
            token,
        ) == balance(env.calls, token, env.contract) - locked(env.escrows, token) + self_dealt(
            env,
            request,
            token,
        ),
{
    law_funds_follow_status(env, request, token, env.contract);
    if let Some(escrow_id) = request.escrow_id() {
        lemma_locked_insert(
            env.escrows,
            token,
            escrow_id,
            env.after(request).escrows[escrow_id],
        );
    }
}

/// The contract is the buyer of none of its escrows.
pub open spec fn outside_buyers(env: EnvView) -> bool {
    forall|escrow_id: Seq<u8>| #[trigger]
        env.escrows.contains_key(escrow_id) ==> env.escrows[escrow_id].buyer != env.contract
}

/// The contract has confirmed none of its escrows as their seller.
pub open spec fn outside_sellers(env: EnvView) -> bool {
    forall|escrow_id: Seq<u8>| #[trigger]
        env.escrows.contains_key(escrow_id) && env.escrows[escrow_id].seller_confirmed
            ==> env.escrows[escrow_id].seller != env.contract
}

/// Whether, in a run from `env`, the call at `i` succeeds and is signed by the
/// contract itself.
pub open spec fn own_success(env: EnvView, requests: Seq<(u64, Request)>, i: int) -> bool {
    let (now, request) = requests[i];
    &&& request.signer() == Some(env.contract)
    &&& env.run(requests.take(i)).at(now).error_of(request) is None
}

/// Whether the contract itself creates no escrow in a run from `env`.
pub open spec fn creates_none(env: EnvView, requests: Seq<(u64, Request)>) -> bool {
    forall|i: int|
        0 <= i < requests.len() && (#[trigger] requests[i]).1 is Create ==> !own_success(
            env,
            requests,
            i,
        )
}

/// Whether the contract itself confirms no escrow in a run from `env`.
pub open spec fn confirms_none(env: EnvView, requests: Seq<(u64, Request)>) -> bool {
    forall|i: int|
        0 <= i < requests.len() && (#[trigger] requests[i]).1 is Confirm ==> !own_success(
            env,
            requests,
            i,
        )
}

proof fn lemma_locked_covers(
    escrows: Map<Seq<u8>, EscrowRecordView>,
    token: Seq<u8>,
    escrow_id: Seq<u8>,
)
    requires
        escrows.dom().finite(),
        forall|id: Seq<u8>| #[trigger] escrows.contains_key(id) ==> escrows[id].usdc_amount > 0,
    ensures
        locked(escrows, token) >= 0,
        escrows.contains_key(escrow_id) ==> locked(escrows, token) >= held(
            escrows[escrow_id],
            token,
        ),
    decreases escrows.dom().len(),
{
    if escrows.dom().len() > 0 {
        let chosen = escrows.dom().choose();
        lemma_locked_covers(escrows.remove(chosen), token, escrow_id);
        if escrows.contains_key(escrow_id) {
            lemma_locked_remove(escrows, token, escrow_id);
            lemma_locked_covers(escrows.remove(escrow_id), token, escrow_id);
        }
    }
}

/// A run in which the contract itself creates no escrow leaves its balance in
/// each token at least as far above what its escrows hold as it was, if it was
/// no buyer before. Where it confirms none either, and has confirmed none as
/// seller before, the distance stays the same. Calls that are refused do not
/// count.
pub proof fn law_runs_keep_margin(env: EnvView, requests: Seq<(u64, Request)>, token: Seq<u8>)
    requires
        env.valid(),
        outside_buyers(env),
        creates_none(env, requests),
    ensures
        ({
            let after = env.run(requests);
            let margin = balance(env.calls, token, env.contract) - locked(env.escrows, token);
            let left = balance(after.calls, token, env.contract) - locked(after.escrows, token);
            &&& outside_buyers(after)
            &&& left >= margin
            &&& outside_sellers(env) && confirms_none(env, requests) ==> outside_sellers(after)
                && left == margin
        }),
    decreases requests.len(),
{
    if requests.len() > 0 {
        let earlier = requests.drop_last();
        let n = earlier.len() as int;
        assert(requests.take(n) =~= earlier);
        assert forall|i: int| 0 <= i < n implies (#[trigger] earlier[i]) == requests[i]
            && own_success(env, earlier, i) == own_success(env, requests, i) by {
            assert(earlier.take(i) =~= requests.take(i));
        }
        law_runs_keep_margin(env, earlier, token);
        crate::laws::law_runs_keep_validity(env, earlier);
        crate::laws::law_runs_only_add(env, earlier);
        let (now, request) = requests[n];
        let before = env.run(earlier).at(now);
        law_calls_keep_custody(before, request, token);
        crate::laws::law_calls_keep_validity(before, request);
    }
}

/// After any run of calls on a new contract, in which the contract itself
/// creates no escrow, its transfers leave it of each token at least what its
/// open escrows hold, so that every open escrow is covered. Where it confirms
/// none either, they leave it exactly that. Calls that are refused do not count.
pub proof fn law_runs_keep_custody(
    contract: Seq<u8>,
    timestamp: u64,
    requests: Seq<(u64, Request)>,
    token: Seq<u8>,
    escrow_id: Seq<u8>,
)
    requires
        creates_none(EnvView::new(contract, timestamp), requests),
    ensures
        ({
            let new = EnvView::new(contract, timestamp);
            let env = new.run(requests);
            &&& balance(env.calls, token, contract) >= locked(env.escrows, token) >= 0
            &&& env.is_open(escrow_id) && env.escrows[escrow_id].usdc_token == token ==> balance(
                env.calls,
                token,
                contract,
            ) >= env.escrows[escrow_id].usdc_amount
            &&& confirms_none(new, requests) ==> balance(env.calls, token, contract) == locked(
                env.escrows,
                token,
            )
        }),
{
    let new = EnvView::new(contract, timestamp);
    law_runs_keep_margin(new, requests, token);
    crate::laws::law_runs_keep_validity(new, requests);
    lemma_locked_covers(new.run(requests).escrows, token, escrow_id);
}

/// A trade that both parties confirm comes down to one transfer from the buyer
/// to the seller, whoever of them confirms first and whenever they do.
pub proof fn law_trade_pays_seller(
    env: EnvView,
    offer: Offer,
    buyer_first: bool,
    then: u64,
    finally: u64,
    token: Seq<u8>,
    account: Seq<u8>,
)
    requires
        env.create_error(offer) is None,
        offer.buyer != offer.seller,
    ensures
        ({
            let first = if buyer_first {
                offer.buyer
            } else {
                offer.seller
            };
            let second = if buyer_first {
                offer.seller
            } else {
                offer.buyer
            };
            let created = env.after_create(offer).at(then);
            let halfway = created.after_confirm(first, offer.escrow_id).at(finally);
            let done = halfway.after_confirm(second, offer.escrow_id);
            &&& created.confirm_error(first, offer.escrow_id) is None
            &&& halfway.confirm_error(second, offer.escrow_id) is None
            &&& done.escrows[offer.escrow_id].status is Released
            &&& balance(done.calls, token, account) == balance(env.calls, token, account)
                + transfer_effect(
                HostCallView::Transfer {
                    token: offer.usdc_token,
                    from: offer.buyer,
                    to: offer.seller,
                    amount: offer.usdc_amount,
                },
                token,
                account,
            )
        }),
{
    broadcast use lemma_balance_push;

}

/// Whether none of the calls moves funds.
pub open spec fn moves_nothing(calls: Seq<HostCallView>) -> bool {
    forall|i: int| 0 <= i < calls.len() ==> !((#[trigger] calls[i]) is Transfer)
}

proof fn lemma_balance_add(
    first: Seq<HostCallView>,
    second: Seq<HostCallView>,
    token: Seq<u8>,
    account: Seq<u8>,
)
    requires
        moves_nothing(second),
    ensures
        balance(first + second, token, account) == balance(first, token, account),
    decreases second.len(),
{
    if second.len() == 0 {
        assert(first + second =~= first);
    } else {
        assert((first + second).drop_last() =~= first + second.drop_last());
        assert(!(second[second.len() - 1] is Transfer));
        lemma_balance_add(first, second.drop_last(), token, account);
    }
}

/// A run that moves no funds changes no balance and closes no escrow.
pub proof fn law_still_runs_close_nothing(
    env: EnvView,
    requests: Seq<(u64, Request)>,
    escrow_id: Seq<u8>,
    token: Seq<u8>,
    account: Seq<u8>,
)
    requires
        moves_nothing(env.run(requests).calls_since(env)),
    ensures
        balance(env.run(requests).calls, token, account) == balance(env.calls, token, account),
        env.is_open(escrow_id) ==> env.run(requests).is_open(escrow_id),
    decreases requests.len(),
{
    crate::laws::law_runs_only_add(env, requests);
    let since = env.run(requests).calls_since(env);
    lemma_balance_add(env.calls, since, token, account);
    if requests.len() > 0 {
        let earlier = requests.drop_last();
        let (now, request) = requests.last();
        let before = env.run(earlier).at(now);
        crate::laws::law_runs_only_add(env, earlier);
        crate::laws::law_calls_only_add(before, request);
        let until = env.run(earlier).calls_since(env);
        let last = env.run(requests).calls_since(before);
        assert(since =~= until + last);
        assert forall|i: int| 0 <= i < until.len() implies !((#[trigger] until[i]) is Transfer) by {
            assert(since[i] == until[i]);
        }
        law_still_runs_close_nothing(env, earlier, escrow_id, token, account);
        assert forall|i: int| 0 <= i < last.len() implies !((#[trigger] last[i]) is Transfer) by {
            assert(since[until.len() + i] == last[i]);
        }
        if before.is_open(escrow_id) && !env.run(requests).is_open(escrow_id) {
            assert(last[last.len() - 4] is Transfer);
        }
    }
}

/// Whatever is called between creation and refund, the refund undoes the
/// deposit: every balance is what the calls in between alone would have made of
/// it, and what it was before the creation if they move no funds. The refund is
/// owed once the timeout is past, if the escrow is open, as it is if the calls in
/// between move no funds.
pub proof fn law_refund_undoes_deposit(
    env: EnvView,
    offer: Offer,
    between: Seq<(u64, Request)>,
    now: u64,
    token: Seq<u8>,
    account: Seq<u8>,
)
    requires
        env.create_error(offer) is None,
        now > offer.record(env.timestamp).timeout_at,
        ({
            let created = env.after_create(offer);
            let later = created.run(between);
            later.is_open(offer.escrow_id) || moves_nothing(later.calls_since(created))
        }),
    ensures
        ({
            let created = env.after_create(offer);
            let later = created.run(between);
            let done = later.at(now).after_refund(offer.escrow_id);
            &&& later.at(now).refund_error(offer.escrow_id) is None
            &&& done.escrows[offer.escrow_id].status is Refunded
            &&& balance(done.calls, token, account) == balance(env.calls, token, account) + (
            balance(later.calls, token, account) - balance(created.calls, token, account))
            &&& moves_nothing(later.calls_since(created)) ==> balance(done.calls, token, account)
                == balance(env.calls, token, account)
        }),
{
    broadcast use lemma_balance_push;

    let created = env.after_create(offer);
    crate::laws::law_runs_keep_terms(created, between, offer.escrow_id);
    crate::laws::law_runs_only_add(created, between);
    if moves_nothing(created.run(between).calls_since(created)) {
        law_still_runs_close_nothing(created, between, offer.escrow_id, token, account);
    }
}

/// Whatever is called between creation and cancellation, the cancellation by the
/// admin undoes the deposit in the same way, at any time.
pub proof fn law_cancellation_undoes_deposit(
    env: EnvView,
    offer: Offer,
    between: Seq<(u64, Request)>,
    admin: Seq<u8>,
    now: u64,
    token: Seq<u8>,
    account: Seq<u8>,
)
    requires
        env.create_error(offer) is None,
        ({
            let created = env.after_create(offer);
            let later = created.run(between);
            &&& later.admin == Some(admin)
            &&& later.is_open(offer.escrow_id) || moves_nothing(later.calls_since(created))
        }),
    ensures
        ({
            let created = env.after_create(offer);
            let later = created.run(between);
            let done = later.at(now).after_cancel(admin, offer.escrow_id);
            &&& later.at(now).cancel_error(admin, offer.escrow_id) is None
            &&& done.escrows[offer.escrow_id].status is Refunded
            &&& balance(done.calls, token, account) == balance(env.calls, token, account) + (
            balance(later.calls, token, account) - balance(created.calls, token, account))
            &&& moves_nothing(later.calls_since(created)) ==> balance(done.calls, token, account)
                == balance(env.calls, token, account)
        }),
{
    broadcast use lemma_balance_push;

    let created = env.after_create(offer);
    crate::laws::law_runs_keep_terms(created, between, offer.escrow_id);
    crate::laws::law_runs_only_add(created, between);
    if moves_nothing(created.run(between).calls_since(created)) {
        law_still_runs_close_nothing(created, between, offer.escrow_id, token, account);
    }
}

/// Whatever is called between creation and release, the confirmation that
/// releases the escrow passes the deposit on: every balance is what the calls in
/// between and one transfer from the buyer to the seller would have made of it.
pub proof fn law_release_passes_deposit_on(
    env: EnvView,
    offer: Offer,
    between: Seq<(u64, Request)>,
    caller: Seq<u8>,
    now: u64,
    token: Seq<u8>,
    account: Seq<u8>,
)
    requires
        env.create_error(offer) is None,
        ({
            let later = env.after_create(offer).run(between).at(now);
            &&& later.confirm_error(caller, offer.escrow_id) is None
            &&& later.after_confirm(caller, offer.escrow_id).escrows[offer.escrow_id].status
                is Released
        }),
    ensures
        ({
            let created = env.after_create(offer);
            let later = created.run(between);
            let done = later.at(now).after_confirm(caller, offer.escrow_id);
            balance(done.calls, token, account) == balance(env.calls, token, account) + (balance(
                later.calls,
                token,
                account,
            ) - balance(created.calls, token, account)) + transfer_effect(
                HostCallView::Transfer {
                    token: offer.usdc_token,
                    from: offer.buyer,
                    to: offer.seller,
                    amount: offer.usdc_amount,
                },
                token,
                account,
            )
        }),
{
    broadcast use lemma_balance_push;

    let created = env.after_create(offer);
    crate::laws::law_runs_keep_terms(created, between, offer.escrow_id);
    crate::laws::law_runs_only_add(created, between);
}

} // verus!
