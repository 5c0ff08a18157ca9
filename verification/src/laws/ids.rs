//! What only ever goes one way: identifiers are used once, and counters count
//! up.

use crate::laws::streams::fits;
use crate::operations::Request;
use crate::state::{Call, ContractState};
use crate::types::{Address, CreateStreamParams};
use vstd::prelude::*;

verus! {

/// Identifiers stay used, and whatever is new has an identifier that was not
/// used, except that an accepted offer hands its own on to the stream.
pub open spec fn ids_once(s: ContractState, t: ContractState) -> bool {
    &&& forall|id: u64| #[trigger] s.taken(id) ==> t.taken(id)
    &&& forall|id: u64| #[trigger]
        t.streams.dom().contains(id) ==> s.streams.dom().contains(id) || !s.taken(id)
            || s.offers.dom().contains(id)
    &&& forall|id: u64| #[trigger]
        t.offers.dom().contains(id) ==> s.offers.dom().contains(id) || !s.taken(id)
}

/// Fees paid to keepers, identifiers of templates and nonces never go down.
pub open spec fn counters_up(s: ContractState, t: ContractState) -> bool {
    &&& s.total_keeper_fees_paid <= t.total_keeper_fees_paid
    &&& s.next_template_id <= t.next_template_id
    &&& forall|who: Address| #[trigger] s.delegated_nonce(who) <= t.delegated_nonce(who)
}

/// Both together.
pub open spec fn onward(s: ContractState, t: ContractState) -> bool {
    ids_once(s, t) && counters_up(s, t)
}

/// The counters have room for the operation.
pub open spec fn countable(s: ContractState, request: Request) -> bool {
    match request {
        Request::DelegatedWithdraw { request: r } => r.nonce < u64::MAX,
        Request::RegisterTemplate { .. } => s.next_template_id < u64::MAX,
        _ => true,
    }
}

/// Nothing was handed out, and no counter changed.
pub open spec fn same_counters(s: ContractState, t: ContractState) -> bool {
    &&& t.reservations == s.reservations
    &&& t.next_stream_id == s.next_stream_id
    &&& t.offers == s.offers
    &&& t.total_keeper_fees_paid == s.total_keeper_fees_paid
    &&& t.next_template_id == s.next_template_id
    &&& t.delegated_nonces == s.delegated_nonces
    &&& forall|id: u64| #[trigger] t.streams.dom().contains(id) ==> s.streams.dom().contains(id)
}

proof fn lemma_same_counters(s: ContractState, t: ContractState)
    requires
        same_counters(s, t),
    ensures
        onward(s, t),
{
}

proof fn lemma_onward_steps(s: ContractState, t: ContractState, u: ContractState)
    requires
        onward(s, t),
        onward(t, u),
    ensures
        onward(s, u),
{
    assert forall|id: u64| #[trigger] u.streams.dom().contains(id) implies s.streams.dom().contains(
        id,
    ) || !s.taken(id) || s.offers.dom().contains(id) by {
        if !t.streams.dom().contains(id) && t.taken(id) {
            assert(t.offers.dom().contains(id));
        }
    }
    assert forall|id: u64| #[trigger] u.offers.dom().contains(id) implies s.offers.dom().contains(
        id,
    ) || !s.taken(id) by {
        if !t.offers.dom().contains(id) {
            assert(!t.taken(id));
        }
    }
    assert forall|who: Address| #[trigger] s.delegated_nonce(who) <= u.delegated_nonce(who) by {
        assert(t.delegated_nonce(who) <= u.delegated_nonce(who));
    }
}

/// A fresh identifier was not used, and the used ones stay used.
proof fn lemma_taken_once(s: ContractState, who: Address)
    requires
        s.wf(),
        s.has_id_for(who),
    ensures
        !s.taken(s.fresh_id(who)),
        forall|x: u64| #[trigger] s.taken(x) ==> s.take_id(who).taken(x),
{
    let t = s.take_id(who);
    if s.reservations.dom().contains(who) {
        let res = s.reservations[who];
        crate::registry::lemma_stored_reservation(s, who);
        assert(crate::state::id_held(res, s.fresh_id(who)));
        assert forall|x: u64| #[trigger] s.taken(x) implies t.taken(x) by {
            assert forall|w: Address| #[trigger]
                t.reservations.dom().contains(w) implies !crate::state::id_held(
                t.reservations[w],
                x,
            ) by {
                assert(s.reservations.dom().contains(w));
                assert(!crate::state::id_held(s.reservations[w], x));
            }
        }
    }
}

proof fn lemma_onward_register(s: ContractState, sender: Address, params: CreateStreamParams)
    requires
        s.wf(),
        s.next_stream_id < u64::MAX,
    ensures
        onward(s, s.register(sender, params)),
{
    lemma_taken_once(s, sender);
    let t = s.register(sender, params);
    assert forall|x: u64| #[trigger] s.taken(x) implies t.taken(x) by {
        assert(s.take_id(sender).taken(x));
    }
}

proof fn lemma_onward_register_all(
    s: ContractState,
    sender: Address,
    now: u64,
    max_rate: i128,
    batch: Seq<CreateStreamParams>,
    n: int,
)
    requires
        s.wf(),
        s.config is Some,
        0 <= n <= batch.len(),
        s.next_stream_id + n <= u64::MAX,
        forall|i: int|
            0 <= i < n ==> (#[trigger] batch[i]).error(max_rate, sender, now) is None,
    ensures
        onward(s, s.register_all(sender, batch, n)),
    decreases n,
{
    if n > 0 {
        let t = s.register_all(sender, batch, n - 1);
        lemma_onward_register_all(s, sender, now, max_rate, batch, n - 1);
        crate::laws::streams::lemma_register_all(s, sender, now, max_rate, batch, n - 1);
        lemma_onward_register(t, sender, batch[n - 1]);
        lemma_onward_steps(s, t, s.register_all(sender, batch, n));
    }
}

proof fn lemma_onward_create_all(
    s: ContractState,
    call: Call,
    sender: Address,
    batch: Seq<CreateStreamParams>,
)
    requires
        s.wf(),
        s.next_stream_id + batch.len() <= u64::MAX,
        s.create_all_error(call, sender, batch) is None,
    ensures
        onward(s, s.create_all_step(sender, batch)),
{
    if batch.len() > 0 {
        let n = batch.len() as int;
        crate::laws::streams::lemma_batch_entries_ok(s, sender, call.timestamp, batch, n);
        let paid = s.pull(sender, crate::creation::total_deposit(batch, n) as i128);
        lemma_onward_register_all(paid, sender, call.timestamp, s.max_rate_per_second, batch, n);
        lemma_same_counters(s, paid);
        lemma_onward_steps(s, paid, s.create_all_step(sender, batch));
    }
}

proof fn lemma_onward_partial(
    s: ContractState,
    sender: Address,
    now: u64,
    batch: Seq<CreateStreamParams>,
    transfers: Seq<bool>,
    n: int,
)
    requires
        s.wf(),
        0 <= n <= batch.len(),
        s.next_stream_id + n <= u64::MAX,
    ensures
        onward(s, s.partial_step(sender, now, batch, transfers, n)),
    decreases n,
{
    if n > 0 {
        let t = s.partial_step(sender, now, batch, transfers, n - 1);
        lemma_onward_partial(s, sender, now, batch, transfers, n - 1);
        crate::laws::streams::lemma_partial(s, sender, now, batch, transfers, n - 1);
        if t.partial_outcome(sender, now, batch[n - 1], transfers[n - 1]) is Ok {
            lemma_onward_register(t, sender, batch[n - 1]);
            lemma_onward_steps(s, t, s.partial_step(sender, now, batch, transfers, n));
        }
    }
}

proof fn lemma_counters_batch(s: ContractState, call: Call, ids: Seq<u64>, n: int)
    requires
        s.wf(),
        0 <= n <= ids.len(),
        forall|i: int| 0 <= i < ids.len() ==> s.streams.dom().contains(#[trigger] ids[i]),
    ensures
        same_counters(s, s.batch_step(call, ids, n)),
    decreases n,
{
    if n > 0 {
        lemma_counters_batch(s, call, ids, n - 1);
        crate::registry::lemma_stored_stream(s, ids[n - 1]);
    }
}

proof fn lemma_counters_resumes(s: ContractState, call: Call, ids: Seq<u64>, n: int)
    requires
        s.wf(),
        0 <= n <= ids.len(),
        forall|i: int| 0 <= i < ids.len() ==> s.streams.dom().contains(#[trigger] ids[i]),
    ensures
        same_counters(s, s.bulk_resume_step(call, ids, n)),
    decreases n,
{
    if n > 0 {
        lemma_counters_resumes(s, call, ids, n - 1);
        crate::registry::lemma_stored_stream(s, ids[n - 1]);
    }
}

proof fn lemma_counters_cancels(s: ContractState, now: u64, ids: Seq<u64>, n: int)
    requires
        s.wf(),
        0 <= n <= ids.len(),
        forall|i: int| 0 <= i < ids.len() ==> s.streams.dom().contains(#[trigger] ids[i]),
    ensures
        same_counters(s, s.bulk_cancel_all(now, ids, n)),
    decreases n,
{
    if n > 0 {
        lemma_counters_cancels(s, now, ids, n - 1);
        crate::registry::lemma_stored_stream(s, ids[n - 1]);
    }
}

/// Setting identifiers aside leaves the used ones used.
proof fn lemma_taken_reserve(s: ContractState, caller: Address, count: u32, expiry: Option<u64>)
    requires
        s.next_stream_id + count <= u64::MAX,
    ensures
        forall|x: u64| #[trigger]
            s.taken(x) ==> s.reserve_step(caller, count, expiry).taken(x),
{
    let t = s.reserve_step(caller, count, expiry);
    assert forall|x: u64| #[trigger] s.taken(x) implies t.taken(x) by {
        assert forall|w: Address| #[trigger]
            t.reservations.dom().contains(w) implies !crate::state::id_held(t.reservations[w], x) by {
            if w != caller {
                assert(s.reservations.dom().contains(w));
            }
        }
    }
}

/// Giving identifiers back leaves the used ones used.
proof fn lemma_taken_release(s: ContractState, holder: Address)
    requires
        s.wf(),
        s.reservations.dom().contains(holder),
    ensures
        forall|x: u64| #[trigger] s.taken(x) ==> s.release(holder).taken(x),
{
    let t = s.release(holder);
    let res = s.reservations[holder];
    crate::registry::lemma_stored_reservation(s, holder);
    assert forall|x: u64| #[trigger] s.taken(x) implies t.taken(x) by {
        assert(!crate::state::id_held(res, x));
        assert forall|w: Address| #[trigger]
            t.reservations.dom().contains(w) implies !crate::state::id_held(t.reservations[w], x) by {
            assert(s.reservations.dom().contains(w));
        }
    }
}

/// New streams and offers use new identifiers.
#[verifier::rlimit(50)]
#[verifier::spinoff_prover]
proof fn lemma_onward_by_creation(s: ContractState, call: Call, request: Request)
    requires
        s.wf(),
        fits(s, call, request),
        countable(s, request),
        s.refusal(call, request) is None,
        match request {
            Request::CreateStream { .. } => true,
            Request::CreateStreamRelative { .. } => true,
            Request::CreateStreams { .. } => true,
            Request::CreateStreamsRelative { .. } => true,
            Request::CreateStreamsPartial { .. } => true,
            Request::Delegate { .. } => true,
            Request::Renew { .. } => true,
            Request::CloneStream { .. } => true,
            Request::AcceptOffer { .. } => true,
            Request::CreateOffer { .. } => true,
            _ => false,
        },
    ensures
        onward(s, s.effect_of(call, request)),
{
    let t = s.effect_of(call, request);
    match request {
        Request::CreateStream { sender, params } => {
            assert(onward(s, t)) by {
                let paid = s.pull(sender, params.deposit_amount);
                lemma_same_counters(s, paid);
                lemma_onward_register(paid, sender, params);
                lemma_onward_steps(s, paid, paid.register(sender, params));
            }
        },
        Request::CreateStreamRelative { sender, relative } => {
            assert(onward(s, t)) by {
                let params = relative.dated(call.timestamp);
                let paid = s.pull(sender, params.deposit_amount);
                lemma_same_counters(s, paid);
                lemma_onward_register(paid, sender, params);
                lemma_onward_steps(s, paid, paid.register(sender, params));
            }
        },
        Request::CreateStreams { sender, batch } => {
            assert(onward(s, t)) by {
                lemma_onward_create_all(s, call, sender, batch);
            }
        },
        Request::CreateStreamsRelative { sender, relative_batch } => {
            assert(onward(s, t)) by {
                if relative_batch.len() > 0 {
                    let batch = crate::creation::dated_batch(relative_batch, call.timestamp);
                    lemma_onward_create_all(s, call, sender, batch);
                } else {
                    lemma_same_counters(s, t);
                }
            }
        },
        Request::CreateStreamsPartial { sender, batch, transfers } => {
            assert(onward(s, t)) by {
                lemma_onward_partial(s, sender, call.timestamp, batch, transfers, batch.len() as int);
            }
        },
        Request::Delegate { id: x, recipient, share_bps, new_recipient } => {
            assert(onward(s, t)) by {
                crate::registry::lemma_stored_stream(s, x);
                let sender = s.streams[x].sender;
                lemma_taken_once(s, sender);
                assert forall|id: u64| #[trigger] s.taken(id) implies t.taken(id) by {
                    assert(s.take_id(sender).taken(id));
                }
            }
        },
        Request::Renew { id: x, balance, allowance } => {
            assert(onward(s, t)) by {
                crate::registry::lemma_stored_stream(s, x);
                let sender = s.streams[x].sender;
                let params = s.streams[x].renewal(call.timestamp);
                let paid = s.observe(call.timestamp).with_renewal(x, false).pull(
                    sender,
                    s.streams[x].deposit_amount,
                );
                lemma_same_counters(s, paid);
                lemma_onward_register(paid, sender, params);
                lemma_onward_steps(s, paid, paid.register(sender, params));
                lemma_same_counters(paid.register(sender, params), t);
                lemma_onward_steps(s, paid.register(sender, params), t);
            }
        },
        Request::CloneStream { id: x, new_recipient, start_time, end_time, deposit, force } => {
            assert(onward(s, t)) by {
                crate::registry::lemma_stored_stream(s, x);
                let sender = s.streams[x].sender;
                let params = s.streams[x].clone_params(new_recipient, start_time, end_time, deposit);
                let paid = s.pull(sender, deposit);
                lemma_same_counters(s, paid);
                lemma_onward_register(paid, sender, params);
                lemma_onward_steps(s, paid, paid.register(sender, params));
                lemma_same_counters(paid.register(sender, params), t);
                lemma_onward_steps(s, paid.register(sender, params), t);
            }
        },
        Request::AcceptOffer { recipient, id: x } => {
            assert(onward(s, t)) by {
                crate::registry::lemma_stored_offer(s, x);
            }
        },
        Request::CreateOffer { sender, params, expiry } => {
            assert(onward(s, t)) by {
                lemma_taken_once(s, sender);
                assert forall|id: u64| #[trigger] s.taken(id) implies t.taken(id) by {
                    assert(s.take_id(sender).taken(id));
                }
            }
        },
        _ => {},
    }
}

/// Withdrawals only count nonces up.
#[verifier::rlimit(50)]
#[verifier::spinoff_prover]
proof fn lemma_onward_by_withdrawal(s: ContractState, call: Call, request: Request)
    requires
        s.wf(),
        fits(s, call, request),
        countable(s, request),
        s.refusal(call, request) is None,
        match request {
            Request::Withdraw { .. } => true,
            Request::WithdrawTo { .. } => true,
            Request::WithdrawFromPool { .. } => true,
            Request::BatchWithdraw { .. } => true,
            Request::DelegatedWithdraw { .. } => true,
            Request::TriggerAutoClaim { .. } => true,
            _ => false,
        },
    ensures
        onward(s, s.effect_of(call, request)),
{
    let t = s.effect_of(call, request);
    match request {
        Request::Withdraw { id: x, .. } => {
            assert(onward(s, t)) by {
                crate::registry::lemma_stored_stream(s, x);
                lemma_same_counters(s, t);
            }
        },
        Request::WithdrawTo { id: x, .. } => {
            assert(onward(s, t)) by {
                crate::registry::lemma_stored_stream(s, x);
                lemma_same_counters(s, t);
            }
        },
        Request::WithdrawFromPool { id: x, who } => {
            assert(onward(s, t)) by {
                crate::registry::lemma_stored_stream(s, x);
                lemma_same_counters(s, t);
            }
        },
        Request::BatchWithdraw { who, withdrawals } => {
            assert(onward(s, t)) by {
                let ids = crate::batch::targets(withdrawals);
                crate::laws::streams::lemma_items_ok(s, call, who, ids, ids.len() as int);
                assert forall|i: int| 0 <= i < ids.len() implies s.streams.dom().contains(
                    #[trigger] ids[i],
                ) by {
                    assert(s.batch_item_error(call, who, ids[i]) is None);
                }
                lemma_counters_batch(s, call, ids, ids.len() as int);
                lemma_same_counters(s, t);
            }
        },
        Request::DelegatedWithdraw { request: r } => {
            assert(onward(s, t)) by {
                crate::registry::lemma_stored_stream(s, r.stream_id);
            }
        },
        Request::TriggerAutoClaim { id: x, .. } => {
            assert(onward(s, t)) by {
                crate::registry::lemma_stored_stream(s, x);
                lemma_same_counters(s, t);
            }
        },
        _ => {},
    }
}

/// Changes of streams only count fees up.
#[verifier::rlimit(50)]
#[verifier::spinoff_prover]
proof fn lemma_onward_by_change(s: ContractState, call: Call, request: Request)
    requires
        s.wf(),
        fits(s, call, request),
        countable(s, request),
        s.refusal(call, request) is None,
        match request {
            Request::PauseStream { .. } => true,
            Request::ResumeStream { .. } => true,
            Request::PauseStreamAsAdmin { .. } => true,
            Request::ResumeStreamAsAdmin { .. } => true,
            Request::CancelStream { .. } => true,
            Request::CancelStreamAsAdmin { .. } => true,
            Request::WitnessedCancel { .. } => true,
            Request::KeeperCancel { .. } => true,
            Request::UpdateRatePerSecond { .. } => true,
            Request::DecreaseRate { .. } => true,
            Request::UpdateRate { .. } => true,
            Request::Shorten { .. } => true,
            Request::Extend { .. } => true,
            Request::TopUp { .. } => true,
            Request::AcceptRecipient { .. } => true,
            Request::TransferClaim { .. } => true,
            Request::BulkResume { .. } => true,
            Request::BulkCancel { .. } => true,
            _ => false,
        },
    ensures
        onward(s, s.effect_of(call, request)),
{
    let t = s.effect_of(call, request);
    match request {
        Request::PauseStream { id: x, .. } => {
            assert(onward(s, t)) by {
                crate::registry::lemma_stored_stream(s, x);
                lemma_same_counters(s, t);
            }
        },
        Request::ResumeStream { id: x, .. } => {
            assert(onward(s, t)) by {
                crate::registry::lemma_stored_stream(s, x);
                lemma_same_counters(s, t);
            }
        },
        Request::PauseStreamAsAdmin { id: x, .. } => {
            assert(onward(s, t)) by {
                crate::registry::lemma_stored_stream(s, x);
                lemma_same_counters(s, t);
            }
        },
        Request::ResumeStreamAsAdmin { id: x, .. } => {
            assert(onward(s, t)) by {
                crate::registry::lemma_stored_stream(s, x);
                lemma_same_counters(s, t);
            }
        },
        Request::CancelStream { id: x, .. } => {
            assert(onward(s, t)) by {
                crate::registry::lemma_stored_stream(s, x);
                lemma_same_counters(s, t);
            }
        },
        Request::CancelStreamAsAdmin { id: x, .. } => {
            assert(onward(s, t)) by {
                crate::registry::lemma_stored_stream(s, x);
                lemma_same_counters(s, t);
            }
        },
        Request::WitnessedCancel { id: x, .. } => {
            assert(onward(s, t)) by {
                crate::registry::lemma_stored_stream(s, x);
                lemma_same_counters(s, t);
            }
        },
        Request::KeeperCancel { id: x, .. } => {
            assert(onward(s, t)) by {
                crate::registry::lemma_stored_stream(s, x);
                crate::laws::accrual::law_accrued_bounded(s.streams[x], call.timestamp as int);
                crate::laws::payments::law_keeper_fee_conserves(
                    s.streams[x].spec_unearned(call.timestamp) as i128,
                    crate::lifecycle::KEEPER_FEE_BPS,
                );
            }
        },
        Request::UpdateRatePerSecond { id: x, .. } => {
            assert(onward(s, t)) by {
                crate::registry::lemma_stored_stream(s, x);
                lemma_same_counters(s, t);
            }
        },
        Request::DecreaseRate { id: x, .. } => {
            assert(onward(s, t)) by {
                crate::registry::lemma_stored_stream(s, x);
                lemma_same_counters(s, t);
            }
        },
        Request::UpdateRate { id: x, .. } => {
            assert(onward(s, t)) by {
                crate::registry::lemma_stored_stream(s, x);
                lemma_same_counters(s, t);
            }
        },
        Request::Shorten { id: x, .. } => {
            assert(onward(s, t)) by {
                crate::registry::lemma_stored_stream(s, x);
                lemma_same_counters(s, t);
            }
        },
        Request::Extend { id: x, .. } => {
            assert(onward(s, t)) by {
                crate::registry::lemma_stored_stream(s, x);
                lemma_same_counters(s, t);
            }
        },
        Request::TopUp { id: x, .. } => {
            assert(onward(s, t)) by {
                crate::registry::lemma_stored_stream(s, x);
                lemma_same_counters(s, t);
            }
        },
        Request::AcceptRecipient { id: x, .. } => {
            assert(onward(s, t)) by {
                crate::registry::lemma_stored_stream(s, x);
                lemma_same_counters(s, t);
            }
        },
        Request::TransferClaim { id: x, .. } => {
            assert(onward(s, t)) by {
                crate::registry::lemma_stored_stream(s, x);
                lemma_same_counters(s, t);
            }
        },
        Request::BulkResume { ids } => {
            assert(onward(s, t)) by {
                crate::laws::streams::lemma_resumes_ok(s, call, ids, ids.len() as int);
                assert forall|i: int| 0 <= i < ids.len() implies s.streams.dom().contains(
                    #[trigger] ids[i],
                ) by {
                    assert(s.bulk_resume_item_error(call, ids[i]) is None);
                }
                lemma_counters_resumes(s, call, ids, ids.len() as int);
                lemma_same_counters(s, t);
            }
        },
        Request::BulkCancel { sender, ids } => {
            assert(onward(s, t)) by {
                crate::laws::streams::lemma_cancels_ok(s, sender, ids, ids.len() as int);
                assert forall|i: int| 0 <= i < ids.len() implies s.streams.dom().contains(
                    #[trigger] ids[i],
                ) by {
                    assert(s.bulk_cancel_item_error(sender, ids[i]) is None);
                }
                lemma_counters_cancels(s, call.timestamp, ids, ids.len() as int);
                lemma_same_counters(s, t);
            }
        },
        _ => {},
    }
}

/// Everything else uses no identifier up.
#[verifier::rlimit(50)]
#[verifier::spinoff_prover]
proof fn lemma_onward_otherwise(s: ContractState, call: Call, request: Request)
    requires
        s.wf(),
        fits(s, call, request),
        countable(s, request),
        s.refusal(call, request) is None,
        match request {
            Request::CreatePooledStream { .. } => true,
            Request::CalculateAccrued { .. } => true,
            Request::GetWithdrawable { .. } => true,
            Request::GetAutoClaimStatus { .. } => true,
            Request::SetAutoRenew { .. } => true,
            Request::CloseCompleted { .. } => true,
            Request::CloseCancelled { .. } => true,
            Request::SetLookback { .. } => true,
            Request::RegisterTemplate { .. } => true,
            Request::DeleteTemplate { .. } => true,
            Request::UpdateRecipient { .. } => true,
            Request::CancelRecipient { .. } => true,
            Request::SetAutoClaim { .. } => true,
            Request::RevokeAutoClaim { .. } => true,
            Request::RejectOffer { .. } => true,
            Request::CancelOffer { .. } => true,
            Request::ReserveIds { .. } => true,
            Request::ReleaseIds { .. } => true,
            Request::ReclaimIds { .. } => true,
            Request::SetAdmin { .. } => true,
            Request::SetMaxRate { .. } => true,
            Request::SetEmergencyPaused { .. } => true,
            Request::GlobalResume => true,
            Request::SetContractPaused { .. } => true,
            Request::PauseProtocol { .. } => true,
            Request::ResumeProtocol { .. } => true,
            Request::Sweep { .. } => true,
            Request::Upgrade { .. } => true,
            _ => false,
        },
    ensures
        onward(s, s.effect_of(call, request)),
{
    let t = s.effect_of(call, request);
    match request {
        Request::CreatePooledStream { .. } => {
            assert(onward(s, t));
        },
        Request::CalculateAccrued { .. } => {
            assert(onward(s, t)) by {
                lemma_same_counters(s, t);
            }
        },
        Request::GetWithdrawable { .. } => {
            assert(onward(s, t)) by {
                lemma_same_counters(s, t);
            }
        },
        Request::GetAutoClaimStatus { .. } => {
            assert(onward(s, t)) by {
                lemma_same_counters(s, t);
            }
        },
        Request::SetAutoRenew { .. } => {
            assert(onward(s, t)) by {
                lemma_same_counters(s, t);
            }
        },
        Request::CloseCompleted { id: x, .. } => {
            assert(onward(s, t)) by {
                lemma_same_counters(s, t);
            }
        },
        Request::CloseCancelled { id: x, .. } => {
            assert(onward(s, t)) by {
                lemma_same_counters(s, t);
            }
        },
        Request::SetLookback { .. } => {
            assert(onward(s, t)) by {
                lemma_same_counters(s, t);
            }
        },
        Request::RegisterTemplate { .. } => {
            assert(onward(s, t));
        },
        Request::DeleteTemplate { .. } => {
            assert(onward(s, t)) by {
                lemma_same_counters(s, t);
            }
        },
        Request::UpdateRecipient { .. } => {
            assert(onward(s, t)) by {
                lemma_same_counters(s, t);
            }
        },
        Request::CancelRecipient { .. } => {
            assert(onward(s, t)) by {
                lemma_same_counters(s, t);
            }
        },
        Request::SetAutoClaim { .. } => {
            assert(onward(s, t)) by {
                lemma_same_counters(s, t);
            }
        },
        Request::RevokeAutoClaim { .. } => {
            assert(onward(s, t)) by {
                lemma_same_counters(s, t);
            }
        },
        Request::RejectOffer { .. } => {
            assert(onward(s, t));
        },
        Request::CancelOffer { .. } => {
            assert(onward(s, t));
        },
        Request::ReserveIds { caller, count, expiry } => {
            assert(onward(s, t)) by {
                lemma_taken_reserve(s, caller, count, expiry);
            }
        },
        Request::ReleaseIds { caller } => {
            assert(onward(s, t)) by {
                lemma_taken_release(s, caller);
            }
        },
        Request::ReclaimIds { holder } => {
            assert(onward(s, t)) by {
                lemma_taken_release(s, holder);
            }
        },
        Request::SetAdmin { .. } => {
            assert(onward(s, t)) by {
                lemma_same_counters(s, t);
            }
        },
        Request::SetMaxRate { .. } => {
            assert(onward(s, t)) by {
                lemma_same_counters(s, t);
            }
        },
        Request::SetEmergencyPaused { .. } => {
            assert(onward(s, t)) by {
                lemma_same_counters(s, t);
            }
        },
        Request::GlobalResume => {
            assert(onward(s, t)) by {
                lemma_same_counters(s, t);
            }
        },
        Request::SetContractPaused { .. } => {
            assert(onward(s, t)) by {
                lemma_same_counters(s, t);
            }
        },
        Request::PauseProtocol { .. } => {
            assert(onward(s, t)) by {
                lemma_same_counters(s, t);
            }
        },
        Request::ResumeProtocol { .. } => {
            assert(onward(s, t)) by {
                lemma_same_counters(s, t);
            }
        },
        Request::Sweep { .. } => {
            assert(onward(s, t)) by {
                lemma_same_counters(s, t);
            }
        },
        Request::Upgrade { .. } => {
            assert(onward(s, t)) by {
                lemma_same_counters(s, t);
            }
        },
        _ => {},
    }
}

proof fn lemma_onward(s: ContractState, call: Call, request: Request)
    requires
        s.wf(),
        fits(s, call, request),
        countable(s, request),
        request !is Init,
    ensures
        onward(s, s.after(call, request)),
{
    if s.refusal(call, request) is None {
        match request {
            Request::CreateStream { .. }
            | Request::CreateStreamRelative { .. }
            | Request::CreateStreams { .. }
            | Request::CreateStreamsRelative { .. }
            | Request::CreateStreamsPartial { .. }
            | Request::Delegate { .. }
            | Request::Renew { .. }
            | Request::CloneStream { .. }
            | Request::AcceptOffer { .. }
            | Request::CreateOffer { .. } => {
                lemma_onward_by_creation(s, call, request);
            },
            Request::Withdraw { .. }
            | Request::WithdrawTo { .. }
            | Request::WithdrawFromPool { .. }
            | Request::BatchWithdraw { .. }
            | Request::DelegatedWithdraw { .. }
            | Request::TriggerAutoClaim { .. } => {
                lemma_onward_by_withdrawal(s, call, request);
            },
            Request::PauseStream { .. }
            | Request::ResumeStream { .. }
            | Request::PauseStreamAsAdmin { .. }
            | Request::ResumeStreamAsAdmin { .. }
            | Request::CancelStream { .. }
            | Request::CancelStreamAsAdmin { .. }
            | Request::WitnessedCancel { .. }
            | Request::KeeperCancel { .. }
            | Request::UpdateRatePerSecond { .. }
            | Request::DecreaseRate { .. }
            | Request::UpdateRate { .. }
            | Request::Shorten { .. }
            | Request::Extend { .. }
            | Request::TopUp { .. }
            | Request::AcceptRecipient { .. }
            | Request::TransferClaim { .. }
            | Request::BulkResume { .. }
            | Request::BulkCancel { .. } => {
                lemma_onward_by_change(s, call, request);
            },
            Request::CreatePooledStream { .. }
            | Request::CalculateAccrued { .. }
            | Request::GetWithdrawable { .. }
            | Request::GetAutoClaimStatus { .. }
            | Request::SetAutoRenew { .. }
            | Request::CloseCompleted { .. }
            | Request::CloseCancelled { .. }
            | Request::SetLookback { .. }
            | Request::RegisterTemplate { .. }
            | Request::DeleteTemplate { .. }
            | Request::UpdateRecipient { .. }
            | Request::CancelRecipient { .. }
            | Request::SetAutoClaim { .. }
            | Request::RevokeAutoClaim { .. }
            | Request::RejectOffer { .. }
            | Request::CancelOffer { .. }
            | Request::ReserveIds { .. }
            | Request::ReleaseIds { .. }
            | Request::ReclaimIds { .. }
            | Request::SetAdmin { .. }
            | Request::SetMaxRate { .. }
            | Request::SetEmergencyPaused { .. }
            | Request::GlobalResume
            | Request::SetContractPaused { .. }
            | Request::PauseProtocol { .. }
            | Request::ResumeProtocol { .. }
            | Request::Sweep { .. }
            | Request::Upgrade { .. } => {
                lemma_onward_otherwise(s, call, request);
            },
            Request::Init { .. } => {},
        }
    }
}

/// Once initialised, the contract never uses an identifier twice.
pub proof fn law_ids_used_once(s: ContractState, call: Call, request: Request)
    requires
        s.wf(),
        fits(s, call, request),
        countable(s, request),
        request !is Init,
    ensures
        ids_once(s, s.after(call, request)),
{
    lemma_onward(s, call, request);
}

/// Once initialised, the fees paid to keepers, the identifiers of templates and
/// the nonces never go down.
pub proof fn law_counters_only_rise(s: ContractState, call: Call, request: Request)
    requires
        s.wf(),
        fits(s, call, request),
        countable(s, request),
        request !is Init,
    ensures
        counters_up(s, s.after(call, request)),
{
    lemma_onward(s, call, request);
}

} // verus!
