//! The number of paused streams is counted right.

use crate::operations::Request;
use crate::state::{Call, ContractState};
use crate::types::{Address, CreateStreamParams, Stream, StreamStatus};
use vstd::prelude::*;

verus! {

/// One for a paused stream, else nothing.
pub open spec fn paused() -> spec_fn(Stream) -> int {
    |stream: Stream| if stream.status == StreamStatus::Paused {
        1
    } else {
        0
    }
}

/// The counter says how many stored streams are paused.
pub open spec fn counted(s: ContractState) -> bool {
    &&& s.streams.dom().finite()
    &&& s.paused_stream_count == crate::laws::totals::total(s.streams, paused())
}

/// There are fewer than `u64::MAX` paused streams beside one that is not.
proof fn lemma_room(s: ContractState, id: u64)
    requires
        s.wf(),
        s.streams.dom().finite(),
        s.streams.dom().contains(id),
        s.streams[id].status != StreamStatus::Paused,
    ensures
        crate::laws::totals::total(s.streams, paused()) < u64::MAX,
{
    crate::laws::totals::lemma_take_out(s.streams, paused(), id);
    crate::laws::totals::lemma_at_most_count(s.streams.remove(id), paused());
    assert forall|x: u64| #[trigger] s.streams.dom().contains(x) implies x < s.next_stream_id by {
        crate::registry::lemma_stored_stream(s, x);
    }
    crate::laws::totals::lemma_bounded_ids(s.streams.dom(), s.next_stream_id as nat);
}

/// Replacing a stream and counting anew keeps the count right.
pub proof fn lemma_count_update(s: ContractState, t: ContractState, b: Stream)
    requires
        s.wf(),
        counted(s),
        s.streams.dom().contains(b.stream_id),
        t.streams == s.streams.insert(b.stream_id, b),
        t.paused_stream_count == crate::state::recounted(
            s.paused_stream_count,
            s.streams[b.stream_id].status,
            b.status,
        ),
    ensures
        counted(t),
{
    let id = b.stream_id;
    crate::laws::totals::lemma_store(s.streams, paused(), id, b);
    crate::laws::totals::lemma_no_less(s.streams, paused(), id);
    if s.streams[id].status != StreamStatus::Paused {
        lemma_room(s, id);
    }
}

/// A new stream is not paused, so the count stays right.
pub proof fn lemma_count_new(s: ContractState, t: ContractState, b: Stream)
    requires
        counted(s),
        !s.streams.dom().contains(b.stream_id),
        b.status != StreamStatus::Paused,
        t.streams == s.streams.insert(b.stream_id, b),
        t.paused_stream_count == s.paused_stream_count,
    ensures
        counted(t),
{
    crate::laws::totals::lemma_store(s.streams, paused(), b.stream_id, b);
}

proof fn lemma_count_batch_new(
    s: ContractState,
    sender: Address,
    now: u64,
    max_rate: i128,
    batch: Seq<CreateStreamParams>,
    n: int,
)
    requires
        s.wf(),
        s.config is Some,
        counted(s),
        0 <= n <= batch.len(),
        s.next_stream_id + n <= u64::MAX,
        forall|i: int|
            0 <= i < n ==> (#[trigger] batch[i]).error(max_rate, sender, now) is None,
    ensures
        counted(s.register_all(sender, batch, n)),
    decreases n,
{
    if n > 0 {
        lemma_count_batch_new(s, sender, now, max_rate, batch, n - 1);
        crate::laws::streams::lemma_register_all(s, sender, now, max_rate, batch, n - 1);
        let t = s.register_all(sender, batch, n - 1);
        assert(batch[n - 1].error(max_rate, sender, now) is None);
        crate::laws::streams::lemma_register(t, sender, batch[n - 1]);
        let id = t.fresh_id(sender);
        lemma_count_new(
            t,
            t.register(sender, batch[n - 1]),
            batch[n - 1].stream(id, sender),
        );
    }
}

proof fn lemma_count_create_all(
    s: ContractState,
    call: Call,
    sender: Address,
    batch: Seq<CreateStreamParams>,
)
    requires
        s.wf(),
        counted(s),
        s.next_stream_id + batch.len() <= u64::MAX,
        s.create_all_error(call, sender, batch) is None,
    ensures
        counted(s.create_all_step(sender, batch)),
{
    if batch.len() > 0 {
        let n = batch.len() as int;
        crate::laws::streams::lemma_batch_entries_ok(s, sender, call.timestamp, batch, n);
        let paid = s.pull(sender, crate::creation::total_deposit(batch, n) as i128);
        lemma_count_batch_new(paid, sender, call.timestamp, s.max_rate_per_second, batch, n);
    }
}

proof fn lemma_count_partial(
    s: ContractState,
    sender: Address,
    now: u64,
    batch: Seq<CreateStreamParams>,
    transfers: Seq<bool>,
    n: int,
)
    requires
        s.wf(),
        counted(s),
        0 <= n <= batch.len(),
        s.next_stream_id + n <= u64::MAX,
    ensures
        counted(s.partial_step(sender, now, batch, transfers, n)),
    decreases n,
{
    if n > 0 {
        lemma_count_partial(s, sender, now, batch, transfers, n - 1);
        crate::laws::streams::lemma_partial(s, sender, now, batch, transfers, n - 1);
        let t = s.partial_step(sender, now, batch, transfers, n - 1);
        if t.partial_outcome(sender, now, batch[n - 1], transfers[n - 1]) is Ok {
            crate::laws::streams::lemma_register(t, sender, batch[n - 1]);
            let id = t.fresh_id(sender);
            lemma_count_new(
                t,
                t.register(sender, batch[n - 1]),
                batch[n - 1].stream(id, sender),
            );
        }
    }
}

/// The streams of the rest of a batch of distinct ones are untouched, and the
/// registry is in order all along.
pub open spec fn rest_untouched(s: ContractState, t: ContractState, ids: Seq<u64>, n: int) -> bool {
    forall|i: int| #![trigger ids[i]]
        n <= i < ids.len() ==> t.streams.dom().contains(ids[i]) && t.streams[ids[i]]
            == s.streams[ids[i]]
}

/// Payouts of a batch touch one stream each.
pub proof fn lemma_batch_runs(s: ContractState, call: Call, who: Address, ids: Seq<u64>, n: int)
    requires
        s.wf(),
        0 <= n <= ids.len(),
        crate::batch::distinct(ids),
        forall|i: int|
            0 <= i < ids.len() ==> s.batch_item_error(call, who, #[trigger] ids[i]) is None,
    ensures
        s.batch_step(call, ids, n).wf(),
        rest_untouched(s, s.batch_step(call, ids, n), ids, n),
    decreases n,
{
    if n == 0 {
        assert forall|i: int| #![trigger ids[i]] 0 <= i < ids.len() implies s.streams.dom().contains(
            ids[i],
        ) by {
            assert(s.batch_item_error(call, who, ids[i]) is None);
        }
    } else {
        lemma_batch_runs(s, call, who, ids, n - 1);
        let id = ids[n - 1];
        let before = s.batch_step(call, ids, n - 1);
        assert(before.streams.dom().contains(id) && before.streams[id] == s.streams[id]);
        crate::registry::lemma_stored_stream(before, id);
        let amount = s.batch_amount(call, ids, n - 1);
        crate::laws::streams::lemma_batch_payout(
            s.streams[id],
            s.lookback_of(id),
            call.timestamp,
            s.batch_balance(call, ids, n - 1),
        );
        crate::laws::payments::law_earned_bounded(s.streams[id], call.timestamp);
        if amount > 0 {
            crate::registry::lemma_update(before, s.streams[id].spec_paid(amount, call.sequence));
        }
        assert forall|i: int| #![trigger ids[i]] n <= i < ids.len() implies s.batch_step(
            call,
            ids,
            n,
        ).streams.dom().contains(ids[i]) && s.batch_step(call, ids, n).streams[ids[i]]
            == s.streams[ids[i]] by {
            assert(ids[n - 1] != ids[i]);
        }
    }
}

proof fn lemma_count_batch(s: ContractState, call: Call, who: Address, ids: Seq<u64>, n: int)
    requires
        s.wf(),
        counted(s),
        0 <= n <= ids.len(),
        crate::batch::distinct(ids),
        forall|i: int|
            0 <= i < ids.len() ==> s.batch_item_error(call, who, #[trigger] ids[i]) is None,
    ensures
        counted(s.batch_step(call, ids, n)),
    decreases n,
{
    if n > 0 {
        lemma_count_batch(s, call, who, ids, n - 1);
        lemma_batch_runs(s, call, who, ids, n - 1);
        let id = ids[n - 1];
        let before = s.batch_step(call, ids, n - 1);
        assert(before.streams.dom().contains(id) && before.streams[id] == s.streams[id]);
        crate::registry::lemma_stored_stream(before, id);
        let amount = s.batch_amount(call, ids, n - 1);
        if amount > 0 {
            lemma_count_update(
                before,
                s.batch_step(call, ids, n),
                s.streams[id].spec_paid(amount, call.sequence),
            );
        }
    }
}

/// Resumptions of a batch touch one stream each.
pub proof fn lemma_resume_runs(s: ContractState, call: Call, ids: Seq<u64>, n: int)
    requires
        s.wf(),
        0 <= n <= ids.len(),
        crate::batch::distinct(ids),
        forall|i: int|
            0 <= i < ids.len() ==> s.bulk_resume_item_error(call, #[trigger] ids[i]) is None,
    ensures
        s.bulk_resume_step(call, ids, n).wf(),
        rest_untouched(s, s.bulk_resume_step(call, ids, n), ids, n),
    decreases n,
{
    if n == 0 {
        assert forall|i: int| #![trigger ids[i]] 0 <= i < ids.len() implies s.streams.dom().contains(
            ids[i],
        ) by {
            assert(s.bulk_resume_item_error(call, ids[i]) is None);
        }
    } else {
        lemma_resume_runs(s, call, ids, n - 1);
        let id = ids[n - 1];
        let before = s.bulk_resume_step(call, ids, n - 1);
        assert(before.streams.dom().contains(id) && before.streams[id] == s.streams[id]);
        crate::registry::lemma_stored_stream(before, id);
        crate::registry::lemma_update(
            before,
            s.streams[id].toggled(StreamStatus::Active, call.sequence),
        );
        assert forall|i: int| #![trigger ids[i]] n <= i < ids.len() implies s.bulk_resume_step(
            call,
            ids,
            n,
        ).streams.dom().contains(ids[i]) && s.bulk_resume_step(call, ids, n).streams[ids[i]]
            == s.streams[ids[i]] by {
            assert(ids[n - 1] != ids[i]);
        }
    }
}

proof fn lemma_count_resumes(s: ContractState, call: Call, ids: Seq<u64>, n: int)
    requires
        s.wf(),
        counted(s),
        0 <= n <= ids.len(),
        crate::batch::distinct(ids),
        forall|i: int|
            0 <= i < ids.len() ==> s.bulk_resume_item_error(call, #[trigger] ids[i]) is None,
    ensures
        counted(s.bulk_resume_step(call, ids, n)),
    decreases n,
{
    if n > 0 {
        lemma_count_resumes(s, call, ids, n - 1);
        lemma_resume_runs(s, call, ids, n - 1);
        let id = ids[n - 1];
        let before = s.bulk_resume_step(call, ids, n - 1);
        assert(before.streams.dom().contains(id) && before.streams[id] == s.streams[id]);
        crate::registry::lemma_stored_stream(before, id);
        lemma_count_update(
            before,
            s.bulk_resume_step(call, ids, n),
            s.streams[id].toggled(StreamStatus::Active, call.sequence),
        );
    }
}

/// The stream that a batch cancellation leaves.
pub open spec fn bulk_cancelled(stream: Stream, now: u64) -> Stream {
    Stream {
        withdrawn_amount: (stream.withdrawn_amount + stream.spec_outstanding(now) as i128) as i128,
        ..stream.cancelled(now)
    }
}

/// Cancellations of a batch touch one stream each.
pub proof fn lemma_cancel_runs(s: ContractState, now: u64, sender: Address, ids: Seq<u64>, n: int)
    requires
        s.wf(),
        0 <= n <= ids.len(),
        crate::batch::distinct(ids),
        forall|i: int|
            0 <= i < ids.len() ==> s.bulk_cancel_item_error(sender, #[trigger] ids[i]) is None,
    ensures
        s.bulk_cancel_all(now, ids, n).wf(),
        rest_untouched(s, s.bulk_cancel_all(now, ids, n), ids, n),
        n > 0 ==> s.bulk_cancel_all(now, ids, n).streams == s.bulk_cancel_all(
            now,
            ids,
            n - 1,
        ).streams.insert(ids[n - 1], bulk_cancelled(s.streams[ids[n - 1]], now)),
    decreases n,
{
    if n == 0 {
        assert forall|i: int| #![trigger ids[i]] 0 <= i < ids.len() implies s.streams.dom().contains(
            ids[i],
        ) by {
            assert(s.bulk_cancel_item_error(sender, ids[i]) is None);
        }
    } else {
        lemma_cancel_runs(s, now, sender, ids, n - 1);
        let id = ids[n - 1];
        let before = s.bulk_cancel_all(now, ids, n - 1);
        assert(before.streams.dom().contains(id) && before.streams[id] == s.streams[id]);
        crate::registry::lemma_stored_stream(before, id);
        crate::laws::accrual::law_accrued_bounded(s.streams[id], now as int);
        crate::registry::lemma_update(before, bulk_cancelled(s.streams[id], now));
        assert forall|i: int| #![trigger ids[i]] n <= i < ids.len() implies s.bulk_cancel_all(
            now,
            ids,
            n,
        ).streams.dom().contains(ids[i]) && s.bulk_cancel_all(now, ids, n).streams[ids[i]]
            == s.streams[ids[i]] by {
            assert(ids[n - 1] != ids[i]);
        }
    }
}

proof fn lemma_count_cancels(s: ContractState, now: u64, sender: Address, ids: Seq<u64>, n: int)
    requires
        s.wf(),
        counted(s),
        0 <= n <= ids.len(),
        crate::batch::distinct(ids),
        forall|i: int|
            0 <= i < ids.len() ==> s.bulk_cancel_item_error(sender, #[trigger] ids[i]) is None,
    ensures
        counted(s.bulk_cancel_all(now, ids, n)),
    decreases n,
{
    if n > 0 {
        lemma_count_cancels(s, now, sender, ids, n - 1);
        lemma_cancel_runs(s, now, sender, ids, n);
        lemma_cancel_runs(s, now, sender, ids, n - 1);
        let id = ids[n - 1];
        let before = s.bulk_cancel_all(now, ids, n - 1);
        assert(before.streams.dom().contains(id) && before.streams[id] == s.streams[id]);
        crate::registry::lemma_stored_stream(before, id);
        lemma_count_update(
            before,
            s.bulk_cancel_all(now, ids, n),
            bulk_cancelled(s.streams[id], now),
        );
    }
}

/// New streams are not paused.
#[verifier::rlimit(50)]
#[verifier::spinoff_prover]
proof fn lemma_counted_by_creation(s: ContractState, call: Call, request: Request)
    requires
        s.wf(),
        crate::laws::streams::fits(s, call, request),
        counted(s),
        s.refusal(call, request) is None,
        match request {
            Request::CreateStream { .. } => true,
            Request::CreateStreamRelative { .. } => true,
            Request::CreateStreams { .. } => true,
            Request::CreateStreamsRelative { .. } => true,
            Request::CreateStreamsPartial { .. } => true,
            Request::Delegate { .. } => true,
            Request::Renew { .. } => true,
            Request::CloneStream { .. } => true,
            Request::AcceptOffer { .. } => true,
            Request::CreateOffer { .. } => true,
            _ => false,
        },
    ensures
        counted(s.effect_of(call, request)),
{
    let t = s.effect_of(call, request);
    match request {
        Request::CreateStream { sender, params } => {
            assert(counted(t)) by {
                let paid = s.pull(sender, params.deposit_amount);
                crate::laws::streams::lemma_register(paid, sender, params);
                lemma_count_new(paid, t, params.stream(paid.fresh_id(sender), sender));
            }
        },
        Request::CreateStreamRelative { sender, relative } => {
            assert(counted(t)) by {
                let params = relative.dated(call.timestamp);
                let paid = s.pull(sender, params.deposit_amount);
                crate::laws::streams::lemma_register(paid, sender, params);
                lemma_count_new(paid, t, params.stream(paid.fresh_id(sender), sender));
            }
        },
        Request::CreateStreams { sender, batch } => {
            assert(counted(t)) by {
                lemma_count_create_all(s, call, sender, batch);
            }
        },
        Request::CreateStreamsRelative { sender, relative_batch } => {
            assert(counted(t)) by {
                if relative_batch.len() > 0 {
                    let batch = crate::creation::dated_batch(relative_batch, call.timestamp);
                    lemma_count_create_all(s, call, sender, batch);
                }
            }
        },
        Request::CreateStreamsPartial { sender, batch, transfers } => {
            assert(counted(t)) by {
                lemma_count_partial(s, sender, call.timestamp, batch, transfers, batch.len() as int);
            }
        },
        Request::Delegate { id: x, recipient, share_bps, new_recipient } => {
            assert(counted(t)) by {
                crate::registry::lemma_stored_stream(s, x);
                crate::registry::lemma_take_id(s, s.streams[x].sender);
                let new_id = s.fresh_id(s.streams[x].sender);
                let first = ContractState { streams: s.streams.insert(x, t.streams[x]), ..s };
                lemma_count_update(s, first, t.streams[x]);
                lemma_count_new(first, t, t.streams[new_id]);
            }
        },
        Request::Renew { id: x, balance, allowance } => {
            assert(counted(t)) by {
                crate::registry::lemma_stored_stream(s, x);
                let sender = s.streams[x].sender;
                let params = s.streams[x].renewal(call.timestamp);
                let paid = s.observe(call.timestamp).with_renewal(x, false).pull(
                    sender,
                    s.streams[x].deposit_amount,
                );
                crate::laws::streams::lemma_register(paid, sender, params);
                lemma_count_new(paid, t, params.stream(paid.fresh_id(sender), sender));
            }
        },
        Request::CloneStream { id: x, new_recipient, start_time, end_time, deposit, force } => {
            assert(counted(t)) by {
                crate::registry::lemma_stored_stream(s, x);
                let sender = s.streams[x].sender;
                let params = s.streams[x].clone_params(new_recipient, start_time, end_time, deposit);
                let paid = s.pull(sender, deposit);
                crate::laws::streams::lemma_register(paid, sender, params);
                lemma_count_new(paid, t, params.stream(paid.fresh_id(sender), sender));
            }
        },
        Request::AcceptOffer { recipient, id: x } => {
            assert(counted(t)) by {
                crate::registry::lemma_stored_offer(s, x);
                lemma_count_new(s, t, t.streams[x]);
            }
        },
        Request::CreateOffer { .. } => {
            assert(counted(t));
        },
        _ => {},
    }
}

/// Withdrawals keep the count right.
#[verifier::rlimit(50)]
#[verifier::spinoff_prover]
proof fn lemma_counted_by_withdrawal(s: ContractState, call: Call, request: Request)
    requires
        s.wf(),
        crate::laws::streams::fits(s, call, request),
        counted(s),
        s.refusal(call, request) is None,
        match request {
            Request::Withdraw { .. } => true,
            Request::WithdrawTo { .. } => true,
            Request::WithdrawFromPool { .. } => true,
            Request::BatchWithdraw { .. } => true,
            Request::DelegatedWithdraw { .. } => true,
            Request::TriggerAutoClaim { .. } => true,
            _ => false,
        },
    ensures
        counted(s.effect_of(call, request)),
{
    let t = s.effect_of(call, request);
    match request {
        Request::Withdraw { id: x, .. } => {
            assert(counted(t)) by {
                crate::registry::lemma_stored_stream(s, x);
                assert(t.streams =~= s.streams.insert(x, t.streams[x]));
                lemma_count_update(s, t, t.streams[x]);
            }
        },
        Request::WithdrawTo { id: x, .. } => {
            assert(counted(t)) by {
                crate::registry::lemma_stored_stream(s, x);
                assert(t.streams =~= s.streams.insert(x, t.streams[x]));
                lemma_count_update(s, t, t.streams[x]);
            }
        },
        Request::WithdrawFromPool { id: x, who } => {
            assert(counted(t)) by {
                crate::registry::lemma_stored_stream(s, x);
                assert(t.streams =~= s.streams.insert(x, t.streams[x]));
                lemma_count_update(s, t, t.streams[x]);
            }
        },
        Request::BatchWithdraw { who, withdrawals } => {
            assert(counted(t)) by {
                let ids = crate::batch::targets(withdrawals);
                crate::laws::streams::lemma_items_ok(s, call, who, ids, ids.len() as int);
                lemma_count_batch(s, call, who, ids, ids.len() as int);
            }
        },
        Request::DelegatedWithdraw { request: r } => {
            assert(counted(t)) by {
                crate::registry::lemma_stored_stream(s, r.stream_id);
                assert(t.streams =~= s.streams.insert(r.stream_id, t.streams[r.stream_id]));
                lemma_count_update(s, t, t.streams[r.stream_id]);
            }
        },
        Request::TriggerAutoClaim { id: x, .. } => {
            assert(counted(t)) by {
                crate::registry::lemma_stored_stream(s, x);
                assert(t.streams =~= s.streams.insert(x, t.streams[x]));
                lemma_count_update(s, t, t.streams[x]);
            }
        },
        _ => {},
    }
}

/// Changes of streams keep the count right.
#[verifier::rlimit(50)]
#[verifier::spinoff_prover]
proof fn lemma_counted_by_change(s: ContractState, call: Call, request: Request)
    requires
        s.wf(),
        crate::laws::streams::fits(s, call, request),
        counted(s),
        s.refusal(call, request) is None,
        match request {
            Request::PauseStream { .. } => true,
            Request::ResumeStream { .. } => true,
            Request::PauseStreamAsAdmin { .. } => true,
            Request::ResumeStreamAsAdmin { .. } => true,
            Request::CancelStream { .. } => true,
            Request::CancelStreamAsAdmin { .. } => true,
            Request::WitnessedCancel { .. } => true,
            Request::KeeperCancel { .. } => true,
            Request::UpdateRatePerSecond { .. } => true,
            Request::DecreaseRate { .. } => true,
            Request::UpdateRate { .. } => true,
            Request::Shorten { .. } => true,
            Request::Extend { .. } => true,
            Request::TopUp { .. } => true,
            Request::AcceptRecipient { .. } => true,
            Request::TransferClaim { .. } => true,
            Request::BulkResume { .. } => true,
            Request::BulkCancel { .. } => true,
            _ => false,
        },
    ensures
        counted(s.effect_of(call, request)),
{
    let t = s.effect_of(call, request);
    match request {
        Request::PauseStream { id: x, .. } => {
            assert(counted(t)) by {
                crate::registry::lemma_stored_stream(s, x);
                lemma_count_update(s, t, t.streams[x]);
            }
        },
        Request::ResumeStream { id: x, .. } => {
            assert(counted(t)) by {
                crate::registry::lemma_stored_stream(s, x);
                lemma_count_update(s, t, t.streams[x]);
            }
        },
        Request::PauseStreamAsAdmin { id: x, .. } => {
            assert(counted(t)) by {
                crate::registry::lemma_stored_stream(s, x);
                lemma_count_update(s, t, t.streams[x]);
            }
        },
        Request::ResumeStreamAsAdmin { id: x, .. } => {
            assert(counted(t)) by {
                crate::registry::lemma_stored_stream(s, x);
                lemma_count_update(s, t, t.streams[x]);
            }
        },
        Request::CancelStream { id: x, .. } => {
            assert(counted(t)) by {
                crate::registry::lemma_stored_stream(s, x);
                lemma_count_update(s, t, t.streams[x]);
            }
        },
        Request::CancelStreamAsAdmin { id: x, .. } => {
            assert(counted(t)) by {
                crate::registry::lemma_stored_stream(s, x);
                lemma_count_update(s, t, t.streams[x]);
            }
        },
        Request::WitnessedCancel { id: x, .. } => {
            assert(counted(t)) by {
                crate::registry::lemma_stored_stream(s, x);
                lemma_count_update(s, t, t.streams[x]);
            }
        },
        Request::KeeperCancel { id: x, .. } => {
            assert(counted(t)) by {
                crate::registry::lemma_stored_stream(s, x);
                lemma_count_update(s, t, t.streams[x]);
            }
        },
        Request::UpdateRatePerSecond { id: x, .. } => {
            assert(counted(t)) by {
                crate::registry::lemma_stored_stream(s, x);
                lemma_count_update(s, t, t.streams[x]);
            }
        },
        Request::DecreaseRate { id: x, .. } => {
            assert(counted(t)) by {
                crate::registry::lemma_stored_stream(s, x);
                lemma_count_update(s, t, t.streams[x]);
            }
        },
        Request::UpdateRate { id: x, .. } => {
            assert(counted(t)) by {
                crate::registry::lemma_stored_stream(s, x);
                lemma_count_update(s, t, t.streams[x]);
            }
        },
        Request::Shorten { id: x, .. } => {
            assert(counted(t)) by {
                crate::registry::lemma_stored_stream(s, x);
                lemma_count_update(s, t, t.streams[x]);
            }
        },
        Request::Extend { id: x, .. } => {
            assert(counted(t)) by {
                crate::registry::lemma_stored_stream(s, x);
                lemma_count_update(s, t, t.streams[x]);
            }
        },
        Request::TopUp { id: x, .. } => {
            assert(counted(t)) by {
                crate::registry::lemma_stored_stream(s, x);
                lemma_count_update(s, t, t.streams[x]);
            }
        },
        Request::AcceptRecipient { id: x, .. } => {
            assert(counted(t)) by {
                crate::registry::lemma_stored_stream(s, x);
                lemma_count_update(s, t, t.streams[x]);
            }
        },
        Request::TransferClaim { id: x, .. } => {
            assert(counted(t)) by {
                crate::registry::lemma_stored_stream(s, x);
                lemma_count_update(s, t, t.streams[x]);
            }
        },
        Request::BulkResume { ids } => {
            assert(counted(t)) by {
                crate::laws::streams::lemma_resumes_ok(s, call, ids, ids.len() as int);
                lemma_count_resumes(s, call, ids, ids.len() as int);
            }
        },
        Request::BulkCancel { sender, ids } => {
            assert(counted(t)) by {
                crate::laws::streams::lemma_cancels_ok(s, sender, ids, ids.len() as int);
                lemma_count_cancels(s, call.timestamp, sender, ids, ids.len() as int);
            }
        },
        _ => {},
    }
}

/// Everything else keeps the count right.
#[verifier::rlimit(50)]
#[verifier::spinoff_prover]
proof fn lemma_counted_otherwise(s: ContractState, call: Call, request: Request)
    requires
        s.wf(),
        crate::laws::streams::fits(s, call, request),
        counted(s),
        s.refusal(call, request) is None,
        match request {
            Request::Init { .. } => true,
            Request::CreatePooledStream { .. } => true,
            Request::CalculateAccrued { .. } => true,
            Request::GetWithdrawable { .. } => true,
            Request::GetAutoClaimStatus { .. } => true,
            Request::SetAutoRenew { .. } => true,
            Request::CloseCompleted { .. } => true,
            Request::CloseCancelled { .. } => true,
            Request::SetLookback { .. } => true,
            Request::RegisterTemplate { .. } => true,
            Request::DeleteTemplate { .. } => true,
            Request::UpdateRecipient { .. } => true,
            Request::CancelRecipient { .. } => true,
            Request::SetAutoClaim { .. } => true,
            Request::RevokeAutoClaim { .. } => true,
            Request::RejectOffer { .. } => true,
            Request::CancelOffer { .. } => true,
            Request::ReserveIds { .. } => true,
            Request::ReleaseIds { .. } => true,
            Request::ReclaimIds { .. } => true,
            Request::SetAdmin { .. } => true,
            Request::SetMaxRate { .. } => true,
            Request::SetEmergencyPaused { .. } => true,
            Request::GlobalResume => true,
            Request::SetContractPaused { .. } => true,
            Request::PauseProtocol { .. } => true,
            Request::ResumeProtocol { .. } => true,
            Request::Sweep { .. } => true,
            Request::Upgrade { .. } => true,
            _ => false,
        },
    ensures
        counted(s.effect_of(call, request)),
{
    let t = s.effect_of(call, request);
    match request {
        Request::Init { .. } => {
            assert(counted(t)) by {
                reveal(crate::state::nothing_stored);
                assert(t.streams.dom() =~= Set::empty());
            }
        },
        Request::CreatePooledStream { .. } => {
            assert(counted(t));
        },
        Request::CalculateAccrued { .. } => {
            assert(counted(t));
        },
        Request::GetWithdrawable { .. } => {
            assert(counted(t));
        },
        Request::GetAutoClaimStatus { .. } => {
            assert(counted(t));
        },
        Request::SetAutoRenew { .. } => {
            assert(counted(t));
        },
        Request::CloseCompleted { id: x, .. } => {
            assert(counted(t)) by {
                crate::laws::totals::lemma_take_out(s.streams, paused(), x);
            }
        },
        Request::CloseCancelled { id: x, .. } => {
            assert(counted(t)) by {
                crate::laws::totals::lemma_take_out(s.streams, paused(), x);
            }
        },
        Request::SetLookback { .. } => {
            assert(counted(t));
        },
        Request::RegisterTemplate { .. } => {
            assert(counted(t));
        },
        Request::DeleteTemplate { .. } => {
            assert(counted(t));
        },
        Request::UpdateRecipient { .. } => {
            assert(counted(t));
        },
        Request::CancelRecipient { .. } => {
            assert(counted(t));
        },
        Request::SetAutoClaim { .. } => {
            assert(counted(t));
        },
        Request::RevokeAutoClaim { .. } => {
            assert(counted(t));
        },
        Request::RejectOffer { .. } => {
            assert(counted(t));
        },
        Request::CancelOffer { .. } => {
            assert(counted(t));
        },
        Request::ReserveIds { .. } => {
            assert(counted(t));
        },
        Request::ReleaseIds { .. } => {
            assert(counted(t));
        },
        Request::ReclaimIds { .. } => {
            assert(counted(t));
        },
        Request::SetAdmin { .. } => {
            assert(counted(t));
        },
        Request::SetMaxRate { .. } => {
            assert(counted(t));
        },
        Request::SetEmergencyPaused { .. } => {
            assert(counted(t));
        },
        Request::GlobalResume => {
            assert(counted(t));
        },
        Request::SetContractPaused { .. } => {
            assert(counted(t));
        },
        Request::PauseProtocol { .. } => {
            assert(counted(t));
        },
        Request::ResumeProtocol { .. } => {
            assert(counted(t));
        },
        Request::Sweep { .. } => {
            assert(counted(t));
        },
        Request::Upgrade { .. } => {
            assert(counted(t));
        },
        _ => {},
    }
}

/// A contract that holds no streams has none paused.
pub proof fn law_nothing_paused_at_first()
    ensures
        counted(ContractState::blank()),
{
}

/// Whatever is asked of the contract, the counter says how many of its streams
/// are paused.
pub proof fn law_paused_streams_counted(s: ContractState, call: Call, request: Request)
    requires
        s.wf(),
        crate::laws::streams::fits(s, call, request),
        counted(s),
    ensures
        counted(s.after(call, request)),
{
    if s.refusal(call, request) is None {
        match request {
            Request::CreateStream { .. }
            | Request::CreateStreamRelative { .. }
            | Request::CreateStreams { .. }
            | Request::CreateStreamsRelative { .. }
            | Request::CreateStreamsPartial { .. }
            | Request::Delegate { .. }
            | Request::Renew { .. }
            | Request::CloneStream { .. }
            | Request::AcceptOffer { .. }
            | Request::CreateOffer { .. } => {
                lemma_counted_by_creation(s, call, request);
            },
            Request::Withdraw { .. }
            | Request::WithdrawTo { .. }
            | Request::WithdrawFromPool { .. }
            | Request::BatchWithdraw { .. }
            | Request::DelegatedWithdraw { .. }
            | Request::TriggerAutoClaim { .. } => {
                lemma_counted_by_withdrawal(s, call, request);
            },
            Request::PauseStream { .. }
            | Request::ResumeStream { .. }
            | Request::PauseStreamAsAdmin { .. }
            | Request::ResumeStreamAsAdmin { .. }
            | Request::CancelStream { .. }
            | Request::CancelStreamAsAdmin { .. }
            | Request::WitnessedCancel { .. }
            | Request::KeeperCancel { .. }
            | Request::UpdateRatePerSecond { .. }
            | Request::DecreaseRate { .. }
            | Request::UpdateRate { .. }
            | Request::Shorten { .. }
            | Request::Extend { .. }
            | Request::TopUp { .. }
            | Request::AcceptRecipient { .. }
            | Request::TransferClaim { .. }
            | Request::BulkResume { .. }
            | Request::BulkCancel { .. } => {
                lemma_counted_by_change(s, call, request);
            },
            Request::Init { .. }
            | Request::CreatePooledStream { .. }
            | Request::CalculateAccrued { .. }
            | Request::GetWithdrawable { .. }
            | Request::GetAutoClaimStatus { .. }
            | Request::SetAutoRenew { .. }
            | Request::CloseCompleted { .. }
            | Request::CloseCancelled { .. }
            | Request::SetLookback { .. }
            | Request::RegisterTemplate { .. }
            | Request::DeleteTemplate { .. }
            | Request::UpdateRecipient { .. }
            | Request::CancelRecipient { .. }
            | Request::SetAutoClaim { .. }
            | Request::RevokeAutoClaim { .. }
            | Request::RejectOffer { .. }
            | Request::CancelOffer { .. }
            | Request::ReserveIds { .. }
            | Request::ReleaseIds { .. }
            | Request::ReclaimIds { .. }
            | Request::SetAdmin { .. }
            | Request::SetMaxRate { .. }
            | Request::SetEmergencyPaused { .. }
            | Request::GlobalResume
            | Request::SetContractPaused { .. }
            | Request::PauseProtocol { .. }
            | Request::ResumeProtocol { .. }
            | Request::Sweep { .. }
            | Request::Upgrade { .. } => {
                lemma_counted_otherwise(s, call, request);
            },
        }
    }
}

} // verus!
