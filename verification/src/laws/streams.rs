//! How streams change in the course of time.

use crate::operations::Request;
use crate::state::{Call, ContractState};
use crate::types::{Address, CreateStreamParams, Stream, StreamStatus};
use vstd::prelude::*;

verus! {

/// Whether a stream may have become another one. What was agreed at its
/// creation stays, what was withdrawn only grows, a completed stream stays as
/// it is, and a cancelled one keeps the terms on which it was cancelled.
pub open spec fn evolves(a: Stream, b: Stream) -> bool {
    &&& b.stream_id == a.stream_id
    &&& b.sender == a.sender
    &&& b.start_time == a.start_time
    &&& b.cliff_time == a.cliff_time
    &&& b.kind == a.kind
    &&& b.memo == a.memo
    &&& b.metadata == a.metadata
    &&& b.irrevocable == a.irrevocable
    &&& b.witness == a.witness
    &&& b.is_pooled == a.is_pooled
    &&& b.parent_stream_id == a.parent_stream_id
    &&& b.delegation_depth == a.delegation_depth
    &&& b.withdraw_dust_threshold == a.withdraw_dust_threshold
    &&& a.withdrawn_amount <= b.withdrawn_amount
    &&& a.status == StreamStatus::Completed ==> {
        &&& b.status == StreamStatus::Completed
        &&& b.withdrawn_amount == a.withdrawn_amount
        &&& b.deposit_amount == a.deposit_amount
    }
    &&& a.status == StreamStatus::Cancelled ==> {
        &&& b.status == StreamStatus::Cancelled
        &&& b.cancelled_at == a.cancelled_at
        &&& b.spec_checkpoint() == a.spec_checkpoint()
        &&& b.rate_per_second == a.rate_per_second
    }
}

/// What a stream becomes in several steps it may become at once.
pub proof fn law_evolution_is_transitive(a: Stream, b: Stream, c: Stream)
    requires
        evolves(a, b),
        evolves(b, c),
    ensures
        evolves(a, c),
{
}

/// What was earned on a completed or cancelled stream never changes again.
pub proof fn law_settled_earnings_stay(a: Stream, b: Stream, now: u64, later: u64)
    requires
        a.sound(),
        evolves(a, b),
        !a.spec_running(),
    ensures
        b.spec_earned(later) == a.spec_earned(now),
{
}

/// Every stream of the first state is in the second one, and has evolved into
/// what it is there.
pub open spec fn all_evolve(s: ContractState, t: ContractState) -> bool {
    forall|id: u64| #[trigger]
        s.streams.dom().contains(id) ==> t.streams.dom().contains(id) && evolves(
            s.streams[id],
            t.streams[id],
        )
}

/// A new stream gets an identifier that nothing uses, and leaves everything
/// else as it was.
pub proof fn lemma_register(s: ContractState, sender: Address, params: CreateStreamParams)
    requires
        s.wf(),
        s.config is Some,
        s.next_stream_id < u64::MAX,
        params.deposit_amount >= 0,
        params.effective_rate() >= 0,
        params.start_time < params.end_time,
        params.start_time <= params.cliff_time <= params.end_time,
    ensures
        s.unused(s.fresh_id(sender)),
        s.register(sender, params).wf(),
        s.register(sender, params).streams == s.streams.insert(
            s.fresh_id(sender),
            params.stream(s.fresh_id(sender), sender),
        ),
        s.register(sender, params).next_stream_id <= s.next_stream_id + 1,
{
    crate::registry::lemma_take_id(s, sender);
    let id = s.fresh_id(sender);
    let s1 = s.take_id(sender);
    let stream = params.stream(id, sender);
    crate::registry::lemma_put_new(s1, stream);
    let s2 = s1.put(stream);
    crate::registry::lemma_stored_stream(s2, id);
    crate::registry::lemma_enlist_recipient(s2, params.recipient, id);
    let s3 = ContractState {
        recipient_streams: crate::state::enlist(s2.recipient_streams, params.recipient, id),
        ..s2
    };
    crate::registry::lemma_enlist_sender(s3, sender, id);
}

/// A batch of new streams leaves the old ones as they were.
pub proof fn lemma_register_all(
    s: ContractState,
    sender: Address,
    now: u64,
    max_rate: i128,
    batch: Seq<CreateStreamParams>,
    n: int,
)
    requires
        s.wf(),
        s.config is Some,
        0 <= n <= batch.len(),
        s.next_stream_id + n <= u64::MAX,
        forall|i: int|
            0 <= i < n ==> (#[trigger] batch[i]).error(max_rate, sender, now) is None,
    ensures
        s.register_all(sender, batch, n).wf(),
        s.register_all(sender, batch, n).config == s.config,
        s.register_all(sender, batch, n).next_stream_id <= s.next_stream_id + n,
        all_evolve(s, s.register_all(sender, batch, n)),
    decreases n,
{
    if n > 0 {
        lemma_register_all(s, sender, now, max_rate, batch, n - 1);
        let t = s.register_all(sender, batch, n - 1);
        assert(batch[n - 1].error(max_rate, sender, now) is None);
        lemma_register(t, sender, batch[n - 1]);
    }
}

/// A batch whose entries fail independently leaves the old streams as they
/// were.
pub proof fn lemma_partial(
    s: ContractState,
    sender: Address,
    now: u64,
    batch: Seq<CreateStreamParams>,
    transfers: Seq<bool>,
    n: int,
)
    requires
        s.wf(),
        0 <= n <= batch.len(),
        s.next_stream_id + n <= u64::MAX,
    ensures
        s.partial_step(sender, now, batch, transfers, n).wf(),
        s.partial_step(sender, now, batch, transfers, n).config == s.config,
        s.partial_step(sender, now, batch, transfers, n).next_stream_id <= s.next_stream_id + n,
        all_evolve(s, s.partial_step(sender, now, batch, transfers, n)),
    decreases n,
{
    if n > 0 {
        lemma_partial(s, sender, now, batch, transfers, n - 1);
        let t = s.partial_step(sender, now, batch, transfers, n - 1);
        if t.partial_outcome(sender, now, batch[n - 1], transfers[n - 1]) is Ok {
            lemma_register(t, sender, batch[n - 1]);
        }
    }
}

/// A payout in a batch leaves no more withdrawn than the deposit.
pub proof fn lemma_batch_payout(stream: Stream, lookback: Option<u32>, now: u64, balance: int)
    requires
        stream.sound(),
    ensures
        stream.spec_batch_payout(lookback, now, balance) > 0 ==> {
            &&& stream.status != StreamStatus::Completed
            &&& stream.withdrawn_amount + stream.spec_batch_payout(lookback, now, balance)
                <= stream.spec_earned(now)
        },
{
    crate::laws::payments::law_earned_bounded(stream, now);
}

proof fn lemma_batch(
    s: ContractState,
    call: Call,
    who: Address,
    ids: Seq<u64>,
    n: int,
)
    requires
        s.wf(),
        0 <= n <= ids.len(),
        forall|i: int|
            0 <= i < ids.len() ==> s.batch_item_error(call, who, #[trigger] ids[i]) is None,
    ensures
        all_evolve(s, s.batch_step(call, ids, n)),
    decreases n,
{
    if n > 0 {
        lemma_batch(s, call, who, ids, n - 1);
        let id = ids[n - 1];
        assert(s.batch_item_error(call, who, id) is None);
        crate::registry::lemma_stored_stream(s, id);
        lemma_batch_payout(
            s.streams[id],
            s.lookback_of(id),
            call.timestamp,
            s.batch_balance(call, ids, n - 1),
        );
        crate::laws::payments::law_earned_bounded(s.streams[id], call.timestamp);
    }
}

/// No entry of an accepted batch of withdrawals is refused.
pub proof fn lemma_items_ok(s: ContractState, call: Call, who: Address, ids: Seq<u64>, n: int)
    requires
        0 <= n <= ids.len(),
        s.batch_items_error(call, who, ids, n) is None,
    ensures
        forall|i: int| 0 <= i < n ==> s.batch_item_error(call, who, #[trigger] ids[i]) is None,
    decreases n,
{
    if n > 0 {
        lemma_items_ok(s, call, who, ids, n - 1);
    }
}

proof fn lemma_bulk_resume(s: ContractState, call: Call, ids: Seq<u64>, n: int)
    requires
        s.wf(),
        0 <= n <= ids.len(),
        s.bulk_resume_items_error(call, ids, n) is None,
    ensures
        all_evolve(s, s.bulk_resume_step(call, ids, n)),
    decreases n,
{
    if n > 0 {
        lemma_bulk_resume(s, call, ids, n - 1);
        let id = ids[n - 1];
        assert(s.bulk_resume_item_error(call, id) is None);
        crate::registry::lemma_stored_stream(s, id);
    }
}

proof fn lemma_bulk_cancel(s: ContractState, now: u64, sender: Address, ids: Seq<u64>, n: int)
    requires
        s.wf(),
        0 <= n <= ids.len(),
        s.bulk_cancel_items_error(sender, ids, n) is None,
    ensures
        all_evolve(s, s.bulk_cancel_all(now, ids, n)),
    decreases n,
{
    if n > 0 {
        lemma_bulk_cancel(s, now, sender, ids, n - 1);
        let id = ids[n - 1];
        assert(s.bulk_cancel_item_error(sender, id) is None);
        crate::registry::lemma_stored_stream(s, id);
        crate::laws::accrual::law_accrued_bounded(s.streams[id], now as int);
    }
}

/// No entry of an accepted batch of resumptions is refused.
pub proof fn lemma_resumes_ok(s: ContractState, call: Call, ids: Seq<u64>, n: int)
    requires
        0 <= n <= ids.len(),
        s.bulk_resume_items_error(call, ids, n) is None,
    ensures
        forall|i: int| 0 <= i < n ==> s.bulk_resume_item_error(call, #[trigger] ids[i]) is None,
    decreases n,
{
    if n > 0 {
        lemma_resumes_ok(s, call, ids, n - 1);
    }
}

/// No entry of an accepted batch of cancellations is refused.
pub proof fn lemma_cancels_ok(s: ContractState, sender: Address, ids: Seq<u64>, n: int)
    requires
        0 <= n <= ids.len(),
        s.bulk_cancel_items_error(sender, ids, n) is None,
    ensures
        forall|i: int| 0 <= i < n ==> s.bulk_cancel_item_error(sender, #[trigger] ids[i]) is None,
    decreases n,
{
    if n > 0 {
        lemma_cancels_ok(s, sender, ids, n - 1);
    }
}

/// No entry of an accepted batch is refused.
pub proof fn lemma_batch_entries_ok(
    s: ContractState,
    sender: Address,
    now: u64,
    batch: Seq<CreateStreamParams>,
    n: int,
)
    requires
        0 <= n <= batch.len(),
        s.batch_error(sender, now, batch, n) is None,
    ensures
        forall|i: int|
            0 <= i < n ==> (#[trigger] batch[i]).error(s.max_rate_per_second, sender, now) is None,
    decreases n,
{
    if n > 0 {
        lemma_batch_entries_ok(s, sender, now, batch, n - 1);
    }
}

/// The operation fits the numbers of the state: there are identifiers left for
/// it, and a payout from a pool can be booked.
pub open spec fn fits(s: ContractState, call: Call, request: Request) -> bool {
    &&& s.next_stream_id + request.ids_needed() <= u64::MAX
    &&& match request {
        Request::WithdrawFromPool { id, who } => s.streams[id].withdrawn_amount + s.pool_payable(
            call,
            id,
            who,
        ) <= i128::MAX,
        _ => true,
    }
}

proof fn lemma_create_all(
    s: ContractState,
    call: Call,
    sender: Address,
    batch: Seq<CreateStreamParams>,
)
    requires
        s.wf(),
        s.next_stream_id + batch.len() <= u64::MAX,
        s.create_all_error(call, sender, batch) is None,
    ensures
        all_evolve(s, s.create_all_step(sender, batch)),
{
    if batch.len() > 0 {
        let n = batch.len() as int;
        lemma_batch_entries_ok(s, sender, call.timestamp, batch, n);
        let total = crate::creation::total_deposit(batch, n) as i128;
        let paid = s.pull(sender, total);
        lemma_register_all(paid, sender, call.timestamp, s.max_rate_per_second, batch, n);
        assert forall|id: u64| #[trigger] s.streams.dom().contains(id) implies s.create_all_step(
            sender,
            batch,
        ).streams.dom().contains(id) && evolves(
            s.streams[id],
            s.create_all_step(sender, batch).streams[id],
        ) by {
            assert(paid.streams.dom().contains(id));
        }
    }
}

proof fn lemma_payout(s: ContractState, call: Call, id: u64)
    requires
        s.wf(),
        s.streams.dom().contains(id),
    ensures
        s.streams[id].sound(),
        s.streams[id].stream_id == id,
        0 <= s.payout_of(call, id),
        s.payout_of(call, id) > 0 ==> s.streams[id].withdrawn_amount + s.payout_of(call, id)
            <= s.streams[id].deposit_amount,
{
    crate::registry::lemma_stored_stream(s, id);
    crate::laws::payments::law_payout_bounded(
        s.streams[id],
        s.lookback_of(id),
        call.timestamp,
        call.balance,
    );
    crate::laws::payments::law_earned_bounded(s.streams[id], call.timestamp);
}

/// An automatic claim leaves no more withdrawn than the deposit.
pub proof fn lemma_auto_claim(s: ContractState, call: Call, id: u64)
    requires
        s.wf(),
        s.streams.dom().contains(id),
    ensures
        s.streams[id].sound(),
        s.streams[id].stream_id == id,
        0 <= s.auto_claim_amount(call, id),
        s.auto_claim_amount(call, id) > 0 ==> s.streams[id].withdrawn_amount
            + s.auto_claim_amount(call, id) <= s.streams[id].spec_accrued_at(
            call.timestamp as int,
        ) <= s.streams[id].deposit_amount,
{
    crate::registry::lemma_stored_stream(s, id);
    crate::laws::accrual::law_accrued_bounded(s.streams[id], call.timestamp as int);
}

proof fn lemma_delegate(
    s: ContractState,
    call: Call,
    id: u64,
    recipient: Address,
    share_bps: u32,
    new_recipient: Address,
)
    requires
        s.wf(),
        s.next_stream_id < u64::MAX,
        s.delegate_error(call, id, recipient, share_bps, new_recipient) is None,
    ensures
        all_evolve(s, s.delegate_step(call, id, share_bps, new_recipient)),
{
    crate::registry::lemma_stored_stream(s, id);
    crate::registry::lemma_take_id(s, s.streams[id].sender);
}

proof fn lemma_renew(s: ContractState, call: Call, id: u64, balance: i128, allowance: i128)
    requires
        s.wf(),
        s.next_stream_id < u64::MAX,
        s.renew_error(call, id, balance, allowance) is None,
    ensures
        all_evolve(s, s.renew_step(call, id)),
{
    crate::registry::lemma_stored_stream(s, id);
    let stream = s.streams[id];
    let before = s.observe(call.timestamp).with_renewal(id, false).pull(
        stream.sender,
        stream.deposit_amount,
    );
    lemma_register(before, stream.sender, stream.renewal(call.timestamp));
    assert(before.streams == s.streams);
}

/// A stored stream has evolved, or was removed because it is settled.
pub open spec fn evolved(s: ContractState, t: ContractState, id: u64) -> bool {
    ||| t.streams.dom().contains(id) && evolves(s.streams[id], t.streams[id])
    ||| !t.streams.dom().contains(id) && !s.streams[id].spec_running()
        && !s.streams[id].spec_unsettled()
}

/// Making streams leaves the stored ones as they are.
#[verifier::rlimit(50)]
#[verifier::spinoff_prover]
proof fn lemma_evolve_by_creation(s: ContractState, call: Call, request: Request, id: u64)
    requires
        s.wf(),
        fits(s, call, request),
        s.streams.dom().contains(id),
        s.refusal(call, request) is None,
        match request {
            Request::CreateStream { .. } => true,
            Request::CreateStreamRelative { .. } => true,
            Request::CreateStreams { .. } => true,
            Request::CreateStreamsRelative { .. } => true,
            Request::CreateStreamsPartial { .. } => true,
            Request::Delegate { .. } => true,
            Request::Renew { .. } => true,
            Request::CloneStream { .. } => true,
            Request::AcceptOffer { .. } => true,
            Request::CreateOffer { .. } => true,
            _ => false,
        },
    ensures
        evolved(s, s.effect_of(call, request), id),
{
    crate::registry::lemma_stored_stream(s, id);
    let t = s.effect_of(call, request);
    match request {
        Request::CreateStream { sender, params } => {
            assert(evolved(s, t, id)) by {
                lemma_register(s.pull(sender, params.deposit_amount), sender, params);
            }
        },
        Request::CreateStreamRelative { sender, relative } => {
            assert(evolved(s, t, id)) by {
                let params = relative.dated(call.timestamp);
                lemma_register(s.pull(sender, params.deposit_amount), sender, params);
            }
        },
        Request::CreateStreams { sender, batch } => {
            assert(evolved(s, t, id)) by {
                lemma_create_all(s, call, sender, batch);
            }
        },
        Request::CreateStreamsRelative { sender, relative_batch } => {
            assert(evolved(s, t, id)) by {
                if relative_batch.len() > 0 {
                    let batch = crate::creation::dated_batch(relative_batch, call.timestamp);
                    lemma_create_all(s, call, sender, batch);
                }
            }
        },
        Request::CreateStreamsPartial { sender, batch, transfers } => {
            assert(evolved(s, t, id)) by {
                lemma_partial(s, sender, call.timestamp, batch, transfers, batch.len() as int);
            }
        },
        Request::Delegate { id: x, recipient, share_bps, new_recipient } => {
            assert(evolved(s, t, id)) by {
                lemma_delegate(s, call, x, recipient, share_bps, new_recipient);
            }
        },
        Request::Renew { id: x, balance, allowance } => {
            assert(evolved(s, t, id)) by {
                lemma_renew(s, call, x, balance, allowance);
            }
        },
        Request::CloneStream { id: x, new_recipient, start_time, end_time, deposit, force } => {
            assert(evolved(s, t, id)) by {
                crate::registry::lemma_stored_stream(s, x);
                let source = s.streams[x];
                lemma_register(
                    s.pull(source.sender, deposit),
                    source.sender,
                    source.clone_params(new_recipient, start_time, end_time, deposit),
                );
            }
        },
        Request::AcceptOffer { recipient, id: x } => {
            assert(evolved(s, t, id)) by {
                crate::registry::lemma_stored_offer(s, x);
            }
        },
        Request::CreateOffer { .. } => {
            assert(evolved(s, t, id));
        },
        _ => {},
    }
}

/// Streams evolve by withdrawals.
#[verifier::rlimit(50)]
#[verifier::spinoff_prover]
proof fn lemma_evolve_by_withdrawal(s: ContractState, call: Call, request: Request, id: u64)
    requires
        s.wf(),
        fits(s, call, request),
        s.streams.dom().contains(id),
        s.refusal(call, request) is None,
        match request {
            Request::Withdraw { .. } => true,
            Request::WithdrawTo { .. } => true,
            Request::WithdrawFromPool { .. } => true,
            Request::BatchWithdraw { .. } => true,
            Request::DelegatedWithdraw { .. } => true,
            Request::TriggerAutoClaim { .. } => true,
            _ => false,
        },
    ensures
        evolved(s, s.effect_of(call, request), id),
{
    crate::registry::lemma_stored_stream(s, id);
    let t = s.effect_of(call, request);
    match request {
        Request::Withdraw { id: x } => {
            assert(evolved(s, t, id)) by {
                lemma_payout(s, call, x);
            }
        },
        Request::WithdrawTo { id: x, destination } => {
            assert(evolved(s, t, id)) by {
                lemma_payout(s, call, x);
            }
        },
        Request::WithdrawFromPool { id: x, who } => {
            assert(evolved(s, t, id)) by {
                crate::registry::lemma_stored_stream(s, x);
            }
        },
        Request::BatchWithdraw { who, withdrawals } => {
            assert(evolved(s, t, id)) by {
                let ids = crate::batch::targets(withdrawals);
                lemma_items_ok(s, call, who, ids, ids.len() as int);
                lemma_batch(s, call, who, ids, ids.len() as int);
            }
        },
        Request::DelegatedWithdraw { request: r } => {
            assert(evolved(s, t, id)) by {
                crate::registry::lemma_stored_stream(s, r.stream_id);
                crate::laws::payments::law_payable_bounded(
                    s.streams[r.stream_id],
                    s.lookback_of(r.stream_id),
                    call.timestamp,
                    call.balance,
                );
                crate::laws::payments::law_earned_bounded(s.streams[r.stream_id], call.timestamp);
            }
        },
        Request::TriggerAutoClaim { id: x } => {
            assert(evolved(s, t, id)) by {
                lemma_auto_claim(s, call, x);
            }
        },
        _ => {},
    }
}

/// Streams evolve when they are paused, cancelled or changed.
#[verifier::rlimit(50)]
#[verifier::spinoff_prover]
proof fn lemma_evolve_by_change(s: ContractState, call: Call, request: Request, id: u64)
    requires
        s.wf(),
        fits(s, call, request),
        s.streams.dom().contains(id),
        s.refusal(call, request) is None,
        match request {
            Request::PauseStream { .. } => true,
            Request::ResumeStream { .. } => true,
            Request::PauseStreamAsAdmin { .. } => true,
            Request::ResumeStreamAsAdmin { .. } => true,
            Request::CancelStream { .. } => true,
            Request::CancelStreamAsAdmin { .. } => true,
            Request::WitnessedCancel { .. } => true,
            Request::KeeperCancel { .. } => true,
            Request::UpdateRatePerSecond { .. } => true,
            Request::DecreaseRate { .. } => true,
            Request::UpdateRate { .. } => true,
            Request::Shorten { .. } => true,
            Request::Extend { .. } => true,
            Request::TopUp { .. } => true,
            Request::AcceptRecipient { .. } => true,
            Request::TransferClaim { .. } => true,
            Request::BulkResume { .. } => true,
            Request::BulkCancel { .. } => true,
            _ => false,
        },
    ensures
        evolved(s, s.effect_of(call, request), id),
{
    crate::registry::lemma_stored_stream(s, id);
    let t = s.effect_of(call, request);
    match request {
        Request::PauseStream { id: x, .. } => {
            assert(evolved(s, t, id)) by {
                crate::registry::lemma_stored_stream(s, x);
            }
        },
        Request::ResumeStream { id: x, .. } => {
            assert(evolved(s, t, id)) by {
                crate::registry::lemma_stored_stream(s, x);
            }
        },
        Request::PauseStreamAsAdmin { id: x, .. } => {
            assert(evolved(s, t, id)) by {
                crate::registry::lemma_stored_stream(s, x);
            }
        },
        Request::ResumeStreamAsAdmin { id: x, .. } => {
            assert(evolved(s, t, id)) by {
                crate::registry::lemma_stored_stream(s, x);
            }
        },
        Request::CancelStream { id: x, .. } => {
            assert(evolved(s, t, id)) by {
                crate::registry::lemma_stored_stream(s, x);
            }
        },
        Request::CancelStreamAsAdmin { id: x, .. } => {
            assert(evolved(s, t, id)) by {
                crate::registry::lemma_stored_stream(s, x);
            }
        },
        Request::WitnessedCancel { id: x, .. } => {
            assert(evolved(s, t, id)) by {
                crate::registry::lemma_stored_stream(s, x);
            }
        },
        Request::KeeperCancel { id: x, .. } => {
            assert(evolved(s, t, id)) by {
                crate::registry::lemma_stored_stream(s, x);
            }
        },
        Request::UpdateRatePerSecond { id: x, .. } => {
            assert(evolved(s, t, id)) by {
                crate::registry::lemma_stored_stream(s, x);
            }
        },
        Request::DecreaseRate { id: x, .. } => {
            assert(evolved(s, t, id)) by {
                crate::registry::lemma_stored_stream(s, x);
            }
        },
        Request::UpdateRate { id: x, .. } => {
            assert(evolved(s, t, id)) by {
                crate::registry::lemma_stored_stream(s, x);
            }
        },
        Request::Shorten { id: x, .. } => {
            assert(evolved(s, t, id)) by {
                crate::registry::lemma_stored_stream(s, x);
            }
        },
        Request::Extend { id: x, .. } => {
            assert(evolved(s, t, id)) by {
                crate::registry::lemma_stored_stream(s, x);
            }
        },
        Request::TopUp { id: x, .. } => {
            assert(evolved(s, t, id)) by {
                crate::registry::lemma_stored_stream(s, x);
            }
        },
        Request::AcceptRecipient { id: x, .. } => {
            assert(evolved(s, t, id)) by {
                crate::registry::lemma_stored_stream(s, x);
            }
        },
        Request::TransferClaim { id: x, .. } => {
            assert(evolved(s, t, id)) by {
                crate::registry::lemma_stored_stream(s, x);
            }
        },
        Request::BulkResume { ids } => {
            assert(evolved(s, t, id)) by {
                lemma_bulk_resume(s, call, ids, ids.len() as int);
            }
        },
        Request::BulkCancel { sender, ids } => {
            assert(evolved(s, t, id)) by {
                lemma_bulk_cancel(s, call.timestamp, sender, ids, ids.len() as int);
            }
        },
        _ => {},
    }
}

/// Whatever is asked of the contract, a stored stream evolves, or it is
/// removed because it is settled.
pub proof fn law_streams_evolve(s: ContractState, call: Call, request: Request, id: u64)
    requires
        s.wf(),
        fits(s, call, request),
        s.streams.dom().contains(id),
    ensures
        evolved(s, s.after(call, request), id),
{
    crate::registry::lemma_stored_stream(s, id);
    let t = s.effect_of(call, request);
    if s.refusal(call, request) is None {
        match request {
            Request::CreateStream { .. }
            | Request::CreateStreamRelative { .. }
            | Request::CreateStreams { .. }
            | Request::CreateStreamsRelative { .. }
            | Request::CreateStreamsPartial { .. }
            | Request::Delegate { .. }
            | Request::Renew { .. }
            | Request::CloneStream { .. }
            | Request::AcceptOffer { .. }
            | Request::CreateOffer { .. } => {
                lemma_evolve_by_creation(s, call, request, id);
            },
            Request::Withdraw { .. }
            | Request::WithdrawTo { .. }
            | Request::WithdrawFromPool { .. }
            | Request::BatchWithdraw { .. }
            | Request::DelegatedWithdraw { .. }
            | Request::TriggerAutoClaim { .. } => {
                lemma_evolve_by_withdrawal(s, call, request, id);
            },
            Request::PauseStream { .. }
            | Request::ResumeStream { .. }
            | Request::PauseStreamAsAdmin { .. }
            | Request::ResumeStreamAsAdmin { .. }
            | Request::CancelStream { .. }
            | Request::CancelStreamAsAdmin { .. }
            | Request::WitnessedCancel { .. }
            | Request::KeeperCancel { .. }
            | Request::UpdateRatePerSecond { .. }
            | Request::DecreaseRate { .. }
            | Request::UpdateRate { .. }
            | Request::Shorten { .. }
            | Request::Extend { .. }
            | Request::TopUp { .. }
            | Request::AcceptRecipient { .. }
            | Request::TransferClaim { .. }
            | Request::BulkResume { .. }
            | Request::BulkCancel { .. } => {
                lemma_evolve_by_change(s, call, request, id);
            },
            Request::Init { .. } => {
                assert(evolved(s, t, id)) by {
                    reveal(crate::state::nothing_stored);
                }
            },
            Request::CreatePooledStream { .. } => {
                assert(evolved(s, t, id));
            },
            Request::CalculateAccrued { .. } => {
                assert(evolved(s, t, id));
            },
            Request::GetWithdrawable { .. } => {
                assert(evolved(s, t, id));
            },
            Request::GetAutoClaimStatus { .. } => {
                assert(evolved(s, t, id));
            },
            Request::SetAutoRenew { .. } => {
                assert(evolved(s, t, id));
            },
            Request::CloseCompleted { .. } => {
                assert(evolved(s, t, id));
            },
            Request::CloseCancelled { .. } => {
                assert(evolved(s, t, id));
            },
            Request::SetLookback { .. } => {
                assert(evolved(s, t, id));
            },
            Request::RegisterTemplate { .. } => {
                assert(evolved(s, t, id));
            },
            Request::DeleteTemplate { .. } => {
                assert(evolved(s, t, id));
            },
            Request::UpdateRecipient { .. } => {
                assert(evolved(s, t, id));
            },
            Request::CancelRecipient { .. } => {
                assert(evolved(s, t, id));
            },
            Request::SetAutoClaim { .. } => {
                assert(evolved(s, t, id));
            },
            Request::RevokeAutoClaim { .. } => {
                assert(evolved(s, t, id));
            },
            Request::RejectOffer { .. } => {
                assert(evolved(s, t, id));
            },
            Request::CancelOffer { .. } => {
                assert(evolved(s, t, id));
            },
            Request::ReserveIds { .. } => {
                assert(evolved(s, t, id));
            },
            Request::ReleaseIds { .. } => {
                assert(evolved(s, t, id));
            },
            Request::ReclaimIds { .. } => {
                assert(evolved(s, t, id));
            },
            Request::SetAdmin { .. } => {
                assert(evolved(s, t, id));
            },
            Request::SetMaxRate { .. } => {
                assert(evolved(s, t, id));
            },
            Request::SetEmergencyPaused { .. } => {
                assert(evolved(s, t, id));
            },
            Request::GlobalResume => {
                assert(evolved(s, t, id));
            },
            Request::SetContractPaused { .. } => {
                assert(evolved(s, t, id));
            },
            Request::PauseProtocol { .. } => {
                assert(evolved(s, t, id));
            },
            Request::ResumeProtocol { .. } => {
                assert(evolved(s, t, id));
            },
            Request::Sweep { .. } => {
                assert(evolved(s, t, id));
            },
            Request::Upgrade { .. } => {
                assert(evolved(s, t, id));
            },
        }
    }
}

} // verus!
