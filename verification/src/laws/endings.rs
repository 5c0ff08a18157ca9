//! How streams end: who gets what, and who may end them.

use crate::events::{
    Effect, Event, KeeperCancelled, StreamEvent, StreamHealthChanged, StreamPaused, Withdrawal,
};
use crate::state::{Call, ContractState};
use crate::types::{Address, PauseReason, PauseRecord, Stream, StreamStatus, Word};
use vstd::prelude::*;

verus! {

/// A cancellation pays the sender what was not earned, in one payment, and
/// nobody else, and nothing if all was earned. What is owed falls by just that.
/// The recipient keeps its claim to the rest, at any later time.
pub proof fn law_cancellation_outcome(s: ContractState, stream: Stream, now: u64)
    requires
        stream.sound(),
        s.total_liabilities >= 0,
        s.cancel_error(stream, now) is None,
    ensures
        ({
            let t = s.cancel(stream, now);
            let refund = (stream.deposit_amount - stream.spec_accrued_at(now as int)) as i128;
            let b = t.streams[stream.stream_id];
            let announcement = Effect::Emit(
                Event::Status(StreamEvent::StreamCancelled(stream.stream_id)),
            );
            &&& 0 <= refund == stream.deposit_amount - stream.spec_accrued_at(now as int)
            &&& t.effects == if refund > 0 {
                s.effects.push(Effect::Push { to: stream.sender, amount: refund }).push(
                    announcement,
                )
            } else {
                s.effects.push(announcement)
            }
            &&& s.total_liabilities - t.total_liabilities == refund
            &&& b == (Stream {
                status: StreamStatus::Cancelled,
                cancelled_at: Some(now),
                ..stream
            })
            &&& forall|later: u64|
                #![trigger b.spec_earned(later)]
                b.spec_earned(later) == stream.spec_accrued_at(now as int)
            &&& t == (ContractState {
                streams: s.streams.insert(stream.stream_id, b),
                effects: t.effects,
                total_liabilities: t.total_liabilities,
                last_accrual_timestamp: Some(now),
                paused_stream_count: t.paused_stream_count,
                ..s
            })
        }),
{
    crate::laws::accrual::law_accrued_bounded(stream, now as int);
    let b = s.cancel(stream, now).streams[stream.stream_id];
    assert(b.spec_checkpoint() == stream.spec_checkpoint());
}

/// Who may cancel a stream: its sender, the administrator, or its witness by a
/// signature before the deadline; never if the stream is irrevocable or over.
pub proof fn law_cancellation_accepted(
    s: ContractState,
    call: Call,
    id: u64,
    key: Word,
    deadline: u64,
    signature_valid: bool,
)
    ensures
        ({
            let a = s.streams[id];
            let open = {
                &&& s.streams.dom().contains(id)
                &&& a.irrevocable != Some(true)
                &&& a.status == StreamStatus::Active || a.status == StreamStatus::Paused
                &&& s.last_accrual_timestamp is Some ==> s.last_accrual_timestamp->0
                    <= call.timestamp
            };
            &&& s.cancel_stream_error(call, id) is None <==> open && !s.emergency_paused
                && call.signers@.contains(a.sender)
            &&& s.cancel_as_admin_error(call, id) is None <==> open && s.config is Some
                && call.signers@.contains(s.config->0.admin)
            &&& s.witnessed_cancel_error(call, id, key, deadline, signature_valid) is None <==> open
                && !s.emergency_paused && call.timestamp <= deadline && a.witness == Some(
                Address::Account(key),
            ) && signature_valid
        }),
{
}

/// A keeper closes a stream for good: the recipient is paid what it earned and
/// did not withdraw, the sender what was not earned, less half a percent,
/// rounded down, which the keeper gets. All of it, and no more, is taken off
/// what is owed.
pub proof fn law_keeper_cancel_outcome(s: ContractState, call: Call, id: u64, keeper: Address)
    requires
        s.wf(),
        crate::laws::books::booked(s),
        s.keeper_cancel_error(call, id, keeper) is None,
        s.streams[id].withdrawn_amount <= s.streams[id].spec_accrued_at(call.timestamp as int),
    ensures
        ({
            let a = s.streams[id];
            let t = s.keeper_cancel_step(call, id, keeper);
            let b = t.streams[id];
            let earned = a.spec_accrued_at(call.timestamp as int);
            let due = (earned - a.withdrawn_amount) as i128;
            let gross = a.deposit_amount - earned;
            let fee = (gross * 50 / 10_000) as i128;
            let refund = (gross - fee) as i128;
            let first = if due > 0 {
                s.effects.push(Effect::Push { to: a.recipient, amount: due })
            } else {
                s.effects
            };
            let second = if refund > 0 {
                first.push(Effect::Push { to: a.sender, amount: refund })
            } else {
                first
            };
            let third = if fee > 0 {
                second.push(Effect::Push { to: keeper, amount: fee })
            } else {
                second
            };
            let announced = third.push(
                Effect::Emit(
                    Event::KeeperCancelled(
                        KeeperCancelled {
                            stream_id: id,
                            keeper,
                            keeper_fee: fee,
                            recipient_amount: due,
                            sender_refund: refund,
                        },
                    ),
                ),
            );
            &&& due + fee + refund == a.deposit_amount - a.withdrawn_amount
            &&& 0 <= due && 0 <= fee && 0 <= refund
            &&& t.effects == announced
            &&& s.total_liabilities - t.total_liabilities == a.deposit_amount - a.withdrawn_amount
            &&& t.total_keeper_fees_paid == s.total_keeper_fees_paid + fee
            &&& b == (Stream {
                status: StreamStatus::Cancelled,
                cancelled_at: Some(call.timestamp),
                withdrawn_amount: (a.withdrawn_amount + due) as i128,
                ..a
            })
            &&& b.withdrawn_amount == earned
            &&& t == (ContractState {
                streams: s.streams.insert(id, b),
                effects: t.effects,
                total_liabilities: t.total_liabilities,
                total_keeper_fees_paid: t.total_keeper_fees_paid,
                paused_stream_count: t.paused_stream_count,
                ..s
            })
        }),
{
    crate::registry::lemma_stored_stream(s, id);
    let a = s.streams[id];
    crate::laws::accrual::law_accrued_bounded(a, call.timestamp as int);
    crate::laws::books::lemma_owed(s);
    let gross = a.deposit_amount - a.spec_accrued_at(call.timestamp as int);
    assert(0 <= gross * 50 / 10_000 <= gross);
}

/// When a keeper may close a stream: a week after its end, if it is neither
/// settled nor irrevocable, and if the amounts fit their types.
pub proof fn law_keeper_cancel_accepted(s: ContractState, call: Call, id: u64, keeper: Address)
    ensures
        ({
            let a = s.streams[id];
            let gross = a.deposit_amount - a.spec_accrued_at(call.timestamp as int);
            let fee = gross * 50 / 10_000;
            s.keeper_cancel_error(call, id, keeper) is None <==> {
                &&& !s.emergency_paused
                &&& call.signers@.contains(keeper)
                &&& s.streams.dom().contains(id)
                &&& a.status == StreamStatus::Active || a.status == StreamStatus::Paused
                &&& a.irrevocable != Some(true)
                &&& a.end_time + 604_800 <= call.timestamp
                &&& gross * 50 <= i128::MAX
                &&& fee > 0 ==> s.total_keeper_fees_paid + fee <= i128::MAX
            }
        }),
{
}

/// One step of a batch of cancellations: the recipient is paid what it earned
/// and did not withdraw, and what the sender is to get back, which the batch
/// pays at its end, is what was not earned. Both are taken off what is owed.
pub proof fn law_bulk_cancel_step_outcome(
    s: ContractState,
    now: u64,
    sender: Address,
    ids: Seq<u64>,
    n: int,
)
    requires
        s.wf(),
        crate::laws::books::booked(s),
        0 <= n < ids.len(),
        crate::batch::distinct(ids),
        forall|i: int|
            0 <= i < ids.len() ==> s.bulk_cancel_item_error(sender, #[trigger] ids[i]) is None,
        s.clock_ok(now),
    ensures
        ({
            let id = ids[n];
            let a = s.streams[id];
            let before = s.bulk_cancel_all(now, ids, n);
            let t = s.bulk_cancel_all(now, ids, n + 1);
            let b = t.streams[id];
            let earned = a.spec_accrued_at(now as int);
            let due = (earned - a.withdrawn_amount) as i128;
            let paid = before.effects.push(Effect::Push { to: a.recipient, amount: due }).push(
                Effect::Emit(
                    Event::Withdrew(
                        Withdrawal { stream_id: id, recipient: a.recipient, amount: due },
                    ),
                ),
            );
            let first = if due > 0 {
                paid
            } else {
                before.effects
            };
            &&& s.bulk_cancel_all(now, ids, 0) == s
            &&& s.bulk_refund(now, ids, 0) == 0
            &&& s.bulk_refund(now, ids, n + 1) == s.bulk_refund(now, ids, n) + a.deposit_amount
                - earned
            &&& 0 <= due == earned - a.withdrawn_amount
            &&& t.effects == first.push(
                Effect::Emit(Event::Status(StreamEvent::StreamCancelled(id))),
            )
            &&& before.total_liabilities - t.total_liabilities == a.deposit_amount
                - a.withdrawn_amount
            &&& b == (Stream {
                status: StreamStatus::Cancelled,
                cancelled_at: Some(now),
                withdrawn_amount: earned as i128,
                ..a
            })
            &&& t == (ContractState {
                streams: before.streams.insert(id, b),
                effects: t.effects,
                total_liabilities: t.total_liabilities,
                paused_stream_count: t.paused_stream_count,
                ..before
            })
        }),
{
    let id = ids[n];
    let before = s.bulk_cancel_all(now, ids, n);
    assert(s.bulk_cancel_item_error(sender, ids[n]) is None);
    crate::registry::lemma_stored_stream(s, id);
    crate::laws::accrual::law_accrued_bounded(s.streams[id], now as int);
    crate::laws::accrual::law_accrued_monotone(
        s.streams[id],
        crate::laws::books::clock(s),
        now as int,
    );
    assert(crate::laws::books::fair(s.streams[id], crate::laws::books::clock(s)));
    crate::laws::counts::lemma_cancel_runs(s, now, sender, ids, n);
    crate::laws::books::lemma_book_cancels(s, now, sender, ids, n);
    crate::laws::books::lemma_owed(before);
}

/// A batch of cancellations ends with one payment to the sender, of all that
/// was not earned on its streams, if that is more than nothing.
pub proof fn law_bulk_cancel_refunds_once(
    s: ContractState,
    call: Call,
    sender: Address,
    ids: Seq<u64>,
)
    requires
        s.wf(),
        s.bulk_cancel_error(call, sender, ids) is None,
    ensures
        ({
            let now = call.timestamp;
            let paid = s.bulk_cancel_all(now, ids, ids.len() as int);
            let refund = s.bulk_refund(now, ids, ids.len() as int);
            let t = s.bulk_cancel_step(now, sender, ids);
            &&& 0 <= refund <= i128::MAX
            &&& t.effects == if refund > 0 {
                paid.effects.push(Effect::Push { to: sender, amount: refund as i128 })
            } else {
                paid.effects
            }
            &&& t == (ContractState { effects: t.effects, ..paid })
        }),
{
    lemma_refund_bound(s, call, sender, ids, ids.len() as int);
}

proof fn lemma_refund_bound(s: ContractState, call: Call, sender: Address, ids: Seq<u64>, n: int)
    requires
        s.wf(),
        0 <= n <= ids.len(),
        s.bulk_cancel_error(call, sender, ids) is None,
    ensures
        0 <= s.bulk_refund(call.timestamp, ids, n),
    decreases n,
{
    if n > 0 {
        lemma_refund_bound(s, call, sender, ids, n - 1);
        crate::laws::streams::lemma_cancels_ok(s, sender, ids, ids.len() as int);
        assert(s.bulk_cancel_item_error(sender, ids[n - 1]) is None);
        crate::registry::lemma_stored_stream(s, ids[n - 1]);
        crate::laws::accrual::law_accrued_bounded(
            s.streams[ids[n - 1]],
            call.timestamp as int,
        );
    }
}

/// What is asked of every stream in a batch of cancellations.
pub proof fn law_bulk_cancel_accepted(
    s: ContractState,
    call: Call,
    sender: Address,
    ids: Seq<u64>,
    i: int,
    j: int,
)
    requires
        s.bulk_cancel_error(call, sender, ids) is None,
        0 <= i < ids.len(),
        0 <= j < ids.len(),
    ensures
        ({
            let a = s.streams[ids[i]];
            &&& !s.emergency_paused
            &&& call.signers@.contains(sender)
            &&& i != j ==> ids[i] != ids[j]
            &&& s.streams.dom().contains(ids[i])
            &&& a.sender == sender
            &&& a.irrevocable != Some(true)
            &&& a.status == StreamStatus::Active || a.status == StreamStatus::Paused
        }),
{
    crate::laws::streams::lemma_cancels_ok(s, sender, ids, ids.len() as int);
    assert(s.bulk_cancel_item_error(sender, ids[i]) is None);
}

/// A pause and a resumption change the status and the ledger of the last
/// change, announce it, and move no money.
pub proof fn law_pause_outcome(s: ContractState, call: Call, id: u64, reason: PauseReason)
    requires
        s.wf(),
        s.streams.dom().contains(id),
        s.paused_stream_count < u64::MAX,
    ensures
        ({
            let a = s.streams[id];
            let paused = s.pause(call, id).announce_pause(id, reason);
            let resumed = s.resume(call, a);
            &&& a.status != StreamStatus::Paused ==> paused == (ContractState {
                streams: s.streams.insert(
                    id,
                    Stream {
                        status: StreamStatus::Paused,
                        last_pause_toggle_ledger: call.sequence,
                        ..a
                    },
                ),
                paused_stream_count: (s.paused_stream_count + 1) as u64,
                effects: s.effects.push(
                    Effect::Emit(Event::Paused(StreamPaused { stream_id: id, reason })),
                ),
                ..s
            })
            &&& a.status == StreamStatus::Paused && s.paused_stream_count > 0 ==> resumed == (
            ContractState {
                streams: s.streams.insert(
                    id,
                    Stream {
                        status: StreamStatus::Active,
                        last_pause_toggle_ledger: call.sequence,
                        ..a
                    },
                ),
                paused_stream_count: (s.paused_stream_count - 1) as u64,
                effects: s.effects.push(
                    Effect::Emit(Event::Status(StreamEvent::Resumed(id))),
                ),
                ..s
            })
        }),
{
    crate::registry::lemma_stored_stream(s, id);
}

/// A pause by the administrator is also remembered, with its time and reason.
pub proof fn law_admin_pause_is_recorded(s: ContractState, call: Call, id: u64, reason: PauseReason)
    requires
        s.pause_as_admin_error(call, id) is None,
    ensures
        ({
            let request = crate::operations::Request::PauseStreamAsAdmin { id, reason };
            let t = s.effect_of(call, request);
            let by_sender = s.effect_of(
                call,
                crate::operations::Request::PauseStream { id, reason },
            );
            t == (ContractState {
                last_stream_pause: Some(
                    PauseRecord {
                        actor: s.config->0.admin,
                        timestamp: call.timestamp,
                        reason,
                    },
                ),
                ..by_sender
            })
        }),
{
}

/// Who may pause and resume, and when: the sender or the administrator, before
/// the end, and seventeen ledgers after the last pause or resumption.
pub proof fn law_pause_accepted(s: ContractState, call: Call, id: u64)
    ensures
        ({
            let a = s.streams[id];
            let timely = {
                &&& s.streams.dom().contains(id)
                &&& call.timestamp < a.end_time
                &&& call.sequence >= a.last_pause_toggle_ledger + 17
            };
            let by_sender = !s.emergency_paused && call.signers@.contains(a.sender);
            let by_admin = s.config is Some && call.signers@.contains(s.config->0.admin);
            &&& s.pause_stream_error(call, id) is None <==> timely && by_sender && a.status
                == StreamStatus::Active
            &&& s.resume_stream_error(call, id) is None <==> timely && by_sender && a.status
                == StreamStatus::Paused
            &&& s.pause_as_admin_error(call, id) is None <==> timely && by_admin && a.status
                == StreamStatus::Active
            &&& s.resume_as_admin_error(call, id) is None <==> timely && by_admin && a.status
                == StreamStatus::Paused
        }),
{
}

/// A batch of resumptions resumes one stream after the other.
pub proof fn law_bulk_resume_step_outcome(s: ContractState, call: Call, ids: Seq<u64>, n: int)
    requires
        s.wf(),
        s.bulk_resume_error(call, ids) is None,
        0 <= n < ids.len(),
    ensures
        ({
            let id = ids[n];
            let a = s.streams[id];
            let before = s.bulk_resume_step(call, ids, n);
            let t = s.bulk_resume_step(call, ids, n + 1);
            &&& s.bulk_resume_step(call, ids, 0) == s
            &&& s.config is Some && call.signers@.contains(s.config->0.admin)
            &&& s.streams.dom().contains(id)
            &&& a.status == StreamStatus::Paused
            &&& call.timestamp < a.end_time
            &&& call.sequence >= a.last_pause_toggle_ledger + 17
            &&& t == (ContractState {
                streams: before.streams.insert(
                    id,
                    Stream {
                        status: StreamStatus::Active,
                        last_pause_toggle_ledger: call.sequence,
                        ..a
                    },
                ),
                paused_stream_count: if before.paused_stream_count == 0 {
                    0
                } else {
                    (before.paused_stream_count - 1) as u64
                },
                effects: before.effects.push(
                    Effect::Emit(Event::Status(StreamEvent::Resumed(id))),
                ),
                ..before
            })
        }),
{
    crate::laws::streams::lemma_resumes_ok(s, call, ids, ids.len() as int);
    assert(s.bulk_resume_item_error(call, ids[n]) is None);
    crate::registry::lemma_stored_stream(s, ids[n]);
}

/// The health of a stream is announced when it changes, and only then.
pub proof fn law_health_announced(s: ContractState, before: Stream, after: Stream, now: u64)
    requires
        before.sound(),
        after.sound(),
    ensures
        s.announce_health(before, after, now) == if before.spec_underfunded()
            == after.spec_underfunded() {
            s
        } else {
            ContractState {
                effects: s.effects.push(
                    Effect::Emit(
                        Event::HealthChanged(
                            StreamHealthChanged {
                                stream_id: after.stream_id,
                                is_underfunded: after.spec_underfunded(),
                                remaining_balance: (after.deposit_amount
                                    - after.withdrawn_amount) as i128,
                                seconds_remaining: if now < after.end_time {
                                    (after.end_time - now) as u64
                                } else {
                                    0
                                },
                            },
                        ),
                    ),
                ),
                ..s
            }
        },
{
}

/// A settled stream leaves every list and the store, and nothing else changes;
/// it can be closed once nothing is left to withdraw.
pub proof fn law_close_outcome(s: ContractState, id: u64)
    requires
        s.wf(),
        s.streams.dom().contains(id),
    ensures
        ({
            let a = s.streams[id];
            let t = s.close(id);
            let left = a.status == StreamStatus::Cancelled && a.withdrawn_amount
                < a.spec_accrued_at(a.cancelled_at->0 as int);
            &&& s.close_completed_error(id) is None <==> (a.status == StreamStatus::Completed
                || a.status == StreamStatus::Cancelled) && !left
            &&& s.close_cancelled_error(id) is None <==> a.status == StreamStatus::Cancelled
                && !left
            &&& t.streams == s.streams.remove(id)
            &&& t.auto_renew == s.auto_renew.remove(id)
            &&& t.lookback == s.lookback.remove(id)
            &&& t.effects == s.effects.push(
                Effect::Emit(Event::Status(StreamEvent::StreamClosed(id))),
            )
            &&& forall|who: Address, other: u64|
                #![trigger crate::laws::lists::on_list(t.recipient_streams, who, other)]
                crate::laws::lists::on_list(t.recipient_streams, who, other) == (
                crate::laws::lists::on_list(s.recipient_streams, who, other) && !(who == a.recipient
                    && other == id))
            &&& forall|who: Address, other: u64|
                #![trigger crate::laws::lists::on_list(t.sender_streams, who, other)]
                crate::laws::lists::on_list(t.sender_streams, who, other) == (
                crate::laws::lists::on_list(s.sender_streams, who, other) && !(who == a.sender
                    && other == id))
            &&& t == (ContractState {
                recipient_streams: t.recipient_streams,
                sender_streams: t.sender_streams,
                streams: t.streams,
                auto_renew: t.auto_renew,
                lookback: t.lookback,
                effects: t.effects,
                ..s
            })
        }),
{
    crate::registry::lemma_lists_ascend(s, s.streams[id].recipient);
    crate::registry::lemma_lists_ascend(s, s.streams[id].sender);
    crate::laws::lists::lemma_delisted(s.recipient_streams, s.streams[id].recipient, id);
    crate::laws::lists::lemma_delisted(s.sender_streams, s.streams[id].sender, id);
    crate::registry::lemma_stored_stream(s, id);
}

} // verus!
