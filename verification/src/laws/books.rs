//! The amount that the contract keeps as owed agrees with its streams.

use crate::delegated::DelegatedWithdrawal;
use crate::laws::streams::fits;
use crate::operations::Request;
use crate::state::{Call, ContractState};
use crate::types::{Address, CreateStreamParams, Stream, StreamStatus};
use vstd::prelude::*;

verus! {

/// What a stream still owes to its two sides: all that was not withdrawn, or,
/// after cancellation, what was earned and not withdrawn.
pub open spec fn worth() -> spec_fn(Stream) -> int {
    |stream: Stream|
        if stream.status == StreamStatus::Cancelled {
            stream.spec_accrued_at(stream.cancelled_at->0 as int) - stream.withdrawn_amount
        } else {
            stream.deposit_amount - stream.withdrawn_amount
        }
}

/// The last time that the contract has seen.
pub open spec fn clock(s: ContractState) -> int {
    match s.last_accrual_timestamp {
        Some(t) => t as int,
        None => 0,
    }
}

/// No more was withdrawn from a stream of one recipient than was earned at
/// `t`, and a completed stream is drained.
pub open spec fn fair(stream: Stream, t: int) -> bool {
    &&& stream.is_pooled != Some(true)
    &&& match stream.status {
        StreamStatus::Completed => stream.withdrawn_amount == stream.deposit_amount,
        StreamStatus::Cancelled => stream.withdrawn_amount <= stream.spec_accrued_at(
            stream.cancelled_at->0 as int,
        ),
        _ => stream.withdrawn_amount <= stream.spec_accrued_at(t),
    }
}

/// Every stream is fair, and what the contract keeps as owed is the sum of what
/// its streams owe.
pub open spec fn booked(s: ContractState) -> bool {
    &&& s.streams.dom().finite()
    &&& forall|id: u64| #[trigger] s.streams.dom().contains(id) ==> fair(s.streams[id], clock(s))
    &&& s.total_liabilities == crate::laws::totals::total(s.streams, worth())
}

/// Time does not run backwards, the books do not overflow, and the operation
/// does not lower a rate in hindsight below what was withdrawn.
pub open spec fn regular(s: ContractState, call: Call, request: Request) -> bool {
    &&& s.clock_ok(call.timestamp)
    &&& s.after(call, request).total_liabilities < i128::MAX
    &&& match request {
        Request::UpdateRate { id, rate, .. } => fair(
            (Stream { rate_per_second: rate, ..s.streams[id] }),
            clock(s),
        ),
        _ => true,
    }
}

/// What is fair stays fair as time goes by.
proof fn lemma_fair_later(stream: Stream, t1: int, t2: int)
    requires
        stream.sound(),
        fair(stream, t1),
        t1 <= t2,
    ensures
        fair(stream, t2),
{
    crate::laws::accrual::law_accrued_monotone(stream, t1, t2);
}

/// The sum of what fair streams owe is not negative.
pub proof fn lemma_owed(s: ContractState)
    requires
        s.wf(),
        booked(s),
    ensures
        s.total_liabilities >= 0,
        forall|id: u64| #[trigger]
            s.streams.dom().contains(id) ==> 0 <= worth()(s.streams[id]) <= s.total_liabilities,
{
    assert forall|id: u64| #[trigger] s.streams.dom().contains(id) implies worth()(s.streams[id])
        >= 0 by {
        crate::registry::lemma_stored_stream(s, id);
        crate::laws::accrual::law_accrued_bounded(s.streams[id], clock(s));
    }
    crate::laws::totals::lemma_not_negative(s.streams, worth());
    assert forall|id: u64| #[trigger] s.streams.dom().contains(id) implies worth()(s.streams[id])
        <= s.total_liabilities by {
        crate::laws::totals::lemma_no_less(s.streams, worth(), id);
    }
}

/// An operation that leaves the streams and the books alone.
proof fn lemma_book_same(s: ContractState, t: ContractState)
    requires
        s.wf(),
        booked(s),
        t.streams == s.streams,
        t.total_liabilities == s.total_liabilities,
        clock(s) <= clock(t),
    ensures
        booked(t),
{
    assert forall|id: u64| #[trigger] t.streams.dom().contains(id) implies fair(
        t.streams[id],
        clock(t),
    ) by {
        crate::registry::lemma_stored_stream(s, id);
        lemma_fair_later(s.streams[id], clock(s), clock(t));
    }
}

/// An operation that replaces one stream.
proof fn lemma_book_update(s: ContractState, t: ContractState, b: Stream)
    requires
        s.wf(),
        booked(s),
        s.streams.dom().contains(b.stream_id),
        t.streams == s.streams.insert(b.stream_id, b),
        clock(s) <= clock(t),
        fair(b, clock(t)),
        t.total_liabilities - s.total_liabilities == worth()(b) - worth()(
            s.streams[b.stream_id],
        ),
    ensures
        booked(t),
{
    crate::laws::totals::lemma_store(s.streams, worth(), b.stream_id, b);
    assert forall|id: u64| #[trigger] t.streams.dom().contains(id) implies fair(
        t.streams[id],
        clock(t),
    ) by {
        if id != b.stream_id {
            crate::registry::lemma_stored_stream(s, id);
            lemma_fair_later(s.streams[id], clock(s), clock(t));
        }
    }
}

/// An operation that adds one stream.
proof fn lemma_book_new(s: ContractState, t: ContractState, b: Stream)
    requires
        s.wf(),
        booked(s),
        !s.streams.dom().contains(b.stream_id),
        t.streams == s.streams.insert(b.stream_id, b),
        clock(s) <= clock(t),
        b.sound(),
        b.is_pooled != Some(true),
        b.status == StreamStatus::Active,
        b.withdrawn_amount == 0,
        t.total_liabilities == s.total_liabilities + b.deposit_amount,
    ensures
        booked(t),
{
    crate::laws::totals::lemma_store(s.streams, worth(), b.stream_id, b);
    crate::laws::accrual::law_accrued_bounded(b, clock(t));
    assert forall|id: u64| #[trigger] t.streams.dom().contains(id) implies fair(
        t.streams[id],
        clock(t),
    ) by {
        if id != b.stream_id {
            crate::registry::lemma_stored_stream(s, id);
            lemma_fair_later(s.streams[id], clock(s), clock(t));
        }
    }
}

proof fn lemma_book_register(s: ContractState, sender: Address, params: CreateStreamParams)
    requires
        s.wf(),
        s.config is Some,
        booked(s),
        s.next_stream_id < u64::MAX,
        params.deposit_amount >= 0,
        params.effective_rate() >= 0,
        params.start_time < params.end_time,
        params.start_time <= params.cliff_time <= params.end_time,
        s.register(sender, params).total_liabilities < i128::MAX,
    ensures
        booked(s.register(sender, params)),
{
    crate::laws::streams::lemma_register(s, sender, params);
    lemma_owed(s);
    lemma_book_new(
        s,
        s.register(sender, params),
        params.stream(s.fresh_id(sender), sender),
    );
}

proof fn lemma_book_register_all(
    s: ContractState,
    sender: Address,
    now: u64,
    max_rate: i128,
    batch: Seq<CreateStreamParams>,
    n: int,
)
    requires
        s.wf(),
        s.config is Some,
        booked(s),
        0 <= n <= batch.len(),
        s.next_stream_id + n <= u64::MAX,
        forall|i: int|
            0 <= i < n ==> (#[trigger] batch[i]).error(max_rate, sender, now) is None,
        s.register_all(sender, batch, n).total_liabilities < i128::MAX,
    ensures
        booked(s.register_all(sender, batch, n)),
    decreases n,
{
    if n > 0 {
        let t = s.register_all(sender, batch, n - 1);
        assert(batch[n - 1].error(max_rate, sender, now) is None);
        lemma_book_register_all(s, sender, now, max_rate, batch, n - 1);
        crate::laws::streams::lemma_register_all(s, sender, now, max_rate, batch, n - 1);
        lemma_book_register(t, sender, batch[n - 1]);
    }
}

proof fn lemma_book_create_all(
    s: ContractState,
    call: Call,
    sender: Address,
    batch: Seq<CreateStreamParams>,
)
    requires
        s.wf(),
        booked(s),
        s.next_stream_id + batch.len() <= u64::MAX,
        s.create_all_error(call, sender, batch) is None,
        s.create_all_step(sender, batch).total_liabilities < i128::MAX,
    ensures
        booked(s.create_all_step(sender, batch)),
{
    if batch.len() > 0 {
        let n = batch.len() as int;
        crate::laws::streams::lemma_batch_entries_ok(s, sender, call.timestamp, batch, n);
        let paid = s.pull(sender, crate::creation::total_deposit(batch, n) as i128);
        lemma_book_register_all(paid, sender, call.timestamp, s.max_rate_per_second, batch, n);
    }
}

proof fn lemma_book_partial(
    s: ContractState,
    sender: Address,
    now: u64,
    batch: Seq<CreateStreamParams>,
    transfers: Seq<bool>,
    n: int,
)
    requires
        s.wf(),
        booked(s),
        0 <= n <= batch.len(),
        s.next_stream_id + n <= u64::MAX,
        s.partial_step(sender, now, batch, transfers, n).total_liabilities < i128::MAX,
    ensures
        booked(s.partial_step(sender, now, batch, transfers, n)),
    decreases n,
{
    if n > 0 {
        let t = s.partial_step(sender, now, batch, transfers, n - 1);
        lemma_book_partial(s, sender, now, batch, transfers, n - 1);
        crate::laws::streams::lemma_partial(s, sender, now, batch, transfers, n - 1);
        if t.partial_outcome(sender, now, batch[n - 1], transfers[n - 1]) is Ok {
            lemma_book_register(t, sender, batch[n - 1]);
        }
    }
}

/// A payout of what was earned, or of less.
proof fn lemma_book_payout(
    s: ContractState,
    t: ContractState,
    b: Stream,
    now: u64,
    amount: int,
)
    requires
        s.wf(),
        booked(s),
        s.clock_ok(now),
        s.streams.dom().contains(b.stream_id),
        ({
            let a = s.streams[b.stream_id];
            &&& 0 < amount
            &&& a.withdrawn_amount + amount <= a.spec_earned(now)
            &&& b == (Stream {
                withdrawn_amount: (a.withdrawn_amount + amount) as i128,
                last_withdraw_ledger: b.last_withdraw_ledger,
                status: if a.spec_running() && a.withdrawn_amount + amount == a.deposit_amount {
                    StreamStatus::Completed
                } else {
                    a.status
                },
                ..a
            })
            &&& a.spec_running() ==> clock(t) == now
        }),
        t.streams == s.streams.insert(b.stream_id, b),
        clock(s) <= clock(t),
        t.total_liabilities == crate::state::difference_or_zero(
            s.total_liabilities,
            amount as i128,
        ),
    ensures
        booked(t),
        s.total_liabilities >= amount,
{
    let a = s.streams[b.stream_id];
    crate::registry::lemma_stored_stream(s, b.stream_id);
    crate::laws::payments::law_earned_bounded(a, now);
    lemma_owed(s);
    assert(b.spec_checkpoint() == a.spec_checkpoint());
    assert(amount <= worth()(a));
    lemma_book_update(s, t, b);
}

pub proof fn lemma_book_batch(s: ContractState, call: Call, who: Address, ids: Seq<u64>, n: int)
    requires
        s.wf(),
        booked(s),
        s.clock_ok(call.timestamp),
        0 <= n <= ids.len(),
        crate::batch::distinct(ids),
        forall|i: int|
            0 <= i < ids.len() ==> s.batch_item_error(call, who, #[trigger] ids[i]) is None,
    ensures
        booked(s.batch_step(call, ids, n)),
        clock(s.batch_step(call, ids, n)) == call.timestamp,
    decreases n,
{
    if n == 0 {
        lemma_book_same(s, s.observe(call.timestamp));
    } else {
        lemma_book_batch(s, call, who, ids, n - 1);
        crate::laws::counts::lemma_batch_runs(s, call, who, ids, n - 1);
        let id = ids[n - 1];
        let before = s.batch_step(call, ids, n - 1);
        assert(before.streams.dom().contains(id) && before.streams[id] == s.streams[id]);
        crate::registry::lemma_stored_stream(before, id);
        let amount = s.batch_amount(call, ids, n - 1);
        crate::laws::streams::lemma_batch_payout(
            s.streams[id],
            s.lookback_of(id),
            call.timestamp,
            s.batch_balance(call, ids, n - 1),
        );
        crate::laws::payments::law_earned_bounded(s.streams[id], call.timestamp);
        if amount > 0 {
            lemma_book_payout(
                before,
                s.batch_step(call, ids, n),
                s.streams[id].spec_paid(amount, call.sequence),
                call.timestamp,
                amount,
            );
        }
    }
}

proof fn lemma_book_resumes(s: ContractState, call: Call, ids: Seq<u64>, n: int)
    requires
        s.wf(),
        booked(s),
        0 <= n <= ids.len(),
        crate::batch::distinct(ids),
        forall|i: int|
            0 <= i < ids.len() ==> s.bulk_resume_item_error(call, #[trigger] ids[i]) is None,
    ensures
        booked(s.bulk_resume_step(call, ids, n)),
    decreases n,
{
    if n > 0 {
        lemma_book_resumes(s, call, ids, n - 1);
        crate::laws::counts::lemma_resume_runs(s, call, ids, n - 1);
        let id = ids[n - 1];
        let before = s.bulk_resume_step(call, ids, n - 1);
        assert(before.streams.dom().contains(id) && before.streams[id] == s.streams[id]);
        crate::registry::lemma_stored_stream(before, id);
        let b = s.streams[id].toggled(StreamStatus::Active, call.sequence);
        assert(b.spec_checkpoint() == s.streams[id].spec_checkpoint());
        assert(fair(before.streams[id], clock(before)));
        lemma_book_update(before, s.bulk_resume_step(call, ids, n), b);
    }
}

/// A cancellation that pays `paid` of what was earned.
proof fn lemma_book_cancel(s: ContractState, t: ContractState, b: Stream, now: u64, paid: int)
    requires
        s.wf(),
        booked(s),
        s.clock_ok(now) || now >= b.end_time,
        s.streams.dom().contains(b.stream_id),
        ({
            let a = s.streams[b.stream_id];
            &&& a.spec_running()
            &&& 0 <= paid <= a.spec_outstanding(now)
            &&& b == (Stream {
                withdrawn_amount: (a.withdrawn_amount + paid) as i128,
                ..a.cancelled(now)
            })
            &&& t.total_liabilities == s.total_liabilities - a.spec_unearned(now) - paid
        }),
        t.streams == s.streams.insert(b.stream_id, b),
        clock(s) <= clock(t),
    ensures
        booked(t),
{
    let a = s.streams[b.stream_id];
    crate::registry::lemma_stored_stream(s, b.stream_id);
    crate::laws::accrual::law_accrued_bounded(a, now as int);
    assert(fair(a, clock(s)));
    if s.clock_ok(now) {
        crate::laws::accrual::law_accrued_monotone(a, clock(s), now as int);
    } else {
        crate::laws::accrual::law_nothing_after_end(a, now as int);
        crate::laws::accrual::law_nothing_after_end(a, clock(s));
    }
    assert(b.spec_checkpoint() == a.spec_checkpoint());
    lemma_book_update(s, t, b);
}

pub proof fn lemma_book_cancels(s: ContractState, now: u64, sender: Address, ids: Seq<u64>, n: int)
    requires
        s.wf(),
        booked(s),
        s.clock_ok(now),
        0 <= n <= ids.len(),
        crate::batch::distinct(ids),
        forall|i: int|
            0 <= i < ids.len() ==> s.bulk_cancel_item_error(sender, #[trigger] ids[i]) is None,
    ensures
        booked(s.bulk_cancel_all(now, ids, n)),
        s.bulk_cancel_all(now, ids, n).last_accrual_timestamp == s.last_accrual_timestamp,
    decreases n,
{
    if n > 0 {
        lemma_book_cancels(s, now, sender, ids, n - 1);
        crate::laws::counts::lemma_cancel_runs(s, now, sender, ids, n);
        crate::laws::counts::lemma_cancel_runs(s, now, sender, ids, n - 1);
        let id = ids[n - 1];
        let before = s.bulk_cancel_all(now, ids, n - 1);
        assert(before.streams.dom().contains(id) && before.streams[id] == s.streams[id]);
        crate::registry::lemma_stored_stream(before, id);
        crate::laws::accrual::law_accrued_bounded(s.streams[id], now as int);
        assert(s.bulk_cancel_item_error(sender, id) is None);
        lemma_owed(before);
        lemma_book_cancel(
            before,
            s.bulk_cancel_all(now, ids, n),
            crate::laws::counts::bulk_cancelled(s.streams[id], now),
            now,
            s.streams[id].spec_outstanding(now),
        );
    }
}

/// A running stream that is changed at `now` and keeps what it earned by then.
proof fn lemma_book_change(s: ContractState, t: ContractState, b: Stream, now: u64)
    requires
        s.wf(),
        booked(s),
        s.clock_ok(now),
        s.streams.dom().contains(b.stream_id),
        ({
            let a = s.streams[b.stream_id];
            &&& a.spec_running()
            &&& b.status == a.status
            &&& b.is_pooled == a.is_pooled
            &&& b.withdrawn_amount == a.withdrawn_amount
            &&& b.spec_accrued_at(now as int) >= a.spec_accrued_at(now as int)
            &&& t.total_liabilities == s.total_liabilities + b.deposit_amount - a.deposit_amount
        }),
        t.streams == s.streams.insert(b.stream_id, b),
        clock(t) == now,
    ensures
        booked(t),
{
    let a = s.streams[b.stream_id];
    crate::registry::lemma_stored_stream(s, b.stream_id);
    assert(fair(a, clock(s)));
    crate::laws::accrual::law_accrued_monotone(a, clock(s), now as int);
    lemma_book_update(s, t, b);
}

proof fn lemma_book_delegate(
    s: ContractState,
    call: Call,
    id: u64,
    recipient: Address,
    share_bps: u32,
    new_recipient: Address,
)
    requires
        s.wf(),
        booked(s),
        s.next_stream_id < u64::MAX,
        s.delegate_error(call, id, recipient, share_bps, new_recipient) is None,
    ensures
        booked(s.delegate_step(call, id, share_bps, new_recipient)),
{
    let t = s.delegate_step(call, id, share_bps, new_recipient);
    let now = call.timestamp;
    let a = s.streams[id];
    crate::registry::lemma_stored_stream(s, id);
    crate::registry::lemma_take_id(s, a.sender);
    let child_id = s.fresh_id(a.sender);
    let rate = (a.rate_per_second - a.spec_child_rate(share_bps)) as i128;
    crate::laws::accrual::law_rate_decrease_safe(a, now, rate);
    let b = a.slowed(now, rate);
    let child = a.child(child_id, now, share_bps, new_recipient);
    crate::laws::accrual::law_accrued_bounded(a, now as int);
    let given = a.deposit_amount - b.deposit_amount;
    lemma_owed(s);
    assert(fair(a, clock(s)));
    crate::laws::accrual::law_accrued_monotone(a, clock(s), now as int);
    crate::laws::totals::lemma_store(s.streams, worth(), id, b);
    let mid = s.streams.insert(id, b);
    crate::laws::totals::lemma_store(mid, worth(), child_id, child);
    crate::laws::accrual::law_accrued_bounded(child, now as int);
    assert(t.streams == mid.insert(child_id, child));
    assert forall|x: u64| #[trigger] t.streams.dom().contains(x) implies fair(
        t.streams[x],
        clock(t),
    ) by {
        if x != id && x != child_id {
            assert(s.streams.dom().contains(x));
            crate::registry::lemma_stored_stream(s, x);
            lemma_fair_later(s.streams[x], clock(s), clock(t));
        }
    }
}

/// New streams are booked with their deposits.
#[verifier::rlimit(50)]
#[verifier::spinoff_prover]
proof fn lemma_booked_by_creation(s: ContractState, call: Call, request: Request)
    requires
        s.wf(),
        fits(s, call, request),
        regular(s, call, request),
        booked(s),
        s.refusal(call, request) is None,
        match request {
            Request::CreateStream { .. } => true,
            Request::CreateStreamRelative { .. } => true,
            Request::CreateStreams { .. } => true,
            Request::CreateStreamsRelative { .. } => true,
            Request::CreateStreamsPartial { .. } => true,
            Request::Delegate { .. } => true,
            Request::Renew { .. } => true,
            Request::CloneStream { .. } => true,
            Request::AcceptOffer { .. } => true,
            Request::CreateOffer { .. } => true,
            _ => false,
        },
    ensures
        booked(s.effect_of(call, request)),
{
    let t = s.effect_of(call, request);
    match request {
        Request::CreateStream { sender, params } => {
            assert(booked(t)) by {
                let paid = s.pull(sender, params.deposit_amount);
                lemma_book_same(s, paid);
                lemma_book_register(paid, sender, params);
            }
        },
        Request::CreateStreamRelative { sender, relative } => {
            assert(booked(t)) by {
                let params = relative.dated(call.timestamp);
                let paid = s.pull(sender, params.deposit_amount);
                lemma_book_same(s, paid);
                lemma_book_register(paid, sender, params);
            }
        },
        Request::CreateStreams { sender, batch } => {
            assert(booked(t)) by {
                lemma_book_create_all(s, call, sender, batch);
            }
        },
        Request::CreateStreamsRelative { sender, relative_batch } => {
            assert(booked(t)) by {
                if relative_batch.len() > 0 {
                    let batch = crate::creation::dated_batch(relative_batch, call.timestamp);
                    lemma_book_create_all(s, call, sender, batch);
                }
            }
        },
        Request::CreateStreamsPartial { sender, batch, transfers } => {
            assert(booked(t)) by {
                lemma_book_partial(s, sender, call.timestamp, batch, transfers, batch.len() as int);
            }
        },
        Request::Delegate { id: x, recipient, share_bps, new_recipient } => {
            assert(booked(t)) by {
                lemma_book_delegate(s, call, x, recipient, share_bps, new_recipient);
            }
        },
        Request::Renew { id: x, balance, allowance } => {
            assert(booked(t)) by {
                crate::registry::lemma_stored_stream(s, x);
                let sender = s.streams[x].sender;
                let params = s.streams[x].renewal(call.timestamp);
                let paid = s.observe(call.timestamp).with_renewal(x, false).pull(
                    sender,
                    s.streams[x].deposit_amount,
                );
                lemma_book_same(s, paid);
                lemma_book_register(paid, sender, params);
            }
        },
        Request::CloneStream { id: x, new_recipient, start_time, end_time, deposit, force } => {
            assert(booked(t)) by {
                crate::registry::lemma_stored_stream(s, x);
                let sender = s.streams[x].sender;
                let params = s.streams[x].clone_params(new_recipient, start_time, end_time, deposit);
                let paid = s.pull(sender, deposit);
                lemma_book_same(s, paid);
                lemma_book_register(paid, sender, params);
            }
        },
        Request::AcceptOffer { recipient, id: x } => {
            assert(booked(t)) by {
                crate::registry::lemma_stored_offer(s, x);
                lemma_owed(s);
                lemma_book_new(s, t, t.streams[x]);
            }
        },
        Request::CreateOffer { .. } => {
            assert(booked(t)) by {
                lemma_book_same(s, t);
            }
        },
        _ => {},
    }
}

/// Payouts are taken off the books.
#[verifier::rlimit(50)]
#[verifier::spinoff_prover]
proof fn lemma_booked_by_withdrawal(s: ContractState, call: Call, request: Request)
    requires
        s.wf(),
        fits(s, call, request),
        regular(s, call, request),
        booked(s),
        s.refusal(call, request) is None,
        match request {
            Request::Withdraw { .. } => true,
            Request::WithdrawTo { .. } => true,
            Request::WithdrawFromPool { .. } => true,
            Request::BatchWithdraw { .. } => true,
            Request::DelegatedWithdraw { .. } => true,
            Request::TriggerAutoClaim { .. } => true,
            _ => false,
        },
    ensures
        booked(s.effect_of(call, request)),
{
    let t = s.effect_of(call, request);
    match request {
        Request::Withdraw { id: x, .. } => {
            assert(booked(t)) by {
                crate::registry::lemma_stored_stream(s, x);
                let amount = s.payout_of(call, x);
                crate::laws::payments::law_payout_bounded(
                    s.streams[x],
                    s.lookback_of(x),
                    call.timestamp,
                    call.balance,
                );
                crate::laws::payments::law_earned_bounded(s.streams[x], call.timestamp);
                if amount > 0 {
                    lemma_book_payout(s, t, t.streams[x], call.timestamp, amount);
                } else {
                    lemma_book_same(s, t);
                }
            }
        },
        Request::WithdrawTo { id: x, .. } => {
            assert(booked(t)) by {
                crate::registry::lemma_stored_stream(s, x);
                let amount = s.payout_of(call, x);
                crate::laws::payments::law_payout_bounded(
                    s.streams[x],
                    s.lookback_of(x),
                    call.timestamp,
                    call.balance,
                );
                crate::laws::payments::law_earned_bounded(s.streams[x], call.timestamp);
                if amount > 0 {
                    lemma_book_payout(s, t, t.streams[x], call.timestamp, amount);
                } else {
                    lemma_book_same(s, t);
                }
            }
        },
        Request::WithdrawFromPool { id: x, who } => {
            assert(booked(t)) by {
                assert(fair(s.streams[x], clock(s)));
            }
        },
        Request::BatchWithdraw { who, withdrawals } => {
            assert(booked(t)) by {
                let ids = crate::batch::targets(withdrawals);
                crate::laws::streams::lemma_items_ok(s, call, who, ids, ids.len() as int);
                lemma_book_batch(s, call, who, ids, ids.len() as int);
            }
        },
        Request::DelegatedWithdraw { request: r } => {
            assert(booked(t)) by {
                crate::registry::lemma_stored_stream(s, r.stream_id);
                let amount = s.delegated_gross(call, r.stream_id);
                crate::laws::payments::law_payable_bounded(
                    s.streams[r.stream_id],
                    s.lookback_of(r.stream_id),
                    call.timestamp,
                    call.balance,
                );
                crate::laws::payments::law_earned_bounded(s.streams[r.stream_id], call.timestamp);
                if amount > 0 {
                    lemma_book_payout(s, t, t.streams[r.stream_id], call.timestamp, amount);
                } else {
                    lemma_book_same(s, t);
                }
            }
        },
        Request::TriggerAutoClaim { id: x, .. } => {
            assert(booked(t)) by {
                crate::laws::streams::lemma_auto_claim(s, call, x);
                let amount = s.auto_claim_amount(call, x);
                if amount > 0 {
                    lemma_book_payout(s, t, t.streams[x], call.timestamp, amount);
                } else {
                    lemma_book_same(s, t);
                }
            }
        },
        _ => {},
    }
}

/// Refunds are taken off the books.
#[verifier::rlimit(50)]
#[verifier::spinoff_prover]
proof fn lemma_booked_by_change(s: ContractState, call: Call, request: Request)
    requires
        s.wf(),
        fits(s, call, request),
        regular(s, call, request),
        booked(s),
        s.refusal(call, request) is None,
        match request {
            Request::PauseStream { .. } => true,
            Request::ResumeStream { .. } => true,
            Request::PauseStreamAsAdmin { .. } => true,
            Request::ResumeStreamAsAdmin { .. } => true,
            Request::CancelStream { .. } => true,
            Request::CancelStreamAsAdmin { .. } => true,
            Request::WitnessedCancel { .. } => true,
            Request::KeeperCancel { .. } => true,
            Request::UpdateRatePerSecond { .. } => true,
            Request::DecreaseRate { .. } => true,
            Request::UpdateRate { .. } => true,
            Request::Shorten { .. } => true,
            Request::Extend { .. } => true,
            Request::TopUp { .. } => true,
            Request::AcceptRecipient { .. } => true,
            Request::TransferClaim { .. } => true,
            Request::BulkResume { .. } => true,
            Request::BulkCancel { .. } => true,
            _ => false,
        },
    ensures
        booked(s.effect_of(call, request)),
{
    let t = s.effect_of(call, request);
    match request {
        Request::PauseStream { id: x, .. } => {
            assert(booked(t)) by {
                crate::registry::lemma_stored_stream(s, x);
                assert(t.streams[x].spec_checkpoint() == s.streams[x].spec_checkpoint());
                assert(fair(s.streams[x], clock(s)));
                lemma_fair_later(s.streams[x], clock(s), clock(t));
                lemma_book_update(s, t, t.streams[x]);
            }
        },
        Request::ResumeStream { id: x, .. } => {
            assert(booked(t)) by {
                crate::registry::lemma_stored_stream(s, x);
                assert(t.streams[x].spec_checkpoint() == s.streams[x].spec_checkpoint());
                assert(fair(s.streams[x], clock(s)));
                lemma_fair_later(s.streams[x], clock(s), clock(t));
                lemma_book_update(s, t, t.streams[x]);
            }
        },
        Request::PauseStreamAsAdmin { id: x, .. } => {
            assert(booked(t)) by {
                crate::registry::lemma_stored_stream(s, x);
                assert(t.streams[x].spec_checkpoint() == s.streams[x].spec_checkpoint());
                assert(fair(s.streams[x], clock(s)));
                lemma_fair_later(s.streams[x], clock(s), clock(t));
                lemma_book_update(s, t, t.streams[x]);
            }
        },
        Request::ResumeStreamAsAdmin { id: x, .. } => {
            assert(booked(t)) by {
                crate::registry::lemma_stored_stream(s, x);
                assert(t.streams[x].spec_checkpoint() == s.streams[x].spec_checkpoint());
                assert(fair(s.streams[x], clock(s)));
                lemma_fair_later(s.streams[x], clock(s), clock(t));
                lemma_book_update(s, t, t.streams[x]);
            }
        },
        Request::CancelStream { id: x, .. } => {
            assert(booked(t)) by {
                crate::registry::lemma_stored_stream(s, x);
                crate::laws::accrual::law_accrued_bounded(s.streams[x], call.timestamp as int);
                lemma_owed(s);
                lemma_book_cancel(s, t, t.streams[x], call.timestamp, 0);
            }
        },
        Request::CancelStreamAsAdmin { id: x, .. } => {
            assert(booked(t)) by {
                crate::registry::lemma_stored_stream(s, x);
                crate::laws::accrual::law_accrued_bounded(s.streams[x], call.timestamp as int);
                lemma_owed(s);
                lemma_book_cancel(s, t, t.streams[x], call.timestamp, 0);
            }
        },
        Request::WitnessedCancel { id: x, .. } => {
            assert(booked(t)) by {
                crate::registry::lemma_stored_stream(s, x);
                crate::laws::accrual::law_accrued_bounded(s.streams[x], call.timestamp as int);
                lemma_owed(s);
                lemma_book_cancel(s, t, t.streams[x], call.timestamp, 0);
            }
        },
        Request::KeeperCancel { id: x, .. } => {
            assert(booked(t)) by {
                crate::registry::lemma_stored_stream(s, x);
                crate::laws::accrual::law_accrued_bounded(s.streams[x], call.timestamp as int);
                lemma_owed(s);
                lemma_book_cancel(
                    s,
                    t,
                    t.streams[x],
                    call.timestamp,
                    s.streams[x].spec_outstanding(call.timestamp),
                );
            }
        },
        Request::UpdateRatePerSecond { id: x, rate } => {
            assert(booked(t)) by {
                crate::registry::lemma_stored_stream(s, x);
                lemma_owed(s);
                crate::laws::accrual::law_accrued_bounded(s.streams[x], call.timestamp as int);
                crate::laws::accrual::law_rate_change_keeps_accrued(s.streams[x], call.timestamp, rate);
                assert(t.streams[x].spec_checkpoint() == s.streams[x].checkpointed(
                    call.timestamp,
                    rate,
                ).spec_checkpoint());
                lemma_book_change(s, t, t.streams[x], call.timestamp);
            }
        },
        Request::DecreaseRate { id: x, rate } => {
            assert(booked(t)) by {
                crate::registry::lemma_stored_stream(s, x);
                lemma_owed(s);
                crate::laws::accrual::law_accrued_bounded(s.streams[x], call.timestamp as int);
                crate::laws::accrual::law_rate_decrease_safe(s.streams[x], call.timestamp, rate);
                assert(t.streams[x].spec_checkpoint() == s.streams[x].slowed(
                    call.timestamp,
                    rate,
                ).spec_checkpoint());
                lemma_book_change(s, t, t.streams[x], call.timestamp);
            }
        },
        Request::UpdateRate { id: x, .. } => {
            assert(booked(t)) by {
                crate::registry::lemma_stored_stream(s, x);
                lemma_book_update(s, t, t.streams[x]);
            }
        },
        Request::Shorten { id: x, end_time } => {
            assert(booked(t)) by {
                crate::registry::lemma_stored_stream(s, x);
                lemma_owed(s);
                crate::laws::accrual::law_accrued_bounded(s.streams[x], call.timestamp as int);
                crate::laws::accrual::law_shorten_keeps_accrued(s.streams[x], call.timestamp, end_time);
                lemma_book_change(s, t, t.streams[x], call.timestamp);
            }
        },
        Request::Extend { id: x, end_time } => {
            assert(booked(t)) by {
                crate::registry::lemma_stored_stream(s, x);
                lemma_owed(s);
                crate::laws::accrual::law_accrued_bounded(s.streams[x], call.timestamp as int);
                crate::laws::accrual::law_extend_keeps_accrued(
                    s.streams[x],
                    call.timestamp,
                    end_time,
                );
                lemma_book_change(s, t, t.streams[x], call.timestamp);
            }
        },
        Request::TopUp { id: x, funder, amount } => {
            assert(booked(t)) by {
                crate::registry::lemma_stored_stream(s, x);
                lemma_owed(s);
                crate::laws::accrual::law_accrued_bounded(s.streams[x], call.timestamp as int);
                crate::laws::accrual::law_top_up_never_lowers(
                    s.streams[x],
                    amount,
                    call.timestamp as int,
                );
                lemma_book_change(s, t, t.streams[x], call.timestamp);
            }
        },
        Request::AcceptRecipient { id: x, .. } => {
            assert(booked(t)) by {
                crate::registry::lemma_stored_stream(s, x);
                assert(t.streams[x].spec_checkpoint() == s.streams[x].spec_checkpoint());
                assert(fair(s.streams[x], clock(s)));
                lemma_fair_later(s.streams[x], clock(s), clock(t));
                lemma_book_update(s, t, t.streams[x]);
            }
        },
        Request::TransferClaim { id: x, .. } => {
            assert(booked(t)) by {
                crate::registry::lemma_stored_stream(s, x);
                assert(t.streams[x].spec_checkpoint() == s.streams[x].spec_checkpoint());
                assert(fair(s.streams[x], clock(s)));
                lemma_fair_later(s.streams[x], clock(s), clock(t));
                lemma_book_update(s, t, t.streams[x]);
            }
        },
        Request::BulkResume { ids } => {
            assert(booked(t)) by {
                crate::laws::streams::lemma_resumes_ok(s, call, ids, ids.len() as int);
                lemma_book_resumes(s, call, ids, ids.len() as int);
            }
        },
        Request::BulkCancel { sender, ids } => {
            assert(booked(t)) by {
                crate::laws::streams::lemma_cancels_ok(s, sender, ids, ids.len() as int);
                lemma_book_cancels(s, call.timestamp, sender, ids, ids.len() as int);
            }
        },
        _ => {},
    }
}

/// Everything else leaves the books alone.
#[verifier::rlimit(50)]
#[verifier::spinoff_prover]
proof fn lemma_booked_otherwise(s: ContractState, call: Call, request: Request)
    requires
        s.wf(),
        fits(s, call, request),
        regular(s, call, request),
        booked(s),
        s.refusal(call, request) is None,
        match request {
            Request::CreatePooledStream { .. } => true,
            Request::CalculateAccrued { .. } => true,
            Request::GetWithdrawable { .. } => true,
            Request::GetAutoClaimStatus { .. } => true,
            Request::SetAutoRenew { .. } => true,
            Request::CloseCompleted { .. } => true,
            Request::CloseCancelled { .. } => true,
            Request::SetLookback { .. } => true,
            Request::RegisterTemplate { .. } => true,
            Request::DeleteTemplate { .. } => true,
            Request::UpdateRecipient { .. } => true,
            Request::CancelRecipient { .. } => true,
            Request::SetAutoClaim { .. } => true,
            Request::RevokeAutoClaim { .. } => true,
            Request::RejectOffer { .. } => true,
            Request::CancelOffer { .. } => true,
            Request::ReserveIds { .. } => true,
            Request::ReleaseIds { .. } => true,
            Request::ReclaimIds { .. } => true,
            Request::SetAdmin { .. } => true,
            Request::SetMaxRate { .. } => true,
            Request::SetEmergencyPaused { .. } => true,
            Request::GlobalResume => true,
            Request::SetContractPaused { .. } => true,
            Request::PauseProtocol { .. } => true,
            Request::ResumeProtocol { .. } => true,
            Request::Sweep { .. } => true,
            Request::Upgrade { .. } => true,
            _ => false,
        },
    ensures
        booked(s.effect_of(call, request)),
{
    let t = s.effect_of(call, request);
    match request {
        Request::CreatePooledStream { .. } => {
            assert(booked(t));
        },
        Request::CalculateAccrued { .. } => {
            assert(booked(t)) by {
                lemma_book_same(s, t);
            }
        },
        Request::GetWithdrawable { .. } => {
            assert(booked(t)) by {
                lemma_book_same(s, t);
            }
        },
        Request::GetAutoClaimStatus { .. } => {
            assert(booked(t)) by {
                lemma_book_same(s, t);
            }
        },
        Request::SetAutoRenew { .. } => {
            assert(booked(t)) by {
                lemma_book_same(s, t);
            }
        },
        Request::CloseCompleted { id: x, .. } => {
            assert(booked(t)) by {
                crate::laws::totals::lemma_take_out(s.streams, worth(), x);
                assert(fair(s.streams[x], clock(s)));
            }
        },
        Request::CloseCancelled { id: x, .. } => {
            assert(booked(t)) by {
                crate::laws::totals::lemma_take_out(s.streams, worth(), x);
                assert(fair(s.streams[x], clock(s)));
            }
        },
        Request::SetLookback { .. } => {
            assert(booked(t)) by {
                lemma_book_same(s, t);
            }
        },
        Request::RegisterTemplate { .. } => {
            assert(booked(t)) by {
                lemma_book_same(s, t);
            }
        },
        Request::DeleteTemplate { .. } => {
            assert(booked(t)) by {
                lemma_book_same(s, t);
            }
        },
        Request::UpdateRecipient { .. } => {
            assert(booked(t)) by {
                lemma_book_same(s, t);
            }
        },
        Request::CancelRecipient { .. } => {
            assert(booked(t)) by {
                lemma_book_same(s, t);
            }
        },
        Request::SetAutoClaim { .. } => {
            assert(booked(t)) by {
                lemma_book_same(s, t);
            }
        },
        Request::RevokeAutoClaim { .. } => {
            assert(booked(t)) by {
                lemma_book_same(s, t);
            }
        },
        Request::RejectOffer { .. } => {
            assert(booked(t)) by {
                lemma_book_same(s, t);
            }
        },
        Request::CancelOffer { .. } => {
            assert(booked(t)) by {
                lemma_book_same(s, t);
            }
        },
        Request::ReserveIds { .. } => {
            assert(booked(t)) by {
                lemma_book_same(s, t);
            }
        },
        Request::ReleaseIds { .. } => {
            assert(booked(t)) by {
                lemma_book_same(s, t);
            }
        },
        Request::ReclaimIds { .. } => {
            assert(booked(t)) by {
                lemma_book_same(s, t);
            }
        },
        Request::SetAdmin { .. } => {
            assert(booked(t)) by {
                lemma_book_same(s, t);
            }
        },
        Request::SetMaxRate { .. } => {
            assert(booked(t)) by {
                lemma_book_same(s, t);
            }
        },
        Request::SetEmergencyPaused { .. } => {
            assert(booked(t)) by {
                lemma_book_same(s, t);
            }
        },
        Request::GlobalResume => {
            assert(booked(t)) by {
                lemma_book_same(s, t);
            }
        },
        Request::SetContractPaused { .. } => {
            assert(booked(t)) by {
                lemma_book_same(s, t);
            }
        },
        Request::PauseProtocol { .. } => {
            assert(booked(t)) by {
                lemma_book_same(s, t);
            }
        },
        Request::ResumeProtocol { .. } => {
            assert(booked(t)) by {
                lemma_book_same(s, t);
            }
        },
        Request::Sweep { .. } => {
            assert(booked(t)) by {
                lemma_book_same(s, t);
            }
        },
        Request::Upgrade { .. } => {
            assert(booked(t)) by {
                lemma_book_same(s, t);
            }
        },
        _ => {},
    }
}

/// A contract that holds no streams owes nothing.
pub proof fn law_nothing_owed_at_first()
    ensures
        booked(ContractState::blank()),
{
}

/// Initialisation puts the books in order, at nothing owed.
pub proof fn law_initialised_books(
    s: ContractState,
    call: Call,
    token: Address,
    admin: Address,
    token_verified: bool,
)
    requires
        s.wf(),
        s.init_error(call, admin, token_verified) is None,
    ensures
        booked(s.init_step(token, admin)),
{
    reveal(crate::state::nothing_stored);
    assert(s.streams.dom() =~= Set::empty());
}

/// A delegated withdrawal lowers what the contract keeps as owed by exactly what
/// leaves the stream.
pub proof fn law_delegated_withdrawal_settles(
    s: ContractState,
    call: Call,
    request: DelegatedWithdrawal,
)
    requires
        s.wf(),
        booked(s),
        s.delegated_withdraw_error(call, request) is None,
    ensures
        s.delegated_withdraw_step(call, request).total_liabilities == s.total_liabilities
            - s.delegated_gross(call, request.stream_id),
{
    let id = request.stream_id;
    crate::registry::lemma_stored_stream(s, id);
    crate::laws::payments::law_payable_bounded(
        s.streams[id],
        s.lookback_of(id),
        call.timestamp,
        call.balance,
    );
    crate::laws::payments::law_earned_bounded(s.streams[id], call.timestamp);
    lemma_owed(s);
    assert(fair(s.streams[id], clock(s)));
}

/// Whatever is asked of an initialised contract, what it keeps as owed stays
/// the sum of what its streams owe.
pub proof fn law_books_match_streams(s: ContractState, call: Call, request: Request)
    requires
        s.wf(),
        fits(s, call, request),
        regular(s, call, request),
        booked(s),
        request !is Init,
    ensures
        booked(s.after(call, request)),
{
    if s.refusal(call, request) is None {
        match request {
            Request::CreateStream { .. }
            | Request::CreateStreamRelative { .. }
            | Request::CreateStreams { .. }
            | Request::CreateStreamsRelative { .. }
            | Request::CreateStreamsPartial { .. }
            | Request::Delegate { .. }
            | Request::Renew { .. }
            | Request::CloneStream { .. }
            | Request::AcceptOffer { .. }
            | Request::CreateOffer { .. } => {
                lemma_booked_by_creation(s, call, request);
            },
            Request::Withdraw { .. }
            | Request::WithdrawTo { .. }
            | Request::WithdrawFromPool { .. }
            | Request::BatchWithdraw { .. }
            | Request::DelegatedWithdraw { .. }
            | Request::TriggerAutoClaim { .. } => {
                lemma_booked_by_withdrawal(s, call, request);
            },
            Request::PauseStream { .. }
            | Request::ResumeStream { .. }
            | Request::PauseStreamAsAdmin { .. }
            | Request::ResumeStreamAsAdmin { .. }
            | Request::CancelStream { .. }
            | Request::CancelStreamAsAdmin { .. }
            | Request::WitnessedCancel { .. }
            | Request::KeeperCancel { .. }
            | Request::UpdateRatePerSecond { .. }
            | Request::DecreaseRate { .. }
            | Request::UpdateRate { .. }
            | Request::Shorten { .. }
            | Request::Extend { .. }
            | Request::TopUp { .. }
            | Request::AcceptRecipient { .. }
            | Request::TransferClaim { .. }
            | Request::BulkResume { .. }
            | Request::BulkCancel { .. } => {
                lemma_booked_by_change(s, call, request);
            },
            Request::CreatePooledStream { .. }
            | Request::CalculateAccrued { .. }
            | Request::GetWithdrawable { .. }
            | Request::GetAutoClaimStatus { .. }
            | Request::SetAutoRenew { .. }
            | Request::CloseCompleted { .. }
            | Request::CloseCancelled { .. }
            | Request::SetLookback { .. }
            | Request::RegisterTemplate { .. }
            | Request::DeleteTemplate { .. }
            | Request::UpdateRecipient { .. }
            | Request::CancelRecipient { .. }
            | Request::SetAutoClaim { .. }
            | Request::RevokeAutoClaim { .. }
            | Request::RejectOffer { .. }
            | Request::CancelOffer { .. }
            | Request::ReserveIds { .. }
            | Request::ReleaseIds { .. }
            | Request::ReclaimIds { .. }
            | Request::SetAdmin { .. }
            | Request::SetMaxRate { .. }
            | Request::SetEmergencyPaused { .. }
            | Request::GlobalResume
            | Request::SetContractPaused { .. }
            | Request::PauseProtocol { .. }
            | Request::ResumeProtocol { .. }
            | Request::Sweep { .. }
            | Request::Upgrade { .. } => {
                lemma_booked_otherwise(s, call, request);
            },
            Request::Init { .. } => {},
        }
    }
}

} // verus!
