//! What holds of earnings.

use crate::types::{Address, Stream, StreamKind, StreamStatus};
use vstd::prelude::*;

verus! {

/// What has been earned is never negative and never more than the deposit.
pub proof fn law_accrued_bounded(stream: Stream, t: int)
    requires
        stream.sound(),
    ensures
        0 <= stream.spec_accrued_at(t) <= stream.deposit_amount,
{
    let state = stream.spec_checkpoint();
    lemma_times(stream.rate_per_second as int, state.elapsed(t));
}

/// A rate times seconds is not negative.
proof fn lemma_times(rate: int, seconds: int)
    requires
        rate >= 0,
        seconds >= 0,
    ensures
        rate * seconds >= 0,
{
    assert(rate * seconds >= 0) by (nonlinear_arith)
        requires
            rate >= 0,
            seconds >= 0,
    ;
}

/// More seconds at the same rate earn no less.
proof fn lemma_more_seconds(rate: int, a: int, b: int)
    requires
        rate >= 0,
        a <= b,
    ensures
        rate * a <= rate * b,
{
    assert(rate * a <= rate * b) by (nonlinear_arith)
        requires
            rate >= 0,
            a <= b,
    ;
}

/// The same seconds at a higher rate earn no less.
proof fn lemma_higher_rate(a: int, b: int, seconds: int)
    requires
        seconds >= 0,
        a <= b,
    ensures
        a * seconds <= b * seconds,
{
    assert(a * seconds <= b * seconds) by (nonlinear_arith)
        requires
            seconds >= 0,
            a <= b,
    ;
}

/// Earnings never shrink as time passes.
pub proof fn law_accrued_monotone(stream: Stream, t1: int, t2: int)
    requires
        stream.sound(),
        t1 <= t2,
    ensures
        stream.spec_accrued_at(t1) <= stream.spec_accrued_at(t2),
{
    let state = stream.spec_checkpoint();
    law_accrued_bounded(stream, t2);
    lemma_more_seconds(stream.rate_per_second as int, state.elapsed(t1), state.elapsed(t2));
}

/// Nothing is earned before the cliff.
pub proof fn law_nothing_before_cliff(stream: Stream, t: int)
    requires
        t < stream.cliff_time,
    ensures
        stream.spec_accrued_at(t) == 0,
{
}

/// Nothing is earned after the end.
pub proof fn law_nothing_after_end(stream: Stream, t: int)
    requires
        stream.sound(),
        t >= stream.end_time,
    ensures
        stream.spec_accrued_at(t) == stream.spec_accrued_at(stream.end_time as int),
{
}

/// A linear stream whose rate never changed has earned, from the cliff on,
/// the rate for every second since its start, up to the deposit.
pub proof fn law_linear_formula(stream: Stream, t: int)
    requires
        stream.sound(),
        stream.kind == StreamKind::Linear,
        stream.checkpointed_amount == 0,
        stream.checkpointed_at == stream.start_time,
        stream.cliff_time <= t,
    ensures
        ({
            let last = if t < stream.end_time {
                t
            } else {
                stream.end_time as int
            };
            let streamed = (last - stream.start_time) * stream.rate_per_second;
            stream.spec_accrued_at(t) == if streamed < stream.deposit_amount {
                streamed
            } else {
                stream.deposit_amount as int
            }
        }),
{
    let last = if t < stream.end_time {
        t
    } else {
        stream.end_time as int
    };
    assert((last - stream.start_time) * stream.rate_per_second == stream.rate_per_second * (last
        - stream.start_time)) by (nonlinear_arith);
}

/// A stream with a slope after its cliff earns the rate for every second since
/// the cliff.
pub proof fn law_slope_formula(stream: Stream, t: int)
    requires
        stream.sound(),
        stream.kind == StreamKind::CliffSlope,
        stream.checkpointed_amount == 0,
        stream.checkpointed_at == stream.start_time,
        stream.cliff_time <= t <= stream.end_time,
    ensures
        ({
            let streamed = stream.rate_per_second * (t - stream.cliff_time);
            stream.spec_accrued_at(t) == if streamed < stream.deposit_amount {
                streamed
            } else {
                stream.deposit_amount as int
            }
        }),
{
}

/// A cliff-only stream releases its whole deposit at the cliff.
pub proof fn law_cliff_only_formula(stream: Stream, t: int)
    requires
        stream.kind == StreamKind::CliffOnly,
    ensures
        stream.spec_accrued_at(t) == if t < stream.cliff_time {
            0
        } else {
            stream.deposit_amount as int
        },
{
}

/// Pausing and resuming do not touch what is earned.
pub proof fn law_pause_keeps_accrual(stream: Stream, status: StreamStatus, sequence: u32, t: int)
    ensures
        stream.toggled(status, sequence).spec_accrued_at(t) == stream.spec_accrued_at(t),
{
}

/// What a stream has built up is what it has earned, from the cliff on.
pub proof fn law_cliff_releases_all(stream: Stream, t: int)
    requires
        stream.kind == StreamKind::Linear,
    ensures
        stream.spec_accrued_at(t) == if t < stream.cliff_time {
            0
        } else {
            stream.spec_built_up(t)
        },
{
}

proof fn lemma_built_up(stream: Stream, t: int)
    requires
        stream.sound(),
    ensures
        0 <= stream.spec_built_up(t) <= stream.deposit_amount,
{
    law_accrued_bounded((Stream { start_time: 0, cliff_time: 0, ..stream }), t);
}

/// A change of rate leaves what was earned by then as it was.
pub proof fn law_rate_change_keeps_accrued(stream: Stream, now: u64, rate: i128)
    requires
        stream.sound(),
        stream.kind == StreamKind::Linear,
    ensures
        stream.checkpointed(now, rate).spec_accrued_at(now as int) == stream.spec_accrued_at(
            now as int,
        ),
{
    lemma_built_up(stream, now as int);
    assert(rate * 0 == 0) by (nonlinear_arith);
}

/// A higher rate never lowers what is earned at any time, be it before or after
/// the cliff that the rate is raised, and never earns more than the deposit.
pub proof fn law_rate_increase_never_lowers(stream: Stream, now: u64, rate: i128, t: int)
    requires
        stream.sound(),
        stream.kind == StreamKind::Linear,
        stream.rate_per_second <= rate,
    ensures
        stream.spec_accrued_at(t) <= stream.checkpointed(now, rate).spec_accrued_at(t)
            <= stream.deposit_amount,
{
    lemma_built_up(stream, now as int);
    let before = stream.spec_checkpoint();
    let after = stream.checkpointed(now, rate).spec_checkpoint();
    let old_rate = stream.rate_per_second as int;
    let e0 = before.elapsed(now as int);
    let e1 = before.elapsed(t);
    let e2 = after.elapsed(t);
    assert(e1 <= e0 + e2);
    assert(old_rate * e1 <= old_rate * (e0 + e2)) by {
        lemma_more_seconds(old_rate, e1, e0 + e2);
    }
    assert(old_rate * (e0 + e2) == old_rate * e0 + old_rate * e2) by (nonlinear_arith);
    lemma_higher_rate(old_rate, rate as int, e2);
    lemma_times(rate as int, e2);
    assert((crate::accrual::CheckpointState { cliff_time: 0, ..before }).elapsed(now as int) == e0);
}

/// After a safe decrease of the rate, what was earned stays earned, what had
/// built up by then is earned at the cliff at the latest, all that can still be earned is covered by the deposit that is left, to the last
/// unit, and the rest is exactly the refund.
pub proof fn law_rate_decrease_safe(stream: Stream, now: u64, rate: i128)
    requires
        stream.sound(),
        stream.kind == StreamKind::Linear,
        0 < rate < stream.rate_per_second,
        now < stream.end_time,
        stream.spec_payable_at_rate(now, rate as int) <= stream.deposit_amount,
    ensures
        ({
            let after = stream.slowed(now, rate);
            &&& after.sound()
            &&& after.spec_accrued_at(now as int) == stream.spec_accrued_at(now as int)
            &&& forall|t: int|
                #![trigger after.spec_accrued_at(t)]
                now <= t ==> after.spec_accrued_at(t) >= stream.spec_accrued_at(now as int)
            &&& forall|t: int|
                #![trigger after.spec_accrued_at(t)]
                now <= t && stream.cliff_time <= t ==> after.spec_accrued_at(t)
                    >= stream.spec_built_up(now as int)
            &&& after.spec_accrued_at(after.end_time as int) == after.deposit_amount
            &&& after.deposit_amount <= stream.deposit_amount
        }),
{
    let after = stream.slowed(now, rate);
    let remaining = stream.end_time - now;
    lemma_built_up(stream, now as int);
    law_accrued_bounded(stream, now as int);
    lemma_times(rate as int, remaining);
    assert(rate * 0 == 0) by (nonlinear_arith);
    assert(after.sound());
    assert forall|t: int| #![trigger after.spec_accrued_at(t)] now <= t implies
        after.spec_accrued_at(t) >= stream.spec_accrued_at(now as int) by {
        law_accrued_monotone(after, now as int, t);
    }
    assert forall|t: int|
        #![trigger after.spec_accrued_at(t)]
        now <= t && stream.cliff_time <= t implies after.spec_accrued_at(t)
        >= stream.spec_built_up(now as int) by {
        lemma_times(rate as int, after.spec_checkpoint().elapsed(t));
    }
    assert(after.spec_checkpoint().elapsed(after.end_time as int) == remaining);
}

/// An earlier end, still to come, leaves what was earned by now as it was.
pub proof fn law_shorten_keeps_accrued(stream: Stream, now: u64, end_time: u64)
    requires
        stream.sound(),
        now < end_time < stream.end_time,
        stream.spec_shortened_deposit(now, end_time) <= stream.deposit_amount,
    ensures
        (Stream {
            end_time,
            deposit_amount: stream.spec_shortened_deposit(now, end_time) as i128,
            ..stream
        }).spec_accrued_at(now as int) == stream.spec_accrued_at(now as int),
{
    law_accrued_bounded(stream, now as int);
}

/// A later end leaves what was earned by now as it was.
pub proof fn law_extend_keeps_accrued(stream: Stream, now: u64, end_time: u64)
    requires
        stream.sound(),
        stream.kind == StreamKind::Linear,
        stream.end_time < end_time,
    ensures
        stream.extended(now, end_time).spec_accrued_at(now as int) == stream.spec_accrued_at(
            now as int,
        ),
{
    lemma_built_up(stream, now as int);
    assert(stream.rate_per_second * 0 == 0) by (nonlinear_arith);
}

/// A later end never lowers what is earned from now on.
pub proof fn law_extend_never_lowers(stream: Stream, now: u64, end_time: u64, t: int)
    requires
        stream.sound(),
        stream.kind == StreamKind::Linear,
        stream.end_time < end_time,
        now <= t,
    ensures
        stream.extended(now, end_time).spec_accrued_at(t) >= stream.spec_accrued_at(t),
{
    let after = stream.extended(now, end_time);
    let rate = stream.rate_per_second as int;
    if now <= stream.end_time {
        lemma_more_seconds(
            rate,
            stream.spec_checkpoint().elapsed(t),
            after.spec_checkpoint().elapsed(t),
        );
    } else {
        lemma_built_up(stream, now as int);
        assert(stream.spec_checkpoint().elapsed(t) == stream.spec_checkpoint().elapsed(
            now as int,
        ));
        lemma_times(rate, after.spec_checkpoint().elapsed(t));
    }
}

/// A larger deposit never lowers what is earned.
pub proof fn law_top_up_never_lowers(stream: Stream, amount: i128, t: int)
    requires
        stream.sound(),
        amount >= 0,
        stream.deposit_amount + amount <= i128::MAX,
    ensures
        (Stream {
            deposit_amount: (stream.deposit_amount + amount) as i128,
            ..stream
        }).spec_accrued_at(t) >= stream.spec_accrued_at(t),
{
}

/// A delegation splits the deposit and the rate of the parent without loss,
/// and leaves what the parent earned as it was. From the cliff on, parent and
/// child together earn what the parent would have earned alone, where its
/// deposit covers its schedule.
pub proof fn law_delegation_conserves(
    stream: Stream,
    child_id: u64,
    now: u64,
    share_bps: u32,
    new_recipient: Address,
    t: int,
)
    requires
        stream.sound(),
        stream.kind == StreamKind::Linear,
        now < stream.end_time,
        stream.checkpointed_at <= now,
        0 < stream.spec_child_rate(share_bps) < stream.rate_per_second,
        stream.spec_payable_at_rate(
            now,
            stream.rate_per_second - stream.spec_child_rate(share_bps),
        ) <= stream.deposit_amount,
    ensures
        ({
            let rate = (stream.rate_per_second - stream.spec_child_rate(share_bps)) as i128;
            let parent = stream.slowed(now, rate);
            let child = stream.child(child_id, now, share_bps, new_recipient);
            &&& parent.deposit_amount + child.deposit_amount == stream.deposit_amount
            &&& parent.rate_per_second + child.rate_per_second == stream.rate_per_second
            &&& parent.spec_accrued_at(now as int) == stream.spec_accrued_at(now as int)
            &&& now <= t && stream.cliff_time <= t && stream.checkpointed_amount
                + stream.rate_per_second * (stream.end_time - stream.checkpointed_at)
                <= stream.deposit_amount ==> parent.spec_accrued_at(t) + child.spec_accrued_at(t)
                == stream.spec_accrued_at(t)
        }),
{
    let child_rate = stream.spec_child_rate(share_bps);
    let rate = (stream.rate_per_second - child_rate) as i128;
    let parent = stream.slowed(now, rate);
    let child = stream.child(child_id, now, share_bps, new_recipient);
    let remaining = stream.end_time - now;
    lemma_built_up(stream, now as int);
    lemma_times(rate as int, remaining);
    assert(rate * 0 == 0) by (nonlinear_arith);
    assert(parent.spec_accrued_at(now as int) == stream.spec_accrued_at(now as int));
    let whole = stream.rate_per_second * (stream.end_time - stream.checkpointed_at);
    if now <= t && stream.cliff_time <= t && stream.checkpointed_amount + whole
        <= stream.deposit_amount {
        let all = stream.rate_per_second as int;
        let before = stream.spec_checkpoint();
        let e0 = before.elapsed(now as int);
        let e1 = before.elapsed(t);
        let e2 = parent.spec_checkpoint().elapsed(t);
        assert(e1 == e0 + e2);
        assert(child.spec_checkpoint().elapsed(t) == e2);
        assert(all * (e0 + e2) == all * e0 + all * e2) by (nonlinear_arith);
        assert(all * e2 == rate * e2 + child_rate * e2) by (nonlinear_arith)
            requires
                all == rate + child_rate,
        ;
        lemma_more_seconds(all, e0, stream.end_time - stream.checkpointed_at);
        lemma_more_seconds(all, e1, stream.end_time - stream.checkpointed_at);
        lemma_more_seconds(rate as int, e2, remaining);
        lemma_more_seconds(child_rate, e2, remaining);
        lemma_times(rate as int, e2);
        lemma_times(child_rate, e2);
        assert(all * (e0 + remaining) == all * e0 + all * remaining) by (nonlinear_arith);
        assert(all * remaining == rate * remaining + child_rate * remaining) by (nonlinear_arith)
            requires
                all == rate + child_rate,
        ;
        assert(e0 + remaining == stream.end_time - stream.checkpointed_at);
    }
}

/// When a stream is cancelled, what was earned and what goes back to the
/// sender make up the deposit, and what was earned stays the same from then
/// on.
pub proof fn law_cancel_splits_deposit(stream: Stream, now: u64, later: u64)
    requires
        stream.sound(),
    ensures
        stream.cancelled(now).spec_earned(later) + stream.spec_unearned(now)
            == stream.deposit_amount,
        stream.cancelled(now).spec_earned(later) == stream.spec_accrued_at(now as int),
        0 <= stream.spec_unearned(now) <= stream.deposit_amount,
{
    law_accrued_bounded(stream, now as int);
}

/// A stream that is cancelled before its cliff goes back to the sender whole.
pub proof fn law_cancel_before_cliff_refunds_all(stream: Stream, now: u64)
    requires
        now < stream.cliff_time,
    ensures
        stream.spec_unearned(now) == stream.deposit_amount,
{
}

/// A lookback window only ever lowers a claim.
pub proof fn law_lookback_only_lowers(
    stream: Stream,
    ledgers: Option<u32>,
    t: u64,
    accrued: int,
    claimable: int,
)
    requires
        stream.sound(),
        claimable >= 0,
    ensures
        0 <= stream.spec_lookback_cap(ledgers, t, accrued, claimable) <= claimable,
{
}

} // verus!
