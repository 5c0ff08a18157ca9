//! What changes to a running stream do to it, and what they pay back.

use crate::events::{
    Effect, Event, RateDecreased, RateUpdated, RecipientShareDelegated, StreamEndExtended,
    StreamEndShortened, StreamToppedUp,
};
use crate::state::{Call, ContractState};
use crate::types::{Address, Stream, StreamKind, StreamStatus};
use vstd::prelude::*;

verus! {

/// What has built up on a linear stream: what an earlier rate left, and the
/// rate times the seconds since, none of which count past the end, within the
/// deposit. The cliff plays no part.
pub proof fn law_built_up_formula(stream: Stream, t: int)
    requires
        stream.kind == StreamKind::Linear,
        t >= 0,
    ensures
        ({
            let last = if t < stream.end_time {
                t
            } else {
                stream.end_time as int
            };
            let seconds = if last < stream.checkpointed_at {
                0
            } else {
                last - stream.checkpointed_at
            };
            let sum = stream.checkpointed_amount + stream.rate_per_second * seconds;
            stream.spec_built_up(t) == if sum < stream.deposit_amount {
                sum
            } else {
                stream.deposit_amount as int
            }
        }),
{
}

/// What has been earned on a stream of any kind: nothing before the cliff; then
/// all at once, or what an earlier rate left and the rate times the seconds
/// since the last change of rate, but not before the start of the slope and
/// not past the end, within the deposit.
pub proof fn law_accrual_formula(stream: Stream, t: int)
    ensures
        ({
            let first = if stream.kind == StreamKind::CliffSlope && stream.checkpointed_at
                < stream.cliff_time {
                stream.cliff_time
            } else {
                stream.checkpointed_at
            };
            let last = if t < stream.end_time {
                t
            } else {
                stream.end_time as int
            };
            let seconds = if last < first {
                0
            } else {
                last - first
            };
            let sum = stream.checkpointed_amount + stream.rate_per_second * seconds;
            stream.spec_accrued_at(t) == if t < stream.cliff_time {
                0
            } else if stream.kind == StreamKind::CliffOnly || stream.deposit_amount <= sum {
                stream.deposit_amount as int
            } else {
                sum
            }
        }),
{
}

/// After a shortening the deposit is the larger of what the rate gives from the
/// start to the new end and of what was earned by now. The sender is paid just
/// the difference, if there is any, and nobody else is paid.
pub proof fn law_shortening_outcome(s: ContractState, call: Call, id: u64, end_time: u64)
    requires
        s.wf(),
        s.total_liabilities >= 0,
        s.shorten_error(call, id, end_time) is None,
    ensures
        ({
            let a = s.streams[id];
            let t = s.shorten_step(call, id, end_time);
            let b = t.streams[id];
            let whole = a.rate_per_second * (end_time - a.start_time);
            let earned = a.spec_accrued_at(call.timestamp as int);
            let refund = (a.deposit_amount - b.deposit_amount) as i128;
            let announcement = Effect::Emit(
                Event::EndShortened(
                    StreamEndShortened {
                        stream_id: id,
                        old_end_time: a.end_time,
                        new_end_time: end_time,
                        refund_amount: refund,
                    },
                ),
            );
            &&& b.deposit_amount >= whole
            &&& b.deposit_amount >= earned
            &&& b.deposit_amount == whole || b.deposit_amount == earned
            &&& 0 <= refund == a.deposit_amount - b.deposit_amount
            &&& b == (Stream { deposit_amount: b.deposit_amount, end_time, ..a })
            &&& t.effects == if refund > 0 {
                s.effects.push(Effect::Push { to: a.sender, amount: refund }).push(announcement)
            } else {
                s.effects.push(announcement)
            }
            &&& t.total_liabilities == s.total_liabilities - refund
            &&& t == (ContractState {
                streams: s.streams.insert(id, b),
                effects: t.effects,
                total_liabilities: t.total_liabilities,
                last_accrual_timestamp: Some(call.timestamp),
                ..s
            })
        }),
{
    crate::registry::lemma_stored_stream(s, id);
}

/// A shortening of a stream whose rate never changed takes nothing away: at
/// every time up to the new end, as much has been earned as before.
pub proof fn law_shortening_keeps_schedule(
    s: ContractState,
    call: Call,
    id: u64,
    end_time: u64,
    t: int,
)
    requires
        s.wf(),
        s.shorten_error(call, id, end_time) is None,
        s.streams[id].checkpointed_amount == 0,
        s.streams[id].checkpointed_at == s.streams[id].start_time,
        t <= end_time,
    ensures
        s.shorten_step(call, id, end_time).streams[id].spec_accrued_at(t)
            == s.streams[id].spec_accrued_at(t),
{
    crate::registry::lemma_stored_stream(s, id);
    let a = s.streams[id];
    let b = s.shorten_step(call, id, end_time).streams[id];
    lemma_shortening_bounds(a, b, call.timestamp, end_time, t);
}

proof fn lemma_shortening_bounds(a: Stream, b: Stream, now: u64, end_time: u64, t: int)
    requires
        a.sound(),
        a.kind == StreamKind::Linear,
        a.checkpointed_amount == 0,
        a.checkpointed_at == a.start_time,
        a.start_time < end_time < a.end_time,
        now < end_time,
        t <= end_time,
        b == (Stream { deposit_amount: b.deposit_amount, end_time, ..a }),
        b.deposit_amount >= a.rate_per_second * (end_time - a.start_time),
        b.deposit_amount <= a.deposit_amount,
    ensures
        b.spec_accrued_at(t) == a.spec_accrued_at(t),
{
    if t >= a.cliff_time {
        let rate = a.rate_per_second as int;
        let span = t - a.start_time;
        let most = end_time - a.start_time;
        assert(rate * span <= rate * most) by (nonlinear_arith)
            requires
                0 <= rate,
                0 <= span <= most,
        ;
    }
}

/// Whether a shortening is accepted.
pub proof fn law_shortening_accepted(s: ContractState, call: Call, id: u64, end_time: u64)
    requires
        s.wf(),
    ensures
        ({
            let a = s.streams[id];
            let whole = a.rate_per_second * (end_time - a.start_time);
            s.shorten_error(call, id, end_time) is None <==> {
                &&& !s.emergency_paused
                &&& s.streams.dom().contains(id)
                &&& a.kind == StreamKind::Linear
                &&& call.signers@.contains(a.sender)
                &&& a.status == StreamStatus::Active || a.status == StreamStatus::Paused
                &&& a.irrevocable != Some(true)
                &&& s.last_accrual_timestamp is Some ==> s.last_accrual_timestamp->0
                    <= call.timestamp
                &&& call.timestamp < end_time < a.end_time
                &&& a.start_time < end_time && a.cliff_time <= end_time
                &&& whole <= a.deposit_amount
            }
        }),
{
    if s.streams.dom().contains(id) {
        crate::registry::lemma_stored_stream(s, id);
        crate::laws::accrual::law_accrued_bounded(s.streams[id], call.timestamp as int);
    }
}

/// A later end changes nothing but the end; if the old one has passed, what was
/// earned is kept, and the rate counts again from now.
pub proof fn law_extension_outcome(s: ContractState, call: Call, id: u64, end_time: u64)
    requires
        s.wf(),
        s.extend_error(call, id, end_time) is None,
    ensures
        ({
            let a = s.streams[id];
            let t = s.extend_step(call, id, end_time);
            let b = t.streams[id];
            &&& call.timestamp <= a.end_time ==> b == (Stream { end_time, ..a })
            &&& call.timestamp > a.end_time ==> b == (Stream {
                end_time,
                checkpointed_amount: a.spec_built_up(a.end_time as int) as i128,
                checkpointed_at: call.timestamp,
                ..a
            })
            &&& b.spec_accrued_at(call.timestamp as int) == a.spec_accrued_at(
                call.timestamp as int,
            )
            &&& t == (ContractState {
                streams: s.streams.insert(id, b),
                effects: s.effects.push(
                    Effect::Emit(
                        Event::EndExtended(
                            StreamEndExtended {
                                stream_id: id,
                                old_end_time: a.end_time,
                                new_end_time: end_time,
                            },
                        ),
                    ),
                ),
                last_accrual_timestamp: Some(call.timestamp),
                ..s
            })
        }),
{
    crate::registry::lemma_stored_stream(s, id);
    let a = s.streams[id];
    law_built_up_formula(a, a.end_time as int);
    law_built_up_formula(a, call.timestamp as int);
    crate::laws::accrual::law_extend_keeps_accrued(a, call.timestamp, end_time);
}

/// Whether a later end is accepted.
pub proof fn law_extension_accepted(s: ContractState, call: Call, id: u64, end_time: u64)
    ensures
        ({
            let a = s.streams[id];
            s.extend_error(call, id, end_time) is None <==> {
                &&& !s.emergency_paused
                &&& s.streams.dom().contains(id)
                &&& a.kind == StreamKind::Linear
                &&& call.signers@.contains(a.sender)
                &&& a.status == StreamStatus::Active || a.status == StreamStatus::Paused
                &&& s.last_accrual_timestamp is Some ==> s.last_accrual_timestamp->0
                    <= call.timestamp
                &&& a.end_time < end_time
                &&& a.start_time < end_time && a.cliff_time <= end_time
                &&& call.timestamp <= end_time
                &&& a.rate_per_second * (end_time - a.start_time) <= a.deposit_amount
            }
        }),
{
}

/// A larger deposit is taken from the one who funds it, added to the deposit
/// and to what is owed, and changes nothing else.
pub proof fn law_top_up_outcome(
    s: ContractState,
    call: Call,
    id: u64,
    funder: Address,
    amount: i128,
)
    requires
        s.wf(),
        s.total_liabilities >= 0,
        s.top_up_error(call, id, funder, amount) is None,
    ensures
        ({
            let a = s.streams[id];
            let t = s.top_up_step(call, id, funder, amount);
            let b = t.streams[id];
            &&& b == (Stream { deposit_amount: b.deposit_amount, ..a })
            &&& b.deposit_amount == a.deposit_amount + amount
            &&& t.total_liabilities == s.total_liabilities + amount
            &&& t == (ContractState {
                streams: s.streams.insert(id, b),
                total_liabilities: t.total_liabilities,
                effects: s.effects.push(Effect::Pull { from: funder, amount }).push(
                    Effect::Emit(
                        Event::ToppedUp(
                            StreamToppedUp {
                                stream_id: id,
                                top_up_amount: amount,
                                new_deposit_amount: b.deposit_amount,
                                new_end_time: a.end_time,
                            },
                        ),
                    ),
                ),
                last_accrual_timestamp: Some(call.timestamp),
                ..s
            })
        }),
{
    crate::registry::lemma_stored_stream(s, id);
}

/// Whether a larger deposit is accepted.
pub proof fn law_top_up_accepted(
    s: ContractState,
    call: Call,
    id: u64,
    funder: Address,
    amount: i128,
)
    ensures
        ({
            let a = s.streams[id];
            s.top_up_error(call, id, funder, amount) is None <==> {
                &&& !s.emergency_paused
                &&& amount > 0
                &&& s.streams.dom().contains(id)
                &&& a.kind == StreamKind::Linear
                &&& a.status == StreamStatus::Active || a.status == StreamStatus::Paused
                &&& s.last_accrual_timestamp is Some ==> s.last_accrual_timestamp->0
                    <= call.timestamp
                &&& call.timestamp < a.end_time
                &&& call.signers@.contains(funder)
                &&& a.deposit_amount + amount <= i128::MAX
                &&& s.total_liabilities + amount <= i128::MAX
            }
        }),
{
}

/// A higher rate counts from now on: what has built up is kept, and at every
/// later time the stream has built up that and the new rate times the seconds
/// since, within the deposit. No money moves.
pub proof fn law_rate_rise_outcome(s: ContractState, call: Call, id: u64, rate: i128)
    requires
        s.wf(),
        s.update_rate_per_second_error(call, id, rate) is None,
    ensures
        ({
            let a = s.streams[id];
            let t = s.update_rate_per_second_step(call, id, rate);
            let b = t.streams[id];
            let kept = a.spec_built_up(call.timestamp as int);
            &&& b == (Stream {
                rate_per_second: rate,
                checkpointed_amount: b.checkpointed_amount,
                checkpointed_at: call.timestamp,
                last_rate_change_ledger: call.sequence,
                ..a
            })
            &&& b.checkpointed_amount == kept
            &&& forall|later: int|
                #![trigger b.spec_built_up(later)]
                call.timestamp <= later <= a.end_time ==> b.spec_built_up(later) == if kept
                    + rate * (later - call.timestamp) < a.deposit_amount {
                    kept + rate * (later - call.timestamp)
                } else {
                    a.deposit_amount as int
                }
            &&& t == (ContractState {
                streams: s.streams.insert(id, b),
                effects: s.effects.push(
                    Effect::Emit(
                        Event::RateUpdated(
                            RateUpdated {
                                stream_id: id,
                                old_rate_per_second: a.rate_per_second,
                                new_rate_per_second: rate,
                                effective_time: call.timestamp,
                            },
                        ),
                    ),
                ),
                last_accrual_timestamp: Some(call.timestamp),
                ..s
            })
        }),
{
    crate::registry::lemma_stored_stream(s, id);
    let a = s.streams[id];
    let b = s.update_rate_per_second_step(call, id, rate).streams[id];
    lemma_built_up_bounded(a, call.timestamp as int);
    assert forall|later: int|
        #![trigger b.spec_built_up(later)]
        call.timestamp <= later <= a.end_time implies b.spec_built_up(later) == if a.spec_built_up(
        call.timestamp as int,
    ) + rate * (later - call.timestamp) < a.deposit_amount {
        a.spec_built_up(call.timestamp as int) + rate * (later - call.timestamp)
    } else {
        a.deposit_amount as int
    } by {
        law_built_up_formula(b, later);
    }
}

/// What has built up is never negative and never above the deposit.
pub proof fn lemma_built_up_bounded(stream: Stream, t: int)
    requires
        stream.sound(),
        t >= 0,
    ensures
        0 <= stream.spec_built_up(t) <= stream.deposit_amount,
{
    let free = Stream { cliff_time: 0, start_time: 0, ..stream };
    assert(free.spec_accrued_at(t) == stream.spec_built_up(t));
    crate::laws::accrual::law_accrued_bounded(free, t);
}

/// Whether a higher rate is accepted.
pub proof fn law_rate_rise_accepted(s: ContractState, call: Call, id: u64, rate: i128)
    ensures
        ({
            let a = s.streams[id];
            s.update_rate_per_second_error(call, id, rate) is None <==> {
                &&& !s.emergency_paused
                &&& s.streams.dom().contains(id)
                &&& a.kind == StreamKind::Linear
                &&& a.last_rate_change_ledger == 0 || call.sequence >= a.last_rate_change_ledger
                    + 17 || call.sequence == u32::MAX
                &&& call.signers@.contains(a.sender)
                &&& a.status == StreamStatus::Active || a.status == StreamStatus::Paused
                &&& 0 < rate && a.rate_per_second < rate
                &&& rate <= s.max_rate_per_second
                &&& rate * (a.end_time - a.start_time) <= a.deposit_amount
                &&& s.last_accrual_timestamp is Some ==> s.last_accrual_timestamp->0
                    <= call.timestamp
            }
        }),
{
}

/// A lower rate counts from now on; what has built up is kept, the deposit
/// falls to that and what the new rate gives until the end, and the sender is
/// paid the difference, if there is any.
pub proof fn law_rate_cut_outcome(s: ContractState, call: Call, id: u64, rate: i128)
    requires
        s.wf(),
        s.total_liabilities >= 0,
        s.decrease_rate_error(call, id, rate) is None,
    ensures
        ({
            let a = s.streams[id];
            let now = call.timestamp;
            let t = s.decrease_rate_step(call, id, rate);
            let b = t.streams[id];
            let kept = a.spec_built_up(now as int);
            let refund = (a.deposit_amount - b.deposit_amount) as i128;
            let announcement = Effect::Emit(
                Event::RateDecreased(
                    RateDecreased {
                        stream_id: id,
                        old_rate_per_second: a.rate_per_second,
                        new_rate_per_second: rate,
                        effective_time: now,
                        checkpointed_amount: b.checkpointed_amount,
                        refund_amount: refund,
                    },
                ),
            );
            &&& b == (Stream {
                rate_per_second: rate,
                deposit_amount: b.deposit_amount,
                checkpointed_amount: b.checkpointed_amount,
                checkpointed_at: now,
                last_rate_change_ledger: call.sequence,
                ..a
            })
            &&& b.checkpointed_amount == kept
            &&& b.deposit_amount == kept + rate * (a.end_time - now)
            &&& 0 <= refund == a.deposit_amount - b.deposit_amount
            &&& t.effects == if refund > 0 {
                s.effects.push(Effect::Push { to: a.sender, amount: refund }).push(announcement)
            } else {
                s.effects.push(announcement)
            }
            &&& t.total_liabilities == s.total_liabilities - refund
            &&& t == (ContractState {
                streams: s.streams.insert(id, b),
                effects: t.effects,
                total_liabilities: t.total_liabilities,
                last_accrual_timestamp: Some(now),
                ..s
            })
        }),
{
    crate::registry::lemma_stored_stream(s, id);
    let a = s.streams[id];
    lemma_built_up_bounded(a, call.timestamp as int);
    let left = a.end_time - call.timestamp;
    assert(0 <= rate * left) by (nonlinear_arith)
        requires
            0 <= rate,
            0 <= left,
    ;
}

/// Whether a lower rate is accepted.
pub proof fn law_rate_cut_accepted(s: ContractState, call: Call, id: u64, rate: i128)
    requires
        s.wf(),
    ensures
        ({
            let a = s.streams[id];
            let now = call.timestamp;
            s.decrease_rate_error(call, id, rate) is None <==> {
                &&& !s.emergency_paused
                &&& s.streams.dom().contains(id)
                &&& a.kind == StreamKind::Linear
                &&& a.last_rate_change_ledger == 0 || call.sequence >= a.last_rate_change_ledger
                    + 17 || call.sequence == u32::MAX
                &&& call.signers@.contains(a.sender)
                &&& a.status == StreamStatus::Active || a.status == StreamStatus::Paused
                &&& s.last_accrual_timestamp is Some ==> s.last_accrual_timestamp->0 <= now
                &&& now < a.end_time
                &&& 0 < rate < a.rate_per_second
                &&& a.spec_built_up(now as int) + rate * (a.end_time - now) <= a.deposit_amount
            }
        }),
{
    if s.streams.dom().contains(id) {
        crate::registry::lemma_stored_stream(s, id);
        lemma_built_up_bounded(s.streams[id], call.timestamp as int);
    }
}

/// A plain change of rate sets the rate and nothing else.
pub proof fn law_rate_set_outcome(
    s: ContractState,
    call: Call,
    id: u64,
    rate: i128,
    caller: Address,
)
    requires
        s.wf(),
    ensures
        ({
            let a = s.streams[id];
            let admin = s.config->0.admin;
            &&& s.update_rate_error(call, id, rate, caller) is None <==> {
                &&& !s.emergency_paused
                &&& call.signers@.contains(caller)
                &&& s.streams.dom().contains(id)
                &&& a.status == StreamStatus::Active || a.status == StreamStatus::Paused
                &&& s.config is Some
                &&& caller == a.sender || caller == admin
                &&& rate > 0
            }
            &&& s.streams.dom().contains(id) ==> s.update_rate_step(call, id, rate) == (
            ContractState {
                streams: s.streams.insert(id, Stream { rate_per_second: rate, ..a }),
                effects: s.effects.push(
                    Effect::Emit(
                        Event::RateUpdated(
                            RateUpdated {
                                stream_id: id,
                                old_rate_per_second: a.rate_per_second,
                                new_rate_per_second: rate,
                                effective_time: call.timestamp,
                            },
                        ),
                    ),
                ),
                ..s
            })
        }),
{
    if s.streams.dom().contains(id) {
        crate::registry::lemma_stored_stream(s, id);
    }
}

/// A delegation splits a stream at a moment. The parent keeps what has built
/// up, and its rate less the child's share; the child, which starts now, gets
/// the share of the rate, rounded down, and the rest of the deposit. No money
/// moves and what is owed stays.
pub proof fn law_delegation_outcome(
    s: ContractState,
    call: Call,
    id: u64,
    recipient: Address,
    share_bps: u32,
    new_recipient: Address,
)
    requires
        s.wf(),
        s.room_for(s.streams[id].sender, new_recipient, 1),
        s.delegate_error(call, id, recipient, share_bps, new_recipient) is None,
    ensures
        ({
            let a = s.streams[id];
            let now = call.timestamp;
            let t = s.delegate_step(call, id, share_bps, new_recipient);
            let child_id = s.fresh_id(a.sender);
            let parent = t.streams[id];
            let child = t.streams[child_id];
            let part = a.rate_per_second * share_bps / 10_000;
            let kept = a.spec_built_up(now as int);
            &&& child_id != id && !s.streams.dom().contains(child_id)
            &&& parent == (Stream {
                rate_per_second: parent.rate_per_second,
                deposit_amount: parent.deposit_amount,
                checkpointed_amount: parent.checkpointed_amount,
                checkpointed_at: now,
                ..a
            })
            &&& parent.rate_per_second + child.rate_per_second == a.rate_per_second
            &&& parent.deposit_amount + child.deposit_amount == a.deposit_amount
            &&& child.rate_per_second == part
            &&& parent.checkpointed_amount == kept
            &&& parent.deposit_amount == kept + parent.rate_per_second * (a.end_time - now)
            &&& child.stream_id == child_id
            &&& child.sender == a.sender
            &&& child.recipient == new_recipient
            &&& child.claim_owner is None
            &&& child.start_time == now && child.checkpointed_at == now
            &&& child.checkpointed_amount == 0 && child.withdrawn_amount == 0
            &&& child.cliff_time >= a.cliff_time && child.cliff_time >= now
            &&& child.cliff_time == a.cliff_time || child.cliff_time == now
            &&& child.end_time == a.end_time
            &&& child.status == StreamStatus::Active && child.cancelled_at is None
            &&& child.withdraw_dust_threshold == a.withdraw_dust_threshold
            &&& child.last_pause_toggle_ledger == 0 && child.last_withdraw_ledger == 0
                && child.last_rate_change_ledger == 0
            &&& child.is_pooled is None && child.irrevocable is None && child.witness is None
            &&& child.metadata == a.metadata && child.memo == a.memo && child.kind == a.kind
            &&& child.delegation_depth == a.delegation_depth + 1 <= 3
            &&& child.parent_stream_id == Some(id)
            &&& t.streams == s.streams.insert(id, parent).insert(child_id, child)
            &&& t.next_stream_id == s.take_id(a.sender).next_stream_id
            &&& t.reservations == s.take_id(a.sender).reservations
            &&& t.effects == s.effects.push(
                Effect::Emit(
                    Event::ShareDelegated(
                        RecipientShareDelegated {
                            parent_stream_id: id,
                            child_stream_id: child_id,
                            delegator: recipient,
                            delegatee: new_recipient,
                            share_bps,
                            new_parent_rate: parent.rate_per_second,
                            child_rate: child.rate_per_second,
                        },
                    ),
                ),
            )
            &&& forall|who: Address, other: u64|
                #![trigger crate::laws::lists::on_list(t.recipient_streams, who, other)]
                crate::laws::lists::on_list(t.recipient_streams, who, other) == (
                crate::laws::lists::on_list(s.recipient_streams, who, other) || (who
                    == new_recipient && other == child_id))
            &&& t == (ContractState {
                streams: t.streams,
                effects: t.effects,
                recipient_streams: t.recipient_streams,
                next_stream_id: t.next_stream_id,
                reservations: t.reservations,
                last_accrual_timestamp: Some(now),
                ..s
            })
        }),
{
    let a = s.streams[id];
    let now = call.timestamp;
    let child_id = s.fresh_id(a.sender);
    crate::registry::lemma_stored_stream(s, id);
    crate::laws::roundtrips::lemma_fresh_id(s, a.sender);
    lemma_built_up_bounded(a, now as int);
    let part = a.rate_per_second * share_bps / 10_000;
    let rate = a.rate_per_second - part;
    assert(0 <= rate * (a.end_time - now)) by (nonlinear_arith)
        requires
            0 <= rate,
            now <= a.end_time,
    ;
    crate::registry::lemma_lists_ascend(s, new_recipient);
    crate::laws::lists::lemma_enlisted(s.recipient_streams, new_recipient, child_id);
}

/// A child stream has earned nothing at any time before the cliff of its
/// parent, and nothing before the delegation.
pub proof fn law_child_waits_for_cliff(
    s: ContractState,
    call: Call,
    id: u64,
    recipient: Address,
    share_bps: u32,
    new_recipient: Address,
    t: int,
)
    requires
        s.wf(),
        s.room_for(s.streams[id].sender, new_recipient, 1),
        s.delegate_error(call, id, recipient, share_bps, new_recipient) is None,
        t < s.streams[id].cliff_time || t <= call.timestamp,
    ensures
        s.delegate_step(call, id, share_bps, new_recipient).streams[s.fresh_id(
            s.streams[id].sender,
        )].spec_accrued_at(t) == 0,
{
    law_delegation_outcome(s, call, id, recipient, share_bps, new_recipient);
    let child_id = s.fresh_id(s.streams[id].sender);
    let child = s.delegate_step(call, id, share_bps, new_recipient).streams[child_id];
    assert(child.rate_per_second * 0 == 0);
}

/// Parent and child together have earned, at every time from the delegation
/// and the cliff to the end, what the parent would have earned alone.
pub proof fn law_delegation_adds_up(
    s: ContractState,
    call: Call,
    id: u64,
    recipient: Address,
    share_bps: u32,
    new_recipient: Address,
    t: int,
)
    requires
        s.wf(),
        s.room_for(s.streams[id].sender, new_recipient, 1),
        s.delegate_error(call, id, recipient, share_bps, new_recipient) is None,
        s.streams[id].spec_built_up(call.timestamp as int) + s.streams[id].rate_per_second * (
        s.streams[id].end_time - call.timestamp) <= s.streams[id].deposit_amount,
        call.timestamp <= t <= s.streams[id].end_time,
        s.streams[id].cliff_time <= t,
        s.streams[id].checkpointed_at <= call.timestamp,
    ensures
        ({
            let after = s.delegate_step(call, id, share_bps, new_recipient).streams;
            after[id].spec_accrued_at(t) + after[s.fresh_id(
                s.streams[id].sender,
            )].spec_accrued_at(t) == s.streams[id].spec_accrued_at(t)
        }),
{
    law_delegation_outcome(s, call, id, recipient, share_bps, new_recipient);
    crate::registry::lemma_stored_stream(s, id);
    let a = s.streams[id];
    let now = call.timestamp as int;
    let after = s.delegate_step(call, id, share_bps, new_recipient).streams;
    let p = after[id];
    let c = after[s.fresh_id(a.sender)];
    law_built_up_formula(a, now);
    lemma_built_up_bounded(a, now);
    let r = a.rate_per_second as int;
    let rp = p.rate_per_second as int;
    let rc = c.rate_per_second as int;
    let x = t - now;
    let whole = a.end_time - now;
    assert(rp * x + rc * x == r * x && rp * x <= rp * whole && rc * x <= rc * whole && r * x <= r
        * whole && rp * whole + rc * whole == r * whole && 0 <= rc * x) by (nonlinear_arith)
        requires
            rp + rc == r,
            0 <= rp,
            0 <= rc,
            0 <= x <= whole,
    ;
    let from = a.checkpointed_at as int;
    assert(r * (t - from) == r * (now - from) + r * x) by (nonlinear_arith)
        requires
            x == t - now,
    ;
}

/// Whether a delegation is accepted, given that no ancestor is in the way.
pub proof fn law_delegation_accepted(
    s: ContractState,
    call: Call,
    id: u64,
    recipient: Address,
    share_bps: u32,
    new_recipient: Address,
)
    requires
        s.wf(),
    ensures
        ({
            let a = s.streams[id];
            let now = call.timestamp;
            let part = a.rate_per_second * share_bps / 10_000;
            let rest = a.rate_per_second - part;
            s.delegate_error(call, id, recipient, share_bps, new_recipient) is None <==> {
                &&& !s.emergency_paused
                &&& s.streams.dom().contains(id)
                &&& a.kind == StreamKind::Linear
                &&& call.signers@.contains(recipient)
                &&& a.recipient == recipient
                &&& 0 < share_bps <= 10_000
                &&& recipient != new_recipient
                &&& a.status == StreamStatus::Active || a.status == StreamStatus::Paused
                &&& s.last_accrual_timestamp is Some ==> s.last_accrual_timestamp->0 <= now
                &&& now < a.end_time
                &&& a.delegation_depth < 3
                &&& s.lineage_error(a, new_recipient) is None
                &&& a.rate_per_second * share_bps <= i128::MAX
                &&& part > 0 && rest > 0
                &&& a.spec_built_up(now as int) + rest * (a.end_time - now) <= a.deposit_amount
            }
        }),
{
    if s.streams.dom().contains(id) {
        crate::registry::lemma_stored_stream(s, id);
        lemma_built_up_bounded(s.streams[id], call.timestamp as int);
    }
}

/// A stream cannot be delegated to the recipient of its parent or grandparent:
/// the parents are asked one after the other.
pub proof fn law_lineage_asked(s: ContractState, stream: Stream, who: Address)
    requires
        s.wf(),
        s.streams.dom().contains(stream.stream_id),
        s.streams[stream.stream_id] == stream,
    ensures
        match stream.parent_stream_id {
            None => s.lineage_error(stream, who) is None,
            Some(parent) => if !s.streams.dom().contains(parent) {
                s.lineage_error(stream, who) == Some(crate::types::ContractError::StreamNotFound)
            } else if s.streams[parent].recipient == who {
                s.lineage_error(stream, who) == Some(crate::types::ContractError::CyclicDelegation)
            } else {
                s.lineage_error(stream, who) == s.lineage_error(s.streams[parent], who)
            },
        },
{
    reveal(crate::state::registry_ok);
}

} // verus!
