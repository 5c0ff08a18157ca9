//! What claims pay, to whom, and what they leave behind.

use crate::delegated::DelegatedWithdrawal;
use crate::events::{
    AutoClaimTriggered, Effect, Event, StreamEvent, Withdrawal, WithdrawalTo,
};
use crate::state::{Call, ContractState};
use crate::types::{Address, PoolSeat, Stream, StreamKind, StreamStatus};
use vstd::prelude::*;

verus! {

/// What a recipient has earned depends on the time only while the stream runs:
/// a completed stream has earned its deposit, and a cancelled one what it had
/// accrued when it was cancelled.
pub proof fn law_earned_by_status(stream: Stream, now: u64)
    ensures
        match stream.status {
            StreamStatus::Active => stream.spec_earned(now) == stream.spec_accrued_at(now as int),
            StreamStatus::Paused => stream.spec_earned(now) == stream.spec_accrued_at(now as int),
            StreamStatus::Completed => stream.spec_earned(now) == stream.deposit_amount,
            StreamStatus::Cancelled => stream.cancelled_at is Some ==> stream.spec_earned(now)
                == stream.spec_accrued_at(stream.cancelled_at->0 as int),
        },
{
}

/// From a stream that is cancelled, completed or past its end, a claim pays all
/// that was earned and not withdrawn, however little it is, where no lookback
/// window is set and the contract holds enough. So does a claim in a batch, but
/// for a completed stream.
pub proof fn law_settled_stream_pays_all_due(
    stream: Stream,
    now: u64,
    balance: i128,
)
    requires
        stream.sound(),
        stream.status == StreamStatus::Cancelled || stream.status == StreamStatus::Completed
            || now >= stream.end_time,
        stream.withdrawn_amount <= stream.spec_earned(now),
        stream.spec_earned(now) - stream.withdrawn_amount <= balance,
    ensures
        stream.spec_payout(None, now, balance) == stream.spec_earned(now)
            - stream.withdrawn_amount,
        stream.status != StreamStatus::Completed ==> stream.spec_batch_payout(
            None,
            now,
            balance as int,
        ) == stream.spec_earned(now) - stream.withdrawn_amount,
{
}

/// From a pooled stream that is cancelled, completed or past its end, a
/// participant gets all that is left of its part, however little it is, where
/// the contract holds enough.
pub proof fn law_settled_pool_pays_all_due(s: ContractState, call: Call, id: u64, who: Address)
    requires
        s.streams[id].status == StreamStatus::Cancelled || s.streams[id].status
            == StreamStatus::Completed || call.timestamp >= s.streams[id].end_time,
    ensures
        ({
            let part = (s.streams[id].spec_earned(call.timestamp) * s.pool_share(id, who))
                / s.pool_total(id);
            let seat = PoolSeat { stream_id: id, recipient: who };
            let taken = if s.pool_withdrawn.dom().contains(seat) {
                s.pool_withdrawn[seat] as int
            } else {
                0
            };
            0 <= part - taken <= call.balance ==> s.pool_payout(call, id, who) == part - taken
        }),
{
}

/// From a stream that runs, a claim pays all that was earned and not withdrawn
/// if that reaches the dust threshold or drains the stream, and nothing if not.
pub proof fn law_running_stream_pays_from_threshold(stream: Stream, now: u64, balance: i128)
    requires
        stream.sound(),
        stream.status == StreamStatus::Active || stream.status == StreamStatus::Paused,
        now < stream.end_time,
        stream.withdrawn_amount <= stream.spec_accrued_at(now as int),
        stream.spec_accrued_at(now as int) - stream.withdrawn_amount <= balance,
    ensures
        ({
            let due = stream.spec_accrued_at(now as int) - stream.withdrawn_amount;
            stream.spec_payout(None, now, balance) == if due >= stream.withdraw_dust_threshold
                || stream.withdrawn_amount + due == stream.deposit_amount {
                due
            } else {
                0
            }
        }),
{
    crate::laws::accrual::law_accrued_bounded(stream, now as int);
}

/// What a claim pays, in general. Due is what was earned and not withdrawn. A
/// lookback window of `n` ledgers, of five seconds each, limits it to what was
/// earned in the window before the claim, or before the end; a stream that
/// releases everything at its cliff is exempt. The contract never pays more
/// than it holds, and a stream that runs pays no dust unless that drains it.
pub proof fn law_payout_formula(s: ContractState, call: Call, id: u64)
    requires
        s.streams[id].sound(),
        s.streams[id].cancelled_at is Some <==> s.streams[id].status == StreamStatus::Cancelled,
    ensures
        ({
            let stream = s.streams[id];
            let at = if stream.status == StreamStatus::Cancelled {
                stream.cancelled_at->0
            } else {
                call.timestamp
            };
            let earned = if stream.status == StreamStatus::Completed {
                stream.deposit_amount as int
            } else {
                stream.spec_accrued_at(at as int)
            };
            let due = earned - stream.withdrawn_amount;
            let last = if at < stream.end_time {
                at as int
            } else {
                stream.end_time as int
            };
            let first = if s.lookback.dom().contains(id) && 5 * s.lookback[id] <= last {
                last - 5 * s.lookback[id]
            } else {
                0
            };
            let recent = stream.spec_accrued_at(last) - stream.spec_accrued_at(first);
            let limited = s.lookback.dom().contains(id) && recent < due && !(stream.kind
                == StreamKind::CliffOnly && earned > 0);
            let allowed = if limited {
                recent
            } else {
                due
            };
            let payable = if allowed < call.balance {
                allowed
            } else {
                call.balance as int
            };
            let over = stream.status == StreamStatus::Cancelled || stream.status
                == StreamStatus::Completed || call.timestamp >= stream.end_time;
            s.payout_of(call, id) == if payable <= 0 || (!over && payable
                < stream.withdraw_dust_threshold && stream.withdrawn_amount + payable
                < stream.deposit_amount) {
                0
            } else {
                payable
            }
        }),
{
    let stream = s.streams[id];
    let at = stream.spec_claim_time(call.timestamp);
    let last = if at < stream.end_time {
        at as int
    } else {
        stream.end_time as int
    };
    crate::laws::accrual::law_accrued_bounded(stream, last);
    crate::laws::accrual::law_accrued_bounded(stream, at as int);
    if s.lookback.dom().contains(id) {
        let first = if 5 * s.lookback[id] <= last {
            last - 5 * s.lookback[id]
        } else {
            0
        };
        crate::laws::accrual::law_accrued_monotone(stream, first, last);
    }
}

/// A withdrawal pays the recipient, and nobody else, what is to be paid now,
/// counts it as withdrawn, takes it off what is owed, and touches nothing else.
/// A stream whose deposit is drained is completed.
pub proof fn law_withdrawal_outcome(s: ContractState, call: Call, id: u64)
    requires
        s.wf(),
        s.withdraw_error(call, id) is None,
        s.total_liabilities >= 0,
    ensures
        ({
            let a = s.streams[id];
            let amount = s.payout_of(call, id) as i128;
            let t = s.withdraw_step(call, id);
            let b = t.streams[id];
            let runs = a.status == StreamStatus::Active || a.status == StreamStatus::Paused;
            let drained = runs && amount > 0 && a.withdrawn_amount + amount == a.deposit_amount;
            let announced = s.effects.push(Effect::Push { to: a.recipient, amount }).push(
                Effect::Emit(
                    Event::Withdrew(
                        Withdrawal { stream_id: id, recipient: a.recipient, amount },
                    ),
                ),
            );
            &&& amount == s.payout_of(call, id)
            &&& b == (Stream {
                withdrawn_amount: (a.withdrawn_amount + amount) as i128,
                last_withdraw_ledger: if amount > 0 {
                    call.sequence
                } else {
                    a.last_withdraw_ledger
                },
                status: if drained {
                    StreamStatus::Completed
                } else {
                    a.status
                },
                ..a
            })
            &&& b.withdrawn_amount == a.withdrawn_amount + amount
            &&& t.streams == s.streams.insert(id, b)
            &&& t.effects == if amount == 0 {
                s.effects
            } else if drained {
                announced.push(Effect::Emit(Event::Status(StreamEvent::StreamCompleted(id))))
            } else {
                announced
            }
            &&& t.total_liabilities == s.total_liabilities - amount
            &&& t.last_accrual_timestamp == if runs {
                Some(call.timestamp)
            } else {
                s.last_accrual_timestamp
            }
            &&& t == (ContractState {
                streams: t.streams,
                effects: t.effects,
                total_liabilities: t.total_liabilities,
                last_accrual_timestamp: t.last_accrual_timestamp,
                paused_stream_count: t.paused_stream_count,
                ..s
            })
        }),
{
    crate::registry::lemma_stored_stream(s, id);
    let a = s.streams[id];
    crate::laws::payments::law_payout_bounded(a, s.lookback_of(id), call.timestamp, call.balance);
    crate::laws::payments::law_earned_bounded(a, call.timestamp);
    assert(s.streams.insert(id, a) =~= s.streams);
}

/// A withdrawal to another address does the same, but the payment goes there,
/// and the ledger of the last withdrawal is not touched.
pub proof fn law_withdrawal_to_outcome(
    s: ContractState,
    call: Call,
    id: u64,
    destination: Address,
)
    requires
        s.wf(),
        s.withdraw_to_error(call, id, destination) is None,
        s.total_liabilities >= 0,
    ensures
        ({
            let a = s.streams[id];
            let amount = s.payout_of(call, id) as i128;
            let t = s.withdraw_to_step(call, id, destination);
            let b = t.streams[id];
            let runs = a.status == StreamStatus::Active || a.status == StreamStatus::Paused;
            let drained = runs && amount > 0 && a.withdrawn_amount + amount == a.deposit_amount;
            let announced = s.effects.push(Effect::Push { to: destination, amount }).push(
                Effect::Emit(
                    Event::WithdrewTo(
                        WithdrawalTo { stream_id: id, recipient: a.recipient, destination, amount },
                    ),
                ),
            );
            &&& amount == s.payout_of(call, id)
            &&& b == (Stream {
                withdrawn_amount: (a.withdrawn_amount + amount) as i128,
                status: if drained {
                    StreamStatus::Completed
                } else {
                    a.status
                },
                ..a
            })
            &&& b.withdrawn_amount == a.withdrawn_amount + amount
            &&& t.streams == s.streams.insert(id, b)
            &&& t.effects == if amount == 0 {
                s.effects
            } else if drained {
                announced.push(Effect::Emit(Event::Status(StreamEvent::StreamCompleted(id))))
            } else {
                announced
            }
            &&& t.total_liabilities == s.total_liabilities - amount
            &&& t.last_accrual_timestamp == if runs {
                Some(call.timestamp)
            } else {
                s.last_accrual_timestamp
            }
            &&& t == (ContractState {
                streams: t.streams,
                effects: t.effects,
                total_liabilities: t.total_liabilities,
                last_accrual_timestamp: t.last_accrual_timestamp,
                paused_stream_count: t.paused_stream_count,
                ..s
            })
        }),
{
    crate::registry::lemma_stored_stream(s, id);
    let a = s.streams[id];
    crate::laws::payments::law_payout_bounded(a, s.lookback_of(id), call.timestamp, call.balance);
    crate::laws::payments::law_earned_bounded(a, call.timestamp);
    assert(s.streams.insert(id, a) =~= s.streams);
}

/// Whether a withdrawal is accepted: the right to withdraw lies with the
/// recipient until it is handed over; a paused stream pays only past its end, a
/// completed one never; two withdrawals do not fall into one ledger, and time
/// does not run back.
pub proof fn law_withdrawal_accepted(s: ContractState, call: Call, id: u64, destination: Address)
    ensures
        ({
            let a = s.streams[id];
            let owner = if a.claim_owner is Some {
                a.claim_owner->0
            } else {
                a.recipient
            };
            let runs = a.status == StreamStatus::Active || a.status == StreamStatus::Paused;
            let open = {
                &&& !s.emergency_paused
                &&& s.streams.dom().contains(id)
                &&& call.signers@.contains(owner)
                &&& a.status != StreamStatus::Completed
                &&& a.status == StreamStatus::Paused ==> call.timestamp >= a.end_time
                &&& runs && s.last_accrual_timestamp is Some ==> s.last_accrual_timestamp->0
                    <= call.timestamp
                &&& s.config is Some
            };
            &&& s.withdraw_error(call, id) is None <==> open && (a.last_withdraw_ledger == 0
                || call.sequence > a.last_withdraw_ledger)
            &&& s.withdraw_to_error(call, id, destination) is None <==> open && destination
                != call.contract
        }),
{
}

/// One step of a batch: the next stream is paid, to its recipient, what a
/// withdrawal of its own would pay from what the payments before it have left
/// of the contract's balance.
pub proof fn law_batch_step_outcome(
    s: ContractState,
    call: Call,
    who: Address,
    ids: Seq<u64>,
    n: int,
)
    requires
        s.wf(),
        0 <= n < ids.len(),
        crate::batch::distinct(ids),
        forall|i: int|
            0 <= i < ids.len() ==> s.batch_item_error(call, who, #[trigger] ids[i]) is None,
        s.clock_ok(call.timestamp),
        crate::laws::books::booked(s),
        0 <= call.balance,
    ensures
        ({
            let id = ids[n];
            let a = s.streams[id];
            let before = s.batch_step(call, ids, n);
            let t = s.batch_step(call, ids, n + 1);
            let left = s.batch_balance(call, ids, n);
            let amount = s.batch_amount(call, ids, n) as i128;
            let b = t.streams[id];
            let runs = a.status == StreamStatus::Active || a.status == StreamStatus::Paused;
            let drained = runs && amount > 0 && a.withdrawn_amount + amount == a.deposit_amount;
            let announced = before.effects.push(Effect::Push { to: a.recipient, amount }).push(
                Effect::Emit(
                    Event::Withdrew(
                        Withdrawal { stream_id: id, recipient: a.recipient, amount },
                    ),
                ),
            );
            &&& s.batch_balance(call, ids, 0) == call.balance
            &&& s.batch_balance(call, ids, n + 1) == left - amount
            &&& 0 <= amount == s.batch_amount(call, ids, n)
            &&& a.status == StreamStatus::Completed ==> amount == 0
            &&& a.status != StreamStatus::Completed && (a.cancelled_at is Some <==> a.status
                == StreamStatus::Cancelled) ==> amount == a.spec_payout(
                if s.lookback.dom().contains(id) {
                    Some(s.lookback[id])
                } else {
                    None
                },
                call.timestamp,
                left as i128,
            )
            &&& s.batch_step(call, ids, 0) == (ContractState {
                last_accrual_timestamp: Some(call.timestamp),
                ..s
            })
            &&& before.streams[id] == a
            &&& b == (Stream {
                withdrawn_amount: (a.withdrawn_amount + amount) as i128,
                last_withdraw_ledger: if amount > 0 {
                    call.sequence
                } else {
                    a.last_withdraw_ledger
                },
                status: if drained {
                    StreamStatus::Completed
                } else {
                    a.status
                },
                ..a
            })
            &&& t.streams == before.streams.insert(id, b)
            &&& t.effects == if amount == 0 {
                before.effects
            } else if drained {
                announced.push(Effect::Emit(Event::Status(StreamEvent::StreamCompleted(id))))
            } else {
                announced
            }
            &&& t.total_liabilities == before.total_liabilities - amount
            &&& t == (ContractState {
                streams: t.streams,
                effects: t.effects,
                total_liabilities: t.total_liabilities,
                paused_stream_count: t.paused_stream_count,
                ..before
            })
        }),
{
    let id = ids[n];
    let a = s.streams[id];
    let before = s.batch_step(call, ids, n);
    let left = s.batch_balance(call, ids, n);
    assert(s.batch_item_error(call, who, ids[n]) is None);
    crate::registry::lemma_stored_stream(s, id);
    crate::laws::counts::lemma_batch_runs(s, call, who, ids, n);
    crate::laws::books::lemma_book_batch(s, call, who, ids, n);
    crate::laws::books::lemma_owed(before);
    crate::laws::payments::law_batch_within_balance(s, call, ids, n);
    crate::laws::streams::lemma_batch_payout(a, s.lookback_of(id), call.timestamp, left);
    crate::laws::payments::law_earned_bounded(a, call.timestamp);
    if a.status != StreamStatus::Completed && (a.cancelled_at is Some <==> a.status
        == StreamStatus::Cancelled) {
        crate::laws::payments::law_batch_pays_as_single(
            a,
            s.lookback_of(id),
            call.timestamp,
            left as i128,
        );
    }
    assert(before.streams.insert(id, a) =~= before.streams);
}

/// Which batches are accepted: the owner of all streams signs once, no stream
/// is named twice, nothing goes to the contract, no stream is paused before its
/// end or was drawn on in this ledger.
pub proof fn law_batch_accepted(
    s: ContractState,
    call: Call,
    who: Address,
    withdrawals: Seq<crate::types::WithdrawToParam>,
    i: int,
    j: int,
)
    requires
        s.batch_withdraw_error(call, who, withdrawals) is None,
        0 <= i < withdrawals.len(),
        0 <= j < withdrawals.len(),
    ensures
        ({
            let id = withdrawals[i].stream_id;
            let a = s.streams[id];
            &&& !s.emergency_paused
            &&& call.signers@.contains(who)
            &&& i != j ==> id != withdrawals[j].stream_id
            &&& withdrawals[i].destination != call.contract
            &&& s.streams.dom().contains(id)
            &&& who == if a.claim_owner is Some {
                a.claim_owner->0
            } else {
                a.recipient
            }
            &&& a.last_withdraw_ledger == 0 || call.sequence > a.last_withdraw_ledger
            &&& a.status == StreamStatus::Paused ==> call.timestamp >= a.end_time
        }),
{
    let ids = crate::batch::targets(withdrawals);
    crate::laws::streams::lemma_items_ok(s, call, who, ids, ids.len() as int);
    assert(ids[i] == withdrawals[i].stream_id && ids[j] == withdrawals[j].stream_id);
    assert(s.batch_item_error(call, who, ids[i]) is None);
}

/// What a delegated withdrawal takes out of a stream: what was earned and not
/// withdrawn, limited as other claims are by the lookback window and by what
/// the contract holds, but not by the dust threshold.
pub proof fn law_delegated_gross_formula(s: ContractState, call: Call, id: u64)
    requires
        s.streams[id].sound(),
        s.streams[id].status != StreamStatus::Completed,
        s.streams[id].cancelled_at is Some <==> s.streams[id].status == StreamStatus::Cancelled,
        s.streams[id].withdrawn_amount <= s.streams[id].spec_earned(call.timestamp),
        call.balance >= 0,
    ensures
        ({
            let stream = s.streams[id];
            let free = Stream { withdraw_dust_threshold: 0, ..stream };
            s.delegated_gross(call, id) == free.spec_payout(
                if s.lookback.dom().contains(id) {
                    Some(s.lookback[id])
                } else {
                    None
                },
                call.timestamp,
                call.balance,
            )
        }),
{
    let stream = s.streams[id];
    let free = Stream { withdraw_dust_threshold: 0, ..stream };
    assert(free.spec_checkpoint() == stream.spec_checkpoint());
    crate::laws::payments::law_earned_bounded(stream, call.timestamp);
}

/// A delegated withdrawal pays the recipient the gross amount less the fee, and
/// the relayer the fee, in this order, and each only if it is more than
/// nothing. The gross amount counts as withdrawn and is no longer owed.
pub proof fn law_delegated_withdrawal_outcome(
    s: ContractState,
    call: Call,
    r: DelegatedWithdrawal,
)
    requires
        s.wf(),
        crate::laws::books::booked(s),
        s.delegated_withdraw_error(call, r) is None,
    ensures
        ({
            let a = s.streams[r.stream_id];
            let t = s.delegated_withdraw_step(call, r);
            let b = t.streams[r.stream_id];
            let gross = s.delegated_gross(call, r.stream_id);
            let net = (gross - r.relayer_fee) as i128;
            let runs = a.status == StreamStatus::Active || a.status == StreamStatus::Paused;
            let drained = runs && gross > 0 && a.withdrawn_amount + gross == a.deposit_amount;
            let first = if net > 0 {
                s.effects.push(Effect::Push { to: a.recipient, amount: net })
            } else {
                s.effects
            };
            let second = if r.relayer_fee > 0 {
                first.push(Effect::Push { to: r.relayer, amount: r.relayer_fee })
            } else {
                first
            };
            let announced = second.push(
                Effect::Emit(
                    Event::Withdrew(
                        Withdrawal {
                            stream_id: r.stream_id,
                            recipient: a.recipient,
                            amount: net,
                        },
                    ),
                ),
            );
            &&& s.delegated_net(call, r) == gross - r.relayer_fee
            &&& 0 <= r.relayer_fee <= gross
            &&& r.expected_minimum_amount <= gross - r.relayer_fee
            &&& b == (Stream {
                withdrawn_amount: (a.withdrawn_amount + gross) as i128,
                last_withdraw_ledger: if gross > 0 {
                    call.sequence
                } else {
                    a.last_withdraw_ledger
                },
                status: if drained {
                    StreamStatus::Completed
                } else {
                    a.status
                },
                ..a
            })
            &&& b.withdrawn_amount == a.withdrawn_amount + gross
            &&& t.streams == s.streams.insert(r.stream_id, b)
            &&& t.effects == if gross == 0 {
                s.effects
            } else if drained {
                announced.push(
                    Effect::Emit(Event::Status(StreamEvent::StreamCompleted(r.stream_id))),
                )
            } else {
                announced
            }
            &&& t.last_accrual_timestamp == if runs {
                Some(call.timestamp)
            } else {
                s.last_accrual_timestamp
            }
            &&& t.total_liabilities == s.total_liabilities - gross
            &&& r.nonce < u64::MAX ==> t.delegated_nonces == s.delegated_nonces.insert(
                a.recipient,
                (r.nonce + 1) as u64,
            )
            &&& t == (ContractState {
                streams: t.streams,
                effects: t.effects,
                total_liabilities: t.total_liabilities,
                last_accrual_timestamp: t.last_accrual_timestamp,
                paused_stream_count: t.paused_stream_count,
                delegated_nonces: t.delegated_nonces,
                ..s
            })
        }),
{
    crate::registry::lemma_stored_stream(s, r.stream_id);
    let a = s.streams[r.stream_id];
    crate::laws::payments::law_delegated_split(s, call, r);
    crate::laws::payments::law_payable_bounded(
        a,
        s.lookback_of(r.stream_id),
        call.timestamp,
        call.balance,
    );
    crate::laws::payments::law_earned_bounded(a, call.timestamp);
    crate::laws::books::law_delegated_withdrawal_settles(s, call, r);
    assert(s.streams.insert(r.stream_id, a) =~= s.streams);
}

/// Whether a delegated withdrawal is accepted.
pub proof fn law_delegated_withdrawal_accepted(
    s: ContractState,
    call: Call,
    r: DelegatedWithdrawal,
)
    ensures
        ({
            let a = s.streams[r.stream_id];
            let runs = a.status == StreamStatus::Active || a.status == StreamStatus::Paused;
            let gross = s.delegated_gross(call, r.stream_id);
            let nonce = if s.delegated_nonces.dom().contains(a.recipient) {
                s.delegated_nonces[a.recipient]
            } else {
                0
            };
            s.delegated_withdraw_error(call, r) is None <==> {
                &&& !s.emergency_paused
                &&& call.signers@.contains(r.relayer)
                &&& call.timestamp <= r.deadline
                &&& s.streams.dom().contains(r.stream_id)
                &&& r.nonce == nonce
                &&& r.relayer_fee >= 0
                &&& a.last_withdraw_ledger == 0 || call.sequence > a.last_withdraw_ledger
                &&& a.recipient == Address::Account(r.recipient_public_key)
                &&& r.signature_valid
                &&& a.status != StreamStatus::Completed
                &&& a.status == StreamStatus::Paused ==> call.timestamp >= a.end_time
                &&& runs && s.last_accrual_timestamp is Some ==> s.last_accrual_timestamp->0
                    <= call.timestamp
                &&& s.config is Some
                &&& r.relayer_fee <= gross
                &&& r.expected_minimum_amount <= gross - r.relayer_fee
            }
        }),
{
}

/// The parts of a pool: a participant with a share may have taken, in all, no
/// more than that share of what was earned, rounded down, and takes what is
/// left of it, if the contract holds enough; dust waits as in other streams.
pub proof fn law_pool_payout_formula(s: ContractState, call: Call, id: u64, who: Address)
    ensures
        ({
            let stream = s.streams[id];
            let earned = stream.spec_earned(call.timestamp);
            let seat = PoolSeat { stream_id: id, recipient: who };
            let taken = if s.pool_withdrawn.dom().contains(seat) {
                s.pool_withdrawn[seat] as int
            } else {
                0
            };
            let part = (earned * s.pool_share(id, who)) / s.pool_total(id);
            let payable = if part - taken < call.balance {
                part - taken
            } else {
                call.balance as int
            };
            let over = stream.status == StreamStatus::Cancelled || stream.status
                == StreamStatus::Completed || call.timestamp >= stream.end_time;
            s.pool_payout(call, id, who) == if payable <= 0 || (!over && payable
                < stream.withdraw_dust_threshold && stream.withdrawn_amount + payable
                < stream.deposit_amount) {
                0
            } else {
                payable
            }
        }),
{
}

/// A withdrawal from a pool pays the participant who asks, and books it for the
/// participant and for the stream.
pub proof fn law_pool_withdrawal_outcome(s: ContractState, call: Call, id: u64, who: Address)
    requires
        s.wf(),
        s.withdraw_from_pool_error(call, id, who) is None,
        s.total_liabilities >= 0,
        s.pool_payout(call, id, who) <= i128::MAX,
        s.streams[id].withdrawn_amount + s.pool_payout(call, id, who) <= i128::MAX,
    ensures
        ({
            let a = s.streams[id];
            let amount = s.pool_payout(call, id, who) as i128;
            let seat = PoolSeat { stream_id: id, recipient: who };
            let t = s.withdraw_from_pool_step(call, id, who);
            let b = t.streams[id];
            let runs = a.status == StreamStatus::Active || a.status == StreamStatus::Paused;
            let drained = runs && amount > 0 && a.withdrawn_amount + amount >= a.deposit_amount;
            let announced = s.effects.push(Effect::Push { to: who, amount }).push(
                Effect::Emit(
                    Event::Withdrew(Withdrawal { stream_id: id, recipient: who, amount }),
                ),
            );
            &&& call.signers@.contains(who)
            &&& b == (Stream {
                withdrawn_amount: (a.withdrawn_amount + amount) as i128,
                last_withdraw_ledger: if amount > 0 {
                    call.sequence
                } else {
                    a.last_withdraw_ledger
                },
                status: if drained {
                    StreamStatus::Completed
                } else {
                    a.status
                },
                ..a
            })
            &&& t.streams == s.streams.insert(id, b)
            &&& t.effects == if amount == 0 {
                s.effects
            } else if drained {
                announced.push(Effect::Emit(Event::Status(StreamEvent::StreamCompleted(id))))
            } else {
                announced
            }
            &&& t.last_accrual_timestamp == if runs {
                Some(call.timestamp)
            } else {
                s.last_accrual_timestamp
            }
            &&& t.total_liabilities == s.total_liabilities - amount
            &&& amount > 0 ==> t.pool_withdrawn == s.pool_withdrawn.insert(
                seat,
                (amount + if s.pool_withdrawn.dom().contains(seat) {
                    s.pool_withdrawn[seat]
                } else {
                    0
                }) as i128,
            )
            &&& t == (ContractState {
                streams: t.streams,
                effects: t.effects,
                total_liabilities: t.total_liabilities,
                last_accrual_timestamp: t.last_accrual_timestamp,
                paused_stream_count: t.paused_stream_count,
                pool_withdrawn: t.pool_withdrawn,
                ..s
            })
        }),
{
    crate::registry::lemma_stored_stream(s, id);
    assert(s.streams.insert(id, s.streams[id]) =~= s.streams);
}

/// An automatic claim takes what was earned and not withdrawn, limited by a
/// lookback window.
pub proof fn law_auto_claim_formula(s: ContractState, call: Call, id: u64)
    requires
        s.streams[id].sound(),
    ensures
        ({
            let stream = s.streams[id];
            let last = if call.timestamp < stream.end_time {
                call.timestamp as int
            } else {
                stream.end_time as int
            };
            let earned = stream.spec_accrued_at(last);
            let due = if earned < stream.withdrawn_amount {
                0
            } else {
                earned - stream.withdrawn_amount
            };
            let first = if s.lookback.dom().contains(id) && 5 * s.lookback[id] <= last {
                last - 5 * s.lookback[id]
            } else {
                0
            };
            let recent = earned - stream.spec_accrued_at(first);
            s.auto_claim_amount(call, id) == if s.lookback.dom().contains(id) && recent < due
                && !(stream.kind == StreamKind::CliffOnly && earned > 0) {
                recent
            } else {
                due
            }
        }),
{
    let stream = s.streams[id];
    let last = if call.timestamp < stream.end_time {
        call.timestamp as int
    } else {
        stream.end_time as int
    };
    if call.timestamp >= stream.end_time {
        crate::laws::accrual::law_nothing_after_end(stream, call.timestamp as int);
    }
    crate::laws::accrual::law_accrued_bounded(stream, last);
    if s.lookback.dom().contains(id) {
        let first = if 5 * s.lookback[id] <= last {
            last - 5 * s.lookback[id]
        } else {
            0
        };
        crate::laws::accrual::law_accrued_monotone(stream, first, last);
    }
}

/// An automatic claim pays the address that the recipient has chosen.
pub proof fn law_auto_claim_outcome(s: ContractState, call: Call, id: u64)
    requires
        s.wf(),
        s.trigger_auto_claim_error(call, id) is None,
        s.total_liabilities >= 0,
    ensures
        ({
            let a = s.streams[id];
            let amount = s.auto_claim_amount(call, id) as i128;
            let destination = s.auto_claim[id];
            let t = s.trigger_auto_claim_step(call, id);
            let b = t.streams[id];
            let drained = amount > 0 && a.withdrawn_amount + amount >= a.deposit_amount;
            let announced = s.effects.push(
                Effect::Emit(
                    Event::AutoClaimed(AutoClaimTriggered { stream_id: id, destination, amount }),
                ),
            ).push(
                Effect::Emit(
                    Event::AutoClaimWithdrew(
                        WithdrawalTo { stream_id: id, recipient: a.recipient, destination, amount },
                    ),
                ),
            );
            let completed = if drained {
                announced.push(Effect::Emit(Event::Status(StreamEvent::StreamCompleted(id))))
            } else {
                announced
            };
            &&& 0 <= amount == s.auto_claim_amount(call, id)
            &&& b == (Stream {
                withdrawn_amount: (a.withdrawn_amount + amount) as i128,
                status: if drained {
                    StreamStatus::Completed
                } else {
                    a.status
                },
                ..a
            })
            &&& b.withdrawn_amount == a.withdrawn_amount + amount
            &&& t.streams == s.streams.insert(id, b)
            &&& t.effects == if amount == 0 {
                s.effects
            } else {
                completed.push(Effect::Push { to: destination, amount })
            }
            &&& t.total_liabilities == s.total_liabilities - amount
            &&& t == (ContractState {
                streams: t.streams,
                effects: t.effects,
                total_liabilities: t.total_liabilities,
                last_accrual_timestamp: Some(call.timestamp),
                paused_stream_count: t.paused_stream_count,
                ..s
            })
        }),
{
    crate::registry::lemma_stored_stream(s, id);
    crate::laws::streams::lemma_auto_claim(s, call, id);
    let a = s.streams[id];
    crate::laws::accrual::law_accrued_bounded(a, call.timestamp as int);
    assert(s.streams.insert(id, a) =~= s.streams);
}

/// Whether an automatic claim is accepted: by anybody, on a stream that runs
/// and is past its end, with a destination that is not the contract, while no
/// other transfer is under way.
pub proof fn law_auto_claim_accepted(s: ContractState, call: Call, id: u64)
    ensures
        ({
            let a = s.streams[id];
            s.trigger_auto_claim_error(call, id) is None <==> {
                &&& !s.emergency_paused
                &&& s.streams.dom().contains(id)
                &&& a.status == StreamStatus::Active || a.status == StreamStatus::Paused
                &&& s.last_accrual_timestamp is Some ==> s.last_accrual_timestamp->0
                    <= call.timestamp
                &&& call.timestamp >= a.end_time
                &&& s.auto_claim.dom().contains(id)
                &&& s.auto_claim[id] != call.contract
                &&& s.locked ==> s.auto_claim_amount(call, id) == 0
            }
        }),
{
}

/// What could be claimed at a given time: what was earned by then, or by the
/// time of cancellation if that was earlier, and not withdrawn, within the
/// lookback window.
pub proof fn law_claimable_formula(s: ContractState, id: u64, timestamp: u64)
    requires
        s.streams[id].sound(),
    ensures
        ({
            let stream = s.streams[id];
            let at = if stream.status == StreamStatus::Cancelled && stream.cancelled_at->0
                < timestamp {
                stream.cancelled_at->0
            } else {
                timestamp
            };
            let earned = stream.spec_accrued_at(at as int);
            let due = earned - stream.withdrawn_amount;
            let last = if at < stream.end_time {
                at as int
            } else {
                stream.end_time as int
            };
            let first = if s.lookback.dom().contains(id) && 5 * s.lookback[id] <= last {
                last - 5 * s.lookback[id]
            } else {
                0
            };
            let recent = stream.spec_accrued_at(last) - stream.spec_accrued_at(first);
            let limited = s.lookback.dom().contains(id) && recent < due && !(stream.kind
                == StreamKind::CliffOnly && earned > 0);
            let allowed = if limited {
                recent
            } else {
                due
            };
            s.claimable_at(id, timestamp) == if stream.status == StreamStatus::Completed || allowed
                < 0 {
                0
            } else {
                allowed
            }
        }),
{
    let stream = s.streams[id];
    let at = if stream.status == StreamStatus::Cancelled && stream.cancelled_at->0 < timestamp {
        stream.cancelled_at->0
    } else {
        timestamp
    };
    let last = if at < stream.end_time {
        at as int
    } else {
        stream.end_time as int
    };
    crate::laws::accrual::law_accrued_bounded(stream, at as int);
    crate::laws::accrual::law_accrued_bounded(stream, last);
    if s.lookback.dom().contains(id) {
        let first = if 5 * s.lookback[id] <= last {
            last - 5 * s.lookback[id]
        } else {
            0
        };
        crate::laws::accrual::law_accrued_monotone(stream, first, last);
    }
}

} // verus!
