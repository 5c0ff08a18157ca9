//! Why requests are refused: for each, the conditions in the order in which
//! they are asked. The first one that does not hold decides.

use crate::delegated::DelegatedWithdrawal;
use crate::state::{Call, ContractState};
use crate::types::{
    Address, Bytes, ContractError, CreateStreamParams, Metadata, PoolShare, Stream, StreamKind,
    StreamStatus, Text, Word, WithdrawToParam,
};
use std::rc::Rc;
use vstd::prelude::*;

verus! {

/// Conditions that were asked in order, and the refusal that the first one that
/// did not hold gave.
pub struct Conditions {
    pub refusal: Option<ContractError>,
}

impl Conditions {
    /// The first condition, and the refusal if it does not hold.
    pub open spec fn first(holds: bool, error: ContractError) -> Self {
        Conditions {
            refusal: if holds {
                None
            } else {
                Some(error)
            },
        }
    }

    /// One more condition, asked if all before it hold.
    pub open spec fn next(self, holds: bool, error: ContractError) -> Self {
        Conditions {
            refusal: if self.refusal is Some || holds {
                self.refusal
            } else {
                Some(error)
            },
        }
    }

    /// More conditions, asked if all before them hold.
    pub open spec fn also(self, more: Self) -> Self {
        if self.refusal is Some {
            self
        } else {
            more
        }
    }
}

/// Whether `who` has signed.
pub open spec fn signed(call: Call, who: Address) -> bool {
    call.signers@.contains(who)
}

/// Whether a stream is neither completed nor cancelled.
pub open spec fn live(stream: Stream) -> bool {
    stream.status == StreamStatus::Active || stream.status == StreamStatus::Paused
}

/// Whether time has not run back.
pub open spec fn timely(s: ContractState, call: Call) -> bool {
    s.last_accrual_timestamp is Some ==> s.last_accrual_timestamp->0 <= call.timestamp
}

/// The one who may withdraw.
pub open spec fn claimant(stream: Stream) -> Address {
    if stream.claim_owner is Some {
        stream.claim_owner->0
    } else {
        stream.recipient
    }
}

/// What stands first for most requests: no emergency, and a stream.
pub open spec fn found(s: ContractState, id: u64) -> Conditions {
    Conditions::first(!s.emergency_paused, ContractError::ContractPaused).next(
        s.streams.dom().contains(id),
        ContractError::StreamNotFound,
    )
}

/// Administration is for the administrator.
pub open spec fn administered(s: ContractState, call: Call) -> Conditions {
    Conditions::first(s.config is Some, ContractError::InvalidState).next(
        signed(call, s.config->0.admin),
        ContractError::Unauthorized,
    )
}

/// Withdrawals, and claims in batches.
pub proof fn law_withdrawals_refused(
    s: ContractState,
    call: Call,
    id: u64,
    destination: Address,
    who: Address,
)
    ensures
        ({
            let a = s.streams[id];
            let soon = a.last_withdraw_ledger != 0 && call.sequence <= a.last_withdraw_ledger;
            let shut = a.status == StreamStatus::Paused && call.timestamp < a.end_time;
            &&& s.withdraw_error(call, id) == found(s, id).next(
                signed(call, claimant(a)),
                ContractError::Unauthorized,
            ).next(!soon, ContractError::WithdrawalTooFrequent).next(
                a.status != StreamStatus::Completed && !shut,
                ContractError::InvalidState,
            ).next(live(a) ==> timely(s, call), ContractError::ClockRegression).next(
                s.config is Some,
                ContractError::InvalidState,
            ).refusal
            &&& s.withdraw_to_error(call, id, destination) == found(s, id).next(
                signed(call, claimant(a)),
                ContractError::Unauthorized,
            ).next(destination != call.contract, ContractError::InvalidParams).next(
                a.status != StreamStatus::Completed && !shut,
                ContractError::InvalidState,
            ).next(live(a) ==> timely(s, call), ContractError::ClockRegression).next(
                s.config is Some,
                ContractError::InvalidState,
            ).refusal
            &&& s.batch_item_error(call, who, id) == Conditions::first(
                s.streams.dom().contains(id),
                ContractError::StreamNotFound,
            ).next(claimant(a) == who, ContractError::Unauthorized).next(
                !soon,
                ContractError::WithdrawalTooFrequent,
            ).next(!shut, ContractError::InvalidState).refusal
            &&& s.withdraw_from_pool_error(call, id, who) == Conditions::first(
                !s.emergency_paused,
                ContractError::ContractPaused,
            ).next(signed(call, who), ContractError::Unauthorized).next(
                s.streams.dom().contains(id),
                ContractError::StreamNotFound,
            ).next(
                a.is_pooled == Some(true) && a.status != StreamStatus::Completed && !shut,
                ContractError::InvalidState,
            ).next(s.pool_shares.dom().contains(id), ContractError::StreamNotFound).next(
                s.pool_share(id, who) != 0,
                ContractError::Unauthorized,
            ).next(live(a) ==> timely(s, call), ContractError::ClockRegression).next(
                a.spec_earned(call.timestamp) * s.pool_share(id, who) <= u128::MAX,
                ContractError::ArithmeticOverflow,
            ).next(s.config is Some, ContractError::InvalidState).refusal
            &&& s.trigger_auto_claim_error(call, id) == found(s, id).next(
                live(a),
                ContractError::InvalidState,
            ).next(timely(s, call), ContractError::ClockRegression).next(
                a.end_time <= call.timestamp,
                ContractError::InvalidState,
            ).next(
                s.auto_claim.dom().contains(id) && s.auto_claim[id] != call.contract,
                ContractError::InvalidParams,
            ).next(
                s.auto_claim_amount(call, id) == 0 || !s.locked,
                ContractError::InvalidState,
            ).refusal
        }),
{
}

/// Batches of claims: the conditions on the whole batch come first, then those
/// on its entries, one after the other.
pub proof fn law_claim_batches_refused(
    s: ContractState,
    call: Call,
    who: Address,
    withdrawals: Seq<WithdrawToParam>,
    ids: Seq<u64>,
    n: int,
)
    ensures
        ({
            let named = crate::batch::targets(withdrawals);
            let apart = forall|i: int, j: int| 0 <= i < j < named.len() ==> named[i] != named[j];
            let away = forall|i: int|
                0 <= i < withdrawals.len() ==> (#[trigger] withdrawals[i]).destination
                    != call.contract;
            &&& named.len() == withdrawals.len()
            &&& s.batch_withdraw_error(call, who, withdrawals) == Conditions::first(
                !s.emergency_paused,
                ContractError::ContractPaused,
            ).next(signed(call, who), ContractError::Unauthorized).next(
                apart,
                ContractError::DuplicateStreamId,
            ).next(away, ContractError::InvalidParams).next(
                s.config is Some,
                ContractError::InvalidState,
            ).next(timely(s, call), ContractError::ClockRegression).also(
                Conditions {
                    refusal: s.batch_items_error(call, who, named, withdrawals.len() as int),
                },
            ).refusal
            &&& s.batch_items_error(call, who, ids, 0) is None
            &&& n > 0 ==> s.batch_items_error(call, who, ids, n) == (Conditions {
                refusal: s.batch_items_error(call, who, ids, n - 1),
            }).also(
                Conditions { refusal: s.batch_item_error(call, who, ids[n - 1]) },
            ).refusal
            &&& ids.len() > 0 ==> s.own_batch_error(call, who, ids) == s.batch_withdraw_error(
                call,
                who,
                Seq::new(
                    ids.len(),
                    |i: int| WithdrawToParam { stream_id: ids[i], destination: who },
                ),
            )
            &&& ids.len() == 0 ==> s.own_batch_error(call, who, ids) == Conditions::first(
                !s.emergency_paused,
                ContractError::ContractPaused,
            ).next(signed(call, who), ContractError::Unauthorized).refusal
            &&& s.own_batch_step(call, ids) == if ids.len() > 0 {
                s.batch_step(call, ids, ids.len() as int)
            } else {
                s
            }
        }),
{
}

/// Delegated withdrawals, before and after the signature counts.
pub proof fn law_delegated_withdrawals_refused(
    s: ContractState,
    call: Call,
    r: DelegatedWithdrawal,
)
    ensures
        ({
            let a = s.streams[r.stream_id];
            let soon = a.last_withdraw_ledger != 0 && call.sequence <= a.last_withdraw_ledger;
            let shut = a.status == StreamStatus::Paused && call.timestamp < a.end_time;
            let gross = s.delegated_gross(call, r.stream_id);
            let nonce = if s.delegated_nonces.dom().contains(a.recipient) {
                s.delegated_nonces[a.recipient]
            } else {
                0
            };
            let admitted = Conditions::first(
                !s.emergency_paused,
                ContractError::ContractPaused,
            ).next(signed(call, r.relayer), ContractError::Unauthorized).next(
                call.timestamp <= r.deadline,
                ContractError::SignatureDeadlineExpired,
            ).next(
                s.streams.dom().contains(r.stream_id),
                ContractError::StreamNotFound,
            ).next(r.nonce == nonce, ContractError::InvalidSignature).next(
                0 <= r.relayer_fee,
                ContractError::InvalidParams,
            ).next(!soon, ContractError::WithdrawalTooFrequent).next(
                a.recipient == Address::Account(r.recipient_public_key),
                ContractError::InvalidSignature,
            );
            &&& s.delegated_nonce(a.recipient) == nonce
            &&& s.delegated_admission_error(call, r) == admitted.refusal
            &&& s.delegated_withdraw_error(call, r) == admitted.next(
                r.signature_valid,
                ContractError::InvalidSignature,
            ).next(
                a.status != StreamStatus::Completed && !shut,
                ContractError::InvalidState,
            ).next(live(a) ==> timely(s, call), ContractError::ClockRegression).next(
                s.config is Some,
                ContractError::InvalidState,
            ).next(r.relayer_fee <= gross, ContractError::InsufficientBalance).next(
                r.expected_minimum_amount <= gross - r.relayer_fee,
                ContractError::BelowMinimumAmount,
            ).refusal
        }),
{
}

/// Pauses and resumptions, by the sender and by the administrator.
pub proof fn law_pauses_refused(s: ContractState, call: Call, id: u64)
    ensures
        ({
            let a = s.streams[id];
            let over = !live(a) || a.end_time <= call.timestamp;
            let rested = a.last_pause_toggle_ledger + 17 <= call.sequence;
            let pausable = Conditions::first(
                a.status != StreamStatus::Paused,
                ContractError::StreamAlreadyPaused,
            ).next(!over, ContractError::StreamTerminalState).next(
                rested,
                ContractError::PauseCooldownActive,
            );
            let resumable = Conditions::first(
                a.status != StreamStatus::Active,
                ContractError::StreamNotPaused,
            ).next(!over, ContractError::StreamTerminalState).next(
                rested,
                ContractError::PauseCooldownActive,
            );
            let by_sender = found(s, id).next(signed(call, a.sender), ContractError::Unauthorized);
            let by_admin = administered(s, call).next(
                s.streams.dom().contains(id),
                ContractError::StreamNotFound,
            );
            &&& s.pause_stream_error(call, id) == by_sender.also(pausable).refusal
            &&& s.resume_stream_error(call, id) == by_sender.also(resumable).refusal
            &&& s.pause_as_admin_error(call, id) == by_admin.also(pausable).refusal
            &&& s.resume_as_admin_error(call, id) == by_admin.also(resumable).refusal
            &&& s.bulk_resume_item_error(call, id) == Conditions::first(
                s.streams.dom().contains(id),
                ContractError::StreamNotFound,
            ).also(resumable).refusal
        }),
{
}

/// Batches of resumptions and cancellations.
pub proof fn law_bulk_requests_refused(
    s: ContractState,
    call: Call,
    sender: Address,
    ids: Seq<u64>,
    n: int,
)
    requires
        n > 0,
    ensures
        ({
            let apart = forall|i: int, j: int| 0 <= i < j < ids.len() ==> ids[i] != ids[j];
            let id = ids[n - 1];
            let a = s.streams[id];
            let count = ids.len() as int;
            &&& s.bulk_resume_error(call, ids) == administered(s, call).next(
                apart,
                ContractError::DuplicateStreamId,
            ).also(Conditions { refusal: s.bulk_resume_items_error(call, ids, count) }).refusal
            &&& s.bulk_resume_items_error(call, ids, 0) is None
            &&& s.bulk_resume_items_error(call, ids, n) == (Conditions {
                refusal: s.bulk_resume_items_error(call, ids, n - 1),
            }).also(Conditions { refusal: s.bulk_resume_item_error(call, id) }).refusal
            &&& s.bulk_cancel_error(call, sender, ids) == Conditions::first(
                !s.emergency_paused,
                ContractError::ContractPaused,
            ).next(signed(call, sender), ContractError::Unauthorized).next(
                apart,
                ContractError::DuplicateStreamId,
            ).also(Conditions { refusal: s.bulk_cancel_items_error(sender, ids, count) }).next(
                s.bulk_refund(call.timestamp, ids, count) <= i128::MAX,
                ContractError::ArithmeticOverflow,
            ).refusal
            &&& s.bulk_cancel_items_error(sender, ids, 0) is None
            &&& s.bulk_cancel_items_error(sender, ids, n) == (Conditions {
                refusal: s.bulk_cancel_items_error(sender, ids, n - 1),
            }).also(
                Conditions::first(
                    s.streams.dom().contains(id),
                    ContractError::StreamNotFound,
                ).next(
                    a.sender == sender && a.irrevocable != Some(true),
                    ContractError::Unauthorized,
                ).next(live(a), ContractError::InvalidState),
            ).refusal
        }),
{
}

/// Cancellations by the sender, the administrator, the witness and a keeper.
pub proof fn law_cancellations_refused(
    s: ContractState,
    call: Call,
    id: u64,
    key: Word,
    deadline: u64,
    signature_valid: bool,
    keeper: Address,
)
    ensures
        ({
            let a = s.streams[id];
            let open = Conditions::first(
                a.irrevocable != Some(true),
                ContractError::Unauthorized,
            ).next(live(a), ContractError::InvalidState).next(
                timely(s, call),
                ContractError::ClockRegression,
            );
            let admitted = Conditions::first(
                !s.emergency_paused,
                ContractError::ContractPaused,
            ).next(call.timestamp <= deadline, ContractError::SignatureDeadlineExpired).next(
                s.streams.dom().contains(id),
                ContractError::StreamNotFound,
            ).next(a.witness is Some, ContractError::InvalidParams).next(
                a.witness->0 == Address::Account(key),
                ContractError::InvalidSignature,
            );
            let gross = a.deposit_amount - a.spec_accrued_at(call.timestamp as int);
            let fee = gross * 50 / 10_000;
            &&& s.cancel_stream_error(call, id) == found(s, id).next(
                signed(call, a.sender),
                ContractError::Unauthorized,
            ).also(open).refusal
            &&& s.cancel_as_admin_error(call, id) == administered(s, call).next(
                s.streams.dom().contains(id),
                ContractError::StreamNotFound,
            ).also(open).refusal
            &&& s.witness_admission_error(call, id, key, deadline) == admitted.refusal
            &&& s.witnessed_cancel_error(call, id, key, deadline, signature_valid)
                == admitted.next(signature_valid, ContractError::InvalidSignature).also(
                open,
            ).refusal
            &&& s.keeper_cancel_error(call, id, keeper) == Conditions::first(
                !s.emergency_paused,
                ContractError::ContractPaused,
            ).next(signed(call, keeper), ContractError::Unauthorized).next(
                s.streams.dom().contains(id),
                ContractError::StreamNotFound,
            ).next(live(a), ContractError::InvalidState).next(
                a.irrevocable != Some(true),
                ContractError::Unauthorized,
            ).next(
                a.end_time + 604_800 <= u64::MAX,
                ContractError::ArithmeticOverflow,
            ).next(
                a.end_time + 604_800 <= call.timestamp,
                ContractError::KeeperGracePeriodNotElapsed,
            ).next(gross * 50 <= i128::MAX, ContractError::ArithmeticOverflow).next(
                fee <= 0 || s.total_keeper_fees_paid + fee <= i128::MAX,
                ContractError::ArithmeticOverflow,
            ).refusal
            &&& s.keeper_fee_error(id) == Conditions::first(
                s.streams.dom().contains(id),
                ContractError::StreamNotFound,
            ).next(live(a), ContractError::InvalidState).next(
                a.end_time + 604_800 <= u64::MAX,
                ContractError::ArithmeticOverflow,
            ).refusal
        }),
{
}

/// Changes of the rate.
pub proof fn law_rate_changes_refused(
    s: ContractState,
    call: Call,
    id: u64,
    rate: i128,
    caller: Address,
)
    ensures
        ({
            let a = s.streams[id];
            let rested = a.last_rate_change_ledger == 0 || a.last_rate_change_ledger + 17
                <= call.sequence || call.sequence == u32::MAX;
            let begun = found(s, id).next(
                a.kind == StreamKind::Linear,
                ContractError::UnsupportedStreamKind,
            ).next(rested, ContractError::RateCooldownActive).next(
                signed(call, a.sender),
                ContractError::Unauthorized,
            );
            let whole = rate * (a.end_time - a.start_time);
            let future = rate * (a.end_time - call.timestamp);
            let sum = a.spec_built_up(call.timestamp as int) + future;
            &&& s.update_rate_per_second_error(call, id, rate) == begun.next(
                live(a),
                ContractError::InvalidState,
            ).next(
                0 < rate && a.rate_per_second < rate,
                ContractError::InvalidParams,
            ).next(rate <= s.max_rate_per_second, ContractError::RateCapExceeded).next(
                whole <= i128::MAX,
                ContractError::ArithmeticOverflow,
            ).next(whole <= a.deposit_amount, ContractError::InsufficientDeposit).next(
                timely(s, call),
                ContractError::ClockRegression,
            ).refusal
            &&& s.decrease_rate_error(call, id, rate) == begun.next(
                live(a),
                ContractError::StreamTerminalState,
            ).next(timely(s, call), ContractError::ClockRegression).next(
                call.timestamp < a.end_time,
                ContractError::InvalidState,
            ).next(0 < rate < a.rate_per_second, ContractError::InvalidParams).next(
                future <= i128::MAX && sum <= i128::MAX,
                ContractError::ArithmeticOverflow,
            ).next(sum <= a.deposit_amount, ContractError::InvalidState).refusal
            &&& s.update_rate_error(call, id, rate, caller) == Conditions::first(
                !s.emergency_paused,
                ContractError::ContractPaused,
            ).next(signed(call, caller), ContractError::Unauthorized).next(
                s.streams.dom().contains(id),
                ContractError::StreamNotFound,
            ).next(live(a), ContractError::StreamTerminalState).next(
                s.config is Some,
                ContractError::InvalidState,
            ).next(
                caller == a.sender || caller == s.config->0.admin,
                ContractError::Unauthorized,
            ).next(0 < rate, ContractError::InvalidParams).refusal
        }),
{
}

/// Changes of the end and of the deposit.
pub proof fn law_schedule_changes_refused(
    s: ContractState,
    call: Call,
    id: u64,
    end_time: u64,
    funder: Address,
    amount: i128,
)
    requires
        s.wf(),
    ensures
        ({
            let a = s.streams[id];
            let now = call.timestamp;
            let whole = a.rate_per_second * (end_time - a.start_time);
            let linear = found(s, id).next(
                a.kind == StreamKind::Linear,
                ContractError::UnsupportedStreamKind,
            );
            &&& s.shorten_error(call, id, end_time) == linear.next(
                signed(call, a.sender),
                ContractError::Unauthorized,
            ).next(live(a), ContractError::InvalidState).next(
                a.irrevocable != Some(true),
                ContractError::Unauthorized,
            ).next(timely(s, call), ContractError::ClockRegression).next(
                now < end_time < a.end_time && a.start_time < end_time && a.cliff_time <= end_time,
                ContractError::InvalidParams,
            ).next(whole <= i128::MAX, ContractError::ArithmeticOverflow).next(
                whole <= a.deposit_amount,
                ContractError::InvalidParams,
            ).refusal
            &&& s.extend_error(call, id, end_time) == linear.next(
                signed(call, a.sender),
                ContractError::Unauthorized,
            ).next(live(a), ContractError::InvalidState).next(
                timely(s, call),
                ContractError::ClockRegression,
            ).next(
                a.end_time < end_time && a.start_time < end_time && a.cliff_time <= end_time && now
                    <= end_time,
                ContractError::InvalidParams,
            ).next(whole <= i128::MAX, ContractError::ArithmeticOverflow).next(
                whole <= a.deposit_amount,
                ContractError::InsufficientDeposit,
            ).refusal
            &&& s.top_up_error(call, id, funder, amount) == Conditions::first(
                !s.emergency_paused,
                ContractError::ContractPaused,
            ).next(0 < amount, ContractError::InvalidParams).next(
                s.streams.dom().contains(id),
                ContractError::StreamNotFound,
            ).next(a.kind == StreamKind::Linear, ContractError::UnsupportedStreamKind).next(
                live(a),
                ContractError::InvalidState,
            ).next(timely(s, call), ContractError::ClockRegression).next(
                now < a.end_time,
                ContractError::InvalidState,
            ).next(signed(call, funder), ContractError::Unauthorized).next(
                a.deposit_amount + amount <= i128::MAX && s.total_liabilities + amount
                    <= i128::MAX,
                ContractError::ArithmeticOverflow,
            ).refusal
        }),
{
    if s.streams.dom().contains(id) {
        crate::registry::lemma_stored_stream(s, id);
        crate::laws::accrual::law_accrued_bounded(s.streams[id], call.timestamp as int);
    }
}

/// Delegations.
pub proof fn law_delegations_refused(
    s: ContractState,
    call: Call,
    id: u64,
    recipient: Address,
    share_bps: u32,
    new_recipient: Address,
)
    ensures
        ({
            let a = s.streams[id];
            let now = call.timestamp;
            let part = a.rate_per_second * share_bps / 10_000;
            let rest = a.rate_per_second - part;
            let future = rest * (a.end_time - now);
            let sum = a.spec_built_up(now as int) + future;
            s.delegate_error(call, id, recipient, share_bps, new_recipient) == found(s, id).next(
                a.kind == StreamKind::Linear,
                ContractError::UnsupportedStreamKind,
            ).next(
                signed(call, recipient) && a.recipient == recipient,
                ContractError::Unauthorized,
            ).next(0 < share_bps <= 10_000, ContractError::InvalidParams).next(
                recipient != new_recipient,
                ContractError::CyclicDelegation,
            ).next(live(a), ContractError::StreamTerminalState).next(
                timely(s, call),
                ContractError::ClockRegression,
            ).next(now < a.end_time, ContractError::InvalidState).next(
                a.delegation_depth < 3,
                ContractError::DelegationDepthExceeded,
            ).also(Conditions { refusal: s.lineage_error(a, new_recipient) }).next(
                a.rate_per_second * share_bps <= i128::MAX,
                ContractError::ArithmeticOverflow,
            ).next(0 < part && 0 < rest, ContractError::InvalidParams).next(
                future <= i128::MAX && sum <= i128::MAX,
                ContractError::ArithmeticOverflow,
            ).next(sum <= a.deposit_amount, ContractError::InvalidState).refusal
        }),
{
}

/// What is asked of a schedule: amounts first, then the two sides, then the
/// times, then the cover.
pub open spec fn scheduled(
    max_rate: i128,
    sender: Address,
    recipient: Address,
    deposit: i128,
    rate: i128,
    now: u64,
    start_time: u64,
    cliff_time: u64,
    end_time: u64,
    kind: StreamKind,
) -> Conditions {
    let total = match kind {
        StreamKind::Linear => rate * (end_time - start_time),
        StreamKind::CliffSlope => rate * (end_time - cliff_time),
        StreamKind::CliffOnly => 0,
    };
    Conditions::first(0 < deposit, ContractError::InvalidParams).next(
        if kind == StreamKind::CliffOnly {
            rate == 0
        } else {
            0 < rate <= max_rate
        },
        ContractError::InvalidParams,
    ).next(sender != recipient && start_time < end_time, ContractError::InvalidParams).next(
        now <= start_time,
        ContractError::StartTimeInPast,
    ).next(start_time <= cliff_time <= end_time, ContractError::InvalidParams).next(
        total <= i128::MAX,
        ContractError::InvalidParams,
    ).next(total <= deposit, ContractError::InsufficientDeposit)
}

/// What is asked of a memo and of metadata.
pub open spec fn attached(memo: Option<Bytes>, metadata: Option<Rc<Metadata>>) -> Conditions {
    let entries = metadata->0@;
    Conditions::first(
        memo is Some ==> memo->0@.len() <= 256,
        ContractError::InvalidParams,
    ).next(
        metadata is Some ==> {
            &&& entries.len() <= 8
            &&& forall|i: int|
                #![trigger entries[i]]
                0 <= i < entries.len() ==> entries[i].0@.len() <= 32 && entries[i].1@.len() <= 128
            &&& crate::creation::metadata_bytes(entries, entries.len() as int) <= 512
        },
        ContractError::MetadataTooLarge,
    )
}

/// New streams, alone and in batches.
pub proof fn law_creations_refused(
    s: ContractState,
    call: Call,
    sender: Address,
    params: CreateStreamParams,
    batch: Seq<CreateStreamParams>,
    n: int,
)
    requires
        n > 0,
    ensures
        ({
            let count = batch.len() as int;
            let entry = batch[n - 1];
            let asked = |p: CreateStreamParams|
                scheduled(
                    s.max_rate_per_second,
                    sender,
                    p.recipient,
                    p.deposit_amount,
                    if p.kind == StreamKind::CliffOnly {
                        0
                    } else {
                        p.rate_per_second
                    },
                    call.timestamp,
                    p.start_time,
                    p.cliff_time,
                    p.end_time,
                    p.kind,
                );
            &&& s.create_error(call, sender, params) == Conditions::first(
                signed(call, sender),
                ContractError::Unauthorized,
            ).next(
                !s.emergency_paused && !s.creation_paused,
                ContractError::ContractPaused,
            ).also(asked(params)).next(s.config is Some, ContractError::InvalidState).also(
                attached(params.memo, params.metadata),
            ).refusal
            &&& params.entry_error(s.max_rate_per_second, sender, call.timestamp) == asked(
                params,
            ).also(attached(params.memo, params.metadata)).refusal
            &&& count == 0 ==> s.create_all_error(call, sender, batch) == Conditions::first(
                signed(call, sender),
                ContractError::Unauthorized,
            ).refusal
            &&& count > 0 ==> s.create_all_error(call, sender, batch) == Conditions::first(
                signed(call, sender),
                ContractError::Unauthorized,
            ).next(
                !s.emergency_paused && !s.creation_paused,
                ContractError::ContractPaused,
            ).also(
                Conditions { refusal: s.batch_error(sender, call.timestamp, batch, count) },
            ).next(s.config is Some, ContractError::InvalidState).also(
                Conditions { refusal: crate::creation::batch_payload_error(batch, count) },
            ).refusal
            &&& s.batch_error(sender, call.timestamp, batch, 0) is None
            &&& s.batch_error(sender, call.timestamp, batch, n) == (Conditions {
                refusal: s.batch_error(sender, call.timestamp, batch, n - 1),
            }).also(asked(entry)).next(
                crate::creation::total_deposit(batch, n) <= i128::MAX,
                ContractError::ArithmeticOverflow,
            ).refusal
            &&& crate::creation::batch_payload_error(batch, 0) is None
            &&& crate::creation::batch_payload_error(batch, n) == (Conditions {
                refusal: crate::creation::batch_payload_error(batch, n - 1),
            }).also(attached(entry.memo, entry.metadata)).refusal
            &&& s.create_partial_error(call, sender, batch) == Conditions::first(
                signed(call, sender),
                ContractError::Unauthorized,
            ).next(
                count == 0 || (!s.emergency_paused && !s.creation_paused),
                ContractError::ContractPaused,
            ).refusal
        }),
{
}

/// Pooled streams: the sender stands in for the recipient, so that none is made.
pub proof fn law_pooled_creations_refused(
    s: ContractState,
    call: Call,
    params: CreateStreamParams,
    shares: Seq<PoolShare>,
)
    ensures
        ({
            let total = crate::state::share_total(shares, shares.len() as int);
            s.create_pooled_error(call, params, shares) == Conditions::first(
                signed(call, params.recipient),
                ContractError::Unauthorized,
            ).next(
                !s.emergency_paused && !s.creation_paused,
                ContractError::ContractPaused,
            ).next(shares.len() <= 100, ContractError::InvalidParams).next(
                total <= u32::MAX,
                ContractError::ArithmeticOverflow,
            ).also(Conditions { refusal: Some(ContractError::InvalidParams) }).refusal
        }),
{
}

/// Offers.
pub proof fn law_offers_refused(
    s: ContractState,
    call: Call,
    who: Address,
    id: u64,
    params: CreateStreamParams,
    expiry: Option<u64>,
)
    ensures
        ({
            let offer = s.offers[id];
            let length = offer.end_time - offer.start_time;
            let start = if offer.start_time < call.timestamp {
                call.timestamp
            } else {
                offer.start_time
            };
            let linear = offer.kind == StreamKind::Linear;
            let dust = if params.withdraw_dust_threshold is Some {
                params.withdraw_dust_threshold->0
            } else {
                0
            };
            let own = Conditions::first(signed(call, who), ContractError::Unauthorized);
            let answered = own.next(!s.emergency_paused, ContractError::ContractPaused).next(
                s.offers.dom().contains(id),
                ContractError::OfferNotFound,
            ).next(offer.recipient == who, ContractError::OfferWrongRecipient);
            &&& s.create_offer_error(call, who, params, expiry) == own.next(
                !s.emergency_paused && !s.creation_paused,
                ContractError::ContractPaused,
            ).next(
                expiry is Some ==> call.timestamp < expiry->0,
                ContractError::InvalidParams,
            ).also(
                scheduled(
                    s.max_rate_per_second,
                    who,
                    params.recipient,
                    params.deposit_amount,
                    if params.kind == StreamKind::CliffOnly {
                        0
                    } else {
                        params.rate_per_second
                    },
                    call.timestamp,
                    params.start_time,
                    params.cliff_time,
                    params.end_time,
                    params.kind,
                ),
            ).next(
                params.memo is Some ==> params.memo->0@.len() <= 256,
                ContractError::InvalidParams,
            ).next(
                0 <= dust <= params.deposit_amount,
                ContractError::InvalidDustThreshold,
            ).also(attached(None, params.metadata)).next(
                s.config is Some,
                ContractError::InvalidState,
            ).refusal
            &&& s.accept_offer_error(call, who, id) == answered.next(
                offer.expiry_time is Some ==> call.timestamp <= offer.expiry_time->0,
                ContractError::OfferExpired,
            ).next(start + length <= u64::MAX, ContractError::ArithmeticOverflow).next(
                linear ==> offer.rate_per_second * length <= i128::MAX,
                ContractError::ArithmeticOverflow,
            ).next(
                linear ==> offer.rate_per_second * length <= offer.deposit_amount,
                ContractError::InsufficientDeposit,
            ).refusal
            &&& s.reject_offer_error(call, who, id) == answered.refusal
            &&& s.cancel_offer_error(call, who, id) == own.next(
                s.offers.dom().contains(id),
                ContractError::OfferNotFound,
            ).next(offer.sender == who, ContractError::OfferWrongSender).refusal
        }),
{
}

/// Renewals and clones.
pub proof fn law_successors_refused(
    s: ContractState,
    call: Call,
    id: u64,
    balance: i128,
    allowance: i128,
    new_recipient: Address,
    start_time: u64,
    end_time: u64,
    deposit: i128,
    force: bool,
)
    requires
        s.wf(),
    ensures
        ({
            let a = s.streams[id];
            let now = call.timestamp;
            let length = a.end_time - a.start_time;
            let wait = a.cliff_time - a.start_time;
            &&& s.renew_error(call, id, balance, allowance) == found(s, id).next(
                a.status == StreamStatus::Completed && s.auto_renew.dom().contains(id)
                    && s.auto_renew[id],
                ContractError::InvalidState,
            ).next(timely(s, call), ContractError::ClockRegression).next(
                now + length <= u64::MAX,
                ContractError::ArithmeticOverflow,
            ).also(
                scheduled(
                    s.max_rate_per_second,
                    a.sender,
                    a.recipient,
                    a.deposit_amount,
                    a.rate_per_second,
                    now,
                    now,
                    (now + wait) as u64,
                    (now + length) as u64,
                    a.kind,
                ),
            ).next(s.config is Some, ContractError::InvalidState).next(
                a.deposit_amount <= balance && a.deposit_amount <= allowance,
                ContractError::AutoRenewFundingUnavailable,
            ).also(attached(a.memo, a.metadata)).refusal
            &&& s.clone_error(call, id, new_recipient, start_time, end_time, deposit, force)
                == Conditions::first(
                !s.emergency_paused && !s.creation_paused,
                ContractError::ContractPaused,
            ).next(s.streams.dom().contains(id), ContractError::StreamNotFound).next(
                live(a),
                ContractError::StreamTerminalState,
            ).next(signed(call, a.sender), ContractError::Unauthorized).next(
                a.withdraw_dust_threshold == i128::MAX ==> force,
                ContractError::InvalidParams,
            ).next(start_time + wait <= u64::MAX, ContractError::ArithmeticOverflow).also(
                scheduled(
                    s.max_rate_per_second,
                    a.sender,
                    new_recipient,
                    deposit,
                    a.rate_per_second,
                    now,
                    start_time,
                    (start_time + wait) as u64,
                    end_time,
                    a.kind,
                ),
            ).also(attached(a.memo, a.metadata)).refusal
        }),
{
}

/// Settings of a stream by its sender and its recipient, and its removal.
pub proof fn law_settings_refused(
    s: ContractState,
    call: Call,
    id: u64,
    who: Address,
    ledgers: Option<u32>,
    destination: Address,
)
    ensures
        ({
            let a = s.streams[id];
            let by_sender = found(s, id).next(signed(call, a.sender), ContractError::Unauthorized);
            let by_recipient = found(s, id).next(
                signed(call, a.recipient),
                ContractError::Unauthorized,
            );
            let proposed = s.pending_recipients.dom().contains(id);
            let left = a.status == StreamStatus::Cancelled && a.withdrawn_amount
                < a.spec_accrued_at(a.cancelled_at->0 as int);
            let stored = Conditions::first(
                s.streams.dom().contains(id),
                ContractError::StreamNotFound,
            );
            &&& s.set_auto_renew_error(call, id, who) == found(s, id).next(
                signed(call, who),
                ContractError::Unauthorized,
            ).next(a.status != StreamStatus::Cancelled, ContractError::InvalidState).next(
                who == a.sender,
                ContractError::Unauthorized,
            ).refusal
            &&& s.set_lookback_error(call, id, who, ledgers) == found(s, id).next(
                signed(call, who) && who == a.sender,
                ContractError::Unauthorized,
            ).next(a.status != StreamStatus::Cancelled, ContractError::InvalidState).next(
                ledgers is Some ==> 0 < ledgers->0,
                ContractError::InvalidParams,
            ).refusal
            &&& s.update_recipient_error(call, id, who) == by_sender.next(
                who != a.recipient,
                ContractError::InvalidParams,
            ).next(!proposed, ContractError::InvalidState).refusal
            &&& s.accept_recipient_error(call, id) == Conditions::first(
                !s.emergency_paused,
                ContractError::ContractPaused,
            ).next(proposed, ContractError::InvalidState).next(
                s.streams.dom().contains(id),
                ContractError::StreamNotFound,
            ).next(signed(call, a.recipient), ContractError::Unauthorized).refusal
            &&& s.cancel_recipient_error(call, id) == by_sender.next(
                proposed,
                ContractError::InvalidState,
            ).refusal
            &&& s.transfer_claim_error(call, id, who) == found(s, id).next(
                claimant(a) == who && signed(call, who),
                ContractError::Unauthorized,
            ).refusal
            &&& s.set_auto_claim_error(call, id, destination) == by_recipient.next(
                destination != call.contract,
                ContractError::InvalidParams,
            ).refusal
            &&& s.revoke_auto_claim_error(call, id) == by_recipient.refusal
            &&& s.close_completed_error(id) == stored.next(
                !live(a) && !left,
                ContractError::InvalidState,
            ).refusal
            &&& s.close_cancelled_error(id) == stored.next(
                a.status == StreamStatus::Cancelled && !left,
                ContractError::InvalidState,
            ).refusal
        }),
{
}

/// Templates and reservations.
pub proof fn law_stock_refused(
    s: ContractState,
    call: Call,
    who: Address,
    id: u64,
    start_delay: u64,
    cliff_delay: u64,
    duration: u64,
    count: u32,
)
    ensures
        ({
            let own = Conditions::first(
                !s.emergency_paused,
                ContractError::ContractPaused,
            ).next(signed(call, who), ContractError::Unauthorized);
            let owned = crate::state::listed(s.owner_templates, who);
            let held = s.reservations.dom().contains(who);
            let expiry = s.reservations[who].expiry;
            &&& s.register_template_error(call, who, start_delay, cliff_delay, duration)
                == own.next(
                0 < duration && start_delay <= cliff_delay <= start_delay + duration
                    && call.timestamp + start_delay + duration <= u64::MAX,
                ContractError::InvalidParams,
            ).next(
                owned.len() < 50 && s.active_template_count < 1_000,
                ContractError::TemplateLimitExceeded,
            ).refusal
            &&& s.delete_template_error(call, who, id) == own.next(
                s.templates.dom().contains(id),
                ContractError::TemplateNotFound,
            ).next(s.templates[id].owner == who, ContractError::TemplateUnauthorized).next(
                owned.contains(id),
                ContractError::TemplateNotFound,
            ).refusal
            &&& s.reserve_error(call, who, count) == own.next(
                0 < count,
                ContractError::ReservationCountZero,
            ).next(count <= 100, ContractError::ReservationLimitExceeded).next(
                !held,
                ContractError::ReservationAlreadyActive,
            ).refusal
            &&& s.release_error(call, who) == own.next(
                held,
                ContractError::ReservationNotFound,
            ).refusal
            &&& s.reclaim_error(call, who) == Conditions::first(
                !s.emergency_paused,
                ContractError::ContractPaused,
            ).next(held, ContractError::ReservationNotFound).next(
                expiry is Some,
                ContractError::ReservationNotExpirable,
            ).next(
                expiry->0 <= call.timestamp,
                ContractError::ReservationStillActive,
            ).refusal
        }),
{
}

/// Administration.
pub proof fn law_administration_refused(
    s: ContractState,
    call: Call,
    admin: Address,
    verified: bool,
    max_rate: i128,
    text: Option<Text>,
)
    ensures
        ({
            let named = Conditions::first(
                signed(call, admin),
                ContractError::Unauthorized,
            ).next(s.config is Some, ContractError::InvalidState).next(
                admin == s.config->0.admin,
                ContractError::Unauthorized,
            );
            let long = text is Some && text->0.bytes is Some && 256 < text->0.bytes->0@.len();
            &&& s.init_error(call, admin, verified) == Conditions::first(
                signed(call, admin),
                ContractError::Unauthorized,
            ).next(s.config is None, ContractError::AlreadyInitialised).next(
                verified,
                ContractError::TokenVerificationFailed,
            ).refusal
            &&& s.admin_error(call) == administered(s, call).refusal
            &&& s.set_max_rate_error(call, max_rate) == administered(s, call).next(
                0 < max_rate,
                ContractError::InvalidParams,
            ).refusal
            &&& s.global_resume_error(call) == administered(s, call).next(
                s.emergency_paused,
                ContractError::InvalidState,
            ).refusal
            &&& s.named_admin_error(call, admin) == named.refusal
            &&& s.pause_protocol_error(call, admin, text) == named.next(
                s.emergency_paused || s.creation_paused || !long,
                ContractError::PauseReasonTooLong,
            ).refusal
            &&& s.sweep_error(call) == administered(s, call).next(
                call.balance <= s.total_liabilities || !s.locked,
                ContractError::InvalidState,
            ).refusal
        }),
{
}

/// What is told on request.
pub proof fn law_questions_refused(s: ContractState, call: Call, id: u64)
    ensures
        ({
            let a = s.streams[id];
            let stored = Conditions::first(
                s.streams.dom().contains(id),
                ContractError::StreamNotFound,
            );
            let still = a.status == StreamStatus::Paused || a.status == StreamStatus::Completed;
            let payable = s.auto_claim.dom().contains(id) && s.auto_claim[id] != call.contract;
            &&& s.calculate_accrued_error(call, id) == stored.next(
                live(a) ==> timely(s, call),
                ContractError::ClockRegression,
            ).refusal
            &&& s.get_withdrawable_error(call, id) == stored.next(
                a.status == StreamStatus::Active ==> timely(s, call),
                ContractError::ClockRegression,
            ).next(still || s.config is Some, ContractError::InvalidState).refusal
            &&& s.auto_claim_status_error(call, id) == stored.next(
                payable ==> timely(s, call),
                ContractError::ClockRegression,
            ).refusal
        }),
{
}

} // verus!
