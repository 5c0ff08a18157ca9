//! Pausing, resuming and cancelling streams.

use crate::events::{
    Event, KeeperCancelled, StreamEvent, StreamHealthChanged, StreamPaused, Withdrawal,
};
use crate::state::{Call, ContractState, FluxoraStream};
use crate::types::{
    Address, ContractError, PauseReason, PauseRecord, Stream, StreamStatus, Word,
};
use vstd::prelude::*;

verus! {

/// How many ledgers must pass between two pauses or resumptions of a stream.
pub const MIN_PAUSE_INTERVAL_LEDGERS: u32 = 17;

/// How many seconds after its end a keeper may close a stream.
pub const KEEPER_GRACE_PERIOD_SECONDS: u64 = 604_800;

/// The keeper's part of the sender's refund, in basis points.
pub const KEEPER_FEE_BPS: u32 = 50;

/// The keeper's fee and what is left of `gross` for the sender. Where the
/// product does not fit, the fee is computed from the largest amount there is.
pub open spec fn keeper_fee_split(gross: i128, bps: u32) -> (int, int) {
    let fee = if gross * bps <= i128::MAX {
        gross * bps / 10_000
    } else {
        i128::MAX as int / 10_000
    };
    (fee, gross - fee)
}

/// The keeper's fee and what is left of `gross` for the sender.
pub fn compute_keeper_fee_split(gross: i128, bps: u32) -> (r: (i128, i128))
    requires
        gross >= 0,
        bps <= 10_000,
    ensures
        (r.0 as int, r.1 as int) == keeper_fee_split(gross, bps),
        0 <= r.0 <= gross,
        r.0 + r.1 == gross,
{
    assert(0 <= gross * bps <= gross * 10_000) by (nonlinear_arith)
        requires
            gross >= 0,
            0 <= bps <= 10_000,
    ;
    let product: i128 = match gross.checked_mul(bps as i128) {
        Some(product) => product,
        None => i128::MAX,
    };
    let fee: i128 = product / 10_000;
    (fee, gross - fee)
}

impl Stream {
    /// Whether the last pause or resumption was too recent for another one.
    pub open spec fn spec_cooling(self, sequence: u32) -> bool {
        sequence < self.last_pause_toggle_ledger + MIN_PAUSE_INTERVAL_LEDGERS
    }

    /// Whether the last pause or resumption was too recent for another one.
    fn cooling(&self, sequence: u32) -> (r: bool)
        ensures
            r == self.spec_cooling(sequence),
    {
        sequence.saturating_sub(self.last_pause_toggle_ledger) < MIN_PAUSE_INTERVAL_LEDGERS
    }

    /// Why the stream cannot be paused.
    pub open spec fn pause_error(self, call: Call) -> Option<ContractError> {
        if self.status == StreamStatus::Paused {
            Some(ContractError::StreamAlreadyPaused)
        } else if self.spec_is_over(call.timestamp) {
            Some(ContractError::StreamTerminalState)
        } else if self.spec_cooling(call.sequence) {
            Some(ContractError::PauseCooldownActive)
        } else {
            None
        }
    }

    /// Refuses to pause the stream.
    fn check_pause(&self, call: &Call) -> (r: Result<(), ContractError>)
        ensures
            match self.pause_error(*call) {
                Some(e) => r == Err::<(), ContractError>(e),
                None => r == Ok::<(), ContractError>(()) && self.status == StreamStatus::Active,
            },
    {
        if self.status == StreamStatus::Paused {
            return Err(ContractError::StreamAlreadyPaused);
        }
        if self.is_over(call.timestamp) {
            return Err(ContractError::StreamTerminalState);
        }
        if self.cooling(call.sequence) {
            return Err(ContractError::PauseCooldownActive);
        }
        Ok(())
    }

    /// Why the stream cannot be resumed.
    pub open spec fn resume_error(self, call: Call) -> Option<ContractError> {
        if self.status == StreamStatus::Active {
            Some(ContractError::StreamNotPaused)
        } else if self.spec_is_over(call.timestamp) {
            Some(ContractError::StreamTerminalState)
        } else if self.spec_cooling(call.sequence) {
            Some(ContractError::PauseCooldownActive)
        } else {
            None
        }
    }

    /// Refuses to resume the stream.
    pub(crate) fn check_resume(&self, call: &Call) -> (r: Result<(), ContractError>)
        ensures
            match self.resume_error(*call) {
                Some(e) => r == Err::<(), ContractError>(e),
                None => r == Ok::<(), ContractError>(()) && self.status == StreamStatus::Paused,
            },
    {
        if self.status == StreamStatus::Active {
            return Err(ContractError::StreamNotPaused);
        }
        if self.is_over(call.timestamp) {
            return Err(ContractError::StreamTerminalState);
        }
        if self.cooling(call.sequence) {
            return Err(ContractError::PauseCooldownActive);
        }
        Ok(())
    }

    /// The stream with another status, from the given ledger on.
    pub open spec fn toggled(self, status: StreamStatus, sequence: u32) -> Stream {
        Stream { status, last_pause_toggle_ledger: sequence, ..self }
    }

    /// Whether cancellation is ruled out.
    pub open spec fn spec_irrevocable(self) -> bool {
        self.irrevocable == Some(true)
    }

    /// Whether cancellation is ruled out.
    pub(crate) fn is_irrevocable(&self) -> (r: bool)
        ensures
            r == self.spec_irrevocable(),
    {
        match self.irrevocable {
            Some(irrevocable) => irrevocable,
            None => false,
        }
    }

    /// Whether the stream is active or paused.
    pub(crate) fn is_running(&self) -> (r: bool)
        ensures
            r == self.spec_running(),
    {
        self.status == StreamStatus::Active || self.status == StreamStatus::Paused
    }

    /// The stream cancelled at `now`.
    pub open spec fn cancelled(self, now: u64) -> Stream {
        Stream { status: StreamStatus::Cancelled, cancelled_at: Some(now), ..self }
    }

    /// What has not been earned at `now`.
    pub open spec fn spec_unearned(self, now: u64) -> int {
        self.deposit_amount - self.spec_accrued_at(now as int)
    }

    /// What has been earned at `now` and not withdrawn.
    pub open spec fn spec_outstanding(self, now: u64) -> int {
        if self.spec_accrued_at(now as int) < self.withdrawn_amount {
            0
        } else {
            self.spec_accrued_at(now as int) - self.withdrawn_amount
        }
    }

    /// Whether the schedule promises more than the deposit covers. A sum that
    /// does not fit is held at the largest amount there is.
    pub open spec fn spec_underfunded(self) -> bool {
        let seconds = if self.checkpointed_at < self.end_time {
            self.end_time - self.checkpointed_at
        } else {
            0
        };
        let more = self.rate_per_second * seconds;
        let total = if self.checkpointed_amount + more > i128::MAX {
            i128::MAX as int
        } else {
            self.checkpointed_amount + more
        };
        more > i128::MAX || total > self.deposit_amount
    }

    /// What is left of the deposit, held at the limits of its type.
    pub open spec fn spec_remaining_balance(self) -> int {
        if self.deposit_amount - self.withdrawn_amount < i128::MIN {
            i128::MIN as int
        } else {
            self.deposit_amount - self.withdrawn_amount
        }
    }

    /// How many seconds are left until the end.
    pub open spec fn spec_seconds_remaining(self, now: u64) -> int {
        if now < self.end_time {
            self.end_time - now
        } else {
            0
        }
    }
}

/// Whether a stream is underfunded, what is left of its deposit, and how many
/// seconds are left until its end.
pub fn compute_stream_health(stream: &Stream, now: u64) -> (r: (bool, i128, u64))
    requires
        stream.sound(),
    ensures
        r.0 == stream.spec_underfunded(),
        r.1 == stream.spec_remaining_balance(),
        r.2 == stream.spec_seconds_remaining(now),
{
    let seconds: u64 = stream.end_time.saturating_sub(stream.checkpointed_at);
    assert(stream.rate_per_second * seconds >= 0) by (nonlinear_arith)
        requires
            stream.rate_per_second >= 0,
            seconds >= 0,
    ;
    let underfunded: bool = match stream.rate_per_second.checked_mul(seconds as i128) {
        Some(more) => match stream.checkpointed_amount.checked_add(more) {
            Some(total) => total > stream.deposit_amount,
            None => i128::MAX > stream.deposit_amount,
        },
        None => true,
    };
    (
        underfunded,
        stream.deposit_amount - stream.withdrawn_amount,
        stream.end_time.saturating_sub(now),
    )
}

impl ContractState {
    /// The state with a change of health announced, if there was one.
    pub open spec fn announce_health(self, before: Stream, after: Stream, now: u64) -> Self {
        if before.spec_underfunded() != after.spec_underfunded() {
            self.emit(
                Event::HealthChanged(
                    StreamHealthChanged {
                        stream_id: after.stream_id,
                        is_underfunded: after.spec_underfunded(),
                        remaining_balance: after.spec_remaining_balance() as i128,
                        seconds_remaining: after.spec_seconds_remaining(now) as u64,
                    },
                ),
            )
        } else {
            self
        }
    }

    /// The state with a stream paused.
    pub open spec fn pause(self, call: Call, id: u64) -> Self {
        let stream = self.streams[id];
        self.put(stream.toggled(StreamStatus::Paused, call.sequence)).recount(
            stream.status,
            StreamStatus::Paused,
        )
    }

    /// The state with the pause of a stream announced.
    pub open spec fn announce_pause(self, id: u64, reason: PauseReason) -> Self {
        self.emit(Event::Paused(StreamPaused { stream_id: id, reason }))
    }

    /// The state with a stream resumed.
    pub open spec fn resume(self, call: Call, stream: Stream) -> Self {
        self.put(stream.toggled(StreamStatus::Active, call.sequence)).recount(
            stream.status,
            StreamStatus::Active,
        ).emit(Event::Status(StreamEvent::Resumed(stream.stream_id)))
    }

    /// Why the sender cannot pause a stream.
    pub open spec fn pause_stream_error(self, call: Call, id: u64) -> Option<ContractError> {
        if self.emergency_paused {
            Some(ContractError::ContractPaused)
        } else if !self.streams.dom().contains(id) {
            Some(ContractError::StreamNotFound)
        } else if !call.authorised(self.streams[id].sender) {
            Some(ContractError::Unauthorized)
        } else {
            self.streams[id].pause_error(call)
        }
    }

    /// Why the sender cannot resume a stream.
    pub open spec fn resume_stream_error(self, call: Call, id: u64) -> Option<ContractError> {
        if self.emergency_paused {
            Some(ContractError::ContractPaused)
        } else if !self.streams.dom().contains(id) {
            Some(ContractError::StreamNotFound)
        } else if !call.authorised(self.streams[id].sender) {
            Some(ContractError::Unauthorized)
        } else {
            self.streams[id].resume_error(call)
        }
    }

    /// Why the administrator cannot pause a stream.
    pub open spec fn pause_as_admin_error(self, call: Call, id: u64) -> Option<ContractError> {
        match self.admin_error(call) {
            Some(e) => Some(e),
            None => if !self.streams.dom().contains(id) {
                Some(ContractError::StreamNotFound)
            } else {
                self.streams[id].pause_error(call)
            },
        }
    }

    /// Why the administrator cannot resume a stream.
    pub open spec fn resume_as_admin_error(self, call: Call, id: u64) -> Option<ContractError> {
        match self.admin_error(call) {
            Some(e) => Some(e),
            None => if !self.streams.dom().contains(id) {
                Some(ContractError::StreamNotFound)
            } else {
                self.streams[id].resume_error(call)
            },
        }
    }

    /// Why a stream cannot be cancelled, whoever asks.
    pub open spec fn cancel_error(self, stream: Stream, now: u64) -> Option<ContractError> {
        if stream.spec_irrevocable() {
            Some(ContractError::Unauthorized)
        } else if !stream.spec_running() {
            Some(ContractError::InvalidState)
        } else if !self.clock_ok(now) {
            Some(ContractError::ClockRegression)
        } else {
            None
        }
    }

    /// The state with a stream cancelled: the sender gets back what was not
    /// earned.
    pub open spec fn cancel(self, stream: Stream, now: u64) -> Self {
        let refund = stream.spec_unearned(now) as i128;
        let stored = self.observe(now).put(stream.cancelled(now)).recount(
            stream.status,
            StreamStatus::Cancelled,
        );
        let refunded = if refund > 0 {
            stored.settle(refund).push(stream.sender, refund)
        } else {
            stored
        };
        refunded.emit(Event::Status(StreamEvent::StreamCancelled(stream.stream_id)))
    }

    /// Why the sender cannot cancel a stream.
    pub open spec fn cancel_stream_error(self, call: Call, id: u64) -> Option<ContractError> {
        if self.emergency_paused {
            Some(ContractError::ContractPaused)
        } else if !self.streams.dom().contains(id) {
            Some(ContractError::StreamNotFound)
        } else if !call.authorised(self.streams[id].sender) {
            Some(ContractError::Unauthorized)
        } else {
            self.cancel_error(self.streams[id], call.timestamp)
        }
    }

    /// Why the administrator cannot cancel a stream.
    pub open spec fn cancel_as_admin_error(self, call: Call, id: u64) -> Option<ContractError> {
        match self.admin_error(call) {
            Some(e) => Some(e),
            None => if !self.streams.dom().contains(id) {
                Some(ContractError::StreamNotFound)
            } else {
                self.cancel_error(self.streams[id], call.timestamp)
            },
        }
    }

    /// Why a witness cannot cancel a stream, before the signature counts.
    pub open spec fn witness_admission_error(
        self,
        call: Call,
        id: u64,
        witness_public_key: Word,
        deadline: u64,
    ) -> Option<ContractError> {
        let stream = self.streams[id];
        if self.emergency_paused {
            Some(ContractError::ContractPaused)
        } else if deadline < call.timestamp {
            Some(ContractError::SignatureDeadlineExpired)
        } else if !self.streams.dom().contains(id) {
            Some(ContractError::StreamNotFound)
        } else if stream.witness is None {
            Some(ContractError::InvalidParams)
        } else if stream.witness != Some(Address::Account(witness_public_key)) {
            Some(ContractError::InvalidSignature)
        } else {
            None
        }
    }

    /// Why a witness cannot cancel a stream.
    pub open spec fn witnessed_cancel_error(
        self,
        call: Call,
        id: u64,
        witness_public_key: Word,
        deadline: u64,
        signature_valid: bool,
    ) -> Option<ContractError> {
        match self.witness_admission_error(call, id, witness_public_key, deadline) {
            Some(e) => Some(e),
            None => if !signature_valid {
                Some(ContractError::InvalidSignature)
            } else {
                self.cancel_error(self.streams[id], call.timestamp)
            },
        }
    }

    /// Why a keeper cannot close a stream.
    pub open spec fn keeper_cancel_error(self, call: Call, id: u64, keeper: Address) -> Option<
        ContractError,
    > {
        let stream = self.streams[id];
        let gross = stream.spec_unearned(call.timestamp);
        let fee = gross * KEEPER_FEE_BPS / 10_000;
        if self.emergency_paused {
            Some(ContractError::ContractPaused)
        } else if !call.authorised(keeper) {
            Some(ContractError::Unauthorized)
        } else if !self.streams.dom().contains(id) {
            Some(ContractError::StreamNotFound)
        } else if !stream.spec_running() {
            Some(ContractError::InvalidState)
        } else if stream.spec_irrevocable() {
            Some(ContractError::Unauthorized)
        } else if stream.end_time + KEEPER_GRACE_PERIOD_SECONDS > u64::MAX {
            Some(ContractError::ArithmeticOverflow)
        } else if call.timestamp < stream.end_time + KEEPER_GRACE_PERIOD_SECONDS {
            Some(ContractError::KeeperGracePeriodNotElapsed)
        } else if gross * KEEPER_FEE_BPS > i128::MAX {
            Some(ContractError::ArithmeticOverflow)
        } else if fee > 0 && self.total_keeper_fees_paid + fee > i128::MAX {
            Some(ContractError::ArithmeticOverflow)
        } else {
            None
        }
    }

    /// The state after a keeper closed a stream, in which nothing is left. The
    /// recipient is paid first, then the sender, then the keeper, whose fee
    /// comes out of the sender's refund.
    pub open spec fn keeper_cancel_step(self, call: Call, id: u64, keeper: Address) -> Self {
        let stream = self.streams[id];
        let due = stream.spec_outstanding(call.timestamp) as i128;
        let after = Stream {
            withdrawn_amount: (stream.withdrawn_amount + due) as i128,
            ..stream.cancelled(call.timestamp)
        };
        let gross = stream.spec_unearned(call.timestamp);
        let fee = (gross * KEEPER_FEE_BPS / 10_000) as i128;
        let refund = (gross - fee) as i128;
        let stored = self.put(after).recount(stream.status, after.status);
        let settled = if due + gross > 0 {
            stored.settle((due + gross) as i128)
        } else {
            stored
        };
        let recipient_paid = if due > 0 {
            settled.push(stream.recipient, due)
        } else {
            settled
        };
        let sender_paid = if refund > 0 {
            recipient_paid.push(stream.sender, refund)
        } else {
            recipient_paid
        };
        let keeper_paid = if fee > 0 {
            let s = sender_paid.push(keeper, fee);
            ContractState {
                total_keeper_fees_paid: (s.total_keeper_fees_paid + fee) as i128,
                ..s
            }
        } else {
            sender_paid
        };
        keeper_paid.emit(
            Event::KeeperCancelled(
                KeeperCancelled {
                    stream_id: id,
                    keeper,
                    keeper_fee: fee,
                    recipient_amount: due,
                    sender_refund: refund,
                },
            ),
        ).announce_health(stream, after, call.timestamp)
    }

    /// Why the keeper's fee for a stream cannot be told.
    pub open spec fn keeper_fee_error(self, id: u64) -> Option<ContractError> {
        let stream = self.streams[id];
        if !self.streams.dom().contains(id) {
            Some(ContractError::StreamNotFound)
        } else if !stream.spec_running() {
            Some(ContractError::InvalidState)
        } else if stream.end_time + KEEPER_GRACE_PERIOD_SECONDS > u64::MAX {
            Some(ContractError::ArithmeticOverflow)
        } else {
            None
        }
    }

    /// The keeper's fee for a stream and what is left for the sender.
    pub open spec fn keeper_fee_preview(self, call: Call, id: u64) -> (int, int) {
        let stream = self.streams[id];
        if call.timestamp < stream.end_time + KEEPER_GRACE_PERIOD_SECONDS {
            (0, 0)
        } else {
            keeper_fee_split(stream.spec_unearned(call.timestamp) as i128, KEEPER_FEE_BPS)
        }
    }
}

impl FluxoraStream {
    /// Announces a change of health, if there was one.
    pub(crate) fn maybe_emit_health_changed(
        &mut self,
        stream: &Stream,
        was_underfunded: bool,
        now: u64,
        before: Ghost<Stream>,
    )
        requires
            stream.sound(),
            was_underfunded == before@.spec_underfunded(),
        ensures
            final(self)@ == old(self)@.announce_health(before@, *stream, now),
    {
        let (is_underfunded, remaining_balance, seconds_remaining) = compute_stream_health(
            stream,
            now,
        );
        if is_underfunded != was_underfunded {
            self.emit(
                Event::HealthChanged(
                    StreamHealthChanged {
                        stream_id: stream.stream_id,
                        is_underfunded,
                        remaining_balance,
                        seconds_remaining,
                    },
                ),
            );
        }
    }

    /// Gives a stream another status.
    pub(crate) fn toggle(&mut self, call: &Call, stream: &Stream, status: StreamStatus)
        requires
            old(self)@.wf(),
            stream.sound(),
            status == StreamStatus::Active || status == StreamStatus::Paused,
            old(self)@.streams.dom().contains(stream.stream_id),
            *stream == old(self)@.streams[stream.stream_id],
        ensures
            final(self)@ == old(self)@.put(stream.toggled(status, call.sequence)).recount(
                stream.status,
                status,
            ),
            final(self)@.wf(),
    {
        let mut after = stream.clone();
        after.status = status;
        after.last_pause_toggle_ledger = call.sequence;
        self.update_stream(&after);
        self.reconcile_paused_stream_count(stream.status, status);
    }

    /// Suspends withdrawals from a stream, at the wish of its sender. The
    /// stream goes on earning.
    pub fn pause_stream(&mut self, call: &Call, stream_id: u64, reason: PauseReason) -> (r: Result<
        (),
        ContractError,
    >)
        requires
            old(self)@.wf(),
        ensures
            final(self)@.wf(),
            match old(self)@.pause_stream_error(*call, stream_id) {
                Some(e) => r == Err::<(), ContractError>(e) && final(self)@ == old(self)@,
                None => {
                    &&& r == Ok::<(), ContractError>(())
                    &&& final(self)@ == old(self)@.pause(*call, stream_id).announce_pause(
                        stream_id,
                        reason,
                    )
                },
            },
    {
        if self.emergency_paused {
            return Err(ContractError::ContractPaused);
        }
        let stream = match self.load_stream(stream_id) {
            Err(e) => {
                return Err(e);
            },
            Ok(stream) => stream,
        };
        if !call.is_signed_by(stream.sender) {
            return Err(ContractError::Unauthorized);
        }
        if let Err(e) = stream.check_pause(call) {
            return Err(e);
        }
        self.toggle(call, &stream, StreamStatus::Paused);
        self.emit(Event::Paused(StreamPaused { stream_id, reason }));
        Ok(())
    }

    /// Allows withdrawals from a paused stream again, at the wish of its
    /// sender.
    pub fn resume_stream(&mut self, call: &Call, stream_id: u64) -> (r: Result<(), ContractError>)
        requires
            old(self)@.wf(),
        ensures
            final(self)@.wf(),
            match old(self)@.resume_stream_error(*call, stream_id) {
                Some(e) => r == Err::<(), ContractError>(e) && final(self)@ == old(self)@,
                None => {
                    &&& r == Ok::<(), ContractError>(())
                    &&& final(self)@ == old(self)@.resume(*call, old(self)@.streams[stream_id])
                },
            },
    {
        if self.emergency_paused {
            return Err(ContractError::ContractPaused);
        }
        let stream = match self.load_stream(stream_id) {
            Err(e) => {
                return Err(e);
            },
            Ok(stream) => stream,
        };
        if !call.is_signed_by(stream.sender) {
            return Err(ContractError::Unauthorized);
        }
        if let Err(e) = stream.check_resume(call) {
            return Err(e);
        }
        self.toggle(call, &stream, StreamStatus::Active);
        self.emit(Event::Status(StreamEvent::Resumed(stream_id)));
        Ok(())
    }

    /// Suspends withdrawals from a stream, at the wish of the administrator,
    /// and keeps a record of it.
    pub fn pause_stream_as_admin(&mut self, call: &Call, stream_id: u64, reason: PauseReason) -> (r:
        Result<(), ContractError>)
        requires
            old(self)@.wf(),
        ensures
            final(self)@.wf(),
            match old(self)@.pause_as_admin_error(*call, stream_id) {
                Some(e) => r == Err::<(), ContractError>(e) && final(self)@ == old(self)@,
                None => {
                    &&& r == Ok::<(), ContractError>(())
                    &&& final(self)@ == (ContractState {
                        last_stream_pause: Some(
                            PauseRecord {
                                actor: old(self)@.admin()->0,
                                timestamp: call.timestamp,
                                reason,
                            },
                        ),
                        ..old(self)@.pause(*call, stream_id)
                    }).announce_pause(stream_id, reason)
                },
            },
    {
        let admin = match self.require_admin(call) {
            Err(e) => {
                return Err(e);
            },
            Ok(admin) => admin,
        };
        let stream = match self.load_stream(stream_id) {
            Err(e) => {
                return Err(e);
            },
            Ok(stream) => stream,
        };
        if let Err(e) = stream.check_pause(call) {
            return Err(e);
        }
        self.toggle(call, &stream, StreamStatus::Paused);
        self.last_stream_pause =
        Some(PauseRecord { actor: admin, timestamp: call.timestamp, reason });
        self.emit(Event::Paused(StreamPaused { stream_id, reason }));
        Ok(())
    }

    /// Allows withdrawals from a paused stream again, at the wish of the
    /// administrator.
    pub fn resume_stream_as_admin(&mut self, call: &Call, stream_id: u64) -> (r: Result<
        (),
        ContractError,
    >)
        requires
            old(self)@.wf(),
        ensures
            final(self)@.wf(),
            match old(self)@.resume_as_admin_error(*call, stream_id) {
                Some(e) => r == Err::<(), ContractError>(e) && final(self)@ == old(self)@,
                None => {
                    &&& r == Ok::<(), ContractError>(())
                    &&& final(self)@ == old(self)@.resume(*call, old(self)@.streams[stream_id])
                },
            },
    {
        if let Err(e) = self.require_admin(call) {
            return Err(e);
        }
        let stream = match self.load_stream(stream_id) {
            Err(e) => {
                return Err(e);
            },
            Ok(stream) => stream,
        };
        if let Err(e) = stream.check_resume(call) {
            return Err(e);
        }
        self.toggle(call, &stream, StreamStatus::Active);
        self.emit(Event::Status(StreamEvent::Resumed(stream_id)));
        Ok(())
    }

    /// Ends a stream for good: what was not earned goes back to the sender.
    fn cancel_stream_internal(&mut self, now: u64, stream: &Stream) -> (r: Result<
        (),
        ContractError,
    >)
        requires
            old(self)@.wf(),
            old(self)@.streams.dom().contains(stream.stream_id),
            *stream == old(self)@.streams[stream.stream_id],
            stream.sound(),
        ensures
            final(self)@.wf(),
            match old(self)@.cancel_error(*stream, now) {
                Some(e) => r == Err::<(), ContractError>(e) && final(self)@ == old(self)@,
                None => {
                    &&& r == Ok::<(), ContractError>(())
                    &&& final(self)@ == old(self)@.cancel(*stream, now)
                },
            },
    {
        if stream.is_irrevocable() {
            return Err(ContractError::Unauthorized);
        }
        if !stream.is_running() {
            return Err(ContractError::InvalidState);
        }
        if self.clock_regressed(now) {
            return Err(ContractError::ClockRegression);
        }
        self.last_accrual_timestamp = Some(now);
        let refund: i128 = stream.deposit_amount - stream.accrued_at(now);
        let mut after = stream.clone();
        after.status = StreamStatus::Cancelled;
        after.cancelled_at = Some(now);
        self.update_stream(&after);
        self.reconcile_paused_stream_count(stream.status, StreamStatus::Cancelled);
        if refund > 0 {
            self.settle(refund);
            self.push_token(stream.sender, refund);
        }
        self.emit(Event::Status(StreamEvent::StreamCancelled(stream.stream_id)));
        Ok(())
    }

    /// Ends a stream for good, at the wish of its sender. What was not earned
    /// goes back to the sender; what was earned stays for the recipient.
    pub fn cancel_stream(&mut self, call: &Call, stream_id: u64) -> (r: Result<(), ContractError>)
        requires
            old(self)@.wf(),
        ensures
            final(self)@.wf(),
            match old(self)@.cancel_stream_error(*call, stream_id) {
                Some(e) => r == Err::<(), ContractError>(e) && final(self)@ == old(self)@,
                None => {
                    &&& r == Ok::<(), ContractError>(())
                    &&& final(self)@ == old(self)@.cancel(
                        old(self)@.streams[stream_id],
                        call.timestamp,
                    )
                },
            },
    {
        if self.emergency_paused {
            return Err(ContractError::ContractPaused);
        }
        let stream = match self.load_stream(stream_id) {
            Err(e) => {
                return Err(e);
            },
            Ok(stream) => stream,
        };
        if !call.is_signed_by(stream.sender) {
            return Err(ContractError::Unauthorized);
        }
        self.cancel_stream_internal(call.timestamp, &stream)
    }

    /// Ends a stream for good, at the wish of the administrator.
    pub fn cancel_stream_as_admin(&mut self, call: &Call, stream_id: u64) -> (r: Result<
        (),
        ContractError,
    >)
        requires
            old(self)@.wf(),
        ensures
            final(self)@.wf(),
            match old(self)@.cancel_as_admin_error(*call, stream_id) {
                Some(e) => r == Err::<(), ContractError>(e) && final(self)@ == old(self)@,
                None => {
                    &&& r == Ok::<(), ContractError>(())
                    &&& final(self)@ == old(self)@.cancel(
                        old(self)@.streams[stream_id],
                        call.timestamp,
                    )
                },
            },
    {
        if let Err(e) = self.require_admin(call) {
            return Err(e);
        }
        let stream = match self.load_stream(stream_id) {
            Err(e) => {
                return Err(e);
            },
            Ok(stream) => stream,
        };
        self.cancel_stream_internal(call.timestamp, &stream)
    }

    /// Refuses a witness for whatever does not depend on the signature. Only an
    /// attestation that passes is worth a look at the signature.
    pub fn admit_witnessed_cancel(
        &self,
        call: &Call,
        stream_id: u64,
        witness_public_key: Word,
        deadline: u64,
    ) -> (r: Result<(), ContractError>)
        requires
            self@.wf(),
        ensures
            match self@.witness_admission_error(*call, stream_id, witness_public_key, deadline) {
                Some(e) => r == Err::<(), ContractError>(e),
                None => r == Ok::<(), ContractError>(()),
            },
    {
        if self.emergency_paused {
            return Err(ContractError::ContractPaused);
        }
        if deadline < call.timestamp {
            return Err(ContractError::SignatureDeadlineExpired);
        }
        let stream = match self.load_stream(stream_id) {
            Err(e) => {
                return Err(e);
            },
            Ok(stream) => stream,
        };
        match stream.witness {
            None => {
                return Err(ContractError::InvalidParams);
            },
            Some(witness) => {
                if witness != Address::Account(witness_public_key) {
                    return Err(ContractError::InvalidSignature);
                }
            },
        }
        Ok(())
    }

    /// Ends a stream for good, by an attestation that its witness signed.
    /// `signature_valid` tells whether the signature over
    /// [`crate::delegated::build_witnessed_cancel_message`] matches the key.
    pub fn witnessed_cancel_stream(
        &mut self,
        call: &Call,
        stream_id: u64,
        witness_public_key: Word,
        deadline: u64,
        signature_valid: bool,
    ) -> (r: Result<(), ContractError>)
        requires
            old(self)@.wf(),
        ensures
            final(self)@.wf(),
            match old(self)@.witnessed_cancel_error(
                *call,
                stream_id,
                witness_public_key,
                deadline,
                signature_valid,
            ) {
                Some(e) => r == Err::<(), ContractError>(e) && final(self)@ == old(self)@,
                None => {
                    &&& r == Ok::<(), ContractError>(())
                    &&& final(self)@ == old(self)@.cancel(
                        old(self)@.streams[stream_id],
                        call.timestamp,
                    )
                },
            },
    {
        if let Err(e) = self.admit_witnessed_cancel(call, stream_id, witness_public_key, deadline) {
            return Err(e);
        }
        if !signature_valid {
            return Err(ContractError::InvalidSignature);
        }
        let stream = match self.load_stream(stream_id) {
            Err(e) => {
                return Err(e);
            },
            Ok(stream) => stream,
        };
        self.cancel_stream_internal(call.timestamp, &stream)
    }

    /// Closes a stream that was left alone long after its end. Anybody may do
    /// this, for a part of what goes back to the sender.
    pub fn keeper_cancel(&mut self, call: &Call, stream_id: u64, keeper: Address) -> (r: Result<
        (),
        ContractError,
    >)
        requires
            old(self)@.wf(),
        ensures
            final(self)@.wf(),
            match old(self)@.keeper_cancel_error(*call, stream_id, keeper) {
                Some(e) => r == Err::<(), ContractError>(e) && final(self)@ == old(self)@,
                None => {
                    &&& r == Ok::<(), ContractError>(())
                    &&& final(self)@ == old(self)@.keeper_cancel_step(*call, stream_id, keeper)
                },
            },
    {
        if self.emergency_paused {
            return Err(ContractError::ContractPaused);
        }
        if !call.is_signed_by(keeper) {
            return Err(ContractError::Unauthorized);
        }
        let stream = match self.load_stream(stream_id) {
            Err(e) => {
                return Err(e);
            },
            Ok(stream) => stream,
        };
        if !stream.is_running() {
            return Err(ContractError::InvalidState);
        }
        if stream.is_irrevocable() {
            return Err(ContractError::Unauthorized);
        }
        let now: u64 = call.timestamp;
        let eligible_at: u64 = match stream.end_time.checked_add(KEEPER_GRACE_PERIOD_SECONDS) {
            Some(at) => at,
            None => {
                return Err(ContractError::ArithmeticOverflow);
            },
        };
        if now < eligible_at {
            return Err(ContractError::KeeperGracePeriodNotElapsed);
        }
        let accrued: i128 = stream.accrued_at(now);
        let due: i128 = if accrued < stream.withdrawn_amount {
            0
        } else {
            accrued - stream.withdrawn_amount
        };
        let gross: i128 = stream.deposit_amount - accrued;
        let fee: i128 = match gross.checked_mul(KEEPER_FEE_BPS as i128) {
            Some(product) => product / 10_000,
            None => {
                return Err(ContractError::ArithmeticOverflow);
            },
        };
        let refund: i128 = gross - fee;
        let mut fees_paid: i128 = self.total_keeper_fees_paid;
        if fee > 0 {
            fees_paid =
            match fees_paid.checked_add(fee) {
                Some(total) => total,
                None => {
                    return Err(ContractError::ArithmeticOverflow);
                },
            };
        }
        let (was_underfunded, _, _) = compute_stream_health(&stream, now);
        let mut after = stream.clone();
        after.status = StreamStatus::Cancelled;
        after.cancelled_at = Some(now);
        after.withdrawn_amount = stream.withdrawn_amount + due;
        self.update_stream(&after);
        self.reconcile_paused_stream_count(stream.status, StreamStatus::Cancelled);
        if due + gross > 0 {
            self.settle(due + gross);
        }
        if due > 0 {
            self.push_token(stream.recipient, due);
        }
        if refund > 0 {
            self.push_token(stream.sender, refund);
        }
        if fee > 0 {
            self.push_token(keeper, fee);
            self.total_keeper_fees_paid = fees_paid;
        }
        self.emit(
            Event::KeeperCancelled(
                KeeperCancelled {
                    stream_id,
                    keeper,
                    keeper_fee: fee,
                    recipient_amount: due,
                    sender_refund: refund,
                },
            ),
        );
        self.maybe_emit_health_changed(&after, was_underfunded, now, Ghost(stream));
        Ok(())
    }

    /// What a keeper would get for closing a stream, and what would be left
    /// for its sender. Nothing before the keeper may act.
    pub fn get_keeper_fee_split(&self, call: &Call, stream_id: u64) -> (r: Result<
        (i128, i128),
        ContractError,
    >)
        requires
            self@.wf(),
        ensures
            match self@.keeper_fee_error(stream_id) {
                Some(e) => r == Err::<(i128, i128), ContractError>(e),
                None => {
                    &&& r is Ok
                    &&& (r->Ok_0.0 as int, r->Ok_0.1 as int) == self@.keeper_fee_preview(
                        *call,
                        stream_id,
                    )
                    &&& r->Ok_0.0 >= 0
                    &&& r->Ok_0.1 >= 0
                },
            },
    {
        let stream = match self.load_stream(stream_id) {
            Err(e) => {
                return Err(e);
            },
            Ok(stream) => stream,
        };
        if !stream.is_running() {
            return Err(ContractError::InvalidState);
        }
        let eligible_at: u64 = match stream.end_time.checked_add(KEEPER_GRACE_PERIOD_SECONDS) {
            Some(at) => at,
            None => {
                return Err(ContractError::ArithmeticOverflow);
            },
        };
        if call.timestamp < eligible_at {
            return Ok((0, 0));
        }
        let gross: i128 = stream.deposit_amount - stream.accrued_at(call.timestamp);
        Ok(compute_keeper_fee_split(gross, KEEPER_FEE_BPS))
    }
}

} // verus!
