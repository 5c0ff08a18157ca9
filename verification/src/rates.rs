//! Changing the rate, the end and the deposit of a running stream.

use crate::events::{
    Event, RateDecreased, RateUpdated, RecipientShareDelegated, StreamEndExtended,
    StreamEndShortened, StreamToppedUp,
};
use crate::state::{Call, ContractState, FluxoraStream};
use crate::types::{share_option, Address, ContractError, Stream, StreamKind, StreamStatus};
use vstd::prelude::*;

verus! {

/// How many ledgers must pass between two changes of a stream's rate.
pub const MIN_RATE_INTERVAL_LEDGERS: u32 = 17;

/// How many times a stream may be delegated on.
pub const MAX_DELEGATION_DEPTH: u32 = 3;

impl Stream {
    /// Whether the last change of rate was too recent for another one.
    pub open spec fn spec_rate_cooling(self, sequence: u32) -> bool {
        &&& self.last_rate_change_ledger > 0
        &&& sequence < self.last_rate_change_ledger + MIN_RATE_INTERVAL_LEDGERS
        &&& sequence < u32::MAX
    }

    /// Whether the last change of rate was too recent for another one.
    fn rate_cooling(&self, sequence: u32) -> (r: bool)
        ensures
            r == self.spec_rate_cooling(sequence),
    {
        self.last_rate_change_ledger > 0 && sequence < self.last_rate_change_ledger.saturating_add(
            MIN_RATE_INTERVAL_LEDGERS,
        )
    }

    /// The stream with what has built up by `now` fixed, and another rate from
    /// there on. What has built up counts even where the cliff still holds it
    /// back, so that a change of rate takes nothing away.
    pub open spec fn checkpointed(self, now: u64, rate: i128) -> Stream {
        Stream {
            checkpointed_amount: self.spec_built_up(now as int) as i128,
            checkpointed_at: now,
            rate_per_second: rate,
            ..self
        }
    }

    /// The most that the stream can pay if the rate changes at `now`.
    pub open spec fn spec_payable_at_rate(self, now: u64, rate: int) -> int {
        self.spec_built_up(now as int) + rate * (self.end_time - now)
    }

    /// The stream with a later end. Nothing accrues between an end that has
    /// passed and `now`.
    pub open spec fn extended(self, now: u64, end_time: u64) -> Stream {
        if now <= self.end_time {
            Stream { end_time, ..self }
        } else {
            Stream { end_time, ..self.checkpointed(now, self.rate_per_second) }
        }
    }

    /// The stream with a lower rate from `now` on, and a deposit that just
    /// covers it.
    pub open spec fn slowed(self, now: u64, rate: i128) -> Stream {
        Stream {
            deposit_amount: self.spec_payable_at_rate(now, rate as int) as i128,
            ..self.checkpointed(now, rate)
        }
    }

    /// The deposit of the stream if it ends at `end_time`: what the schedule
    /// can stream, but no less than what was earned by `now`.
    pub open spec fn spec_shortened_deposit(self, now: u64, end_time: u64) -> int {
        let streamable = self.rate_per_second * (end_time - self.start_time);
        if streamable < self.spec_accrued_at(now as int) {
            self.spec_accrued_at(now as int)
        } else {
            streamable
        }
    }

    /// The child's part of the rate.
    pub open spec fn spec_child_rate(self, share_bps: u32) -> int {
        self.rate_per_second * share_bps / 10_000
    }

    /// The child stream that gets part of the rate from `now` on.
    pub open spec fn child(
        self,
        child_id: u64,
        now: u64,
        share_bps: u32,
        new_recipient: Address,
    ) -> Stream {
        let rate = self.spec_child_rate(share_bps);
        Stream {
            stream_id: child_id,
            sender: self.sender,
            recipient: new_recipient,
            claim_owner: None,
            deposit_amount: (self.deposit_amount - self.spec_payable_at_rate(
                now,
                self.rate_per_second - rate,
            )) as i128,
            rate_per_second: rate as i128,
            start_time: now,
            cliff_time: if self.cliff_time < now {
                now
            } else {
                self.cliff_time
            },
            end_time: self.end_time,
            withdrawn_amount: 0,
            status: StreamStatus::Active,
            cancelled_at: None,
            checkpointed_amount: 0,
            checkpointed_at: now,
            withdraw_dust_threshold: self.withdraw_dust_threshold,
            last_pause_toggle_ledger: 0,
            last_withdraw_ledger: 0,
            last_rate_change_ledger: 0,
            is_pooled: None,
            metadata: self.metadata,
            memo: self.memo,
            kind: self.kind,
            irrevocable: None,
            witness: None,
            delegation_depth: (self.delegation_depth + 1) as u32,
            parent_stream_id: Some(self.stream_id),
        }
    }
}

impl ContractState {
    /// Why a higher rate is refused.
    pub open spec fn update_rate_per_second_error(self, call: Call, id: u64, rate: i128) -> Option<
        ContractError,
    > {
        let stream = self.streams[id];
        let total = rate * (stream.end_time - stream.start_time);
        if self.emergency_paused {
            Some(ContractError::ContractPaused)
        } else if !self.streams.dom().contains(id) {
            Some(ContractError::StreamNotFound)
        } else if stream.kind != StreamKind::Linear {
            Some(ContractError::UnsupportedStreamKind)
        } else if stream.spec_rate_cooling(call.sequence) {
            Some(ContractError::RateCooldownActive)
        } else if !call.authorised(stream.sender) {
            Some(ContractError::Unauthorized)
        } else if !stream.spec_running() {
            Some(ContractError::InvalidState)
        } else if rate <= 0 || rate <= stream.rate_per_second {
            Some(ContractError::InvalidParams)
        } else if rate > self.max_rate_per_second {
            Some(ContractError::RateCapExceeded)
        } else if total > i128::MAX {
            Some(ContractError::ArithmeticOverflow)
        } else if stream.deposit_amount < total {
            Some(ContractError::InsufficientDeposit)
        } else if !self.clock_ok(call.timestamp) {
            Some(ContractError::ClockRegression)
        } else {
            None
        }
    }

    /// The state with a higher rate from now on.
    pub open spec fn update_rate_per_second_step(self, call: Call, id: u64, rate: i128) -> Self {
        let stream = self.streams[id];
        self.observe(call.timestamp).put(
            (Stream {
                last_rate_change_ledger: call.sequence,
                ..stream.checkpointed(call.timestamp, rate)
            }),
        ).emit(
            Event::RateUpdated(
                RateUpdated {
                    stream_id: id,
                    old_rate_per_second: stream.rate_per_second,
                    new_rate_per_second: rate,
                    effective_time: call.timestamp,
                },
            ),
        )
    }

    /// Why a lower rate is refused.
    pub open spec fn decrease_rate_error(self, call: Call, id: u64, rate: i128) -> Option<
        ContractError,
    > {
        let stream = self.streams[id];
        let future = rate * (stream.end_time - call.timestamp);
        if self.emergency_paused {
            Some(ContractError::ContractPaused)
        } else if !self.streams.dom().contains(id) {
            Some(ContractError::StreamNotFound)
        } else if stream.kind != StreamKind::Linear {
            Some(ContractError::UnsupportedStreamKind)
        } else if stream.spec_rate_cooling(call.sequence) {
            Some(ContractError::RateCooldownActive)
        } else if !call.authorised(stream.sender) {
            Some(ContractError::Unauthorized)
        } else if !stream.spec_running() {
            Some(ContractError::StreamTerminalState)
        } else if !self.clock_ok(call.timestamp) {
            Some(ContractError::ClockRegression)
        } else if call.timestamp >= stream.end_time {
            Some(ContractError::InvalidState)
        } else if rate <= 0 || rate >= stream.rate_per_second {
            Some(ContractError::InvalidParams)
        } else if future > i128::MAX || stream.spec_payable_at_rate(call.timestamp, rate as int)
            > i128::MAX {
            Some(ContractError::ArithmeticOverflow)
        } else if stream.spec_payable_at_rate(call.timestamp, rate as int)
            > stream.deposit_amount {
            Some(ContractError::InvalidState)
        } else {
            None
        }
    }

    /// The state with a lower rate from now on; what can no longer be earned
    /// goes back to the sender.
    pub open spec fn decrease_rate_step(self, call: Call, id: u64, rate: i128) -> Self {
        let stream = self.streams[id];
        let now = call.timestamp;
        let after = Stream {
            last_rate_change_ledger: call.sequence,
            ..stream.slowed(now, rate)
        };
        let refund = (stream.deposit_amount - after.deposit_amount) as i128;
        let stored = self.observe(now).put(after);
        let refunded = if refund > 0 {
            stored.settle(refund).push(stream.sender, refund)
        } else {
            stored
        };
        refunded.emit(
            Event::RateDecreased(
                RateDecreased {
                    stream_id: id,
                    old_rate_per_second: stream.rate_per_second,
                    new_rate_per_second: rate,
                    effective_time: now,
                    checkpointed_amount: after.checkpointed_amount,
                    refund_amount: refund,
                },
            ),
        )
    }

    /// Why a plain change of rate is refused.
    pub open spec fn update_rate_error(
        self,
        call: Call,
        id: u64,
        rate: i128,
        caller: Address,
    ) -> Option<ContractError> {
        let stream = self.streams[id];
        if self.emergency_paused {
            Some(ContractError::ContractPaused)
        } else if !call.authorised(caller) {
            Some(ContractError::Unauthorized)
        } else if !self.streams.dom().contains(id) {
            Some(ContractError::StreamNotFound)
        } else if !stream.spec_running() {
            Some(ContractError::StreamTerminalState)
        } else if self.config is None {
            Some(ContractError::InvalidState)
        } else if caller != stream.sender && Some(caller) != self.admin() {
            Some(ContractError::Unauthorized)
        } else if rate <= 0 {
            Some(ContractError::InvalidParams)
        } else {
            None
        }
    }

    /// The state with another rate for the whole current epoch of the stream.
    pub open spec fn update_rate_step(self, call: Call, id: u64, rate: i128) -> Self {
        let stream = self.streams[id];
        self.put((Stream { rate_per_second: rate, ..stream })).emit(
            Event::RateUpdated(
                RateUpdated {
                    stream_id: id,
                    old_rate_per_second: stream.rate_per_second,
                    new_rate_per_second: rate,
                    effective_time: call.timestamp,
                },
            ),
        )
    }

    /// Why an earlier end is refused.
    pub open spec fn shorten_error(self, call: Call, id: u64, end_time: u64) -> Option<
        ContractError,
    > {
        let stream = self.streams[id];
        if self.emergency_paused {
            Some(ContractError::ContractPaused)
        } else if !self.streams.dom().contains(id) {
            Some(ContractError::StreamNotFound)
        } else if stream.kind != StreamKind::Linear {
            Some(ContractError::UnsupportedStreamKind)
        } else if !call.authorised(stream.sender) {
            Some(ContractError::Unauthorized)
        } else if !stream.spec_running() {
            Some(ContractError::InvalidState)
        } else if stream.spec_irrevocable() {
            Some(ContractError::Unauthorized)
        } else if !self.clock_ok(call.timestamp) {
            Some(ContractError::ClockRegression)
        } else if end_time <= call.timestamp || end_time <= stream.start_time || end_time
            < stream.cliff_time || end_time >= stream.end_time {
            Some(ContractError::InvalidParams)
        } else if stream.rate_per_second * (end_time - stream.start_time) > i128::MAX {
            Some(ContractError::ArithmeticOverflow)
        } else if stream.spec_shortened_deposit(call.timestamp, end_time)
            > stream.deposit_amount {
            Some(ContractError::InvalidParams)
        } else {
            None
        }
    }

    /// The state with an earlier end; what can no longer be earned goes back
    /// to the sender.
    pub open spec fn shorten_step(self, call: Call, id: u64, end_time: u64) -> Self {
        let stream = self.streams[id];
        let deposit = stream.spec_shortened_deposit(call.timestamp, end_time) as i128;
        let refund = (stream.deposit_amount - deposit) as i128;
        let stored = self.observe(call.timestamp).put(
            (Stream { end_time, deposit_amount: deposit, ..stream }),
        );
        let refunded = if refund > 0 {
            stored.settle(refund).push(stream.sender, refund)
        } else {
            stored
        };
        refunded.emit(
            Event::EndShortened(
                StreamEndShortened {
                    stream_id: id,
                    old_end_time: stream.end_time,
                    new_end_time: end_time,
                    refund_amount: refund,
                },
            ),
        )
    }

    /// Why a later end is refused.
    pub open spec fn extend_error(self, call: Call, id: u64, end_time: u64) -> Option<
        ContractError,
    > {
        let stream = self.streams[id];
        let total = stream.rate_per_second * (end_time - stream.start_time);
        if self.emergency_paused {
            Some(ContractError::ContractPaused)
        } else if !self.streams.dom().contains(id) {
            Some(ContractError::StreamNotFound)
        } else if stream.kind != StreamKind::Linear {
            Some(ContractError::UnsupportedStreamKind)
        } else if !call.authorised(stream.sender) {
            Some(ContractError::Unauthorized)
        } else if !stream.spec_running() {
            Some(ContractError::InvalidState)
        } else if !self.clock_ok(call.timestamp) {
            Some(ContractError::ClockRegression)
        } else if end_time <= stream.end_time || end_time <= stream.start_time || end_time
            < stream.cliff_time || end_time < call.timestamp {
            Some(ContractError::InvalidParams)
        } else if total > i128::MAX {
            Some(ContractError::ArithmeticOverflow)
        } else if total > stream.deposit_amount {
            Some(ContractError::InsufficientDeposit)
        } else {
            None
        }
    }

    /// The state with a later end.
    pub open spec fn extend_step(self, call: Call, id: u64, end_time: u64) -> Self {
        let stream = self.streams[id];
        self.observe(call.timestamp).put(stream.extended(call.timestamp, end_time)).emit(
            Event::EndExtended(
                StreamEndExtended {
                    stream_id: id,
                    old_end_time: stream.end_time,
                    new_end_time: end_time,
                },
            ),
        )
    }

    /// Why a larger deposit is refused.
    pub open spec fn top_up_error(self, call: Call, id: u64, funder: Address, amount: i128) -> Option<
        ContractError,
    > {
        let stream = self.streams[id];
        if self.emergency_paused {
            Some(ContractError::ContractPaused)
        } else if amount <= 0 {
            Some(ContractError::InvalidParams)
        } else if !self.streams.dom().contains(id) {
            Some(ContractError::StreamNotFound)
        } else if stream.kind != StreamKind::Linear {
            Some(ContractError::UnsupportedStreamKind)
        } else if !stream.spec_running() {
            Some(ContractError::InvalidState)
        } else if !self.clock_ok(call.timestamp) {
            Some(ContractError::ClockRegression)
        } else if call.timestamp >= stream.end_time {
            Some(ContractError::InvalidState)
        } else if !call.authorised(funder) {
            Some(ContractError::Unauthorized)
        } else if stream.deposit_amount + amount > i128::MAX || self.total_liabilities + amount
            > i128::MAX {
            Some(ContractError::ArithmeticOverflow)
        } else {
            None
        }
    }

    /// The state with a larger deposit.
    pub open spec fn top_up_step(self, call: Call, id: u64, funder: Address, amount: i128) -> Self {
        let stream = self.streams[id];
        let after = Stream {
            deposit_amount: (stream.deposit_amount + amount) as i128,
            ..stream
        };
        self.observe(call.timestamp).put(after).pull(funder, amount).owe(amount).emit(
            Event::ToppedUp(
                StreamToppedUp {
                    stream_id: id,
                    top_up_amount: amount,
                    new_deposit_amount: after.deposit_amount,
                    new_end_time: stream.end_time,
                },
            ),
        )
    }

    /// Why `who` cannot follow the parents of a stream: one of them is gone,
    /// or `who` is the recipient of one already.
    pub open spec fn lineage_error(self, stream: Stream, who: Address) -> Option<ContractError>
        decreases stream.delegation_depth,
    {
        match stream.parent_stream_id {
            None => None,
            Some(id) => if !self.streams.dom().contains(id) {
                Some(ContractError::StreamNotFound)
            } else if self.streams[id].recipient == who {
                Some(ContractError::CyclicDelegation)
            } else if self.streams[id].delegation_depth < stream.delegation_depth {
                self.lineage_error(self.streams[id], who)
            } else {
                None
            },
        }
    }

    /// Why a delegation is refused.
    pub open spec fn delegate_error(
        self,
        call: Call,
        id: u64,
        recipient: Address,
        share_bps: u32,
        new_recipient: Address,
    ) -> Option<ContractError> {
        let stream = self.streams[id];
        let now = call.timestamp;
        let child_rate = stream.spec_child_rate(share_bps);
        let rate = stream.rate_per_second - child_rate;
        if self.emergency_paused {
            Some(ContractError::ContractPaused)
        } else if !self.streams.dom().contains(id) {
            Some(ContractError::StreamNotFound)
        } else if stream.kind != StreamKind::Linear {
            Some(ContractError::UnsupportedStreamKind)
        } else if !call.authorised(recipient) || stream.recipient != recipient {
            Some(ContractError::Unauthorized)
        } else if share_bps == 0 || share_bps > 10_000 {
            Some(ContractError::InvalidParams)
        } else if recipient == new_recipient {
            Some(ContractError::CyclicDelegation)
        } else if !stream.spec_running() {
            Some(ContractError::StreamTerminalState)
        } else if !self.clock_ok(now) {
            Some(ContractError::ClockRegression)
        } else if now >= stream.end_time {
            Some(ContractError::InvalidState)
        } else if stream.delegation_depth >= MAX_DELEGATION_DEPTH {
            Some(ContractError::DelegationDepthExceeded)
        } else {
            match self.lineage_error(stream, new_recipient) {
                Some(e) => Some(e),
                None => if stream.rate_per_second * share_bps > i128::MAX {
                    Some(ContractError::ArithmeticOverflow)
                } else if child_rate <= 0 || rate <= 0 {
                    Some(ContractError::InvalidParams)
                } else if rate * (stream.end_time - now) > i128::MAX
                    || stream.spec_payable_at_rate(now, rate) > i128::MAX {
                    Some(ContractError::ArithmeticOverflow)
                } else if stream.spec_payable_at_rate(now, rate) > stream.deposit_amount {
                    Some(ContractError::InvalidState)
                } else {
                    None
                },
            }
        }
    }

    /// The state after a delegation: the parent keeps what it earned and the
    /// rest of the rate, and the child takes over the rest of the deposit.
    pub open spec fn delegate_step(
        self,
        call: Call,
        id: u64,
        share_bps: u32,
        new_recipient: Address,
    ) -> Self {
        let stream = self.streams[id];
        let now = call.timestamp;
        let child_rate = stream.spec_child_rate(share_bps);
        let rate = (stream.rate_per_second - child_rate) as i128;
        let slowed = self.observe(now).put(stream.slowed(now, rate));
        let child_id = self.fresh_id(stream.sender);
        let child = stream.child(child_id, now, share_bps, new_recipient);
        let stored = slowed.take_id(stream.sender).put(child);
        (ContractState {
            recipient_streams: crate::state::enlist(
                stored.recipient_streams,
                new_recipient,
                child_id,
            ),
            ..stored
        }).emit(
            Event::ShareDelegated(
                RecipientShareDelegated {
                    parent_stream_id: id,
                    child_stream_id: child_id,
                    delegator: stream.recipient,
                    delegatee: new_recipient,
                    share_bps,
                    new_parent_rate: rate,
                    child_rate: child_rate as i128,
                },
            ),
        )
    }
}

/// A product of amounts and seconds is not negative.
proof fn lemma_product(rate: int, seconds: int)
    requires
        rate >= 0,
        seconds >= 0,
    ensures
        rate * seconds >= 0,
{
    assert(rate * seconds >= 0) by (nonlinear_arith)
        requires
            rate >= 0,
            seconds >= 0,
    ;
}

impl FluxoraStream {
    /// Raises the rate of a stream from now on. The deposit must cover the new
    /// rate over the whole schedule.
    pub fn update_rate_per_second(
        &mut self,
        call: &Call,
        stream_id: u64,
        new_rate_per_second: i128,
    ) -> (r: Result<(), ContractError>)
        requires
            old(self)@.wf(),
        ensures
            final(self)@.wf(),
            match old(self)@.update_rate_per_second_error(*call, stream_id, new_rate_per_second) {
                Some(e) => r == Err::<(), ContractError>(e) && final(self)@ == old(self)@,
                None => {
                    &&& r == Ok::<(), ContractError>(())
                    &&& final(self)@ == old(self)@.update_rate_per_second_step(
                        *call,
                        stream_id,
                        new_rate_per_second,
                    )
                    &&& final(self)@.streams[stream_id].spec_accrued_at(call.timestamp as int)
                        == old(self)@.streams[stream_id].spec_accrued_at(call.timestamp as int)
                    &&& forall|t: int|
                        #![trigger final(self)@.streams[stream_id].spec_accrued_at(t)]
                        call.timestamp <= t
                            ==> final(self)@.streams[stream_id].spec_accrued_at(t)
                            >= old(self)@.streams[stream_id].spec_accrued_at(t)
                },
            },
    {
        if self.emergency_paused {
            return Err(ContractError::ContractPaused);
        }
        let mut stream = match self.load_stream(stream_id) {
            Err(e) => {
                return Err(e);
            },
            Ok(stream) => stream,
        };
        if stream.kind != StreamKind::Linear {
            return Err(ContractError::UnsupportedStreamKind);
        }
        if stream.rate_cooling(call.sequence) {
            return Err(ContractError::RateCooldownActive);
        }
        if !call.is_signed_by(stream.sender) {
            return Err(ContractError::Unauthorized);
        }
        if !stream.is_running() {
            return Err(ContractError::InvalidState);
        }
        let old_rate: i128 = stream.rate_per_second;
        if new_rate_per_second <= 0 || new_rate_per_second <= old_rate {
            return Err(ContractError::InvalidParams);
        }
        if new_rate_per_second > self.max_rate_per_second {
            return Err(ContractError::RateCapExceeded);
        }
        let duration: u64 = stream.end_time - stream.start_time;
        proof {
            lemma_product(new_rate_per_second as int, duration as int);
        }
        match new_rate_per_second.checked_mul(duration as i128) {
            None => {
                return Err(ContractError::ArithmeticOverflow);
            },
            Some(total) => {
                if stream.deposit_amount < total {
                    return Err(ContractError::InsufficientDeposit);
                }
            },
        }
        let now: u64 = match self.current_accrual_timestamp(call) {
            Err(e) => {
                return Err(e);
            },
            Ok(now) => now,
        };
        let ghost before = stream;
        stream.checkpointed_amount = stream.built_up(now);
        stream.checkpointed_at = now;
        stream.rate_per_second = new_rate_per_second;
        stream.last_rate_change_ledger = call.sequence;
        proof {
            let after = before.checkpointed(now, new_rate_per_second);
            assert(stream.spec_checkpoint() == after.spec_checkpoint());
            crate::laws::accrual::law_rate_change_keeps_accrued(before, now, new_rate_per_second);
            assert forall|t: int| #![trigger stream.spec_accrued_at(t)] now <= t implies
                stream.spec_accrued_at(t) >= before.spec_accrued_at(t) by {
                crate::laws::accrual::law_rate_increase_never_lowers(
                    before,
                    now,
                    new_rate_per_second,
                    t,
                );
            }
        }
        self.update_stream(&stream);
        self.emit(
            Event::RateUpdated(
                RateUpdated {
                    stream_id,
                    old_rate_per_second: old_rate,
                    new_rate_per_second,
                    effective_time: now,
                },
            ),
        );
        Ok(())
    }

    /// Lowers the rate of a stream from now on. What has built up stays, and
    /// what can no longer be earned goes back to the sender.
    pub fn decrease_rate_per_second(
        &mut self,
        call: &Call,
        stream_id: u64,
        new_rate_per_second: i128,
    ) -> (r: Result<(), ContractError>)
        requires
            old(self)@.wf(),
        ensures
            final(self)@.wf(),
            match old(self)@.decrease_rate_error(*call, stream_id, new_rate_per_second) {
                Some(e) => r == Err::<(), ContractError>(e) && final(self)@ == old(self)@,
                None => {
                    &&& r == Ok::<(), ContractError>(())
                    &&& final(self)@ == old(self)@.decrease_rate_step(
                        *call,
                        stream_id,
                        new_rate_per_second,
                    )
                },
            },
    {
        if self.emergency_paused {
            return Err(ContractError::ContractPaused);
        }
        let mut stream = match self.load_stream(stream_id) {
            Err(e) => {
                return Err(e);
            },
            Ok(stream) => stream,
        };
        if stream.kind != StreamKind::Linear {
            return Err(ContractError::UnsupportedStreamKind);
        }
        if stream.rate_cooling(call.sequence) {
            return Err(ContractError::RateCooldownActive);
        }
        if !call.is_signed_by(stream.sender) {
            return Err(ContractError::Unauthorized);
        }
        if !stream.is_running() {
            return Err(ContractError::StreamTerminalState);
        }
        let now: u64 = call.timestamp;
        if self.clock_regressed(now) {
            return Err(ContractError::ClockRegression);
        }
        if now >= stream.end_time {
            return Err(ContractError::InvalidState);
        }
        let old_rate: i128 = stream.rate_per_second;
        if new_rate_per_second <= 0 || new_rate_per_second >= old_rate {
            return Err(ContractError::InvalidParams);
        }
        let built_up: i128 = stream.built_up(now);
        let remaining: u64 = stream.end_time - now;
        proof {
            lemma_product(new_rate_per_second as int, remaining as int);
        }
        let future: i128 = match new_rate_per_second.checked_mul(remaining as i128) {
            None => {
                return Err(ContractError::ArithmeticOverflow);
            },
            Some(future) => future,
        };
        let deposit: i128 = match built_up.checked_add(future) {
            None => {
                return Err(ContractError::ArithmeticOverflow);
            },
            Some(deposit) => deposit,
        };
        let refund: i128 = stream.deposit_amount - deposit;
        if refund < 0 {
            return Err(ContractError::InvalidState);
        }
        self.last_accrual_timestamp = Some(now);
        stream.checkpointed_amount = built_up;
        stream.checkpointed_at = now;
        stream.rate_per_second = new_rate_per_second;
        stream.deposit_amount = deposit;
        stream.last_rate_change_ledger = call.sequence;
        self.update_stream(&stream);
        if refund > 0 {
            self.settle(refund);
            self.push_token(stream.sender, refund);
        }
        self.emit(
            Event::RateDecreased(
                RateDecreased {
                    stream_id,
                    old_rate_per_second: old_rate,
                    new_rate_per_second,
                    effective_time: now,
                    checkpointed_amount: built_up,
                    refund_amount: refund,
                },
            ),
        );
        Ok(())
    }

    /// Replaces the rate of a stream, at the wish of its sender or of the
    /// administrator. The new rate counts from the last checkpoint, not from
    /// now; what was withdrawn is not touched.
    pub fn update_rate(
        &mut self,
        call: &Call,
        stream_id: u64,
        new_rate_per_second: i128,
        caller: Address,
    ) -> (r: Result<(), ContractError>)
        requires
            old(self)@.wf(),
        ensures
            final(self)@.wf(),
            match old(self)@.update_rate_error(*call, stream_id, new_rate_per_second, caller) {
                Some(e) => r == Err::<(), ContractError>(e) && final(self)@ == old(self)@,
                None => {
                    &&& r == Ok::<(), ContractError>(())
                    &&& final(self)@ == old(self)@.update_rate_step(
                        *call,
                        stream_id,
                        new_rate_per_second,
                    )
                },
            },
    {
        if self.emergency_paused {
            return Err(ContractError::ContractPaused);
        }
        if !call.is_signed_by(caller) {
            return Err(ContractError::Unauthorized);
        }
        let mut stream = match self.load_stream(stream_id) {
            Err(e) => {
                return Err(e);
            },
            Ok(stream) => stream,
        };
        if !stream.is_running() {
            return Err(ContractError::StreamTerminalState);
        }
        match self.config {
            None => {
                return Err(ContractError::InvalidState);
            },
            Some(config) => {
                if caller != stream.sender && caller != config.admin {
                    return Err(ContractError::Unauthorized);
                }
            },
        }
        if new_rate_per_second <= 0 {
            return Err(ContractError::InvalidParams);
        }
        let old_rate: i128 = stream.rate_per_second;
        stream.rate_per_second = new_rate_per_second;
        self.update_stream(&stream);
        self.emit(
            Event::RateUpdated(
                RateUpdated {
                    stream_id,
                    old_rate_per_second: old_rate,
                    new_rate_per_second,
                    effective_time: call.timestamp,
                },
            ),
        );
        Ok(())
    }

    /// Moves the end of a stream to an earlier moment, still to come. What was
    /// earned stays earned, and what can no longer be earned goes back to the
    /// sender.
    pub fn shorten_stream_end_time(&mut self, call: &Call, stream_id: u64, new_end_time: u64) -> (r:
        Result<(), ContractError>)
        requires
            old(self)@.wf(),
        ensures
            final(self)@.wf(),
            match old(self)@.shorten_error(*call, stream_id, new_end_time) {
                Some(e) => r == Err::<(), ContractError>(e) && final(self)@ == old(self)@,
                None => {
                    &&& r == Ok::<(), ContractError>(())
                    &&& final(self)@ == old(self)@.shorten_step(*call, stream_id, new_end_time)
                },
            },
    {
        if self.emergency_paused {
            return Err(ContractError::ContractPaused);
        }
        let mut stream = match self.load_stream(stream_id) {
            Err(e) => {
                return Err(e);
            },
            Ok(stream) => stream,
        };
        if stream.kind != StreamKind::Linear {
            return Err(ContractError::UnsupportedStreamKind);
        }
        if !call.is_signed_by(stream.sender) {
            return Err(ContractError::Unauthorized);
        }
        if !stream.is_running() {
            return Err(ContractError::InvalidState);
        }
        if stream.is_irrevocable() {
            return Err(ContractError::Unauthorized);
        }
        let now: u64 = call.timestamp;
        if self.clock_regressed(now) {
            return Err(ContractError::ClockRegression);
        }
        if new_end_time <= now || new_end_time <= stream.start_time || new_end_time
            < stream.cliff_time || new_end_time >= stream.end_time {
            return Err(ContractError::InvalidParams);
        }
        let duration: u64 = new_end_time - stream.start_time;
        proof {
            lemma_product(stream.rate_per_second as int, duration as int);
        }
        let streamable: i128 = match stream.rate_per_second.checked_mul(duration as i128) {
            None => {
                return Err(ContractError::ArithmeticOverflow);
            },
            Some(streamable) => streamable,
        };
        let accrued: i128 = stream.accrued_at(now);
        let deposit: i128 = if streamable < accrued {
            accrued
        } else {
            streamable
        };
        if deposit > stream.deposit_amount {
            return Err(ContractError::InvalidParams);
        }
        let old_end_time: u64 = stream.end_time;
        let refund: i128 = stream.deposit_amount - deposit;
        self.last_accrual_timestamp = Some(now);
        stream.end_time = new_end_time;
        stream.deposit_amount = deposit;
        self.update_stream(&stream);
        if refund > 0 {
            self.settle(refund);
            self.push_token(stream.sender, refund);
        }
        self.emit(
            Event::EndShortened(
                StreamEndShortened {
                    stream_id,
                    old_end_time,
                    new_end_time,
                    refund_amount: refund,
                },
            ),
        );
        Ok(())
    }

    /// Moves the end of a stream to a later moment. The deposit must cover the
    /// longer schedule. What has accrued by now stays as it is, also where the
    /// old end has passed.
    pub fn extend_stream_end_time(&mut self, call: &Call, stream_id: u64, new_end_time: u64) -> (r:
        Result<(), ContractError>)
        requires
            old(self)@.wf(),
        ensures
            final(self)@.wf(),
            match old(self)@.extend_error(*call, stream_id, new_end_time) {
                Some(e) => r == Err::<(), ContractError>(e) && final(self)@ == old(self)@,
                None => {
                    &&& r == Ok::<(), ContractError>(())
                    &&& final(self)@ == old(self)@.extend_step(*call, stream_id, new_end_time)
                    &&& final(self)@.streams[stream_id].spec_accrued_at(call.timestamp as int)
                        == old(self)@.streams[stream_id].spec_accrued_at(call.timestamp as int)
                },
            },
    {
        if self.emergency_paused {
            return Err(ContractError::ContractPaused);
        }
        let mut stream = match self.load_stream(stream_id) {
            Err(e) => {
                return Err(e);
            },
            Ok(stream) => stream,
        };
        if stream.kind != StreamKind::Linear {
            return Err(ContractError::UnsupportedStreamKind);
        }
        if !call.is_signed_by(stream.sender) {
            return Err(ContractError::Unauthorized);
        }
        if !stream.is_running() {
            return Err(ContractError::InvalidState);
        }
        let now: u64 = call.timestamp;
        if self.clock_regressed(now) {
            return Err(ContractError::ClockRegression);
        }
        if new_end_time <= stream.end_time || new_end_time <= stream.start_time || new_end_time
            < stream.cliff_time || new_end_time < now {
            return Err(ContractError::InvalidParams);
        }
        let duration: u64 = new_end_time - stream.start_time;
        proof {
            lemma_product(stream.rate_per_second as int, duration as int);
        }
        match stream.rate_per_second.checked_mul(duration as i128) {
            None => {
                return Err(ContractError::ArithmeticOverflow);
            },
            Some(total) => {
                if total > stream.deposit_amount {
                    return Err(ContractError::InsufficientDeposit);
                }
            },
        }
        self.last_accrual_timestamp = Some(now);
        let old_end_time: u64 = stream.end_time;
        proof {
            crate::laws::accrual::law_extend_keeps_accrued(stream, now, new_end_time);
        }
        if now > old_end_time {
            stream.checkpointed_amount = stream.built_up(now);
            stream.checkpointed_at = now;
        }
        stream.end_time = new_end_time;
        self.update_stream(&stream);
        self.emit(
            Event::EndExtended(StreamEndExtended { stream_id, old_end_time, new_end_time }),
        );
        Ok(())
    }

    /// Adds to the deposit of a running stream. Anybody may do this.
    pub fn top_up_stream(&mut self, call: &Call, stream_id: u64, funder: Address, amount: i128) -> (r:
        Result<(), ContractError>)
        requires
            old(self)@.wf(),
        ensures
            final(self)@.wf(),
            match old(self)@.top_up_error(*call, stream_id, funder, amount) {
                Some(e) => r == Err::<(), ContractError>(e) && final(self)@ == old(self)@,
                None => {
                    &&& r == Ok::<(), ContractError>(())
                    &&& final(self)@ == old(self)@.top_up_step(*call, stream_id, funder, amount)
                },
            },
    {
        if self.emergency_paused {
            return Err(ContractError::ContractPaused);
        }
        if amount <= 0 {
            return Err(ContractError::InvalidParams);
        }
        let mut stream = match self.load_stream(stream_id) {
            Err(e) => {
                return Err(e);
            },
            Ok(stream) => stream,
        };
        if stream.kind != StreamKind::Linear {
            return Err(ContractError::UnsupportedStreamKind);
        }
        if !stream.is_running() {
            return Err(ContractError::InvalidState);
        }
        let now: u64 = call.timestamp;
        if self.clock_regressed(now) {
            return Err(ContractError::ClockRegression);
        }
        if now >= stream.end_time {
            return Err(ContractError::InvalidState);
        }
        if !call.is_signed_by(funder) {
            return Err(ContractError::Unauthorized);
        }
        let deposit: i128 = match stream.deposit_amount.checked_add(amount) {
            None => {
                return Err(ContractError::ArithmeticOverflow);
            },
            Some(deposit) => deposit,
        };
        if self.total_liabilities.checked_add(amount).is_none() {
            return Err(ContractError::ArithmeticOverflow);
        }
        self.last_accrual_timestamp = Some(now);
        stream.deposit_amount = deposit;
        self.update_stream(&stream);
        self.pull_token(funder, amount);
        self.owe(amount);
        self.emit(
            Event::ToppedUp(
                StreamToppedUp {
                    stream_id,
                    top_up_amount: amount,
                    new_deposit_amount: deposit,
                    new_end_time: stream.end_time,
                },
            ),
        );
        Ok(())
    }

    /// Refuses a recipient who is the recipient of one of the stream's parents
    /// already.
    fn check_lineage(&self, stream: &Stream, who: Address) -> (r: Result<(), ContractError>)
        requires
            self@.wf(),
            self@.descends(*stream),
        ensures
            match self@.lineage_error(*stream, who) {
                Some(e) => r == Err::<(), ContractError>(e),
                None => r == Ok::<(), ContractError>(()),
            },
        decreases stream.delegation_depth,
    {
        match stream.parent_stream_id {
            None => Ok(()),
            Some(id) => match self.load_stream(id) {
                Err(e) => Err(e),
                Ok(parent) => {
                    if parent.recipient == who {
                        return Err(ContractError::CyclicDelegation);
                    }
                    proof {
                        crate::registry::lemma_stored_stream(self@, id);
                    }
                    self.check_lineage(&parent, who)
                },
            },
        }
    }

    /// Hands part of a stream's future earnings over to a new stream for
    /// somebody else, at the wish of the recipient.
    pub fn delegate_recipient_share(
        &mut self,
        call: &Call,
        stream_id: u64,
        recipient: Address,
        share_bps: u32,
        new_recipient: Address,
    ) -> (r: Result<u64, ContractError>)
        requires
            old(self)@.wf(),
            old(self)@.next_stream_id < u64::MAX,
            crate::state::listed(old(self)@.recipient_streams, new_recipient).len() < u32::MAX,
        ensures
            final(self)@.wf(),
            match old(self)@.delegate_error(
                *call,
                stream_id,
                recipient,
                share_bps,
                new_recipient,
            ) {
                Some(e) => r == Err::<u64, ContractError>(e) && final(self)@ == old(self)@,
                None => {
                    &&& r == Ok::<u64, ContractError>(
                        old(self)@.fresh_id(old(self)@.streams[stream_id].sender),
                    )
                    &&& final(self)@ == old(self)@.delegate_step(
                        *call,
                        stream_id,
                        share_bps,
                        new_recipient,
                    )
                },
            },
    {
        if self.emergency_paused {
            return Err(ContractError::ContractPaused);
        }
        let mut stream = match self.load_stream(stream_id) {
            Err(e) => {
                return Err(e);
            },
            Ok(stream) => stream,
        };
        if stream.kind != StreamKind::Linear {
            return Err(ContractError::UnsupportedStreamKind);
        }
        if !call.is_signed_by(recipient) || stream.recipient != recipient {
            return Err(ContractError::Unauthorized);
        }
        if share_bps == 0 || share_bps > 10_000 {
            return Err(ContractError::InvalidParams);
        }
        if recipient == new_recipient {
            return Err(ContractError::CyclicDelegation);
        }
        if !stream.is_running() {
            return Err(ContractError::StreamTerminalState);
        }
        let now: u64 = call.timestamp;
        if self.clock_regressed(now) {
            return Err(ContractError::ClockRegression);
        }
        if now >= stream.end_time {
            return Err(ContractError::InvalidState);
        }
        if stream.delegation_depth >= MAX_DELEGATION_DEPTH {
            return Err(ContractError::DelegationDepthExceeded);
        }
        proof {
            crate::registry::lemma_stored_stream(self@, stream_id);
        }
        if let Err(e) = self.check_lineage(&stream, new_recipient) {
            return Err(e);
        }
        let ghost parent = stream;
        let old_rate: i128 = stream.rate_per_second;
        proof {
            lemma_product(old_rate as int, share_bps as int);
        }
        let child_rate: i128 = match old_rate.checked_mul(share_bps as i128) {
            None => {
                return Err(ContractError::ArithmeticOverflow);
            },
            Some(product) => product / 10_000,
        };
        if child_rate <= 0 || child_rate >= old_rate {
            return Err(ContractError::InvalidParams);
        }
        let rate: i128 = old_rate - child_rate;
        let built_up: i128 = stream.built_up(now);
        let remaining: u64 = stream.end_time - now;
        proof {
            lemma_product(rate as int, remaining as int);
        }
        let future: i128 = match rate.checked_mul(remaining as i128) {
            None => {
                return Err(ContractError::ArithmeticOverflow);
            },
            Some(future) => future,
        };
        let deposit: i128 = match built_up.checked_add(future) {
            None => {
                return Err(ContractError::ArithmeticOverflow);
            },
            Some(deposit) => deposit,
        };
        let child_deposit: i128 = stream.deposit_amount - deposit;
        if child_deposit < 0 {
            return Err(ContractError::InvalidState);
        }
        self.last_accrual_timestamp = Some(now);
        stream.checkpointed_amount = built_up;
        stream.checkpointed_at = now;
        stream.rate_per_second = rate;
        stream.deposit_amount = deposit;
        self.update_stream(&stream);
        let child_id: u64 = self.next_stream_id_for(stream.sender);
        let cliff_time: u64 = if stream.cliff_time < now {
            now
        } else {
            stream.cliff_time
        };
        let child = Stream {
            stream_id: child_id,
            sender: stream.sender,
            recipient: new_recipient,
            claim_owner: None,
            deposit_amount: child_deposit,
            rate_per_second: child_rate,
            start_time: now,
            cliff_time,
            end_time: stream.end_time,
            withdrawn_amount: 0,
            status: StreamStatus::Active,
            cancelled_at: None,
            checkpointed_amount: 0,
            checkpointed_at: now,
            withdraw_dust_threshold: stream.withdraw_dust_threshold,
            last_pause_toggle_ledger: 0,
            last_withdraw_ledger: 0,
            last_rate_change_ledger: 0,
            is_pooled: None,
            metadata: share_option(&stream.metadata),
            memo: share_option(&stream.memo),
            kind: stream.kind,
            irrevocable: None,
            witness: None,
            delegation_depth: stream.delegation_depth + 1,
            parent_stream_id: Some(stream_id),
        };
        assert(child == parent.child(child_id, now, share_bps, new_recipient));
        proof {
            crate::registry::lemma_stored_stream(self@, stream_id);
            crate::registry::lemma_put_new(self@, child);
        }
        crate::ops::save_stream(self, &child);
        proof {
            crate::registry::lemma_stored_stream(self@, child_id);
            crate::registry::lemma_lists_ascend(self@, new_recipient);
            crate::registry::lemma_enlist_recipient(self@, new_recipient, child_id);
        }
        crate::ops::enlist(&mut self.recipient_streams, &self.host, new_recipient, child_id);
        self.emit(
            Event::ShareDelegated(
                RecipientShareDelegated {
                    parent_stream_id: stream_id,
                    child_stream_id: child_id,
                    delegator: recipient,
                    delegatee: new_recipient,
                    share_bps,
                    new_parent_rate: rate,
                    child_rate,
                },
            ),
        );
        Ok(child_id)
    }
}

} // verus!
