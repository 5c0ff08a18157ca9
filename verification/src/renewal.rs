//! Renewing streams, removing them and limiting claims on them.

use crate::creation::validate_payload;
use crate::events::{Event, StreamEvent, StreamRenewed};
use crate::state::{Call, ContractState, FluxoraStream};
use crate::types::{
    share_option, Address, ContractError, CreateStreamParams, Stream, StreamStatus,
};
use vstd::prelude::*;

verus! {

impl Stream {
    /// The parameters of the stream that follows this one from `now` on.
    pub open spec fn renewal(self, now: u64) -> CreateStreamParams {
        CreateStreamParams {
            recipient: self.recipient,
            deposit_amount: self.deposit_amount,
            rate_per_second: self.rate_per_second,
            start_time: now,
            cliff_time: (now + (self.cliff_time - self.start_time)) as u64,
            end_time: (now + (self.end_time - self.start_time)) as u64,
            withdraw_dust_threshold: Some(self.withdraw_dust_threshold),
            memo: self.memo,
            metadata: self.metadata,
            kind: self.kind,
            irrevocable: None,
            witness: None,
        }
    }

    /// Whether something is left to withdraw from a stream that is over.
    pub open spec fn spec_unsettled(self) -> bool {
        self.status == StreamStatus::Cancelled && self.spec_accrued_at(
            self.cancelled_at->0 as int,
        ) > self.withdrawn_amount
    }

    /// Whether something is left to withdraw from a stream that is over.
    fn unsettled(&self) -> (r: bool)
        requires
            self.sound(),
        ensures
            r == self.spec_unsettled(),
    {
        match (self.status, self.cancelled_at) {
            (StreamStatus::Cancelled, Some(at)) => self.accrued_at(at) > self.withdrawn_amount,
            _ => false,
        }
    }
}

impl ContractState {
    /// Whether a stream may be renewed.
    pub open spec fn renews(self, id: u64) -> bool {
        self.auto_renew.dom().contains(id) && self.auto_renew[id]
    }

    /// The state with renewal allowed or not.
    pub open spec fn with_renewal(self, id: u64, enabled: bool) -> Self {
        ContractState { auto_renew: self.auto_renew.insert(id, enabled), ..self }
    }

    /// Why renewal cannot be allowed or forbidden.
    pub open spec fn set_auto_renew_error(self, call: Call, id: u64, sender: Address) -> Option<
        ContractError,
    > {
        if self.emergency_paused {
            Some(ContractError::ContractPaused)
        } else if !self.streams.dom().contains(id) {
            Some(ContractError::StreamNotFound)
        } else if !call.authorised(sender) {
            Some(ContractError::Unauthorized)
        } else if self.streams[id].status == StreamStatus::Cancelled {
            Some(ContractError::InvalidState)
        } else if sender != self.streams[id].sender {
            Some(ContractError::Unauthorized)
        } else {
            None
        }
    }

    /// Why a stream is not renewed.
    pub open spec fn renew_error(self, call: Call, id: u64, balance: i128, allowance: i128) -> Option<
        ContractError,
    > {
        let stream = self.streams[id];
        let now = call.timestamp;
        let params = stream.renewal(now);
        if self.emergency_paused {
            Some(ContractError::ContractPaused)
        } else if !self.streams.dom().contains(id) {
            Some(ContractError::StreamNotFound)
        } else if stream.status != StreamStatus::Completed || !self.renews(id) {
            Some(ContractError::InvalidState)
        } else if !self.clock_ok(now) {
            Some(ContractError::ClockRegression)
        } else if now + (stream.end_time - stream.start_time) > u64::MAX {
            Some(ContractError::ArithmeticOverflow)
        } else {
            match crate::creation::schedule_error(
                self.max_rate_per_second,
                stream.sender,
                stream.recipient,
                stream.deposit_amount,
                stream.rate_per_second,
                now,
                now,
                params.cliff_time,
                params.end_time,
                stream.kind,
            ) {
                Some(e) => Some(e),
                None => if self.config is None {
                    Some(ContractError::InvalidState)
                } else if balance < stream.deposit_amount || allowance < stream.deposit_amount {
                    Some(ContractError::AutoRenewFundingUnavailable)
                } else {
                    params.payload_error()
                },
            }
        }
    }

    /// The state after a stream was renewed: the permission moves to the new
    /// stream.
    pub open spec fn renew_step(self, call: Call, id: u64) -> Self {
        let stream = self.streams[id];
        let new_id = self.fresh_id(stream.sender);
        self.observe(call.timestamp).with_renewal(id, false).create_step(
            stream.sender,
            stream.renewal(call.timestamp),
        ).with_renewal(new_id, true).emit(
            Event::Renewed(StreamRenewed { old_stream_id: id, new_stream_id: new_id }),
        )
    }

    /// The state with a stream removed.
    pub open spec fn close(self, id: u64) -> Self {
        let stream = self.streams[id];
        let s = self.emit(Event::Status(StreamEvent::StreamClosed(id)));
        ContractState {
            recipient_streams: crate::state::delist(s.recipient_streams, stream.recipient, id),
            sender_streams: crate::state::delist(s.sender_streams, stream.sender, id),
            auto_renew: s.auto_renew.remove(id),
            lookback: s.lookback.remove(id),
            streams: s.streams.remove(id),
            ..s
        }
    }

    /// Why a stream is not removed: it is still running, or something is left
    /// to withdraw.
    pub open spec fn close_completed_error(self, id: u64) -> Option<ContractError> {
        if !self.streams.dom().contains(id) {
            Some(ContractError::StreamNotFound)
        } else if self.streams[id].spec_running() || self.streams[id].spec_unsettled() {
            Some(ContractError::InvalidState)
        } else {
            None
        }
    }

    /// Why a cancelled stream is not removed.
    pub open spec fn close_cancelled_error(self, id: u64) -> Option<ContractError> {
        if !self.streams.dom().contains(id) {
            Some(ContractError::StreamNotFound)
        } else if self.streams[id].status != StreamStatus::Cancelled
            || self.streams[id].spec_unsettled() {
            Some(ContractError::InvalidState)
        } else {
            None
        }
    }

    /// Why the lookback window of a stream is not changed.
    pub open spec fn set_lookback_error(
        self,
        call: Call,
        id: u64,
        sender: Address,
        ledgers: Option<u32>,
    ) -> Option<ContractError> {
        if self.emergency_paused {
            Some(ContractError::ContractPaused)
        } else if !self.streams.dom().contains(id) {
            Some(ContractError::StreamNotFound)
        } else if !call.authorised(sender) || sender != self.streams[id].sender {
            Some(ContractError::Unauthorized)
        } else if self.streams[id].status == StreamStatus::Cancelled {
            Some(ContractError::InvalidState)
        } else if ledgers == Some(0u32) {
            Some(ContractError::InvalidParams)
        } else {
            None
        }
    }

    /// The state with another lookback window for a stream.
    pub open spec fn with_lookback(self, id: u64, ledgers: Option<u32>) -> Self {
        ContractState {
            lookback: match ledgers {
                Some(n) => self.lookback.insert(id, n),
                None => self.lookback.remove(id),
            },
            ..self
        }
    }
}

impl FluxoraStream {
    /// Whether a stream may be renewed.
    fn auto_renew_enabled(&self, stream_id: u64) -> (r: bool)
        ensures
            r == self@.renews(stream_id),
    {
        match self.auto_renew.get(stream_id) {
            Some(enabled) => *enabled,
            None => false,
        }
    }

    /// Allows or forbids that anybody renews a stream, at the wish of its
    /// sender.
    pub fn set_auto_renew(
        &mut self,
        call: &Call,
        stream_id: u64,
        sender: Address,
        enabled: bool,
    ) -> (r: Result<(), ContractError>)
        requires
            old(self)@.wf(),
        ensures
            final(self)@.wf(),
            match old(self)@.set_auto_renew_error(*call, stream_id, sender) {
                Some(e) => r == Err::<(), ContractError>(e) && final(self)@ == old(self)@,
                None => {
                    &&& r == Ok::<(), ContractError>(())
                    &&& final(self)@ == old(self)@.with_renewal(stream_id, enabled)
                },
            },
    {
        if self.emergency_paused {
            return Err(ContractError::ContractPaused);
        }
        let stream = match self.load_stream(stream_id) {
            Err(e) => {
                return Err(e);
            },
            Ok(stream) => stream,
        };
        if !call.is_signed_by(sender) {
            return Err(ContractError::Unauthorized);
        }
        if stream.status == StreamStatus::Cancelled {
            return Err(ContractError::InvalidState);
        }
        if sender != stream.sender {
            return Err(ContractError::Unauthorized);
        }
        self.auto_renew.insert(stream_id, enabled);
        Ok(())
    }

    /// Whether anybody may renew a stream.
    pub fn get_auto_renew(&self, stream_id: u64) -> (r: Result<bool, ContractError>)
        requires
            self@.wf(),
        ensures
            r == if self@.streams.dom().contains(stream_id) {
                Ok::<bool, ContractError>(self@.renews(stream_id))
            } else {
                Err(ContractError::StreamNotFound)
            },
    {
        if let Err(e) = self.load_stream(stream_id) {
            return Err(e);
        }
        Ok(self.auto_renew_enabled(stream_id))
    }

    /// Follows a completed stream up with a new one from the same sender to
    /// the same recipient, on the same terms. Anybody may do this if the
    /// sender allowed it. `sender_balance` and `sender_allowance` tell what
    /// the sender holds and lets the contract take.
    pub fn renew_stream(
        &mut self,
        call: &Call,
        stream_id: u64,
        sender_balance: i128,
        sender_allowance: i128,
    ) -> (r: Result<u64, ContractError>)
        requires
            old(self)@.wf(),
            old(self)@.streams.dom().contains(stream_id) ==> old(self)@.room_for(
                old(self)@.streams[stream_id].sender,
                old(self)@.streams[stream_id].recipient,
                1,
            ),
        ensures
            final(self)@.wf(),
            match old(self)@.renew_error(*call, stream_id, sender_balance, sender_allowance) {
                Some(e) => r == Err::<u64, ContractError>(e) && final(self)@ == old(self)@,
                None => {
                    &&& r == Ok::<u64, ContractError>(
                        old(self)@.fresh_id(old(self)@.streams[stream_id].sender),
                    )
                    &&& final(self)@ == old(self)@.renew_step(*call, stream_id)
                },
            },
    {
        if self.emergency_paused {
            return Err(ContractError::ContractPaused);
        }
        let stream = match self.load_stream(stream_id) {
            Err(e) => {
                return Err(e);
            },
            Ok(stream) => stream,
        };
        if stream.status != StreamStatus::Completed || !self.auto_renew_enabled(stream_id) {
            return Err(ContractError::InvalidState);
        }
        let now: u64 = call.timestamp;
        if self.clock_regressed(now) {
            return Err(ContractError::ClockRegression);
        }
        let end_time: u64 = match now.checked_add(stream.end_time - stream.start_time) {
            None => {
                return Err(ContractError::ArithmeticOverflow);
            },
            Some(end_time) => end_time,
        };
        let cliff_time: u64 = now + (stream.cliff_time - stream.start_time);
        if let Err(e) = self.validate_stream_params(
            stream.sender,
            stream.recipient,
            stream.deposit_amount,
            stream.rate_per_second,
            now,
            now,
            cliff_time,
            end_time,
            stream.kind,
        ) {
            return Err(e);
        }
        if self.config.is_none() {
            return Err(ContractError::InvalidState);
        }
        if sender_balance < stream.deposit_amount || sender_allowance < stream.deposit_amount {
            return Err(ContractError::AutoRenewFundingUnavailable);
        }
        if let Err(e) = validate_payload(&stream.memo, &stream.metadata) {
            return Err(e);
        }
        let params = CreateStreamParams {
            recipient: stream.recipient,
            deposit_amount: stream.deposit_amount,
            rate_per_second: stream.rate_per_second,
            start_time: now,
            cliff_time,
            end_time,
            withdraw_dust_threshold: Some(stream.withdraw_dust_threshold),
            memo: share_option(&stream.memo),
            metadata: share_option(&stream.metadata),
            kind: stream.kind,
            irrevocable: None,
            witness: None,
        };
        assert(params == stream.renewal(now));
        self.last_accrual_timestamp = Some(now);
        self.auto_renew.insert(stream_id, false);
        self.pull_token(stream.sender, stream.deposit_amount);
        let new_stream_id: u64 = self.persist_new_stream(stream.sender, &params);
        self.auto_renew.insert(new_stream_id, true);
        self.emit(
            Event::Renewed(StreamRenewed { old_stream_id: stream_id, new_stream_id }),
        );
        Ok(new_stream_id)
    }

    /// Removes a stream that is settled.
    fn close(&mut self, stream: &Stream)
        requires
            old(self)@.wf(),
            old(self)@.streams.dom().contains(stream.stream_id),
            *stream == old(self)@.streams[stream.stream_id],
        ensures
            final(self)@ == old(self)@.close(stream.stream_id),
            final(self)@.wf(),
    {
        let id: u64 = stream.stream_id;
        self.emit(Event::Status(StreamEvent::StreamClosed(id)));
        proof {
            crate::registry::lemma_lists_ascend(self@, stream.recipient);
            crate::registry::lemma_delist_recipient(self@, stream.recipient, id);
        }
        crate::ops::delist(&mut self.recipient_streams, stream.recipient, id);
        self.auto_renew.remove(id);
        self.lookback.remove(id);
        proof {
            crate::registry::lemma_lists_ascend(self@, stream.sender);
            crate::registry::lemma_delist_sender(self@, stream.sender, id);
        }
        crate::ops::delist(&mut self.sender_streams, stream.sender, id);
        proof {
            crate::registry::lemma_remove_stream(self@, id);
        }
        self.streams.remove(id);
    }

    /// Removes a stream that is completed, or cancelled with nothing left to
    /// withdraw. Anybody may do this.
    pub fn close_completed_stream(&mut self, stream_id: u64) -> (r: Result<(), ContractError>)
        requires
            old(self)@.wf(),
        ensures
            final(self)@.wf(),
            match old(self)@.close_completed_error(stream_id) {
                Some(e) => r == Err::<(), ContractError>(e) && final(self)@ == old(self)@,
                None => {
                    &&& r == Ok::<(), ContractError>(())
                    &&& final(self)@ == old(self)@.close(stream_id)
                },
            },
    {
        let stream = match self.load_stream(stream_id) {
            Err(e) => {
                return Err(e);
            },
            Ok(stream) => stream,
        };
        if stream.is_running() || stream.unsettled() {
            return Err(ContractError::InvalidState);
        }
        self.close(&stream);
        Ok(())
    }

    /// Removes a cancelled stream with nothing left to withdraw. Anybody may
    /// do this.
    pub fn close_cancelled_stream(&mut self, stream_id: u64) -> (r: Result<(), ContractError>)
        requires
            old(self)@.wf(),
        ensures
            final(self)@.wf(),
            match old(self)@.close_cancelled_error(stream_id) {
                Some(e) => r == Err::<(), ContractError>(e) && final(self)@ == old(self)@,
                None => {
                    &&& r == Ok::<(), ContractError>(())
                    &&& final(self)@ == old(self)@.close(stream_id)
                },
            },
    {
        let stream = match self.load_stream(stream_id) {
            Err(e) => {
                return Err(e);
            },
            Ok(stream) => stream,
        };
        if stream.status != StreamStatus::Cancelled || stream.unsettled() {
            return Err(ContractError::InvalidState);
        }
        self.close(&stream);
        Ok(())
    }

    /// Limits how far back a single claim on a stream may reach, or lifts the
    /// limit, at the wish of its sender.
    pub fn set_lookback_window(
        &mut self,
        call: &Call,
        stream_id: u64,
        sender: Address,
        max_lookback_ledgers: Option<u32>,
    ) -> (r: Result<(), ContractError>)
        requires
            old(self)@.wf(),
        ensures
            final(self)@.wf(),
            match old(self)@.set_lookback_error(*call, stream_id, sender, max_lookback_ledgers) {
                Some(e) => r == Err::<(), ContractError>(e) && final(self)@ == old(self)@,
                None => {
                    &&& r == Ok::<(), ContractError>(())
                    &&& final(self)@ == old(self)@.with_lookback(stream_id, max_lookback_ledgers)
                },
            },
    {
        if self.emergency_paused {
            return Err(ContractError::ContractPaused);
        }
        let stream = match self.load_stream(stream_id) {
            Err(e) => {
                return Err(e);
            },
            Ok(stream) => stream,
        };
        if !call.is_signed_by(sender) || sender != stream.sender {
            return Err(ContractError::Unauthorized);
        }
        if stream.status == StreamStatus::Cancelled {
            return Err(ContractError::InvalidState);
        }
        match max_lookback_ledgers {
            Some(ledgers) => {
                if ledgers == 0 {
                    return Err(ContractError::InvalidParams);
                }
                self.lookback.insert(stream_id, ledgers);
            },
            None => {
                self.lookback.remove(stream_id);
            },
        }
        Ok(())
    }

    /// How many ledgers back a single claim on a stream may reach.
    pub fn get_lookback_window(&self, stream_id: u64) -> (r: Result<Option<u32>, ContractError>)
        requires
            self@.wf(),
        ensures
            r == if self@.streams.dom().contains(stream_id) {
                Ok::<Option<u32>, ContractError>(self@.lookback_of(stream_id))
            } else {
                Err(ContractError::StreamNotFound)
            },
    {
        if let Err(e) = self.load_stream(stream_id) {
            return Err(e);
        }
        Ok(self.max_lookback_ledgers(stream_id))
    }
}

} // verus!
