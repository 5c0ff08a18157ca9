//! Final withdrawals that anybody may trigger.

use crate::events::{
    AutoClaimRevoked, AutoClaimSet, AutoClaimTriggered, Event, StreamEvent, WithdrawalTo,
};
use crate::state::{Call, ContractState, FluxoraStream};
use crate::types::{
    Address, AutoClaimInvalidPayload, AutoClaimStatus, AutoClaimValidPayload, ContractError,
    Stream, StreamStatus,
};
use vstd::prelude::*;

verus! {

impl Stream {
    /// What an automatic claim at `now` could pay out.
    pub open spec fn spec_auto_claimable(self, lookback: Option<u32>, now: u64) -> int {
        self.spec_lookback_cap(
            lookback,
            now,
            self.spec_accrued_at(now as int),
            self.spec_outstanding(now),
        )
    }

    /// What an automatic claim at `now` could pay out.
    fn auto_claimable(&self, lookback: Option<u32>, now: u64) -> (r: i128)
        requires
            self.sound(),
        ensures
            r == self.spec_auto_claimable(lookback, now),
            r >= 0,
            r > 0 ==> self.withdrawn_amount + r <= self.deposit_amount,
    {
        let accrued: i128 = self.accrued_at(now);
        let due: i128 = if accrued < self.withdrawn_amount {
            0
        } else {
            accrued - self.withdrawn_amount
        };
        self.lookback_cap(lookback, now, accrued, due)
    }

    /// The stream after an automatic claim of `amount`.
    pub open spec fn auto_claimed(self, amount: int) -> Stream {
        let withdrawn = self.withdrawn_amount + amount;
        Stream {
            withdrawn_amount: withdrawn as i128,
            status: if withdrawn >= self.deposit_amount {
                StreamStatus::Completed
            } else {
                self.status
            },
            ..self
        }
    }
}

impl ContractState {
    /// Why the destination of automatic claims is not set.
    pub open spec fn set_auto_claim_error(self, call: Call, id: u64, destination: Address) -> Option<
        ContractError,
    > {
        if self.emergency_paused {
            Some(ContractError::ContractPaused)
        } else if !self.streams.dom().contains(id) {
            Some(ContractError::StreamNotFound)
        } else if !call.authorised(self.streams[id].recipient) {
            Some(ContractError::Unauthorized)
        } else if destination == call.contract {
            Some(ContractError::InvalidParams)
        } else {
            None
        }
    }

    /// The state with a destination of automatic claims.
    pub open spec fn set_auto_claim_step(self, id: u64, destination: Address) -> Self {
        (ContractState { auto_claim: self.auto_claim.insert(id, destination), ..self }).emit(
            Event::AutoClaimSet(AutoClaimSet { stream_id: id, destination }),
        )
    }

    /// Why automatic claims are not switched off.
    pub open spec fn revoke_auto_claim_error(self, call: Call, id: u64) -> Option<ContractError> {
        if self.emergency_paused {
            Some(ContractError::ContractPaused)
        } else if !self.streams.dom().contains(id) {
            Some(ContractError::StreamNotFound)
        } else if !call.authorised(self.streams[id].recipient) {
            Some(ContractError::Unauthorized)
        } else {
            None
        }
    }

    /// The state with automatic claims switched off.
    pub open spec fn revoke_auto_claim_step(self, id: u64) -> Self {
        (ContractState { auto_claim: self.auto_claim.remove(id), ..self }).emit(
            Event::AutoClaimRevoked(AutoClaimRevoked { stream_id: id }),
        )
    }

    /// What an automatic claim on a stream pays out.
    pub open spec fn auto_claim_amount(self, call: Call, id: u64) -> int {
        self.streams[id].spec_auto_claimable(self.lookback_of(id), call.timestamp)
    }

    /// Why an automatic claim is refused.
    pub open spec fn trigger_auto_claim_error(self, call: Call, id: u64) -> Option<ContractError> {
        let stream = self.streams[id];
        if self.emergency_paused {
            Some(ContractError::ContractPaused)
        } else if !self.streams.dom().contains(id) {
            Some(ContractError::StreamNotFound)
        } else if !stream.spec_running() {
            Some(ContractError::InvalidState)
        } else if !self.clock_ok(call.timestamp) {
            Some(ContractError::ClockRegression)
        } else if call.timestamp < stream.end_time {
            Some(ContractError::InvalidState)
        } else if !self.auto_claim.dom().contains(id) || self.auto_claim[id] == call.contract {
            Some(ContractError::InvalidParams)
        } else if self.auto_claim_amount(call, id) != 0 && self.locked {
            Some(ContractError::InvalidState)
        } else {
            None
        }
    }

    /// The state after an automatic claim.
    pub open spec fn trigger_auto_claim_step(self, call: Call, id: u64) -> Self {
        let stream = self.streams[id];
        let destination = self.auto_claim[id];
        let amount = self.auto_claim_amount(call, id) as i128;
        let s = self.observe(call.timestamp);
        if amount == 0 {
            s
        } else {
            let after = stream.auto_claimed(amount as int);
            let announced = s.put(after).recount(stream.status, after.status).settle(amount).emit(
                Event::AutoClaimed(AutoClaimTriggered { stream_id: id, destination, amount }),
            ).emit(
                Event::AutoClaimWithdrew(
                    WithdrawalTo {
                        stream_id: id,
                        recipient: stream.recipient,
                        destination,
                        amount,
                    },
                ),
            );
            let completed = if after.status == StreamStatus::Completed {
                announced.emit(Event::Status(StreamEvent::StreamCompleted(id)))
            } else {
                announced
            };
            completed.push(destination, amount)
        }
    }

    /// Why the state of automatic claims cannot be told.
    pub open spec fn auto_claim_status_error(self, call: Call, id: u64) -> Option<ContractError> {
        if !self.streams.dom().contains(id) {
            Some(ContractError::StreamNotFound)
        } else if self.auto_claim.dom().contains(id) && self.auto_claim[id] != call.contract
            && !self.clock_ok(call.timestamp) {
            Some(ContractError::ClockRegression)
        } else {
            None
        }
    }

    /// The state of automatic claims of a stream.
    pub open spec fn auto_claim_status(self, call: Call, id: u64) -> AutoClaimStatus {
        if !self.auto_claim.dom().contains(id) {
            AutoClaimStatus::NotSet
        } else if self.auto_claim[id] == call.contract {
            AutoClaimStatus::InvalidDestination(
                AutoClaimInvalidPayload { destination: self.auto_claim[id] },
            )
        } else {
            AutoClaimStatus::ValidDestination(
                AutoClaimValidPayload {
                    destination: self.auto_claim[id],
                    claimable: self.auto_claim_amount(call, id) as i128,
                },
            )
        }
    }

    /// The state after the state of automatic claims was told.
    pub open spec fn auto_claim_status_step(self, call: Call, id: u64) -> Self {
        if self.auto_claim.dom().contains(id) && self.auto_claim[id] != call.contract {
            self.observe(call.timestamp)
        } else {
            self
        }
    }
}

impl FluxoraStream {
    /// Sets where automatic claims of a stream go, at the wish of its
    /// recipient.
    pub fn set_auto_claim(&mut self, call: &Call, stream_id: u64, destination: Address) -> (r:
        Result<(), ContractError>)
        requires
            old(self)@.wf(),
        ensures
            final(self)@.wf(),
            match old(self)@.set_auto_claim_error(*call, stream_id, destination) {
                Some(e) => r == Err::<(), ContractError>(e) && final(self)@ == old(self)@,
                None => {
                    &&& r == Ok::<(), ContractError>(())
                    &&& final(self)@ == old(self)@.set_auto_claim_step(stream_id, destination)
                },
            },
    {
        if self.emergency_paused {
            return Err(ContractError::ContractPaused);
        }
        let stream = match self.load_stream(stream_id) {
            Err(e) => {
                return Err(e);
            },
            Ok(stream) => stream,
        };
        if !call.is_signed_by(stream.recipient) {
            return Err(ContractError::Unauthorized);
        }
        if destination == call.contract {
            return Err(ContractError::InvalidParams);
        }
        self.auto_claim.insert(stream_id, destination);
        self.emit(Event::AutoClaimSet(AutoClaimSet { stream_id, destination }));
        Ok(())
    }

    /// Switches automatic claims of a stream off, at the wish of its
    /// recipient.
    pub fn revoke_auto_claim(&mut self, call: &Call, stream_id: u64) -> (r: Result<
        (),
        ContractError,
    >)
        requires
            old(self)@.wf(),
        ensures
            final(self)@.wf(),
            match old(self)@.revoke_auto_claim_error(*call, stream_id) {
                Some(e) => r == Err::<(), ContractError>(e) && final(self)@ == old(self)@,
                None => {
                    &&& r == Ok::<(), ContractError>(())
                    &&& final(self)@ == old(self)@.revoke_auto_claim_step(stream_id)
                },
            },
    {
        if self.emergency_paused {
            return Err(ContractError::ContractPaused);
        }
        let stream = match self.load_stream(stream_id) {
            Err(e) => {
                return Err(e);
            },
            Ok(stream) => stream,
        };
        if !call.is_signed_by(stream.recipient) {
            return Err(ContractError::Unauthorized);
        }
        self.auto_claim.remove(stream_id);
        self.emit(Event::AutoClaimRevoked(AutoClaimRevoked { stream_id }));
        Ok(())
    }

    /// Pays what is left of a stream that has ended to the destination that
    /// its recipient chose. Anybody may do this.
    pub fn trigger_auto_claim(&mut self, call: &Call, stream_id: u64) -> (r: Result<
        i128,
        ContractError,
    >)
        requires
            old(self)@.wf(),
        ensures
            final(self)@.wf(),
            match old(self)@.trigger_auto_claim_error(*call, stream_id) {
                Some(e) => r == Err::<i128, ContractError>(e) && final(self)@ == old(self)@,
                None => {
                    &&& r == Ok::<i128, ContractError>(
                        old(self)@.auto_claim_amount(*call, stream_id) as i128,
                    )
                    &&& 0 <= old(self)@.auto_claim_amount(*call, stream_id) <= i128::MAX
                    &&& final(self)@ == old(self)@.trigger_auto_claim_step(*call, stream_id)
                },
            },
    {
        if self.emergency_paused {
            return Err(ContractError::ContractPaused);
        }
        let mut stream = match self.load_stream(stream_id) {
            Err(e) => {
                return Err(e);
            },
            Ok(stream) => stream,
        };
        if !stream.is_running() {
            return Err(ContractError::InvalidState);
        }
        let now: u64 = call.timestamp;
        if self.clock_regressed(now) {
            return Err(ContractError::ClockRegression);
        }
        if now < stream.end_time {
            return Err(ContractError::InvalidState);
        }
        let destination: Address = match self.auto_claim.get(stream_id) {
            Some(destination) => *destination,
            None => {
                return Err(ContractError::InvalidParams);
            },
        };
        if destination == call.contract {
            return Err(ContractError::InvalidParams);
        }
        let amount: i128 = stream.auto_claimable(self.max_lookback_ledgers(stream_id), now);
        if amount == 0 {
            self.last_accrual_timestamp = Some(now);
            return Ok(0);
        }
        if self.locked {
            return Err(ContractError::InvalidState);
        }
        self.last_accrual_timestamp = Some(now);
        let previous = stream.status;
        stream.withdrawn_amount = stream.withdrawn_amount + amount;
        if stream.withdrawn_amount >= stream.deposit_amount {
            stream.status = StreamStatus::Completed;
        }
        self.update_stream(&stream);
        self.reconcile_paused_stream_count(previous, stream.status);
        self.settle(amount);
        self.emit(
            Event::AutoClaimed(AutoClaimTriggered { stream_id, destination, amount }),
        );
        self.emit(
            Event::AutoClaimWithdrew(
                WithdrawalTo { stream_id, recipient: stream.recipient, destination, amount },
            ),
        );
        if stream.status == StreamStatus::Completed {
            self.emit(Event::Status(StreamEvent::StreamCompleted(stream_id)));
        }
        self.push_token(destination, amount);
        Ok(amount)
    }

    /// Whether an automatic claim of a stream can be paid, and how much it
    /// would pay now.
    pub fn get_auto_claim_status(&mut self, call: &Call, stream_id: u64) -> (r: Result<
        AutoClaimStatus,
        ContractError,
    >)
        requires
            old(self)@.wf(),
        ensures
            final(self)@.wf(),
            match old(self)@.auto_claim_status_error(*call, stream_id) {
                Some(e) => {
                    &&& r == Err::<AutoClaimStatus, ContractError>(e)
                    &&& final(self)@ == old(self)@
                },
                None => {
                    &&& r == Ok::<AutoClaimStatus, ContractError>(
                        old(self)@.auto_claim_status(*call, stream_id),
                    )
                    &&& 0 <= old(self)@.auto_claim_amount(*call, stream_id) <= i128::MAX
                    &&& final(self)@ == old(self)@.auto_claim_status_step(*call, stream_id)
                },
            },
    {
        let stream = match self.load_stream(stream_id) {
            Err(e) => {
                return Err(e);
            },
            Ok(stream) => stream,
        };
        let claimable: i128 = stream.auto_claimable(
            self.max_lookback_ledgers(stream_id),
            call.timestamp,
        );
        let destination: Address = match self.auto_claim.get(stream_id) {
            Some(destination) => *destination,
            None => {
                return Ok(AutoClaimStatus::NotSet);
            },
        };
        if destination == call.contract {
            return Ok(
                AutoClaimStatus::InvalidDestination(AutoClaimInvalidPayload { destination }),
            );
        }
        if self.clock_regressed(call.timestamp) {
            return Err(ContractError::ClockRegression);
        }
        self.last_accrual_timestamp = Some(call.timestamp);
        Ok(
            AutoClaimStatus::ValidDestination(AutoClaimValidPayload { destination, claimable }),
        )
    }

    /// Where automatic claims of a stream go.
    pub fn get_auto_claim_destination(&self, stream_id: u64) -> (r: Result<
        Option<Address>,
        ContractError,
    >)
        requires
            self@.wf(),
        ensures
            r == if !self@.streams.dom().contains(stream_id) {
                Err::<Option<Address>, ContractError>(ContractError::StreamNotFound)
            } else if self@.auto_claim.dom().contains(stream_id) {
                Ok(Some(self@.auto_claim[stream_id]))
            } else {
                Ok(None)
            },
    {
        if let Err(e) = self.load_stream(stream_id) {
            return Err(e);
        }
        match self.auto_claim.get(stream_id) {
            Some(destination) => Ok(Some(*destination)),
            None => Ok(None),
        }
    }
}

} // verus!
