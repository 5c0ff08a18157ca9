//! Stream identifiers set aside in advance, and streams made after the model
//! of another.

use crate::creation::validate_payload;
use crate::events::{Event, ReservationReleased, StreamCloned};
use crate::state::{Call, ContractState, FluxoraStream};
use crate::types::{
    share_option, Address, ContractError, CreateStreamParams, IdReservation, Stream, StreamStatus,
};
use vstd::prelude::*;

verus! {

/// The most identifiers that can be set aside at once.
pub const MAX_ID_RESERVATION: u32 = 100;

impl Stream {
    /// The parameters of a stream on the same terms for somebody else and
    /// another time.
    pub open spec fn clone_params(
        self,
        new_recipient: Address,
        start_time: u64,
        end_time: u64,
        deposit: i128,
    ) -> CreateStreamParams {
        CreateStreamParams {
            recipient: new_recipient,
            deposit_amount: deposit,
            rate_per_second: self.rate_per_second,
            start_time,
            cliff_time: (start_time + (self.cliff_time - self.start_time)) as u64,
            end_time,
            withdraw_dust_threshold: Some(self.withdraw_dust_threshold),
            memo: self.memo,
            metadata: self.metadata,
            kind: self.kind,
            irrevocable: None,
            witness: None,
        }
    }
}

impl ContractState {
    /// Why identifiers are not set aside.
    pub open spec fn reserve_error(self, call: Call, caller: Address, count: u32) -> Option<
        ContractError,
    > {
        if self.emergency_paused {
            Some(ContractError::ContractPaused)
        } else if !call.authorised(caller) {
            Some(ContractError::Unauthorized)
        } else if count == 0 {
            Some(ContractError::ReservationCountZero)
        } else if count > MAX_ID_RESERVATION {
            Some(ContractError::ReservationLimitExceeded)
        } else if self.reservations.dom().contains(caller) {
            Some(ContractError::ReservationAlreadyActive)
        } else {
            None
        }
    }

    /// The state with identifiers set aside.
    pub open spec fn reserve_step(self, caller: Address, count: u32, expiry: Option<u64>) -> Self {
        ContractState {
            reservations: self.reservations.insert(
                caller,
                IdReservation { start_id: self.next_stream_id, count, consumed: 0, expiry },
            ),
            next_stream_id: (self.next_stream_id + count) as u64,
            ..self
        }
    }

    /// The identifiers that are set aside.
    pub open spec fn reserved_ids(self, count: u32) -> Seq<u64> {
        Seq::new(count as nat, |i: int| (self.next_stream_id + i) as u64)
    }

    /// The state with a reservation given up. What is left of it can be handed
    /// out again if nothing was handed out after it.
    pub open spec fn release(self, holder: Address) -> Self {
        let res = self.reservations[holder];
        let at_end = res.start_id + res.count == self.next_stream_id;
        (ContractState {
            reservations: self.reservations.remove(holder),
            next_stream_id: if at_end {
                (res.start_id + res.consumed) as u64
            } else {
                self.next_stream_id
            },
            ..self
        }).emit(
            Event::ReservationReleased(
                ReservationReleased {
                    holder,
                    start_id: res.start_id,
                    count: res.count,
                    consumed: res.consumed,
                    reclaimed: if at_end {
                        (res.count - res.consumed) as u32
                    } else {
                        0
                    },
                },
            ),
        )
    }

    /// Why a reservation is not given up.
    pub open spec fn release_error(self, call: Call, caller: Address) -> Option<ContractError> {
        if self.emergency_paused {
            Some(ContractError::ContractPaused)
        } else if !call.authorised(caller) {
            Some(ContractError::Unauthorized)
        } else if !self.reservations.dom().contains(caller) {
            Some(ContractError::ReservationNotFound)
        } else {
            None
        }
    }

    /// Why a reservation is not reclaimed.
    pub open spec fn reclaim_error(self, call: Call, holder: Address) -> Option<ContractError> {
        let res = self.reservations[holder];
        if self.emergency_paused {
            Some(ContractError::ContractPaused)
        } else if !self.reservations.dom().contains(holder) {
            Some(ContractError::ReservationNotFound)
        } else if res.expiry is None {
            Some(ContractError::ReservationNotExpirable)
        } else if call.timestamp < res.expiry->0 {
            Some(ContractError::ReservationStillActive)
        } else {
            None
        }
    }

    /// Why a stream is not made after the model of another.
    pub open spec fn clone_error(
        self,
        call: Call,
        id: u64,
        new_recipient: Address,
        start_time: u64,
        end_time: u64,
        deposit: i128,
        force: bool,
    ) -> Option<ContractError> {
        let source = self.streams[id];
        let params = source.clone_params(new_recipient, start_time, end_time, deposit);
        if self.creation_blocked() {
            Some(ContractError::ContractPaused)
        } else if !self.streams.dom().contains(id) {
            Some(ContractError::StreamNotFound)
        } else if !source.spec_running() {
            Some(ContractError::StreamTerminalState)
        } else if !call.authorised(source.sender) {
            Some(ContractError::Unauthorized)
        } else if source.withdraw_dust_threshold == i128::MAX && !force {
            Some(ContractError::InvalidParams)
        } else if start_time + (source.cliff_time - source.start_time) > u64::MAX {
            Some(ContractError::ArithmeticOverflow)
        } else {
            match crate::creation::schedule_error(
                self.max_rate_per_second,
                source.sender,
                new_recipient,
                deposit,
                source.rate_per_second,
                call.timestamp,
                start_time,
                params.cliff_time,
                end_time,
                source.kind,
            ) {
                Some(e) => Some(e),
                None => params.payload_error(),
            }
        }
    }

    /// The state with a stream made after the model of another.
    pub open spec fn clone_step(
        self,
        id: u64,
        new_recipient: Address,
        start_time: u64,
        end_time: u64,
        deposit: i128,
    ) -> Self {
        let source = self.streams[id];
        let params = source.clone_params(new_recipient, start_time, end_time, deposit);
        self.create_step(source.sender, params).emit(
            Event::Cloned(
                StreamCloned {
                    new_stream_id: self.fresh_id(source.sender),
                    source_stream_id: id,
                    sender: source.sender,
                    recipient: new_recipient,
                    deposit_amount: deposit,
                    rate_per_second: source.rate_per_second,
                    start_time,
                    cliff_time: params.cliff_time,
                    end_time,
                },
            ),
        )
    }
}

impl FluxoraStream {
    /// Sets consecutive stream identifiers aside for `caller`.
    pub fn reserve_stream_ids(
        &mut self,
        call: &Call,
        caller: Address,
        count: u32,
        expiry: Option<u64>,
    ) -> (r: Result<Vec<u64>, ContractError>)
        requires
            old(self)@.wf(),
            old(self)@.next_stream_id + count <= u64::MAX,
        ensures
            final(self)@.wf(),
            match old(self)@.reserve_error(*call, caller, count) {
                Some(e) => r == Err::<Vec<u64>, ContractError>(e) && final(self)@ == old(self)@,
                None => {
                    &&& r is Ok
                    &&& r->Ok_0@ == old(self)@.reserved_ids(count)
                    &&& final(self)@ == old(self)@.reserve_step(caller, count, expiry)
                },
            },
    {
        if self.emergency_paused {
            return Err(ContractError::ContractPaused);
        }
        if !call.is_signed_by(caller) {
            return Err(ContractError::Unauthorized);
        }
        if count == 0 {
            return Err(ContractError::ReservationCountZero);
        }
        if count > MAX_ID_RESERVATION {
            return Err(ContractError::ReservationLimitExceeded);
        }
        if self.reservations.contains(caller) {
            return Err(ContractError::ReservationAlreadyActive);
        }
        let start_id: u64 = self.next_stream_id;
        let res = IdReservation { start_id, count, consumed: 0, expiry };
        proof {
            crate::registry::lemma_reserve(self@, caller, res);
        }
        let ghost before = self@;
        self.next_stream_id = start_id + count as u64;
        self.reservations.insert(caller, res);
        let mut ids: Vec<u64> = Vec::new();
        let mut i: u32 = 0;
        while i < count
            invariant
                i <= count,
                start_id == before.next_stream_id,
                start_id + count <= u64::MAX,
                ids@.len() == i,
                forall|j: int| 0 <= j < i ==> #[trigger] ids@[j] == start_id + j,
            decreases count - i,
        {
            ids.push(start_id + i as u64);
            i += 1;
        }
        assert(ids@ =~= before.reserved_ids(count));
        Ok(ids)
    }

    /// Gives a reservation up.
    fn release_reservation(&mut self, holder: Address, res: IdReservation)
        requires
            old(self)@.wf(),
            old(self)@.reservations.dom().contains(holder),
            res == old(self)@.reservations[holder],
        ensures
            final(self)@ == old(self)@.release(holder),
            final(self)@.wf(),
    {
        proof {
            crate::registry::lemma_stored_reservation(self@, holder);
            crate::registry::lemma_release(self@, holder);
        }
        let unconsumed: u64 = res.start_id + res.consumed as u64;
        let mut reclaimed: u32 = 0;
        if res.start_id + res.count as u64 == self.next_stream_id {
            self.next_stream_id = unconsumed;
            reclaimed = res.count - res.consumed;
        }
        self.reservations.remove(holder);
        self.emit(
            Event::ReservationReleased(
                ReservationReleased {
                    holder,
                    start_id: res.start_id,
                    count: res.count,
                    consumed: res.consumed,
                    reclaimed,
                },
            ),
        );
    }

    /// Gives up what is left of the caller's reservation.
    pub fn release_id_reservation(&mut self, call: &Call, caller: Address) -> (r: Result<
        (),
        ContractError,
    >)
        requires
            old(self)@.wf(),
        ensures
            final(self)@.wf(),
            match old(self)@.release_error(*call, caller) {
                Some(e) => r == Err::<(), ContractError>(e) && final(self)@ == old(self)@,
                None => {
                    &&& r == Ok::<(), ContractError>(())
                    &&& final(self)@ == old(self)@.release(caller)
                },
            },
    {
        if self.emergency_paused {
            return Err(ContractError::ContractPaused);
        }
        if !call.is_signed_by(caller) {
            return Err(ContractError::Unauthorized);
        }
        match self.get_id_reservation(caller) {
            None => Err(ContractError::ReservationNotFound),
            Some(res) => {
                self.release_reservation(caller, res);
                Ok(())
            },
        }
    }

    /// Takes back what is left of an expired reservation. Anybody may do this.
    pub fn reclaim_expired_id_reservation(&mut self, call: &Call, holder: Address) -> (r: Result<
        (),
        ContractError,
    >)
        requires
            old(self)@.wf(),
        ensures
            final(self)@.wf(),
            match old(self)@.reclaim_error(*call, holder) {
                Some(e) => r == Err::<(), ContractError>(e) && final(self)@ == old(self)@,
                None => {
                    &&& r == Ok::<(), ContractError>(())
                    &&& final(self)@ == old(self)@.release(holder)
                },
            },
    {
        if self.emergency_paused {
            return Err(ContractError::ContractPaused);
        }
        let res = match self.get_id_reservation(holder) {
            None => {
                return Err(ContractError::ReservationNotFound);
            },
            Some(res) => res,
        };
        match res.expiry {
            None => Err(ContractError::ReservationNotExpirable),
            Some(expiry) => {
                if call.timestamp < expiry {
                    return Err(ContractError::ReservationStillActive);
                }
                self.release_reservation(holder, res);
                Ok(())
            },
        }
    }

    /// The identifiers set aside for `caller`.
    pub fn get_id_reservation(&self, caller: Address) -> (r: Option<IdReservation>)
        ensures
            r == if self@.reservations.dom().contains(caller) {
                Some(self@.reservations[caller])
            } else {
                None
            },
    {
        match self.reservations.get(caller) {
            Some(res) => Some(*res),
            None => None,
        }
    }

    /// Makes a stream on the terms of a running one, for another recipient and
    /// another time, at the wish of the sender. The cliff keeps its distance
    /// from the start.
    pub fn clone_stream(
        &mut self,
        call: &Call,
        stream_id: u64,
        new_recipient: Address,
        start_time: u64,
        end_time: u64,
        deposit: i128,
        force: bool,
    ) -> (r: Result<u64, ContractError>)
        requires
            old(self)@.wf(),
            old(self)@.streams.dom().contains(stream_id) ==> old(self)@.room_for(
                old(self)@.streams[stream_id].sender,
                new_recipient,
                1,
            ),
        ensures
            final(self)@.wf(),
            match old(self)@.clone_error(
                *call,
                stream_id,
                new_recipient,
                start_time,
                end_time,
                deposit,
                force,
            ) {
                Some(e) => r == Err::<u64, ContractError>(e) && final(self)@ == old(self)@,
                None => {
                    &&& r == Ok::<u64, ContractError>(
                        old(self)@.fresh_id(old(self)@.streams[stream_id].sender),
                    )
                    &&& final(self)@ == old(self)@.clone_step(
                        stream_id,
                        new_recipient,
                        start_time,
                        end_time,
                        deposit,
                    )
                },
            },
    {
        if self.emergency_paused || self.creation_paused {
            return Err(ContractError::ContractPaused);
        }
        let source = match self.load_stream(stream_id) {
            Err(e) => {
                return Err(e);
            },
            Ok(source) => source,
        };
        if source.status == StreamStatus::Cancelled || source.status == StreamStatus::Completed {
            return Err(ContractError::StreamTerminalState);
        }
        if !call.is_signed_by(source.sender) {
            return Err(ContractError::Unauthorized);
        }
        if source.withdraw_dust_threshold == i128::MAX && !force {
            return Err(ContractError::InvalidParams);
        }
        let cliff_time: u64 = match start_time.checked_add(
            source.cliff_time - source.start_time,
        ) {
            None => {
                return Err(ContractError::ArithmeticOverflow);
            },
            Some(cliff_time) => cliff_time,
        };
        if let Err(e) = self.validate_stream_params(
            source.sender,
            new_recipient,
            deposit,
            source.rate_per_second,
            call.timestamp,
            start_time,
            cliff_time,
            end_time,
            source.kind,
        ) {
            return Err(e);
        }
        if let Err(e) = validate_payload(&source.memo, &source.metadata) {
            return Err(e);
        }
        let params = CreateStreamParams {
            recipient: new_recipient,
            deposit_amount: deposit,
            rate_per_second: source.rate_per_second,
            start_time,
            cliff_time,
            end_time,
            withdraw_dust_threshold: Some(source.withdraw_dust_threshold),
            memo: share_option(&source.memo),
            metadata: share_option(&source.metadata),
            kind: source.kind,
            irrevocable: None,
            witness: None,
        };
        assert(params == source.clone_params(new_recipient, start_time, end_time, deposit));
        proof {
            crate::registry::lemma_stored_stream(self@, stream_id);
        }
        self.pull_token(source.sender, deposit);
        let new_stream_id: u64 = self.persist_new_stream(source.sender, &params);
        self.emit(
            Event::Cloned(
                StreamCloned {
                    new_stream_id,
                    source_stream_id: stream_id,
                    sender: source.sender,
                    recipient: new_recipient,
                    deposit_amount: deposit,
                    rate_per_second: source.rate_per_second,
                    start_time,
                    cliff_time,
                    end_time,
                },
            ),
        );
        Ok(new_stream_id)
    }
}

} // verus!
