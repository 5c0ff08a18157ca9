//! Streams that start when the recipient accepts.

use crate::creation::validate_metadata;
use crate::events::{Event, StreamOfferAccepted, StreamOfferCancelled, StreamOfferCreated};
use crate::state::{Call, ContractState, FluxoraStream};
use crate::types::{
    share_option, Address, ContractError, CreateStreamParams, Stream, StreamKind, StreamOffer,
    StreamStatus,
};
use vstd::prelude::*;

verus! {

impl CreateStreamParams {
    /// Why the memo, the dust threshold or the metadata of an offer is refused.
    pub open spec fn offer_payload_error(self) -> Option<ContractError> {
        if self.memo is Some && self.memo->0@.len() > crate::creation::MAX_MEMO_BYTES {
            Some(ContractError::InvalidParams)
        } else if self.dust() < 0 || self.dust() > self.deposit_amount {
            Some(ContractError::InvalidDustThreshold)
        } else if self.metadata is Some && !self.metadata->0.fits() {
            Some(ContractError::MetadataTooLarge)
        } else {
            None
        }
    }

    /// The offer that comes of the parameters.
    pub open spec fn offer(
        self,
        offer_id: u64,
        sender: Address,
        now: u64,
        expiry_time: Option<u64>,
    ) -> StreamOffer {
        StreamOffer {
            offer_id,
            sender,
            recipient: self.recipient,
            deposit_amount: self.deposit_amount,
            rate_per_second: self.effective_rate(),
            start_time: self.start_time,
            cliff_time: self.cliff_time,
            end_time: self.end_time,
            withdraw_dust_threshold: self.dust(),
            memo: self.memo,
            kind: self.kind,
            metadata: self.metadata,
            expiry_time,
            created_at: now,
        }
    }
}

impl StreamOffer {
    /// When the stream starts if the offer is accepted at `now`: as asked, but
    /// not in the past.
    pub open spec fn spec_start(self, now: u64) -> int {
        if self.start_time < now {
            now as int
        } else {
            self.start_time as int
        }
    }

    /// The stream that starts if the offer is accepted at `now`. The schedule
    /// moves as a whole.
    pub open spec fn stream(self, now: u64) -> Stream {
        let start = self.spec_start(now);
        Stream {
            stream_id: self.offer_id,
            sender: self.sender,
            recipient: self.recipient,
            claim_owner: None,
            deposit_amount: self.deposit_amount,
            rate_per_second: self.rate_per_second,
            start_time: start as u64,
            cliff_time: (start + (self.cliff_time - self.start_time)) as u64,
            end_time: (start + (self.end_time - self.start_time)) as u64,
            withdrawn_amount: 0,
            status: StreamStatus::Active,
            cancelled_at: None,
            checkpointed_amount: 0,
            checkpointed_at: start as u64,
            withdraw_dust_threshold: self.withdraw_dust_threshold,
            last_pause_toggle_ledger: 0,
            last_withdraw_ledger: 0,
            last_rate_change_ledger: 0,
            is_pooled: None,
            metadata: self.metadata,
            memo: self.memo,
            kind: self.kind,
            irrevocable: None,
            witness: None,
            delegation_depth: 0,
            parent_stream_id: None,
        }
    }
}

impl ContractState {
    /// Why an offer is refused.
    pub open spec fn create_offer_error(
        self,
        call: Call,
        sender: Address,
        params: CreateStreamParams,
        expiry_time: Option<u64>,
    ) -> Option<ContractError> {
        if !call.authorised(sender) {
            Some(ContractError::Unauthorized)
        } else if self.creation_blocked() {
            Some(ContractError::ContractPaused)
        } else if expiry_time is Some && expiry_time->0 <= call.timestamp {
            Some(ContractError::InvalidParams)
        } else {
            match params.error(self.max_rate_per_second, sender, call.timestamp) {
                Some(e) => Some(e),
                None => match params.offer_payload_error() {
                    Some(e) => Some(e),
                    None => if self.config is None {
                        Some(ContractError::InvalidState)
                    } else {
                        None
                    },
                },
            }
        }
    }

    /// The state with an offer made and paid for.
    pub open spec fn create_offer_step(
        self,
        call: Call,
        sender: Address,
        params: CreateStreamParams,
        expiry_time: Option<u64>,
    ) -> Self {
        let id = self.fresh_id(sender);
        let offer = params.offer(id, sender, call.timestamp, expiry_time);
        let s = self.take_id(sender);
        (ContractState {
            offers: s.offers.insert(id, offer),
            recipient_offers: crate::state::enlist(s.recipient_offers, params.recipient, id),
            ..s
        }).pull(sender, params.deposit_amount).emit(
            Event::OfferCreated(
                StreamOfferCreated {
                    offer_id: id,
                    sender,
                    recipient: params.recipient,
                    deposit_amount: params.deposit_amount,
                    rate_per_second: params.effective_rate(),
                    start_time: params.start_time,
                    cliff_time: params.cliff_time,
                    end_time: params.end_time,
                    expiry_time,
                    created_at: call.timestamp,
                },
            ),
        )
    }

    /// The state without an offer.
    pub open spec fn without_offer(self, id: u64) -> Self {
        ContractState {
            offers: self.offers.remove(id),
            recipient_offers: crate::state::delist(
                self.recipient_offers,
                self.offers[id].recipient,
                id,
            ),
            ..self
        }
    }

    /// Why an offer is not accepted.
    pub open spec fn accept_offer_error(self, call: Call, recipient: Address, id: u64) -> Option<
        ContractError,
    > {
        let offer = self.offers[id];
        let duration = offer.end_time - offer.start_time;
        if !call.authorised(recipient) {
            Some(ContractError::Unauthorized)
        } else if self.emergency_paused {
            Some(ContractError::ContractPaused)
        } else if !self.offers.dom().contains(id) {
            Some(ContractError::OfferNotFound)
        } else if offer.recipient != recipient {
            Some(ContractError::OfferWrongRecipient)
        } else if offer.expiry_time is Some && call.timestamp > offer.expiry_time->0 {
            Some(ContractError::OfferExpired)
        } else if offer.spec_start(call.timestamp) + duration > u64::MAX {
            Some(ContractError::ArithmeticOverflow)
        } else if offer.kind == StreamKind::Linear && offer.rate_per_second * duration
            > i128::MAX {
            Some(ContractError::ArithmeticOverflow)
        } else if offer.kind == StreamKind::Linear && offer.rate_per_second * duration
            > offer.deposit_amount {
            Some(ContractError::InsufficientDeposit)
        } else {
            None
        }
    }

    /// The state with an offer turned into a stream.
    pub open spec fn accept_offer_step(self, call: Call, id: u64) -> Self {
        let offer = self.offers[id];
        let stream = offer.stream(call.timestamp);
        let s = self.without_offer(id).put(stream);
        (ContractState {
            recipient_streams: crate::state::enlist(s.recipient_streams, offer.recipient, id),
            ..s
        }).owe(offer.deposit_amount).emit(crate::creation::created_event(stream)).emit(
            Event::OfferAccepted(
                StreamOfferAccepted {
                    offer_id: id,
                    effective_start_time: stream.start_time,
                    recipient: offer.recipient,
                },
            ),
        )
    }

    /// Why an offer is not rejected.
    pub open spec fn reject_offer_error(self, call: Call, recipient: Address, id: u64) -> Option<
        ContractError,
    > {
        if !call.authorised(recipient) {
            Some(ContractError::Unauthorized)
        } else if self.emergency_paused {
            Some(ContractError::ContractPaused)
        } else if !self.offers.dom().contains(id) {
            Some(ContractError::OfferNotFound)
        } else if self.offers[id].recipient != recipient {
            Some(ContractError::OfferWrongRecipient)
        } else {
            None
        }
    }

    /// Why an offer is not withdrawn.
    pub open spec fn cancel_offer_error(self, call: Call, sender: Address, id: u64) -> Option<
        ContractError,
    > {
        if !call.authorised(sender) {
            Some(ContractError::Unauthorized)
        } else if !self.offers.dom().contains(id) {
            Some(ContractError::OfferNotFound)
        } else if self.offers[id].sender != sender {
            Some(ContractError::OfferWrongSender)
        } else {
            None
        }
    }

    /// The state with an offer dropped and its deposit refunded.
    pub open spec fn drop_offer_step(self, id: u64, by: Address) -> Self {
        let offer = self.offers[id];
        self.without_offer(id).push(offer.sender, offer.deposit_amount).emit(
            Event::OfferCancelled(
                StreamOfferCancelled { offer_id: id, by, refund_amount: offer.deposit_amount },
            ),
        )
    }
}

impl FluxoraStream {
    /// The offer with the given identifier.
    fn load_stream_offer(&self, offer_id: u64) -> (r: Result<StreamOffer, ContractError>)
        requires
            self@.wf(),
        ensures
            match r {
                Ok(offer) => {
                    &&& self@.offers.dom().contains(offer_id)
                    &&& offer == self@.offers[offer_id]
                    &&& crate::state::offer_sound(offer)
                    &&& offer.offer_id == offer_id
                },
                Err(e) => {
                    &&& !self@.offers.dom().contains(offer_id)
                    &&& e == ContractError::OfferNotFound
                },
            },
    {
        match self.offers.get(offer_id) {
            Some(offer) => {
                proof {
                    crate::registry::lemma_stored_offer(self@, offer_id);
                }
                Ok(offer.clone())
            },
            None => Err(ContractError::OfferNotFound),
        }
    }

    /// Forgets an offer.
    fn remove_offer(&mut self, offer: &StreamOffer)
        requires
            old(self)@.wf(),
            old(self)@.offers.dom().contains(offer.offer_id),
            *offer == old(self)@.offers[offer.offer_id],
        ensures
            final(self)@ == old(self)@.without_offer(offer.offer_id),
            final(self)@.wf(),
            final(self)@.config is Some,
            final(self)@.taken(offer.offer_id),
            forall|who: Address| #![trigger final(self)@.recipient_streams.dom().contains(who)]
                final(self)@.recipient_streams.dom().contains(who)
                    ==> !final(self)@.recipient_streams[who].contains(offer.offer_id),
            forall|who: Address| #![trigger final(self)@.sender_streams.dom().contains(who)]
                final(self)@.sender_streams.dom().contains(who)
                    ==> !final(self)@.sender_streams[who].contains(offer.offer_id),
            forall|x: u64| #![trigger final(self)@.streams.dom().contains(x)]
                final(self)@.streams.dom().contains(x) ==> final(self)@.streams[x].parent_stream_id
                    != Some(offer.offer_id),
    {
        let id: u64 = offer.offer_id;
        proof {
            crate::registry::lemma_stored_offer(self@, id);
            crate::registry::lemma_remove_offer(self@, id);
        }
        self.offers.remove(id);
        proof {
            crate::registry::lemma_lists_ascend(self@, offer.recipient);
            crate::registry::lemma_delist_offer(self@, offer.recipient, id);
        }
        crate::ops::delist(&mut self.recipient_offers, offer.recipient, id);
    }

    /// Offers a stream to a recipient and takes the deposit. Nothing is earned
    /// before the recipient accepts.
    pub fn create_stream_offer(
        &mut self,
        call: &Call,
        sender: Address,
        params: &CreateStreamParams,
        expiry_time: Option<u64>,
    ) -> (r: Result<u64, ContractError>)
        requires
            old(self)@.wf(),
            old(self)@.next_stream_id < u64::MAX,
            crate::state::listed(old(self)@.recipient_offers, params.recipient).len() < u32::MAX,
        ensures
            final(self)@.wf(),
            match old(self)@.create_offer_error(*call, sender, *params, expiry_time) {
                Some(e) => r == Err::<u64, ContractError>(e) && final(self)@ == old(self)@,
                None => {
                    &&& r == Ok::<u64, ContractError>(old(self)@.fresh_id(sender))
                    &&& final(self)@ == old(self)@.create_offer_step(
                        *call,
                        sender,
                        *params,
                        expiry_time,
                    )
                },
            },
    {
        if !call.is_signed_by(sender) {
            return Err(ContractError::Unauthorized);
        }
        if self.emergency_paused || self.creation_paused {
            return Err(ContractError::ContractPaused);
        }
        let now: u64 = call.timestamp;
        if let Some(expiry) = expiry_time {
            if expiry <= now {
                return Err(ContractError::InvalidParams);
            }
        }
        if let Err(e) = self.validate_entry(sender, params, now) {
            return Err(e);
        }
        if let Some(memo) = &params.memo {
            if memo.len() > crate::creation::MAX_MEMO_BYTES {
                return Err(ContractError::InvalidParams);
            }
        }
        let dust: i128 = match params.withdraw_dust_threshold {
            Some(threshold) => threshold,
            None => 0,
        };
        if dust < 0 || dust > params.deposit_amount {
            return Err(ContractError::InvalidDustThreshold);
        }
        if let Some(metadata) = &params.metadata {
            if let Err(e) = validate_metadata(metadata) {
                return Err(e);
            }
        }
        if self.config.is_none() {
            return Err(ContractError::InvalidState);
        }
        let rate: i128 = if params.kind == StreamKind::CliffOnly {
            0
        } else {
            params.rate_per_second
        };
        let offer_id: u64 = self.next_stream_id_for(sender);
        let offer = StreamOffer {
            offer_id,
            sender,
            recipient: params.recipient,
            deposit_amount: params.deposit_amount,
            rate_per_second: rate,
            start_time: params.start_time,
            cliff_time: params.cliff_time,
            end_time: params.end_time,
            withdraw_dust_threshold: dust,
            memo: share_option(&params.memo),
            kind: params.kind,
            metadata: share_option(&params.metadata),
            expiry_time,
            created_at: now,
        };
        assert(offer == params.offer(offer_id, sender, now, expiry_time));
        proof {
            crate::registry::lemma_put_offer(self@, offer);
        }
        self.offers.insert(offer_id, offer);
        proof {
            crate::registry::lemma_lists_ascend(self@, params.recipient);
            crate::registry::lemma_enlist_offer(self@, params.recipient, offer_id);
        }
        crate::ops::enlist(&mut self.recipient_offers, &self.host, params.recipient, offer_id);
        self.pull_token(sender, params.deposit_amount);
        self.emit(
            Event::OfferCreated(
                StreamOfferCreated {
                    offer_id,
                    sender,
                    recipient: params.recipient,
                    deposit_amount: params.deposit_amount,
                    rate_per_second: rate,
                    start_time: params.start_time,
                    cliff_time: params.cliff_time,
                    end_time: params.end_time,
                    expiry_time,
                    created_at: now,
                },
            ),
        );
        Ok(offer_id)
    }

    /// Turns an offer into a stream, at the wish of its recipient. A start in
    /// the past moves to now, and the rest of the schedule with it.
    pub fn accept_stream_offer(&mut self, call: &Call, recipient: Address, offer_id: u64) -> (r:
        Result<u64, ContractError>)
        requires
            old(self)@.wf(),
            crate::state::listed(old(self)@.recipient_streams, recipient).len() < u32::MAX,
        ensures
            final(self)@.wf(),
            match old(self)@.accept_offer_error(*call, recipient, offer_id) {
                Some(e) => r == Err::<u64, ContractError>(e) && final(self)@ == old(self)@,
                None => {
                    &&& r == Ok::<u64, ContractError>(offer_id)
                    &&& final(self)@ == old(self)@.accept_offer_step(*call, offer_id)
                },
            },
    {
        if !call.is_signed_by(recipient) {
            return Err(ContractError::Unauthorized);
        }
        if self.emergency_paused {
            return Err(ContractError::ContractPaused);
        }
        let now: u64 = call.timestamp;
        let offer = match self.load_stream_offer(offer_id) {
            Err(e) => {
                return Err(e);
            },
            Ok(offer) => offer,
        };
        if offer.recipient != recipient {
            return Err(ContractError::OfferWrongRecipient);
        }
        if let Some(expiry) = offer.expiry_time {
            if now > expiry {
                return Err(ContractError::OfferExpired);
            }
        }
        let start_time: u64 = if offer.start_time < now {
            now
        } else {
            offer.start_time
        };
        let duration: u64 = offer.end_time - offer.start_time;
        let end_time: u64 = match start_time.checked_add(duration) {
            None => {
                return Err(ContractError::ArithmeticOverflow);
            },
            Some(end_time) => end_time,
        };
        let cliff_time: u64 = start_time + (offer.cliff_time - offer.start_time);
        if offer.kind == StreamKind::Linear {
            assert(offer.rate_per_second * duration >= 0) by (nonlinear_arith)
                requires
                    offer.rate_per_second >= 0,
                    duration >= 0,
            ;
            match offer.rate_per_second.checked_mul(duration as i128) {
                None => {
                    return Err(ContractError::ArithmeticOverflow);
                },
                Some(total) => {
                    if offer.deposit_amount < total {
                        return Err(ContractError::InsufficientDeposit);
                    }
                },
            }
        }
        self.remove_offer(&offer);
        let stream = Stream {
            stream_id: offer_id,
            sender: offer.sender,
            recipient: offer.recipient,
            claim_owner: None,
            deposit_amount: offer.deposit_amount,
            rate_per_second: offer.rate_per_second,
            start_time,
            cliff_time,
            end_time,
            withdrawn_amount: 0,
            status: StreamStatus::Active,
            cancelled_at: None,
            checkpointed_amount: 0,
            checkpointed_at: start_time,
            withdraw_dust_threshold: offer.withdraw_dust_threshold,
            last_pause_toggle_ledger: 0,
            last_withdraw_ledger: 0,
            last_rate_change_ledger: 0,
            is_pooled: None,
            metadata: share_option(&offer.metadata),
            memo: share_option(&offer.memo),
            kind: offer.kind,
            irrevocable: None,
            witness: None,
            delegation_depth: 0,
            parent_stream_id: None,
        };
        assert(stream == offer.stream(now));
        proof {
            crate::registry::lemma_put(self@, stream);
        }
        crate::ops::save_stream(self, &stream);
        proof {
            crate::registry::lemma_stored_stream(self@, offer_id);
            crate::registry::lemma_lists_ascend(self@, recipient);
            crate::registry::lemma_enlist_recipient(self@, recipient, offer_id);
        }
        crate::ops::enlist(&mut self.recipient_streams, &self.host, recipient, offer_id);
        self.owe(offer.deposit_amount);
        self.announce_created(&stream);
        self.emit(
            Event::OfferAccepted(
                StreamOfferAccepted { offer_id, effective_start_time: start_time, recipient },
            ),
        );
        Ok(offer_id)
    }

    /// Drops an offer, at the wish of its recipient, and refunds the sender.
    pub fn reject_stream_offer(&mut self, call: &Call, recipient: Address, offer_id: u64) -> (r:
        Result<(), ContractError>)
        requires
            old(self)@.wf(),
        ensures
            final(self)@.wf(),
            match old(self)@.reject_offer_error(*call, recipient, offer_id) {
                Some(e) => r == Err::<(), ContractError>(e) && final(self)@ == old(self)@,
                None => {
                    &&& r == Ok::<(), ContractError>(())
                    &&& final(self)@ == old(self)@.drop_offer_step(offer_id, recipient)
                },
            },
    {
        if !call.is_signed_by(recipient) {
            return Err(ContractError::Unauthorized);
        }
        if self.emergency_paused {
            return Err(ContractError::ContractPaused);
        }
        let offer = match self.load_stream_offer(offer_id) {
            Err(e) => {
                return Err(e);
            },
            Ok(offer) => offer,
        };
        if offer.recipient != recipient {
            return Err(ContractError::OfferWrongRecipient);
        }
        self.remove_offer(&offer);
        self.push_token(offer.sender, offer.deposit_amount);
        self.emit(
            Event::OfferCancelled(
                StreamOfferCancelled {
                    offer_id,
                    by: recipient,
                    refund_amount: offer.deposit_amount,
                },
            ),
        );
        Ok(())
    }

    /// Drops an offer, at the wish of its sender, and refunds them. This is
    /// allowed at any time, expired or not.
    pub fn cancel_stream_offer(&mut self, call: &Call, sender: Address, offer_id: u64) -> (r: Result<
        (),
        ContractError,
    >)
        requires
            old(self)@.wf(),
        ensures
            final(self)@.wf(),
            match old(self)@.cancel_offer_error(*call, sender, offer_id) {
                Some(e) => r == Err::<(), ContractError>(e) && final(self)@ == old(self)@,
                None => {
                    &&& r == Ok::<(), ContractError>(())
                    &&& final(self)@ == old(self)@.drop_offer_step(offer_id, sender)
                },
            },
    {
        if !call.is_signed_by(sender) {
            return Err(ContractError::Unauthorized);
        }
        let offer = match self.load_stream_offer(offer_id) {
            Err(e) => {
                return Err(e);
            },
            Ok(offer) => offer,
        };
        if offer.sender != sender {
            return Err(ContractError::OfferWrongSender);
        }
        self.remove_offer(&offer);
        self.push_token(sender, offer.deposit_amount);
        self.emit(
            Event::OfferCancelled(
                StreamOfferCancelled {
                    offer_id,
                    by: sender,
                    refund_amount: offer.deposit_amount,
                },
            ),
        );
        Ok(())
    }

    /// A pending offer.
    pub fn get_stream_offer(&self, offer_id: u64) -> (r: Result<StreamOffer, ContractError>)
        requires
            self@.wf(),
        ensures
            r == if self@.offers.dom().contains(offer_id) {
                Ok::<StreamOffer, ContractError>(self@.offers[offer_id])
            } else {
                Err(ContractError::OfferNotFound)
            },
    {
        self.load_stream_offer(offer_id)
    }

    /// The pending offers for a recipient, ascending.
    pub fn get_recipient_pending_offers(&self, recipient: Address) -> (r: Vec<u64>)
        ensures
            r@ == crate::state::listed(self@.recipient_offers, recipient),
    {
        crate::ops::list_ids(&self.recipient_offers, recipient)
    }
}

} // verus!
