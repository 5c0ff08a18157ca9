//! How streams, offers, reservations and templates come about.

use crate::events::{
    Effect, Event, ReservationReleased, StreamCloned, StreamCreated, StreamOfferAccepted,
    StreamOfferCancelled, StreamOfferCreated, StreamRenewed,
};
use crate::state::{Call, ContractState};
use crate::types::{
    Address, ContractError, CreateStreamParams, CreateStreamRelativeParams, CreateStreamResult,
    IdReservation, Metadata, PoolShare, Stream, StreamKind, StreamOffer, StreamScheduleTemplate,
    StreamStatus,
};
use vstd::prelude::*;

verus! {

/// Whether nothing has happened to a stream yet: nothing is withdrawn or
/// settled, and accrual counts from its own start.
pub open spec fn pristine(stream: Stream) -> bool {
    &&& stream.checkpointed_at == stream.start_time
    &&& stream.checkpointed_amount == 0
    &&& stream.withdrawn_amount == 0
    &&& stream.status == StreamStatus::Active
    &&& stream.cancelled_at is None
    &&& stream.claim_owner is None
    &&& stream.last_pause_toggle_ledger == 0
    &&& stream.last_withdraw_ledger == 0
    &&& stream.last_rate_change_ledger == 0
}

/// What the announcement of a stream tells.
pub open spec fn announced(stream: Stream) -> Effect {
    Effect::Emit(
        Event::Created(
            StreamCreated {
                stream_id: stream.stream_id,
                sender: stream.sender,
                recipient: stream.recipient,
                deposit_amount: stream.deposit_amount,
                rate_per_second: stream.rate_per_second,
                start_time: stream.start_time,
                cliff_time: stream.cliff_time,
                end_time: stream.end_time,
                withdraw_dust_threshold: stream.withdraw_dust_threshold,
                memo: stream.memo,
                metadata: stream.metadata,
            },
        ),
    )
}

/// What a stream to which nothing has happened has earned, from its own cliff
/// to its own end: the rate times the seconds since its start, or since its
/// cliff, within the deposit; or all at once.
pub proof fn law_new_stream_earns(stream: Stream, t: int)
    requires
        pristine(stream),
        stream.sound(),
        stream.cliff_time <= t <= stream.end_time,
    ensures
        match stream.kind {
            StreamKind::Linear => stream.spec_earned(t as u64) == if stream.rate_per_second * (t
                - stream.start_time) < stream.deposit_amount {
                stream.rate_per_second * (t - stream.start_time)
            } else {
                stream.deposit_amount as int
            },
            StreamKind::CliffSlope => stream.spec_earned(t as u64) == if stream.rate_per_second * (
            t - stream.cliff_time) < stream.deposit_amount {
                stream.rate_per_second * (t - stream.cliff_time)
            } else {
                stream.deposit_amount as int
            },
            StreamKind::CliffOnly => stream.spec_earned(t as u64) == stream.deposit_amount,
        },
{
}

/// Who owns an identifier: a reservation hands out its own in order, and is
/// used up with the last one; all others come from the counter.
pub proof fn law_identifiers_handed_out(s: ContractState, who: Address)
    requires
        s.wf(),
        s.next_stream_id < u64::MAX,
    ensures
        ({
            let t = s.take_id(who);
            let r = s.reservations[who];
            &&& !s.reservations.dom().contains(who) ==> {
                &&& s.fresh_id(who) == s.next_stream_id
                &&& t == (ContractState { next_stream_id: (s.next_stream_id + 1) as u64, ..s })
            }
            &&& s.reservations.dom().contains(who) ==> {
                &&& s.fresh_id(who) == r.start_id + r.consumed
                &&& t == (ContractState { reservations: t.reservations, ..s })
                &&& r.consumed + 1 == r.count ==> t.reservations == s.reservations.remove(who)
                &&& r.consumed + 1 < r.count ==> t.reservations == s.reservations.insert(
                    who,
                    IdReservation {
                        start_id: r.start_id,
                        count: r.count,
                        consumed: (r.consumed + 1) as u32,
                        expiry: r.expiry,
                    },
                )
            }
        }),
{
    if s.reservations.dom().contains(who) {
        crate::registry::lemma_stored_reservation(s, who);
    }
}

/// What is stored of a new stream: its parameters, with nothing withdrawn, and
/// accrual counted from its start. The stream is announced, listed for both
/// sides, and its deposit is owed.
pub proof fn law_registration_outcome(s: ContractState, sender: Address, params: CreateStreamParams)
    requires
        s.wf(),
        s.room_for(sender, params.recipient, 1),
        0 <= s.total_liabilities,
        0 <= params.deposit_amount,
        s.total_liabilities + params.deposit_amount <= i128::MAX,
    ensures
        ({
            let id = s.fresh_id(sender);
            let t = s.register(sender, params);
            let b = t.streams[id];
            &&& !s.streams.dom().contains(id)
            &&& pristine(b)
            &&& b.stream_id == id
            &&& b.sender == sender
            &&& b.recipient == params.recipient
            &&& b.deposit_amount == params.deposit_amount
            &&& b.rate_per_second == if params.kind == StreamKind::CliffOnly {
                0
            } else {
                params.rate_per_second
            }
            &&& b.start_time == params.start_time
            &&& b.cliff_time == params.cliff_time
            &&& b.end_time == params.end_time
            &&& b.withdraw_dust_threshold == if params.withdraw_dust_threshold is Some {
                params.withdraw_dust_threshold->0
            } else {
                0
            }
            &&& b.kind == params.kind
            &&& b.memo == params.memo
            &&& b.metadata == params.metadata
            &&& b.irrevocable == params.irrevocable
            &&& b.witness == params.witness
            &&& b.is_pooled is None
            &&& b.delegation_depth == 0 && b.parent_stream_id is None
            &&& t.streams == s.streams.insert(id, b)
            &&& t.effects == s.effects.push(announced(b))
            &&& t.next_stream_id == s.take_id(sender).next_stream_id
            &&& t.reservations == s.take_id(sender).reservations
            &&& t.total_liabilities == s.total_liabilities + params.deposit_amount
            &&& forall|who: Address, x: u64|
                #![trigger crate::laws::lists::on_list(t.recipient_streams, who, x)]
                crate::laws::lists::on_list(t.recipient_streams, who, x) == (
                crate::laws::lists::on_list(s.recipient_streams, who, x) || (who
                    == params.recipient && x == id))
            &&& forall|who: Address, x: u64|
                #![trigger crate::laws::lists::on_list(t.sender_streams, who, x)]
                crate::laws::lists::on_list(t.sender_streams, who, x) == (
                crate::laws::lists::on_list(s.sender_streams, who, x) || (who == sender && x == id))
            &&& t == (ContractState {
                streams: t.streams,
                effects: t.effects,
                total_liabilities: t.total_liabilities,
                recipient_streams: t.recipient_streams,
                sender_streams: t.sender_streams,
                next_stream_id: t.next_stream_id,
                reservations: t.reservations,
                ..s
            })
        }),
{
    let id = s.fresh_id(sender);
    crate::laws::roundtrips::lemma_fresh_id(s, sender);
    crate::registry::lemma_lists_ascend(s, sender);
    crate::registry::lemma_lists_ascend(s, params.recipient);
    crate::laws::lists::lemma_enlisted(s.recipient_streams, params.recipient, id);
    crate::laws::lists::lemma_enlisted(s.sender_streams, sender, id);
}

/// A new stream is paid for by its sender, in one payment of its deposit.
pub proof fn law_creation_outcome(
    s: ContractState,
    call: Call,
    sender: Address,
    params: CreateStreamParams,
)
    ensures
        ({
            let paid = ContractState {
                effects: s.effects.push(
                    Effect::Pull { from: sender, amount: params.deposit_amount },
                ),
                ..s
            };
            s.create_step(sender, params) == paid.register(sender, params)
        }),
{
}

/// A schedule is accepted if its deposit covers what its rate can stream, from
/// its start or its cliff to its end, if its times are in order and its start
/// is not in the past, and if its two sides differ.
pub open spec fn coverable(
    max_rate: i128,
    sender: Address,
    recipient: Address,
    deposit: i128,
    rate: int,
    now: u64,
    start_time: u64,
    cliff_time: u64,
    end_time: u64,
    kind: StreamKind,
) -> bool {
    &&& deposit > 0
    &&& sender != recipient
    &&& now <= start_time < end_time
    &&& start_time <= cliff_time <= end_time
    &&& match kind {
        StreamKind::Linear => 0 < rate <= max_rate && rate * (end_time - start_time) <= deposit,
        StreamKind::CliffSlope => 0 < rate <= max_rate && rate * (end_time - cliff_time) <= deposit,
        StreamKind::CliffOnly => rate == 0,
    }
}

/// What is asked of a memo and of metadata: at most 256 bytes, and at most
/// eight entries with keys of at most 32 and values of at most 128 bytes, of
/// together at most 512 bytes.
pub open spec fn attachable(
    memo: Option<crate::types::Bytes>,
    metadata: Option<std::rc::Rc<Metadata>>,
) -> bool {
    &&& memo is Some ==> memo->0@.len() <= 256
    &&& metadata is Some ==> {
        let entries = metadata->0@;
        &&& entries.len() <= 8
        &&& forall|i: int|
            #![trigger entries[i]]
            0 <= i < entries.len() ==> entries[i].0@.len() <= 32 && entries[i].1@.len() <= 128
        &&& crate::creation::metadata_bytes(entries, entries.len() as int) <= 512
    }
}

/// The bytes of metadata are those of all keys and values.
pub proof fn law_metadata_bytes_add_up(entries: Seq<(Vec<u8>, Vec<u8>)>, n: int)
    requires
        0 <= n < entries.len(),
    ensures
        crate::creation::metadata_bytes(entries, 0) == 0,
        crate::creation::metadata_bytes(entries, n + 1) == crate::creation::metadata_bytes(
            entries,
            n,
        ) + entries[n].0@.len() + entries[n].1@.len(),
{
}

/// Whether a new stream is accepted.
pub proof fn law_creation_accepted(
    s: ContractState,
    call: Call,
    sender: Address,
    params: CreateStreamParams,
)
    ensures
        ({
            let rate = if params.kind == StreamKind::CliffOnly {
                0
            } else {
                params.rate_per_second as int
            };
            s.create_error(call, sender, params) is None <==> {
                &&& call.signers@.contains(sender)
                &&& !s.emergency_paused && !s.creation_paused
                &&& coverable(
                    s.max_rate_per_second,
                    sender,
                    params.recipient,
                    params.deposit_amount,
                    rate,
                    call.timestamp,
                    params.start_time,
                    params.cliff_time,
                    params.end_time,
                    params.kind,
                )
                &&& s.config is Some
                &&& attachable(params.memo, params.metadata)
            }
        }),
{
}

/// A stream whose start lies in the past is refused for that reason, and one
/// whose deposit is too small for that, if nothing else is wrong.
pub proof fn law_schedule_refusals(
    s: ContractState,
    call: Call,
    sender: Address,
    params: CreateStreamParams,
)
    requires
        call.signers@.contains(sender),
        !s.emergency_paused && !s.creation_paused,
        params.deposit_amount > 0,
        params.kind == StreamKind::Linear,
        0 < params.rate_per_second <= s.max_rate_per_second,
        sender != params.recipient,
        params.start_time < params.end_time,
        params.start_time <= params.cliff_time <= params.end_time,
    ensures
        s.create_error(call, sender, params) == Some(ContractError::StartTimeInPast)
            <==> params.start_time < call.timestamp,
        s.create_error(call, sender, params) == Some(ContractError::InsufficientDeposit)
            <==> call.timestamp <= params.start_time && params.deposit_amount
            < params.rate_per_second * (params.end_time - params.start_time) <= i128::MAX,
{
}

/// Relative times count from now: the start and the cliff each from now, the
/// end from the start. All else is as given.
pub proof fn law_relative_times(params: CreateStreamRelativeParams, now: u64)
    requires
        params.datable(now),
    ensures
        ({
            let dated = params.dated(now);
            &&& dated.start_time - now == params.start_delay
            &&& dated.cliff_time - now == params.cliff_delay
            &&& dated.end_time - dated.start_time == params.duration
            &&& dated.recipient == params.recipient
            &&& dated.deposit_amount == params.deposit_amount
            &&& params.kind != StreamKind::CliffOnly ==> dated.rate_per_second
                == params.rate_per_second
            &&& dated.withdraw_dust_threshold == params.withdraw_dust_threshold
            &&& dated.memo == params.memo
            &&& dated.metadata == params.metadata
            &&& dated.kind == params.kind
            &&& dated.irrevocable == params.irrevocable
            &&& dated.witness is None
        }),
{
}

/// A relative stream is refused if one of its times does not exist, and else
/// as its absolute form is.
pub proof fn law_relative_accepted(
    s: ContractState,
    call: Call,
    sender: Address,
    params: CreateStreamRelativeParams,
)
    ensures
        ({
            let exist = call.timestamp + params.start_delay + params.duration <= u64::MAX
                && call.timestamp + params.cliff_delay <= u64::MAX;
            s.create_relative_error(call, sender, params) == if exist {
                s.create_error(call, sender, params.dated(call.timestamp))
            } else {
                Some(ContractError::InvalidParams)
            }
        }),
{
}

/// A batch is paid for at once, with the sum of its deposits, and then made
/// stream by stream.
pub proof fn law_batch_creation_outcome(
    s: ContractState,
    sender: Address,
    batch: Seq<CreateStreamParams>,
    n: int,
)
    requires
        0 <= n < batch.len(),
    ensures
        ({
            let total = crate::creation::total_deposit(batch, batch.len() as int);
            let paid = ContractState {
                effects: s.effects.push(Effect::Pull { from: sender, amount: total as i128 }),
                ..s
            };
            &&& s.create_all_step(sender, batch) == paid.register_all(
                sender,
                batch,
                batch.len() as int,
            )
            &&& crate::creation::total_deposit(batch, 0) == 0
            &&& crate::creation::total_deposit(batch, n + 1) == crate::creation::total_deposit(
                batch,
                n,
            ) + batch[n].deposit_amount
            &&& s.register_all(sender, batch, 0) == s
            &&& s.register_all(sender, batch, n + 1) == s.register_all(
                sender,
                batch,
                n,
            ).register(sender, batch[n])
            &&& s.batch_ids(sender, batch, batch.len() as int)[n] == s.register_all(
                sender,
                batch,
                n,
            ).fresh_id(sender)
        }),
{
}

/// A batch of new streams stands or falls as a whole: none of its entries would
/// be refused alone.
pub proof fn law_batch_creation_accepted(
    s: ContractState,
    call: Call,
    sender: Address,
    batch: Seq<CreateStreamParams>,
    i: int,
)
    requires
        s.create_all_error(call, sender, batch) is None,
        0 <= i < batch.len(),
    ensures
        s.create_error(call, sender, batch[i]) is None,
        crate::creation::total_deposit(batch, batch.len() as int) <= i128::MAX,
{
    lemma_batch_entry(s, sender, call.timestamp, batch, batch.len() as int, i);
    lemma_batch_payload(batch, batch.len() as int, i);
}

proof fn lemma_batch_entry(
    s: ContractState,
    sender: Address,
    now: u64,
    batch: Seq<CreateStreamParams>,
    n: int,
    i: int,
)
    requires
        s.batch_error(sender, now, batch, n) is None,
        0 <= i < n <= batch.len(),
    ensures
        batch[i].error(s.max_rate_per_second, sender, now) is None,
        crate::creation::total_deposit(batch, n) <= i128::MAX,
    decreases n,
{
    if i < n - 1 {
        lemma_batch_entry(s, sender, now, batch, n - 1, i);
    }
}

proof fn lemma_batch_payload(batch: Seq<CreateStreamParams>, n: int, i: int)
    requires
        crate::creation::batch_payload_error(batch, n) is None,
        0 <= i < n <= batch.len(),
    ensures
        batch[i].payload_error() is None,
    decreases n,
{
    if i < n - 1 {
        lemma_batch_payload(batch, n - 1, i);
    }
}

/// In a batch whose entries fail independently, an entry is made if and only if
/// nothing is wrong with it and its deposit arrived; the others change nothing.
pub proof fn law_partial_creation_outcome(
    s: ContractState,
    sender: Address,
    now: u64,
    batch: Seq<CreateStreamParams>,
    transfers: Seq<bool>,
    n: int,
)
    requires
        0 <= n < batch.len(),
    ensures
        ({
            let before = s.partial_step(sender, now, batch, transfers, n);
            let t = s.partial_step(sender, now, batch, transfers, n + 1);
            let entry = batch[n];
            let rate = if entry.kind == StreamKind::CliffOnly {
                0
            } else {
                entry.rate_per_second as int
            };
            let outcome = before.partial_outcome(sender, now, entry, transfers[n]);
            let fine = coverable(
                before.max_rate_per_second,
                sender,
                entry.recipient,
                entry.deposit_amount,
                rate,
                now,
                entry.start_time,
                entry.cliff_time,
                entry.end_time,
                entry.kind,
            ) && attachable(entry.memo, entry.metadata);
            let made = fine && transfers[n] && before.config is Some;
            &&& s.partial_step(sender, now, batch, transfers, 0) == s
            &&& outcome is Ok <==> made
            &&& made ==> outcome == Ok::<u64, ContractError>(before.fresh_id(sender)) && t
                == before.register(sender, entry)
            &&& !made ==> t == before
            &&& fine && !made ==> outcome == Err::<u64, ContractError>(
                ContractError::InsufficientBalance,
            )
            &&& crate::creation::reported(outcome) == match outcome {
                Ok(id) => CreateStreamResult { success: true, stream_id: Some(id), error: None },
                Err(e) => CreateStreamResult {
                    success: false,
                    stream_id: None,
                    error: Some(e.spec_code()),
                },
            }
        }),
{
}

/// A pooled stream is paid for by its sender, and keeps the shares; it is on no
/// list.
pub proof fn law_pooled_creation_outcome(
    s: ContractState,
    params: CreateStreamParams,
    shares: Seq<PoolShare>,
)
    requires
        s.wf(),
        s.next_stream_id < u64::MAX,
        0 <= s.total_liabilities,
        0 <= params.deposit_amount,
        s.total_liabilities + params.deposit_amount <= i128::MAX,
    ensures
        ({
            let sender = params.recipient;
            let id = s.fresh_id(sender);
            let t = s.create_pooled_step(params, shares);
            let b = t.streams[id];
            &&& pristine(b)
            &&& b.is_pooled == Some(true)
            &&& b.stream_id == id && b.sender == sender && b.recipient == sender
            &&& b.deposit_amount == params.deposit_amount
            &&& b.start_time == params.start_time && b.cliff_time == params.cliff_time
                && b.end_time == params.end_time
            &&& t.streams == s.streams.insert(id, b)
            &&& b.kind == params.kind && b.memo == params.memo && b.metadata == params.metadata
            &&& params.kind != StreamKind::CliffOnly ==> b.rate_per_second
                == params.rate_per_second
            &&& params.withdraw_dust_threshold is Some ==> b.withdraw_dust_threshold
                == params.withdraw_dust_threshold->0
            &&& t.pool_shares == s.pool_shares.insert(id, shares)
            &&& t.next_stream_id == s.take_id(sender).next_stream_id
            &&& t.reservations == s.take_id(sender).reservations
            &&& t.total_liabilities == s.total_liabilities + params.deposit_amount
            &&& t.effects == s.effects.push(
                Effect::Pull { from: sender, amount: params.deposit_amount },
            ).push(announced(b))
            &&& t == (ContractState {
                streams: t.streams,
                pool_shares: t.pool_shares,
                total_liabilities: t.total_liabilities,
                effects: t.effects,
                next_stream_id: t.next_stream_id,
                reservations: t.reservations,
                ..s
            })
        }),
{
}

/// An offer keeps its terms and its deposit until it is answered. Nothing is
/// owed for it yet.
pub proof fn law_offer_outcome(
    s: ContractState,
    call: Call,
    sender: Address,
    params: CreateStreamParams,
    expiry: Option<u64>,
)
    requires
        s.wf(),
    ensures
        ({
            let id = s.fresh_id(sender);
            let t = s.create_offer_step(call, sender, params, expiry);
            let rate = if params.kind == StreamKind::CliffOnly {
                0
            } else {
                params.rate_per_second
            };
            let offer = StreamOffer {
                offer_id: id,
                sender,
                recipient: params.recipient,
                deposit_amount: params.deposit_amount,
                rate_per_second: rate,
                start_time: params.start_time,
                cliff_time: params.cliff_time,
                end_time: params.end_time,
                withdraw_dust_threshold: if params.withdraw_dust_threshold is Some {
                    params.withdraw_dust_threshold->0
                } else {
                    0
                },
                memo: params.memo,
                kind: params.kind,
                metadata: params.metadata,
                expiry_time: expiry,
                created_at: call.timestamp,
            };
            &&& t.offers == s.offers.insert(id, offer)
            &&& t.next_stream_id == s.take_id(sender).next_stream_id
            &&& t.reservations == s.take_id(sender).reservations
            &&& t.effects == s.effects.push(
                Effect::Pull { from: sender, amount: params.deposit_amount },
            ).push(
                Effect::Emit(
                    Event::OfferCreated(
                        StreamOfferCreated {
                            offer_id: id,
                            sender,
                            recipient: params.recipient,
                            deposit_amount: params.deposit_amount,
                            rate_per_second: rate,
                            start_time: params.start_time,
                            cliff_time: params.cliff_time,
                            end_time: params.end_time,
                            expiry_time: expiry,
                            created_at: call.timestamp,
                        },
                    ),
                ),
            )
            &&& forall|who: Address, x: u64|
                #![trigger crate::laws::lists::on_list(t.recipient_offers, who, x)]
                crate::laws::lists::on_list(t.recipient_offers, who, x) == (
                crate::laws::lists::on_list(s.recipient_offers, who, x) || (who
                    == params.recipient && x == id))
            &&& t == (ContractState {
                offers: t.offers,
                recipient_offers: t.recipient_offers,
                effects: t.effects,
                next_stream_id: t.next_stream_id,
                reservations: t.reservations,
                ..s
            })
        }),
{
    crate::registry::lemma_lists_ascend(s, params.recipient);
    crate::laws::lists::lemma_enlisted(s.recipient_offers, params.recipient, s.fresh_id(sender));
}

/// Whether an offer is taken in: as a stream would be, and its threshold must
/// not be negative nor above the deposit, and it must not have expired.
pub proof fn law_offer_accepted(
    s: ContractState,
    call: Call,
    sender: Address,
    params: CreateStreamParams,
    expiry: Option<u64>,
)
    ensures
        ({
            let dust = if params.withdraw_dust_threshold is Some {
                params.withdraw_dust_threshold->0
            } else {
                0
            };
            s.create_offer_error(call, sender, params, expiry) is None <==> {
                &&& s.create_error(call, sender, params) is None
                &&& expiry is Some ==> call.timestamp < expiry->0
                &&& 0 <= dust <= params.deposit_amount
            }
        }),
{
}

/// An accepted offer becomes a stream on the offered terms. It starts when it
/// was to start, or now if that is past, and its schedule moves with its start.
/// Accrual counts from the start of the stream. The deposit, which the contract
/// holds already, is owed from now on, and no money moves.
pub proof fn law_accepted_offer_outcome(s: ContractState, call: Call, recipient: Address, id: u64)
    requires
        s.wf(),
        0 <= s.total_liabilities,
        s.accept_offer_error(call, recipient, id) is None,
        s.total_liabilities + s.offers[id].deposit_amount <= i128::MAX,
    ensures
        ({
            let offer = s.offers[id];
            let t = s.accept_offer_step(call, id);
            let b = t.streams[id];
            &&& pristine(b)
            &&& b.sound()
            &&& b.stream_id == id
            &&& b.sender == offer.sender && b.recipient == offer.recipient
            &&& b.deposit_amount == offer.deposit_amount
            &&& b.rate_per_second == offer.rate_per_second
            &&& b.start_time >= offer.start_time && b.start_time >= call.timestamp
            &&& b.start_time == offer.start_time || b.start_time == call.timestamp
            &&& b.cliff_time - b.start_time == offer.cliff_time - offer.start_time
            &&& b.end_time - b.start_time == offer.end_time - offer.start_time
            &&& b.withdraw_dust_threshold == offer.withdraw_dust_threshold
            &&& b.memo == offer.memo && b.metadata == offer.metadata && b.kind == offer.kind
            &&& b.is_pooled is None && b.irrevocable is None && b.witness is None
            &&& b.delegation_depth == 0 && b.parent_stream_id is None
            &&& t.streams == s.streams.insert(id, b)
            &&& t.offers == s.offers.remove(id)
            &&& t.total_liabilities == s.total_liabilities + offer.deposit_amount
            &&& t.effects == s.effects.push(announced(b)).push(
                Effect::Emit(
                    Event::OfferAccepted(
                        StreamOfferAccepted {
                            offer_id: id,
                            effective_start_time: b.start_time,
                            recipient,
                        },
                    ),
                ),
            )
            &&& forall|who: Address, x: u64|
                #![trigger crate::laws::lists::on_list(t.recipient_offers, who, x)]
                crate::laws::lists::on_list(t.recipient_offers, who, x) == (
                crate::laws::lists::on_list(s.recipient_offers, who, x) && !(who == recipient && x
                    == id))
            &&& forall|who: Address, x: u64|
                #![trigger crate::laws::lists::on_list(t.recipient_streams, who, x)]
                crate::laws::lists::on_list(t.recipient_streams, who, x) == (
                crate::laws::lists::on_list(s.recipient_streams, who, x) || (who == recipient && x
                    == id))
            &&& t == (ContractState {
                streams: t.streams,
                offers: t.offers,
                recipient_offers: t.recipient_offers,
                recipient_streams: t.recipient_streams,
                total_liabilities: t.total_liabilities,
                effects: t.effects,
                ..s
            })
        }),
{
    crate::registry::lemma_stored_offer(s, id);
    crate::registry::lemma_lists_ascend(s, recipient);
    crate::laws::lists::lemma_delisted(s.recipient_offers, recipient, id);
    crate::laws::lists::lemma_enlisted(s.recipient_streams, recipient, id);
}

/// A stream made by accepting an offer has earned, at any time from its cliff
/// to its end, the rate times the seconds since its own start, within the
/// deposit, if it is linear.
pub proof fn law_accepted_offer_earns(
    s: ContractState,
    call: Call,
    recipient: Address,
    id: u64,
    t: u64,
)
    requires
        s.wf(),
        0 <= s.total_liabilities,
        s.accept_offer_error(call, recipient, id) is None,
        s.total_liabilities + s.offers[id].deposit_amount <= i128::MAX,
        s.accept_offer_step(call, id).streams[id].cliff_time <= t,
        t <= s.accept_offer_step(call, id).streams[id].end_time,
    ensures
        ({
            let b = s.accept_offer_step(call, id).streams[id];
            match b.kind {
                StreamKind::Linear => b.spec_earned(t) == if b.rate_per_second * (t - b.start_time)
                    < b.deposit_amount {
                    b.rate_per_second * (t - b.start_time)
                } else {
                    b.deposit_amount as int
                },
                StreamKind::CliffSlope => b.spec_earned(t) == if b.rate_per_second * (t
                    - b.cliff_time) < b.deposit_amount {
                    b.rate_per_second * (t - b.cliff_time)
                } else {
                    b.deposit_amount as int
                },
                StreamKind::CliffOnly => b.spec_earned(t) == b.deposit_amount,
            }
        }),
{
    law_accepted_offer_outcome(s, call, recipient, id);
    law_new_stream_earns(s.accept_offer_step(call, id).streams[id], t as int);
}

/// Who may answer an offer, and until when: the one it is made to may accept it
/// up to its expiry, and reject it at any time; the one who made it may take it
/// back.
pub proof fn law_offer_answered(s: ContractState, call: Call, who: Address, id: u64)
    requires
        s.wf(),
    ensures
        ({
            let offer = s.offers[id];
            let length = offer.end_time - offer.start_time;
            let start = if offer.start_time < call.timestamp {
                call.timestamp
            } else {
                offer.start_time
            };
            let open = s.offers.dom().contains(id) && call.signers@.contains(who);
            &&& s.accept_offer_error(call, who, id) is None <==> {
                &&& open && !s.emergency_paused
                &&& offer.recipient == who
                &&& offer.expiry_time is Some ==> call.timestamp <= offer.expiry_time->0
                &&& start + length <= u64::MAX
                &&& offer.kind == StreamKind::Linear ==> offer.rate_per_second * length
                    <= offer.deposit_amount
            }
            &&& s.reject_offer_error(call, who, id) is None <==> open && !s.emergency_paused
                && offer.recipient == who
            &&& s.cancel_offer_error(call, who, id) is None <==> open && offer.sender == who
        }),
{
}

/// A rejected or withdrawn offer pays its deposit back to the one who made it,
/// and is gone.
pub proof fn law_dropped_offer_outcome(s: ContractState, id: u64, by: Address)
    requires
        s.wf(),
        s.offers.dom().contains(id),
    ensures
        ({
            let offer = s.offers[id];
            let t = s.drop_offer_step(id, by);
            &&& t.offers == s.offers.remove(id)
            &&& t.effects == s.effects.push(
                Effect::Push { to: offer.sender, amount: offer.deposit_amount },
            ).push(
                Effect::Emit(
                    Event::OfferCancelled(
                        StreamOfferCancelled {
                            offer_id: id,
                            by,
                            refund_amount: offer.deposit_amount,
                        },
                    ),
                ),
            )
            &&& forall|who: Address, x: u64|
                #![trigger crate::laws::lists::on_list(t.recipient_offers, who, x)]
                crate::laws::lists::on_list(t.recipient_offers, who, x) == (
                crate::laws::lists::on_list(s.recipient_offers, who, x) && !(who == offer.recipient
                    && x == id))
            &&& t == (ContractState {
                offers: t.offers,
                recipient_offers: t.recipient_offers,
                effects: t.effects,
                ..s
            })
        }),
{
    crate::registry::lemma_lists_ascend(s, s.offers[id].recipient);
    crate::laws::lists::lemma_delisted(s.recipient_offers, s.offers[id].recipient, id);
}

/// A renewal makes a new stream on the old terms that starts now, paid for by
/// the sender, and hands the permission to renew on to it.
pub proof fn law_renewal_outcome(
    s: ContractState,
    call: Call,
    id: u64,
    balance: i128,
    allowance: i128,
)
    requires
        s.wf(),
        s.renew_error(call, id, balance, allowance) is None,
        s.room_for(s.streams[id].sender, s.streams[id].recipient, 1),
        0 <= s.total_liabilities,
        s.total_liabilities + s.streams[id].deposit_amount <= i128::MAX,
    ensures
        ({
            let a = s.streams[id];
            let t = s.renew_step(call, id);
            let new_id = s.fresh_id(a.sender);
            let b = t.streams[new_id];
            &&& !s.streams.dom().contains(new_id)
            &&& pristine(b)
            &&& b.stream_id == new_id
            &&& b.sender == a.sender && b.recipient == a.recipient
            &&& b.deposit_amount == a.deposit_amount
            &&& b.kind == a.kind
            &&& b.rate_per_second == a.rate_per_second
            &&& b.start_time == call.timestamp
            &&& b.cliff_time - b.start_time == a.cliff_time - a.start_time
            &&& b.end_time - b.start_time == a.end_time - a.start_time
            &&& b.withdraw_dust_threshold == a.withdraw_dust_threshold
            &&& b.memo == a.memo && b.metadata == a.metadata
            &&& b.irrevocable is None && b.witness is None && b.is_pooled is None
            &&& t.streams == s.streams.insert(new_id, b)
            &&& t.auto_renew == s.auto_renew.insert(id, false).insert(new_id, true)
            &&& t.total_liabilities == s.total_liabilities + a.deposit_amount
            &&& t.effects == s.effects.push(
                Effect::Pull { from: a.sender, amount: a.deposit_amount },
            ).push(announced(b)).push(
                Effect::Emit(
                    Event::Renewed(StreamRenewed { old_stream_id: id, new_stream_id: new_id }),
                ),
            )
            &&& t.next_stream_id == s.take_id(a.sender).next_stream_id
            &&& t.reservations == s.take_id(a.sender).reservations
            &&& forall|who: Address, x: u64|
                #![trigger crate::laws::lists::on_list(t.recipient_streams, who, x)]
                crate::laws::lists::on_list(t.recipient_streams, who, x) == (
                crate::laws::lists::on_list(s.recipient_streams, who, x) || (who == b.recipient && x
                    == new_id))
            &&& forall|who: Address, x: u64|
                #![trigger crate::laws::lists::on_list(t.sender_streams, who, x)]
                crate::laws::lists::on_list(t.sender_streams, who, x) == (
                crate::laws::lists::on_list(s.sender_streams, who, x) || (who == a.sender && x
                    == new_id))
            &&& t.last_accrual_timestamp == Some(call.timestamp)
            &&& t == (ContractState {
                streams: t.streams,
                auto_renew: t.auto_renew,
                total_liabilities: t.total_liabilities,
                effects: t.effects,
                recipient_streams: t.recipient_streams,
                sender_streams: t.sender_streams,
                next_stream_id: t.next_stream_id,
                reservations: t.reservations,
                last_accrual_timestamp: t.last_accrual_timestamp,
                ..s
            })
        }),
{
    let a = s.streams[id];
    crate::registry::lemma_stored_stream(s, id);
    crate::laws::roundtrips::lemma_fresh_id(s, a.sender);
    crate::registry::lemma_lists_ascend(s, a.sender);
    crate::registry::lemma_lists_ascend(s, a.recipient);
    crate::laws::lists::lemma_enlisted(s.recipient_streams, a.recipient, s.fresh_id(a.sender));
    crate::laws::lists::lemma_enlisted(s.sender_streams, a.sender, s.fresh_id(a.sender));
}

/// Whether a stream is renewed: it is completed, its sender has allowed it, and
/// can pay for it.
pub proof fn law_renewal_accepted(
    s: ContractState,
    call: Call,
    id: u64,
    balance: i128,
    allowance: i128,
)
    requires
        s.wf(),
    ensures
        ({
            let a = s.streams[id];
            let now = call.timestamp;
            let length = a.end_time - a.start_time;
            s.renew_error(call, id, balance, allowance) is None <==> {
                &&& !s.emergency_paused
                &&& s.streams.dom().contains(id)
                &&& a.status == StreamStatus::Completed
                &&& s.auto_renew.dom().contains(id) && s.auto_renew[id]
                &&& s.last_accrual_timestamp is Some ==> s.last_accrual_timestamp->0 <= now
                &&& now + length <= u64::MAX
                &&& coverable(
                    s.max_rate_per_second,
                    a.sender,
                    a.recipient,
                    a.deposit_amount,
                    a.rate_per_second as int,
                    now,
                    now,
                    (now + (a.cliff_time - a.start_time)) as u64,
                    (now + length) as u64,
                    a.kind,
                )
                &&& a.deposit_amount <= balance && a.deposit_amount <= allowance
                &&& attachable(a.memo, a.metadata)
            }
        }),
{
    if s.streams.dom().contains(id) {
        crate::registry::lemma_stored_stream(s, id);
    }
}

/// A clone is a new stream of the same sender, on the same terms, with another
/// recipient, deposit, start and end; its cliff keeps its distance from the
/// start.
pub proof fn law_clone_outcome(
    s: ContractState,
    call: Call,
    id: u64,
    new_recipient: Address,
    start_time: u64,
    end_time: u64,
    deposit: i128,
    force: bool,
)
    requires
        s.wf(),
        s.clone_error(call, id, new_recipient, start_time, end_time, deposit, force) is None,
        s.room_for(s.streams[id].sender, new_recipient, 1),
        0 <= s.total_liabilities,
        s.total_liabilities + deposit <= i128::MAX,
    ensures
        ({
            let a = s.streams[id];
            let t = s.clone_step(id, new_recipient, start_time, end_time, deposit);
            let new_id = s.fresh_id(a.sender);
            let b = t.streams[new_id];
            &&& !s.streams.dom().contains(new_id)
            &&& pristine(b)
            &&& b.stream_id == new_id
            &&& b.sender == a.sender && b.recipient == new_recipient
            &&& b.deposit_amount == deposit
            &&& b.kind == a.kind
            &&& b.rate_per_second == a.rate_per_second
            &&& b.start_time == start_time && b.end_time == end_time
            &&& b.cliff_time - start_time == a.cliff_time - a.start_time
            &&& b.withdraw_dust_threshold == a.withdraw_dust_threshold
            &&& b.memo == a.memo && b.metadata == a.metadata
            &&& b.irrevocable is None && b.witness is None && b.is_pooled is None
            &&& t.streams == s.streams.insert(new_id, b)
            &&& t.total_liabilities == s.total_liabilities + deposit
            &&& t.effects == s.effects.push(
                Effect::Pull { from: a.sender, amount: deposit },
            ).push(announced(b)).push(
                Effect::Emit(
                    Event::Cloned(
                        StreamCloned {
                            new_stream_id: new_id,
                            source_stream_id: id,
                            sender: a.sender,
                            recipient: new_recipient,
                            deposit_amount: deposit,
                            rate_per_second: a.rate_per_second,
                            start_time,
                            cliff_time: b.cliff_time,
                            end_time,
                        },
                    ),
                ),
            )
            &&& t.next_stream_id == s.take_id(a.sender).next_stream_id
            &&& t.reservations == s.take_id(a.sender).reservations
            &&& forall|who: Address, x: u64|
                #![trigger crate::laws::lists::on_list(t.recipient_streams, who, x)]
                crate::laws::lists::on_list(t.recipient_streams, who, x) == (
                crate::laws::lists::on_list(s.recipient_streams, who, x) || (who == b.recipient && x
                    == new_id))
            &&& forall|who: Address, x: u64|
                #![trigger crate::laws::lists::on_list(t.sender_streams, who, x)]
                crate::laws::lists::on_list(t.sender_streams, who, x) == (
                crate::laws::lists::on_list(s.sender_streams, who, x) || (who == a.sender && x
                    == new_id))
            &&& t == (ContractState {
                streams: t.streams,
                total_liabilities: t.total_liabilities,
                effects: t.effects,
                recipient_streams: t.recipient_streams,
                sender_streams: t.sender_streams,
                next_stream_id: t.next_stream_id,
                reservations: t.reservations,
                ..s
            })
        }),
{
    let a = s.streams[id];
    crate::registry::lemma_stored_stream(s, id);
    crate::laws::roundtrips::lemma_fresh_id(s, a.sender);
    crate::registry::lemma_lists_ascend(s, a.sender);
    crate::registry::lemma_lists_ascend(s, new_recipient);
    crate::laws::lists::lemma_enlisted(s.recipient_streams, new_recipient, s.fresh_id(a.sender));
    crate::laws::lists::lemma_enlisted(s.sender_streams, a.sender, s.fresh_id(a.sender));
}

/// Whether a clone is accepted.
pub proof fn law_clone_accepted(
    s: ContractState,
    call: Call,
    id: u64,
    new_recipient: Address,
    start_time: u64,
    end_time: u64,
    deposit: i128,
    force: bool,
)
    requires
        s.wf(),
    ensures
        ({
            let a = s.streams[id];
            let cliff = start_time + (a.cliff_time - a.start_time);
            s.clone_error(call, id, new_recipient, start_time, end_time, deposit, force) is None
                <==> {
                &&& !s.emergency_paused && !s.creation_paused
                &&& s.streams.dom().contains(id)
                &&& a.status == StreamStatus::Active || a.status == StreamStatus::Paused
                &&& call.signers@.contains(a.sender)
                &&& a.withdraw_dust_threshold == i128::MAX ==> force
                &&& cliff <= u64::MAX
                &&& coverable(
                    s.max_rate_per_second,
                    a.sender,
                    new_recipient,
                    deposit,
                    a.rate_per_second as int,
                    call.timestamp,
                    start_time,
                    cliff as u64,
                    end_time,
                    a.kind,
                )
                &&& attachable(a.memo, a.metadata)
            }
        }),
{
    if s.streams.dom().contains(id) {
        crate::registry::lemma_stored_stream(s, id);
    }
}

/// A reservation sets the next identifiers aside, in order, for its holder, who
/// gets to know them.
pub proof fn law_reservation_outcome(
    s: ContractState,
    call: Call,
    caller: Address,
    count: u32,
    expiry: Option<u64>,
    i: int,
)
    requires
        s.next_stream_id + count <= u64::MAX,
        0 <= i < count,
    ensures
        ({
            let t = s.reserve_step(caller, count, expiry);
            &&& s.reserve_error(call, caller, count) is None <==> {
                &&& !s.emergency_paused
                &&& call.signers@.contains(caller)
                &&& 1 <= count <= 100
                &&& !s.reservations.dom().contains(caller)
            }
            &&& s.reserved_ids(count).len() == count
            &&& s.reserved_ids(count)[i] == s.next_stream_id + i
            &&& t.next_stream_id == s.next_stream_id + count
            &&& t == (ContractState {
                next_stream_id: t.next_stream_id,
                reservations: s.reservations.insert(
                    caller,
                    IdReservation { start_id: s.next_stream_id, count, consumed: 0, expiry },
                ),
                ..s
            })
        }),
{
}

/// A reservation that is given up, or taken back once it has expired, is gone;
/// its unused identifiers go back to the counter if they are the last ones.
pub proof fn law_release_outcome(s: ContractState, call: Call, holder: Address)
    requires
        s.wf(),
    ensures
        ({
            let r = s.reservations[holder];
            let last = r.start_id + r.count == s.next_stream_id;
            let t = s.release(holder);
            &&& s.release_error(call, holder) is None <==> !s.emergency_paused
                && call.signers@.contains(holder) && s.reservations.dom().contains(holder)
            &&& s.reclaim_error(call, holder) is None <==> !s.emergency_paused
                && s.reservations.dom().contains(holder) && r.expiry is Some && r.expiry->0
                <= call.timestamp
            &&& s.reservations.dom().contains(holder) ==> {
                &&& t.next_stream_id == if last {
                    r.start_id + r.consumed
                } else {
                    s.next_stream_id as int
                }
                &&& t == (ContractState {
                    next_stream_id: t.next_stream_id,
                    reservations: s.reservations.remove(holder),
                    effects: s.effects.push(
                        Effect::Emit(
                            Event::ReservationReleased(
                                ReservationReleased {
                                    holder,
                                    start_id: r.start_id,
                                    count: r.count,
                                    consumed: r.consumed,
                                    reclaimed: (s.next_stream_id - t.next_stream_id) as u32,
                                },
                            ),
                        ),
                    ),
                    ..s
                })
            }
        }),
{
    if s.reservations.dom().contains(holder) {
        crate::registry::lemma_stored_reservation(s, holder);
    }
}

/// A template is kept under the next number, for its owner, who may have fifty
/// of the thousand that there may be.
pub proof fn law_template_outcome(
    s: ContractState,
    call: Call,
    owner: Address,
    start_delay: u64,
    cliff_delay: u64,
    duration: u64,
)
    ensures
        ({
            let id = s.next_template_id;
            let t = s.register_template_step(owner, start_delay, cliff_delay, duration);
            let template = StreamScheduleTemplate {
                template_id: id,
                owner,
                start_delay,
                cliff_delay,
                duration,
            };
            let owned = crate::state::listed(s.owner_templates, owner);
            &&& s.register_template_error(
                call,
                owner,
                start_delay,
                cliff_delay,
                duration,
            ) is None <==> {
                &&& !s.emergency_paused
                &&& call.signers@.contains(owner)
                &&& duration > 0
                &&& start_delay <= cliff_delay <= start_delay + duration
                &&& call.timestamp + start_delay + duration <= u64::MAX
                &&& owned.len() < 50
                &&& s.active_template_count < 1_000
            }
            &&& id < u64::MAX && s.active_template_count < u64::MAX ==> t == (ContractState {
                templates: s.templates.insert(id, template),
                owner_templates: s.owner_templates.insert(owner, owned.push(id)),
                next_template_id: (id + 1) as u64,
                active_template_count: (s.active_template_count + 1) as u64,
                effects: s.effects.push(Effect::Emit(Event::TemplateDefined(template))),
                ..s
            })
        }),
{
}

/// A template is deleted by its owner, and by nobody else.
pub proof fn law_template_deletion(s: ContractState, call: Call, owner: Address, id: u64)
    requires
        s.wf(),
    ensures
        ({
            let t = s.delete_template_step(owner, id);
            &&& s.delete_template_error(call, owner, id) is None <==> {
                &&& !s.emergency_paused
                &&& call.signers@.contains(owner)
                &&& s.templates.dom().contains(id)
                &&& s.templates[id].owner == owner
                &&& crate::laws::lists::on_list(s.owner_templates, owner, id)
            }
            &&& forall|who: Address, x: u64|
                #![trigger crate::laws::lists::on_list(t.owner_templates, who, x)]
                crate::laws::lists::on_list(t.owner_templates, who, x) == (
                crate::laws::lists::on_list(s.owner_templates, who, x) && !(who == owner && x
                    == id))
            &&& t == (ContractState {
                templates: s.templates.remove(id),
                owner_templates: t.owner_templates,
                active_template_count: if s.active_template_count == 0 {
                    0
                } else {
                    (s.active_template_count - 1) as u64
                },
                ..s
            })
        }),
{
    crate::registry::lemma_lists_ascend(s, owner);
    crate::laws::lists::lemma_delisted(s.owner_templates, owner, id);
}

} // verus!
