//! What one operation does and another undoes, and what is carried over.

use crate::events::Effect;
use crate::state::{Call, ContractState};
use crate::types::{
    Address, ContractError, CreateStreamParams, PauseReason, RotationEntry, Stream, StreamStatus,
};
use vstd::prelude::*;

verus! {

/// Pausing a stream and resuming it gives the same stream back, but for the
/// ledger of the last change, and leaves the counter, the books and all other
/// streams as they were.
pub proof fn law_resume_undoes_pause(
    s: ContractState,
    call: Call,
    later: Call,
    id: u64,
    reason: PauseReason,
)
    requires
        s.wf(),
        s.pause_stream_error(call, id) is None,
        s.paused_stream_count < u64::MAX,
    ensures
        ({
            let t = s.pause(call, id).announce_pause(id, reason);
            let u = t.resume(later, t.streams[id]);
            &&& t.streams[id].status == StreamStatus::Paused
            &&& t.paused_stream_count == s.paused_stream_count + 1
            &&& u.streams == s.streams.insert(
                id,
                (Stream { last_pause_toggle_ledger: later.sequence, ..s.streams[id] }),
            )
            &&& u.paused_stream_count == s.paused_stream_count
            &&& u.total_liabilities == s.total_liabilities
        }),
{
    crate::registry::lemma_stored_stream(s, id);
}

/// Identifiers that are set aside and given back at once can be handed out
/// again, as if nothing had happened.
pub proof fn law_release_undoes_reserve(
    s: ContractState,
    call: Call,
    caller: Address,
    count: u32,
    expiry: Option<u64>,
)
    requires
        s.reserve_error(call, caller, count) is None,
        s.next_stream_id + count <= u64::MAX,
    ensures
        ({
            let t = s.reserve_step(caller, count, expiry).release(caller);
            &&& t.reservations == s.reservations
            &&& t.next_stream_id == s.next_stream_id
            &&& t.streams == s.streams
        }),
{
    assert(s.reservations.insert(
        caller,
        s.reserve_step(caller, count, expiry).reservations[caller],
    ).remove(caller) =~= s.reservations);
}

/// Identifiers that are set aside are handed out to their holder one after the
/// other, and to nobody else.
pub proof fn law_reserved_ids_in_order(s: ContractState, who: Address, other: Address)
    requires
        s.wf(),
        s.reservations.dom().contains(who),
        other != who,
    ensures
        ({
            let res = s.reservations[who];
            &&& s.fresh_id(who) == res.start_id + res.consumed
            &&& res.consumed + 1 < res.count ==> s.take_id(who).fresh_id(who) == s.fresh_id(who)
                + 1
            &&& res.consumed + 1 == res.count ==> !s.take_id(who).reservations.dom().contains(who)
            &&& s.take_id(who).next_stream_id == s.next_stream_id
            &&& !crate::state::id_held(res, s.fresh_id(other))
        }),
{
    reveal(crate::state::registry_ok);
    crate::registry::lemma_stored_reservation(s, who);
    if s.reservations.dom().contains(other) {
        crate::registry::lemma_stored_reservation(s, other);
        assert(crate::state::id_held(s.reservations[other], s.fresh_id(other)));
    }
}

proof fn lemma_batch_counter(
    s: ContractState,
    sender: Address,
    batch: Seq<CreateStreamParams>,
    n: int,
)
    requires
        !s.reservations.dom().contains(sender),
        0 <= n <= batch.len(),
        s.next_stream_id + n <= u64::MAX,
    ensures
        s.register_all(sender, batch, n).reservations == s.reservations,
        s.register_all(sender, batch, n).next_stream_id == s.next_stream_id + n,
    decreases n,
{
    if n > 0 {
        lemma_batch_counter(s, sender, batch, n - 1);
    }
}

/// The streams of a batch get consecutive identifiers, if the sender has set
/// none aside, and the counter moves on by as many.
pub proof fn law_batch_ids_consecutive(
    s: ContractState,
    sender: Address,
    batch: Seq<CreateStreamParams>,
    i: int,
)
    requires
        !s.reservations.dom().contains(sender),
        0 <= i < batch.len(),
        s.next_stream_id + batch.len() <= u64::MAX,
    ensures
        s.batch_ids(sender, batch, batch.len() as int)[i] == s.next_stream_id + i,
        s.create_all_step(sender, batch).next_stream_id == s.next_stream_id + batch.len(),
{
    lemma_batch_counter(s, sender, batch, i);
    let n = batch.len() as int;
    let paid = s.pull(sender, crate::creation::total_deposit(batch, n) as i128);
    lemma_batch_counter(paid, sender, batch, n);
}

proof fn lemma_batch_made(
    s: ContractState,
    sender: Address,
    now: u64,
    max_rate: i128,
    batch: Seq<CreateStreamParams>,
    n: int,
)
    requires
        s.wf(),
        s.config is Some,
        0 <= n <= batch.len(),
        s.next_stream_id + n <= u64::MAX,
        forall|i: int|
            0 <= i < n ==> (#[trigger] batch[i]).error(max_rate, sender, now) is None,
    ensures
        ({
            let t = s.register_all(sender, batch, n);
            let ids = s.batch_ids(sender, batch, n);
            &&& forall|i: int|
                0 <= i < n ==> t.streams.dom().contains(#[trigger] ids[i]) && t.streams[ids[i]]
                    == batch[i].stream(ids[i], sender)
            &&& forall|i: int, j: int| 0 <= i < j < n ==> #[trigger] ids[i] != #[trigger] ids[j]
        }),
    decreases n,
{
    if n > 0 {
        lemma_batch_made(s, sender, now, max_rate, batch, n - 1);
        crate::laws::streams::lemma_register_all(s, sender, now, max_rate, batch, n - 1);
        let t = s.register_all(sender, batch, n - 1);
        let before = s.batch_ids(sender, batch, n - 1);
        let ids = s.batch_ids(sender, batch, n);
        assert(batch[n - 1].error(max_rate, sender, now) is None);
        crate::laws::streams::lemma_register(t, sender, batch[n - 1]);
        assert forall|i: int| 0 <= i < n - 1 implies #[trigger] ids[i] == before[i]
            && t.streams.dom().contains(ids[i]) by {
            assert(t.streams.dom().contains(before[i]));
        }
    }
}

/// A batch makes one stream for every entry, on its terms and under an
/// identifier of its own, in the order of the entries.
pub proof fn law_batch_makes_streams(
    s: ContractState,
    call: Call,
    sender: Address,
    batch: Seq<CreateStreamParams>,
)
    requires
        s.wf(),
        s.next_stream_id + batch.len() <= u64::MAX,
        s.create_all_error(call, sender, batch) is None,
        batch.len() > 0,
    ensures
        ({
            let t = s.create_all_step(sender, batch);
            let ids = s.batch_ids(sender, batch, batch.len() as int);
            &&& forall|i: int|
                0 <= i < batch.len() ==> {
                    &&& t.streams.dom().contains(#[trigger] ids[i])
                    &&& t.streams[ids[i]] == batch[i].stream(ids[i], sender)
                    &&& t.streams[ids[i]].status == StreamStatus::Active
                    &&& t.streams[ids[i]].withdrawn_amount == 0
                }
            &&& forall|i: int, j: int|
                0 <= i < j < batch.len() ==> #[trigger] ids[i] != #[trigger] ids[j]
            &&& t.effects[s.effects.len() as int] == (Effect::Pull {
                from: sender,
                amount: crate::creation::total_deposit(batch, batch.len() as int) as i128,
            })
        }),
{
    let n = batch.len() as int;
    crate::laws::streams::lemma_batch_entries_ok(s, sender, call.timestamp, batch, n);
    let paid = s.pull(sender, crate::creation::total_deposit(batch, n) as i128);
    lemma_batch_made(paid, sender, call.timestamp, s.max_rate_per_second, batch, n);
    lemma_effects_kept(paid, sender, batch, n);
    assert forall|i: int| 0 <= i < n implies s.batch_ids(sender, batch, n)[i] == paid.batch_ids(
        sender,
        batch,
        n,
    )[i] by {
        lemma_same_ids(s, paid, sender, batch, i);
    }
}

/// Making streams leaves what was to be done before as it was.
proof fn lemma_effects_kept(
    s: ContractState,
    sender: Address,
    batch: Seq<CreateStreamParams>,
    n: int,
)
    requires
        0 <= n <= batch.len(),
    ensures
        s.register_all(sender, batch, n).effects.len() >= s.effects.len(),
        forall|i: int|
            0 <= i < s.effects.len() ==> #[trigger] s.register_all(sender, batch, n).effects[i]
                == s.effects[i],
    decreases n,
{
    if n > 0 {
        lemma_effects_kept(s, sender, batch, n - 1);
    }
}

/// The identifiers depend on nothing but what was handed out before.
proof fn lemma_same_ids(
    s: ContractState,
    t: ContractState,
    sender: Address,
    batch: Seq<CreateStreamParams>,
    n: int,
)
    requires
        t.reservations == s.reservations,
        t.next_stream_id == s.next_stream_id,
    ensures
        s.register_all(sender, batch, n).reservations == t.register_all(
            sender,
            batch,
            n,
        ).reservations,
        s.register_all(sender, batch, n).next_stream_id == t.register_all(
            sender,
            batch,
            n,
        ).next_stream_id,
        s.register_all(sender, batch, n).fresh_id(sender) == t.register_all(
            sender,
            batch,
            n,
        ).fresh_id(sender),
    decreases n,
{
    if n > 0 {
        lemma_same_ids(s, t, sender, batch, n - 1);
    }
}

/// The next identifier names no stream and no offer, and is on no list.
pub proof fn lemma_fresh_id(s: ContractState, who: Address)
    requires
        s.wf(),
    ensures
        !s.streams.dom().contains(s.fresh_id(who)),
        !s.offers.dom().contains(s.fresh_id(who)),
        forall|w: Address|
            !(#[trigger] crate::state::listed(s.recipient_offers, w)).contains(s.fresh_id(who))
                && crate::index::ascending(crate::state::listed(s.recipient_offers, w)),
        forall|w: Address|
            crate::index::ascending(#[trigger] crate::state::listed(s.recipient_streams, w)),
{
    reveal(crate::state::registry_ok);
    if s.reservations.dom().contains(who) {
        assert(crate::state::id_held(s.reservations[who], s.fresh_id(who)));
    }
    assert(!crate::state::id_taken(s.reservations, s.next_stream_id, s.fresh_id(who)));
}

/// An offer can be taken back by its sender, and by nobody else, at any time,
/// and be rejected by the one it is made to. Either way the sender gets back
/// exactly what was paid for it, nothing else moves, and the offer leaves no
/// trace in streams, offers, lists and books.
pub proof fn law_dropped_offer_refunds_all(
    s: ContractState,
    call: Call,
    sender: Address,
    params: CreateStreamParams,
    expiry: Option<u64>,
    by: Address,
    later: Call,
)
    requires
        s.wf(),
        s.create_offer_error(call, sender, params, expiry) is None,
    ensures
        ({
            let id = s.fresh_id(sender);
            let t = s.create_offer_step(call, sender, params, expiry);
            let u = t.drop_offer_step(id, by);
            let n = s.effects.len() as int;
            &&& t.offers.dom().contains(id)
            &&& later.authorised(by) ==> t.cancel_offer_error(later, by, id) == if by == sender {
                None
            } else {
                Some(ContractError::OfferWrongSender)
            }
            &&& later.authorised(by) && !t.emergency_paused ==> t.reject_offer_error(
                later,
                by,
                id,
            ) == if by == params.recipient {
                None
            } else {
                Some(ContractError::OfferWrongRecipient)
            }
            &&& u.effects.len() == n + 4
            &&& u.effects.take(n) == s.effects
            &&& u.effects[n] == (Effect::Pull { from: sender, amount: params.deposit_amount })
            &&& u.effects[n + 1] is Emit
            &&& u.effects[n + 2] == (Effect::Push { to: sender, amount: params.deposit_amount })
            &&& u.effects[n + 3] is Emit
            &&& u.streams == s.streams
            &&& !u.streams.dom().contains(id)
            &&& u.offers == s.offers
            &&& !u.offers.dom().contains(id)
            &&& u.recipient_streams == s.recipient_streams
            &&& u.sender_streams == s.sender_streams
            &&& forall|who: Address|
                #[trigger] crate::state::listed(u.recipient_offers, who) == crate::state::listed(
                    s.recipient_offers,
                    who,
                )
            &&& u.total_liabilities == s.total_liabilities
        }),
{
    lemma_fresh_id(s, sender);
    let id = s.fresh_id(sender);
    let t = s.create_offer_step(call, sender, params, expiry);
    let u = t.drop_offer_step(id, by);
    assert(t.offers.remove(id) =~= s.offers);
    assert(u.effects.take(s.effects.len() as int) =~= s.effects);
    let list = crate::state::listed(s.recipient_offers, params.recipient);
    crate::index::lemma_with_id(list, id);
    crate::index::lemma_rank(list, id);
    let longer = crate::index::with_id(list, id);
    let n = crate::index::rank(list, id);
    crate::index::lemma_rank_unique(longer, id, n);
    assert(longer.remove(n) =~= list);
}

/// Who signs gets an offer only while it is pending, made to them, and not
/// expired; once accepted it cannot be accepted again.
pub proof fn law_offer_acceptance_refused(
    s: ContractState,
    call: Call,
    recipient: Address,
    id: u64,
    again: Call,
    other: Address,
)
    requires
        s.wf(),
        call.authorised(recipient),
        !s.emergency_paused,
    ensures
        ({
            let e = s.accept_offer_error(call, recipient, id);
            let offer = s.offers[id];
            let pending = s.offers.dom().contains(id);
            let expired = offer.expiry_time is Some && call.timestamp > offer.expiry_time->0;
            &&& e == Some(ContractError::OfferNotFound) <==> !pending
            &&& e == Some(ContractError::OfferWrongRecipient) <==> pending && offer.recipient
                != recipient
            &&& e == Some(ContractError::OfferExpired) <==> pending && offer.recipient == recipient
                && expired
            &&& pending ==> !s.streams.dom().contains(id)
            &&& e is None && again.authorised(other) ==> s.accept_offer_step(
                call,
                id,
            ).accept_offer_error(again, other, id) == Some(ContractError::OfferNotFound)
        }),
{
    if s.offers.dom().contains(id) {
        crate::registry::lemma_stored_offer(s, id);
    }
}

/// An accepted offer becomes a stream on its terms, which starts no earlier
/// than now or than was offered, and whose cliff and end move along.
pub proof fn law_accepted_offer_keeps_terms(
    s: ContractState,
    call: Call,
    recipient: Address,
    id: u64,
)
    requires
        s.wf(),
        s.accept_offer_error(call, recipient, id) is None,
    ensures
        ({
            let offer = s.offers[id];
            let t = s.accept_offer_step(call, id);
            let stream = t.streams[id];
            &&& stream.start_time >= call.timestamp
            &&& stream.start_time >= offer.start_time
            &&& offer.start_time >= call.timestamp ==> stream.start_time == offer.start_time
            &&& stream.end_time - stream.start_time == offer.end_time - offer.start_time
            &&& stream.cliff_time - stream.start_time == offer.cliff_time - offer.start_time
            &&& stream.sender == offer.sender
            &&& stream.recipient == recipient
            &&& stream.deposit_amount == offer.deposit_amount
            &&& stream.rate_per_second == offer.rate_per_second
            &&& stream.withdrawn_amount == 0
            &&& !t.offers.dom().contains(id)
        }),
{
    crate::registry::lemma_stored_offer(s, id);
}

/// A delegation makes one stream, for the new recipient, which takes over the
/// stated part of the rate, rounded down, and of the deposit what the parent
/// does not keep. The parent stays as it is otherwise, and keeps what it has
/// earned; no tokens move, and what is owed stays the same.
pub proof fn law_delegation_splits_stream(
    s: ContractState,
    call: Call,
    id: u64,
    recipient: Address,
    share_bps: u32,
    new_recipient: Address,
)
    requires
        s.wf(),
        s.delegate_error(call, id, recipient, share_bps, new_recipient) is None,
    ensures
        ({
            let p = s.streams[id];
            let t = s.delegate_step(call, id, share_bps, new_recipient);
            let child_id = s.fresh_id(p.sender);
            let q = t.streams[id];
            let c = t.streams[child_id];
            let now = call.timestamp as int;
            &&& !s.streams.dom().contains(child_id)
            &&& t.streams.dom() == s.streams.dom().insert(child_id)
            &&& forall|x: u64|
                #![trigger t.streams[x]]
                s.streams.dom().contains(x) && x != id ==> t.streams[x] == s.streams[x]
            &&& c.rate_per_second == p.rate_per_second * share_bps / 10_000
            &&& q.rate_per_second + c.rate_per_second == p.rate_per_second
            &&& q.rate_per_second > 0
            &&& c.rate_per_second > 0
            &&& q.deposit_amount + c.deposit_amount == p.deposit_amount
            &&& q.deposit_amount >= 0
            &&& c.deposit_amount >= 0
            &&& q.spec_accrued_at(now) == p.spec_accrued_at(now)
            &&& q == (Stream {
                rate_per_second: q.rate_per_second,
                deposit_amount: q.deposit_amount,
                checkpointed_amount: q.checkpointed_amount,
                checkpointed_at: q.checkpointed_at,
                ..p
            })
            &&& c.withdrawn_amount == 0
            &&& c.end_time == p.end_time
            &&& c.recipient == new_recipient
            &&& c.sender == p.sender
            &&& c.parent_stream_id == Some(id)
            &&& crate::state::listed(t.recipient_streams, new_recipient).contains(child_id)
            &&& t.effects.len() == s.effects.len() + 1
            &&& t.effects.take(s.effects.len() as int) == s.effects
            &&& t.effects.last() is Emit
            &&& t.total_liabilities == s.total_liabilities
        }),
{
    let p = s.streams[id];
    let t = s.delegate_step(call, id, share_bps, new_recipient);
    let child_id = s.fresh_id(p.sender);
    lemma_fresh_id(s, p.sender);
    crate::registry::lemma_stored_stream(s, id);
    let rate = (p.rate_per_second - p.spec_child_rate(share_bps)) as i128;
    crate::laws::accrual::law_rate_decrease_safe(p, call.timestamp, rate);
    assert(t.streams.dom() =~= s.streams.dom().insert(child_id));
    assert(t.effects.take(s.effects.len() as int) =~= s.effects);
    crate::index::lemma_with_id(
        crate::state::listed(s.recipient_streams, new_recipient),
        child_id,
    );
}

/// A renewed stream has the terms of the old one, from now on.
pub proof fn law_renewal_keeps_terms(
    s: ContractState,
    call: Call,
    id: u64,
    balance: i128,
    allowance: i128,
)
    requires
        s.wf(),
        s.renew_error(call, id, balance, allowance) is None,
    ensures
        ({
            let old_stream = s.streams[id];
            let new_id = s.fresh_id(old_stream.sender);
            let t = s.renew_step(call, id);
            let stream = t.streams[new_id];
            &&& new_id != id
            &&& t.streams[id] == old_stream
            &&& stream.start_time == call.timestamp
            &&& stream.end_time - stream.start_time == old_stream.end_time - old_stream.start_time
            &&& stream.cliff_time - stream.start_time == old_stream.cliff_time
                - old_stream.start_time
            &&& stream.sender == old_stream.sender
            &&& stream.recipient == old_stream.recipient
            &&& stream.deposit_amount == old_stream.deposit_amount
            &&& stream.status == StreamStatus::Active
            &&& !t.renews(id)
            &&& t.renews(new_id)
        }),
{
    crate::registry::lemma_stored_stream(s, id);
    lemma_fresh_id(s, s.streams[id].sender);
}

/// A stream that is made after another one has its sender, rate and kind, and
/// the same time from start to cliff.
pub proof fn law_clone_keeps_terms(
    s: ContractState,
    call: Call,
    id: u64,
    new_recipient: Address,
    start_time: u64,
    end_time: u64,
    deposit: i128,
    force: bool,
)
    requires
        s.wf(),
        s.clone_error(call, id, new_recipient, start_time, end_time, deposit, force) is None,
    ensures
        ({
            let source = s.streams[id];
            let new_id = s.fresh_id(source.sender);
            let t = s.clone_step(id, new_recipient, start_time, end_time, deposit);
            let stream = t.streams[new_id];
            &&& new_id != id
            &&& t.streams[id] == source
            &&& stream.sender == source.sender
            &&& stream.recipient == new_recipient
            &&& stream.kind == source.kind
            &&& stream.deposit_amount == deposit
            &&& stream.start_time == start_time
            &&& stream.end_time == end_time
            &&& stream.cliff_time - stream.start_time == source.cliff_time - source.start_time
            &&& stream.withdraw_dust_threshold == source.withdraw_dust_threshold
            &&& stream.memo == source.memo
            &&& stream.metadata == source.metadata
            &&& stream.withdrawn_amount == 0
        }),
{
    crate::registry::lemma_stored_stream(s, id);
    lemma_fresh_id(s, s.streams[id].sender);
}

/// The history of a stream keeps the latest rotations, and no more of them
/// than its limit.
pub proof fn law_history_is_bounded(history: Seq<RotationEntry>, entry: RotationEntry)
    requires
        history.len() <= crate::recipients::MAX_ROTATION_HISTORY,
    ensures
        ({
            let after = crate::recipients::with_rotation(history, entry);
            &&& after.len() <= crate::recipients::MAX_ROTATION_HISTORY
            &&& after.last() == entry
            &&& history.len() < crate::recipients::MAX_ROTATION_HISTORY ==> after.drop_last()
                == history
            &&& history.len() == crate::recipients::MAX_ROTATION_HISTORY ==> after.drop_last()
                == history.drop_first()
        }),
{
}

} // verus!
