//! Why the operations keep streams, offers, indexes and identifiers in step.

use crate::state::ContractState;
use crate::types::{Address, IdReservation, Stream, StreamOffer};
use vstd::prelude::*;

verus! {

impl ContractState {
    /// The next stream of `who` can get an identifier.
    pub open spec fn has_id_for(self, who: Address) -> bool {
        self.reservations.dom().contains(who) || self.next_stream_id < u64::MAX
    }

    /// Nothing in the state uses `id`.
    pub open spec fn unused(self, id: u64) -> bool {
        &&& !self.streams.dom().contains(id)
        &&& !self.offers.dom().contains(id)
        &&& forall|who: Address| #![trigger self.recipient_streams.dom().contains(who)]
            self.recipient_streams.dom().contains(who) ==> !self.recipient_streams[who].contains(id)
        &&& forall|who: Address| #![trigger self.sender_streams.dom().contains(who)]
            self.sender_streams.dom().contains(who) ==> !self.sender_streams[who].contains(id)
        &&& forall|who: Address| #![trigger self.recipient_offers.dom().contains(who)]
            self.recipient_offers.dom().contains(who) ==> !self.recipient_offers[who].contains(id)
        &&& forall|x: u64| #![trigger self.streams.dom().contains(x)]
            self.streams.dom().contains(x) ==> self.streams[x].parent_stream_id != Some(id)
    }

    /// The parent that a stream names comes before it.
    pub open spec fn descends(self, stream: Stream) -> bool {
        crate::state::lineage_ok(
            self.streams,
            self.offers,
            self.reservations,
            self.next_stream_id,
            stream,
        )
    }
}

/// The blank state is in order.
pub proof fn lemma_blank()
    ensures
        ContractState::blank().wf(),
{
    reveal(crate::state::registry_ok);
    reveal(crate::state::templates_ok);
    reveal(crate::state::pools_ok);
    reveal(crate::state::nothing_stored);
}

/// What is known of a stored stream.
pub proof fn lemma_stored_stream(s: ContractState, id: u64)
    requires
        s.wf(),
        s.streams.dom().contains(id),
    ensures
        s.streams[id].sound(),
        s.streams[id].stream_id == id,
        s.taken(id),
        !s.offers.dom().contains(id),
        s.descends(s.streams[id]),
        s.config is Some,
{
    reveal(crate::state::registry_ok);
    reveal(crate::state::nothing_stored);
    if s.offers.dom().contains(id) {
        assert(!s.streams.dom().contains(id));
    }
}

/// What is known of a stored offer.
pub proof fn lemma_stored_offer(s: ContractState, id: u64)
    requires
        s.wf(),
        s.offers.dom().contains(id),
    ensures
        crate::state::offer_sound(s.offers[id]),
        s.offers[id].offer_id == id,
        s.taken(id),
        !s.streams.dom().contains(id),
        s.config is Some,
{
    reveal(crate::state::registry_ok);
    reveal(crate::state::nothing_stored);
}

/// The lists of an address ascend.
pub proof fn lemma_lists_ascend(s: ContractState, who: Address)
    requires
        s.wf(),
    ensures
        crate::index::ascending(crate::state::listed(s.recipient_streams, who)),
        crate::index::ascending(crate::state::listed(s.sender_streams, who)),
        crate::index::ascending(crate::state::listed(s.recipient_offers, who)),
        crate::index::ascending(crate::state::listed(s.owner_templates, who)),
{
    reveal(crate::state::registry_ok);
    reveal(crate::state::templates_ok);
}

/// A reservation holds an identifier back.
pub proof fn lemma_stored_reservation(s: ContractState, who: Address)
    requires
        s.wf(),
        s.reservations.dom().contains(who),
    ensures
        s.reservations[who].consumed < s.reservations[who].count,
        s.reservations[who].start_id + s.reservations[who].count <= s.next_stream_id,
{
    reveal(crate::state::registry_ok);
}

/// A fresh identifier is unused, and taken once it was handed out.
pub proof fn lemma_take_id(s: ContractState, who: Address)
    requires
        s.wf(),
        s.has_id_for(who),
    ensures
        s.take_id(who).wf(),
        s.unused(s.fresh_id(who)),
        s.take_id(who).unused(s.fresh_id(who)),
        s.take_id(who).taken(s.fresh_id(who)),
{
    reveal(crate::state::registry_ok);
    let t = s.take_id(who);
    let id = s.fresh_id(who);
    if s.reservations.dom().contains(who) {
        let res = s.reservations[who];
        assert(crate::state::id_held(res, id));
        assert(!s.taken(id));
        assert forall|x: u64| s.taken(x) implies t.taken(x) by {
            assert forall|w: Address| #[trigger]
                t.reservations.dom().contains(w) implies !crate::state::id_held(
                t.reservations[w],
                x,
            ) by {
                assert(s.reservations.dom().contains(w));
                assert(!crate::state::id_held(s.reservations[w], x));
            }
        }
        assert forall|w: Address| #[trigger]
            t.reservations.dom().contains(w) implies !crate::state::id_held(t.reservations[w], id) by {
            assert(s.reservations.dom().contains(w));
            if w != who {
                assert(!crate::state::id_held(s.reservations[w], id));
            }
        }
        assert(t.taken(id));
        assert forall|a: Address, b: Address, x: u64| #[trigger]
            t.reservations.dom().contains(a) && #[trigger] t.reservations.dom().contains(b) && a
                != b && #[trigger] crate::state::id_held(
                t.reservations[a],
                x,
            ) implies !crate::state::id_held(t.reservations[b], x) by {
            assert(s.reservations.dom().contains(a));
            assert(s.reservations.dom().contains(b));
            assert(crate::state::id_held(s.reservations[a], x));
            assert(!crate::state::id_held(s.reservations[b], x));
        }
    } else {
        assert(!s.taken(id));
        assert forall|w: Address| #[trigger]
            t.reservations.dom().contains(w) implies !crate::state::id_held(t.reservations[w], id) by {
            assert(s.reservations.dom().contains(w));
        }
        assert(t.taken(id));
        assert forall|x: u64| s.taken(x) implies t.taken(x) by {}
    }
    assert(s.unused(id));
    lemma_registry_monotone(s, t);
}

/// Fewer identifiers may be handed out later: the rest of the registry stays
/// in order.
proof fn lemma_registry_monotone(s: ContractState, t: ContractState)
    requires
        s.wf(),
        t.streams == s.streams,
        t.offers == s.offers,
        t.recipient_streams == s.recipient_streams,
        t.sender_streams == s.sender_streams,
        t.recipient_offers == s.recipient_offers,
        t.templates == s.templates,
        t.owner_templates == s.owner_templates,
        t.next_template_id == s.next_template_id,
        t.pool_shares == s.pool_shares,
        t.pool_withdrawn == s.pool_withdrawn,
        t.config == s.config,
        forall|x: u64| s.taken(x) ==> t.taken(x),
        forall|who: Address| #[trigger]
            t.reservations.dom().contains(who) ==> {
                &&& t.reservations[who].consumed < t.reservations[who].count
                &&& t.reservations[who].start_id + t.reservations[who].count <= t.next_stream_id
            },
        forall|a: Address, b: Address, id: u64| #[trigger]
            t.reservations.dom().contains(a) && #[trigger] t.reservations.dom().contains(b) && a
                != b && #[trigger] crate::state::id_held(t.reservations[a], id)
                ==> !crate::state::id_held(t.reservations[b], id),
    ensures
        t.wf(),
{
    reveal(crate::state::registry_ok);
    assert forall|id: u64| s.taken(id) implies #[trigger] crate::state::id_taken(
        t.reservations,
        t.next_stream_id,
        id,
    ) by {
        assert(t.taken(id));
    }
    assert forall|id: u64| #[trigger] t.streams.dom().contains(id) implies t.taken(id) by {
        assert(s.streams.dom().contains(id));
        assert(s.taken(id));
    }
    assert forall|id: u64| #[trigger] t.streams.dom().contains(id) implies t.descends(
        t.streams[id],
    ) by {
        assert(s.streams.dom().contains(id));
        if let Some(parent) = s.streams[id].parent_stream_id {
            assert(s.taken(parent));
        }
    }
    assert forall|id: u64| #[trigger] t.offers.dom().contains(id) implies t.taken(id) by {
        assert(s.offers.dom().contains(id));
        assert(s.taken(id));
    }
    assert forall|who: Address, id: u64|
        t.recipient_streams.dom().contains(who) && #[trigger] t.recipient_streams[who].contains(
            id,
        ) implies t.taken(id) by {
        assert(s.taken(id));
    }
    assert forall|who: Address, id: u64|
        t.sender_streams.dom().contains(who) && #[trigger] t.sender_streams[who].contains(
            id,
        ) implies t.taken(id) by {
        assert(s.taken(id));
    }
    assert forall|who: Address, id: u64|
        t.recipient_offers.dom().contains(who) && #[trigger] t.recipient_offers[who].contains(
            id,
        ) implies t.taken(id) by {
        assert(s.taken(id));
    }
}

/// Setting identifiers aside keeps the registry in order.
pub proof fn lemma_reserve(s: ContractState, who: Address, res: IdReservation)
    requires
        s.wf(),
        !s.reservations.dom().contains(who),
        res.start_id == s.next_stream_id,
        res.consumed == 0,
        res.count > 0,
        s.next_stream_id + res.count <= u64::MAX,
    ensures
        (ContractState {
            reservations: s.reservations.insert(who, res),
            next_stream_id: (s.next_stream_id + res.count) as u64,
            ..s
        }).wf(),
{
    reveal(crate::state::registry_ok);
    let t = ContractState {
        reservations: s.reservations.insert(who, res),
        next_stream_id: (s.next_stream_id + res.count) as u64,
        ..s
    };
    assert forall|x: u64| s.taken(x) implies t.taken(x) by {
        assert forall|w: Address| #[trigger]
            t.reservations.dom().contains(w) implies !crate::state::id_held(t.reservations[w], x) by {
            if w != who {
                assert(s.reservations.dom().contains(w));
            }
        }
    }
    assert forall|a: Address, b: Address, x: u64| #[trigger]
        t.reservations.dom().contains(a) && #[trigger] t.reservations.dom().contains(b) && a != b
            && #[trigger] crate::state::id_held(
            t.reservations[a],
            x,
        ) implies !crate::state::id_held(t.reservations[b], x) by {
        if a != who && b != who {
            assert(s.reservations.dom().contains(a));
            assert(s.reservations.dom().contains(b));
            assert(crate::state::id_held(s.reservations[a], x));
        } else if a == who {
            assert(s.reservations.dom().contains(b));
        } else {
            assert(s.reservations.dom().contains(a));
        }
    }
    lemma_registry_monotone(s, t);
}

/// Giving identifiers back keeps the registry in order; those at the end of
/// the range may be handed out again.
pub proof fn lemma_release(s: ContractState, who: Address)
    requires
        s.wf(),
        s.reservations.dom().contains(who),
    ensures
        ({
            let res = s.reservations[who];
            &&& (ContractState { reservations: s.reservations.remove(who), ..s }).wf()
            &&& res.start_id + res.count == s.next_stream_id ==> (ContractState {
                reservations: s.reservations.remove(who),
                next_stream_id: (res.start_id + res.consumed) as u64,
                ..s
            }).wf()
        }),
{
    reveal(crate::state::registry_ok);
    let res = s.reservations[who];
    let t = ContractState { reservations: s.reservations.remove(who), ..s };
    assert forall|x: u64| s.taken(x) implies t.taken(x) by {
        assert forall|w: Address| #[trigger]
            t.reservations.dom().contains(w) implies !crate::state::id_held(t.reservations[w], x) by {
            assert(s.reservations.dom().contains(w));
        }
    }
    assert forall|a: Address, b: Address, x: u64| #[trigger]
        t.reservations.dom().contains(a) && #[trigger] t.reservations.dom().contains(b) && a != b
            && #[trigger] crate::state::id_held(
            t.reservations[a],
            x,
        ) implies !crate::state::id_held(t.reservations[b], x) by {
        assert(s.reservations.dom().contains(a));
        assert(s.reservations.dom().contains(b));
        assert(crate::state::id_held(s.reservations[a], x));
    }
    lemma_registry_monotone(s, t);
    if res.start_id + res.count == s.next_stream_id {
        let u = ContractState {
            reservations: s.reservations.remove(who),
            next_stream_id: (res.start_id + res.consumed) as u64,
            ..s
        };
        assert forall|x: u64| s.taken(x) implies u.taken(x) by {
            assert(s.reservations.dom().contains(who));
            assert(!crate::state::id_held(res, x));
            assert(t.taken(x));
            assert forall|w: Address| #[trigger]
                u.reservations.dom().contains(w) implies !crate::state::id_held(
                u.reservations[w],
                x,
            ) by {
                assert(t.reservations.dom().contains(w));
            }
        }
        assert forall|w: Address| #[trigger] u.reservations.dom().contains(w) implies {
            &&& u.reservations[w].consumed < u.reservations[w].count
            &&& u.reservations[w].start_id + u.reservations[w].count <= u.next_stream_id
        } by {
            assert(s.reservations.dom().contains(w));
            let other = s.reservations[w];
            if other.start_id + other.count > res.start_id + res.consumed {
                let last = (other.start_id + other.count - 1) as u64;
                assert(crate::state::id_held(other, last));
                assert(s.reservations.dom().contains(who));
                assert(!crate::state::id_held(res, last));
            }
        }
        assert forall|a: Address, b: Address, x: u64| #[trigger]
            u.reservations.dom().contains(a) && #[trigger] u.reservations.dom().contains(b) && a
                != b && #[trigger] crate::state::id_held(
                u.reservations[a],
                x,
            ) implies !crate::state::id_held(u.reservations[b], x) by {
            assert(s.reservations.dom().contains(a));
            assert(s.reservations.dom().contains(b));
            assert(crate::state::id_held(s.reservations[a], x));
        }
        lemma_registry_monotone(s, u);
    }
}

/// Storing a stream keeps the registry in order, if the indexes that name it
/// name it for its own parties.
pub proof fn lemma_put(s: ContractState, stream: Stream)
    requires
        s.wf(),
        s.config is Some,
        stream.sound(),
        s.taken(stream.stream_id),
        !s.offers.dom().contains(stream.stream_id),
        s.descends(stream),
        stream.parent_stream_id != Some(stream.stream_id),
        forall|x: u64| #![trigger s.streams.dom().contains(x)]
            s.streams.dom().contains(x) && s.streams[x].parent_stream_id == Some(stream.stream_id)
                ==> stream.delegation_depth < s.streams[x].delegation_depth,
        forall|who: Address| #![trigger s.recipient_streams.dom().contains(who)]
            s.recipient_streams.dom().contains(who) && s.recipient_streams[who].contains(
                stream.stream_id,
            ) ==> who == stream.recipient,
        forall|who: Address| #![trigger s.sender_streams.dom().contains(who)]
            s.sender_streams.dom().contains(who) && s.sender_streams[who].contains(
                stream.stream_id,
            ) ==> who == stream.sender,
    ensures
        s.put(stream).wf(),
{
    reveal(crate::state::registry_ok);
}

/// Replacing a stream by one with the same parties keeps the registry in
/// order.
pub proof fn lemma_update(s: ContractState, stream: Stream)
    requires
        s.wf(),
        stream.sound(),
        s.streams.dom().contains(stream.stream_id),
        stream.sender == s.streams[stream.stream_id].sender,
        stream.recipient == s.streams[stream.stream_id].recipient,
        stream.parent_stream_id == s.streams[stream.stream_id].parent_stream_id,
        stream.delegation_depth == s.streams[stream.stream_id].delegation_depth,
    ensures
        s.put(stream).wf(),
{
    reveal(crate::state::registry_ok);
    lemma_stored_stream(s, stream.stream_id);
    lemma_put(s, stream);
}

/// Storing a stream under an unused identifier keeps the registry in order.
pub proof fn lemma_put_new(s: ContractState, stream: Stream)
    requires
        s.wf(),
        s.config is Some,
        stream.sound(),
        s.taken(stream.stream_id),
        s.unused(stream.stream_id),
        s.descends(stream),
        stream.parent_stream_id != Some(stream.stream_id),
    ensures
        s.put(stream).wf(),
{
    lemma_put(s, stream);
}

/// Removing a stream keeps the registry in order.
pub proof fn lemma_remove_stream(s: ContractState, id: u64)
    requires
        s.wf(),
    ensures
        (ContractState { streams: s.streams.remove(id), ..s }).wf(),
{
    reveal(crate::state::nothing_stored);
    reveal(crate::state::registry_ok);
}

proof fn lemma_enlist(
    lists: Map<Address, Seq<u64>>,
    held: spec_fn(Address, u64) -> bool,
    who: Address,
    id: u64,
)
    requires
        crate::state::lists_ok(lists, held),
        held(who, id),
    ensures
        crate::state::lists_ok(crate::state::enlist(lists, who, id), held),
{
    let before = crate::state::listed(lists, who);
    let after = crate::state::enlist(lists, who, id);
    assert(crate::index::ascending(before));
    crate::index::lemma_with_id(before, id);
    assert forall|w: Address, x: u64|
        after.dom().contains(w) && #[trigger] after[w].contains(x) implies held(w, x) by {
        if w == who {
            assert(before.contains(x) || x == id);
            if before.contains(x) {
                assert(lists.dom().contains(who));
                assert(lists[who].contains(x));
            }
        } else {
            assert(lists[w].contains(x));
        }
    }
}

proof fn lemma_delist(
    lists: Map<Address, Seq<u64>>,
    held: spec_fn(Address, u64) -> bool,
    who: Address,
    id: u64,
)
    requires
        crate::state::lists_ok(lists, held),
    ensures
        crate::state::lists_ok(crate::state::delist(lists, who, id), held),
        forall|w: Address, x: u64|
            #![trigger crate::state::delist(lists, who, id)[w].contains(x)]
            crate::state::delist(lists, who, id).dom().contains(w) && crate::state::delist(
                lists,
                who,
                id,
            )[w].contains(x) ==> lists.dom().contains(w) && lists[w].contains(x) && !(w == who && x
                == id),
{
    let before = crate::state::listed(lists, who);
    let after = crate::state::delist(lists, who, id);
    assert(crate::index::ascending(before));
    crate::index::lemma_without_id(before, id);
    assert forall|w: Address, x: u64| #![trigger after[w].contains(x)]
        after.dom().contains(w) && after[w].contains(x) implies lists.dom().contains(w)
        && lists[w].contains(x) && !(w == who && x == id) by {
        if before.contains(id) && w == who {
            assert(before.contains(x) && x != id);
        }
        if !before.contains(id) && w == who && x == id {
            assert(lists[w].contains(id));
            assert(before == lists[w]);
        }
    }
    assert forall|w: Address, x: u64|
        after.dom().contains(w) && #[trigger] after[w].contains(x) implies held(w, x) by {
        assert(lists[w].contains(x));
    }
}

/// Entering a stream for its recipient keeps the registry in order.
pub proof fn lemma_enlist_recipient(s: ContractState, who: Address, id: u64)
    requires
        s.wf(),
        s.config is Some,
        s.taken(id),
        !s.offers.dom().contains(id),
        s.streams.dom().contains(id) ==> s.streams[id].recipient == who,
    ensures
        (ContractState {
            recipient_streams: crate::state::enlist(s.recipient_streams, who, id),
            ..s
        }).wf(),
{
    reveal(crate::state::registry_ok);
    lemma_enlist(
        s.recipient_streams,
        |who: Address, id: u64|
            crate::state::id_taken(s.reservations, s.next_stream_id, id)
                && !s.offers.dom().contains(id) && (s.streams.dom().contains(id)
                ==> s.streams[id].recipient == who),
        who,
        id,
    );
}

/// Entering a stream for its sender keeps the registry in order.
pub proof fn lemma_enlist_sender(s: ContractState, who: Address, id: u64)
    requires
        s.wf(),
        s.config is Some,
        s.taken(id),
        !s.offers.dom().contains(id),
        s.streams.dom().contains(id) ==> s.streams[id].sender == who,
    ensures
        (ContractState {
            sender_streams: crate::state::enlist(s.sender_streams, who, id),
            ..s
        }).wf(),
{
    reveal(crate::state::registry_ok);
    lemma_enlist(
        s.sender_streams,
        |who: Address, id: u64|
            crate::state::id_taken(s.reservations, s.next_stream_id, id)
                && !s.offers.dom().contains(id) && (s.streams.dom().contains(id)
                ==> s.streams[id].sender == who),
        who,
        id,
    );
}

/// Entering an offer for its recipient keeps the registry in order.
pub proof fn lemma_enlist_offer(s: ContractState, who: Address, id: u64)
    requires
        s.wf(),
        s.config is Some,
        s.taken(id),
        s.offers.dom().contains(id) ==> s.offers[id].recipient == who,
    ensures
        (ContractState {
            recipient_offers: crate::state::enlist(s.recipient_offers, who, id),
            ..s
        }).wf(),
{
    reveal(crate::state::registry_ok);
    lemma_enlist(
        s.recipient_offers,
        |who: Address, id: u64|
            crate::state::id_taken(s.reservations, s.next_stream_id, id)
                && (s.offers.dom().contains(id) ==> s.offers[id].recipient == who),
        who,
        id,
    );
}

/// Striking a stream out for a recipient keeps the registry in order, and
/// leaves every other entry.
pub proof fn lemma_delist_recipient(s: ContractState, who: Address, id: u64)
    requires
        s.wf(),
    ensures
        ({
            let t = ContractState {
                recipient_streams: crate::state::delist(s.recipient_streams, who, id),
                ..s
            };
            &&& t.wf()
            &&& forall|w: Address, x: u64| #![trigger t.recipient_streams[w].contains(x)]
                t.recipient_streams.dom().contains(w) && t.recipient_streams[w].contains(x)
                    ==> s.recipient_streams.dom().contains(w) && s.recipient_streams[w].contains(x)
                    && !(w == who && x == id)
        }),
{
    reveal(crate::state::nothing_stored);
    reveal(crate::state::registry_ok);
    lemma_delist(
        s.recipient_streams,
        |who: Address, id: u64|
            crate::state::id_taken(s.reservations, s.next_stream_id, id)
                && !s.offers.dom().contains(id) && (s.streams.dom().contains(id)
                ==> s.streams[id].recipient == who),
        who,
        id,
    );
}

/// Striking a stream out for a sender keeps the registry in order.
pub proof fn lemma_delist_sender(s: ContractState, who: Address, id: u64)
    requires
        s.wf(),
    ensures
        (ContractState {
            sender_streams: crate::state::delist(s.sender_streams, who, id),
            ..s
        }).wf(),
{
    reveal(crate::state::nothing_stored);
    reveal(crate::state::registry_ok);
    lemma_delist(
        s.sender_streams,
        |who: Address, id: u64|
            crate::state::id_taken(s.reservations, s.next_stream_id, id)
                && !s.offers.dom().contains(id) && (s.streams.dom().contains(id)
                ==> s.streams[id].sender == who),
        who,
        id,
    );
}

/// Striking an offer out keeps the registry in order.
pub proof fn lemma_delist_offer(s: ContractState, who: Address, id: u64)
    requires
        s.wf(),
    ensures
        (ContractState {
            recipient_offers: crate::state::delist(s.recipient_offers, who, id),
            ..s
        }).wf(),
{
    reveal(crate::state::nothing_stored);
    reveal(crate::state::registry_ok);
    lemma_delist(
        s.recipient_offers,
        |who: Address, id: u64|
            crate::state::id_taken(s.reservations, s.next_stream_id, id)
                && (s.offers.dom().contains(id) ==> s.offers[id].recipient == who),
        who,
        id,
    );
}

/// Storing an offer under an unused identifier keeps the registry in order.
pub proof fn lemma_put_offer(s: ContractState, offer: StreamOffer)
    requires
        s.wf(),
        s.config is Some,
        crate::state::offer_sound(offer),
        s.taken(offer.offer_id),
        s.unused(offer.offer_id),
    ensures
        (ContractState { offers: s.offers.insert(offer.offer_id, offer), ..s }).wf(),
{
    reveal(crate::state::registry_ok);
}

/// Removing an offer keeps the registry in order, and leaves its identifier
/// to a stream.
pub proof fn lemma_remove_offer(s: ContractState, id: u64)
    requires
        s.wf(),
        s.offers.dom().contains(id),
    ensures
        ({
            let t = ContractState { offers: s.offers.remove(id), ..s };
            &&& t.wf()
            &&& t.taken(id)
            &&& !t.streams.dom().contains(id)
            &&& forall|who: Address| #![trigger t.recipient_streams.dom().contains(who)]
                t.recipient_streams.dom().contains(who) ==> !t.recipient_streams[who].contains(id)
            &&& forall|who: Address| #![trigger t.sender_streams.dom().contains(who)]
                t.sender_streams.dom().contains(who) ==> !t.sender_streams[who].contains(id)
            &&& forall|x: u64| #![trigger t.streams.dom().contains(x)]
                t.streams.dom().contains(x) ==> t.streams[x].parent_stream_id != Some(id)
        }),
{
    reveal(crate::state::nothing_stored);
    reveal(crate::state::registry_ok);
    let t = ContractState { offers: s.offers.remove(id), ..s };
    assert(s.taken(id));
    assert(t.taken(id));
    assert forall|who: Address|
        t.recipient_streams.dom().contains(who) implies !t.recipient_streams[who].contains(id) by {
        if s.recipient_streams[who].contains(id) {
            assert(!s.offers.dom().contains(id));
        }
    }
    assert forall|who: Address|
        t.sender_streams.dom().contains(who) implies !t.sender_streams[who].contains(id) by {
        if s.sender_streams[who].contains(id) {
            assert(!s.offers.dom().contains(id));
        }
    }
}

} // verus!
