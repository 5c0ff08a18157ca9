//! Sums over all stored streams.

use crate::state::FluxoraStream;
use crate::types::Stream;
use vstd::prelude::*;

verus! {

/// The sum of a quantity over all streams.
pub open spec fn total(streams: Map<u64, Stream>, f: spec_fn(Stream) -> int) -> int
    decreases streams.dom().len(),
    when streams.dom().finite()
{
    if streams.dom().len() == 0 {
        0
    } else {
        let id = streams.dom().choose();
        f(streams[id]) + total(streams.remove(id), f)
    }
}

/// Every contract stores finitely many streams, so that the sums exist.
pub proof fn law_streams_are_finite(contract: &FluxoraStream)
    ensures
        contract@.streams.dom().finite(),
{
    contract.streams.lemma_finite();
}

/// Any stream can be taken out of the sum.
pub proof fn lemma_take_out(streams: Map<u64, Stream>, f: spec_fn(Stream) -> int, id: u64)
    requires
        streams.dom().finite(),
        streams.dom().contains(id),
    ensures
        total(streams, f) == f(streams[id]) + total(streams.remove(id), f),
    decreases streams.dom().len(),
{
    let c = streams.dom().choose();
    assert(streams.dom().len() > 0) by {
        if streams.dom().len() == 0 {
            assert(streams.dom() =~= Set::empty());
        }
    }
    if c != id {
        assert(streams.dom().contains(c));
        lemma_take_out(streams.remove(c), f, id);
        lemma_take_out(streams.remove(id), f, c);
        assert(streams.remove(c).remove(id) =~= streams.remove(id).remove(c));
    }
}

/// Storing a stream adds its part, and takes out that of the stream that it
/// replaces.
pub proof fn lemma_store(streams: Map<u64, Stream>, f: spec_fn(Stream) -> int, id: u64, b: Stream)
    requires
        streams.dom().finite(),
    ensures
        streams.insert(id, b).dom().finite(),
        total(streams.insert(id, b), f) == total(streams, f) + f(b) - if streams.dom().contains(
            id,
        ) {
            f(streams[id])
        } else {
            0
        },
{
    lemma_take_out(streams.insert(id, b), f, id);
    assert(streams.insert(id, b).remove(id) =~= streams.remove(id));
    if streams.dom().contains(id) {
        lemma_take_out(streams, f, id);
    } else {
        assert(streams.remove(id) =~= streams);
    }
}

/// A sum of parts that are not negative is no less than any of them.
pub proof fn lemma_no_less(streams: Map<u64, Stream>, f: spec_fn(Stream) -> int, id: u64)
    requires
        streams.dom().finite(),
        streams.dom().contains(id),
        forall|x: u64| #[trigger] streams.dom().contains(x) ==> f(streams[x]) >= 0,
    ensures
        total(streams, f) >= f(streams[id]),
{
    lemma_take_out(streams, f, id);
    lemma_not_negative(streams.remove(id), f);
}

/// A sum of parts that are not negative is not negative.
pub proof fn lemma_not_negative(streams: Map<u64, Stream>, f: spec_fn(Stream) -> int)
    requires
        streams.dom().finite(),
        forall|x: u64| #[trigger] streams.dom().contains(x) ==> f(streams[x]) >= 0,
    ensures
        total(streams, f) >= 0,
    decreases streams.dom().len(),
{
    if streams.dom().len() > 0 {
        let c = streams.dom().choose();
        assert(streams.dom().contains(c));
        lemma_not_negative(streams.remove(c), f);
    }
}

/// A sum of parts of at most one is no more than the number of streams.
pub proof fn lemma_at_most_count(streams: Map<u64, Stream>, f: spec_fn(Stream) -> int)
    requires
        streams.dom().finite(),
        forall|x: u64| #[trigger] streams.dom().contains(x) ==> f(streams[x]) <= 1,
    ensures
        total(streams, f) <= streams.dom().len(),
    decreases streams.dom().len(),
{
    if streams.dom().len() > 0 {
        let c = streams.dom().choose();
        assert(streams.dom().contains(c));
        lemma_at_most_count(streams.remove(c), f);
    }
}

/// There are no more identifiers below a bound than the bound says.
pub proof fn lemma_bounded_ids(ids: Set<u64>, bound: nat)
    requires
        ids.finite(),
        bound <= u64::MAX,
        forall|x: u64| #[trigger] ids.contains(x) ==> x < bound,
    ensures
        ids.len() <= bound,
    decreases bound,
{
    if bound == 0 {
        assert(ids =~= Set::empty());
    } else {
        let last = (bound - 1) as u64;
        lemma_bounded_ids(ids.remove(last), (bound - 1) as nat);
    }
}

} // verus!
