//! Reading page by page shows everything once, in order.

use crate::state::ContractState;
use crate::types::{Address, Stream};
use crate::views::Standing;
use vstd::prelude::*;

verus! {

/// What is read from a list in at most `pages` pages, starting at a cursor.
pub open spec fn read_out(list: Seq<u64>, cursor: u64, limit: int, pages: nat) -> Seq<u64>
    decreases pages,
{
    if pages == 0 {
        Seq::empty()
    } else {
        let next = crate::views::page_next(list, cursor, limit);
        crate::views::page_ids(list, cursor, limit) + if next == 0 {
            Seq::empty()
        } else {
            read_out(list, next, limit, (pages - 1) as nat)
        }
    }
}

/// A page holds no more than its limit, the next one starts where it ends, and
/// there is no next one just when the list is read to its end.
pub proof fn law_next_page_follows(list: Seq<u64>, cursor: u64, limit: int)
    requires
        crate::index::ascending(list),
        limit > 0,
    ensures
        crate::views::page_ids(list, cursor, limit).len() <= limit,
        crate::views::page_next(list, cursor, limit) == 0 <==> crate::views::page_end(
            list,
            cursor,
            limit,
        ) == list.len(),
        crate::views::page_next(list, cursor, limit) != 0 ==> crate::views::page_start(
            list,
            crate::views::page_next(list, cursor, limit),
        ) == crate::views::page_end(list, cursor, limit),
{
    crate::index::lemma_rank(list, cursor);
    let end = crate::views::page_end(list, cursor, limit);
    if end < list.len() {
        assert(list[0] < list[end]);
        crate::index::lemma_rank_unique(list, list[end], end);
    }
}

/// Enough pages show all that a list holds from the cursor on.
pub proof fn law_pages_cover_list(list: Seq<u64>, cursor: u64, limit: int, pages: nat)
    requires
        crate::index::ascending(list),
        limit > 0,
        pages > 0,
        pages * limit >= list.len() - crate::views::page_start(list, cursor),
    ensures
        read_out(list, cursor, limit, pages) == list.subrange(
            crate::views::page_start(list, cursor),
            list.len() as int,
        ),
    decreases pages,
{
    law_next_page_follows(list, cursor, limit);
    crate::index::lemma_rank(list, cursor);
    let start = crate::views::page_start(list, cursor);
    let end = crate::views::page_end(list, cursor, limit);
    let next = crate::views::page_next(list, cursor, limit);
    if next != 0 {
        assert((pages - 1) * limit == pages * limit - limit) by (nonlinear_arith);
        assert(pages > 1) by {
            if pages == 1 {
                assert(pages * limit == limit) by (nonlinear_arith)
                    requires
                        pages == 1,
                ;
            }
        }
        law_pages_cover_list(list, next, limit, (pages - 1) as nat);
        assert(list.subrange(start, end) + list.subrange(end, list.len() as int)
            =~= list.subrange(start, list.len() as int));
    }
}

/// A range of identifiers shows the stored streams in it, ascending, and no
/// more of them than the limit.
pub proof fn law_range_shows_stored(s: ContractState, from: int, to: int, n: nat)
    requires
        s.wf(),
        0 <= from,
        to <= u64::MAX,
    ensures
        ({
            let shown = crate::views::streams_between(s.streams, from, to, n);
            &&& shown.len() <= n
            &&& forall|i: int|
                0 <= i < shown.len() ==> {
                    &&& from <= (#[trigger] shown[i]).stream_id <= to
                    &&& s.streams.dom().contains(shown[i].stream_id)
                    &&& shown[i] == s.streams[shown[i].stream_id]
                }
            &&& forall|i: int, j: int|
                0 <= i < j < shown.len() ==> (#[trigger] shown[i]).stream_id < (
                #[trigger] shown[j]).stream_id
        }),
    decreases to - from + 1,
{
    if from <= to && n > 0 {
        if s.streams.dom().contains(from as u64) {
            crate::registry::lemma_stored_stream(s, from as u64);
            law_range_shows_stored(s, from + 1, to, (n - 1) as nat);
        } else {
            law_range_shows_stored(s, from + 1, to, n);
        }
    }
}

/// A range of identifiers leaves no stored stream out, if the limit is not
/// reached.
pub proof fn law_range_is_complete(s: ContractState, from: int, to: int, n: nat, id: u64)
    requires
        0 <= from <= id <= to <= u64::MAX,
        s.streams.dom().contains(id),
        crate::views::streams_between(s.streams, from, to, n).len() < n,
    ensures
        crate::views::streams_between(s.streams, from, to, n).contains(s.streams[id]),
    decreases to - from + 1,
{
    let shown = crate::views::streams_between(s.streams, from, to, n);
    if from == id {
        assert(shown[0] == s.streams[id]);
    } else if s.streams.dom().contains(from as u64) {
        let rest = crate::views::streams_between(s.streams, from + 1, to, (n - 1) as nat);
        law_range_is_complete(s, from + 1, to, (n - 1) as nat, id);
        let i = choose|i: int| 0 <= i < rest.len() && rest[i] == s.streams[id];
        assert(shown[i + 1] == s.streams[id]);
    } else {
        law_range_is_complete(s, from + 1, to, n, id);
    }
}

/// Every stream of a report counts in exactly one way.
pub proof fn law_standings_add_up(s: ContractState, ids: Seq<u64>, now: u64)
    ensures
        s.count_standing(ids, now, Standing::Settled) + s.count_standing(
            ids,
            now,
            Standing::Expired,
        ) + s.count_standing(ids, now, Standing::Underfunded) + s.count_standing(
            ids,
            now,
            Standing::Healthy,
        ) == ids.len(),
    decreases ids.len(),
{
    if ids.len() > 0 {
        law_standings_add_up(s, ids.drop_last(), now);
    }
}

/// How many of the streams are active or paused.
pub open spec fn running_among(s: ContractState, ids: Seq<u64>) -> int
    decreases ids.len(),
{
    if ids.len() == 0 {
        0
    } else {
        running_among(s, ids.drop_last()) + if s.streams.dom().contains(ids.last())
            && s.streams[ids.last()].spec_running() {
            1int
        } else {
            0
        }
    }
}

/// The expired, the underfunded and the healthy streams of a report are its
/// active and paused ones.
pub proof fn law_running_streams_counted(s: ContractState, ids: Seq<u64>, now: u64)
    ensures
        s.count_standing(ids, now, Standing::Expired) + s.count_standing(
            ids,
            now,
            Standing::Underfunded,
        ) + s.count_standing(ids, now, Standing::Healthy) == running_among(s, ids),
    decreases ids.len(),
{
    if ids.len() > 0 {
        law_running_streams_counted(s, ids.drop_last(), now);
    }
}

/// A stream lacks funds if what is fixed and what the rate adds until the end
/// is more than the deposit.
pub proof fn law_underfunded_formula(stream: Stream)
    requires
        stream.sound(),
        stream.checkpointed_at <= stream.end_time,
        stream.deposit_amount < i128::MAX,
    ensures
        stream.spec_underfunded() <==> stream.checkpointed_amount + stream.rate_per_second * (
        stream.end_time - stream.checkpointed_at) > stream.deposit_amount,
{
    assert(stream.rate_per_second * 0 == 0) by (nonlinear_arith);
}

/// The report on a sender, read page by page from the start, shows every stream
/// of the sender that is stored, ascending, once, and no other; only a pooled
/// stream and one that comes of a delegation or of an accepted offer is left
/// out.
pub proof fn law_portfolio_is_complete(
    s: ContractState,
    apart: Set<u64>,
    sender: Address,
    limit: int,
    pages: nat,
    id: u64,
)
    requires
        s.wf(),
        crate::laws::lists::indexed(s, apart),
        0 < limit,
        pages > 0,
        pages * limit >= crate::state::listed(s.sender_streams, sender).len(),
    ensures
        ({
            let shown = read_out(
                crate::state::listed(s.sender_streams, sender),
                0,
                limit,
                pages,
            );
            &&& crate::index::ascending(shown)
            &&& shown.contains(id) ==> s.streams.dom().contains(id) && s.streams[id].sender
                == sender
            &&& s.streams.dom().contains(id) && s.streams[id].sender == sender
                && s.streams[id].is_pooled != Some(true) && !apart.contains(id)
                ==> shown.contains(id)
        }),
{
    let list = crate::state::listed(s.sender_streams, sender);
    crate::registry::lemma_lists_ascend(s, sender);
    law_pages_cover_list(list, 0, limit, pages);
    assert(list.subrange(0, list.len() as int) =~= list);
    assert(crate::laws::lists::on_list(s.sender_streams, sender, id) == list.contains(id));
}

} // verus!
