//! What lists, pages, sums and messages hold.

use crate::state::ContractState;
use crate::types::{Address, PauseReason, PoolShare};
use crate::views::Standing;
use vstd::prelude::*;

verus! {

/// A page shows entries of its list that are no smaller than the cursor, in
/// order, and leaves out larger ones only if it is full; the next page starts
/// at the smallest of these, and is number nothing if there is none.
pub proof fn law_page_content(list: Seq<u64>, cursor: u64, limit: int, x: u64)
    requires
        crate::index::ascending(list),
        limit > 0,
    ensures
        ({
            let page = crate::views::page_ids(list, cursor, limit);
            let next = crate::views::page_next(list, cursor, limit);
            let later = list.contains(x) && cursor <= x && !page.contains(x);
            &&& crate::index::ascending(page)
            &&& page.contains(x) ==> list.contains(x) && cursor <= x
            &&& page.len() <= limit
            &&& later ==> page.len() == limit
            &&& later ==> !page.contains(next)
            &&& later ==> next <= x && list.contains(next) && cursor <= next
            &&& page.contains(x) && next != 0 ==> x < next
        }),
{
    crate::index::lemma_rank(list, cursor);
    let start = crate::views::page_start(list, cursor);
    let end = crate::views::page_end(list, cursor, limit);
    let page = crate::views::page_ids(list, cursor, limit);
    let next = crate::views::page_next(list, cursor, limit);
    assert(forall|i: int| 0 <= i < page.len() ==> page[i] == list[start + i]);
    if list.contains(x) && cursor <= x && !page.contains(x) {
        let k = choose|k: int| 0 <= k < list.len() && list[k] == x;
        if start <= k < end {
            assert(page[k - start] == x);
        }
        assert(end <= k);
        assert(list[end] == next);
    }
    if page.contains(next) && end < list.len() {
        let i = choose|i: int| 0 <= i < page.len() && page[i] == next;
        assert(list[start + i] < list[end]);
    }
}

/// A range of identifiers leaves a stored stream out only if it shows as many
/// as were asked for, all of them before it.
pub proof fn law_range_shows_first(s: ContractState, from: int, to: int, n: nat, id: u64)
    requires
        s.wf(),
        0 <= from <= id <= to <= u64::MAX,
        s.streams.dom().contains(id),
        !crate::views::streams_between(s.streams, from, to, n).contains(s.streams[id]),
    ensures
        ({
            let shown = crate::views::streams_between(s.streams, from, to, n);
            &&& shown.len() == n
            &&& forall|i: int| 0 <= i < n ==> (#[trigger] shown[i]).stream_id < id
        }),
    decreases to - from + 1,
{
    let shown = crate::views::streams_between(s.streams, from, to, n);
    if n > 0 {
        if s.streams.dom().contains(from as u64) {
            crate::registry::lemma_stored_stream(s, from as u64);
            let rest = crate::views::streams_between(s.streams, from + 1, to, (n - 1) as nat);
            assert(shown[0] == s.streams[from as u64]);
            assert(forall|i: int| 0 <= i < rest.len() ==> shown[i + 1] == rest[i]);
            if rest.contains(s.streams[id]) {
                let i = choose|i: int| 0 <= i < rest.len() && rest[i] == s.streams[id];
                assert(shown[i + 1] == s.streams[id]);
            }
            law_range_shows_first(s, from + 1, to, (n - 1) as nat, id);
            assert forall|i: int| 0 <= i < n implies (#[trigger] shown[i]).stream_id < id by {
                if i > 0 {
                    assert(shown[i] == rest[i - 1]);
                }
            }
        } else {
            law_range_shows_first(s, from + 1, to, n, id);
        }
    }
}

/// One more stream in a report counts once, in its own way.
pub proof fn law_count_goes_by_one(
    s: ContractState,
    ids: Seq<u64>,
    id: u64,
    now: u64,
    standing: Standing,
)
    ensures
        s.count_standing(Seq::empty(), now, standing) == 0,
        s.count_standing(ids.push(id), now, standing) == s.count_standing(ids, now, standing)
            + if s.standing(id, now) == standing {
            1int
        } else {
            0
        },
{
    assert(ids.push(id).drop_last() =~= ids);
}

/// Shares add up, all of them, and those of one participant.
pub proof fn law_shares_add_up(shares: Seq<PoolShare>, who: Address, n: int)
    requires
        0 <= n < shares.len(),
    ensures
        crate::state::share_total(shares, 0) == 0,
        crate::withdrawal::share_of(shares, who, 0) == 0,
        crate::state::share_total(shares, n + 1) == crate::state::share_total(shares, n)
            + shares[n].share,
        shares[n].recipient == who ==> crate::withdrawal::share_of(shares, who, n + 1)
            == crate::withdrawal::share_of(shares, who, n) + shares[n].share,
        shares[n].recipient != who ==> crate::withdrawal::share_of(shares, who, n + 1)
            == crate::withdrawal::share_of(shares, who, n),
{
}

/// What is owed rises by what is added, up to the largest amount there is, and
/// falls by what is settled. Sums and differences below the smallest amount
/// there is count as the largest one and as nothing.
pub proof fn law_owed_amounts(s: ContractState, amount: i128)
    ensures
        ({
            let sum = s.total_liabilities + amount;
            let difference = s.total_liabilities - amount;
            &&& s.owe(amount) == (ContractState {
                total_liabilities: s.owe(amount).total_liabilities,
                ..s
            })
            &&& s.owe(amount).total_liabilities == if i128::MIN <= sum <= i128::MAX {
                sum
            } else {
                i128::MAX as int
            }
            &&& s.settle(amount) == (ContractState {
                total_liabilities: s.settle(amount).total_liabilities,
                ..s
            })
            &&& s.settle(amount).total_liabilities == if i128::MIN <= difference <= i128::MAX {
                difference
            } else {
                0
            }
        }),
{
}

/// A contract that has not been initialised knows of nothing, and sets no cap
/// on rates.
pub proof fn law_contract_starts_blank(id: u64, who: Address)
    ensures
        ({
            let s = ContractState::blank();
            &&& s.config is None
            &&& s.next_stream_id == 0 && s.next_template_id == 0
            &&& !s.emergency_paused && !s.creation_paused && !s.locked
            &&& s.pause_reason is None && s.pause_timestamp is None && s.pause_admin is None
            &&& s.last_stream_pause is None && s.last_accrual_timestamp is None
            &&& s.active_template_count == 0 && s.paused_stream_count == 0
            &&& s.total_liabilities == 0 && s.total_keeper_fees_paid == 0
            &&& s.max_rate_per_second == i128::MAX
            &&& !s.streams.dom().contains(id) && !s.offers.dom().contains(id)
            &&& !s.templates.dom().contains(id) && !s.auto_claim.dom().contains(id)
            &&& !s.pending_recipients.dom().contains(id) && !s.rotations.dom().contains(id)
            &&& !s.auto_renew.dom().contains(id) && !s.lookback.dom().contains(id)
            &&& !s.pool_shares.dom().contains(id)
            &&& !s.recipient_streams.dom().contains(who) && !s.sender_streams.dom().contains(who)
            &&& !s.recipient_offers.dom().contains(who) && !s.owner_templates.dom().contains(who)
            &&& !s.reservations.dom().contains(who) && !s.delegated_nonces.dom().contains(who)
            &&& s.effects.len() == 0
        }),
{
}

/// The number that bytes stand for, most significant byte first.
pub open spec fn number(bytes: Seq<u8>) -> int
    decreases bytes.len(),
{
    if bytes.len() == 0 {
        0
    } else {
        number(bytes.drop_last()) * 256 + bytes.last()
    }
}

/// How many numbers `n` bytes tell apart.
pub open spec fn span(n: nat) -> int
    decreases n,
{
    if n == 0 {
        1
    } else {
        256 * span((n - 1) as nat)
    }
}

/// The bytes of a number stand for it, if there are enough of them.
pub proof fn law_bytes_stand_for_number(value: int, n: nat)
    requires
        0 <= value < span(n),
    ensures
        crate::delegated::big_endian(value, n).len() == n,
        number(crate::delegated::big_endian(value, n)) == value,
    decreases n,
{
    if n > 0 {
        law_bytes_stand_for_number(value / 256, (n - 1) as nat);
        let front = crate::delegated::big_endian(value / 256, (n - 1) as nat);
        assert(crate::delegated::big_endian(value, n).drop_last() =~= front);
    }
}

/// What a recipient signs to let a relayer withdraw tells, in this order and in
/// eight, eight, eight, sixteen and sixteen bytes, the stream, the nonce, the
/// deadline, the least payout and the fee; an amount below nothing stands for
/// itself and 2 to the power of 128.
pub proof fn law_withdraw_message_layout(
    stream_id: u64,
    nonce: u64,
    deadline: u64,
    minimum: i128,
    fee: i128,
)
    ensures
        ({
            let m = crate::delegated::withdraw_message(stream_id, nonce, deadline, minimum, fee);
            let lift = |amount: i128|
                if amount < 0 {
                    amount + 0x1_0000_0000_0000_0000_0000_0000_0000_0000int
                } else {
                    amount as int
                };
            &&& m.len() == 56
            &&& number(m.subrange(0, 8)) == stream_id
            &&& number(m.subrange(8, 16)) == nonce
            &&& number(m.subrange(16, 24)) == deadline
            &&& number(m.subrange(24, 40)) == lift(minimum)
            &&& number(m.subrange(40, 56)) == lift(fee)
        }),
{
    reveal_with_fuel(span, 17);
    let low = crate::delegated::unsigned(minimum);
    let cost = crate::delegated::unsigned(fee);
    law_bytes_stand_for_number(stream_id as int, 8);
    law_bytes_stand_for_number(nonce as int, 8);
    law_bytes_stand_for_number(deadline as int, 8);
    law_bytes_stand_for_number(low, 16);
    law_bytes_stand_for_number(cost, 16);
    let m = crate::delegated::withdraw_message(stream_id, nonce, deadline, minimum, fee);
    assert(m.subrange(0, 8) =~= crate::delegated::big_endian(stream_id as int, 8));
    assert(m.subrange(8, 16) =~= crate::delegated::big_endian(nonce as int, 8));
    assert(m.subrange(16, 24) =~= crate::delegated::big_endian(deadline as int, 8));
    assert(m.subrange(24, 40) =~= crate::delegated::big_endian(low, 16));
    assert(m.subrange(40, 56) =~= crate::delegated::big_endian(cost, 16));
}

/// What a witness signs to cancel a stream tells, after sixteen bytes that are
/// always the same, the stream and the deadline.
pub proof fn law_cancel_message_layout(stream_id: u64, deadline: u64)
    ensures
        ({
            let m = crate::delegated::cancel_message(stream_id, deadline);
            &&& m.len() == 32
            &&& m.subrange(0, 16) == crate::delegated::witnessed_cancel_tag()
            &&& number(m.subrange(16, 24)) == stream_id
            &&& number(m.subrange(24, 32)) == deadline
        }),
{
    reveal_with_fuel(span, 9);
    law_bytes_stand_for_number(stream_id as int, 8);
    law_bytes_stand_for_number(deadline as int, 8);
    let m = crate::delegated::cancel_message(stream_id, deadline);
    assert(m.subrange(0, 16) =~= crate::delegated::witnessed_cancel_tag());
    assert(m.subrange(16, 24) =~= crate::delegated::big_endian(stream_id as int, 8));
    assert(m.subrange(24, 32) =~= crate::delegated::big_endian(deadline as int, 8));
}

/// Keys are in the order of a dictionary: after what two keys share, the one
/// that ends first, or else the one with the smaller byte, comes first.
pub proof fn law_keys_in_order(shared: Seq<u8>, a: Seq<u8>, b: Seq<u8>)
    requires
        a.len() == 0 || b.len() == 0 || a[0] != b[0],
    ensures
        crate::types::precedes(shared + a, shared + b) <==> b.len() > 0 && (a.len() == 0 || a[0]
            < b[0]),
    decreases shared.len(),
{
    if shared.len() == 0 {
        assert(shared + a =~= a);
        assert(shared + b =~= b);
    } else {
        law_keys_in_order(shared.drop_first(), a, b);
        assert((shared + a).drop_first() =~= shared.drop_first() + a);
        assert((shared + b).drop_first() =~= shared.drop_first() + b);
    }
}

/// A list is kept in order, and holds an identifier just after it was entered
/// and until it is struck out.
pub proof fn law_lists_enter_and_strike(list: Seq<u64>, id: u64, x: u64)
    requires
        crate::index::ascending(list),
    ensures
        ({
            let more = crate::index::with_id(list, id);
            let less = crate::index::without_id(list, id);
            &&& crate::index::ascending(more)
            &&& crate::index::ascending(less)
            &&& more.contains(x) <==> list.contains(x) || x == id
            &&& list.contains(id) ==> (less.contains(x) <==> list.contains(x) && x != id)
        }),
{
    crate::index::lemma_with_id(list, id);
    crate::index::lemma_without_id(list, id);
}

/// The reasons of a pause are told apart by their names.
pub proof fn law_reasons_told_apart(a: PauseReason, b: PauseReason)
    requires
        a.spec_label() == b.spec_label(),
    ensures
        a == b,
{
    reveal_strlit("Operational");
    reveal_strlit("Administrative");
    reveal_strlit("Emergency");
    reveal_strlit("Compliance");
    assert("Operational"@.len() == 11 && "Administrative"@.len() == 14);
    assert("Emergency"@.len() == 9 && "Compliance"@.len() == 10);
}

} // verus!
