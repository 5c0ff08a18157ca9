//! The lists of an address hold its streams and offers, and nothing else.

use crate::laws::streams::fits;
use crate::operations::Request;
use crate::state::{Call, ContractState};
use crate::types::{Address, CreateStreamParams};
use vstd::prelude::*;

verus! {

/// Whether `id` is on the list of `who`.
pub open spec fn on_list(lists: Map<Address, Seq<u64>>, who: Address, id: u64) -> bool {
    crate::state::listed(lists, who).contains(id)
}

/// Every stream of one recipient is on the list of its recipient and, unless it
/// is one of those set `apart`, on that of its sender, every offer on that of
/// the one it is made to, and the lists name nothing that is not there.
pub open spec fn indexed(s: ContractState, apart: Set<u64>) -> bool {
    &&& forall|id: u64| #[trigger]
        s.streams.dom().contains(id) && s.streams[id].is_pooled != Some(true) ==> on_list(
            s.recipient_streams,
            s.streams[id].recipient,
            id,
        )
    &&& forall|who: Address, id: u64| #[trigger]
        on_list(s.recipient_streams, who, id) ==> s.streams.dom().contains(id)
            && s.streams[id].recipient == who
    &&& forall|id: u64| #[trigger]
        s.streams.dom().contains(id) && s.streams[id].is_pooled != Some(true)
            && !apart.contains(id) ==> on_list(s.sender_streams, s.streams[id].sender, id)
    &&& forall|who: Address, id: u64| #[trigger]
        on_list(s.sender_streams, who, id) ==> s.streams.dom().contains(id)
            && s.streams[id].sender == who
    &&& forall|id: u64| #[trigger]
        s.offers.dom().contains(id) ==> on_list(s.recipient_offers, s.offers[id].recipient, id)
    &&& forall|who: Address, id: u64| #[trigger]
        on_list(s.recipient_offers, who, id) ==> s.offers.dom().contains(id)
            && s.offers[id].recipient == who
}

/// The streams that come of delegations and of accepted offers, which are not
/// entered on the list of a sender, with the one that a request adds to them.
pub open spec fn set_apart(s: ContractState, request: Request, apart: Set<u64>) -> Set<u64> {
    match request {
        Request::Delegate { id, .. } => apart.insert(s.fresh_id(s.streams[id].sender)),
        Request::AcceptOffer { id, .. } => apart.insert(id),
        _ => apart,
    }
}

/// The same streams have the same two sides, and lists and offers are the same.
pub open spec fn same_sides(s: ContractState, t: ContractState) -> bool {
    &&& forall|id: u64| #[trigger]
        t.streams.dom().contains(id) <==> s.streams.dom().contains(id)
    &&& forall|id: u64| #[trigger]
        t.streams.dom().contains(id) ==> {
            &&& t.streams[id].recipient == s.streams[id].recipient
            &&& t.streams[id].sender == s.streams[id].sender
            &&& t.streams[id].is_pooled == s.streams[id].is_pooled
        }
    &&& t.recipient_streams == s.recipient_streams
    &&& t.sender_streams == s.sender_streams
    &&& t.recipient_offers == s.recipient_offers
    &&& t.offers == s.offers
}

proof fn lemma_same_sides(s: ContractState, t: ContractState, apart: Set<u64>)
    requires
        indexed(s, apart),
        same_sides(s, t),
    ensures
        indexed(t, apart),
{
}

pub proof fn lemma_enlisted(lists: Map<Address, Seq<u64>>, who: Address, id: u64)
    requires
        crate::index::ascending(crate::state::listed(lists, who)),
    ensures
        forall|w: Address, x: u64|
            #![trigger on_list(crate::state::enlist(lists, who, id), w, x)]
            on_list(crate::state::enlist(lists, who, id), w, x) <==> on_list(lists, w, x) || (w
                == who && x == id),
        forall|w: Address|
            #![trigger crate::state::listed(crate::state::enlist(lists, who, id), w)]
            crate::index::ascending(crate::state::listed(lists, w)) ==> crate::index::ascending(
                crate::state::listed(crate::state::enlist(lists, who, id), w),
            ),
{
    crate::index::lemma_with_id(crate::state::listed(lists, who), id);
}

pub proof fn lemma_delisted(lists: Map<Address, Seq<u64>>, who: Address, id: u64)
    requires
        crate::index::ascending(crate::state::listed(lists, who)),
    ensures
        forall|w: Address, x: u64|
            #![trigger on_list(crate::state::delist(lists, who, id), w, x)]
            on_list(crate::state::delist(lists, who, id), w, x) <==> on_list(lists, w, x) && !(w
                == who && x == id),
        forall|w: Address|
            #![trigger crate::state::listed(crate::state::delist(lists, who, id), w)]
            crate::index::ascending(crate::state::listed(lists, w)) ==> crate::index::ascending(
                crate::state::listed(crate::state::delist(lists, who, id), w),
            ),
{
    crate::index::lemma_without_id(crate::state::listed(lists, who), id);
}

proof fn lemma_index_register(
    s: ContractState,
    sender: Address,
    params: CreateStreamParams,
    apart: Set<u64>,
)
    requires
        s.wf(),
        s.config is Some,
        indexed(s, apart),
        s.next_stream_id < u64::MAX,
        params.deposit_amount >= 0,
        params.effective_rate() >= 0,
        params.start_time < params.end_time,
        params.start_time <= params.cliff_time <= params.end_time,
    ensures
        indexed(s.register(sender, params), apart),
{
    crate::laws::streams::lemma_register(s, sender, params);
    let id = s.fresh_id(sender);
    crate::registry::lemma_lists_ascend(s, params.recipient);
    crate::registry::lemma_lists_ascend(s, sender);
    lemma_enlisted(s.recipient_streams, params.recipient, id);
    lemma_enlisted(s.sender_streams, sender, id);
}

proof fn lemma_index_register_all(
    s: ContractState,
    sender: Address,
    now: u64,
    max_rate: i128,
    batch: Seq<CreateStreamParams>,
    n: int,
    apart: Set<u64>,
)
    requires
        s.wf(),
        s.config is Some,
        indexed(s, apart),
        0 <= n <= batch.len(),
        s.next_stream_id + n <= u64::MAX,
        forall|i: int|
            0 <= i < n ==> (#[trigger] batch[i]).error(max_rate, sender, now) is None,
    ensures
        indexed(s.register_all(sender, batch, n), apart),
    decreases n,
{
    if n > 0 {
        lemma_index_register_all(s, sender, now, max_rate, batch, n - 1, apart);
        crate::laws::streams::lemma_register_all(s, sender, now, max_rate, batch, n - 1);
        assert(batch[n - 1].error(max_rate, sender, now) is None);
        lemma_index_register(s.register_all(sender, batch, n - 1), sender, batch[n - 1], apart);
    }
}

proof fn lemma_index_create_all(
    s: ContractState,
    call: Call,
    sender: Address,
    batch: Seq<CreateStreamParams>,
    apart: Set<u64>,
)
    requires
        s.wf(),
        indexed(s, apart),
        s.next_stream_id + batch.len() <= u64::MAX,
        s.create_all_error(call, sender, batch) is None,
    ensures
        indexed(s.create_all_step(sender, batch), apart),
{
    if batch.len() > 0 {
        let n = batch.len() as int;
        crate::laws::streams::lemma_batch_entries_ok(s, sender, call.timestamp, batch, n);
        let paid = s.pull(sender, crate::creation::total_deposit(batch, n) as i128);
        lemma_same_sides(s, paid, apart);
        lemma_index_register_all(paid, sender, call.timestamp, s.max_rate_per_second, batch, n, apart);
    }
}

proof fn lemma_index_partial(
    s: ContractState,
    sender: Address,
    now: u64,
    batch: Seq<CreateStreamParams>,
    transfers: Seq<bool>,
    n: int,
    apart: Set<u64>,
)
    requires
        s.wf(),
        indexed(s, apart),
        0 <= n <= batch.len(),
        s.next_stream_id + n <= u64::MAX,
    ensures
        indexed(s.partial_step(sender, now, batch, transfers, n), apart),
    decreases n,
{
    if n > 0 {
        lemma_index_partial(s, sender, now, batch, transfers, n - 1, apart);
        crate::laws::streams::lemma_partial(s, sender, now, batch, transfers, n - 1);
        let t = s.partial_step(sender, now, batch, transfers, n - 1);
        if t.partial_outcome(sender, now, batch[n - 1], transfers[n - 1]) is Ok {
            lemma_index_register(t, sender, batch[n - 1], apart);
        }
    }
}

proof fn lemma_sides_batch(s: ContractState, call: Call, ids: Seq<u64>, n: int)
    requires
        s.wf(),
        0 <= n <= ids.len(),
        forall|i: int| 0 <= i < ids.len() ==> s.streams.dom().contains(#[trigger] ids[i]),
    ensures
        same_sides(s, s.batch_step(call, ids, n)),
    decreases n,
{
    if n > 0 {
        lemma_sides_batch(s, call, ids, n - 1);
        crate::registry::lemma_stored_stream(s, ids[n - 1]);
    }
}

proof fn lemma_sides_resumes(s: ContractState, call: Call, ids: Seq<u64>, n: int)
    requires
        s.wf(),
        0 <= n <= ids.len(),
        forall|i: int| 0 <= i < ids.len() ==> s.streams.dom().contains(#[trigger] ids[i]),
    ensures
        same_sides(s, s.bulk_resume_step(call, ids, n)),
    decreases n,
{
    if n > 0 {
        lemma_sides_resumes(s, call, ids, n - 1);
        crate::registry::lemma_stored_stream(s, ids[n - 1]);
    }
}

proof fn lemma_sides_cancels(s: ContractState, now: u64, ids: Seq<u64>, n: int)
    requires
        s.wf(),
        0 <= n <= ids.len(),
        forall|i: int| 0 <= i < ids.len() ==> s.streams.dom().contains(#[trigger] ids[i]),
    ensures
        same_sides(s, s.bulk_cancel_all(now, ids, n)),
    decreases n,
{
    if n > 0 {
        lemma_sides_cancels(s, now, ids, n - 1);
        crate::registry::lemma_stored_stream(s, ids[n - 1]);
    }
}

/// New streams and offers are entered.
#[verifier::rlimit(50)]
#[verifier::spinoff_prover]
proof fn lemma_indexed_by_creation(
    s: ContractState,
    call: Call,
    request: Request,
    apart: Set<u64>,
)
    requires
        s.wf(),
        fits(s, call, request),
        indexed(s, apart),
        s.refusal(call, request) is None,
        match request {
            Request::CreateStream { .. } => true,
            Request::CreateStreamRelative { .. } => true,
            Request::CreateStreams { .. } => true,
            Request::CreateStreamsRelative { .. } => true,
            Request::CreateStreamsPartial { .. } => true,
            Request::Delegate { .. } => true,
            Request::Renew { .. } => true,
            Request::CloneStream { .. } => true,
            Request::AcceptOffer { .. } => true,
            Request::CreateOffer { .. } => true,
            _ => false,
        },
    ensures
        indexed(s.effect_of(call, request), set_apart(s, request, apart)),
{
    let t = s.effect_of(call, request);
    match request {
        Request::CreateStream { sender, params } => {
            assert(indexed(t, set_apart(s, request, apart))) by {
                let paid = s.pull(sender, params.deposit_amount);
                lemma_same_sides(s, paid, apart);
                lemma_index_register(paid, sender, params, apart);
            }
        },
        Request::CreateStreamRelative { sender, relative } => {
            assert(indexed(t, set_apart(s, request, apart))) by {
                let params = relative.dated(call.timestamp);
                let paid = s.pull(sender, params.deposit_amount);
                lemma_same_sides(s, paid, apart);
                lemma_index_register(paid, sender, params, apart);
            }
        },
        Request::CreateStreams { sender, batch } => {
            assert(indexed(t, set_apart(s, request, apart))) by {
                lemma_index_create_all(s, call, sender, batch, apart);
            }
        },
        Request::CreateStreamsRelative { sender, relative_batch } => {
            assert(indexed(t, set_apart(s, request, apart))) by {
                if relative_batch.len() > 0 {
                    let batch = crate::creation::dated_batch(relative_batch, call.timestamp);
                    lemma_index_create_all(s, call, sender, batch, apart);
                }
            }
        },
        Request::CreateStreamsPartial { sender, batch, transfers } => {
            assert(indexed(t, set_apart(s, request, apart))) by {
                lemma_index_partial(s, sender, call.timestamp, batch, transfers, batch.len() as int, apart);
            }
        },
        Request::Delegate { id: x, recipient, share_bps, new_recipient } => {
            assert(indexed(t, set_apart(s, request, apart))) by {
                crate::registry::lemma_stored_stream(s, x);
                crate::registry::lemma_take_id(s, s.streams[x].sender);
                crate::registry::lemma_lists_ascend(s, new_recipient);
                lemma_enlisted(s.recipient_streams, new_recipient, s.fresh_id(s.streams[x].sender));
            }
        },
        Request::Renew { id: x, balance, allowance } => {
            assert(indexed(t, set_apart(s, request, apart))) by {
                crate::registry::lemma_stored_stream(s, x);
                let sender = s.streams[x].sender;
                let params = s.streams[x].renewal(call.timestamp);
                let paid = s.observe(call.timestamp).with_renewal(x, false).pull(
                    sender,
                    s.streams[x].deposit_amount,
                );
                lemma_same_sides(s, paid, apart);
                lemma_index_register(paid, sender, params, apart);
                lemma_same_sides(paid.register(sender, params), t, apart);
            }
        },
        Request::CloneStream { id: x, new_recipient, start_time, end_time, deposit, force } => {
            assert(indexed(t, set_apart(s, request, apart))) by {
                crate::registry::lemma_stored_stream(s, x);
                let sender = s.streams[x].sender;
                let params = s.streams[x].clone_params(new_recipient, start_time, end_time, deposit);
                let paid = s.pull(sender, deposit);
                lemma_same_sides(s, paid, apart);
                lemma_index_register(paid, sender, params, apart);
                lemma_same_sides(paid.register(sender, params), t, apart);
            }
        },
        Request::AcceptOffer { recipient, id: x } => {
            assert(indexed(t, set_apart(s, request, apart))) by {
                crate::registry::lemma_stored_offer(s, x);
                crate::registry::lemma_lists_ascend(s, recipient);
                lemma_enlisted(s.recipient_streams, recipient, x);
                lemma_delisted(s.recipient_offers, recipient, x);
            }
        },
        Request::CreateOffer { sender, params, expiry } => {
            assert(indexed(t, set_apart(s, request, apart))) by {
                crate::registry::lemma_take_id(s, sender);
                crate::registry::lemma_lists_ascend(s, params.recipient);
                lemma_enlisted(s.recipient_offers, params.recipient, s.fresh_id(sender));
            }
        },
        _ => {},
    }
}

/// Withdrawals leave the lists alone.
#[verifier::rlimit(50)]
#[verifier::spinoff_prover]
proof fn lemma_indexed_by_withdrawal(
    s: ContractState,
    call: Call,
    request: Request,
    apart: Set<u64>,
)
    requires
        s.wf(),
        fits(s, call, request),
        indexed(s, apart),
        s.refusal(call, request) is None,
        match request {
            Request::Withdraw { .. } => true,
            Request::WithdrawTo { .. } => true,
            Request::WithdrawFromPool { .. } => true,
            Request::BatchWithdraw { .. } => true,
            Request::DelegatedWithdraw { .. } => true,
            Request::TriggerAutoClaim { .. } => true,
            _ => false,
        },
    ensures
        indexed(s.effect_of(call, request), set_apart(s, request, apart)),
{
    let t = s.effect_of(call, request);
    match request {
        Request::Withdraw { id: x, .. } => {
            assert(indexed(t, set_apart(s, request, apart))) by {
                crate::registry::lemma_stored_stream(s, x);
                lemma_same_sides(s, t, apart);
            }
        },
        Request::WithdrawTo { id: x, .. } => {
            assert(indexed(t, set_apart(s, request, apart))) by {
                crate::registry::lemma_stored_stream(s, x);
                lemma_same_sides(s, t, apart);
            }
        },
        Request::WithdrawFromPool { id: x, who } => {
            assert(indexed(t, set_apart(s, request, apart))) by {
                crate::registry::lemma_stored_stream(s, x);
                lemma_same_sides(s, t, apart);
            }
        },
        Request::BatchWithdraw { who, withdrawals } => {
            assert(indexed(t, set_apart(s, request, apart))) by {
                let ids = crate::batch::targets(withdrawals);
                crate::laws::streams::lemma_items_ok(s, call, who, ids, ids.len() as int);
                assert forall|i: int| 0 <= i < ids.len() implies s.streams.dom().contains(
                    #[trigger] ids[i],
                ) by {
                    assert(s.batch_item_error(call, who, ids[i]) is None);
                }
                lemma_sides_batch(s, call, ids, ids.len() as int);
                lemma_same_sides(s, t, apart);
            }
        },
        Request::DelegatedWithdraw { request: r } => {
            assert(indexed(t, set_apart(s, request, apart))) by {
                crate::registry::lemma_stored_stream(s, r.stream_id);
                lemma_same_sides(s, t, apart);
            }
        },
        Request::TriggerAutoClaim { id: x, .. } => {
            assert(indexed(t, set_apart(s, request, apart))) by {
                crate::registry::lemma_stored_stream(s, x);
                lemma_same_sides(s, t, apart);
            }
        },
        _ => {},
    }
}

/// A new recipient takes a stream over.
#[verifier::rlimit(50)]
#[verifier::spinoff_prover]
proof fn lemma_indexed_by_change(
    s: ContractState,
    call: Call,
    request: Request,
    apart: Set<u64>,
)
    requires
        s.wf(),
        fits(s, call, request),
        indexed(s, apart),
        s.refusal(call, request) is None,
        match request {
            Request::PauseStream { .. } => true,
            Request::ResumeStream { .. } => true,
            Request::PauseStreamAsAdmin { .. } => true,
            Request::ResumeStreamAsAdmin { .. } => true,
            Request::CancelStream { .. } => true,
            Request::CancelStreamAsAdmin { .. } => true,
            Request::WitnessedCancel { .. } => true,
            Request::KeeperCancel { .. } => true,
            Request::UpdateRatePerSecond { .. } => true,
            Request::DecreaseRate { .. } => true,
            Request::UpdateRate { .. } => true,
            Request::Shorten { .. } => true,
            Request::Extend { .. } => true,
            Request::TopUp { .. } => true,
            Request::AcceptRecipient { .. } => true,
            Request::TransferClaim { .. } => true,
            Request::BulkResume { .. } => true,
            Request::BulkCancel { .. } => true,
            _ => false,
        },
    ensures
        indexed(s.effect_of(call, request), set_apart(s, request, apart)),
{
    let t = s.effect_of(call, request);
    match request {
        Request::PauseStream { id: x, .. } => {
            assert(indexed(t, set_apart(s, request, apart))) by {
                crate::registry::lemma_stored_stream(s, x);
                lemma_same_sides(s, t, apart);
            }
        },
        Request::ResumeStream { id: x, .. } => {
            assert(indexed(t, set_apart(s, request, apart))) by {
                crate::registry::lemma_stored_stream(s, x);
                lemma_same_sides(s, t, apart);
            }
        },
        Request::PauseStreamAsAdmin { id: x, .. } => {
            assert(indexed(t, set_apart(s, request, apart))) by {
                crate::registry::lemma_stored_stream(s, x);
                lemma_same_sides(s, t, apart);
            }
        },
        Request::ResumeStreamAsAdmin { id: x, .. } => {
            assert(indexed(t, set_apart(s, request, apart))) by {
                crate::registry::lemma_stored_stream(s, x);
                lemma_same_sides(s, t, apart);
            }
        },
        Request::CancelStream { id: x, .. } => {
            assert(indexed(t, set_apart(s, request, apart))) by {
                crate::registry::lemma_stored_stream(s, x);
                lemma_same_sides(s, t, apart);
            }
        },
        Request::CancelStreamAsAdmin { id: x, .. } => {
            assert(indexed(t, set_apart(s, request, apart))) by {
                crate::registry::lemma_stored_stream(s, x);
                lemma_same_sides(s, t, apart);
            }
        },
        Request::WitnessedCancel { id: x, .. } => {
            assert(indexed(t, set_apart(s, request, apart))) by {
                crate::registry::lemma_stored_stream(s, x);
                lemma_same_sides(s, t, apart);
            }
        },
        Request::KeeperCancel { id: x, .. } => {
            assert(indexed(t, set_apart(s, request, apart))) by {
                crate::registry::lemma_stored_stream(s, x);
                lemma_same_sides(s, t, apart);
            }
        },
        Request::UpdateRatePerSecond { id: x, .. } => {
            assert(indexed(t, set_apart(s, request, apart))) by {
                crate::registry::lemma_stored_stream(s, x);
                lemma_same_sides(s, t, apart);
            }
        },
        Request::DecreaseRate { id: x, .. } => {
            assert(indexed(t, set_apart(s, request, apart))) by {
                crate::registry::lemma_stored_stream(s, x);
                lemma_same_sides(s, t, apart);
            }
        },
        Request::UpdateRate { id: x, .. } => {
            assert(indexed(t, set_apart(s, request, apart))) by {
                crate::registry::lemma_stored_stream(s, x);
                lemma_same_sides(s, t, apart);
            }
        },
        Request::Shorten { id: x, .. } => {
            assert(indexed(t, set_apart(s, request, apart))) by {
                crate::registry::lemma_stored_stream(s, x);
                lemma_same_sides(s, t, apart);
            }
        },
        Request::Extend { id: x, .. } => {
            assert(indexed(t, set_apart(s, request, apart))) by {
                crate::registry::lemma_stored_stream(s, x);
                lemma_same_sides(s, t, apart);
            }
        },
        Request::TopUp { id: x, .. } => {
            assert(indexed(t, set_apart(s, request, apart))) by {
                crate::registry::lemma_stored_stream(s, x);
                lemma_same_sides(s, t, apart);
            }
        },
        Request::AcceptRecipient { id: x, .. } => {
            assert(indexed(t, set_apart(s, request, apart))) by {
                crate::registry::lemma_stored_stream(s, x);
                let old = s.streams[x].recipient;
                let new = s.pending_recipients[x].proposed_recipient;
                crate::registry::lemma_lists_ascend(s, old);
                crate::registry::lemma_lists_ascend(s, new);
                lemma_delisted(s.recipient_streams, old, x);
                lemma_enlisted(crate::state::delist(s.recipient_streams, old, x), new, x);
            }
        },
        Request::TransferClaim { id: x, .. } => {
            assert(indexed(t, set_apart(s, request, apart))) by {
                crate::registry::lemma_stored_stream(s, x);
                lemma_same_sides(s, t, apart);
            }
        },
        Request::BulkResume { ids } => {
            assert(indexed(t, set_apart(s, request, apart))) by {
                crate::laws::streams::lemma_resumes_ok(s, call, ids, ids.len() as int);
                assert forall|i: int| 0 <= i < ids.len() implies s.streams.dom().contains(
                    #[trigger] ids[i],
                ) by {
                    assert(s.bulk_resume_item_error(call, ids[i]) is None);
                }
                lemma_sides_resumes(s, call, ids, ids.len() as int);
                lemma_same_sides(s, t, apart);
            }
        },
        Request::BulkCancel { sender, ids } => {
            assert(indexed(t, set_apart(s, request, apart))) by {
                crate::laws::streams::lemma_cancels_ok(s, sender, ids, ids.len() as int);
                assert forall|i: int| 0 <= i < ids.len() implies s.streams.dom().contains(
                    #[trigger] ids[i],
                ) by {
                    assert(s.bulk_cancel_item_error(sender, ids[i]) is None);
                }
                lemma_sides_cancels(s, call.timestamp, ids, ids.len() as int);
                lemma_same_sides(s, t, apart);
            }
        },
        _ => {},
    }
}

/// What is removed is struck out.
#[verifier::rlimit(50)]
#[verifier::spinoff_prover]
proof fn lemma_indexed_otherwise(
    s: ContractState,
    call: Call,
    request: Request,
    apart: Set<u64>,
)
    requires
        s.wf(),
        fits(s, call, request),
        indexed(s, apart),
        s.refusal(call, request) is None,
        match request {
            Request::Init { .. } => true,
            Request::CreatePooledStream { .. } => true,
            Request::CalculateAccrued { .. } => true,
            Request::GetWithdrawable { .. } => true,
            Request::GetAutoClaimStatus { .. } => true,
            Request::SetAutoRenew { .. } => true,
            Request::CloseCompleted { .. } => true,
            Request::CloseCancelled { .. } => true,
            Request::SetLookback { .. } => true,
            Request::RegisterTemplate { .. } => true,
            Request::DeleteTemplate { .. } => true,
            Request::UpdateRecipient { .. } => true,
            Request::CancelRecipient { .. } => true,
            Request::SetAutoClaim { .. } => true,
            Request::RevokeAutoClaim { .. } => true,
            Request::RejectOffer { .. } => true,
            Request::CancelOffer { .. } => true,
            Request::ReserveIds { .. } => true,
            Request::ReleaseIds { .. } => true,
            Request::ReclaimIds { .. } => true,
            Request::SetAdmin { .. } => true,
            Request::SetMaxRate { .. } => true,
            Request::SetEmergencyPaused { .. } => true,
            Request::GlobalResume => true,
            Request::SetContractPaused { .. } => true,
            Request::PauseProtocol { .. } => true,
            Request::ResumeProtocol { .. } => true,
            Request::Sweep { .. } => true,
            Request::Upgrade { .. } => true,
            _ => false,
        },
    ensures
        indexed(s.effect_of(call, request), set_apart(s, request, apart)),
{
    let t = s.effect_of(call, request);
    match request {
        Request::Init { .. } => {
            assert(indexed(t, set_apart(s, request, apart))) by {
                lemma_same_sides(s, t, apart);
            }
        },
        Request::CreatePooledStream { .. } => {
            assert(indexed(t, set_apart(s, request, apart)));
        },
        Request::CalculateAccrued { .. } => {
            assert(indexed(t, set_apart(s, request, apart))) by {
                lemma_same_sides(s, t, apart);
            }
        },
        Request::GetWithdrawable { .. } => {
            assert(indexed(t, set_apart(s, request, apart))) by {
                lemma_same_sides(s, t, apart);
            }
        },
        Request::GetAutoClaimStatus { .. } => {
            assert(indexed(t, set_apart(s, request, apart))) by {
                lemma_same_sides(s, t, apart);
            }
        },
        Request::SetAutoRenew { .. } => {
            assert(indexed(t, set_apart(s, request, apart))) by {
                lemma_same_sides(s, t, apart);
            }
        },
        Request::CloseCompleted { id: x, .. } => {
            assert(indexed(t, set_apart(s, request, apart))) by {
                crate::registry::lemma_stored_stream(s, x);
                crate::registry::lemma_lists_ascend(s, s.streams[x].recipient);
                crate::registry::lemma_lists_ascend(s, s.streams[x].sender);
                lemma_delisted(s.recipient_streams, s.streams[x].recipient, x);
                lemma_delisted(s.sender_streams, s.streams[x].sender, x);
            }
        },
        Request::CloseCancelled { id: x, .. } => {
            assert(indexed(t, set_apart(s, request, apart))) by {
                crate::registry::lemma_stored_stream(s, x);
                crate::registry::lemma_lists_ascend(s, s.streams[x].recipient);
                crate::registry::lemma_lists_ascend(s, s.streams[x].sender);
                lemma_delisted(s.recipient_streams, s.streams[x].recipient, x);
                lemma_delisted(s.sender_streams, s.streams[x].sender, x);
            }
        },
        Request::SetLookback { .. } => {
            assert(indexed(t, set_apart(s, request, apart))) by {
                lemma_same_sides(s, t, apart);
            }
        },
        Request::RegisterTemplate { .. } => {
            assert(indexed(t, set_apart(s, request, apart))) by {
                lemma_same_sides(s, t, apart);
            }
        },
        Request::DeleteTemplate { .. } => {
            assert(indexed(t, set_apart(s, request, apart))) by {
                lemma_same_sides(s, t, apart);
            }
        },
        Request::UpdateRecipient { .. } => {
            assert(indexed(t, set_apart(s, request, apart))) by {
                lemma_same_sides(s, t, apart);
            }
        },
        Request::CancelRecipient { .. } => {
            assert(indexed(t, set_apart(s, request, apart))) by {
                lemma_same_sides(s, t, apart);
            }
        },
        Request::SetAutoClaim { .. } => {
            assert(indexed(t, set_apart(s, request, apart))) by {
                lemma_same_sides(s, t, apart);
            }
        },
        Request::RevokeAutoClaim { .. } => {
            assert(indexed(t, set_apart(s, request, apart))) by {
                lemma_same_sides(s, t, apart);
            }
        },
        Request::RejectOffer { id: x, .. } => {
            assert(indexed(t, set_apart(s, request, apart))) by {
                crate::registry::lemma_stored_offer(s, x);
                crate::registry::lemma_lists_ascend(s, s.offers[x].recipient);
                lemma_delisted(s.recipient_offers, s.offers[x].recipient, x);
            }
        },
        Request::CancelOffer { id: x, .. } => {
            assert(indexed(t, set_apart(s, request, apart))) by {
                crate::registry::lemma_stored_offer(s, x);
                crate::registry::lemma_lists_ascend(s, s.offers[x].recipient);
                lemma_delisted(s.recipient_offers, s.offers[x].recipient, x);
            }
        },
        Request::ReserveIds { .. } => {
            assert(indexed(t, set_apart(s, request, apart))) by {
                lemma_same_sides(s, t, apart);
            }
        },
        Request::ReleaseIds { .. } => {
            assert(indexed(t, set_apart(s, request, apart))) by {
                lemma_same_sides(s, t, apart);
            }
        },
        Request::ReclaimIds { .. } => {
            assert(indexed(t, set_apart(s, request, apart))) by {
                lemma_same_sides(s, t, apart);
            }
        },
        Request::SetAdmin { .. } => {
            assert(indexed(t, set_apart(s, request, apart))) by {
                lemma_same_sides(s, t, apart);
            }
        },
        Request::SetMaxRate { .. } => {
            assert(indexed(t, set_apart(s, request, apart))) by {
                lemma_same_sides(s, t, apart);
            }
        },
        Request::SetEmergencyPaused { .. } => {
            assert(indexed(t, set_apart(s, request, apart))) by {
                lemma_same_sides(s, t, apart);
            }
        },
        Request::GlobalResume => {
            assert(indexed(t, set_apart(s, request, apart))) by {
                lemma_same_sides(s, t, apart);
            }
        },
        Request::SetContractPaused { .. } => {
            assert(indexed(t, set_apart(s, request, apart))) by {
                lemma_same_sides(s, t, apart);
            }
        },
        Request::PauseProtocol { .. } => {
            assert(indexed(t, set_apart(s, request, apart))) by {
                lemma_same_sides(s, t, apart);
            }
        },
        Request::ResumeProtocol { .. } => {
            assert(indexed(t, set_apart(s, request, apart))) by {
                lemma_same_sides(s, t, apart);
            }
        },
        Request::Sweep { .. } => {
            assert(indexed(t, set_apart(s, request, apart))) by {
                lemma_same_sides(s, t, apart);
            }
        },
        Request::Upgrade { .. } => {
            assert(indexed(t, set_apart(s, request, apart))) by {
                lemma_same_sides(s, t, apart);
            }
        },
        _ => {},
    }
}

/// A contract that holds nothing lists nothing.
pub proof fn law_nothing_listed_at_first()
    ensures
        indexed(ContractState::blank(), Set::empty()),
{
}

/// Whatever is asked of the contract, its lists hold the streams and offers of
/// each address and nothing else. Only a stream that comes of a delegation or
/// of an accepted offer is not on the list of its sender.
pub proof fn law_lists_are_complete(
    s: ContractState,
    call: Call,
    request: Request,
    apart: Set<u64>,
)
    requires
        s.wf(),
        fits(s, call, request),
        indexed(s, apart),
    ensures
        indexed(s.after(call, request), set_apart(s, request, apart)),
{
    if s.refusal(call, request) is None {
        match request {
            Request::CreateStream { .. }
            | Request::CreateStreamRelative { .. }
            | Request::CreateStreams { .. }
            | Request::CreateStreamsRelative { .. }
            | Request::CreateStreamsPartial { .. }
            | Request::Delegate { .. }
            | Request::Renew { .. }
            | Request::CloneStream { .. }
            | Request::AcceptOffer { .. }
            | Request::CreateOffer { .. } => {
                lemma_indexed_by_creation(s, call, request, apart);
            },
            Request::Withdraw { .. }
            | Request::WithdrawTo { .. }
            | Request::WithdrawFromPool { .. }
            | Request::BatchWithdraw { .. }
            | Request::DelegatedWithdraw { .. }
            | Request::TriggerAutoClaim { .. } => {
                lemma_indexed_by_withdrawal(s, call, request, apart);
            },
            Request::PauseStream { .. }
            | Request::ResumeStream { .. }
            | Request::PauseStreamAsAdmin { .. }
            | Request::ResumeStreamAsAdmin { .. }
            | Request::CancelStream { .. }
            | Request::CancelStreamAsAdmin { .. }
            | Request::WitnessedCancel { .. }
            | Request::KeeperCancel { .. }
            | Request::UpdateRatePerSecond { .. }
            | Request::DecreaseRate { .. }
            | Request::UpdateRate { .. }
            | Request::Shorten { .. }
            | Request::Extend { .. }
            | Request::TopUp { .. }
            | Request::AcceptRecipient { .. }
            | Request::TransferClaim { .. }
            | Request::BulkResume { .. }
            | Request::BulkCancel { .. } => {
                lemma_indexed_by_change(s, call, request, apart);
            },
            Request::Init { .. }
            | Request::CreatePooledStream { .. }
            | Request::CalculateAccrued { .. }
            | Request::GetWithdrawable { .. }
            | Request::GetAutoClaimStatus { .. }
            | Request::SetAutoRenew { .. }
            | Request::CloseCompleted { .. }
            | Request::CloseCancelled { .. }
            | Request::SetLookback { .. }
            | Request::RegisterTemplate { .. }
            | Request::DeleteTemplate { .. }
            | Request::UpdateRecipient { .. }
            | Request::CancelRecipient { .. }
            | Request::SetAutoClaim { .. }
            | Request::RevokeAutoClaim { .. }
            | Request::RejectOffer { .. }
            | Request::CancelOffer { .. }
            | Request::ReserveIds { .. }
            | Request::ReleaseIds { .. }
            | Request::ReclaimIds { .. }
            | Request::SetAdmin { .. }
            | Request::SetMaxRate { .. }
            | Request::SetEmergencyPaused { .. }
            | Request::GlobalResume
            | Request::SetContractPaused { .. }
            | Request::PauseProtocol { .. }
            | Request::ResumeProtocol { .. }
            | Request::Sweep { .. }
            | Request::Upgrade { .. } => {
                lemma_indexed_otherwise(s, call, request, apart);
            },
        }
    }
}

} // verus!
