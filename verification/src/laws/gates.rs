//! Who may do what, and when.

use crate::operations::Request;
use crate::state::{Call, ContractState};
use crate::types::{Address, ContractError, PauseInfo, Text};
use vstd::prelude::*;

verus! {

/// While the emergency pause is on, every operation that it guards is refused
/// and changes nothing.
pub proof fn law_emergency_pause_blocks(s: ContractState, call: Call, request: Request)
    requires
        s.emergency_paused,
        request.guarded(),
    ensures
        s.refusal(call, request) is Some,
        s.after(call, request) == s,
{
}

/// While stream creation is paused, nothing is created.
pub proof fn law_creation_pause_blocks(s: ContractState, call: Call, request: Request)
    requires
        s.creation_paused,
        request.creates(),
    ensures
        s.refusal(call, request) is Some,
        s.after(call, request) == s,
{
}

/// The pause of stream creation alone blocks nothing but creation.
#[verifier::rlimit(50)]
#[verifier::spinoff_prover]
pub proof fn law_creation_pause_blocks_only_creation(
    s: ContractState,
    call: Call,
    request: Request,
)
    requires
        !request.creates(),
        !(request is PauseProtocol),
    ensures
        s.refusal(call, request) == (ContractState { creation_paused: !s.creation_paused, ..s }).refusal(
            call,
            request,
        ),
{
    let t = ContractState { creation_paused: !s.creation_paused, ..s };
    match request {
        Request::BatchWithdraw { who, withdrawals } => {
            lemma_items_same(s, t, call, who, crate::batch::targets(withdrawals), withdrawals.len() as int);
        },
        Request::BulkResume { ids } => {
            lemma_resumes_same(s, t, call, ids, ids.len() as int);
        },
        Request::BulkCancel { sender, ids } => {
            lemma_cancels_same(s, t, call, sender, ids, ids.len() as int);
        },
        Request::Delegate { id, recipient, share_bps, new_recipient } => {
            lemma_lineage_same(s, t, s.streams[id], new_recipient);
        },
        Request::Init { .. } => {
            assert(s.refusal(call, request) == t.refusal(call, request));
        },
        Request::CreateStream { .. } => {
            assert(s.refusal(call, request) == t.refusal(call, request));
        },
        Request::CreateStreamRelative { .. } => {
            assert(s.refusal(call, request) == t.refusal(call, request));
        },
        Request::CreateStreams { .. } => {
            assert(s.refusal(call, request) == t.refusal(call, request));
        },
        Request::CreateStreamsRelative { .. } => {
            assert(s.refusal(call, request) == t.refusal(call, request));
        },
        Request::CreateStreamsPartial { .. } => {
            assert(s.refusal(call, request) == t.refusal(call, request));
        },
        Request::CreatePooledStream { .. } => {
            assert(s.refusal(call, request) == t.refusal(call, request));
        },
        Request::CalculateAccrued { .. } => {
            assert(s.refusal(call, request) == t.refusal(call, request));
        },
        Request::GetWithdrawable { .. } => {
            assert(s.refusal(call, request) == t.refusal(call, request));
        },
        Request::GetAutoClaimStatus { .. } => {
            assert(s.refusal(call, request) == t.refusal(call, request));
        },
        Request::Withdraw { .. } => {
            assert(s.refusal(call, request) == t.refusal(call, request));
        },
        Request::WithdrawTo { .. } => {
            assert(s.refusal(call, request) == t.refusal(call, request));
        },
        Request::WithdrawFromPool { .. } => {
            assert(s.refusal(call, request) == t.refusal(call, request));
        },
        Request::DelegatedWithdraw { .. } => {
            assert(s.refusal(call, request) == t.refusal(call, request));
        },
        Request::PauseStream { .. } => {
            assert(s.refusal(call, request) == t.refusal(call, request));
        },
        Request::ResumeStream { .. } => {
            assert(s.refusal(call, request) == t.refusal(call, request));
        },
        Request::PauseStreamAsAdmin { .. } => {
            assert(s.refusal(call, request) == t.refusal(call, request));
        },
        Request::ResumeStreamAsAdmin { .. } => {
            assert(s.refusal(call, request) == t.refusal(call, request));
        },
        Request::CancelStream { .. } => {
            assert(s.refusal(call, request) == t.refusal(call, request));
        },
        Request::CancelStreamAsAdmin { .. } => {
            assert(s.refusal(call, request) == t.refusal(call, request));
        },
        Request::WitnessedCancel { .. } => {
            assert(s.refusal(call, request) == t.refusal(call, request));
        },
        Request::KeeperCancel { .. } => {
            assert(s.refusal(call, request) == t.refusal(call, request));
        },
        Request::UpdateRatePerSecond { .. } => {
            assert(s.refusal(call, request) == t.refusal(call, request));
        },
        Request::DecreaseRate { .. } => {
            assert(s.refusal(call, request) == t.refusal(call, request));
        },
        Request::UpdateRate { .. } => {
            assert(s.refusal(call, request) == t.refusal(call, request));
        },
        Request::Shorten { .. } => {
            assert(s.refusal(call, request) == t.refusal(call, request));
        },
        Request::Extend { .. } => {
            assert(s.refusal(call, request) == t.refusal(call, request));
        },
        Request::TopUp { .. } => {
            assert(s.refusal(call, request) == t.refusal(call, request));
        },
        Request::SetAutoRenew { .. } => {
            assert(s.refusal(call, request) == t.refusal(call, request));
        },
        Request::Renew { .. } => {
            assert(s.refusal(call, request) == t.refusal(call, request));
        },
        Request::CloseCompleted { .. } => {
            assert(s.refusal(call, request) == t.refusal(call, request));
        },
        Request::CloseCancelled { .. } => {
            assert(s.refusal(call, request) == t.refusal(call, request));
        },
        Request::SetLookback { .. } => {
            assert(s.refusal(call, request) == t.refusal(call, request));
        },
        Request::RegisterTemplate { .. } => {
            assert(s.refusal(call, request) == t.refusal(call, request));
        },
        Request::DeleteTemplate { .. } => {
            assert(s.refusal(call, request) == t.refusal(call, request));
        },
        Request::UpdateRecipient { .. } => {
            assert(s.refusal(call, request) == t.refusal(call, request));
        },
        Request::AcceptRecipient { .. } => {
            assert(s.refusal(call, request) == t.refusal(call, request));
        },
        Request::CancelRecipient { .. } => {
            assert(s.refusal(call, request) == t.refusal(call, request));
        },
        Request::TransferClaim { .. } => {
            assert(s.refusal(call, request) == t.refusal(call, request));
        },
        Request::SetAutoClaim { .. } => {
            assert(s.refusal(call, request) == t.refusal(call, request));
        },
        Request::RevokeAutoClaim { .. } => {
            assert(s.refusal(call, request) == t.refusal(call, request));
        },
        Request::TriggerAutoClaim { .. } => {
            assert(s.refusal(call, request) == t.refusal(call, request));
        },
        Request::CreateOffer { .. } => {
            assert(s.refusal(call, request) == t.refusal(call, request));
        },
        Request::AcceptOffer { .. } => {
            assert(s.refusal(call, request) == t.refusal(call, request));
        },
        Request::RejectOffer { .. } => {
            assert(s.refusal(call, request) == t.refusal(call, request));
        },
        Request::CancelOffer { .. } => {
            assert(s.refusal(call, request) == t.refusal(call, request));
        },
        Request::ReserveIds { .. } => {
            assert(s.refusal(call, request) == t.refusal(call, request));
        },
        Request::ReleaseIds { .. } => {
            assert(s.refusal(call, request) == t.refusal(call, request));
        },
        Request::ReclaimIds { .. } => {
            assert(s.refusal(call, request) == t.refusal(call, request));
        },
        Request::CloneStream { .. } => {
            assert(s.refusal(call, request) == t.refusal(call, request));
        },
        Request::SetAdmin { .. } => {
            assert(s.refusal(call, request) == t.refusal(call, request));
        },
        Request::SetMaxRate { .. } => {
            assert(s.refusal(call, request) == t.refusal(call, request));
        },
        Request::SetEmergencyPaused { .. } => {
            assert(s.refusal(call, request) == t.refusal(call, request));
        },
        Request::GlobalResume => {
            assert(s.refusal(call, request) == t.refusal(call, request));
        },
        Request::SetContractPaused { .. } => {
            assert(s.refusal(call, request) == t.refusal(call, request));
        },
        Request::PauseProtocol { .. } => {
            assert(s.refusal(call, request) == t.refusal(call, request));
        },
        Request::ResumeProtocol { .. } => {
            assert(s.refusal(call, request) == t.refusal(call, request));
        },
        Request::Sweep { .. } => {
            assert(s.refusal(call, request) == t.refusal(call, request));
        },
        Request::Upgrade { .. } => {
            assert(s.refusal(call, request) == t.refusal(call, request));
        },
    }
}

proof fn lemma_items_same(
    s: ContractState,
    t: ContractState,
    call: Call,
    who: crate::types::Address,
    ids: Seq<u64>,
    n: int,
)
    requires
        t.streams == s.streams,
    ensures
        s.batch_items_error(call, who, ids, n) == t.batch_items_error(call, who, ids, n),
    decreases n,
{
    if n > 0 {
        lemma_items_same(s, t, call, who, ids, n - 1);
    }
}

proof fn lemma_resumes_same(s: ContractState, t: ContractState, call: Call, ids: Seq<u64>, n: int)
    requires
        t.streams == s.streams,
    ensures
        s.bulk_resume_items_error(call, ids, n) == t.bulk_resume_items_error(call, ids, n),
    decreases n,
{
    if n > 0 {
        lemma_resumes_same(s, t, call, ids, n - 1);
    }
}

proof fn lemma_cancels_same(
    s: ContractState,
    t: ContractState,
    call: Call,
    sender: crate::types::Address,
    ids: Seq<u64>,
    n: int,
)
    requires
        t.streams == s.streams,
    ensures
        s.bulk_cancel_items_error(sender, ids, n) == t.bulk_cancel_items_error(sender, ids, n),
        s.bulk_refund(call.timestamp, ids, n) == t.bulk_refund(call.timestamp, ids, n),
    decreases n,
{
    if n > 0 {
        lemma_cancels_same(s, t, call, sender, ids, n - 1);
    }
}

proof fn lemma_lineage_same(
    s: ContractState,
    t: ContractState,
    stream: crate::types::Stream,
    who: crate::types::Address,
)
    requires
        t.streams == s.streams,
    ensures
        s.lineage_error(stream, who) == t.lineage_error(stream, who),
    decreases stream.delegation_depth,
{
    if let Some(id) = stream.parent_stream_id {
        if s.streams.dom().contains(id) && s.streams[id].delegation_depth
            < stream.delegation_depth {
            lemma_lineage_same(s, t, s.streams[id], who);
        }
    }
}

/// An irrevocable stream is never cancelled or shortened, by anybody.
pub proof fn law_irrevocable_stays(s: ContractState, call: Call, id: u64, request: Request)
    requires
        s.streams[id].spec_irrevocable(),
        match request {
            Request::CancelStream { id: x } => x == id,
            Request::CancelStreamAsAdmin { id: x } => x == id,
            Request::WitnessedCancel { id: x, .. } => x == id,
            Request::KeeperCancel { id: x, .. } => x == id,
            Request::BulkCancel { ids, .. } => ids.contains(id),
            Request::Shorten { id: x, .. } => x == id,
            _ => false,
        },
    ensures
        s.refusal(call, request) is Some,
{
    if let Request::BulkCancel { sender, ids } = request {
        let i = choose|i: int| 0 <= i < ids.len() && ids[i] == id;
        lemma_bulk_cancel_refused(s, sender, ids, i, ids.len() as int);
    }
}

proof fn lemma_bulk_cancel_refused(
    s: ContractState,
    sender: crate::types::Address,
    ids: Seq<u64>,
    i: int,
    n: int,
)
    requires
        0 <= i < n <= ids.len(),
        s.bulk_cancel_item_error(sender, ids[i]) is Some,
    ensures
        s.bulk_cancel_items_error(sender, ids, n) is Some,
    decreases n,
{
    if i < n - 1 {
        lemma_bulk_cancel_refused(s, sender, ids, i, n - 1);
    }
}

/// The contract is initialised once: afterwards every attempt is refused.
pub proof fn law_initialised_once(
    s: ContractState,
    call: Call,
    token: crate::types::Address,
    admin: crate::types::Address,
    token_verified: bool,
)
    requires
        s.config is Some,
    ensures
        s.init_error(call, admin, token_verified) is Some,
{
}

/// Once the administration is handed over, the old administrator alone can do
/// nothing in its name any more, and the new one can.
pub proof fn law_admin_handed_over(
    s: ContractState,
    new_admin: crate::types::Address,
    call: Call,
)
    requires
    ensures
        s.set_admin_step(new_admin).admin() == Some(new_admin),
        s.set_admin_step(new_admin).config->0.token == s.config->0.token,
        s.set_admin_step(new_admin).admin_error(call) is None <==> call.authorised(new_admin),
{
}

/// No pooled stream is ever made.
pub proof fn law_pooled_streams_refused(
    s: ContractState,
    call: Call,
    params: crate::types::CreateStreamParams,
    shares: Seq<crate::types::PoolShare>,
)
    ensures
        s.create_pooled_error(call, params, shares) is Some,
{
}

/// A stream with relative times is never refused because it starts in the
/// past.
pub proof fn law_relative_start_never_past(
    s: ContractState,
    call: Call,
    sender: crate::types::Address,
    relative: crate::types::CreateStreamRelativeParams,
)
    ensures
        s.create_relative_error(call, sender, relative) != Some(ContractError::StartTimeInPast),
{
}

/// Pausing the protocol a second time does nothing, and neither does resuming
/// it a second time.
pub proof fn law_protocol_pause_is_idempotent(
    s: ContractState,
    call: Call,
    again: Call,
    admin: Address,
    text: Option<Text>,
    other: Option<Text>,
)
    ensures
        ({
            let t = s.pause_protocol_step(call, admin, text);
            t.pause_protocol_step(again, admin, other) == t
        }),
        ({
            let t = s.resume_protocol_step(call, admin);
            t.resume_protocol_step(again, admin) == t
        }),
{
}

/// A protocol pause is told of, with who called it and when.
pub proof fn law_protocol_pauses(s: ContractState, call: Call, admin: Address, text: Option<Text>)
    requires
        !s.creation_blocked(),
    ensures
        ({
            let t = s.pause_protocol_step(call, admin, text);
            &&& t.creation_blocked()
            &&& t.pause_info().is_paused
            &&& t.pause_info().paused_at == Some(call.timestamp)
            &&& t.pause_info().paused_by == Some(admin)
        }),
{
}

/// Once the protocol is resumed, whatever was paused, creation is open again
/// and nothing is told of a pause any more. This is announced only where
/// something was paused.
pub proof fn law_protocol_resumes(s: ContractState, call: Call, admin: Address)
    ensures
        ({
            let t = s.resume_protocol_step(call, admin);
            &&& !t.creation_blocked()
            &&& !t.emergency_paused
            &&& t.pause_info() == (PauseInfo {
                is_paused: false,
                reason: None,
                paused_at: None,
                paused_by: None,
            })
            &&& s.creation_blocked() <==> t.effects.len() == s.effects.len() + 1
            &&& !s.creation_blocked() ==> t == s
        }),
{
}

} // verus!
