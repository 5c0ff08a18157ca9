//! Time never runs backwards.

use crate::operations::Request;
use crate::state::{Call, ContractState};
use crate::types::{Address, CreateStreamParams};
use vstd::prelude::*;

verus! {

/// The time that the contract remembers is the old one, or that of a call which
/// is no earlier.
pub open spec fn onwards(s: ContractState, t: ContractState, now: u64) -> bool {
    ||| t.last_accrual_timestamp == s.last_accrual_timestamp
    ||| t.last_accrual_timestamp == Some(now) && s.clock_ok(now)
}

proof fn lemma_time_batch(s: ContractState, call: Call, ids: Seq<u64>, n: int)
    requires
        0 <= n,
    ensures
        s.batch_step(call, ids, n).last_accrual_timestamp == Some(call.timestamp),
    decreases n,
{
    if n > 0 {
        lemma_time_batch(s, call, ids, n - 1);
    }
}

proof fn lemma_time_resumes(s: ContractState, call: Call, ids: Seq<u64>, n: int)
    ensures
        s.bulk_resume_step(call, ids, n).last_accrual_timestamp == s.last_accrual_timestamp,
    decreases n,
{
    if n > 0 {
        lemma_time_resumes(s, call, ids, n - 1);
    }
}

proof fn lemma_time_cancels(s: ContractState, now: u64, ids: Seq<u64>, n: int)
    ensures
        s.bulk_cancel_all(now, ids, n).last_accrual_timestamp == s.last_accrual_timestamp,
    decreases n,
{
    if n > 0 {
        lemma_time_cancels(s, now, ids, n - 1);
    }
}

proof fn lemma_time_register_all(
    s: ContractState,
    sender: Address,
    batch: Seq<CreateStreamParams>,
    n: int,
)
    ensures
        s.register_all(sender, batch, n).last_accrual_timestamp == s.last_accrual_timestamp,
    decreases n,
{
    if n > 0 {
        lemma_time_register_all(s, sender, batch, n - 1);
    }
}

proof fn lemma_time_partial(
    s: ContractState,
    sender: Address,
    now: u64,
    batch: Seq<CreateStreamParams>,
    transfers: Seq<bool>,
    n: int,
)
    ensures
        s.partial_step(sender, now, batch, transfers, n).last_accrual_timestamp
            == s.last_accrual_timestamp,
    decreases n,
{
    if n > 0 {
        lemma_time_partial(s, sender, now, batch, transfers, n - 1);
    }
}

/// New streams leave the time alone.
#[verifier::rlimit(50)]
#[verifier::spinoff_prover]
proof fn lemma_time_by_creation(s: ContractState, call: Call, request: Request)
    requires
        s.refusal(call, request) is None,
        match request {
            Request::CreateStream { .. } => true,
            Request::CreateStreamRelative { .. } => true,
            Request::CreateStreams { .. } => true,
            Request::CreateStreamsRelative { .. } => true,
            Request::CreateStreamsPartial { .. } => true,
            Request::Delegate { .. } => true,
            Request::Renew { .. } => true,
            Request::CloneStream { .. } => true,
            Request::AcceptOffer { .. } => true,
            Request::CreateOffer { .. } => true,
            _ => false,
        },
    ensures
        onwards(s, s.effect_of(call, request), call.timestamp),
{
    let t = s.effect_of(call, request);
    match request {
        Request::CreateStream { .. } => {
            assert(onwards(s, t, call.timestamp));
        },
        Request::CreateStreamRelative { .. } => {
            assert(onwards(s, t, call.timestamp));
        },
        Request::CreateStreams { sender, batch } => {
            assert(onwards(s, t, call.timestamp)) by {
                let n = batch.len() as int;
                let paid = s.pull(sender, crate::creation::total_deposit(batch, n) as i128);
                lemma_time_register_all(paid, sender, batch, n);
            }
        },
        Request::CreateStreamsRelative { sender, relative_batch } => {
            assert(onwards(s, t, call.timestamp)) by {
                let batch = crate::creation::dated_batch(relative_batch, call.timestamp);
                let n = batch.len() as int;
                let paid = s.pull(sender, crate::creation::total_deposit(batch, n) as i128);
                lemma_time_register_all(paid, sender, batch, n);
            }
        },
        Request::CreateStreamsPartial { sender, batch, transfers } => {
            assert(onwards(s, t, call.timestamp)) by {
                lemma_time_partial(s, sender, call.timestamp, batch, transfers, batch.len() as int);
            }
        },
        Request::Delegate { .. } => {
            assert(onwards(s, t, call.timestamp));
        },
        Request::Renew { .. } => {
            assert(onwards(s, t, call.timestamp));
        },
        Request::CloneStream { .. } => {
            assert(onwards(s, t, call.timestamp));
        },
        Request::AcceptOffer { .. } => {
            assert(onwards(s, t, call.timestamp));
        },
        Request::CreateOffer { .. } => {
            assert(onwards(s, t, call.timestamp));
        },
        _ => {},
    }
}

/// Withdrawals record the time.
#[verifier::rlimit(50)]
#[verifier::spinoff_prover]
proof fn lemma_time_by_withdrawal(s: ContractState, call: Call, request: Request)
    requires
        s.refusal(call, request) is None,
        match request {
            Request::Withdraw { .. } => true,
            Request::WithdrawTo { .. } => true,
            Request::WithdrawFromPool { .. } => true,
            Request::BatchWithdraw { .. } => true,
            Request::DelegatedWithdraw { .. } => true,
            Request::TriggerAutoClaim { .. } => true,
            _ => false,
        },
    ensures
        onwards(s, s.effect_of(call, request), call.timestamp),
{
    let t = s.effect_of(call, request);
    match request {
        Request::Withdraw { .. } => {
            assert(onwards(s, t, call.timestamp));
        },
        Request::WithdrawTo { .. } => {
            assert(onwards(s, t, call.timestamp));
        },
        Request::WithdrawFromPool { .. } => {
            assert(onwards(s, t, call.timestamp));
        },
        Request::BatchWithdraw { who, withdrawals } => {
            assert(onwards(s, t, call.timestamp)) by {
                let ids = crate::batch::targets(withdrawals);
                lemma_time_batch(s, call, ids, ids.len() as int);
            }
        },
        Request::DelegatedWithdraw { .. } => {
            assert(onwards(s, t, call.timestamp));
        },
        Request::TriggerAutoClaim { .. } => {
            assert(onwards(s, t, call.timestamp));
        },
        _ => {},
    }
}

/// Changes of streams record the time.
#[verifier::rlimit(50)]
#[verifier::spinoff_prover]
proof fn lemma_time_by_change(s: ContractState, call: Call, request: Request)
    requires
        s.refusal(call, request) is None,
        match request {
            Request::PauseStream { .. } => true,
            Request::ResumeStream { .. } => true,
            Request::PauseStreamAsAdmin { .. } => true,
            Request::ResumeStreamAsAdmin { .. } => true,
            Request::CancelStream { .. } => true,
            Request::CancelStreamAsAdmin { .. } => true,
            Request::WitnessedCancel { .. } => true,
            Request::KeeperCancel { .. } => true,
            Request::UpdateRatePerSecond { .. } => true,
            Request::DecreaseRate { .. } => true,
            Request::UpdateRate { .. } => true,
            Request::Shorten { .. } => true,
            Request::Extend { .. } => true,
            Request::TopUp { .. } => true,
            Request::AcceptRecipient { .. } => true,
            Request::TransferClaim { .. } => true,
            Request::BulkResume { .. } => true,
            Request::BulkCancel { .. } => true,
            _ => false,
        },
    ensures
        onwards(s, s.effect_of(call, request), call.timestamp),
{
    let t = s.effect_of(call, request);
    match request {
        Request::PauseStream { .. } => {
            assert(onwards(s, t, call.timestamp));
        },
        Request::ResumeStream { .. } => {
            assert(onwards(s, t, call.timestamp));
        },
        Request::PauseStreamAsAdmin { .. } => {
            assert(onwards(s, t, call.timestamp));
        },
        Request::ResumeStreamAsAdmin { .. } => {
            assert(onwards(s, t, call.timestamp));
        },
        Request::CancelStream { .. } => {
            assert(onwards(s, t, call.timestamp));
        },
        Request::CancelStreamAsAdmin { .. } => {
            assert(onwards(s, t, call.timestamp));
        },
        Request::WitnessedCancel { .. } => {
            assert(onwards(s, t, call.timestamp));
        },
        Request::KeeperCancel { .. } => {
            assert(onwards(s, t, call.timestamp));
        },
        Request::UpdateRatePerSecond { .. } => {
            assert(onwards(s, t, call.timestamp));
        },
        Request::DecreaseRate { .. } => {
            assert(onwards(s, t, call.timestamp));
        },
        Request::UpdateRate { .. } => {
            assert(onwards(s, t, call.timestamp));
        },
        Request::Shorten { .. } => {
            assert(onwards(s, t, call.timestamp));
        },
        Request::Extend { .. } => {
            assert(onwards(s, t, call.timestamp));
        },
        Request::TopUp { .. } => {
            assert(onwards(s, t, call.timestamp));
        },
        Request::AcceptRecipient { .. } => {
            assert(onwards(s, t, call.timestamp));
        },
        Request::TransferClaim { .. } => {
            assert(onwards(s, t, call.timestamp));
        },
        Request::BulkResume { ids } => {
            assert(onwards(s, t, call.timestamp)) by {
                lemma_time_resumes(s, call, ids, ids.len() as int);
            }
        },
        Request::BulkCancel { sender, ids } => {
            assert(onwards(s, t, call.timestamp)) by {
                lemma_time_cancels(s, call.timestamp, ids, ids.len() as int);
            }
        },
        _ => {},
    }
}

/// Everything else leaves the time alone, or records it.
#[verifier::rlimit(50)]
#[verifier::spinoff_prover]
proof fn lemma_time_otherwise(s: ContractState, call: Call, request: Request)
    requires
        s.refusal(call, request) is None,
        match request {
            Request::Init { .. } => true,
            Request::CreatePooledStream { .. } => true,
            Request::CalculateAccrued { .. } => true,
            Request::GetWithdrawable { .. } => true,
            Request::GetAutoClaimStatus { .. } => true,
            Request::SetAutoRenew { .. } => true,
            Request::CloseCompleted { .. } => true,
            Request::CloseCancelled { .. } => true,
            Request::SetLookback { .. } => true,
            Request::RegisterTemplate { .. } => true,
            Request::DeleteTemplate { .. } => true,
            Request::UpdateRecipient { .. } => true,
            Request::CancelRecipient { .. } => true,
            Request::SetAutoClaim { .. } => true,
            Request::RevokeAutoClaim { .. } => true,
            Request::RejectOffer { .. } => true,
            Request::CancelOffer { .. } => true,
            Request::ReserveIds { .. } => true,
            Request::ReleaseIds { .. } => true,
            Request::ReclaimIds { .. } => true,
            Request::SetAdmin { .. } => true,
            Request::SetMaxRate { .. } => true,
            Request::SetEmergencyPaused { .. } => true,
            Request::GlobalResume => true,
            Request::SetContractPaused { .. } => true,
            Request::PauseProtocol { .. } => true,
            Request::ResumeProtocol { .. } => true,
            Request::Sweep { .. } => true,
            Request::Upgrade { .. } => true,
            _ => false,
        },
    ensures
        onwards(s, s.effect_of(call, request), call.timestamp),
{
    let t = s.effect_of(call, request);
    match request {
        Request::Init { .. } => {
            assert(onwards(s, t, call.timestamp));
        },
        Request::CreatePooledStream { .. } => {
            assert(onwards(s, t, call.timestamp));
        },
        Request::CalculateAccrued { .. } => {
            assert(onwards(s, t, call.timestamp));
        },
        Request::GetWithdrawable { .. } => {
            assert(onwards(s, t, call.timestamp));
        },
        Request::GetAutoClaimStatus { .. } => {
            assert(onwards(s, t, call.timestamp));
        },
        Request::SetAutoRenew { .. } => {
            assert(onwards(s, t, call.timestamp));
        },
        Request::CloseCompleted { .. } => {
            assert(onwards(s, t, call.timestamp));
        },
        Request::CloseCancelled { .. } => {
            assert(onwards(s, t, call.timestamp));
        },
        Request::SetLookback { .. } => {
            assert(onwards(s, t, call.timestamp));
        },
        Request::RegisterTemplate { .. } => {
            assert(onwards(s, t, call.timestamp));
        },
        Request::DeleteTemplate { .. } => {
            assert(onwards(s, t, call.timestamp));
        },
        Request::UpdateRecipient { .. } => {
            assert(onwards(s, t, call.timestamp));
        },
        Request::CancelRecipient { .. } => {
            assert(onwards(s, t, call.timestamp));
        },
        Request::SetAutoClaim { .. } => {
            assert(onwards(s, t, call.timestamp));
        },
        Request::RevokeAutoClaim { .. } => {
            assert(onwards(s, t, call.timestamp));
        },
        Request::RejectOffer { .. } => {
            assert(onwards(s, t, call.timestamp));
        },
        Request::CancelOffer { .. } => {
            assert(onwards(s, t, call.timestamp));
        },
        Request::ReserveIds { .. } => {
            assert(onwards(s, t, call.timestamp));
        },
        Request::ReleaseIds { .. } => {
            assert(onwards(s, t, call.timestamp));
        },
        Request::ReclaimIds { .. } => {
            assert(onwards(s, t, call.timestamp));
        },
        Request::SetAdmin { .. } => {
            assert(onwards(s, t, call.timestamp));
        },
        Request::SetMaxRate { .. } => {
            assert(onwards(s, t, call.timestamp));
        },
        Request::SetEmergencyPaused { .. } => {
            assert(onwards(s, t, call.timestamp));
        },
        Request::GlobalResume => {
            assert(onwards(s, t, call.timestamp));
        },
        Request::SetContractPaused { .. } => {
            assert(onwards(s, t, call.timestamp));
        },
        Request::PauseProtocol { .. } => {
            assert(onwards(s, t, call.timestamp));
        },
        Request::ResumeProtocol { .. } => {
            assert(onwards(s, t, call.timestamp));
        },
        Request::Sweep { .. } => {
            assert(onwards(s, t, call.timestamp));
        },
        Request::Upgrade { .. } => {
            assert(onwards(s, t, call.timestamp));
        },
        _ => {},
    }
}

/// Whatever is asked of the contract, the time that it remembers never goes
/// back.
pub proof fn law_time_never_goes_back(s: ContractState, call: Call, request: Request)
    ensures
        onwards(s, s.after(call, request), call.timestamp),
{
    if s.refusal(call, request) is None {
        match request {
            Request::CreateStream { .. }
            | Request::CreateStreamRelative { .. }
            | Request::CreateStreams { .. }
            | Request::CreateStreamsRelative { .. }
            | Request::CreateStreamsPartial { .. }
            | Request::Delegate { .. }
            | Request::Renew { .. }
            | Request::CloneStream { .. }
            | Request::AcceptOffer { .. }
            | Request::CreateOffer { .. } => {
                lemma_time_by_creation(s, call, request);
            },
            Request::Withdraw { .. }
            | Request::WithdrawTo { .. }
            | Request::WithdrawFromPool { .. }
            | Request::BatchWithdraw { .. }
            | Request::DelegatedWithdraw { .. }
            | Request::TriggerAutoClaim { .. } => {
                lemma_time_by_withdrawal(s, call, request);
            },
            Request::PauseStream { .. }
            | Request::ResumeStream { .. }
            | Request::PauseStreamAsAdmin { .. }
            | Request::ResumeStreamAsAdmin { .. }
            | Request::CancelStream { .. }
            | Request::CancelStreamAsAdmin { .. }
            | Request::WitnessedCancel { .. }
            | Request::KeeperCancel { .. }
            | Request::UpdateRatePerSecond { .. }
            | Request::DecreaseRate { .. }
            | Request::UpdateRate { .. }
            | Request::Shorten { .. }
            | Request::Extend { .. }
            | Request::TopUp { .. }
            | Request::AcceptRecipient { .. }
            | Request::TransferClaim { .. }
            | Request::BulkResume { .. }
            | Request::BulkCancel { .. } => {
                lemma_time_by_change(s, call, request);
            },
            Request::Init { .. }
            | Request::CreatePooledStream { .. }
            | Request::CalculateAccrued { .. }
            | Request::GetWithdrawable { .. }
            | Request::GetAutoClaimStatus { .. }
            | Request::SetAutoRenew { .. }
            | Request::CloseCompleted { .. }
            | Request::CloseCancelled { .. }
            | Request::SetLookback { .. }
            | Request::RegisterTemplate { .. }
            | Request::DeleteTemplate { .. }
            | Request::UpdateRecipient { .. }
            | Request::CancelRecipient { .. }
            | Request::SetAutoClaim { .. }
            | Request::RevokeAutoClaim { .. }
            | Request::RejectOffer { .. }
            | Request::CancelOffer { .. }
            | Request::ReserveIds { .. }
            | Request::ReleaseIds { .. }
            | Request::ReclaimIds { .. }
            | Request::SetAdmin { .. }
            | Request::SetMaxRate { .. }
            | Request::SetEmergencyPaused { .. }
            | Request::GlobalResume
            | Request::SetContractPaused { .. }
            | Request::PauseProtocol { .. }
            | Request::ResumeProtocol { .. }
            | Request::Sweep { .. }
            | Request::Upgrade { .. } => {
                lemma_time_otherwise(s, call, request);
            },
        }
    }
}

} // verus!
