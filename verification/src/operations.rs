//! Everything that can be asked of the contract, as one type, so that laws can
//! speak of all operations at once.

use crate::delegated::DelegatedWithdrawal;
use crate::state::{Call, ContractState};
use crate::types::{
    Address, ContractError, CreateStreamParams, CreateStreamRelativeParams, PauseReason,
    PoolShare, Text, WithdrawToParam, Word,
};
use vstd::prelude::*;

verus! {

/// An operation with its arguments. A stream that is made from a template is
/// one with relative times.
pub enum Request {
    Init { token: Address, admin: Address, token_verified: bool },
    CreateStream { sender: Address, params: CreateStreamParams },
    CreateStreamRelative { sender: Address, relative: CreateStreamRelativeParams },
    CreateStreams { sender: Address, batch: Seq<CreateStreamParams> },
    CreateStreamsRelative { sender: Address, relative_batch: Seq<CreateStreamRelativeParams> },
    CreateStreamsPartial {
        sender: Address,
        batch: Seq<CreateStreamParams>,
        transfers: Seq<bool>,
    },
    CreatePooledStream { params: CreateStreamParams, shares: Seq<PoolShare> },
    CalculateAccrued { id: u64 },
    GetWithdrawable { id: u64 },
    GetAutoClaimStatus { id: u64 },
    Withdraw { id: u64 },
    WithdrawTo { id: u64, destination: Address },
    WithdrawFromPool { id: u64, who: Address },
    BatchWithdraw { who: Address, withdrawals: Seq<WithdrawToParam> },
    DelegatedWithdraw { request: DelegatedWithdrawal },
    PauseStream { id: u64, reason: PauseReason },
    ResumeStream { id: u64 },
    PauseStreamAsAdmin { id: u64, reason: PauseReason },
    ResumeStreamAsAdmin { id: u64 },
    CancelStream { id: u64 },
    CancelStreamAsAdmin { id: u64 },
    WitnessedCancel { id: u64, key: Word, deadline: u64, signature_valid: bool },
    KeeperCancel { id: u64, keeper: Address },
    BulkResume { ids: Seq<u64> },
    BulkCancel { sender: Address, ids: Seq<u64> },
    UpdateRatePerSecond { id: u64, rate: i128 },
    DecreaseRate { id: u64, rate: i128 },
    UpdateRate { id: u64, rate: i128, caller: Address },
    Shorten { id: u64, end_time: u64 },
    Extend { id: u64, end_time: u64 },
    TopUp { id: u64, funder: Address, amount: i128 },
    Delegate { id: u64, recipient: Address, share_bps: u32, new_recipient: Address },
    SetAutoRenew { id: u64, sender: Address, enabled: bool },
    Renew { id: u64, balance: i128, allowance: i128 },
    CloseCompleted { id: u64 },
    CloseCancelled { id: u64 },
    SetLookback { id: u64, sender: Address, ledgers: Option<u32> },
    RegisterTemplate { owner: Address, start_delay: u64, cliff_delay: u64, duration: u64 },
    DeleteTemplate { owner: Address, id: u64 },
    UpdateRecipient { id: u64, new_recipient: Address },
    AcceptRecipient { id: u64 },
    CancelRecipient { id: u64 },
    TransferClaim { id: u64, current: Address, new_owner: Address },
    SetAutoClaim { id: u64, destination: Address },
    RevokeAutoClaim { id: u64 },
    TriggerAutoClaim { id: u64 },
    CreateOffer { sender: Address, params: CreateStreamParams, expiry: Option<u64> },
    AcceptOffer { recipient: Address, id: u64 },
    RejectOffer { recipient: Address, id: u64 },
    CancelOffer { sender: Address, id: u64 },
    ReserveIds { caller: Address, count: u32, expiry: Option<u64> },
    ReleaseIds { caller: Address },
    ReclaimIds { holder: Address },
    CloneStream {
        id: u64,
        new_recipient: Address,
        start_time: u64,
        end_time: u64,
        deposit: i128,
        force: bool,
    },
    SetAdmin { new_admin: Address },
    SetMaxRate { max_rate: i128 },
    SetEmergencyPaused { paused: bool },
    GlobalResume,
    SetContractPaused { paused: bool },
    PauseProtocol { admin: Address, text: Option<Text> },
    ResumeProtocol { admin: Address },
    Sweep { recipient: Address },
    Upgrade { new_wasm_hash: Word },
}

impl Request {
    /// How many stream identifiers the operation may use up.
    pub open spec fn ids_needed(self) -> int {
        match self {
            Request::CreateStream { .. } => 1,
            Request::CreateStreamRelative { .. } => 1,
            Request::CreateStreams { batch, .. } => batch.len() as int,
            Request::CreateStreamsRelative { relative_batch, .. } => relative_batch.len() as int,
            Request::CreateStreamsPartial { batch, .. } => batch.len() as int,
            Request::CreatePooledStream { .. } => 1,
            Request::Delegate { .. } => 1,
            Request::Renew { .. } => 1,
            Request::CreateOffer { .. } => 1,
            Request::ReserveIds { count, .. } => count as int,
            Request::CloneStream { .. } => 1,
            _ => 0,
        }
    }

    /// Whether the emergency pause blocks the operation: all that users ask
    /// for, apart from reading, from cleaning up settled streams and from
    /// taking an offer back. What the administrator does goes on.
    pub open spec fn guarded(self) -> bool {
        match self {
            Request::CreateStreams { batch, .. } => batch.len() > 0,
            Request::CreateStreamsRelative { relative_batch, .. } => relative_batch.len() > 0,
            Request::CreateStreamsPartial { batch, .. } => batch.len() > 0,
            Request::CalculateAccrued { .. } => false,
            Request::GetWithdrawable { .. } => false,
            Request::GetAutoClaimStatus { .. } => false,
            Request::CloseCompleted { .. } => false,
            Request::CloseCancelled { .. } => false,
            Request::CancelOffer { .. } => false,
            Request::PauseStreamAsAdmin { .. } => false,
            Request::ResumeStreamAsAdmin { .. } => false,
            Request::CancelStreamAsAdmin { .. } => false,
            Request::BulkResume { .. } => false,
            Request::Init { .. } => false,
            Request::SetAdmin { .. } => false,
            Request::SetMaxRate { .. } => false,
            Request::SetEmergencyPaused { .. } => false,
            Request::GlobalResume => false,
            Request::SetContractPaused { .. } => false,
            Request::PauseProtocol { .. } => false,
            Request::ResumeProtocol { .. } => false,
            Request::Sweep { .. } => false,
            Request::Upgrade { .. } => false,
            _ => true,
        }
    }

    /// Whether the operation makes a stream or an offer, which the pause of
    /// stream creation blocks.
    pub open spec fn creates(self) -> bool {
        match self {
            Request::CreateStream { .. } => true,
            Request::CreateStreamRelative { .. } => true,
            Request::CreateStreams { batch, .. } => batch.len() > 0,
            Request::CreateStreamsRelative { relative_batch, .. } => relative_batch.len() > 0,
            Request::CreateStreamsPartial { batch, .. } => batch.len() > 0,
            Request::CreatePooledStream { .. } => true,
            Request::CreateOffer { .. } => true,
            Request::CloneStream { .. } => true,
            _ => false,
        }
    }
}

impl ContractState {
    /// Why an operation is refused.
    pub open spec fn refusal(self, call: Call, request: Request) -> Option<ContractError> {
        match request {
            Request::Init { token, admin, token_verified } => self.init_error(
                call,
                admin,
                token_verified,
            ),
            Request::CreateStream { sender, params } => self.create_error(call, sender, params),
            Request::CreateStreamRelative { sender, relative } => self.create_relative_error(
                call,
                sender,
                relative,
            ),
            Request::CreateStreams { sender, batch } => self.create_all_error(
                call,
                sender,
                batch,
            ),
            Request::CreateStreamsRelative {
                sender,
                relative_batch,
            } => self.create_all_relative_error(call, sender, relative_batch),
            Request::CreateStreamsPartial { sender, batch, transfers } => self.create_partial_error(
                call,
                sender,
                batch,
            ),
            Request::CreatePooledStream { params, shares } => self.create_pooled_error(
                call,
                params,
                shares,
            ),
            Request::CalculateAccrued { id } => self.calculate_accrued_error(call, id),
            Request::GetWithdrawable { id } => self.get_withdrawable_error(call, id),
            Request::GetAutoClaimStatus { id } => self.auto_claim_status_error(call, id),
            Request::Withdraw { id } => self.withdraw_error(call, id),
            Request::WithdrawTo { id, destination } => self.withdraw_to_error(
                call,
                id,
                destination,
            ),
            Request::WithdrawFromPool { id, who } => self.withdraw_from_pool_error(call, id, who),
            Request::BatchWithdraw { who, withdrawals } => self.batch_withdraw_error(
                call,
                who,
                withdrawals,
            ),
            Request::DelegatedWithdraw { request } => self.delegated_withdraw_error(call, request),
            Request::PauseStream { id, reason } => self.pause_stream_error(call, id),
            Request::ResumeStream { id } => self.resume_stream_error(call, id),
            Request::PauseStreamAsAdmin { id, reason } => self.pause_as_admin_error(call, id),
            Request::ResumeStreamAsAdmin { id } => self.resume_as_admin_error(call, id),
            Request::CancelStream { id } => self.cancel_stream_error(call, id),
            Request::CancelStreamAsAdmin { id } => self.cancel_as_admin_error(call, id),
            Request::WitnessedCancel { id, key, deadline, signature_valid } =>
                self.witnessed_cancel_error(call, id, key, deadline, signature_valid),
            Request::KeeperCancel { id, keeper } => self.keeper_cancel_error(call, id, keeper),
            Request::BulkResume { ids } => self.bulk_resume_error(call, ids),
            Request::BulkCancel { sender, ids } => self.bulk_cancel_error(call, sender, ids),
            Request::UpdateRatePerSecond { id, rate } => self.update_rate_per_second_error(
                call,
                id,
                rate,
            ),
            Request::DecreaseRate { id, rate } => self.decrease_rate_error(call, id, rate),
            Request::UpdateRate { id, rate, caller } => self.update_rate_error(
                call,
                id,
                rate,
                caller,
            ),
            Request::Shorten { id, end_time } => self.shorten_error(call, id, end_time),
            Request::Extend { id, end_time } => self.extend_error(call, id, end_time),
            Request::TopUp { id, funder, amount } => self.top_up_error(call, id, funder, amount),
            Request::Delegate { id, recipient, share_bps, new_recipient } => self.delegate_error(
                call,
                id,
                recipient,
                share_bps,
                new_recipient,
            ),
            Request::SetAutoRenew { id, sender, enabled } => self.set_auto_renew_error(
                call,
                id,
                sender,
            ),
            Request::Renew { id, balance, allowance } => self.renew_error(
                call,
                id,
                balance,
                allowance,
            ),
            Request::CloseCompleted { id } => self.close_completed_error(id),
            Request::CloseCancelled { id } => self.close_cancelled_error(id),
            Request::SetLookback { id, sender, ledgers } => self.set_lookback_error(
                call,
                id,
                sender,
                ledgers,
            ),
            Request::RegisterTemplate { owner, start_delay, cliff_delay, duration } =>
                self.register_template_error(call, owner, start_delay, cliff_delay, duration),
            Request::DeleteTemplate { owner, id } => self.delete_template_error(call, owner, id),
            Request::UpdateRecipient { id, new_recipient } => self.update_recipient_error(
                call,
                id,
                new_recipient,
            ),
            Request::AcceptRecipient { id } => self.accept_recipient_error(call, id),
            Request::CancelRecipient { id } => self.cancel_recipient_error(call, id),
            Request::TransferClaim { id, current, new_owner } => self.transfer_claim_error(
                call,
                id,
                current,
            ),
            Request::SetAutoClaim { id, destination } => self.set_auto_claim_error(
                call,
                id,
                destination,
            ),
            Request::RevokeAutoClaim { id } => self.revoke_auto_claim_error(call, id),
            Request::TriggerAutoClaim { id } => self.trigger_auto_claim_error(call, id),
            Request::CreateOffer { sender, params, expiry } => self.create_offer_error(
                call,
                sender,
                params,
                expiry,
            ),
            Request::AcceptOffer { recipient, id } => self.accept_offer_error(
                call,
                recipient,
                id,
            ),
            Request::RejectOffer { recipient, id } => self.reject_offer_error(
                call,
                recipient,
                id,
            ),
            Request::CancelOffer { sender, id } => self.cancel_offer_error(call, sender, id),
            Request::ReserveIds { caller, count, expiry } => self.reserve_error(
                call,
                caller,
                count,
            ),
            Request::ReleaseIds { caller } => self.release_error(call, caller),
            Request::ReclaimIds { holder } => self.reclaim_error(call, holder),
            Request::CloneStream { id, new_recipient, start_time, end_time, deposit, force } =>
                self.clone_error(call, id, new_recipient, start_time, end_time, deposit, force),
            Request::SetAdmin { new_admin } => self.admin_error(call),
            Request::SetMaxRate { max_rate } => self.set_max_rate_error(call, max_rate),
            Request::SetEmergencyPaused { paused } => self.admin_error(call),
            Request::GlobalResume => self.global_resume_error(call),
            Request::SetContractPaused { paused } => self.admin_error(call),
            Request::PauseProtocol { admin, text } => self.pause_protocol_error(
                call,
                admin,
                text,
            ),
            Request::ResumeProtocol { admin } => self.named_admin_error(call, admin),
            Request::Sweep { recipient } => self.sweep_error(call),
            Request::Upgrade { new_wasm_hash } => self.admin_error(call),
        }
    }

    /// The state after an operation that is not refused.
    pub open spec fn effect_of(self, call: Call, request: Request) -> Self {
        match request {
            Request::Init { token, admin, token_verified } => self.init_step(token, admin),
            Request::CreateStream { sender, params } => self.create_step(sender, params),
            Request::CreateStreamRelative { sender, relative } => self.create_step(
                sender,
                relative.dated(call.timestamp),
            ),
            Request::CreateStreams { sender, batch } => self.create_all_step(sender, batch),
            Request::CreateStreamsRelative { sender, relative_batch } => self.create_all_step(
                sender,
                crate::creation::dated_batch(relative_batch, call.timestamp),
            ),
            Request::CreateStreamsPartial { sender, batch, transfers } => self.partial_step(
                sender,
                call.timestamp,
                batch,
                transfers,
                batch.len() as int,
            ),
            Request::CreatePooledStream { params, shares } => self.create_pooled_step(
                params,
                shares,
            ),
            Request::CalculateAccrued { id } => self.accrue(self.streams[id], call.timestamp),
            Request::GetWithdrawable { id } => self.get_withdrawable_step(call, id),
            Request::GetAutoClaimStatus { id } => self.auto_claim_status_step(call, id),
            Request::Withdraw { id } => self.withdraw_step(call, id),
            Request::WithdrawTo { id, destination } => self.withdraw_to_step(
                call,
                id,
                destination,
            ),
            Request::WithdrawFromPool { id, who } => self.withdraw_from_pool_step(call, id, who),
            Request::BatchWithdraw { who, withdrawals } => self.batch_step(
                call,
                crate::batch::targets(withdrawals),
                withdrawals.len() as int,
            ),
            Request::DelegatedWithdraw { request } => self.delegated_withdraw_step(call, request),
            Request::PauseStream { id, reason } => self.pause(call, id).announce_pause(id, reason),
            Request::ResumeStream { id } => self.resume(call, self.streams[id]),
            Request::PauseStreamAsAdmin { id, reason } => (ContractState {
                last_stream_pause: Some(
                    crate::types::PauseRecord {
                        actor: self.admin()->0,
                        timestamp: call.timestamp,
                        reason,
                    },
                ),
                ..self.pause(call, id)
            }).announce_pause(id, reason),
            Request::ResumeStreamAsAdmin { id } => self.resume(call, self.streams[id]),
            Request::CancelStream { id } => self.cancel(self.streams[id], call.timestamp),
            Request::CancelStreamAsAdmin { id } => self.cancel(self.streams[id], call.timestamp),
            Request::WitnessedCancel { id, key, deadline, signature_valid } => self.cancel(
                self.streams[id],
                call.timestamp,
            ),
            Request::KeeperCancel { id, keeper } => self.keeper_cancel_step(call, id, keeper),
            Request::BulkResume { ids } => self.bulk_resume_step(call, ids, ids.len() as int),
            Request::BulkCancel { sender, ids } => self.bulk_cancel_step(
                call.timestamp,
                sender,
                ids,
            ),
            Request::UpdateRatePerSecond { id, rate } => self.update_rate_per_second_step(
                call,
                id,
                rate,
            ),
            Request::DecreaseRate { id, rate } => self.decrease_rate_step(call, id, rate),
            Request::UpdateRate { id, rate, caller } => self.update_rate_step(call, id, rate),
            Request::Shorten { id, end_time } => self.shorten_step(call, id, end_time),
            Request::Extend { id, end_time } => self.extend_step(call, id, end_time),
            Request::TopUp { id, funder, amount } => self.top_up_step(call, id, funder, amount),
            Request::Delegate { id, recipient, share_bps, new_recipient } => self.delegate_step(
                call,
                id,
                share_bps,
                new_recipient,
            ),
            Request::SetAutoRenew { id, sender, enabled } => self.with_renewal(id, enabled),
            Request::Renew { id, balance, allowance } => self.renew_step(call, id),
            Request::CloseCompleted { id } => self.close(id),
            Request::CloseCancelled { id } => self.close(id),
            Request::SetLookback { id, sender, ledgers } => self.with_lookback(id, ledgers),
            Request::RegisterTemplate { owner, start_delay, cliff_delay, duration } =>
                self.register_template_step(owner, start_delay, cliff_delay, duration),
            Request::DeleteTemplate { owner, id } => self.delete_template_step(owner, id),
            Request::UpdateRecipient { id, new_recipient } => self.update_recipient_step(
                id,
                new_recipient,
            ),
            Request::AcceptRecipient { id } => self.accept_recipient_step(call, id),
            Request::CancelRecipient { id } => self.cancel_recipient_step(id),
            Request::TransferClaim { id, current, new_owner } => self.transfer_claim_step(
                call,
                id,
                new_owner,
            ),
            Request::SetAutoClaim { id, destination } => self.set_auto_claim_step(id, destination),
            Request::RevokeAutoClaim { id } => self.revoke_auto_claim_step(id),
            Request::TriggerAutoClaim { id } => self.trigger_auto_claim_step(call, id),
            Request::CreateOffer { sender, params, expiry } => self.create_offer_step(
                call,
                sender,
                params,
                expiry,
            ),
            Request::AcceptOffer { recipient, id } => self.accept_offer_step(call, id),
            Request::RejectOffer { recipient, id } => self.drop_offer_step(id, recipient),
            Request::CancelOffer { sender, id } => self.drop_offer_step(id, sender),
            Request::ReserveIds { caller, count, expiry } => self.reserve_step(
                caller,
                count,
                expiry,
            ),
            Request::ReleaseIds { caller } => self.release(caller),
            Request::ReclaimIds { holder } => self.release(holder),
            Request::CloneStream { id, new_recipient, start_time, end_time, deposit, force } =>
                self.clone_step(id, new_recipient, start_time, end_time, deposit),
            Request::SetAdmin { new_admin } => self.set_admin_step(new_admin),
            Request::SetMaxRate { max_rate } => ContractState {
                max_rate_per_second: max_rate,
                ..self
            },
            Request::SetEmergencyPaused { paused } => (ContractState {
                emergency_paused: paused,
                ..self
            }).emit(
                crate::events::Event::EmergencyPause(
                    crate::events::GlobalEmergencyPauseChanged { paused },
                ),
            ),
            Request::GlobalResume => (ContractState { emergency_paused: false, ..self }).emit(
                crate::events::Event::GlobalResumed(
                    crate::events::GlobalResumed { resumed_at: call.timestamp },
                ),
            ),
            Request::SetContractPaused { paused } => (ContractState {
                creation_paused: paused,
                ..self
            }).emit(
                crate::events::Event::CreationPause(
                    crate::events::ContractPauseChanged { paused },
                ),
            ),
            Request::PauseProtocol { admin, text } => self.pause_protocol_step(call, admin, text),
            Request::ResumeProtocol { admin } => self.resume_protocol_step(call, admin),
            Request::Sweep { recipient } => self.sweep_step(call, recipient),
            Request::Upgrade { new_wasm_hash } => self.upgrade_step(call, new_wasm_hash),
        }
    }

    /// The state after an operation, refused or not: a refusal changes
    /// nothing.
    pub open spec fn after(self, call: Call, request: Request) -> Self {
        match self.refusal(call, request) {
            Some(_) => self,
            None => self.effect_of(call, request),
        }
    }
}

} // verus!
