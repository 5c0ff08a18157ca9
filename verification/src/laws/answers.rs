//! What the entry points do is what the requests mean, and what they answer is
//! what the state holds.

use crate::accrual::CheckpointState;
use crate::delegated::DelegatedWithdrawal;
use crate::events::{
    ContractPauseChanged, Effect, Event, GlobalEmergencyPauseChanged, GlobalResumed, StreamEvent,
    StreamOfferCancelled,
};
use crate::operations::Request;
use crate::state::{Call, ContractState, FluxoraStream};
use crate::types::{
    Address, AutoClaimStatus, BatchWithdrawResult, Bytes, Config, ContractError,
    CreateStreamParams, CreateStreamRelativeParams, CreateStreamResult, IdReservation, Metadata,
    Page, PauseInfo, PauseReason, PendingRecipientUpdate, PoolShare, PortfolioHealthPage, Stream,
    StreamHealth, StreamKind, StreamOffer, StreamScheduleTemplate, StreamStatus, Text,
    WithdrawToParam, Word,
};
use crate::views::Standing;
use std::rc::Rc;
use vstd::prelude::*;

verus! {

/// Whether a call did what a request means: a refusal is the one that the
/// request meets, and changes nothing; success comes just when there is none.
pub open spec fn does<T>(
    before: ContractState,
    after: ContractState,
    call: Call,
    request: Request,
    r: Result<T, ContractError>,
) -> bool {
    match r {
        Ok(_) => before.refusal(call, request) is None && after == before.effect_of(call, request),
        Err(e) => before.refusal(call, request) == Some(e) && after == before,
    }
}

/// `init` does what its request means: initialisation.
pub proof fn law_init_answers(
    contract: &mut FluxoraStream,
    call: &Call,
    token: Address,
    admin: Address,
    token_verified: bool,
    r: Result<(), ContractError>,
)
    requires
        call_ensures(FluxoraStream::init, (contract, call, token, admin, token_verified), r),
    ensures
        does(
            old(contract)@,
            final(contract)@,
            *call,
            (Request::Init { token, admin, token_verified }),
            r,
        ),
{
}

/// `create_stream` does what its request means: a new stream, whose identifier
/// comes back.
pub proof fn law_create_stream_answers(
    contract: &mut FluxoraStream,
    call: &Call,
    sender: Address,
    params: &CreateStreamParams,
    r: Result<u64, ContractError>,
)
    requires
        call_ensures(FluxoraStream::create_stream, (contract, call, sender, params), r),
    ensures
        does(
            old(contract)@,
            final(contract)@,
            *call,
            (Request::CreateStream { sender, params: *params }),
            r,
        ),
        r is Ok ==> r->Ok_0 == old(contract)@.fresh_id(sender),
{
}

/// `create_streams` does what its request means: a batch of new streams, whose
/// identifiers come back in order.
pub proof fn law_create_streams_answers(
    contract: &mut FluxoraStream,
    call: &Call,
    sender: Address,
    streams: &Vec<CreateStreamParams>,
    r: Result<Vec<u64>, ContractError>,
)
    requires
        call_ensures(FluxoraStream::create_streams, (contract, call, sender, streams), r),
    ensures
        does(
            old(contract)@,
            final(contract)@,
            *call,
            (Request::CreateStreams { sender, batch: streams@ }),
            r,
        ),
        r is Ok ==> r->Ok_0@.len() == streams@.len(),
        forall|i: int|
            #![trigger r->Ok_0@[i]]
            r is Ok && 0 <= i < streams@.len() ==> r->Ok_0@[i] == old(contract)@.register_all(
                sender,
                streams@,
                i,
            ).fresh_id(sender),
{
}

/// `create_stream_relative` does what its request means: a new stream with
/// relative times, whose identifier comes back.
pub proof fn law_create_stream_relative_answers(
    contract: &mut FluxoraStream,
    call: &Call,
    sender: Address,
    params: &CreateStreamRelativeParams,
    r: Result<u64, ContractError>,
)
    requires
        call_ensures(FluxoraStream::create_stream_relative, (contract, call, sender, params), r),
    ensures
        does(
            old(contract)@,
            final(contract)@,
            *call,
            (Request::CreateStreamRelative { sender, relative: *params }),
            r,
        ),
        r is Ok ==> r->Ok_0 == old(contract)@.fresh_id(sender),
{
}

/// `create_streams_relative` does what its request means: a batch of new
/// streams with relative times.
pub proof fn law_create_streams_relative_answers(
    contract: &mut FluxoraStream,
    call: &Call,
    sender: Address,
    streams_relative: &Vec<CreateStreamRelativeParams>,
    r: Result<Vec<u64>, ContractError>,
)
    requires
        call_ensures(
            FluxoraStream::create_streams_relative,
            (contract, call, sender, streams_relative),
            r,
        ),
    ensures
        does(
            old(contract)@,
            final(contract)@,
            *call,
            (Request::CreateStreamsRelative { sender, relative_batch: streams_relative@ }),
            r,
        ),
        r is Ok ==> r->Ok_0@.len() == streams_relative@.len(),
{
}

/// `create_streams_partial` does what its request means: a batch whose entries
/// fail independently, each of which is reported.
pub proof fn law_create_streams_partial_answers(
    contract: &mut FluxoraStream,
    call: &Call,
    sender: Address,
    streams: &Vec<CreateStreamParams>,
    transfers: &Vec<bool>,
    r: Result<Vec<CreateStreamResult>, ContractError>,
)
    requires
        call_ensures(
            FluxoraStream::create_streams_partial,
            (contract, call, sender, streams, transfers),
            r,
        ),
    ensures
        does(
            old(contract)@,
            final(contract)@,
            *call,
            (Request::CreateStreamsPartial { sender, batch: streams@, transfers: transfers@ }),
            r,
        ),
        forall|i: int|
            #![trigger r->Ok_0@[i]]
            r is Ok && 0 <= i < streams@.len() ==> {
                let before = old(contract)@.partial_step(
                    sender,
                    call.timestamp,
                    streams@,
                    transfers@,
                    i,
                );
                r->Ok_0@[i] == crate::creation::reported(
                    before.partial_outcome(sender, call.timestamp, streams@[i], transfers@[i]),
                )
            },
        r is Ok ==> r->Ok_0@.len() == streams@.len(),
{
}

/// `calculate_accrued` does what its request means: what was earned is told.
pub proof fn law_calculate_accrued_answers(
    contract: &mut FluxoraStream,
    call: &Call,
    stream_id: u64,
    r: Result<i128, ContractError>,
)
    requires
        call_ensures(FluxoraStream::calculate_accrued, (contract, call, stream_id), r),
    ensures
        does(
            old(contract)@,
            final(contract)@,
            *call,
            (Request::CalculateAccrued { id: stream_id }),
            r,
        ),
        r is Ok ==> r->Ok_0 == old(contract)@.streams[stream_id].spec_earned(call.timestamp),
{
}

/// `get_withdrawable` does what its request means: what can be withdrawn is
/// told.
pub proof fn law_get_withdrawable_answers(
    contract: &mut FluxoraStream,
    call: &Call,
    stream_id: u64,
    r: Result<i128, ContractError>,
)
    requires
        call_ensures(FluxoraStream::get_withdrawable, (contract, call, stream_id), r),
    ensures
        does(
            old(contract)@,
            final(contract)@,
            *call,
            (Request::GetWithdrawable { id: stream_id }),
            r,
        ),
        r is Ok ==> r->Ok_0 == old(contract)@.withdrawable(*call, stream_id),
{
}

/// `get_auto_claim_status` does what its request means: the state of automatic
/// claims is told.
pub proof fn law_get_auto_claim_status_answers(
    contract: &mut FluxoraStream,
    call: &Call,
    stream_id: u64,
    r: Result<AutoClaimStatus, ContractError>,
)
    requires
        call_ensures(FluxoraStream::get_auto_claim_status, (contract, call, stream_id), r),
    ensures
        does(
            old(contract)@,
            final(contract)@,
            *call,
            (Request::GetAutoClaimStatus { id: stream_id }),
            r,
        ),
        r is Ok ==> r->Ok_0 == old(contract)@.auto_claim_status(*call, stream_id),
{
}

/// `withdraw` does what its request means: a withdrawal, which tells what it
/// pays.
pub proof fn law_withdraw_answers(
    contract: &mut FluxoraStream,
    call: &Call,
    stream_id: u64,
    r: Result<i128, ContractError>,
)
    requires
        call_ensures(FluxoraStream::withdraw, (contract, call, stream_id), r),
    ensures
        does(
            old(contract)@,
            final(contract)@,
            *call,
            (Request::Withdraw { id: stream_id }),
            r,
        ),
        r is Ok ==> r->Ok_0 == old(contract)@.payout_of(*call, stream_id),
{
}

/// `withdraw_to` does what its request means: a withdrawal to another address,
/// which tells what it pays.
pub proof fn law_withdraw_to_answers(
    contract: &mut FluxoraStream,
    call: &Call,
    stream_id: u64,
    destination: Address,
    r: Result<i128, ContractError>,
)
    requires
        call_ensures(FluxoraStream::withdraw_to, (contract, call, stream_id, destination), r),
    ensures
        does(
            old(contract)@,
            final(contract)@,
            *call,
            (Request::WithdrawTo { id: stream_id, destination }),
            r,
        ),
        r is Ok ==> r->Ok_0 == old(contract)@.payout_of(*call, stream_id),
{
}

/// `withdraw_from_pool` does what its request means: a withdrawal from a pool,
/// which tells what it pays.
pub proof fn law_withdraw_from_pool_answers(
    contract: &mut FluxoraStream,
    call: &Call,
    stream_id: u64,
    caller: Address,
    r: Result<i128, ContractError>,
)
    requires
        call_ensures(FluxoraStream::withdraw_from_pool, (contract, call, stream_id, caller), r),
    ensures
        does(
            old(contract)@,
            final(contract)@,
            *call,
            (Request::WithdrawFromPool { id: stream_id, who: caller }),
            r,
        ),
        r is Ok ==> r->Ok_0 == old(contract)@.pool_payout(*call, stream_id, caller),
{
}

/// `batch_withdraw_to` does what its request means: a batch of withdrawals,
/// which tells what each of them pays.
pub proof fn law_batch_withdraw_to_answers(
    contract: &mut FluxoraStream,
    call: &Call,
    recipient: Address,
    withdrawals: &Vec<WithdrawToParam>,
    r: Result<Vec<BatchWithdrawResult>, ContractError>,
)
    requires
        call_ensures(FluxoraStream::batch_withdraw_to, (contract, call, recipient, withdrawals), r),
    ensures
        does(
            old(contract)@,
            final(contract)@,
            *call,
            (Request::BatchWithdraw { who: recipient, withdrawals: withdrawals@ }),
            r,
        ),
        forall|i: int|
            #![trigger r->Ok_0@[i]]
            r is Ok && 0 <= i < withdrawals@.len() ==> {
                &&& r->Ok_0@[i].stream_id == withdrawals@[i].stream_id
                &&& r->Ok_0@[i].amount == old(contract)@.batch_amount(
                    *call,
                    crate::batch::targets(withdrawals@),
                    i,
                )
            },
        r is Ok ==> r->Ok_0@.len() == withdrawals@.len(),
{
}

/// `delegated_withdraw` does what its request means: a delegated withdrawal,
/// which tells what the recipient gets.
pub proof fn law_delegated_withdraw_answers(
    contract: &mut FluxoraStream,
    call: &Call,
    request: DelegatedWithdrawal,
    r: Result<i128, ContractError>,
)
    requires
        call_ensures(FluxoraStream::delegated_withdraw, (contract, call, request), r),
    ensures
        does(
            old(contract)@,
            final(contract)@,
            *call,
            (Request::DelegatedWithdraw { request }),
            r,
        ),
        r is Ok ==> r->Ok_0 == old(contract)@.delegated_gross(*call, request.stream_id)
            - request.relayer_fee,
{
}

/// `pause_stream` does what its request means: a pause.
pub proof fn law_pause_stream_answers(
    contract: &mut FluxoraStream,
    call: &Call,
    stream_id: u64,
    reason: PauseReason,
    r: Result<(), ContractError>,
)
    requires
        call_ensures(FluxoraStream::pause_stream, (contract, call, stream_id, reason), r),
    ensures
        does(
            old(contract)@,
            final(contract)@,
            *call,
            (Request::PauseStream { id: stream_id, reason }),
            r,
        ),
{
}

/// `resume_stream` does what its request means: a resumption.
pub proof fn law_resume_stream_answers(
    contract: &mut FluxoraStream,
    call: &Call,
    stream_id: u64,
    r: Result<(), ContractError>,
)
    requires
        call_ensures(FluxoraStream::resume_stream, (contract, call, stream_id), r),
    ensures
        does(
            old(contract)@,
            final(contract)@,
            *call,
            (Request::ResumeStream { id: stream_id }),
            r,
        ),
{
}

/// `pause_stream_as_admin` does what its request means: a pause by the
/// administrator.
pub proof fn law_pause_stream_as_admin_answers(
    contract: &mut FluxoraStream,
    call: &Call,
    stream_id: u64,
    reason: PauseReason,
    r: Result<(), ContractError>,
)
    requires
        call_ensures(FluxoraStream::pause_stream_as_admin, (contract, call, stream_id, reason), r),
    ensures
        does(
            old(contract)@,
            final(contract)@,
            *call,
            (Request::PauseStreamAsAdmin { id: stream_id, reason }),
            r,
        ),
{
}

/// `resume_stream_as_admin` does what its request means: a resumption by the
/// administrator.
pub proof fn law_resume_stream_as_admin_answers(
    contract: &mut FluxoraStream,
    call: &Call,
    stream_id: u64,
    r: Result<(), ContractError>,
)
    requires
        call_ensures(FluxoraStream::resume_stream_as_admin, (contract, call, stream_id), r),
    ensures
        does(
            old(contract)@,
            final(contract)@,
            *call,
            (Request::ResumeStreamAsAdmin { id: stream_id }),
            r,
        ),
{
}

/// `cancel_stream` does what its request means: a cancellation.
pub proof fn law_cancel_stream_answers(
    contract: &mut FluxoraStream,
    call: &Call,
    stream_id: u64,
    r: Result<(), ContractError>,
)
    requires
        call_ensures(FluxoraStream::cancel_stream, (contract, call, stream_id), r),
    ensures
        does(
            old(contract)@,
            final(contract)@,
            *call,
            (Request::CancelStream { id: stream_id }),
            r,
        ),
{
}

/// `cancel_stream_as_admin` does what its request means: a cancellation by the
/// administrator.
pub proof fn law_cancel_stream_as_admin_answers(
    contract: &mut FluxoraStream,
    call: &Call,
    stream_id: u64,
    r: Result<(), ContractError>,
)
    requires
        call_ensures(FluxoraStream::cancel_stream_as_admin, (contract, call, stream_id), r),
    ensures
        does(
            old(contract)@,
            final(contract)@,
            *call,
            (Request::CancelStreamAsAdmin { id: stream_id }),
            r,
        ),
{
}

/// `witnessed_cancel_stream` does what its request means: a cancellation by the
/// witness.
pub proof fn law_witnessed_cancel_stream_answers(
    contract: &mut FluxoraStream,
    call: &Call,
    stream_id: u64,
    witness_public_key: Word,
    deadline: u64,
    signature_valid: bool,
    r: Result<(), ContractError>,
)
    requires
        call_ensures(
            FluxoraStream::witnessed_cancel_stream,
            (contract, call, stream_id, witness_public_key, deadline, signature_valid),
            r,
        ),
    ensures
        does(
            old(contract)@,
            final(contract)@,
            *call,
            (Request::WitnessedCancel {
                id: stream_id,
                key: witness_public_key,
                deadline,
                signature_valid,
            }),
            r,
        ),
{
}

/// `keeper_cancel` does what its request means: a cancellation by a keeper.
pub proof fn law_keeper_cancel_answers(
    contract: &mut FluxoraStream,
    call: &Call,
    stream_id: u64,
    keeper: Address,
    r: Result<(), ContractError>,
)
    requires
        call_ensures(FluxoraStream::keeper_cancel, (contract, call, stream_id, keeper), r),
    ensures
        does(
            old(contract)@,
            final(contract)@,
            *call,
            (Request::KeeperCancel { id: stream_id, keeper }),
            r,
        ),
{
}

/// `bulk_resume_streams_as_admin` does what its request means: a batch of
/// resumptions.
pub proof fn law_bulk_resume_streams_as_admin_answers(
    contract: &mut FluxoraStream,
    call: &Call,
    stream_ids: &Vec<u64>,
    r: Result<(), ContractError>,
)
    requires
        call_ensures(FluxoraStream::bulk_resume_streams_as_admin, (contract, call, stream_ids), r),
    ensures
        does(
            old(contract)@,
            final(contract)@,
            *call,
            (Request::BulkResume { ids: stream_ids@ }),
            r,
        ),
{
}

/// `bulk_cancel_streams` does what its request means: a batch of cancellations.
pub proof fn law_bulk_cancel_streams_answers(
    contract: &mut FluxoraStream,
    call: &Call,
    sender: Address,
    stream_ids: &Vec<u64>,
    r: Result<(), ContractError>,
)
    requires
        call_ensures(FluxoraStream::bulk_cancel_streams, (contract, call, sender, stream_ids), r),
    ensures
        does(
            old(contract)@,
            final(contract)@,
            *call,
            (Request::BulkCancel { sender, ids: stream_ids@ }),
            r,
        ),
{
}

/// `update_rate_per_second` does what its request means: a higher rate.
pub proof fn law_update_rate_per_second_answers(
    contract: &mut FluxoraStream,
    call: &Call,
    stream_id: u64,
    new_rate_per_second: i128,
    r: Result<(), ContractError>,
)
    requires
        call_ensures(
            FluxoraStream::update_rate_per_second,
            (contract, call, stream_id, new_rate_per_second),
            r,
        ),
    ensures
        does(
            old(contract)@,
            final(contract)@,
            *call,
            (Request::UpdateRatePerSecond { id: stream_id, rate: new_rate_per_second }),
            r,
        ),
{
}

/// `decrease_rate_per_second` does what its request means: a lower rate.
pub proof fn law_decrease_rate_per_second_answers(
    contract: &mut FluxoraStream,
    call: &Call,
    stream_id: u64,
    new_rate_per_second: i128,
    r: Result<(), ContractError>,
)
    requires
        call_ensures(
            FluxoraStream::decrease_rate_per_second,
            (contract, call, stream_id, new_rate_per_second),
            r,
        ),
    ensures
        does(
            old(contract)@,
            final(contract)@,
            *call,
            (Request::DecreaseRate { id: stream_id, rate: new_rate_per_second }),
            r,
        ),
{
}

/// `update_rate` does what its request means: a plain change of rate.
pub proof fn law_update_rate_answers(
    contract: &mut FluxoraStream,
    call: &Call,
    stream_id: u64,
    new_rate_per_second: i128,
    caller: Address,
    r: Result<(), ContractError>,
)
    requires
        call_ensures(
            FluxoraStream::update_rate,
            (contract, call, stream_id, new_rate_per_second, caller),
            r,
        ),
    ensures
        does(
            old(contract)@,
            final(contract)@,
            *call,
            (Request::UpdateRate { id: stream_id, rate: new_rate_per_second, caller }),
            r,
        ),
{
}

/// `shorten_stream_end_time` does what its request means: an earlier end.
pub proof fn law_shorten_stream_end_time_answers(
    contract: &mut FluxoraStream,
    call: &Call,
    stream_id: u64,
    new_end_time: u64,
    r: Result<(), ContractError>,
)
    requires
        call_ensures(
            FluxoraStream::shorten_stream_end_time,
            (contract, call, stream_id, new_end_time),
            r,
        ),
    ensures
        does(
            old(contract)@,
            final(contract)@,
            *call,
            (Request::Shorten { id: stream_id, end_time: new_end_time }),
            r,
        ),
{
}

/// `extend_stream_end_time` does what its request means: a later end.
pub proof fn law_extend_stream_end_time_answers(
    contract: &mut FluxoraStream,
    call: &Call,
    stream_id: u64,
    new_end_time: u64,
    r: Result<(), ContractError>,
)
    requires
        call_ensures(
            FluxoraStream::extend_stream_end_time,
            (contract, call, stream_id, new_end_time),
            r,
        ),
    ensures
        does(
            old(contract)@,
            final(contract)@,
            *call,
            (Request::Extend { id: stream_id, end_time: new_end_time }),
            r,
        ),
{
}

/// `top_up_stream` does what its request means: a larger deposit.
pub proof fn law_top_up_stream_answers(
    contract: &mut FluxoraStream,
    call: &Call,
    stream_id: u64,
    funder: Address,
    amount: i128,
    r: Result<(), ContractError>,
)
    requires
        call_ensures(FluxoraStream::top_up_stream, (contract, call, stream_id, funder, amount), r),
    ensures
        does(
            old(contract)@,
            final(contract)@,
            *call,
            (Request::TopUp { id: stream_id, funder, amount }),
            r,
        ),
{
}

/// `delegate_recipient_share` does what its request means: a delegation, which
/// tells the identifier of the child.
pub proof fn law_delegate_recipient_share_answers(
    contract: &mut FluxoraStream,
    call: &Call,
    stream_id: u64,
    recipient: Address,
    share_bps: u32,
    new_recipient: Address,
    r: Result<u64, ContractError>,
)
    requires
        call_ensures(
            FluxoraStream::delegate_recipient_share,
            (contract, call, stream_id, recipient, share_bps, new_recipient),
            r,
        ),
    ensures
        does(
            old(contract)@,
            final(contract)@,
            *call,
            (Request::Delegate { id: stream_id, recipient, share_bps, new_recipient }),
            r,
        ),
        r is Ok ==> r->Ok_0 == old(contract)@.fresh_id(old(contract)@.streams[stream_id].sender),
{
}

/// `set_auto_renew` does what its request means: the permission to renew.
pub proof fn law_set_auto_renew_answers(
    contract: &mut FluxoraStream,
    call: &Call,
    stream_id: u64,
    sender: Address,
    enabled: bool,
    r: Result<(), ContractError>,
)
    requires
        call_ensures(
            FluxoraStream::set_auto_renew,
            (contract, call, stream_id, sender, enabled),
            r,
        ),
    ensures
        does(
            old(contract)@,
            final(contract)@,
            *call,
            (Request::SetAutoRenew { id: stream_id, sender, enabled }),
            r,
        ),
{
}

/// `renew_stream` does what its request means: a renewal, which tells the
/// identifier of the new stream.
pub proof fn law_renew_stream_answers(
    contract: &mut FluxoraStream,
    call: &Call,
    stream_id: u64,
    sender_balance: i128,
    sender_allowance: i128,
    r: Result<u64, ContractError>,
)
    requires
        call_ensures(
            FluxoraStream::renew_stream,
            (contract, call, stream_id, sender_balance, sender_allowance),
            r,
        ),
    ensures
        does(
            old(contract)@,
            final(contract)@,
            *call,
            (Request::Renew {
                id: stream_id,
                balance: sender_balance,
                allowance: sender_allowance,
            }),
            r,
        ),
        r is Ok ==> r->Ok_0 == old(contract)@.fresh_id(old(contract)@.streams[stream_id].sender),
{
}

/// `set_lookback_window` does what its request means: a lookback window.
pub proof fn law_set_lookback_window_answers(
    contract: &mut FluxoraStream,
    call: &Call,
    stream_id: u64,
    sender: Address,
    max_lookback_ledgers: Option<u32>,
    r: Result<(), ContractError>,
)
    requires
        call_ensures(
            FluxoraStream::set_lookback_window,
            (contract, call, stream_id, sender, max_lookback_ledgers),
            r,
        ),
    ensures
        does(
            old(contract)@,
            final(contract)@,
            *call,
            (Request::SetLookback { id: stream_id, sender, ledgers: max_lookback_ledgers }),
            r,
        ),
{
}

/// `register_stream_template` does what its request means: a new template,
/// whose number comes back.
pub proof fn law_register_stream_template_answers(
    contract: &mut FluxoraStream,
    call: &Call,
    owner: Address,
    start_delay: u64,
    cliff_delay: u64,
    duration: u64,
    r: Result<u64, ContractError>,
)
    requires
        call_ensures(
            FluxoraStream::register_stream_template,
            (contract, call, owner, start_delay, cliff_delay, duration),
            r,
        ),
    ensures
        does(
            old(contract)@,
            final(contract)@,
            *call,
            (Request::RegisterTemplate { owner, start_delay, cliff_delay, duration }),
            r,
        ),
        r is Ok ==> r->Ok_0 == old(contract)@.next_template_id,
{
}

/// `delete_stream_template` does what its request means: the removal of a
/// template.
pub proof fn law_delete_stream_template_answers(
    contract: &mut FluxoraStream,
    call: &Call,
    owner: Address,
    template_id: u64,
    r: Result<(), ContractError>,
)
    requires
        call_ensures(
            FluxoraStream::delete_stream_template,
            (contract, call, owner, template_id),
            r,
        ),
    ensures
        does(
            old(contract)@,
            final(contract)@,
            *call,
            (Request::DeleteTemplate { owner, id: template_id }),
            r,
        ),
{
}

/// `update_recipient` does what its request means: the proposal of another
/// recipient.
pub proof fn law_update_recipient_answers(
    contract: &mut FluxoraStream,
    call: &Call,
    stream_id: u64,
    new_recipient: Address,
    r: Result<(), ContractError>,
)
    requires
        call_ensures(
            FluxoraStream::update_recipient,
            (contract, call, stream_id, new_recipient),
            r,
        ),
    ensures
        does(
            old(contract)@,
            final(contract)@,
            *call,
            (Request::UpdateRecipient { id: stream_id, new_recipient }),
            r,
        ),
{
}

/// `accept_recipient_update` does what its request means: the acceptance of
/// another recipient.
pub proof fn law_accept_recipient_update_answers(
    contract: &mut FluxoraStream,
    call: &Call,
    stream_id: u64,
    r: Result<(), ContractError>,
)
    requires
        call_ensures(FluxoraStream::accept_recipient_update, (contract, call, stream_id), r),
    ensures
        does(
            old(contract)@,
            final(contract)@,
            *call,
            (Request::AcceptRecipient { id: stream_id }),
            r,
        ),
{
}

/// `cancel_recipient_update` does what its request means: the withdrawal of a
/// proposal.
pub proof fn law_cancel_recipient_update_answers(
    contract: &mut FluxoraStream,
    call: &Call,
    stream_id: u64,
    r: Result<(), ContractError>,
)
    requires
        call_ensures(FluxoraStream::cancel_recipient_update, (contract, call, stream_id), r),
    ensures
        does(
            old(contract)@,
            final(contract)@,
            *call,
            (Request::CancelRecipient { id: stream_id }),
            r,
        ),
{
}

/// `transfer_claim_ownership` does what its request means: the hand-over of the
/// right to withdraw.
pub proof fn law_transfer_claim_ownership_answers(
    contract: &mut FluxoraStream,
    call: &Call,
    stream_id: u64,
    current_owner: Address,
    new_owner: Address,
    r: Result<(), ContractError>,
)
    requires
        call_ensures(
            FluxoraStream::transfer_claim_ownership,
            (contract, call, stream_id, current_owner, new_owner),
            r,
        ),
    ensures
        does(
            old(contract)@,
            final(contract)@,
            *call,
            (Request::TransferClaim { id: stream_id, current: current_owner, new_owner }),
            r,
        ),
{
}

/// `set_auto_claim` does what its request means: the destination of automatic
/// claims.
pub proof fn law_set_auto_claim_answers(
    contract: &mut FluxoraStream,
    call: &Call,
    stream_id: u64,
    destination: Address,
    r: Result<(), ContractError>,
)
    requires
        call_ensures(FluxoraStream::set_auto_claim, (contract, call, stream_id, destination), r),
    ensures
        does(
            old(contract)@,
            final(contract)@,
            *call,
            (Request::SetAutoClaim { id: stream_id, destination }),
            r,
        ),
{
}

/// `revoke_auto_claim` does what its request means: the end of automatic
/// claims.
pub proof fn law_revoke_auto_claim_answers(
    contract: &mut FluxoraStream,
    call: &Call,
    stream_id: u64,
    r: Result<(), ContractError>,
)
    requires
        call_ensures(FluxoraStream::revoke_auto_claim, (contract, call, stream_id), r),
    ensures
        does(
            old(contract)@,
            final(contract)@,
            *call,
            (Request::RevokeAutoClaim { id: stream_id }),
            r,
        ),
{
}

/// `trigger_auto_claim` does what its request means: an automatic claim, which
/// tells what it pays.
pub proof fn law_trigger_auto_claim_answers(
    contract: &mut FluxoraStream,
    call: &Call,
    stream_id: u64,
    r: Result<i128, ContractError>,
)
    requires
        call_ensures(FluxoraStream::trigger_auto_claim, (contract, call, stream_id), r),
    ensures
        does(
            old(contract)@,
            final(contract)@,
            *call,
            (Request::TriggerAutoClaim { id: stream_id }),
            r,
        ),
        r is Ok ==> r->Ok_0 == old(contract)@.auto_claim_amount(*call, stream_id),
{
}

/// `create_stream_offer` does what its request means: an offer, whose
/// identifier comes back.
pub proof fn law_create_stream_offer_answers(
    contract: &mut FluxoraStream,
    call: &Call,
    sender: Address,
    params: &CreateStreamParams,
    expiry_time: Option<u64>,
    r: Result<u64, ContractError>,
)
    requires
        call_ensures(
            FluxoraStream::create_stream_offer,
            (contract, call, sender, params, expiry_time),
            r,
        ),
    ensures
        does(
            old(contract)@,
            final(contract)@,
            *call,
            (Request::CreateOffer { sender, params: *params, expiry: expiry_time }),
            r,
        ),
        r is Ok ==> r->Ok_0 == old(contract)@.fresh_id(sender),
{
}

/// `accept_stream_offer` does what its request means: the acceptance of an
/// offer.
pub proof fn law_accept_stream_offer_answers(
    contract: &mut FluxoraStream,
    call: &Call,
    recipient: Address,
    offer_id: u64,
    r: Result<u64, ContractError>,
)
    requires
        call_ensures(FluxoraStream::accept_stream_offer, (contract, call, recipient, offer_id), r),
    ensures
        does(
            old(contract)@,
            final(contract)@,
            *call,
            (Request::AcceptOffer { recipient, id: offer_id }),
            r,
        ),
        r is Ok ==> r->Ok_0 == offer_id,
{
}

/// `reject_stream_offer` does what its request means: the rejection of an
/// offer.
pub proof fn law_reject_stream_offer_answers(
    contract: &mut FluxoraStream,
    call: &Call,
    recipient: Address,
    offer_id: u64,
    r: Result<(), ContractError>,
)
    requires
        call_ensures(FluxoraStream::reject_stream_offer, (contract, call, recipient, offer_id), r),
    ensures
        does(
            old(contract)@,
            final(contract)@,
            *call,
            (Request::RejectOffer { recipient, id: offer_id }),
            r,
        ),
        r is Ok ==> final(contract)@.effects == old(contract)@.effects.push(
            Effect::Push {
                to: old(contract)@.offers[offer_id].sender,
                amount: old(contract)@.offers[offer_id].deposit_amount,
            },
        ).push(
            Effect::Emit(
                Event::OfferCancelled(
                    StreamOfferCancelled {
                        offer_id,
                        by: recipient,
                        refund_amount: old(contract)@.offers[offer_id].deposit_amount,
                    },
                ),
            ),
        ),
{
}

/// `cancel_stream_offer` does what its request means: the withdrawal of an
/// offer.
pub proof fn law_cancel_stream_offer_answers(
    contract: &mut FluxoraStream,
    call: &Call,
    sender: Address,
    offer_id: u64,
    r: Result<(), ContractError>,
)
    requires
        call_ensures(FluxoraStream::cancel_stream_offer, (contract, call, sender, offer_id), r),
    ensures
        does(
            old(contract)@,
            final(contract)@,
            *call,
            (Request::CancelOffer { sender, id: offer_id }),
            r,
        ),
        r is Ok ==> final(contract)@.effects == old(contract)@.effects.push(
            Effect::Push {
                to: old(contract)@.offers[offer_id].sender,
                amount: old(contract)@.offers[offer_id].deposit_amount,
            },
        ).push(
            Effect::Emit(
                Event::OfferCancelled(
                    StreamOfferCancelled {
                        offer_id,
                        by: sender,
                        refund_amount: old(contract)@.offers[offer_id].deposit_amount,
                    },
                ),
            ),
        ),
{
}

/// `reserve_stream_ids` does what its request means: a reservation, whose
/// identifiers come back.
pub proof fn law_reserve_stream_ids_answers(
    contract: &mut FluxoraStream,
    call: &Call,
    caller: Address,
    count: u32,
    expiry: Option<u64>,
    r: Result<Vec<u64>, ContractError>,
)
    requires
        call_ensures(FluxoraStream::reserve_stream_ids, (contract, call, caller, count, expiry), r),
    ensures
        does(
            old(contract)@,
            final(contract)@,
            *call,
            (Request::ReserveIds { caller, count, expiry }),
            r,
        ),
        r is Ok ==> r->Ok_0@ == old(contract)@.reserved_ids(count),
{
}

/// `release_id_reservation` does what its request means: the release of a
/// reservation.
pub proof fn law_release_id_reservation_answers(
    contract: &mut FluxoraStream,
    call: &Call,
    caller: Address,
    r: Result<(), ContractError>,
)
    requires
        call_ensures(FluxoraStream::release_id_reservation, (contract, call, caller), r),
    ensures
        does(
            old(contract)@,
            final(contract)@,
            *call,
            (Request::ReleaseIds { caller }),
            r,
        ),
{
}

/// `reclaim_expired_id_reservation` does what its request means: the end of an
/// expired reservation.
pub proof fn law_reclaim_expired_id_reservation_answers(
    contract: &mut FluxoraStream,
    call: &Call,
    holder: Address,
    r: Result<(), ContractError>,
)
    requires
        call_ensures(FluxoraStream::reclaim_expired_id_reservation, (contract, call, holder), r),
    ensures
        does(
            old(contract)@,
            final(contract)@,
            *call,
            (Request::ReclaimIds { holder }),
            r,
        ),
{
}

/// `clone_stream` does what its request means: a clone, whose identifier comes
/// back.
pub proof fn law_clone_stream_answers(
    contract: &mut FluxoraStream,
    call: &Call,
    stream_id: u64,
    new_recipient: Address,
    start_time: u64,
    end_time: u64,
    deposit: i128,
    force: bool,
    r: Result<u64, ContractError>,
)
    requires
        call_ensures(
            FluxoraStream::clone_stream,
            (contract, call, stream_id, new_recipient, start_time, end_time, deposit, force),
            r,
        ),
    ensures
        does(
            old(contract)@,
            final(contract)@,
            *call,
            (Request::CloneStream {
                id: stream_id,
                new_recipient,
                start_time,
                end_time,
                deposit,
                force,
            }),
            r,
        ),
        r is Ok ==> r->Ok_0 == old(contract)@.fresh_id(old(contract)@.streams[stream_id].sender),
{
}

/// `set_admin` does what its request means: another administrator.
pub proof fn law_set_admin_answers(
    contract: &mut FluxoraStream,
    call: &Call,
    new_admin: Address,
    r: Result<(), ContractError>,
)
    requires
        call_ensures(FluxoraStream::set_admin, (contract, call, new_admin), r),
    ensures
        does(
            old(contract)@,
            final(contract)@,
            *call,
            (Request::SetAdmin { new_admin }),
            r,
        ),
{
}

/// `set_max_rate_per_second` does what its request means: another cap on rates.
pub proof fn law_set_max_rate_per_second_answers(
    contract: &mut FluxoraStream,
    call: &Call,
    max_rate: i128,
    r: Result<(), ContractError>,
)
    requires
        call_ensures(FluxoraStream::set_max_rate_per_second, (contract, call, max_rate), r),
    ensures
        does(
            old(contract)@,
            final(contract)@,
            *call,
            (Request::SetMaxRate { max_rate }),
            r,
        ),
{
}

/// `global_resume` does what its request means: the end of the emergency pause.
pub proof fn law_global_resume_answers(
    contract: &mut FluxoraStream,
    call: &Call,
    r: Result<(), ContractError>,
)
    requires
        call_ensures(FluxoraStream::global_resume, (contract, call), r),
    ensures
        does(
            old(contract)@,
            final(contract)@,
            *call,
            Request::GlobalResume,
            r,
        ),
{
}

/// `set_contract_paused` does what its request means: the pause of stream
/// creation.
pub proof fn law_set_contract_paused_answers(
    contract: &mut FluxoraStream,
    call: &Call,
    paused: bool,
    r: Result<(), ContractError>,
)
    requires
        call_ensures(FluxoraStream::set_contract_paused, (contract, call, paused), r),
    ensures
        does(
            old(contract)@,
            final(contract)@,
            *call,
            (Request::SetContractPaused { paused }),
            r,
        ),
{
}

/// `pause_protocol` does what its request means: a protocol pause.
pub proof fn law_pause_protocol_answers(
    contract: &mut FluxoraStream,
    call: &Call,
    admin: Address,
    reason: Option<Text>,
    r: Result<(), ContractError>,
)
    requires
        call_ensures(FluxoraStream::pause_protocol, (contract, call, admin, reason), r),
    ensures
        does(
            old(contract)@,
            final(contract)@,
            *call,
            (Request::PauseProtocol { admin, text: reason }),
            r,
        ),
{
}

/// `resume_protocol` does what its request means: the end of a protocol pause.
pub proof fn law_resume_protocol_answers(
    contract: &mut FluxoraStream,
    call: &Call,
    admin: Address,
    r: Result<(), ContractError>,
)
    requires
        call_ensures(FluxoraStream::resume_protocol, (contract, call, admin), r),
    ensures
        does(
            old(contract)@,
            final(contract)@,
            *call,
            (Request::ResumeProtocol { admin }),
            r,
        ),
{
}

/// `sweep_excess` does what its request means: a sweep, which tells what it
/// takes out.
pub proof fn law_sweep_excess_answers(
    contract: &mut FluxoraStream,
    call: &Call,
    recipient: Address,
    r: Result<i128, ContractError>,
)
    requires
        call_ensures(FluxoraStream::sweep_excess, (contract, call, recipient), r),
    ensures
        does(
            old(contract)@,
            final(contract)@,
            *call,
            (Request::Sweep { recipient }),
            r,
        ),
        r is Ok ==> r->Ok_0 == old(contract)@.excess(*call),
{
}

/// `close_completed_stream` does what its request means: the removal of a
/// settled stream.
pub proof fn law_close_completed_stream_answers(
    contract: &mut FluxoraStream,
    call: Call,
    stream_id: u64,
    r: Result<(), ContractError>,
)
    requires
        call_ensures(FluxoraStream::close_completed_stream, (contract, stream_id), r),
    ensures
        does(
            old(contract)@,
            final(contract)@,
            call,
            (Request::CloseCompleted { id: stream_id }),
            r,
        ),
{
}

/// `close_cancelled_stream` does what its request means: the removal of a
/// cancelled stream.
pub proof fn law_close_cancelled_stream_answers(
    contract: &mut FluxoraStream,
    call: Call,
    stream_id: u64,
    r: Result<(), ContractError>,
)
    requires
        call_ensures(FluxoraStream::close_cancelled_stream, (contract, stream_id), r),
    ensures
        does(
            old(contract)@,
            final(contract)@,
            call,
            (Request::CloseCancelled { id: stream_id }),
            r,
        ),
{
}

/// `set_global_emergency_paused` does what its request means: the emergency
/// pause.
pub proof fn law_set_global_emergency_paused_answers(
    contract: &mut FluxoraStream,
    call: &Call,
    paused: bool,
    r: (),
)
    requires
        call_ensures(FluxoraStream::set_global_emergency_paused, (contract, call, paused), r),
    ensures
        final(contract)@ == old(contract)@.effect_of(
            *call,
            (Request::SetEmergencyPaused { paused }),
        ),
{
}

/// The administrator's switches set what they name, announce it, and touch
/// nothing else.
pub proof fn law_switches(s: ContractState, call: Call, paused: bool, max_rate: i128)
    ensures
        ({
            let emergency = s.effect_of(call, Request::SetEmergencyPaused { paused });
            let creation = s.effect_of(call, Request::SetContractPaused { paused });
            let resumed = s.effect_of(call, Request::GlobalResume);
            &&& s.effect_of(call, Request::SetMaxRate { max_rate }) == (ContractState {
                max_rate_per_second: max_rate,
                ..s
            })
            &&& emergency == (ContractState {
                emergency_paused: paused,
                effects: emergency.effects,
                ..s
            })
            &&& emergency.effects == s.effects.push(
                Effect::Emit(Event::EmergencyPause(GlobalEmergencyPauseChanged { paused })),
            )
            &&& creation == (ContractState {
                creation_paused: paused,
                effects: creation.effects,
                ..s
            })
            &&& creation.effects == s.effects.push(
                Effect::Emit(Event::CreationPause(ContractPauseChanged { paused })),
            )
            &&& resumed == (ContractState {
                emergency_paused: false,
                effects: resumed.effects,
                ..s
            })
            &&& resumed.effects == s.effects.push(
                Effect::Emit(Event::GlobalResumed(GlobalResumed { resumed_at: call.timestamp })),
            )
        }),
{
}

/// `upgrade` does what its request means: an upgrade.
pub proof fn law_upgrade_answers(
    contract: &mut FluxoraStream,
    call: &Call,
    new_wasm_hash: Word,
    r: Result<(), ContractError>,
)
    requires
        call_ensures(crate::admin::upgrade, (contract, call, new_wasm_hash), r),
    ensures
        does(
            old(contract)@,
            final(contract)@,
            *call,
            (Request::Upgrade { new_wasm_hash }),
            r,
        ),
{
}

/// `batch_withdraw` pays a batch of withdrawals to the owner itself, and tells
/// what each pays.
pub proof fn law_batch_withdraw_answers(
    contract: &mut FluxoraStream,
    call: &Call,
    recipient: Address,
    stream_ids: &Vec<u64>,
    r: Result<Vec<BatchWithdrawResult>, ContractError>,
)
    requires
        call_ensures(FluxoraStream::batch_withdraw, (contract, call, recipient, stream_ids), r),
    ensures
        match r {
            Ok(paid) => {
                &&& old(contract)@.own_batch_error(*call, recipient, stream_ids@) is None
                &&& final(contract)@ == old(contract)@.own_batch_step(*call, stream_ids@)
                &&& paid@.len() == stream_ids@.len()
                &&& forall|i: int|
                    #![trigger paid@[i]]
                    0 <= i < paid@.len() ==> paid@[i].stream_id == stream_ids@[i]
                        && paid@[i].amount == old(contract)@.batch_amount(*call, stream_ids@, i)
            },
            Err(e) => {
                &&& old(contract)@.own_batch_error(*call, recipient, stream_ids@) == Some(e)
                &&& final(contract)@ == old(contract)@
            },
        },
{
}

/// `create_stream_from_template` makes a stream with the times of the template,
/// counted from now, and all else as given.
pub proof fn law_create_stream_from_template_answers(
    contract: &mut FluxoraStream,
    call: &Call,
    sender: Address,
    template_id: u64,
    recipient: Address,
    deposit_amount: i128,
    rate_per_second: i128,
    withdraw_dust_threshold: i128,
    memo: Option<Bytes>,
    metadata: Option<Rc<Metadata>>,
    kind: StreamKind,
    irrevocable: Option<bool>,
    r: Result<u64, ContractError>,
)
    requires
        call_ensures(
            FluxoraStream::create_stream_from_template,
            (
                contract,
                call,
                sender,
                template_id,
                recipient,
                deposit_amount,
                rate_per_second,
                withdraw_dust_threshold,
                memo,
                metadata,
                kind,
                irrevocable,
            ),
            r,
        ),
    ensures
        ({
            let template = old(contract)@.templates[template_id];
            let relative = CreateStreamRelativeParams {
                recipient,
                deposit_amount,
                rate_per_second,
                start_delay: template.start_delay,
                cliff_delay: template.cliff_delay,
                duration: template.duration,
                withdraw_dust_threshold: Some(withdraw_dust_threshold),
                memo,
                metadata,
                kind,
                irrevocable,
            };
            if old(contract)@.templates.dom().contains(template_id) {
                &&& does(
                    old(contract)@,
                    final(contract)@,
                    *call,
                    Request::CreateStreamRelative { sender, relative },
                    r,
                )
                &&& r is Ok ==> r->Ok_0 == old(contract)@.fresh_id(sender)
            } else {
                &&& r == Err::<u64, ContractError>(ContractError::TemplateNotFound)
                &&& final(contract)@ == old(contract)@
            }
        }),
{
}

/// What is told of a stored stream, and of what is kept beside it.
pub proof fn law_stream_getters(
    contract: &FluxoraStream,
    id: u64,
    state: Result<Stream, ContractError>,
    memo: Result<Option<Bytes>, ContractError>,
    metadata: Result<Option<Rc<Metadata>>, ContractError>,
    renews: Result<bool, ContractError>,
    lookback: Result<Option<u32>, ContractError>,
    destination: Result<Option<Address>, ContractError>,
)
    requires
        call_ensures(FluxoraStream::get_stream_state, (contract, id), state),
        call_ensures(FluxoraStream::get_stream_memo, (contract, id), memo),
        call_ensures(FluxoraStream::get_stream_metadata, (contract, id), metadata),
        call_ensures(FluxoraStream::get_auto_renew, (contract, id), renews),
        call_ensures(FluxoraStream::get_lookback_window, (contract, id), lookback),
        call_ensures(FluxoraStream::get_auto_claim_destination, (contract, id), destination),
    ensures
        ({
            let s = contract@;
            if s.streams.dom().contains(id) {
                &&& state is Ok && state->Ok_0 == s.streams[id]
                &&& memo is Ok && memo->Ok_0 == s.streams[id].memo
                &&& metadata is Ok && metadata->Ok_0 == s.streams[id].metadata
                &&& renews is Ok && (renews->Ok_0 <==> s.auto_renew.dom().contains(id)
                    && s.auto_renew[id])
                &&& lookback is Ok && (lookback->Ok_0 is Some <==> s.lookback.dom().contains(id))
                &&& lookback->Ok_0 is Some ==> lookback->Ok_0->0 == s.lookback[id]
                &&& destination is Ok && (destination->Ok_0 is Some
                    <==> s.auto_claim.dom().contains(id))
                &&& destination->Ok_0 is Some ==> destination->Ok_0->0 == s.auto_claim[id]
            } else {
                let missing = ContractError::StreamNotFound;
                &&& state is Err && state->Err_0 == missing
                &&& memo is Err && memo->Err_0 == missing
                &&& metadata is Err && metadata->Err_0 == missing
                &&& renews is Err && renews->Err_0 == missing
                &&& lookback is Err && lookback->Err_0 == missing
                &&& destination is Err && destination->Err_0 == missing
            }
        }),
{
}

/// What is told of offers, templates, proposals, reservations and nonces.
pub proof fn law_record_getters(
    contract: &FluxoraStream,
    id: u64,
    who: Address,
    offer: Result<StreamOffer, ContractError>,
    offers: Vec<u64>,
    template: Result<StreamScheduleTemplate, ContractError>,
    proposal: Option<PendingRecipientUpdate>,
    reservation: Option<IdReservation>,
    nonce: u64,
)
    requires
        call_ensures(FluxoraStream::get_stream_offer, (contract, id), offer),
        call_ensures(FluxoraStream::get_recipient_pending_offers, (contract, who), offers),
        call_ensures(FluxoraStream::get_stream_template, (contract, id), template),
        call_ensures(FluxoraStream::get_pending_recipient_update, (contract, id), proposal),
        call_ensures(FluxoraStream::get_id_reservation, (contract, who), reservation),
        call_ensures(FluxoraStream::get_delegated_nonce, (contract, who), nonce),
    ensures
        ({
            let s = contract@;
            &&& s.offers.dom().contains(id) ==> offer is Ok && offer->Ok_0 == s.offers[id]
            &&& !s.offers.dom().contains(id) ==> offer is Err && offer->Err_0
                == ContractError::OfferNotFound
            &&& offers@ == crate::state::listed(s.recipient_offers, who)
            &&& s.templates.dom().contains(id) ==> template is Ok && template->Ok_0
                == s.templates[id]
            &&& !s.templates.dom().contains(id) ==> template is Err && template->Err_0
                == ContractError::TemplateNotFound
            &&& proposal is Some <==> s.pending_recipients.dom().contains(id)
            &&& proposal is Some ==> proposal->0 == s.pending_recipients[id]
            &&& reservation is Some <==> s.reservations.dom().contains(who)
            &&& reservation is Some ==> reservation->0 == s.reservations[who]
            &&& nonce == if s.delegated_nonces.dom().contains(who) {
                s.delegated_nonces[who]
            } else {
                0
            }
        }),
{
}

/// What is told of the contract as a whole.
pub proof fn law_contract_getters(
    contract: &FluxoraStream,
    config: Result<Config, ContractError>,
    emergency: bool,
    paused: bool,
    info: PauseInfo,
    count: u64,
    fees: i128,
    owed: i128,
    paused_streams: u64,
)
    requires
        call_ensures(FluxoraStream::get_config, (contract,), config),
        call_ensures(FluxoraStream::get_global_emergency_paused, (contract,), emergency),
        call_ensures(FluxoraStream::is_paused, (contract,), paused),
        call_ensures(FluxoraStream::get_pause_info, (contract,), info),
        call_ensures(FluxoraStream::get_stream_count, (contract,), count),
        call_ensures(FluxoraStream::get_protocol_fees_accrued, (contract,), fees),
        call_ensures(FluxoraStream::get_total_liabilities, (contract,), owed),
        call_ensures(FluxoraStream::get_paused_stream_count, (contract,), paused_streams),
    ensures
        ({
            let s = contract@;
            &&& s.config is Some ==> config is Ok && config->Ok_0 == s.config->0
            &&& s.config is None ==> config is Err && config->Err_0 == ContractError::InvalidState
            &&& emergency == s.emergency_paused
            &&& paused == (s.emergency_paused || s.creation_paused)
            &&& info.is_paused == paused
            &&& paused ==> info.reason == s.pause_reason && info.paused_at == s.pause_timestamp
                && info.paused_by == s.pause_admin
            &&& count == s.next_stream_id
            &&& fees == s.total_keeper_fees_paid
            &&& owed == s.total_liabilities
            &&& paused_streams == s.paused_stream_count
        }),
{
}

/// What is told of the streams of a recipient: how many there are, the first
/// hundred, and any page.
pub proof fn law_recipient_getters(
    contract: &FluxoraStream,
    who: Address,
    cursor: u64,
    limit: u32,
    count: u64,
    first: Vec<u64>,
    page: Page,
)
    requires
        call_ensures(FluxoraStream::get_recipient_stream_count, (contract, who), count),
        call_ensures(FluxoraStream::get_recipient_streams, (contract, who), first),
        call_ensures(
            FluxoraStream::get_recipient_streams_paginated,
            (contract, who, cursor, limit),
            page,
        ),
    ensures
        ({
            let list = crate::state::listed(contract@.recipient_streams, who);
            let most = if limit < 100 {
                limit as int
            } else {
                100
            };
            &&& count == list.len()
            &&& first@.len() == if list.len() < 100 {
                list.len()
            } else {
                100
            }
            &&& forall|i: int| 0 <= i < first@.len() ==> #[trigger] first@[i] == list[i]
            &&& page.stream_ids@ == crate::views::page_ids(list, cursor, most)
            &&& page.next_cursor == crate::views::page_next(list, cursor, most)
        }),
{
}

/// What a report on a sender and a range of identifiers show.
pub proof fn law_report_getters(
    contract: &FluxoraStream,
    call: &Call,
    sender: Address,
    cursor: u64,
    limit: u32,
    report: PortfolioHealthPage,
    start_id: u64,
    end_id: u64,
    most: u64,
    range: Vec<Stream>,
)
    requires
        call_ensures(
            FluxoraStream::get_sender_portfolio_health,
            (contract, call, sender, cursor, limit),
            report,
        ),
        call_ensures(
            FluxoraStream::get_streams_by_id_range,
            (contract, start_id, end_id, most),
            range,
        ),
    ensures
        ({
            let s = contract@;
            let list = crate::state::listed(s.sender_streams, sender);
            let size = if 0 < limit < 100 {
                limit as int
            } else {
                100
            };
            let ids = report.stream_ids@;
            let now = call.timestamp;
            let last = if end_id < s.next_stream_id {
                end_id
            } else {
                s.next_stream_id
            };
            let shown = if most < 100 {
                most as nat
            } else {
                100
            };
            &&& ids == crate::views::page_ids(list, cursor, size)
            &&& report.next_cursor == crate::views::page_next(list, cursor, size)
            &&& report.expired_count == s.count_standing(ids, now, Standing::Expired)
            &&& report.underfunded_count == s.count_standing(ids, now, Standing::Underfunded)
            &&& report.healthy_count == s.count_standing(ids, now, Standing::Healthy)
            &&& range@ == crate::views::streams_between(
                s.streams,
                start_id as int,
                last as int,
                shown,
            )
        }),
{
}

/// What could be claimed at a given time, what a keeper would get, and how a
/// stream stands, is told.
pub proof fn law_forecast_getters(
    contract: &FluxoraStream,
    call: &Call,
    id: u64,
    timestamp: u64,
    claimable: Result<i128, ContractError>,
    split: Result<(i128, i128), ContractError>,
)
    requires
        call_ensures(FluxoraStream::get_claimable_at, (contract, id, timestamp), claimable),
        call_ensures(FluxoraStream::get_keeper_fee_split, (contract, call, id), split),
    ensures
        ({
            let s = contract@;
            &&& s.streams.dom().contains(id) ==> claimable is Ok && claimable->Ok_0
                == s.claimable_at(id, timestamp)
            &&& !s.streams.dom().contains(id) ==> claimable is Err && claimable->Err_0
                == ContractError::StreamNotFound
            &&& split is Err ==> s.keeper_fee_error(id) == Some(split->Err_0)
            &&& split is Ok ==> s.keeper_fee_error(id) is None && (
                split->Ok_0.0 as int,
                split->Ok_0.1 as int,
            ) == s.keeper_fee_preview(*call, id)
        }),
{
}

/// `get_stream_health` tells the health of a stream, and records the time.
pub proof fn law_get_stream_health_answers(
    contract: &mut FluxoraStream,
    call: &Call,
    id: u64,
    r: Result<StreamHealth, ContractError>,
)
    requires
        call_ensures(FluxoraStream::get_stream_health, (contract, call, id), r),
    ensures
        does(
            old(contract)@,
            final(contract)@,
            *call,
            (Request::CalculateAccrued { id }),
            r,
        ),
        r is Ok ==> crate::views::health_reported(
            r->Ok_0,
            old(contract)@.streams[id],
            call.timestamp,
        ),
{
}

/// `take_effects` hands the effects out once, in order, and changes nothing
/// else.
pub proof fn law_take_effects_answers(contract: &mut FluxoraStream, r: Vec<Effect>)
    requires
        call_ensures(FluxoraStream::take_effects, (contract,), r),
    ensures
        r@ == old(contract)@.effects,
        final(contract)@.effects.len() == 0,
        final(contract)@ == (ContractState {
            effects: final(contract)@.effects,
            ..old(contract)@
        }),
{
}

/// What is computed of a schedule alone: nothing before the cliff; then all at
/// once, or what was fixed before and the rate times the seconds since, within
/// the deposit.
pub proof fn law_accrual_computed(state: CheckpointState, rate: i128, t: u64, r: i128)
    requires
        call_ensures(
            crate::accrual::calculate_accrued_amount_checkpointed,
            (state, rate, t),
            r,
        ),
    ensures
        ({
            let first = if state.kind == StreamKind::CliffSlope && state.checkpointed_at
                < state.cliff_time {
                state.cliff_time
            } else {
                state.checkpointed_at
            };
            let last = if t < state.end_time {
                t
            } else {
                state.end_time
            };
            let seconds = if last < first {
                0
            } else {
                last - first
            };
            let sum = state.checkpointed_amount + rate * seconds;
            r == if t < state.cliff_time {
                0
            } else if state.kind == StreamKind::CliffOnly || state.deposit_amount <= sum {
                state.deposit_amount as int
            } else {
                sum
            }
        }),
{
}

/// What is computed of a stream at a time.
pub proof fn law_stream_computed(stream: &Stream, t: u64, earned: i128, built: i128)
    requires
        call_ensures(Stream::accrued_at, (stream, t), earned),
        call_ensures(Stream::built_up, (stream, t), built),
    ensures
        earned == stream.spec_accrued_at(t as int),
        built == stream.spec_built_up(t as int),
        t >= stream.cliff_time && stream.kind == StreamKind::Linear ==> earned == built,
{
}

/// A fee is a part of ten thousand, rounded down, and the rest is what is left.
pub proof fn law_fee_computed(gross: i128, bps: u32, r: (i128, i128))
    requires
        call_ensures(crate::lifecycle::compute_keeper_fee_split, (gross, bps), r),
    ensures
        r.0 + r.1 == gross,
        gross * bps <= i128::MAX ==> r.0 == gross * bps / 10_000,
        gross * bps > i128::MAX ==> r.0 == i128::MAX as int / 10_000,
{
}

/// What is computed of the health of a sound stream.
pub proof fn law_health_computed(stream: &Stream, now: u64, r: (bool, i128, u64))
    requires
        stream.sound(),
        call_ensures(crate::lifecycle::compute_stream_health, (stream, now), r),
    ensures
        r.0 == stream.spec_underfunded(),
        r.1 == stream.deposit_amount - stream.withdrawn_amount,
        now < stream.end_time ==> r.2 == stream.end_time - now,
        stream.end_time <= now ==> r.2 == 0,
{
}

/// A list of identifiers is refused if one of them stands in it twice.
pub proof fn law_duplicates_found(ids: &Vec<u64>, i: int, j: int, r: Result<(), ContractError>)
    requires
        call_ensures(crate::batch::reject_duplicate_ids, (ids,), r),
        0 <= i < j < ids@.len(),
    ensures
        ids@[i] == ids@[j] ==> r is Err && r->Err_0 == ContractError::DuplicateStreamId,
        r is Err ==> r->Err_0 == ContractError::DuplicateStreamId && exists|a: int, b: int|
            0 <= a < b < ids@.len() && ids@[a] == ids@[b],
{
}

/// Metadata is refused if it is larger than allowed.
pub proof fn law_metadata_checked(metadata: &Metadata, r: Result<(), ContractError>)
    requires
        call_ensures(crate::creation::validate_metadata, (metadata,), r),
    ensures
        ({
            let entries = metadata@;
            &&& r is Ok <==> {
                &&& entries.len() <= 8
                &&& forall|i: int|
                    #![trigger entries[i]]
                    0 <= i < entries.len() ==> entries[i].0@.len() <= 32 && entries[i].1@.len()
                        <= 128
                &&& crate::creation::metadata_bytes(entries, entries.len() as int) <= 512
            }
            &&& r is Err ==> r->Err_0 == ContractError::MetadataTooLarge
        }),
{
}

/// What recipients and witnesses sign tells what it is about, byte by byte.
pub proof fn law_messages_built(
    stream_id: u64,
    nonce: u64,
    deadline: u64,
    minimum: i128,
    fee: i128,
    withdrawal: Vec<u8>,
    cancellation: Vec<u8>,
)
    requires
        0 <= minimum,
        0 <= fee,
        call_ensures(
            crate::delegated::build_delegated_withdraw_message,
            (stream_id, nonce, deadline, minimum, fee),
            withdrawal,
        ),
        call_ensures(
            crate::delegated::build_witnessed_cancel_message,
            (stream_id, deadline),
            cancellation,
        ),
    ensures
        withdrawal@.len() == 56,
        crate::laws::readings::number(withdrawal@.subrange(0, 8)) == stream_id,
        crate::laws::readings::number(withdrawal@.subrange(8, 16)) == nonce,
        crate::laws::readings::number(withdrawal@.subrange(16, 24)) == deadline,
        crate::laws::readings::number(withdrawal@.subrange(24, 40)) == minimum,
        crate::laws::readings::number(withdrawal@.subrange(40, 56)) == fee,
        cancellation@.len() == 32,
        crate::laws::readings::number(cancellation@.subrange(16, 24)) == stream_id,
        crate::laws::readings::number(cancellation@.subrange(24, 32)) == deadline,
{
    crate::laws::readings::law_withdraw_message_layout(stream_id, nonce, deadline, minimum, fee);
    crate::laws::readings::law_cancel_message_layout(stream_id, deadline);
}

/// The length of a text is the number of its bytes.
pub proof fn law_text_measured(text: &Text, r: usize)
    requires
        call_ensures(Text::len, (text,), r),
    ensures
        text.bytes is None ==> r == 0,
        text.bytes is Some ==> r == text.bytes->0@.len(),
{
}

/// `create_pooled_stream` never makes a stream, since the sender stands in for
/// the recipient; it changes nothing.
pub proof fn law_create_pooled_stream_answers(
    contract: &mut FluxoraStream,
    call: &Call,
    sender: Address,
    recipients: Vec<PoolShare>,
    deposit_amount: i128,
    rate_per_second: i128,
    start_time: u64,
    cliff_time: u64,
    end_time: u64,
    withdraw_dust_threshold: i128,
    memo: Option<Bytes>,
    kind: StreamKind,
    r: Result<u64, ContractError>,
)
    requires
        call_ensures(
            FluxoraStream::create_pooled_stream,
            (
                contract,
                call,
                sender,
                recipients,
                deposit_amount,
                rate_per_second,
                start_time,
                cliff_time,
                end_time,
                withdraw_dust_threshold,
                memo,
                kind,
            ),
            r,
        ),
    ensures
        final(contract)@ == old(contract)@,
        ({
            let s = old(contract)@;
            let total = crate::state::share_total(recipients@, recipients@.len() as int);
            r is Err && r->Err_0 == if !call.signers@.contains(sender) {
                ContractError::Unauthorized
            } else if s.emergency_paused || s.creation_paused {
                ContractError::ContractPaused
            } else if recipients@.len() <= 100 && total > u32::MAX {
                ContractError::ArithmeticOverflow
            } else {
                ContractError::InvalidParams
            }
        }),
{
}

/// How long a stored stream is kept, and which version this is.
pub proof fn law_constants_told(now: u64, end_time: u64, ledgers: u32, version: u32)
    requires
        call_ensures(crate::views::compute_adaptive_ttl, (now, end_time), ledgers),
        call_ensures(FluxoraStream::version, (), version),
    ensures
        version == 9,
        ledgers == crate::views::adaptive_ttl(now, end_time),
{
}

/// `save_stream` stores a stream under its identifier, and changes nothing else.
pub proof fn law_save_stream_answers(contract: &mut FluxoraStream, stream: &Stream, r: ())
    requires
        call_ensures(crate::ops::save_stream, (contract, stream), r),
    ensures
        final(contract)@ == (ContractState {
            streams: old(contract)@.streams.insert(stream.stream_id, *stream),
            ..old(contract)@
        }),
{
}

/// What is asked before a deposit is taken or a signature is checked.
pub proof fn law_admissions(
    contract: &FluxoraStream,
    call: &Call,
    sender: Address,
    params: &CreateStreamParams,
    now: u64,
    request: DelegatedWithdrawal,
    id: u64,
    key: Word,
    deadline: u64,
    schedule: Result<(), ContractError>,
    entry: Result<(), ContractError>,
    delegated: Result<(), ContractError>,
    witnessed: Result<(), ContractError>,
)
    requires
        call_ensures(FluxoraStream::validate_entry, (contract, sender, params, now), schedule),
        call_ensures(FluxoraStream::admit_entry, (contract, sender, params, now), entry),
        call_ensures(
            FluxoraStream::admit_delegated_withdrawal,
            (contract, call, request),
            delegated,
        ),
        call_ensures(
            FluxoraStream::admit_witnessed_cancel,
            (contract, call, id, key, deadline),
            witnessed,
        ),
    ensures
        ({
            let s = contract@;
            let told = |r: Result<(), ContractError>|
                match r {
                    Ok(_) => None::<ContractError>,
                    Err(e) => Some(e),
                };
            &&& told(schedule) == params.error(s.max_rate_per_second, sender, now)
            &&& told(entry) == params.entry_error(s.max_rate_per_second, sender, now)
            &&& told(delegated) == s.delegated_admission_error(*call, request)
            &&& told(witnessed) == s.witness_admission_error(*call, id, key, deadline)
        }),
{
}

/// A cancellation, whoever asks for it, pays the sender what was not earned, in
/// one payment, and nothing if all was earned; it pays nobody else. What is owed
/// falls by what was paid.
pub proof fn law_cancellation_pays_sender(
    contract: &mut FluxoraStream,
    call: &Call,
    id: u64,
    key: Word,
    deadline: u64,
    valid: bool,
    r: Result<(), ContractError>,
)
    requires
        old(contract)@.wf(),
        old(contract)@.total_liabilities >= 0,
        call_ensures(FluxoraStream::cancel_stream, (contract, call, id), r) || call_ensures(
            FluxoraStream::cancel_stream_as_admin,
            (contract, call, id),
            r,
        ) || call_ensures(
            FluxoraStream::witnessed_cancel_stream,
            (contract, call, id, key, deadline, valid),
            r,
        ),
        r is Ok,
    ensures
        ({
            let s = old(contract)@;
            let t = final(contract)@;
            let a = s.streams[id];
            let unearned = a.deposit_amount - a.spec_accrued_at(call.timestamp as int);
            let ended = Effect::Emit(Event::Status(StreamEvent::StreamCancelled(id)));
            &&& unearned > 0 ==> t.effects == s.effects.push(
                Effect::Push { to: a.sender, amount: unearned as i128 },
            ).push(ended)
            &&& unearned == 0 ==> t.effects == s.effects.push(ended)
            &&& 0 <= unearned == s.total_liabilities - t.total_liabilities
            &&& t.streams == s.streams.insert(id, t.streams[id])
            &&& t.streams[id].status == StreamStatus::Cancelled
            &&& t.streams[id].cancelled_at == Some(call.timestamp)
        }),
{
    let s = old(contract)@;
    assert(s.streams.dom().contains(id) && s.cancel_error(s.streams[id], call.timestamp) is None);
    crate::registry::lemma_stored_stream(s, id);
    crate::laws::endings::law_cancellation_outcome(s, s.streams[id], call.timestamp);
}

/// A withdrawal from a stream that is cancelled or past its end pays its
/// recipient all that was earned and not withdrawn, whatever the threshold for
/// dust is, where no lookback window is set and the contract holds enough.
pub proof fn law_withdrawal_settles_stream(
    contract: &mut FluxoraStream,
    call: &Call,
    id: u64,
    r: Result<i128, ContractError>,
)
    requires
        old(contract)@.wf(),
        old(contract)@.total_liabilities >= 0,
        call_ensures(FluxoraStream::withdraw, (contract, call, id), r),
        r is Ok,
        !old(contract)@.lookback.dom().contains(id),
        old(contract)@.streams[id].status == StreamStatus::Cancelled
            || old(contract)@.streams[id].end_time <= call.timestamp,
        old(contract)@.streams[id].withdrawn_amount <= old(contract)@.streams[id].spec_earned(
            call.timestamp,
        ),
        old(contract)@.streams[id].spec_earned(call.timestamp)
            - old(contract)@.streams[id].withdrawn_amount <= call.balance,
    ensures
        ({
            let s = old(contract)@;
            let t = final(contract)@;
            let a = s.streams[id];
            let due = a.spec_earned(call.timestamp) - a.withdrawn_amount;
            &&& r->Ok_0 == due
            &&& t.streams[id].withdrawn_amount == a.spec_earned(call.timestamp)
            &&& due > 0 ==> t.effects[s.effects.len() as int] == (Effect::Push {
                to: a.recipient,
                amount: due as i128,
            })
            &&& due == 0 ==> t.effects == s.effects
            &&& t.total_liabilities == s.total_liabilities - due
        }),
{
    let s = old(contract)@;
    crate::registry::lemma_stored_stream(s, id);
    crate::laws::claims::law_settled_stream_pays_all_due(
        s.streams[id],
        call.timestamp,
        call.balance,
    );
    crate::laws::claims::law_withdrawal_outcome(s, *call, id);
}

/// A shortening leaves the larger of what the rate gives from the start to the
/// new end and of what was earned by now as the deposit, and pays the rest of
/// the old deposit to the sender.
pub proof fn law_shortening_refunds_sender(
    contract: &mut FluxoraStream,
    call: &Call,
    id: u64,
    end_time: u64,
    r: Result<(), ContractError>,
)
    requires
        old(contract)@.wf(),
        old(contract)@.total_liabilities >= 0,
        call_ensures(FluxoraStream::shorten_stream_end_time, (contract, call, id, end_time), r),
        r is Ok,
    ensures
        ({
            let s = old(contract)@;
            let t = final(contract)@;
            let a = s.streams[id];
            let b = t.streams[id];
            let whole = a.rate_per_second * (end_time - a.start_time);
            let earned = a.spec_accrued_at(call.timestamp as int);
            let refund = a.deposit_amount - b.deposit_amount;
            &&& b.end_time == end_time
            &&& b.deposit_amount == if whole < earned {
                earned
            } else {
                whole
            }
            &&& refund > 0 ==> t.effects[s.effects.len() as int] == (Effect::Push {
                to: a.sender,
                amount: refund as i128,
            })
            &&& t.effects.len() == s.effects.len() + if refund > 0 {
                2int
            } else {
                1
            }
            &&& 0 <= refund == s.total_liabilities - t.total_liabilities
        }),
{
    crate::laws::changes::law_shortening_outcome(old(contract)@, *call, id, end_time);
}

/// The child of a delegation has its cliff when the parent has it, or now if
/// that is past, and has earned nothing at any time before the cliff of the
/// parent.
pub proof fn law_delegated_child_waits(
    contract: &mut FluxoraStream,
    call: &Call,
    id: u64,
    recipient: Address,
    share_bps: u32,
    new_recipient: Address,
    r: Result<u64, ContractError>,
    t: int,
)
    requires
        old(contract)@.wf(),
        old(contract)@.room_for(old(contract)@.streams[id].sender, new_recipient, 1),
        call_ensures(
            FluxoraStream::delegate_recipient_share,
            (contract, call, id, recipient, share_bps, new_recipient),
            r,
        ),
        r is Ok,
    ensures
        ({
            let a = old(contract)@.streams[id];
            let child = final(contract)@.streams[r->Ok_0];
            &&& child.cliff_time == if a.cliff_time < call.timestamp {
                call.timestamp
            } else {
                a.cliff_time
            }
            &&& t < a.cliff_time ==> child.spec_accrued_at(t) == 0
            &&& child.recipient == new_recipient
            &&& child.parent_stream_id == Some(id)
        }),
{
    let s = old(contract)@;
    crate::laws::changes::law_delegation_outcome(
        s,
        *call,
        id,
        recipient,
        share_bps,
        new_recipient,
    );
    if t < s.streams[id].cliff_time {
        crate::laws::changes::law_child_waits_for_cliff(
            s,
            *call,
            id,
            recipient,
            share_bps,
            new_recipient,
            t,
        );
    }
}

/// A stream made by accepting an offer counts from its own start: at any time
/// from its cliff to its end it has earned the rate times the seconds since
/// then, within the deposit, if it is linear.
pub proof fn law_accepted_offer_counts_from_start(
    contract: &mut FluxoraStream,
    call: &Call,
    recipient: Address,
    offer_id: u64,
    r: Result<u64, ContractError>,
    t: u64,
)
    requires
        old(contract)@.wf(),
        0 <= old(contract)@.total_liabilities,
        old(contract)@.total_liabilities + old(contract)@.offers[offer_id].deposit_amount
            <= i128::MAX,
        call_ensures(
            FluxoraStream::accept_stream_offer,
            (contract, call, recipient, offer_id),
            r,
        ),
        r is Ok,
    ensures
        ({
            let b = final(contract)@.streams[r->Ok_0];
            let earned = b.rate_per_second * (t - b.start_time);
            &&& r->Ok_0 == offer_id
            &&& b.checkpointed_at == b.start_time
            &&& b.checkpointed_amount == 0
            &&& call.timestamp <= b.start_time
            &&& b.kind == StreamKind::Linear && b.cliff_time <= t <= b.end_time ==> b.spec_earned(
                t,
            ) == if earned < b.deposit_amount {
                earned
            } else {
                b.deposit_amount as int
            }
        }),
{
    let s = old(contract)@;
    let b = s.accept_offer_step(*call, offer_id).streams[offer_id];
    crate::laws::makings::law_accepted_offer_outcome(s, *call, recipient, offer_id);
    if b.cliff_time <= t <= b.end_time {
        crate::laws::makings::law_new_stream_earns(b, t as int);
    }
}

} // verus!
