//! Money comes in only for what is owed or held, and goes out only with it.

use crate::delegated::DelegatedWithdrawal;
use crate::events::Effect;
use crate::laws::books::{booked, regular};
use crate::laws::streams::fits;
use crate::operations::Request;
use crate::state::{Call, ContractState};
use crate::types::{Address, CreateStreamParams};
use vstd::prelude::*;

verus! {

/// What one effect brings into the contract, less what it takes out.
pub open spec fn value(effect: Effect) -> int {
    match effect {
        Effect::Pull { amount, .. } => amount as int,
        Effect::Push { amount, .. } => -amount,
        _ => 0,
    }
}

/// What the effects bring into the contract, less what they take out.
pub open spec fn flow(effects: Seq<Effect>) -> int
    decreases effects.len(),
{
    if effects.len() == 0 {
        0
    } else {
        flow(effects.drop_last()) + value(effects.last())
    }
}

/// By how much a request changes what is held for offers.
pub open spec fn held_more(s: ContractState, request: Request) -> int {
    match request {
        Request::CreateOffer { params, .. } => params.deposit_amount as int,
        Request::AcceptOffer { id, .. } => -s.offers[id].deposit_amount,
        Request::RejectOffer { id, .. } => -s.offers[id].deposit_amount,
        Request::CancelOffer { id, .. } => -s.offers[id].deposit_amount,
        _ => 0,
    }
}

proof fn lemma_flows()
    ensures
        forall|effects: Seq<Effect>, effect: Effect| #[trigger]
            flow(effects.push(effect)) == flow(effects) + value(effect),
{
    assert forall|effects: Seq<Effect>, effect: Effect| #[trigger]
        flow(effects.push(effect)) == flow(effects) + value(effect) by {
        assert(effects.push(effect).drop_last() =~= effects);
    }
}

proof fn lemma_flow_register_all(
    s: ContractState,
    sender: Address,
    now: u64,
    max_rate: i128,
    batch: Seq<CreateStreamParams>,
    n: int,
)
    requires
        0 <= s.total_liabilities,
        0 <= n <= batch.len(),
        forall|i: int|
            0 <= i < n ==> (#[trigger] batch[i]).error(max_rate, sender, now) is None,
        s.register_all(sender, batch, n).total_liabilities < i128::MAX,
    ensures
        flow(s.register_all(sender, batch, n).effects) == flow(s.effects),
        s.register_all(sender, batch, n).total_liabilities == s.total_liabilities
            + crate::creation::total_deposit(batch, n),
        0 <= crate::creation::total_deposit(batch, n),
    decreases n,
{
    if n > 0 {
        assert(batch[n - 1].error(max_rate, sender, now) is None);
        lemma_flow_register_all(s, sender, now, max_rate, batch, n - 1);
        lemma_flows();
    }
}

proof fn lemma_flow_create_all(
    s: ContractState,
    call: Call,
    sender: Address,
    batch: Seq<CreateStreamParams>,
)
    requires
        0 <= s.total_liabilities,
        s.create_all_error(call, sender, batch) is None,
        s.create_all_step(sender, batch).total_liabilities < i128::MAX,
    ensures
        flow(s.create_all_step(sender, batch).effects) - flow(s.effects) == s.create_all_step(
            sender,
            batch,
        ).total_liabilities - s.total_liabilities,
{
    if batch.len() > 0 {
        let n = batch.len() as int;
        crate::laws::streams::lemma_batch_entries_ok(s, sender, call.timestamp, batch, n);
        let paid = s.pull(sender, crate::creation::total_deposit(batch, n) as i128);
        lemma_flow_register_all(paid, sender, call.timestamp, s.max_rate_per_second, batch, n);
        lemma_flows();
    }
}

/// Money goes in with a new stream, and what is owed rises by as much.
#[verifier::rlimit(50)]
#[verifier::spinoff_prover]
proof fn lemma_conserved_by_creation(s: ContractState, call: Call, request: Request)
    requires
        s.wf(),
        fits(s, call, request),
        regular(s, call, request),
        booked(s),
        s.refusal(call, request) is None,
        match request {
            Request::CreateStream { .. } => true,
            Request::CreateStreamRelative { .. } => true,
            Request::CreateStreams { .. } => true,
            Request::CreateStreamsRelative { .. } => true,
            Request::CreatePooledStream { .. } => true,
            Request::Delegate { .. } => true,
            Request::Renew { .. } => true,
            Request::CloneStream { .. } => true,
            Request::AcceptOffer { .. } => true,
            Request::CreateOffer { .. } => true,
            Request::RejectOffer { .. } => true,
            Request::CancelOffer { .. } => true,
            Request::TopUp { .. } => true,
            _ => false,
        },
    ensures
        flow(s.effect_of(call, request).effects) - flow(s.effects) == s.effect_of(
            call,
            request,
        ).total_liabilities - s.total_liabilities + held_more(s, request),
{
    let t = s.effect_of(call, request);
    crate::laws::books::lemma_owed(s);
    let goal = flow(t.effects) - flow(s.effects) == t.total_liabilities - s.total_liabilities
        + held_more(s, request);
    match request {
        Request::CreateStream { sender, params } => {
            assert(goal) by {
                lemma_flows();
            }
        },
        Request::CreateStreamRelative { sender, relative } => {
            assert(goal) by {
                lemma_flows();
            }
        },
        Request::CreateStreams { sender, batch } => {
            lemma_flow_create_all(s, call, sender, batch);
        },
        Request::CreateStreamsRelative { sender, relative_batch } => {
            if relative_batch.len() > 0 {
                let batch = crate::creation::dated_batch(relative_batch, call.timestamp);
                lemma_flow_create_all(s, call, sender, batch);
            }
        },
        Request::CreatePooledStream { params, shares } => {
            assert(goal) by {
                lemma_flows();
            }
        },
        Request::Delegate { id, .. } => {
            assert(goal) by {
                lemma_flows();
            }
        },
        Request::Renew { id, .. } => {
            crate::registry::lemma_stored_stream(s, id);
            assert(goal) by {
                lemma_flows();
            }
        },
        Request::CloneStream { id, .. } => {
            crate::registry::lemma_stored_stream(s, id);
            assert(goal) by {
                lemma_flows();
            }
        },
        Request::AcceptOffer { id, .. } => {
            crate::registry::lemma_stored_offer(s, id);
            assert(goal) by {
                lemma_flows();
            }
        },
        Request::CreateOffer { .. } => {
            assert(goal) by {
                lemma_flows();
            }
        },
        Request::RejectOffer { id, .. } => {
            assert(goal) by {
                lemma_flows();
            }
        },
        Request::CancelOffer { id, .. } => {
            assert(goal) by {
                lemma_flows();
            }
        },
        Request::TopUp { .. } => {
            assert(goal) by {
                lemma_flows();
            }
        },
        _ => {},
    }
}

proof fn lemma_flow_batch(s: ContractState, call: Call, who: Address, ids: Seq<u64>, n: int)
    requires
        s.wf(),
        0 <= n <= ids.len(),
        crate::batch::distinct(ids),
        forall|i: int|
            0 <= i < ids.len() ==> s.batch_item_error(call, who, #[trigger] ids[i]) is None,
        s.clock_ok(call.timestamp),
        booked(s),
        0 <= call.balance,
    ensures
        flow(s.batch_step(call, ids, n).effects) - flow(s.effects) == s.batch_step(
            call,
            ids,
            n,
        ).total_liabilities - s.total_liabilities,
    decreases n,
{
    lemma_flows();
    if n > 0 {
        lemma_flow_batch(s, call, who, ids, n - 1);
        crate::laws::claims::law_batch_step_outcome(s, call, who, ids, n - 1);
    }
}

proof fn lemma_flow_bulk_cancel(
    s: ContractState,
    now: u64,
    sender: Address,
    ids: Seq<u64>,
    n: int,
)
    requires
        s.wf(),
        booked(s),
        s.clock_ok(now),
        0 <= n <= ids.len(),
        crate::batch::distinct(ids),
        forall|i: int|
            0 <= i < ids.len() ==> s.bulk_cancel_item_error(sender, #[trigger] ids[i]) is None,
    ensures
        flow(s.bulk_cancel_all(now, ids, n).effects) - s.bulk_refund(now, ids, n) - flow(s.effects)
            == s.bulk_cancel_all(now, ids, n).total_liabilities - s.total_liabilities,
    decreases n,
{
    lemma_flows();
    if n > 0 {
        lemma_flow_bulk_cancel(s, now, sender, ids, n - 1);
        crate::laws::endings::law_bulk_cancel_step_outcome(s, now, sender, ids, n - 1);
    }
}

proof fn lemma_flow_resumes(s: ContractState, call: Call, ids: Seq<u64>, n: int)
    ensures
        flow(s.bulk_resume_step(call, ids, n).effects) == flow(s.effects),
        s.bulk_resume_step(call, ids, n).total_liabilities == s.total_liabilities,
    decreases n,
{
    lemma_flows();
    if n > 0 {
        lemma_flow_resumes(s, call, ids, n - 1);
    }
}

proof fn lemma_flow_withdraw(s: ContractState, call: Call, id: u64)
    requires
        s.wf(),
        booked(s),
        s.withdraw_error(call, id) is None,
    ensures
        ({
            let t = s.withdraw_step(call, id);
            flow(t.effects) - flow(s.effects) == t.total_liabilities - s.total_liabilities
        }),
{
    crate::laws::books::lemma_owed(s);
    lemma_flows();
    crate::laws::claims::law_withdrawal_outcome(s, call, id);
}

proof fn lemma_flow_withdraw_to(s: ContractState, call: Call, id: u64, destination: Address)
    requires
        s.wf(),
        booked(s),
        s.withdraw_to_error(call, id, destination) is None,
    ensures
        ({
            let t = s.withdraw_to_step(call, id, destination);
            flow(t.effects) - flow(s.effects) == t.total_liabilities - s.total_liabilities
        }),
{
    crate::laws::books::lemma_owed(s);
    lemma_flows();
    crate::laws::claims::law_withdrawal_to_outcome(s, call, id, destination);
}

proof fn lemma_flow_delegated(s: ContractState, call: Call, r: DelegatedWithdrawal)
    requires
        s.wf(),
        booked(s),
        s.delegated_withdraw_error(call, r) is None,
    ensures
        ({
            let t = s.delegated_withdraw_step(call, r);
            flow(t.effects) - flow(s.effects) == t.total_liabilities - s.total_liabilities
        }),
{
    crate::laws::books::lemma_owed(s);
    lemma_flows();
    crate::laws::claims::law_delegated_withdrawal_outcome(s, call, r);
}

proof fn lemma_flow_auto_claim(s: ContractState, call: Call, id: u64)
    requires
        s.wf(),
        booked(s),
        s.trigger_auto_claim_error(call, id) is None,
    ensures
        ({
            let t = s.trigger_auto_claim_step(call, id);
            flow(t.effects) - flow(s.effects) == t.total_liabilities - s.total_liabilities
        }),
{
    crate::laws::books::lemma_owed(s);
    lemma_flows();
    crate::laws::claims::law_auto_claim_outcome(s, call, id);
}

proof fn lemma_flow_cancel(s: ContractState, now: u64, id: u64)
    requires
        s.wf(),
        booked(s),
        s.streams.dom().contains(id),
        s.cancel_error(s.streams[id], now) is None,
    ensures
        ({
            let t = s.cancel(s.streams[id], now);
            flow(t.effects) - flow(s.effects) == t.total_liabilities - s.total_liabilities
        }),
{
    crate::laws::books::lemma_owed(s);
    lemma_flows();
    crate::registry::lemma_stored_stream(s, id);
    crate::laws::endings::law_cancellation_outcome(s, s.streams[id], now);
}

proof fn lemma_flow_keeper(s: ContractState, call: Call, id: u64, keeper: Address)
    requires
        s.wf(),
        booked(s),
        s.clock_ok(call.timestamp),
        s.keeper_cancel_error(call, id, keeper) is None,
    ensures
        ({
            let t = s.keeper_cancel_step(call, id, keeper);
            flow(t.effects) - flow(s.effects) == t.total_liabilities - s.total_liabilities
        }),
{
    crate::laws::books::lemma_owed(s);
    lemma_flows();
    crate::registry::lemma_stored_stream(s, id);
    assert(crate::laws::books::fair(s.streams[id], crate::laws::books::clock(s)));
    crate::laws::accrual::law_accrued_monotone(
        s.streams[id],
        crate::laws::books::clock(s),
        call.timestamp as int,
    );
    crate::laws::endings::law_keeper_cancel_outcome(s, call, id, keeper);
}

proof fn lemma_flow_rate_cut(s: ContractState, call: Call, id: u64, rate: i128)
    requires
        s.wf(),
        booked(s),
        s.decrease_rate_error(call, id, rate) is None,
    ensures
        ({
            let t = s.decrease_rate_step(call, id, rate);
            flow(t.effects) - flow(s.effects) == t.total_liabilities - s.total_liabilities
        }),
{
    crate::laws::books::lemma_owed(s);
    lemma_flows();
    crate::laws::changes::law_rate_cut_outcome(s, call, id, rate);
}

proof fn lemma_flow_shorten(s: ContractState, call: Call, id: u64, end_time: u64)
    requires
        s.wf(),
        booked(s),
        s.shorten_error(call, id, end_time) is None,
    ensures
        ({
            let t = s.shorten_step(call, id, end_time);
            flow(t.effects) - flow(s.effects) == t.total_liabilities - s.total_liabilities
        }),
{
    crate::laws::books::lemma_owed(s);
    lemma_flows();
    crate::laws::changes::law_shortening_outcome(s, call, id, end_time);
}

proof fn lemma_flow_bulk(s: ContractState, call: Call, sender: Address, ids: Seq<u64>)
    requires
        s.wf(),
        booked(s),
        s.clock_ok(call.timestamp),
        s.bulk_cancel_error(call, sender, ids) is None,
    ensures
        flow(s.bulk_cancel_step(call.timestamp, sender, ids).effects) - flow(s.effects)
            == s.bulk_cancel_step(call.timestamp, sender, ids).total_liabilities
            - s.total_liabilities,
{
    lemma_flows();
    crate::laws::streams::lemma_cancels_ok(s, sender, ids, ids.len() as int);
    lemma_flow_bulk_cancel(s, call.timestamp, sender, ids, ids.len() as int);
    crate::laws::endings::law_bulk_cancel_refunds_once(s, call, sender, ids);
}

/// Money goes out with a payout, and what is owed falls by as much.
#[verifier::rlimit(50)]
#[verifier::spinoff_prover]
proof fn lemma_conserved_by_payment(s: ContractState, call: Call, request: Request)
    requires
        s.wf(),
        fits(s, call, request),
        regular(s, call, request),
        booked(s),
        0 <= call.balance,
        s.refusal(call, request) is None,
        match request {
            Request::Withdraw { .. } => true,
            Request::WithdrawTo { .. } => true,
            Request::WithdrawFromPool { .. } => true,
            Request::BatchWithdraw { .. } => true,
            Request::DelegatedWithdraw { .. } => true,
            Request::TriggerAutoClaim { .. } => true,
            Request::CancelStream { .. } => true,
            Request::CancelStreamAsAdmin { .. } => true,
            Request::WitnessedCancel { .. } => true,
            Request::KeeperCancel { .. } => true,
            Request::BulkCancel { .. } => true,
            Request::DecreaseRate { .. } => true,
            Request::Shorten { .. } => true,
            _ => false,
        },
    ensures
        flow(s.effect_of(call, request).effects) - flow(s.effects) == s.effect_of(
            call,
            request,
        ).total_liabilities - s.total_liabilities,
{
    match request {
        Request::Withdraw { id } => {
            lemma_flow_withdraw(s, call, id);
        },
        Request::WithdrawTo { id, destination } => {
            lemma_flow_withdraw_to(s, call, id, destination);
        },
        Request::WithdrawFromPool { id, .. } => {
            assert(crate::laws::books::fair(s.streams[id], crate::laws::books::clock(s)));
        },
        Request::BatchWithdraw { who, withdrawals } => {
            let ids = crate::batch::targets(withdrawals);
            crate::laws::streams::lemma_items_ok(s, call, who, ids, ids.len() as int);
            lemma_flow_batch(s, call, who, ids, ids.len() as int);
        },
        Request::DelegatedWithdraw { request: r } => {
            lemma_flow_delegated(s, call, r);
        },
        Request::TriggerAutoClaim { id } => {
            lemma_flow_auto_claim(s, call, id);
        },
        Request::CancelStream { id } => {
            lemma_flow_cancel(s, call.timestamp, id);
        },
        Request::CancelStreamAsAdmin { id } => {
            lemma_flow_cancel(s, call.timestamp, id);
        },
        Request::WitnessedCancel { id, .. } => {
            lemma_flow_cancel(s, call.timestamp, id);
        },
        Request::KeeperCancel { id, keeper } => {
            lemma_flow_keeper(s, call, id, keeper);
        },
        Request::BulkCancel { sender, ids } => {
            lemma_flow_bulk(s, call, sender, ids);
        },
        Request::DecreaseRate { id, rate } => {
            lemma_flow_rate_cut(s, call, id, rate);
        },
        Request::Shorten { id, end_time } => {
            lemma_flow_shorten(s, call, id, end_time);
        },
        _ => {},
    }
}

/// Nothing else moves money or changes what is owed.
#[verifier::rlimit(50)]
#[verifier::spinoff_prover]
proof fn lemma_conserved_otherwise(s: ContractState, call: Call, request: Request)
    requires
        s.refusal(call, request) is None,
        match request {
            Request::Init { .. } => false,
            Request::Sweep { .. } => false,
            Request::CreateStreamsPartial { .. } => false,
            Request::CreateStream { .. } => false,
            Request::CreateStreamRelative { .. } => false,
            Request::CreateStreams { .. } => false,
            Request::CreateStreamsRelative { .. } => false,
            Request::CreatePooledStream { .. } => false,
            Request::Delegate { .. } => false,
            Request::Renew { .. } => false,
            Request::CloneStream { .. } => false,
            Request::AcceptOffer { .. } => false,
            Request::CreateOffer { .. } => false,
            Request::RejectOffer { .. } => false,
            Request::CancelOffer { .. } => false,
            Request::TopUp { .. } => false,
            Request::Withdraw { .. } => false,
            Request::WithdrawTo { .. } => false,
            Request::WithdrawFromPool { .. } => false,
            Request::BatchWithdraw { .. } => false,
            Request::DelegatedWithdraw { .. } => false,
            Request::TriggerAutoClaim { .. } => false,
            Request::CancelStream { .. } => false,
            Request::CancelStreamAsAdmin { .. } => false,
            Request::WitnessedCancel { .. } => false,
            Request::KeeperCancel { .. } => false,
            Request::BulkCancel { .. } => false,
            Request::DecreaseRate { .. } => false,
            Request::Shorten { .. } => false,
            _ => true,
        },
    ensures
        flow(s.effect_of(call, request).effects) == flow(s.effects),
        s.effect_of(call, request).total_liabilities == s.total_liabilities,
{
    lemma_flows();
    match request {
        Request::BulkResume { ids } => {
            lemma_flow_resumes(s, call, ids, ids.len() as int);
        },
        _ => {},
    }
}

/// Whatever is asked of the contract, the money that comes in, less the money
/// that goes out, is by how much what is owed and what is held for offers rise
/// together. Apart are a sweep, which takes out only what is neither, and a
/// batch whose entries fail independently, whose deposits arrive beforehand.
pub proof fn law_money_is_conserved(s: ContractState, call: Call, request: Request)
    requires
        s.wf(),
        fits(s, call, request),
        regular(s, call, request),
        booked(s),
        0 <= call.balance,
        request !is Init,
        request !is Sweep,
        request !is CreateStreamsPartial,
        s.refusal(call, request) is None,
    ensures
        flow(s.after(call, request).effects) - flow(s.effects) == s.after(
            call,
            request,
        ).total_liabilities - s.total_liabilities + held_more(s, request),
{
    match request {
        Request::CreateStream { .. }
        | Request::CreateStreamRelative { .. }
        | Request::CreateStreams { .. }
        | Request::CreateStreamsRelative { .. }
        | Request::CreatePooledStream { .. }
        | Request::Delegate { .. }
        | Request::Renew { .. }
        | Request::CloneStream { .. }
        | Request::AcceptOffer { .. }
        | Request::CreateOffer { .. }
        | Request::RejectOffer { .. }
        | Request::CancelOffer { .. }
        | Request::TopUp { .. } => {
            lemma_conserved_by_creation(s, call, request);
        },
        Request::Withdraw { .. }
        | Request::WithdrawTo { .. }
        | Request::WithdrawFromPool { .. }
        | Request::BatchWithdraw { .. }
        | Request::DelegatedWithdraw { .. }
        | Request::TriggerAutoClaim { .. }
        | Request::CancelStream { .. }
        | Request::CancelStreamAsAdmin { .. }
        | Request::WitnessedCancel { .. }
        | Request::KeeperCancel { .. }
        | Request::BulkCancel { .. }
        | Request::DecreaseRate { .. }
        | Request::Shorten { .. } => {
            lemma_conserved_by_payment(s, call, request);
        },
        _ => {
            lemma_conserved_otherwise(s, call, request);
        },
    }
}

} // verus!
