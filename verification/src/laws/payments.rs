//! What holds of payouts, fees and refunds.

use crate::delegated::DelegatedWithdrawal;
use crate::events::Effect;
use crate::lifecycle::KEEPER_FEE_BPS;
use crate::state::{Call, ContractState};
use crate::types::{Address, ContractError, PoolShare, Stream, StreamStatus};
use vstd::prelude::*;

verus! {

/// What has been earned is never negative and never more than the deposit,
/// whatever became of the stream.
pub proof fn law_earned_bounded(stream: Stream, now: u64)
    requires
        stream.sound(),
    ensures
        0 <= stream.spec_earned(now) <= stream.deposit_amount,
{
    crate::laws::accrual::law_accrued_bounded(stream, stream.spec_accrual_time(now) as int);
}

/// A payout is never negative, never more than the contract holds, and leaves
/// no more withdrawn than was earned.
pub proof fn law_payout_bounded(stream: Stream, lookback: Option<u32>, now: u64, balance: i128)
    requires
        stream.sound(),
    ensures
        0 <= stream.spec_payout(lookback, now, balance),
        stream.spec_payout(lookback, now, balance) > 0 ==> {
            &&& stream.spec_payout(lookback, now, balance) <= balance
            &&& stream.withdrawn_amount + stream.spec_payout(lookback, now, balance)
                <= stream.spec_earned(now)
        },
{
    law_earned_bounded(stream, now);
}

/// What could be paid out before the dust threshold leaves no more withdrawn
/// than was earned.
pub proof fn law_payable_bounded(stream: Stream, lookback: Option<u32>, now: u64, balance: i128)
    requires
        stream.sound(),
    ensures
        stream.spec_payable(lookback, now, balance) > 0 ==> {
            &&& stream.spec_payable(lookback, now, balance) <= balance
            &&& stream.withdrawn_amount + stream.spec_payable(lookback, now, balance)
                <= stream.spec_earned(now)
        },
{
    law_earned_bounded(stream, now);
}

/// Before the cliff nothing is paid out.
pub proof fn law_no_payout_before_cliff(
    stream: Stream,
    lookback: Option<u32>,
    now: u64,
    balance: i128,
)
    requires
        stream.sound(),
        stream.spec_running(),
        now < stream.cliff_time,
    ensures
        stream.spec_payout(lookback, now, balance) == 0,
{
    law_payout_bounded(stream, lookback, now, balance);
}

/// A stream is completed by a payout exactly when it was running and its whole
/// deposit is withdrawn then.
pub proof fn law_completed_when_drained(stream: Stream, amount: int, ledger: u32)
    requires
        stream.spec_running(),
    ensures
        stream.spec_paid(amount, ledger).status == StreamStatus::Completed <==> (
        stream.withdrawn_amount + amount == stream.deposit_amount),
{
}

/// Where no window limits a claim and the contract holds enough, a claim pays
/// all that was earned and not withdrawn, unless it is dust.
pub proof fn law_payout_is_all_that_is_due(stream: Stream, now: u64, balance: i128)
    requires
        stream.sound(),
        stream.withdrawn_amount <= stream.spec_earned(now),
        stream.spec_earned(now) - stream.withdrawn_amount <= balance,
    ensures
        ({
            let due = stream.spec_earned(now) - stream.withdrawn_amount;
            stream.spec_payout(None, now, balance) == if stream.spec_dust(due, now) {
                0
            } else {
                due
            }
        }),
{
}

/// After a withdrawal of all that was due, a second one at the same time pays
/// nothing.
pub proof fn law_second_withdrawal_pays_nothing(
    s: ContractState,
    call: Call,
    again: Call,
    id: u64,
)
    requires
        s.wf(),
        s.withdraw_error(call, id) is None,
        s.payout_of(call, id) == s.streams[id].spec_earned(call.timestamp)
            - s.streams[id].withdrawn_amount,
        again.timestamp == call.timestamp,
    ensures
        ({
            let t = s.withdraw_step(call, id);
            t.withdraw_error(again, id) is None ==> t.payout_of(again, id) == 0
        }),
{
    crate::registry::lemma_stored_stream(s, id);
    let stream = s.streams[id];
    law_payout_bounded(stream, None, call.timestamp, call.balance);
    law_earned_bounded(stream, call.timestamp);
    let t = s.withdraw_step(call, id);
    let after = t.streams[id];
    let amount = s.payout_of(call, id);
    if amount > 0 {
        assert(after == stream.spec_paid(amount, call.sequence));
        if after.status != StreamStatus::Completed {
            assert(after.spec_earned(call.timestamp) == stream.spec_earned(call.timestamp));
            assert(after.withdrawn_amount == after.spec_earned(call.timestamp));
        }
    }
}

/// A withdrawal changes its own stream only; what it pays is what it books as
/// withdrawn, and, as long as the books have room for it, what it takes off
/// the liabilities.
pub proof fn law_withdrawal_balances(s: ContractState, call: Call, id: u64)
    requires
        s.wf(),
        s.withdraw_error(call, id) is None,
        s.total_liabilities >= 0,
    ensures
        ({
            let t = s.withdraw_step(call, id);
            let amount = s.payout_of(call, id);
            &&& t.streams.dom() == s.streams.dom()
            &&& forall|x: u64|
                #![trigger t.streams[x]]
                s.streams.dom().contains(x) && x != id ==> t.streams[x] == s.streams[x]
            &&& t.streams[id].withdrawn_amount == s.streams[id].withdrawn_amount + amount
            &&& t.total_liabilities == s.total_liabilities - amount
            &&& amount > 0 ==> t.effects.len() >= s.effects.len() + 2 && t.effects[s.effects.len() as int]
                == (crate::events::Effect::Push {
                to: s.streams[id].recipient,
                amount: amount as i128,
            })
        }),
{
    crate::registry::lemma_stored_stream(s, id);
    let stream = s.streams[id];
    law_payout_bounded(stream, s.lookback_of(id), call.timestamp, call.balance);
    law_earned_bounded(stream, call.timestamp);
    let t = s.withdraw_step(call, id);
    assert(t.streams.dom() =~= s.streams.dom());
}

/// What can be withdrawn from an active or cancelled stream is what a
/// withdrawal pays.
pub proof fn law_preview_matches_withdrawal(s: ContractState, call: Call, id: u64)
    requires
        s.streams[id].status == StreamStatus::Active || s.streams[id].status
            == StreamStatus::Cancelled,
    ensures
        s.withdrawable(call, id) == s.payout_of(call, id),
{
}

/// What could be claimed at the present time is what a withdrawal pays, where
/// the contract holds enough and the amount is no dust.
pub proof fn law_claimable_matches_withdrawal(s: ContractState, call: Call, id: u64)
    requires
        s.streams[id].status == StreamStatus::Active,
        s.streams[id].cancelled_at is None,
        s.claimable_at(id, call.timestamp) <= call.balance,
        !s.streams[id].spec_dust(s.claimable_at(id, call.timestamp), call.timestamp),
    ensures
        s.claimable_at(id, call.timestamp) == s.payout_of(call, id),
{
}

/// The payouts of a batch never take more than the contract holds.
pub proof fn law_batch_within_balance(s: ContractState, call: Call, ids: Seq<u64>, n: int)
    requires
        call.balance >= 0,
    ensures
        0 <= s.batch_balance(call, ids, n) <= call.balance,
    decreases n,
{
    if n > 0 {
        law_batch_within_balance(s, call, ids, n - 1);
    }
}

/// A claim in a batch pays what a single withdrawal would pay with the same
/// balance.
pub proof fn law_batch_pays_as_single(
    stream: Stream,
    lookback: Option<u32>,
    now: u64,
    balance: i128,
)
    requires
        stream.sound(),
        balance >= 0,
        !stream.spec_blocked(now),
        stream.cancelled_at is Some <==> stream.status == StreamStatus::Cancelled,
    ensures
        stream.spec_batch_payout(lookback, now, balance as int) == stream.spec_payout(
            lookback,
            now,
            balance,
        ),
{
    law_earned_bounded(stream, now);
}

/// A delegated withdrawal pays the recipient and the relayer together exactly
/// what it books as withdrawn, and takes as much off what the contract owes.
pub proof fn law_delegated_split(s: ContractState, call: Call, request: DelegatedWithdrawal)
    requires
        s.wf(),
        s.delegated_withdraw_error(call, request) is None,
    ensures
        s.delegated_net(call, request) + request.relayer_fee == s.delegated_gross(
            call,
            request.stream_id,
        ),
        s.delegated_net(call, request) >= 0,
        s.delegated_net(call, request) >= request.expected_minimum_amount,
        s.delegated_withdraw_step(call, request).streams[request.stream_id].withdrawn_amount
            == s.streams[request.stream_id].withdrawn_amount + s.delegated_gross(
            call,
            request.stream_id,
        ),
        s.delegated_gross(call, request.stream_id) <= s.total_liabilities
            ==> s.delegated_withdraw_step(call, request).total_liabilities == s.total_liabilities
            - s.delegated_gross(call, request.stream_id),
{
    crate::registry::lemma_stored_stream(s, request.stream_id);
    let stream = s.streams[request.stream_id];
    law_payable_bounded(
        stream,
        s.lookback_of(request.stream_id),
        call.timestamp,
        call.balance,
    );
    law_earned_bounded(stream, call.timestamp);
}

/// Every delegated withdrawal that is carried out, whatever it pays, uses up the
/// nonce of its recipient and of nobody else.
pub proof fn law_delegated_nonce_counts(
    s: ContractState,
    call: Call,
    request: DelegatedWithdrawal,
    who: Address,
)
    requires
        s.wf(),
        s.delegated_withdraw_error(call, request) is None,
        request.nonce < u64::MAX,
    ensures
        s.delegated_withdraw_step(call, request).delegated_nonce(who) == s.delegated_nonce(who)
            + if who == s.streams[request.stream_id].recipient {
            1int
        } else {
            0
        },
{
}

/// A nonce that was used is refused on every stream of the recipient, as a bad
/// signature, if the request comes from a relayer who signs and in time.
pub proof fn law_delegated_no_replay(
    s: ContractState,
    call: Call,
    request: DelegatedWithdrawal,
    again: Call,
    other: DelegatedWithdrawal,
)
    requires
        s.wf(),
        s.delegated_withdraw_error(call, request) is None,
        other.nonce == request.nonce,
        s.streams.dom().contains(other.stream_id),
        s.streams[other.stream_id].recipient == s.streams[request.stream_id].recipient,
    ensures
        ({
            let t = s.delegated_withdraw_step(call, request);
            let e = t.delegated_withdraw_error(again, other);
            &&& e is Some
            &&& again.authorised(other.relayer) && again.timestamp <= other.deadline ==> e
                == Some(ContractError::InvalidSignature)
        }),
{
    crate::registry::lemma_stored_stream(s, request.stream_id);
    crate::registry::lemma_stored_stream(s, other.stream_id);
    let nonce = request.nonce;
    assert((nonce + 1) as u64 != nonce) by (bit_vector);
}

/// The parts of the first `n` shares of an amount, each rounded down.
pub open spec fn parts_total(amount: int, shares: Seq<PoolShare>, total: int, n: int) -> int
    decreases n,
{
    if n <= 0 {
        0
    } else {
        parts_total(amount, shares, total, n - 1) + (amount * shares[n - 1].share) / total
    }
}

/// The parts of a pool together are never more than what there is to divide.
pub proof fn law_pool_parts_fit(amount: int, shares: Seq<PoolShare>, total: int)
    requires
        amount >= 0,
        total > 0,
        total == crate::state::share_total(shares, shares.len() as int),
    ensures
        0 <= parts_total(amount, shares, total, shares.len() as int) <= amount,
{
    lemma_parts(amount, shares, total, shares.len() as int);
    let n = shares.len() as int;
    let parts = parts_total(amount, shares, total, n);
    assert(parts * total <= amount * total);
    assert(parts <= amount) by (nonlinear_arith)
        requires
            parts * total <= amount * total,
            total > 0,
    ;
}

proof fn lemma_parts(amount: int, shares: Seq<PoolShare>, total: int, n: int)
    requires
        amount >= 0,
        total > 0,
        0 <= n <= shares.len(),
    ensures
        0 <= parts_total(amount, shares, total, n),
        parts_total(amount, shares, total, n) * total <= amount * crate::state::share_total(
            shares,
            n,
        ),
    decreases n,
{
    if n > 0 {
        lemma_parts(amount, shares, total, n - 1);
        let share = shares[n - 1].share as int;
        let before = parts_total(amount, shares, total, n - 1);
        let sum = crate::state::share_total(shares, n - 1);
        let part = (amount * share) / total;
        assert(amount * share >= 0) by (nonlinear_arith)
            requires
                amount >= 0,
                share >= 0,
        ;
        vstd::arithmetic::div_mod::lemma_div_pos_is_pos(amount * share, total);
        vstd::arithmetic::div_mod::lemma_fundamental_div_mod(amount * share, total);
        assert(part * total <= amount * share) by (nonlinear_arith)
            requires
                amount * share == total * part + (amount * share) % total,
                (amount * share) % total >= 0,
        ;
        assert((before + part) * total == before * total + part * total) by (nonlinear_arith);
        assert(amount * (sum + share) == amount * sum + amount * share) by (nonlinear_arith);
    } else {
        assert(0 * total == 0) by (nonlinear_arith);
        assert(amount * 0 == 0) by (nonlinear_arith);
    }
}

/// The keeper's fee and the sender's refund make up the gross refund, and the
/// fee is no more than that.
pub proof fn law_keeper_fee_conserves(gross: i128, bps: u32)
    requires
        gross >= 0,
        bps <= 10_000,
    ensures
        ({
            let (fee, refund) = crate::lifecycle::keeper_fee_split(gross, bps);
            &&& fee + refund == gross
            &&& 0 <= fee <= gross
            &&& 0 <= refund
        }),
{
    assert(0 <= gross * bps <= gross * 10_000) by (nonlinear_arith)
        requires
            gross >= 0,
            0 <= bps <= 10_000,
    ;
}

/// When a keeper closes a stream, the recipient, the sender and the keeper
/// together get exactly what was left of the deposit, and the fee comes out of
/// the sender's part.
pub proof fn law_keeper_cancel_conserves(stream: Stream, now: u64)
    requires
        stream.sound(),
        stream.withdrawn_amount <= stream.spec_accrued_at(now as int),
    ensures
        ({
            let gross = stream.spec_unearned(now);
            let fee = gross * KEEPER_FEE_BPS / 10_000;
            &&& stream.spec_outstanding(now) + fee + (gross - fee) == stream.deposit_amount
                - stream.withdrawn_amount
            &&& 0 <= fee <= gross
        }),
{
    crate::laws::accrual::law_accrued_bounded(stream, now as int);
    let gross = stream.spec_unearned(now);
    assert(0 <= gross * KEEPER_FEE_BPS <= gross * 10_000) by (nonlinear_arith)
        requires
            gross >= 0,
    ;
}

/// What a keeper closed has nothing left to pay: all that was earned counts as
/// withdrawn, and a later withdrawal pays nothing.
pub proof fn law_keeper_leaves_nothing(
    s: ContractState,
    call: Call,
    id: u64,
    keeper: Address,
    later: Call,
)
    requires
        s.wf(),
        s.keeper_cancel_error(call, id, keeper) is None,
    ensures
        ({
            let t = s.keeper_cancel_step(call, id, keeper);
            &&& t.streams[id].withdrawn_amount == s.streams[id].withdrawn_amount
                + s.streams[id].spec_outstanding(call.timestamp)
            &&& t.streams[id].spec_earned(later.timestamp) <= t.streams[id].withdrawn_amount
            &&& t.withdrawable(later, id) == 0
            &&& t.payout_of(later, id) == 0
        }),
{
    crate::registry::lemma_stored_stream(s, id);
    crate::laws::accrual::law_accrued_bounded(s.streams[id], call.timestamp as int);
    let t = s.keeper_cancel_step(call, id, keeper);
    assert(t.streams[id].spec_checkpoint() == s.streams[id].spec_checkpoint());
    law_earned_bounded(t.streams[id], later.timestamp);
}

/// What a keeper is told that they would get is what they get.
pub proof fn law_keeper_preview_matches(s: ContractState, call: Call, id: u64, keeper: Address)
    requires
        s.wf(),
        s.keeper_cancel_error(call, id, keeper) is None,
    ensures
        ({
            let gross = s.streams[id].spec_unearned(call.timestamp);
            let fee = gross * KEEPER_FEE_BPS / 10_000;
            &&& s.keeper_fee_error(id) is None
            &&& s.keeper_fee_preview(call, id) == (fee, gross - fee)
            &&& s.keeper_cancel_step(call, id, keeper).total_keeper_fees_paid
                == s.total_keeper_fees_paid + fee
        }),
{
    crate::registry::lemma_stored_stream(s, id);
    crate::laws::accrual::law_accrued_bounded(s.streams[id], call.timestamp as int);
    let gross = s.streams[id].spec_unearned(call.timestamp);
    assert(0 <= gross * KEEPER_FEE_BPS <= gross * 10_000) by (nonlinear_arith)
        requires
            gross >= 0,
    ;
}

/// Taking the excess out leaves the contract no less than it owes.
pub proof fn law_sweep_leaves_liabilities(s: ContractState, call: Call)
    requires
        call.balance >= s.total_liabilities,
    ensures
        call.balance - s.excess(call) >= s.total_liabilities,
{
}

/// Taking the excess out takes exactly what the contract holds above what it
/// owes, touches neither streams nor books, and leaves nothing to take out a
/// second time.
pub proof fn law_sweep_takes_the_excess(
    s: ContractState,
    call: Call,
    recipient: Address,
    again: Call,
)
    requires
        s.wf(),
        crate::laws::books::booked(s),
        s.sweep_error(call) is None,
        again.balance == call.balance - s.excess(call),
        again.signers == call.signers,
    ensures
        ({
            let t = s.sweep_step(call, recipient);
            let amount = s.excess(call);
            &&& amount == if call.balance < s.total_liabilities {
                0
            } else {
                call.balance - s.total_liabilities
            }
            &&& amount > 0 ==> t.effects.last() == (Effect::Push {
                to: recipient,
                amount: amount as i128,
            })
            &&& amount == 0 ==> t == s
            &&& t == (ContractState { effects: t.effects, ..s })
            &&& t.sweep_error(again) is None
            &&& t.excess(again) == 0
            &&& t.sweep_step(again, recipient) == t
        }),
{
    crate::laws::books::lemma_owed(s);
}

} // verus!
