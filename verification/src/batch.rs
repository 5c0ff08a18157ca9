//! Withdrawing from several streams at once.

use crate::events::{Event, Withdrawal};
use crate::state::{Call, ContractState, FluxoraStream};
use crate::types::{
    Address, BatchWithdrawResult, ContractError, Stream, StreamStatus, WithdrawToParam,
};
use vstd::prelude::*;

verus! {

/// No identifier occurs twice.
pub open spec fn distinct(ids: Seq<u64>) -> bool {
    forall|i: int, j: int| 0 <= i < j < ids.len() ==> ids[i] != ids[j]
}

/// Refuses a batch that names an identifier twice.
pub fn reject_duplicate_ids(ids: &Vec<u64>) -> (r: Result<(), ContractError>)
    ensures
        r == if distinct(ids@) {
            Ok::<(), ContractError>(())
        } else {
            Err(ContractError::DuplicateStreamId)
        },
{
    let mut i: usize = 0;
    while i < ids.len()
        invariant
            i <= ids@.len(),
            forall|a: int, b: int| 0 <= a < b < ids@.len() && a < i ==> ids@[a] != ids@[b],
        decreases ids@.len() - i,
    {
        let mut j: usize = i + 1;
        while j < ids.len()
            invariant
                i < j <= ids@.len(),
                forall|b: int| i < b < j ==> ids@[i as int] != ids@[b],
            decreases ids@.len() - j,
        {
            if ids[i] == ids[j] {
                assert(ids@[i as int] == ids@[j as int]);
                return Err(ContractError::DuplicateStreamId);
            }
            j += 1;
        }
        i += 1;
    }
    Ok(())
}

/// The streams that a batch withdraws from.
pub open spec fn targets(withdrawals: Seq<WithdrawToParam>) -> Seq<u64> {
    Seq::new(withdrawals.len(), |i: int| withdrawals[i].stream_id)
}

impl Stream {
    /// What a claim in a batch pays out of `balance`.
    pub open spec fn spec_batch_payout(
        self,
        lookback: Option<u32>,
        now: u64,
        balance: int,
    ) -> int {
        let claim = self.spec_earned(now) - self.withdrawn_amount;
        let due = if self.status == StreamStatus::Completed {
            0
        } else {
            self.spec_lookback_cap(
                lookback,
                self.spec_accrual_time(now),
                self.spec_earned(now),
                if claim < 0 {
                    0
                } else {
                    claim
                },
            )
        };
        let payable = if due < balance {
            due
        } else {
            balance
        };
        if payable > 0 && self.spec_dust(payable, now) {
            0
        } else {
            payable
        }
    }

    /// What a claim in a batch pays out of `balance`.
    pub(crate) fn batch_payout(&self, lookback: Option<u32>, now: u64, balance: i128) -> (r: i128)
        requires
            self.sound(),
        ensures
            r == self.spec_batch_payout(lookback, now, balance as int),
            r <= balance,
            r > 0 ==> self.withdrawn_amount + r <= self.deposit_amount,
    {
        let earned: i128 = self.earned(now);
        let due: i128 = if self.status == StreamStatus::Completed {
            0
        } else {
            let claim: i128 = earned - self.withdrawn_amount;
            let time: u64 = match (self.status, self.cancelled_at) {
                (StreamStatus::Cancelled, Some(at)) => at,
                _ => now,
            };
            self.lookback_cap(
                lookback,
                time,
                earned,
                if claim < 0 {
                    0
                } else {
                    claim
                },
            )
        };
        let payable: i128 = if due < balance {
            due
        } else {
            balance
        };
        if payable > 0 && payable < self.withdraw_dust_threshold && !self.is_over(now)
            && self.withdrawn_amount + payable < self.deposit_amount {
            return 0;
        }
        payable
    }
}

impl ContractState {
    /// Why one entry of a batch withdrawal is refused.
    pub open spec fn batch_item_error(self, call: Call, who: Address, id: u64) -> Option<
        ContractError,
    > {
        let stream = self.streams[id];
        if !self.streams.dom().contains(id) {
            Some(ContractError::StreamNotFound)
        } else if stream.spec_owner() != who {
            Some(ContractError::Unauthorized)
        } else if stream.spec_too_soon(call.sequence) {
            Some(ContractError::WithdrawalTooFrequent)
        } else if stream.status == StreamStatus::Paused && !stream.spec_is_over(call.timestamp) {
            Some(ContractError::InvalidState)
        } else {
            None
        }
    }

    /// Why one of the first `n` entries of a batch withdrawal is refused.
    pub open spec fn batch_items_error(
        self,
        call: Call,
        who: Address,
        ids: Seq<u64>,
        n: int,
    ) -> Option<ContractError>
        decreases n,
    {
        if n <= 0 {
            None
        } else {
            match self.batch_items_error(call, who, ids, n - 1) {
                Some(e) => Some(e),
                None => self.batch_item_error(call, who, ids[n - 1]),
            }
        }
    }

    /// Why a batch withdrawal is refused.
    pub open spec fn batch_withdraw_error(
        self,
        call: Call,
        who: Address,
        withdrawals: Seq<WithdrawToParam>,
    ) -> Option<ContractError> {
        if self.emergency_paused {
            Some(ContractError::ContractPaused)
        } else if !call.authorised(who) {
            Some(ContractError::Unauthorized)
        } else if !distinct(targets(withdrawals)) {
            Some(ContractError::DuplicateStreamId)
        } else if exists|i: int|
            0 <= i < withdrawals.len() && (#[trigger] withdrawals[i]).destination
                == call.contract {
            Some(ContractError::InvalidParams)
        } else if self.config is None {
            Some(ContractError::InvalidState)
        } else if !self.clock_ok(call.timestamp) {
            Some(ContractError::ClockRegression)
        } else {
            self.batch_items_error(call, who, targets(withdrawals), withdrawals.len() as int)
        }
    }

    /// Why a batch withdrawal to the owner itself is refused. An empty one is
    /// in order, if the owner signed it.
    pub open spec fn own_batch_error(self, call: Call, who: Address, ids: Seq<u64>) -> Option<
        ContractError,
    > {
        if ids.len() > 0 {
            self.batch_withdraw_error(call, who, to_recipient(ids, who))
        } else if self.emergency_paused {
            Some(ContractError::ContractPaused)
        } else if !call.authorised(who) {
            Some(ContractError::Unauthorized)
        } else {
            None
        }
    }

    /// The state after a batch withdrawal to the owner itself. An empty one
    /// changes nothing.
    pub open spec fn own_batch_step(self, call: Call, ids: Seq<u64>) -> Self {
        if ids.len() > 0 {
            self.batch_step(call, ids, ids.len() as int)
        } else {
            self
        }
    }

    /// What is left of the contract's balance after the first `n` payouts.
    pub open spec fn batch_balance(self, call: Call, ids: Seq<u64>, n: int) -> int
        decreases n,
    {
        if n <= 0 {
            call.balance as int
        } else {
            let left = self.batch_balance(call, ids, n - 1);
            let paid = self.streams[ids[n - 1]].spec_batch_payout(
                self.lookback_of(ids[n - 1]),
                call.timestamp,
                left,
            );
            left - if paid > 0 {
                paid
            } else {
                0
            }
        }
    }

    /// What the entry at position `i` is paid.
    pub open spec fn batch_amount(self, call: Call, ids: Seq<u64>, i: int) -> int {
        self.streams[ids[i]].spec_batch_payout(
            self.lookback_of(ids[i]),
            call.timestamp,
            self.batch_balance(call, ids, i),
        )
    }

    /// The state after the first `n` payouts, starting from `self` at the
    /// recorded time.
    pub open spec fn batch_step(self, call: Call, ids: Seq<u64>, n: int) -> Self
        decreases n,
    {
        if n <= 0 {
            self.observe(call.timestamp)
        } else {
            let s = self.batch_step(call, ids, n - 1);
            let stream = self.streams[ids[n - 1]];
            let amount = self.batch_amount(call, ids, n - 1);
            if amount > 0 {
                s.pay_out(
                    stream,
                    stream.spec_paid(amount, call.sequence),
                    amount as i128,
                    stream.recipient,
                    Event::Withdrew(
                        Withdrawal {
                            stream_id: ids[n - 1],
                            recipient: stream.recipient,
                            amount: amount as i128,
                        },
                    ),
                )
            } else {
                s
            }
        }
    }
}

proof fn lemma_items_prefix(
    s: ContractState,
    call: Call,
    who: Address,
    ids: Seq<u64>,
    i: int,
    n: int,
)
    requires
        0 <= i <= n,
        s.batch_items_error(call, who, ids, i) is Some,
    ensures
        s.batch_items_error(call, who, ids, n) == s.batch_items_error(call, who, ids, i),
    decreases n - i,
{
    if i < n {
        lemma_items_prefix(s, call, who, ids, i, n - 1);
    }
}

proof fn lemma_items_ok(s: ContractState, call: Call, who: Address, ids: Seq<u64>, n: int)
    requires
        0 <= n <= ids.len(),
        s.batch_items_error(call, who, ids, n) is None,
    ensures
        forall|i: int| 0 <= i < n ==> s.batch_item_error(call, who, #[trigger] ids[i]) is None,
    decreases n,
{
    if n > 0 {
        lemma_items_ok(s, call, who, ids, n - 1);
    }
}

impl FluxoraStream {
    /// Refuses one entry of a batch withdrawal.
    fn check_batch_item(&self, call: &Call, who: Address, stream_id: u64) -> (r: Result<
        (),
        ContractError,
    >)
        requires
            self@.wf(),
        ensures
            match self@.batch_item_error(*call, who, stream_id) {
                Some(e) => r == Err::<(), ContractError>(e),
                None => r == Ok::<(), ContractError>(()),
            },
    {
        let stream = match self.load_stream(stream_id) {
            Err(e) => {
                return Err(e);
            },
            Ok(stream) => stream,
        };
        if stream.owner() != who {
            return Err(ContractError::Unauthorized);
        }
        if stream.too_soon(call.sequence) {
            return Err(ContractError::WithdrawalTooFrequent);
        }
        if stream.status == StreamStatus::Paused && !stream.is_over(call.timestamp) {
            return Err(ContractError::InvalidState);
        }
        Ok(())
    }

    /// Withdraws from several streams of one owner: from all of them, or from
    /// none. The payouts go to the recipients of the streams.
    pub fn batch_withdraw_to(
        &mut self,
        call: &Call,
        recipient: Address,
        withdrawals: &Vec<WithdrawToParam>,
    ) -> (r: Result<Vec<BatchWithdrawResult>, ContractError>)
        requires
            old(self)@.wf(),
        ensures
            final(self)@.wf(),
            match old(self)@.batch_withdraw_error(*call, recipient, withdrawals@) {
                Some(e) => {
                    &&& r == Err::<Vec<BatchWithdrawResult>, ContractError>(e)
                    &&& final(self)@ == old(self)@
                },
                None => {
                    let ids = targets(withdrawals@);
                    &&& r is Ok
                    &&& r->Ok_0@.len() == ids.len()
                    &&& forall|i: int| #![trigger r->Ok_0@[i]]
                        0 <= i < ids.len() ==> r->Ok_0@[i] == (BatchWithdrawResult {
                            stream_id: ids[i],
                            amount: old(self)@.batch_amount(*call, ids, i) as i128,
                        }) && i128::MIN <= old(self)@.batch_amount(*call, ids, i) <= i128::MAX
                    &&& final(self)@ == old(self)@.batch_step(*call, ids, ids.len() as int)
                },
            },
    {
        if self.emergency_paused {
            return Err(ContractError::ContractPaused);
        }
        if !call.is_signed_by(recipient) {
            return Err(ContractError::Unauthorized);
        }
        let ghost targeted = targets(withdrawals@);
        let mut ids: Vec<u64> = Vec::new();
        let mut misdirected: bool = false;
        let mut i: usize = 0;
        while i < withdrawals.len()
            invariant
                i <= withdrawals@.len(),
                ids@.len() == i,
                forall|j: int| 0 <= j < i ==> ids@[j] == (#[trigger] withdrawals@[j]).stream_id,
                misdirected == exists|j: int|
                    0 <= j < i && (#[trigger] withdrawals@[j]).destination == call.contract,
            decreases withdrawals@.len() - i,
        {
            ids.push(withdrawals[i].stream_id);
            if withdrawals[i].destination == call.contract {
                misdirected = true;
                assert(withdrawals@[i as int].destination == call.contract);
            }
            i += 1;
        }
        assert(ids@ =~= targeted);
        if let Err(e) = reject_duplicate_ids(&ids) {
            return Err(e);
        }
        if misdirected {
            return Err(ContractError::InvalidParams);
        }
        if self.config.is_none() {
            return Err(ContractError::InvalidState);
        }
        if self.clock_regressed(call.timestamp) {
            return Err(ContractError::ClockRegression);
        }
        let ghost before = self@;
        let mut j: usize = 0;
        while j < ids.len()
            invariant
                j <= ids@.len(),
                self@ == before,
                before == old(self)@,
                before.wf(),
                ids@ == targeted,
                targeted == targets(withdrawals@),
                before.batch_items_error(*call, recipient, ids@, j as int) is None,
                before.batch_withdraw_error(*call, recipient, withdrawals@)
                    == before.batch_items_error(*call, recipient, ids@, ids@.len() as int),
            decreases ids@.len() - j,
        {
            proof {
                if before.batch_items_error(*call, recipient, ids@, j + 1) is Some {
                    lemma_items_prefix(
                        before,
                        *call,
                        recipient,
                        ids@,
                        j + 1,
                        ids@.len() as int,
                    );
                }
            }
            if let Err(e) = self.check_batch_item(call, recipient, ids[j]) {
                return Err(e);
            }
            j += 1;
        }
        proof {
            lemma_items_ok(before, *call, recipient, ids@, ids@.len() as int);
        }
        self.last_accrual_timestamp = Some(call.timestamp);
        let mut balance: i128 = call.balance;
        let mut results: Vec<BatchWithdrawResult> = Vec::new();
        let mut k: usize = 0;
        while k < ids.len()
            invariant
                k <= ids@.len(),
                ids@ == targeted,
                distinct(ids@),
                before.wf(),
                self@.wf(),
                self@ == before.batch_step(*call, ids@, k as int),
                self@.lookback == before.lookback,
                balance == before.batch_balance(*call, ids@, k as int),
                forall|i: int|
                    0 <= i < ids@.len() ==> before.batch_item_error(
                        *call,
                        recipient,
                        #[trigger] ids@[i],
                    ) is None,
                forall|i: int| #![trigger ids@[i]]
                    k <= i < ids@.len() ==> self@.streams.dom().contains(ids@[i])
                        && self@.streams[ids@[i]] == before.streams[ids@[i]],
                results@.len() == k,
                forall|i: int| #![trigger results@[i]]
                    0 <= i < k ==> results@[i].stream_id == ids@[i] && results@[i].amount
                        == before.batch_amount(*call, ids@, i),
            decreases ids@.len() - k,
        {
            let stream_id: u64 = ids[k];
            assert(before.batch_item_error(*call, recipient, ids@[k as int]) is None);
            let loaded = self.load_stream(stream_id);
            if let Ok(mut stream) = loaded {
                let amount: i128 = stream.batch_payout(
                    self.max_lookback_ledgers(stream_id),
                    call.timestamp,
                    balance,
                );
                assert(amount == before.batch_amount(*call, ids@, k as int));
                if amount > 0 {
                    balance = balance - amount;
                    let previous = stream.status;
                    let completed: bool = stream.book_withdrawal(amount, call.sequence);
                    self.pay_out(
                        previous,
                        completed,
                        &stream,
                        amount,
                        stream.recipient,
                        Event::Withdrew(
                            Withdrawal { stream_id, recipient: stream.recipient, amount },
                        ),
                    );
                }
                results.push(BatchWithdrawResult { stream_id, amount });
                assert(self@ == before.batch_step(*call, ids@, k + 1));
                assert forall|i: int| #![trigger ids@[i]]
                    k + 1 <= i < ids@.len() implies self@.streams.dom().contains(ids@[i])
                    && self@.streams[ids@[i]] == before.streams[ids@[i]] by {
                    assert(ids@[k as int] != ids@[i]);
                }
            }
            k += 1;
        }
        Ok(results)
    }

    /// Withdraws from several streams of one owner: from all of them, or from
    /// none. A completed stream counts as one with nothing to pay, and an empty
    /// batch changes nothing.
    pub fn batch_withdraw(&mut self, call: &Call, recipient: Address, stream_ids: &Vec<u64>) -> (r:
        Result<Vec<BatchWithdrawResult>, ContractError>)
        requires
            old(self)@.wf(),
        ensures
            final(self)@.wf(),
            match old(self)@.own_batch_error(*call, recipient, stream_ids@) {
                Some(e) => {
                    &&& r == Err::<Vec<BatchWithdrawResult>, ContractError>(e)
                    &&& final(self)@ == old(self)@
                },
                None => {
                    let ids = stream_ids@;
                    &&& r is Ok
                    &&& r->Ok_0@.len() == ids.len()
                    &&& forall|i: int| #![trigger r->Ok_0@[i]]
                        0 <= i < ids.len() ==> r->Ok_0@[i] == (BatchWithdrawResult {
                            stream_id: ids[i],
                            amount: old(self)@.batch_amount(*call, ids, i) as i128,
                        }) && i128::MIN <= old(self)@.batch_amount(*call, ids, i) <= i128::MAX
                    &&& final(self)@ == old(self)@.own_batch_step(*call, ids)
                },
            },
    {
        if stream_ids.len() == 0 {
            if self.emergency_paused {
                return Err(ContractError::ContractPaused);
            }
            if !call.is_signed_by(recipient) {
                return Err(ContractError::Unauthorized);
            }
            return Ok(Vec::new());
        }
        let mut withdrawals: Vec<WithdrawToParam> = Vec::new();
        let mut i: usize = 0;
        while i < stream_ids.len()
            invariant
                i <= stream_ids@.len(),
                withdrawals@.len() == i,
                forall|j: int|
                    0 <= j < i ==> #[trigger] withdrawals@[j] == to_recipient(
                        stream_ids@,
                        recipient,
                    )[j],
            decreases stream_ids@.len() - i,
        {
            withdrawals.push(
                WithdrawToParam { stream_id: stream_ids[i], destination: recipient },
            );
            i += 1;
        }
        assert(withdrawals@ =~= to_recipient(stream_ids@, recipient));
        assert(targets(withdrawals@) =~= stream_ids@);
        self.batch_withdraw_to(call, recipient, &withdrawals)
    }
}

/// A batch that names the owner as the destination of every payout.
pub open spec fn to_recipient(ids: Seq<u64>, recipient: Address) -> Seq<WithdrawToParam> {
    Seq::new(
        ids.len(),
        |i: int| WithdrawToParam { stream_id: ids[i], destination: recipient },
    )
}

} // verus!
