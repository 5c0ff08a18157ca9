//! Paying out what has been earned.

use crate::events::{Event, StreamEvent, Withdrawal, WithdrawalTo};
use crate::state::{Call, ContractState, FluxoraStream};
use crate::types::{Address, ContractError, PoolSeat, PoolShare, Stream, StreamStatus};
use vstd::prelude::*;

verus! {

/// How many ledgers must pass between two withdrawals from a stream.
pub const MIN_WITHDRAW_INTERVAL_LEDGERS: u32 = 1;

impl Stream {
    /// Whether the stream is over: completed, cancelled or past its end.
    pub open spec fn spec_is_over(self, now: u64) -> bool {
        ||| self.status == StreamStatus::Completed
        ||| self.status == StreamStatus::Cancelled
        ||| now >= self.end_time
    }

    /// Whether the stream is over: completed, cancelled or past its end.
    pub(crate) fn is_over(&self, now: u64) -> (r: bool)
        ensures
            r == self.spec_is_over(now),
    {
        self.status == StreamStatus::Completed || self.status == StreamStatus::Cancelled || now
            >= self.end_time
    }

    /// Who may withdraw.
    pub open spec fn spec_owner(self) -> Address {
        match self.claim_owner {
            Some(owner) => owner,
            None => self.recipient,
        }
    }

    /// Who may withdraw.
    pub(crate) fn owner(&self) -> (r: Address)
        ensures
            r == self.spec_owner(),
    {
        match self.claim_owner {
            Some(owner) => owner,
            None => self.recipient,
        }
    }

    /// Whether the last withdrawal was too recent for another one.
    pub open spec fn spec_too_soon(self, sequence: u32) -> bool {
        &&& self.last_withdraw_ledger != 0
        &&& sequence < self.last_withdraw_ledger + MIN_WITHDRAW_INTERVAL_LEDGERS
    }

    /// Whether the last withdrawal was too recent for another one.
    pub(crate) fn too_soon(&self, sequence: u32) -> (r: bool)
        ensures
            r == self.spec_too_soon(sequence),
    {
        self.last_withdraw_ledger != 0 && sequence.saturating_sub(self.last_withdraw_ledger)
            < MIN_WITHDRAW_INTERVAL_LEDGERS
    }

    /// Whether a withdrawal is blocked by a pause or because all is withdrawn.
    pub open spec fn spec_blocked(self, now: u64) -> bool {
        ||| self.status == StreamStatus::Completed
        ||| self.status == StreamStatus::Paused && !self.spec_is_over(now)
    }

    /// Whether a withdrawal is blocked by a pause or because all is withdrawn.
    pub(crate) fn blocked(&self, now: u64) -> (r: bool)
        ensures
            r == self.spec_blocked(now),
    {
        self.status == StreamStatus::Completed || (self.status == StreamStatus::Paused
            && !self.is_over(now))
    }

    /// What has been earned so far: all of a completed stream, and of a
    /// cancelled one what had been earned when it was cancelled.
    pub open spec fn spec_earned(self, now: u64) -> int {
        if self.status == StreamStatus::Completed {
            self.deposit_amount as int
        } else {
            self.spec_accrued_at(self.spec_accrual_time(now) as int)
        }
    }

    /// What has been earned so far.
    pub(crate) fn earned(&self, now: u64) -> (r: i128)
        requires
            self.sound(),
        ensures
            r == self.spec_earned(now),
            0 <= r <= self.deposit_amount,
    {
        match self.status {
            StreamStatus::Completed => self.deposit_amount,
            StreamStatus::Cancelled => match self.cancelled_at {
                Some(at) => self.accrued_at(at),
                None => self.accrued_at(now),
            },
            StreamStatus::Active | StreamStatus::Paused => self.accrued_at(now),
        }
    }

    /// Whether what was earned depends on the current time.
    pub open spec fn spec_running(self) -> bool {
        self.status == StreamStatus::Active || self.status == StreamStatus::Paused
    }

    /// The moment at which a lookback window ends.
    pub open spec fn spec_claim_time(self, now: u64) -> u64 {
        match self.cancelled_at {
            Some(at) => at,
            None => now,
        }
    }

    /// What a claim could pay out, before the dust threshold.
    pub open spec fn spec_payable(self, lookback: Option<u32>, now: u64, balance: i128) -> int {
        let capped = self.spec_lookback_cap(
            lookback,
            self.spec_claim_time(now),
            self.spec_earned(now),
            self.spec_earned(now) - self.withdrawn_amount,
        );
        if capped < balance {
            capped
        } else {
            balance as int
        }
    }

    /// Whether a payout is too small to be made now.
    pub open spec fn spec_dust(self, amount: int, now: u64) -> bool {
        &&& amount < self.withdraw_dust_threshold
        &&& !self.spec_is_over(now)
        &&& self.withdrawn_amount + amount < self.deposit_amount
    }

    /// What a claim pays out.
    pub open spec fn spec_payout(self, lookback: Option<u32>, now: u64, balance: i128) -> int {
        let payable = self.spec_payable(lookback, now, balance);
        if payable <= 0 || self.spec_dust(payable, now) {
            0
        } else {
            payable
        }
    }

    /// What a claim pays out, where `earned` has been earned.
    pub(crate) fn payout(
        &self,
        lookback: Option<u32>,
        now: u64,
        balance: i128,
        earned: i128,
    ) -> (r: i128)
        requires
            self.sound(),
            earned == self.spec_earned(now),
            0 <= earned <= self.deposit_amount,
        ensures
            r == self.spec_payout(lookback, now, balance),
            0 <= r,
            self.withdrawn_amount + r <= if earned < self.withdrawn_amount {
                self.withdrawn_amount
            } else {
                earned
            },
    {
        let payable: i128 = self.payable(lookback, now, balance, earned);
        if payable <= 0 {
            return 0;
        }
        if payable < self.withdraw_dust_threshold && !self.is_over(now) && self.withdrawn_amount
            + payable < self.deposit_amount {
            return 0;
        }
        payable
    }

    /// What a claim could pay out, before the dust threshold.
    pub(crate) fn payable(
        &self,
        lookback: Option<u32>,
        now: u64,
        balance: i128,
        earned: i128,
    ) -> (r: i128)
        requires
            self.sound(),
            earned == self.spec_earned(now),
            0 <= earned <= self.deposit_amount,
        ensures
            r == self.spec_payable(lookback, now, balance),
            r > 0 ==> self.withdrawn_amount + r <= earned,
    {
        let claim_time: u64 = match self.cancelled_at {
            Some(at) => at,
            None => now,
        };
        let capped: i128 = self.lookback_cap(
            lookback,
            claim_time,
            earned,
            earned - self.withdrawn_amount,
        );
        if capped < balance {
            capped
        } else {
            balance
        }
    }

    /// The stream after `amount` more was withdrawn. A running stream is
    /// completed when its whole deposit is withdrawn.
    pub open spec fn spec_paid(self, amount: int, ledger: u32) -> Stream {
        let withdrawn = self.withdrawn_amount + amount;
        Stream {
            withdrawn_amount: withdrawn as i128,
            last_withdraw_ledger: ledger,
            status: if self.spec_running() && withdrawn == self.deposit_amount {
                StreamStatus::Completed
            } else {
                self.status
            },
            ..self
        }
    }

    /// Books `amount` as withdrawn and tells whether that completes the stream.
    pub(crate) fn book_withdrawal(&mut self, amount: i128, ledger: u32) -> (r: bool)
        requires
            0 <= old(self).withdrawn_amount + amount <= i128::MAX,
        ensures
            *final(self) == old(self).spec_paid(amount as int, ledger),
            r == (old(self).spec_running() && final(self).status == StreamStatus::Completed),
    {
        self.withdrawn_amount = self.withdrawn_amount + amount;
        self.last_withdraw_ledger = ledger;
        let completed: bool = (self.status == StreamStatus::Active || self.status
            == StreamStatus::Paused) && self.withdrawn_amount == self.deposit_amount;
        if completed {
            self.status = StreamStatus::Completed;
        }
        completed
    }
}

impl ContractState {
    /// The state with the time recorded, if what the stream earned depends on
    /// it.
    pub open spec fn accrue(self, stream: Stream, now: u64) -> Self {
        if stream.spec_running() {
            self.observe(now)
        } else {
            self
        }
    }

    /// Whether the clock ran backwards for a stream whose earnings depend on
    /// it.
    pub open spec fn accrual_blocked(self, stream: Stream, now: u64) -> bool {
        stream.spec_running() && !self.clock_ok(now)
    }

    /// The state after a stream changed by a payout of `amount` to `to`.
    pub open spec fn pay_out(
        self,
        before: Stream,
        after: Stream,
        amount: i128,
        to: Address,
        event: Event,
    ) -> Self {
        let s = self.put(after).recount(before.status, after.status).settle(amount).push(
            to,
            amount,
        ).emit(event);
        if after.status == StreamStatus::Completed && before.status != StreamStatus::Completed {
            s.emit(Event::Status(StreamEvent::StreamCompleted(after.stream_id)))
        } else {
            s
        }
    }

    /// Why the amount earned on a stream cannot be told.
    pub open spec fn calculate_accrued_error(self, call: Call, id: u64) -> Option<ContractError> {
        if !self.streams.dom().contains(id) {
            Some(ContractError::StreamNotFound)
        } else if self.accrual_blocked(self.streams[id], call.timestamp) {
            Some(ContractError::ClockRegression)
        } else {
            None
        }
    }

    /// Why a withdrawal is refused.
    pub open spec fn withdraw_error(self, call: Call, id: u64) -> Option<ContractError> {
        let stream = self.streams[id];
        if self.emergency_paused {
            Some(ContractError::ContractPaused)
        } else if !self.streams.dom().contains(id) {
            Some(ContractError::StreamNotFound)
        } else if !call.authorised(stream.spec_owner()) {
            Some(ContractError::Unauthorized)
        } else if stream.spec_too_soon(call.sequence) {
            Some(ContractError::WithdrawalTooFrequent)
        } else if stream.spec_blocked(call.timestamp) {
            Some(ContractError::InvalidState)
        } else if self.accrual_blocked(stream, call.timestamp) {
            Some(ContractError::ClockRegression)
        } else if self.config is None {
            Some(ContractError::InvalidState)
        } else {
            None
        }
    }

    /// What a claim on a stream pays out.
    pub open spec fn payout_of(self, call: Call, id: u64) -> int {
        self.streams[id].spec_payout(self.lookback_of(id), call.timestamp, call.balance)
    }

    /// The state after a withdrawal.
    pub open spec fn withdraw_step(self, call: Call, id: u64) -> Self {
        let stream = self.streams[id];
        let amount = self.payout_of(call, id);
        let s = self.accrue(stream, call.timestamp);
        if amount == 0 {
            s
        } else {
            s.pay_out(
                stream,
                stream.spec_paid(amount, call.sequence),
                amount as i128,
                stream.recipient,
                Event::Withdrew(
                    Withdrawal {
                        stream_id: id,
                        recipient: stream.recipient,
                        amount: amount as i128,
                    },
                ),
            )
        }
    }

    /// Why a withdrawal to another address is refused.
    pub open spec fn withdraw_to_error(self, call: Call, id: u64, destination: Address) -> Option<
        ContractError,
    > {
        let stream = self.streams[id];
        if self.emergency_paused {
            Some(ContractError::ContractPaused)
        } else if !self.streams.dom().contains(id) {
            Some(ContractError::StreamNotFound)
        } else if !call.authorised(stream.spec_owner()) {
            Some(ContractError::Unauthorized)
        } else if destination == call.contract {
            Some(ContractError::InvalidParams)
        } else if stream.spec_blocked(call.timestamp) {
            Some(ContractError::InvalidState)
        } else if self.accrual_blocked(stream, call.timestamp) {
            Some(ContractError::ClockRegression)
        } else if self.config is None {
            Some(ContractError::InvalidState)
        } else {
            None
        }
    }

    /// The state after a withdrawal to another address.
    pub open spec fn withdraw_to_step(self, call: Call, id: u64, destination: Address) -> Self {
        let stream = self.streams[id];
        let amount = self.payout_of(call, id);
        let s = self.accrue(stream, call.timestamp);
        if amount == 0 {
            s
        } else {
            s.pay_out(
                stream,
                stream.spec_paid(amount, stream.last_withdraw_ledger),
                amount as i128,
                destination,
                Event::WithdrewTo(
                    WithdrawalTo {
                        stream_id: id,
                        recipient: stream.recipient,
                        destination,
                        amount: amount as i128,
                    },
                ),
            )
        }
    }
}

impl FluxoraStream {
    /// Whether the clock ran backwards for a stream whose earnings depend on
    /// it.
    pub(crate) fn accrual_blocked(&self, stream: &Stream, now: u64) -> (r: bool)
        ensures
            r == self@.accrual_blocked(*stream, now),
    {
        (stream.status == StreamStatus::Active || stream.status == StreamStatus::Paused)
            && self.clock_regressed(now)
    }

    /// Records the time, if what the stream earned depends on it.
    pub(crate) fn accrue(&mut self, stream: &Stream, now: u64)
        ensures
            final(self)@ == old(self)@.accrue(*stream, now),
    {
        if stream.status == StreamStatus::Active || stream.status == StreamStatus::Paused {
            self.last_accrual_timestamp = Some(now);
        }
    }

    /// Stores a stream that a payout changed, and queues the payment.
    pub(crate) fn pay_out(
        &mut self,
        previous: StreamStatus,
        completed: bool,
        after: &Stream,
        amount: i128,
        to: Address,
        event: Event,
    )
        requires
            old(self)@.wf(),
            after.sound(),
            old(self)@.streams.dom().contains(after.stream_id),
            after.sender == old(self)@.streams[after.stream_id].sender,
            after.recipient == old(self)@.streams[after.stream_id].recipient,
            after.parent_stream_id == old(self)@.streams[after.stream_id].parent_stream_id,
            after.delegation_depth == old(self)@.streams[after.stream_id].delegation_depth,
            previous == old(self)@.streams[after.stream_id].status,
            completed == (after.status == StreamStatus::Completed && previous
                != StreamStatus::Completed),
        ensures
            final(self)@ == old(self)@.pay_out(
                old(self)@.streams[after.stream_id],
                *after,
                amount,
                to,
                event,
            ),
            final(self)@.wf(),
    {
        self.update_stream(after);
        self.reconcile_paused_stream_count(previous, after.status);
        self.settle(amount);
        self.push_token(to, amount);
        self.emit(event);
        if completed {
            self.emit(Event::Status(StreamEvent::StreamCompleted(after.stream_id)));
        }
    }

    /// What has been earned on a stream so far, withdrawn or not.
    pub fn calculate_accrued(&mut self, call: &Call, stream_id: u64) -> (r: Result<
        i128,
        ContractError,
    >)
        requires
            old(self)@.wf(),
        ensures
            final(self)@.wf(),
            match old(self)@.calculate_accrued_error(*call, stream_id) {
                Some(e) => r == Err::<i128, ContractError>(e) && final(self)@ == old(self)@,
                None => {
                    let stream = old(self)@.streams[stream_id];
                    &&& r == Ok::<i128, ContractError>(
                        stream.spec_earned(call.timestamp) as i128,
                    )
                    &&& 0 <= stream.spec_earned(call.timestamp) <= stream.deposit_amount
                    &&& final(self)@ == old(self)@.accrue(stream, call.timestamp)
                },
            },
    {
        match self.load_stream(stream_id) {
            Err(e) => Err(e),
            Ok(stream) => if self.accrual_blocked(&stream, call.timestamp) {
                Err(ContractError::ClockRegression)
            } else {
                self.accrue(&stream, call.timestamp);
                Ok(stream.earned(call.timestamp))
            },
        }
    }

    /// Pays the recipient what has been earned and not withdrawn yet. Where
    /// there is nothing to pay, nothing changes but the recorded time.
    pub fn withdraw(&mut self, call: &Call, stream_id: u64) -> (r: Result<i128, ContractError>)
        requires
            old(self)@.wf(),
        ensures
            final(self)@.wf(),
            match old(self)@.withdraw_error(*call, stream_id) {
                Some(e) => r == Err::<i128, ContractError>(e) && final(self)@ == old(self)@,
                None => {
                    &&& r == Ok::<i128, ContractError>(
                        old(self)@.payout_of(*call, stream_id) as i128,
                    )
                    &&& 0 <= old(self)@.payout_of(*call, stream_id) <= i128::MAX
                    &&& final(self)@ == old(self)@.withdraw_step(*call, stream_id)
                },
            },
    {
        if self.emergency_paused {
            return Err(ContractError::ContractPaused);
        }
        let mut stream = match self.load_stream(stream_id) {
            Err(e) => {
                return Err(e);
            },
            Ok(stream) => stream,
        };
        if !call.is_signed_by(stream.owner()) {
            return Err(ContractError::Unauthorized);
        }
        if stream.too_soon(call.sequence) {
            return Err(ContractError::WithdrawalTooFrequent);
        }
        if stream.blocked(call.timestamp) {
            return Err(ContractError::InvalidState);
        }
        if self.accrual_blocked(&stream, call.timestamp) {
            return Err(ContractError::ClockRegression);
        }
        if self.config.is_none() {
            return Err(ContractError::InvalidState);
        }
        let earned: i128 = stream.earned(call.timestamp);
        self.accrue(&stream, call.timestamp);
        let amount: i128 = stream.payout(
            self.max_lookback_ledgers(stream_id),
            call.timestamp,
            call.balance,
            earned,
        );
        if amount == 0 {
            return Ok(0);
        }
        let previous = stream.status;
        let completed: bool = stream.book_withdrawal(amount, call.sequence);
        self.pay_out(
            previous,
            completed,
            &stream,
            amount,
            stream.recipient,
            Event::Withdrew(Withdrawal { stream_id, recipient: stream.recipient, amount }),
        );
        Ok(amount)
    }

    /// Pays what has been earned and not withdrawn yet to an address that the
    /// recipient chose.
    pub fn withdraw_to(&mut self, call: &Call, stream_id: u64, destination: Address) -> (r: Result<
        i128,
        ContractError,
    >)
        requires
            old(self)@.wf(),
        ensures
            final(self)@.wf(),
            match old(self)@.withdraw_to_error(*call, stream_id, destination) {
                Some(e) => r == Err::<i128, ContractError>(e) && final(self)@ == old(self)@,
                None => {
                    &&& r == Ok::<i128, ContractError>(
                        old(self)@.payout_of(*call, stream_id) as i128,
                    )
                    &&& 0 <= old(self)@.payout_of(*call, stream_id) <= i128::MAX
                    &&& final(self)@ == old(self)@.withdraw_to_step(
                        *call,
                        stream_id,
                        destination,
                    )
                },
            },
    {
        if self.emergency_paused {
            return Err(ContractError::ContractPaused);
        }
        let mut stream = match self.load_stream(stream_id) {
            Err(e) => {
                return Err(e);
            },
            Ok(stream) => stream,
        };
        if !call.is_signed_by(stream.owner()) {
            return Err(ContractError::Unauthorized);
        }
        if destination == call.contract {
            return Err(ContractError::InvalidParams);
        }
        if stream.blocked(call.timestamp) {
            return Err(ContractError::InvalidState);
        }
        if self.accrual_blocked(&stream, call.timestamp) {
            return Err(ContractError::ClockRegression);
        }
        if self.config.is_none() {
            return Err(ContractError::InvalidState);
        }
        let earned: i128 = stream.earned(call.timestamp);
        self.accrue(&stream, call.timestamp);
        let amount: i128 = stream.payout(
            self.max_lookback_ledgers(stream_id),
            call.timestamp,
            call.balance,
            earned,
        );
        if amount == 0 {
            return Ok(0);
        }
        let previous = stream.status;
        let completed: bool = stream.book_withdrawal(amount, stream.last_withdraw_ledger);
        self.pay_out(
            previous,
            completed,
            &stream,
            amount,
            destination,
            Event::WithdrewTo(
                WithdrawalTo { stream_id, recipient: stream.recipient, destination, amount },
            ),
        );
        Ok(amount)
    }
}

/// What the first `n` shares give to `who` together.
pub open spec fn share_of(shares: Seq<PoolShare>, who: Address, n: int) -> int
    decreases n,
{
    if n <= 0 {
        0
    } else {
        share_of(shares, who, n - 1) + if shares[n - 1].recipient == who {
            shares[n - 1].share as int
        } else {
            0
        }
    }
}

impl ContractState {
    /// What `who` has withdrawn from a pooled stream.
    pub open spec fn pool_withdrawn_by(self, id: u64, who: Address) -> i128 {
        let seat = PoolSeat { stream_id: id, recipient: who };
        if self.pool_withdrawn.dom().contains(seat) {
            self.pool_withdrawn[seat]
        } else {
            0
        }
    }

    /// The share of `who` in a pooled stream.
    pub open spec fn pool_share(self, id: u64, who: Address) -> int {
        share_of(self.pool_shares[id], who, self.pool_shares[id].len() as int)
    }

    /// All shares of a pooled stream together.
    pub open spec fn pool_total(self, id: u64) -> int {
        crate::state::share_total(self.pool_shares[id], self.pool_shares[id].len() as int)
    }

    /// What `who` could take out of a pooled stream, before the dust
    /// threshold: its part of what was earned, less what it took already.
    pub open spec fn pool_payable(self, call: Call, id: u64, who: Address) -> int {
        let earned = self.streams[id].spec_earned(call.timestamp);
        let part = (earned * self.pool_share(id, who)) / self.pool_total(id);
        let due = part - self.pool_withdrawn_by(id, who);
        if due < call.balance {
            due
        } else {
            call.balance as int
        }
    }

    /// What `who` takes out of a pooled stream.
    pub open spec fn pool_payout(self, call: Call, id: u64, who: Address) -> int {
        let payable = self.pool_payable(call, id, who);
        if payable <= 0 || self.streams[id].spec_dust(payable, call.timestamp) {
            0
        } else {
            payable
        }
    }

    /// Why a withdrawal from a pooled stream is refused.
    pub open spec fn withdraw_from_pool_error(self, call: Call, id: u64, who: Address) -> Option<
        ContractError,
    > {
        let stream = self.streams[id];
        if self.emergency_paused {
            Some(ContractError::ContractPaused)
        } else if !call.authorised(who) {
            Some(ContractError::Unauthorized)
        } else if !self.streams.dom().contains(id) {
            Some(ContractError::StreamNotFound)
        } else if stream.is_pooled != Some(true) || stream.spec_blocked(call.timestamp) {
            Some(ContractError::InvalidState)
        } else if !self.pool_shares.dom().contains(id) {
            Some(ContractError::StreamNotFound)
        } else if self.pool_share(id, who) == 0 {
            Some(ContractError::Unauthorized)
        } else if self.accrual_blocked(stream, call.timestamp) {
            Some(ContractError::ClockRegression)
        } else if stream.spec_earned(call.timestamp) * self.pool_share(id, who) > u128::MAX {
            Some(ContractError::ArithmeticOverflow)
        } else if self.config is None {
            Some(ContractError::InvalidState)
        } else {
            None
        }
    }

    /// The state after a withdrawal from a pooled stream.
    pub open spec fn withdraw_from_pool_step(self, call: Call, id: u64, who: Address) -> Self {
        let stream = self.streams[id];
        let amount = self.pool_payout(call, id, who);
        let s = self.accrue(stream, call.timestamp);
        if amount == 0 {
            s
        } else {
            let paid = stream.spec_paid(amount, call.sequence);
            let after = if stream.spec_running() && paid.withdrawn_amount >= paid.deposit_amount {
                Stream { status: StreamStatus::Completed, ..paid }
            } else {
                paid
            };
            let booked = ContractState {
                pool_withdrawn: s.pool_withdrawn.insert(
                    PoolSeat { stream_id: id, recipient: who },
                    (self.pool_withdrawn_by(id, who) + amount) as i128,
                ),
                ..s
            };
            booked.pay_out(
                stream,
                after,
                amount as i128,
                who,
                Event::Withdrew(
                    Withdrawal { stream_id: id, recipient: who, amount: amount as i128 },
                ),
            )
        }
    }
}

proof fn lemma_share_of(shares: Seq<PoolShare>, who: Address, i: int, n: int)
    requires
        0 <= i <= n <= shares.len(),
    ensures
        0 <= share_of(shares, who, i) <= crate::state::share_total(shares, i),
        crate::state::share_total(shares, i) <= crate::state::share_total(shares, n),
    decreases n,
{
    if n > 0 && i < n {
        lemma_share_of(shares, who, i, n - 1);
    } else if n > 0 {
        lemma_share_of(shares, who, n - 1, n - 1);
    }
}

/// A part of an amount is no more than the amount.
proof fn lemma_part(amount: int, share: int, total: int)
    requires
        0 <= amount,
        0 <= share <= total,
        0 < total,
    ensures
        0 <= amount * share,
        0 <= (amount * share) / total <= amount,
{
    assert(0 <= amount * share) by (nonlinear_arith)
        requires
            0 <= amount,
            0 <= share,
    ;
    assert(amount * share <= amount * total) by (nonlinear_arith)
        requires
            0 <= amount,
            share <= total,
    ;
    vstd::arithmetic::div_mod::lemma_div_is_ordered(amount * share, amount * total, total);
    vstd::arithmetic::div_mod::lemma_div_multiples_vanish(amount, total);
    assert(amount * total == total * amount) by (nonlinear_arith);
    vstd::arithmetic::div_mod::lemma_div_pos_is_pos(amount * share, total);
}

impl FluxoraStream {
    /// Pays `caller` its part of what a pooled stream has earned.
    pub fn withdraw_from_pool(&mut self, call: &Call, stream_id: u64, caller: Address) -> (r:
        Result<i128, ContractError>)
        requires
            old(self)@.wf(),
            old(self)@.streams.dom().contains(stream_id) && old(self)@.pool_shares.dom().contains(
                stream_id,
            ) ==> old(self)@.streams[stream_id].withdrawn_amount + old(self)@.pool_payable(
                *call,
                stream_id,
                caller,
            ) <= i128::MAX,
        ensures
            final(self)@.wf(),
            match old(self)@.withdraw_from_pool_error(*call, stream_id, caller) {
                Some(e) => r == Err::<i128, ContractError>(e) && final(self)@ == old(self)@,
                None => {
                    &&& r == Ok::<i128, ContractError>(
                        old(self)@.pool_payout(*call, stream_id, caller) as i128,
                    )
                    &&& 0 <= old(self)@.pool_payout(*call, stream_id, caller) <= i128::MAX
                    &&& final(self)@ == old(self)@.withdraw_from_pool_step(
                        *call,
                        stream_id,
                        caller,
                    )
                },
            },
    {
        if self.emergency_paused {
            return Err(ContractError::ContractPaused);
        }
        if !call.is_signed_by(caller) {
            return Err(ContractError::Unauthorized);
        }
        let mut stream = match self.load_stream(stream_id) {
            Err(e) => {
                return Err(e);
            },
            Ok(stream) => stream,
        };
        let pooled: bool = match stream.is_pooled {
            Some(pooled) => pooled,
            None => false,
        };
        if !pooled || stream.blocked(call.timestamp) {
            return Err(ContractError::InvalidState);
        }
        proof {
            reveal(crate::state::pools_ok);
        }
        let mut caller_share: u32 = 0;
        let mut total_shares: u32 = 0;
        match self.pool_shares.get(stream_id) {
            None => {
                return Err(ContractError::StreamNotFound);
            },
            Some(shares) => {
                assert(shares@ == self@.pool_shares[stream_id]);
                let mut i: usize = 0;
                while i < shares.len()
                    invariant
                        i <= shares@.len(),
                        caller_share == share_of(shares@, caller, i as int),
                        total_shares == crate::state::share_total(shares@, i as int),
                        crate::state::share_total(shares@, shares@.len() as int) <= u32::MAX,
                    decreases shares@.len() - i,
                {
                    proof {
                        lemma_share_of(shares@, caller, i + 1, shares@.len() as int);
                    }
                    if shares[i].recipient == caller {
                        caller_share = caller_share + shares[i].share;
                    }
                    total_shares = total_shares + shares[i].share;
                    i += 1;
                }
                proof {
                    lemma_share_of(
                        shares@,
                        caller,
                        shares@.len() as int,
                        shares@.len() as int,
                    );
                }
            },
        }
        if caller_share == 0 {
            return Err(ContractError::Unauthorized);
        }
        if self.accrual_blocked(&stream, call.timestamp) {
            return Err(ContractError::ClockRegression);
        }
        let earned: i128 = stream.earned(call.timestamp);
        proof {
            lemma_part(earned as int, caller_share as int, total_shares as int);
        }
        let product: u128 = match (earned as u128).checked_mul(caller_share as u128) {
            Some(product) => product,
            None => {
                return Err(ContractError::ArithmeticOverflow);
            },
        };
        let part: i128 = (product / total_shares as u128) as i128;
        if self.config.is_none() {
            return Err(ContractError::InvalidState);
        }
        self.accrue(&stream, call.timestamp);
        let seat = PoolSeat { stream_id, recipient: caller };
        let taken: i128 = match self.pool_withdrawn.get(seat) {
            Some(taken) => *taken,
            None => 0,
        };
        let due: i128 = part - taken;
        let amount: i128 = if due < call.balance {
            due
        } else {
            call.balance
        };
        if amount <= 0 {
            return Ok(0);
        }
        if amount < stream.withdraw_dust_threshold && !stream.is_over(call.timestamp)
            && stream.withdrawn_amount + amount < stream.deposit_amount {
            return Ok(0);
        }
        let previous = stream.status;
        let mut completed: bool = stream.book_withdrawal(amount, call.sequence);
        if (previous == StreamStatus::Active || previous == StreamStatus::Paused)
            && stream.withdrawn_amount >= stream.deposit_amount {
            stream.status = StreamStatus::Completed;
            completed = true;
        }
        self.pool_withdrawn.insert(seat, taken + amount);
        self.pay_out(
            previous,
            completed,
            &stream,
            amount,
            caller,
            Event::Withdrew(Withdrawal { stream_id, recipient: caller, amount }),
        );
        Ok(amount)
    }
}

} // verus!
