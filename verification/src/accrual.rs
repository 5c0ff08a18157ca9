//! How much of a deposit has been earned at a given moment.

use crate::types::{Stream, StreamKind, StreamStatus};
use vstd::prelude::*;

verus! {

/// Approximate seconds per ledger, for lookback windows.
pub const SECONDS_PER_LEDGER: u64 = 5;

/// The part of a stream on which accrual depends, besides its rate.
#[derive(Clone, Copy, Debug, PartialEq, Eq)]
pub struct CheckpointState {
    pub checkpointed_amount: i128,
    pub checkpointed_at: u64,
    pub cliff_time: u64,
    pub end_time: u64,
    pub deposit_amount: i128,
    pub kind: StreamKind,
}

impl CheckpointState {
    /// No amount is negative.
    pub open spec fn sound(self) -> bool {
        &&& self.checkpointed_amount >= 0
        &&& self.deposit_amount >= 0
    }

    /// When the current rate starts to count.
    pub open spec fn origin(self) -> int {
        match self.kind {
            StreamKind::CliffSlope => if self.checkpointed_at < self.cliff_time {
                self.cliff_time as int
            } else {
                self.checkpointed_at as int
            },
            _ => self.checkpointed_at as int,
        }
    }

    /// The seconds from the origin to `t`, of which none count after the end.
    pub open spec fn elapsed(self, t: int) -> int {
        let last = if t < self.end_time {
            t
        } else {
            self.end_time as int
        };
        if last < self.origin() {
            0
        } else {
            last - self.origin()
        }
    }

    /// What has been earned at `t`: nothing before the cliff, and never more
    /// than the deposit.
    pub open spec fn accrued(self, rate: int, t: int) -> int {
        if t < self.cliff_time {
            0
        } else {
            match self.kind {
                StreamKind::CliffOnly => self.deposit_amount as int,
                _ => {
                    let earned = self.checkpointed_amount + rate * self.elapsed(t);
                    if earned < self.deposit_amount {
                        earned
                    } else {
                        self.deposit_amount as int
                    }
                },
            }
        }
    }
}

/// What has been earned at `t` under the given rate.
pub fn calculate_accrued_amount_checkpointed(
    state: CheckpointState,
    rate_per_second: i128,
    t: u64,
) -> (r: i128)
    requires
        state.sound(),
        rate_per_second >= 0,
    ensures
        r == state.accrued(rate_per_second as int, t as int),
        0 <= r <= state.deposit_amount,
{
    if t < state.cliff_time {
        return 0;
    }
    let origin: u64 = match state.kind {
        StreamKind::CliffOnly => {
            return state.deposit_amount;
        },
        StreamKind::CliffSlope => if state.checkpointed_at < state.cliff_time {
            state.cliff_time
        } else {
            state.checkpointed_at
        },
        StreamKind::Linear => state.checkpointed_at,
    };
    let last: u64 = if t < state.end_time {
        t
    } else {
        state.end_time
    };
    let elapsed: u64 = if last < origin {
        0
    } else {
        last - origin
    };
    assert(rate_per_second * elapsed >= 0) by (nonlinear_arith)
        requires
            rate_per_second >= 0,
            elapsed >= 0,
    ;
    match rate_per_second.checked_mul(elapsed as i128) {
        None => state.deposit_amount,
        Some(streamed) => match state.checkpointed_amount.checked_add(streamed) {
            None => state.deposit_amount,
            Some(earned) => if earned < state.deposit_amount {
                earned
            } else {
                state.deposit_amount
            },
        },
    }
}

impl Stream {
    /// What every stored stream satisfies by itself.
    pub open spec fn sound(self) -> bool {
        &&& self.deposit_amount >= 0
        &&& self.rate_per_second >= 0
        &&& self.checkpointed_amount >= 0
        &&& self.withdrawn_amount >= 0
        &&& self.start_time < self.end_time
        &&& self.start_time <= self.cliff_time <= self.end_time
        &&& self.status == StreamStatus::Cancelled ==> self.cancelled_at is Some
    }

    /// The accrual state of the stream.
    pub open spec fn spec_checkpoint(self) -> CheckpointState {
        CheckpointState {
            checkpointed_amount: self.checkpointed_amount,
            checkpointed_at: self.checkpointed_at,
            cliff_time: self.cliff_time,
            end_time: self.end_time,
            deposit_amount: self.deposit_amount,
            kind: self.kind,
        }
    }

    /// What has been earned at `t`, whatever the status.
    pub open spec fn spec_accrued_at(self, t: int) -> int {
        self.spec_checkpoint().accrued(self.rate_per_second as int, t)
    }

    /// What has been earned at `t`, whatever the status.
    pub fn accrued_at(&self, t: u64) -> (r: i128)
        requires
            self.sound(),
        ensures
            r == self.spec_accrued_at(t as int),
            0 <= r <= self.deposit_amount,
    {
        calculate_accrued_amount_checkpointed(
            CheckpointState {
                checkpointed_amount: self.checkpointed_amount,
                checkpointed_at: self.checkpointed_at,
                cliff_time: self.cliff_time,
                end_time: self.end_time,
                deposit_amount: self.deposit_amount,
                kind: self.kind,
            },
            self.rate_per_second,
            t,
        )
    }

    /// What has built up by `t`, reached or not the cliff that releases it.
    pub open spec fn spec_built_up(self, t: int) -> int {
        (CheckpointState { cliff_time: 0, ..self.spec_checkpoint() }).accrued(
            self.rate_per_second as int,
            t,
        )
    }

    /// What has built up by `t`, reached or not the cliff that releases it.
    pub fn built_up(&self, t: u64) -> (r: i128)
        requires
            self.sound(),
        ensures
            r == self.spec_built_up(t as int),
            0 <= r <= self.deposit_amount,
    {
        calculate_accrued_amount_checkpointed(
            CheckpointState {
                checkpointed_amount: self.checkpointed_amount,
                checkpointed_at: self.checkpointed_at,
                cliff_time: 0,
                end_time: self.end_time,
                deposit_amount: self.deposit_amount,
                kind: self.kind,
            },
            self.rate_per_second,
            t,
        )
    }

    /// The moment up to which a stream that stands at `now` has accrued: a
    /// cancelled stream stopped when it was cancelled.
    pub open spec fn spec_accrual_time(self, now: u64) -> u64 {
        match (self.status, self.cancelled_at) {
            (StreamStatus::Cancelled, Some(at)) => at,
            _ => now,
        }
    }

    /// What one claim may pay out of `claimable` when only the last `ledgers`
    /// ledgers before `t` count. A cliff-only stream, once released, is payable
    /// in full.
    pub open spec fn spec_lookback_cap(
        self,
        ledgers: Option<u32>,
        t: u64,
        accrued: int,
        claimable: int,
    ) -> int {
        match ledgers {
            None => claimable,
            Some(n) => {
                let endpoint = if t < self.end_time {
                    t as int
                } else {
                    self.end_time as int
                };
                let window = n * SECONDS_PER_LEDGER;
                let window_start = if endpoint < window {
                    0
                } else {
                    endpoint - window
                };
                let recent = self.spec_accrued_at(endpoint) - self.spec_accrued_at(window_start);
                let cap = if self.kind == StreamKind::CliffOnly && accrued > 0 {
                    accrued
                } else if recent < 0 {
                    0
                } else {
                    recent
                };
                let capped = if claimable < cap {
                    claimable
                } else {
                    cap
                };
                if capped < 0 {
                    0
                } else {
                    capped
                }
            },
        }
    }

    /// What one claim may pay out of `claimable`.
    pub(crate) fn lookback_cap(
        &self,
        ledgers: Option<u32>,
        t: u64,
        accrued: i128,
        claimable: i128,
    ) -> (r: i128)
        requires
            self.sound(),
        ensures
            r == self.spec_lookback_cap(ledgers, t, accrued as int, claimable as int),
    {
        let ledgers: u32 = match ledgers {
            None => {
                return claimable;
            },
            Some(n) => n,
        };
        let window: u64 = ledgers as u64 * SECONDS_PER_LEDGER;
        let endpoint: u64 = if t < self.end_time {
            t
        } else {
            self.end_time
        };
        let window_start: u64 = if endpoint < window {
            0
        } else {
            endpoint - window
        };
        let recent: i128 = self.accrued_at(endpoint) - self.accrued_at(window_start);
        let cap: i128 = if matches!(self.kind, StreamKind::CliffOnly) && accrued > 0 {
            accrued
        } else if recent < 0 {
            0
        } else {
            recent
        };
        let capped: i128 = if claimable < cap {
            claimable
        } else {
            cap
        };
        if capped < 0 {
            0
        } else {
            capped
        }
    }
}

} // verus!
