//! Reading the state.

use crate::admin::CONTRACT_VERSION;
use crate::lifecycle::compute_stream_health;
use crate::state::{Call, ContractState, FluxoraStream};
use crate::types::{
    share_option, Address, Bytes, Config, ContractError, Metadata, Page, PortfolioHealthPage,
    Stream, StreamHealth, StreamStatus,
};
use std::rc::Rc;
use vstd::prelude::*;

verus! {

/// The most streams on a page of an export.
pub const MAX_PAGE_SIZE: u64 = 100;

/// The most stream identifiers on a page.
pub const RECIPIENT_STREAMS_PAGE_LIMIT: u32 = 100;

/// The most stream identifiers on a page.
pub const MAX_RECIPIENT_PAGE_SIZE: u32 = RECIPIENT_STREAMS_PAGE_LIMIT;

/// How far the life of a stored stream is prolonged at least, in ledgers.
pub const PERSISTENT_BUMP_AMOUNT: u32 = 120_960;

/// The approximate seconds per ledger, for the life of stored streams.
pub const LEDGER_CLOSE_TIME: u64 = 5;

/// How many ledgers a stored stream outlives its end.
pub const BUFFER_LEDGERS: u32 = 17_280;

/// How far the life of a stored stream is prolonged at most, in ledgers.
pub const MAX_TTL: u32 = 3_110_400;

/// How far the life of a stored stream is prolonged: to its end and a while
/// longer, within limits.
pub open spec fn adaptive_ttl(now: u64, end_time: u64) -> int {
    let remaining = if now < end_time {
        (end_time - now) as int
    } else {
        0
    };
    let ledgers = remaining / LEDGER_CLOSE_TIME as int + BUFFER_LEDGERS;
    if ledgers < PERSISTENT_BUMP_AMOUNT {
        PERSISTENT_BUMP_AMOUNT as int
    } else if ledgers > MAX_TTL {
        MAX_TTL as int
    } else {
        ledgers
    }
}

/// How far the life of a stored stream is prolonged, in ledgers.
pub fn compute_adaptive_ttl(now: u64, end_time: u64) -> (r: u32)
    ensures
        r == adaptive_ttl(now, end_time),
{
    let remaining: u64 = end_time.saturating_sub(now);
    let ledgers: u64 = remaining / LEDGER_CLOSE_TIME + BUFFER_LEDGERS as u64;
    if ledgers < PERSISTENT_BUMP_AMOUNT as u64 {
        PERSISTENT_BUMP_AMOUNT
    } else if ledgers > MAX_TTL as u64 {
        MAX_TTL
    } else {
        ledgers as u32
    }
}

/// A quotient, rounded toward zero.
pub open spec fn quotient(a: int, b: int) -> int {
    if a >= 0 {
        a / b
    } else {
        -((-a) / b)
    }
}

impl Stream {
    /// After how many seconds from the last checkpoint the deposit is used up,
    /// in 64 bits.
    pub open spec fn spec_seconds_to_deplete(self) -> int {
        quotient(
            self.deposit_amount - self.checkpointed_amount,
            self.rate_per_second as int,
        ) % (u64::MAX + 1)
    }

    /// After how many seconds the deposit is used up or the stream ends,
    /// whichever comes first; nothing for a stream without a rate, unless its
    /// deposit is used up.
    pub open spec fn spec_depletion(self, now: u64) -> Option<int> {
        if self.rate_per_second > 0 {
            let raw = self.checkpointed_at + self.spec_seconds_to_deplete();
            let depletion = if raw > u64::MAX {
                u64::MAX as int
            } else {
                raw
            };
            let last = if depletion < self.end_time {
                depletion
            } else {
                self.end_time as int
            };
            Some(
                if last < now {
                    0
                } else {
                    last - now
                },
            )
        } else if self.checkpointed_amount >= self.deposit_amount {
            Some(0)
        } else {
            None
        }
    }

    /// Whether the stream is past its end without being settled.
    pub open spec fn spec_expired(self, now: u64) -> bool {
        now >= self.end_time && self.spec_running()
    }

    /// After how many seconds from the last checkpoint the deposit is used up.
    fn seconds_to_deplete(&self) -> (r: u64)
        requires
            self.sound(),
            self.rate_per_second > 0,
        ensures
            r == self.spec_seconds_to_deplete(),
    {
        let left: i128 = self.deposit_amount - self.checkpointed_amount;
        if left >= 0 {
            ((left / self.rate_per_second) % 0x1_0000_0000_0000_0000) as u64
        } else {
            let missing: i128 = (-left) / self.rate_per_second;
            proof {
                vstd::arithmetic::div_mod::lemma_div_pos_is_pos(
                    -left as int,
                    self.rate_per_second as int,
                );
            }
            let part: i128 = missing % 0x1_0000_0000_0000_0000;
            proof {
                lemma_negative_remainder(missing as int);
            }
            if part == 0 {
                0
            } else {
                (0x1_0000_0000_0000_0000 - part) as u64
            }
        }
    }
}

/// The remainder of a negative number modulo the range of 64 bits.
proof fn lemma_negative_remainder(x: int)
    requires
        x >= 0,
    ensures
        (-x) % (u64::MAX + 1) == if x % (u64::MAX + 1) == 0 {
            0
        } else {
            u64::MAX + 1 - x % (u64::MAX + 1)
        },
{
    let m = u64::MAX + 1;
    assert(x == m * (x / m) + x % m) by (nonlinear_arith)
        requires
            m > 0,
    ;
    if x % m == 0 {
        let q = -(x / m);
        assert(-x == q * m) by (nonlinear_arith)
            requires
                x == m * (x / m),
                q == -(x / m),
        ;
        vstd::arithmetic::div_mod::lemma_fundamental_div_mod_converse(-x, m, q, 0);
    } else {
        let q = -(x / m) - 1;
        let r = m - x % m;
        assert(-x == m * q + r) by (nonlinear_arith)
            requires
                x == m * (x / m) + x % m,
                q == -(x / m) - 1,
                r == m - x % m,
        ;
        assert(m * q == q * m) by (nonlinear_arith);
        vstd::arithmetic::div_mod::lemma_fundamental_div_mod_converse(-x, m, q, r);
    }
}

/// The first `n` stored streams with identifiers from `from` to `to`.
pub open spec fn streams_between(
    streams: Map<u64, Stream>,
    from: int,
    to: int,
    n: nat,
) -> Seq<Stream>
    decreases to - from + 1,
{
    if from > to || n == 0 {
        Seq::empty()
    } else if streams.dom().contains(from as u64) {
        seq![streams[from as u64]] + streams_between(streams, from + 1, to, (n - 1) as nat)
    } else {
        streams_between(streams, from + 1, to, n)
    }
}

/// Where a page starts in a list.
pub open spec fn page_start(list: Seq<u64>, cursor: u64) -> int {
    if cursor == 0 {
        0
    } else {
        crate::index::rank(list, cursor)
    }
}

/// Where a page of at most `limit` entries ends in a list.
pub open spec fn page_end(list: Seq<u64>, cursor: u64, limit: int) -> int {
    let end = page_start(list, cursor) + limit;
    if end < list.len() {
        end
    } else {
        list.len() as int
    }
}

/// The entries on a page.
pub open spec fn page_ids(list: Seq<u64>, cursor: u64, limit: int) -> Seq<u64> {
    list.subrange(page_start(list, cursor), page_end(list, cursor, limit))
}

/// Where the next page starts; 0 when there is none.
pub open spec fn page_next(list: Seq<u64>, cursor: u64, limit: int) -> u64 {
    if page_end(list, cursor, limit) < list.len() {
        list[page_end(list, cursor, limit)]
    } else {
        0
    }
}

/// The smaller of a limit and the largest one allowed.
pub open spec fn capped_limit(limit: u32) -> int {
    if limit < RECIPIENT_STREAMS_PAGE_LIMIT {
        limit as int
    } else {
        RECIPIENT_STREAMS_PAGE_LIMIT as int
    }
}

/// How a stream counts in a report.
#[derive(Clone, Copy, Debug, PartialEq, Eq, Structural)]
pub enum Standing {
    /// Settled, or not stored any more.
    Settled,
    Expired,
    Underfunded,
    Healthy,
}

impl ContractState {
    /// How a stream counts in a report at `now`. Being past the end comes
    /// before lacking funds.
    pub open spec fn standing(self, id: u64, now: u64) -> Standing {
        let stream = self.streams[id];
        if !self.streams.dom().contains(id) || !stream.spec_running() {
            Standing::Settled
        } else if now >= stream.end_time {
            Standing::Expired
        } else if stream.spec_underfunded() {
            Standing::Underfunded
        } else {
            Standing::Healthy
        }
    }

    /// How many of the streams count as `standing`.
    pub open spec fn count_standing(self, ids: Seq<u64>, now: u64, standing: Standing) -> int
        decreases ids.len(),
    {
        if ids.len() == 0 {
            0
        } else {
            self.count_standing(ids.drop_last(), now, standing) + if self.standing(
                ids.last(),
                now,
            ) == standing {
                1int
            } else {
                0
            }
        }
    }

    /// Why the amount that can be withdrawn is not told.
    pub open spec fn get_withdrawable_error(self, call: Call, id: u64) -> Option<ContractError> {
        let stream = self.streams[id];
        if !self.streams.dom().contains(id) {
            Some(ContractError::StreamNotFound)
        } else if stream.status == StreamStatus::Completed || stream.status
            == StreamStatus::Paused {
            None
        } else if self.accrual_blocked(stream, call.timestamp) {
            Some(ContractError::ClockRegression)
        } else if self.config is None {
            Some(ContractError::InvalidState)
        } else {
            None
        }
    }

    /// What can be withdrawn now: what a withdrawal would pay, and nothing
    /// from a paused or completed stream.
    pub open spec fn withdrawable(self, call: Call, id: u64) -> int {
        let stream = self.streams[id];
        if stream.status == StreamStatus::Completed || stream.status == StreamStatus::Paused {
            0
        } else {
            self.payout_of(call, id)
        }
    }

    /// The state after the amount that can be withdrawn was told.
    pub open spec fn get_withdrawable_step(self, call: Call, id: u64) -> Self {
        let stream = self.streams[id];
        if stream.status == StreamStatus::Completed || stream.status == StreamStatus::Paused {
            self
        } else {
            self.accrue(stream, call.timestamp)
        }
    }

    /// What could be claimed at the given time.
    pub open spec fn claimable_at(self, id: u64, timestamp: u64) -> int {
        let stream = self.streams[id];
        let time = match (stream.status, stream.cancelled_at) {
            (StreamStatus::Cancelled, Some(at)) => if timestamp < at {
                timestamp
            } else {
                at
            },
            _ => timestamp,
        };
        let accrued = stream.spec_accrued_at(time as int);
        let claimable = stream.spec_lookback_cap(
            self.lookback_of(id),
            time,
            accrued,
            accrued - stream.withdrawn_amount,
        );
        if stream.status == StreamStatus::Completed || claimable <= 0 {
            0
        } else {
            claimable
        }
    }
}

/// Whether a report on the health of a stream is right at `now`.
pub open spec fn health_reported(health: StreamHealth, stream: Stream, now: u64) -> bool {
    &&& health.is_underfunded == stream.spec_underfunded()
    &&& health.is_expired == stream.spec_expired(now)
    &&& health.accrued_to_date == stream.spec_earned(now)
    &&& health.remaining_deposit == (stream.deposit_amount - stream.withdrawn_amount) % (u128::MAX
        + 1)
    &&& health.seconds_until_depletion is Some <==> stream.spec_depletion(now) is Some
    &&& health.seconds_until_depletion is Some ==> health.seconds_until_depletion->0
        == stream.spec_depletion(now)->0
}

impl FluxoraStream {
    /// What a withdrawal from a stream would pay now; nothing for a paused or
    /// completed stream.
    pub fn get_withdrawable(&mut self, call: &Call, stream_id: u64) -> (r: Result<
        i128,
        ContractError,
    >)
        requires
            old(self)@.wf(),
        ensures
            final(self)@.wf(),
            match old(self)@.get_withdrawable_error(*call, stream_id) {
                Some(e) => r == Err::<i128, ContractError>(e) && final(self)@ == old(self)@,
                None => {
                    &&& r == Ok::<i128, ContractError>(
                        old(self)@.withdrawable(*call, stream_id) as i128,
                    )
                    &&& 0 <= old(self)@.withdrawable(*call, stream_id) <= i128::MAX
                    &&& final(self)@ == old(self)@.get_withdrawable_step(*call, stream_id)
                },
            },
    {
        let stream = match self.load_stream(stream_id) {
            Err(e) => {
                return Err(e);
            },
            Ok(stream) => stream,
        };
        if stream.status == StreamStatus::Completed || stream.status == StreamStatus::Paused {
            return Ok(0);
        }
        if self.accrual_blocked(&stream, call.timestamp) {
            return Err(ContractError::ClockRegression);
        }
        if self.config.is_none() {
            return Err(ContractError::InvalidState);
        }
        let earned: i128 = stream.earned(call.timestamp);
        self.accrue(&stream, call.timestamp);
        Ok(
            stream.payout(
                self.max_lookback_ledgers(stream_id),
                call.timestamp,
                call.balance,
                earned,
            ),
        )
    }

    /// What could be claimed from a stream at the given time, whatever the
    /// contract holds then.
    pub fn get_claimable_at(&self, stream_id: u64, timestamp: u64) -> (r: Result<
        i128,
        ContractError,
    >)
        requires
            self@.wf(),
        ensures
            r == if self@.streams.dom().contains(stream_id) {
                Ok::<i128, ContractError>(self@.claimable_at(stream_id, timestamp) as i128)
            } else {
                Err(ContractError::StreamNotFound)
            },
            self@.streams.dom().contains(stream_id) ==> 0 <= self@.claimable_at(
                stream_id,
                timestamp,
            ) <= i128::MAX,
    {
        let stream = match self.load_stream(stream_id) {
            Err(e) => {
                return Err(e);
            },
            Ok(stream) => stream,
        };
        if stream.status == StreamStatus::Completed {
            return Ok(0);
        }
        let time: u64 = match (stream.status, stream.cancelled_at) {
            (StreamStatus::Cancelled, Some(at)) => if timestamp < at {
                timestamp
            } else {
                at
            },
            _ => timestamp,
        };
        let accrued: i128 = stream.accrued_at(time);
        let claimable: i128 = stream.lookback_cap(
            self.max_lookback_ledgers(stream_id),
            time,
            accrued,
            accrued - stream.withdrawn_amount,
        );
        if claimable > 0 {
            Ok(claimable)
        } else {
            Ok(0)
        }
    }

    /// The token and the administrator.
    pub fn get_config(&self) -> (r: Result<Config, ContractError>)
        ensures
            r == match self@.config {
                Some(config) => Ok::<Config, ContractError>(config),
                None => Err(ContractError::InvalidState),
            },
    {
        match self.config {
            Some(config) => Ok(config),
            None => Err(ContractError::InvalidState),
        }
    }

    /// Whether the emergency pause is on.
    pub fn get_global_emergency_paused(&self) -> (r: bool)
        ensures
            r == self@.emergency_paused,
    {
        self.emergency_paused
    }

    /// A stream.
    pub fn get_stream_state(&self, stream_id: u64) -> (r: Result<Stream, ContractError>)
        requires
            self@.wf(),
        ensures
            r == if self@.streams.dom().contains(stream_id) {
                Ok::<Stream, ContractError>(self@.streams[stream_id])
            } else {
                Err(ContractError::StreamNotFound)
            },
    {
        self.load_stream(stream_id)
    }

    /// A report on the health of a stream.
    pub fn get_stream_health(&mut self, call: &Call, stream_id: u64) -> (r: Result<
        StreamHealth,
        ContractError,
    >)
        requires
            old(self)@.wf(),
        ensures
            final(self)@.wf(),
            match old(self)@.calculate_accrued_error(*call, stream_id) {
                Some(e) => r == Err::<StreamHealth, ContractError>(e) && final(self)@ == old(
                    self,
                )@,
                None => {
                    let stream = old(self)@.streams[stream_id];
                    &&& r is Ok
                    &&& health_reported(r->Ok_0, stream, call.timestamp)
                    &&& final(self)@ == old(self)@.accrue(stream, call.timestamp)
                },
            },
    {
        let stream = match self.load_stream(stream_id) {
            Err(e) => {
                return Err(e);
            },
            Ok(stream) => stream,
        };
        let now: u64 = call.timestamp;
        if self.accrual_blocked(&stream, now) {
            return Err(ContractError::ClockRegression);
        }
        self.accrue(&stream, now);
        let accrued_to_date: u128 = stream.earned(now) as u128;
        let left: i128 = stream.deposit_amount - stream.withdrawn_amount;
        let remaining_deposit: u128 = if left >= 0 {
            left as u128
        } else {
            u128::MAX - (-(left + 1)) as u128
        };
        let is_expired: bool = now >= stream.end_time && stream.is_running();
        let (is_underfunded, _, _) = compute_stream_health(&stream, now);
        let seconds_until_depletion: Option<u64> = if stream.rate_per_second > 0 {
            let depletion: u64 = stream.checkpointed_at.saturating_add(
                stream.seconds_to_deplete(),
            );
            let last: u64 = if depletion < stream.end_time {
                depletion
            } else {
                stream.end_time
            };
            Some(last.saturating_sub(now))
        } else if stream.checkpointed_amount >= stream.deposit_amount {
            Some(0)
        } else {
            None
        };
        Ok(
            StreamHealth {
                is_underfunded,
                is_expired,
                accrued_to_date,
                remaining_deposit,
                seconds_until_depletion,
            },
        )
    }

    /// The memo of a stream.
    pub fn get_stream_memo(&self, stream_id: u64) -> (r: Result<Option<Bytes>, ContractError>)
        requires
            self@.wf(),
        ensures
            r == if self@.streams.dom().contains(stream_id) {
                Ok::<Option<Bytes>, ContractError>(self@.streams[stream_id].memo)
            } else {
                Err(ContractError::StreamNotFound)
            },
    {
        match self.load_stream(stream_id) {
            Ok(stream) => Ok(stream.memo),
            Err(e) => Err(e),
        }
    }

    /// The metadata of a stream.
    pub fn get_stream_metadata(&self, stream_id: u64) -> (r: Result<
        Option<Rc<Metadata>>,
        ContractError,
    >)
        requires
            self@.wf(),
        ensures
            r == if self@.streams.dom().contains(stream_id) {
                Ok::<Option<Rc<Metadata>>, ContractError>(self@.streams[stream_id].metadata)
            } else {
                Err(ContractError::StreamNotFound)
            },
    {
        match self.load_stream(stream_id) {
            Ok(stream) => Ok(stream.metadata),
            Err(e) => Err(e),
        }
    }

    /// How many stream identifiers were handed out or set aside.
    pub fn get_stream_count(&self) -> (r: u64)
        ensures
            r == self@.next_stream_id,
    {
        self.next_stream_id
    }

    /// What keepers were paid so far.
    pub fn get_protocol_fees_accrued(&self) -> (r: i128)
        ensures
            r == self@.total_keeper_fees_paid,
    {
        self.total_keeper_fees_paid
    }

    /// What the contract owes on all streams together.
    pub fn get_total_liabilities(&self) -> (r: i128)
        ensures
            r == self@.total_liabilities,
    {
        self.total_liabilities
    }

    /// How many streams are paused.
    pub fn get_paused_stream_count(&self) -> (r: u64)
        ensures
            r == self@.paused_stream_count,
    {
        self.paused_stream_count
    }

    /// The revision of the protocol.
    pub fn version() -> (r: u32)
        ensures
            r == CONTRACT_VERSION,
    {
        CONTRACT_VERSION
    }

    /// The first streams of a recipient, ascending, at most one page of them.
    pub fn get_recipient_streams(&self, recipient: Address) -> (r: Vec<u64>)
        requires
            self@.wf(),
        ensures
            ({
                let list = crate::state::listed(self@.recipient_streams, recipient);
                r@ == if list.len() <= RECIPIENT_STREAMS_PAGE_LIMIT {
                    list
                } else {
                    list.subrange(0, RECIPIENT_STREAMS_PAGE_LIMIT as int)
                }
            }),
    {
        match self.recipient_streams.get(recipient) {
            None => Vec::new(),
            Some(list) => {
                if list.len() <= RECIPIENT_STREAMS_PAGE_LIMIT {
                    list.to_vec()
                } else {
                    list.range(0, RECIPIENT_STREAMS_PAGE_LIMIT)
                }
            },
        }
    }

    /// One page of the streams of a recipient, ascending, starting with the
    /// stream that the cursor names or the next one after it.
    pub fn get_recipient_streams_paginated(
        &self,
        recipient: Address,
        cursor: u64,
        limit: u32,
    ) -> (r: Page)
        requires
            self@.wf(),
        ensures
            ({
                let list = crate::state::listed(self@.recipient_streams, recipient);
                &&& r.stream_ids@ == page_ids(list, cursor, capped_limit(limit))
                &&& r.next_cursor == page_next(list, cursor, capped_limit(limit))
            }),
    {
        proof {
            crate::registry::lemma_lists_ascend(self@, recipient);
        }
        let limit: u32 = if limit < RECIPIENT_STREAMS_PAGE_LIMIT {
            limit
        } else {
            RECIPIENT_STREAMS_PAGE_LIMIT
        };
        match self.recipient_streams.get(recipient) {
            None => {
                let stream_ids: Vec<u64> = Vec::new();
                Page { stream_ids, next_cursor: 0 }
            },
            Some(list) => {
                let (stream_ids, next_cursor) = page_of(list, cursor, limit);
                Page { stream_ids, next_cursor }
            },
        }
    }

    /// How many streams a recipient has.
    pub fn get_recipient_stream_count(&self, recipient: Address) -> (r: u64)
        ensures
            r == crate::state::listed(self@.recipient_streams, recipient).len(),
    {
        crate::ops::list_len(&self.recipient_streams, recipient) as u64
    }

    /// One page of a report on the streams of a sender.
    pub fn get_sender_portfolio_health(
        &self,
        call: &Call,
        sender: Address,
        cursor: u64,
        limit: u32,
    ) -> (r: PortfolioHealthPage)
        requires
            self@.wf(),
        ensures
            ({
                let list = crate::state::listed(self@.sender_streams, sender);
                let most = if limit == 0 {
                    RECIPIENT_STREAMS_PAGE_LIMIT as int
                } else {
                    capped_limit(limit)
                };
                let ids = page_ids(list, cursor, most);
                &&& r.stream_ids@ == ids
                &&& r.next_cursor == page_next(list, cursor, most)
                &&& r.expired_count == self@.count_standing(
                    ids,
                    call.timestamp,
                    Standing::Expired,
                )
                &&& r.underfunded_count == self@.count_standing(
                    ids,
                    call.timestamp,
                    Standing::Underfunded,
                )
                &&& r.healthy_count == self@.count_standing(
                    ids,
                    call.timestamp,
                    Standing::Healthy,
                )
            }),
    {
        proof {
            crate::registry::lemma_lists_ascend(self@, sender);
        }
        let most: u32 = if limit == 0 || limit > RECIPIENT_STREAMS_PAGE_LIMIT {
            RECIPIENT_STREAMS_PAGE_LIMIT
        } else {
            limit
        };
        let (stream_ids, next_cursor): (Vec<u64>, u64) = match self.sender_streams.get(sender) {
            None => (Vec::new(), 0),
            Some(list) => page_of(list, cursor, most),
        };
        let now: u64 = call.timestamp;
        let mut underfunded_count: u32 = 0;
        let mut expired_count: u32 = 0;
        let mut healthy_count: u32 = 0;
        let mut i: usize = 0;
        while i < stream_ids.len()
            invariant
                self@.wf(),
                i <= stream_ids@.len() <= RECIPIENT_STREAMS_PAGE_LIMIT,
                underfunded_count <= i,
                expired_count <= i,
                healthy_count <= i,
                expired_count == self@.count_standing(
                    stream_ids@.take(i as int),
                    now,
                    Standing::Expired,
                ),
                underfunded_count == self@.count_standing(
                    stream_ids@.take(i as int),
                    now,
                    Standing::Underfunded,
                ),
                healthy_count == self@.count_standing(
                    stream_ids@.take(i as int),
                    now,
                    Standing::Healthy,
                ),
            decreases stream_ids@.len() - i,
        {
            proof {
                assert(stream_ids@.take(i + 1).drop_last() =~= stream_ids@.take(i as int));
            }
            if let Ok(stream) = self.load_stream(stream_ids[i]) {
                if stream.is_running() {
                    let (is_underfunded, _, _) = compute_stream_health(&stream, now);
                    if now >= stream.end_time {
                        expired_count = expired_count + 1;
                    } else if is_underfunded {
                        underfunded_count = underfunded_count + 1;
                    } else {
                        healthy_count = healthy_count + 1;
                    }
                }
            }
            i += 1;
        }
        proof {
            assert(stream_ids@.take(i as int) =~= stream_ids@);
        }
        PortfolioHealthPage {
            underfunded_count,
            expired_count,
            healthy_count,
            next_cursor,
            stream_ids,
        }
    }

    /// The stored streams with identifiers from `start_id` to `end_id`,
    /// ascending, at most one page of them.
    pub fn get_streams_by_id_range(&self, start_id: u64, end_id: u64, limit: u64) -> (r: Vec<
        Stream,
    >)
        requires
            self@.wf(),
            self@.next_stream_id < u64::MAX,
        ensures
            ({
                let last = if end_id < self@.next_stream_id {
                    end_id
                } else {
                    self@.next_stream_id
                };
                let most = if limit < MAX_PAGE_SIZE {
                    limit
                } else {
                    MAX_PAGE_SIZE
                };
                r@ == streams_between(self@.streams, start_id as int, last as int, most as nat)
            }),
    {
        let most: u64 = if limit < MAX_PAGE_SIZE {
            limit
        } else {
            MAX_PAGE_SIZE
        };
        let last: u64 = if end_id < self.next_stream_id {
            end_id
        } else {
            self.next_stream_id
        };
        let mut r: Vec<Stream> = Vec::new();
        let mut id: u64 = start_id;
        let ghost all = streams_between(self@.streams, start_id as int, last as int, most as nat);
        while id <= last && (r.len() as u64) < most
            invariant
                self@.wf(),
                last < u64::MAX,
                r@.len() <= most <= MAX_PAGE_SIZE,
                all == r@ + streams_between(
                    self@.streams,
                    id as int,
                    last as int,
                    (most - r@.len()) as nat,
                ),
            decreases last - id + 1,
        {
            if let Ok(stream) = self.load_stream(id) {
                r.push(stream);
                assert(all =~= r@ + streams_between(
                    self@.streams,
                    id + 1,
                    last as int,
                    (most - r@.len()) as nat,
                ));
            }
            id += 1;
        }
        assert(all =~= r@);
        r
    }
}

/// One page of a list and where the next one starts.
fn page_of(list: &crate::index::IdList, cursor: u64, limit: u32) -> (r: (Vec<u64>, u64))
    requires
        crate::index::ascending(list@),
        limit <= RECIPIENT_STREAMS_PAGE_LIMIT,
    ensures
        r.0@ == page_ids(list@, cursor, limit as int),
        r.0@.len() <= limit,
        r.1 == page_next(list@, cursor, limit as int),
{
    proof {
        crate::index::lemma_rank(list@, cursor);
    }
    let total: u32 = list.len();
    let start: u32 = if cursor == 0 {
        0
    } else {
        list.rank(cursor)
    };
    let end: u32 = if limit < total - start {
        start + limit
    } else {
        total
    };
    let next_cursor: u64 = if end < total {
        list.at(end)
    } else {
        0
    };
    (list.range(start, end), next_cursor)
}

} // verus!
