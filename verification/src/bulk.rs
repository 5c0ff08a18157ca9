//! Resuming and cancelling several streams at once.

use crate::batch::reject_duplicate_ids;
use crate::events::{Event, StreamEvent, Withdrawal};
use crate::lifecycle::compute_stream_health;
use crate::state::{Call, ContractState, FluxoraStream};
use crate::types::{Address, ContractError, Stream, StreamStatus};
use vstd::prelude::*;

verus! {

impl ContractState {
    /// Why one stream of a batch cannot be resumed.
    pub open spec fn bulk_resume_item_error(self, call: Call, id: u64) -> Option<ContractError> {
        if !self.streams.dom().contains(id) {
            Some(ContractError::StreamNotFound)
        } else {
            self.streams[id].resume_error(call)
        }
    }

    /// Why one of the first `n` streams of a batch cannot be resumed.
    pub open spec fn bulk_resume_items_error(self, call: Call, ids: Seq<u64>, n: int) -> Option<
        ContractError,
    >
        decreases n,
    {
        if n <= 0 {
            None
        } else {
            match self.bulk_resume_items_error(call, ids, n - 1) {
                Some(e) => Some(e),
                None => self.bulk_resume_item_error(call, ids[n - 1]),
            }
        }
    }

    /// Why a batch of streams cannot be resumed.
    pub open spec fn bulk_resume_error(self, call: Call, ids: Seq<u64>) -> Option<ContractError> {
        match self.admin_error(call) {
            Some(e) => Some(e),
            None => if !crate::batch::distinct(ids) {
                Some(ContractError::DuplicateStreamId)
            } else {
                self.bulk_resume_items_error(call, ids, ids.len() as int)
            },
        }
    }

    /// The state with the first `n` streams of a batch resumed.
    pub open spec fn bulk_resume_step(self, call: Call, ids: Seq<u64>, n: int) -> Self
        decreases n,
    {
        if n <= 0 {
            self
        } else {
            self.bulk_resume_step(call, ids, n - 1).resume(call, self.streams[ids[n - 1]])
        }
    }

    /// Why one stream of a batch cannot be cancelled.
    pub open spec fn bulk_cancel_item_error(self, sender: Address, id: u64) -> Option<
        ContractError,
    > {
        let stream = self.streams[id];
        if !self.streams.dom().contains(id) {
            Some(ContractError::StreamNotFound)
        } else if stream.sender != sender || stream.spec_irrevocable() {
            Some(ContractError::Unauthorized)
        } else if !stream.spec_running() {
            Some(ContractError::InvalidState)
        } else {
            None
        }
    }

    /// Why one of the first `n` streams of a batch cannot be cancelled.
    pub open spec fn bulk_cancel_items_error(
        self,
        sender: Address,
        ids: Seq<u64>,
        n: int,
    ) -> Option<ContractError>
        decreases n,
    {
        if n <= 0 {
            None
        } else {
            match self.bulk_cancel_items_error(sender, ids, n - 1) {
                Some(e) => Some(e),
                None => self.bulk_cancel_item_error(sender, ids[n - 1]),
            }
        }
    }

    /// What the sender gets back for the first `n` streams of a batch.
    pub open spec fn bulk_refund(self, now: u64, ids: Seq<u64>, n: int) -> int
        decreases n,
    {
        if n <= 0 {
            0
        } else {
            self.bulk_refund(now, ids, n - 1) + self.streams[ids[n - 1]].spec_unearned(now)
        }
    }

    /// Why a batch of streams cannot be cancelled.
    pub open spec fn bulk_cancel_error(
        self,
        call: Call,
        sender: Address,
        ids: Seq<u64>,
    ) -> Option<ContractError> {
        if self.emergency_paused {
            Some(ContractError::ContractPaused)
        } else if !call.authorised(sender) {
            Some(ContractError::Unauthorized)
        } else if !crate::batch::distinct(ids) {
            Some(ContractError::DuplicateStreamId)
        } else {
            match self.bulk_cancel_items_error(sender, ids, ids.len() as int) {
                Some(e) => Some(e),
                None => if self.bulk_refund(call.timestamp, ids, ids.len() as int) > i128::MAX {
                    Some(ContractError::ArithmeticOverflow)
                } else {
                    None
                },
            }
        }
    }

    /// The state with one stream of a batch cancelled: the recipient is paid
    /// what it earned, and the sender's refund is taken off the books.
    pub open spec fn bulk_cancel_one(self, stream: Stream, now: u64) -> Self {
        let due = stream.spec_outstanding(now) as i128;
        let refund = stream.spec_unearned(now) as i128;
        let after = Stream {
            withdrawn_amount: (stream.withdrawn_amount + due) as i128,
            ..stream.cancelled(now)
        };
        let paid = if due > 0 {
            self.settle(due).push(stream.recipient, due).emit(
                Event::Withdrew(
                    Withdrawal {
                        stream_id: stream.stream_id,
                        recipient: stream.recipient,
                        amount: due,
                    },
                ),
            )
        } else {
            self
        };
        let stored = paid.put(after).recount(stream.status, StreamStatus::Cancelled);
        let settled = if refund > 0 {
            stored.settle(refund)
        } else {
            stored
        };
        settled.emit(
            Event::Status(StreamEvent::StreamCancelled(stream.stream_id)),
        ).announce_health(stream, after, now)
    }

    /// The state with the first `n` streams of a batch cancelled.
    pub open spec fn bulk_cancel_all(self, now: u64, ids: Seq<u64>, n: int) -> Self
        decreases n,
    {
        if n <= 0 {
            self
        } else {
            self.bulk_cancel_all(now, ids, n - 1).bulk_cancel_one(self.streams[ids[n - 1]], now)
        }
    }

    /// The state with a batch of streams cancelled and their refunds paid to
    /// the sender at once.
    pub open spec fn bulk_cancel_step(self, now: u64, sender: Address, ids: Seq<u64>) -> Self {
        let refund = self.bulk_refund(now, ids, ids.len() as int) as i128;
        let s = self.bulk_cancel_all(now, ids, ids.len() as int);
        if refund > 0 {
            s.push(sender, refund)
        } else {
            s
        }
    }
}

proof fn lemma_resume_prefix(s: ContractState, call: Call, ids: Seq<u64>, i: int, n: int)
    requires
        0 <= i <= n,
        s.bulk_resume_items_error(call, ids, i) is Some,
    ensures
        s.bulk_resume_items_error(call, ids, n) == s.bulk_resume_items_error(call, ids, i),
    decreases n - i,
{
    if i < n {
        lemma_resume_prefix(s, call, ids, i, n - 1);
    }
}

proof fn lemma_resume_ok(s: ContractState, call: Call, ids: Seq<u64>, n: int)
    requires
        0 <= n <= ids.len(),
        s.bulk_resume_items_error(call, ids, n) is None,
    ensures
        forall|i: int| 0 <= i < n ==> s.bulk_resume_item_error(call, #[trigger] ids[i]) is None,
    decreases n,
{
    if n > 0 {
        lemma_resume_ok(s, call, ids, n - 1);
    }
}

proof fn lemma_cancel_prefix(s: ContractState, sender: Address, ids: Seq<u64>, i: int, n: int)
    requires
        0 <= i <= n,
        s.bulk_cancel_items_error(sender, ids, i) is Some,
    ensures
        s.bulk_cancel_items_error(sender, ids, n) == s.bulk_cancel_items_error(sender, ids, i),
    decreases n - i,
{
    if i < n {
        lemma_cancel_prefix(s, sender, ids, i, n - 1);
    }
}

proof fn lemma_cancel_ok(s: ContractState, sender: Address, ids: Seq<u64>, n: int)
    requires
        0 <= n <= ids.len(),
        s.bulk_cancel_items_error(sender, ids, n) is None,
    ensures
        forall|i: int| 0 <= i < n ==> s.bulk_cancel_item_error(sender, #[trigger] ids[i]) is None,
    decreases n,
{
    if n > 0 {
        lemma_cancel_ok(s, sender, ids, n - 1);
    }
}

/// What was earned never exceeds the deposit, so refunds only add up.
proof fn lemma_refund_grows(s: ContractState, now: u64, sender: Address, ids: Seq<u64>, i: int, n: int)
    requires
        0 <= i <= n <= ids.len(),
        s.wf(),
        s.bulk_cancel_items_error(sender, ids, ids.len() as int) is None,
    ensures
        0 <= s.bulk_refund(now, ids, i) <= s.bulk_refund(now, ids, n),
    decreases n,
{
    if n > 0 {
        lemma_cancel_ok(s, sender, ids, ids.len() as int);
        let id = ids[n - 1];
        assert(s.bulk_cancel_item_error(sender, id) is None);
        crate::registry::lemma_stored_stream(s, id);
        crate::laws::accrual::law_accrued_bounded(s.streams[id], now as int);
        if i < n {
            lemma_refund_grows(s, now, sender, ids, i, n - 1);
        } else {
            lemma_refund_grows(s, now, sender, ids, n - 1, n - 1);
        }
    }
}

impl FluxoraStream {
    /// Resumes several streams, at the wish of the administrator: all of them,
    /// or none.
    pub fn bulk_resume_streams_as_admin(&mut self, call: &Call, stream_ids: &Vec<u64>) -> (r:
        Result<(), ContractError>)
        requires
            old(self)@.wf(),
        ensures
            final(self)@.wf(),
            match old(self)@.bulk_resume_error(*call, stream_ids@) {
                Some(e) => r == Err::<(), ContractError>(e) && final(self)@ == old(self)@,
                None => {
                    &&& r == Ok::<(), ContractError>(())
                    &&& final(self)@ == old(self)@.bulk_resume_step(
                        *call,
                        stream_ids@,
                        stream_ids@.len() as int,
                    )
                },
            },
    {
        if let Err(e) = self.require_admin(call) {
            return Err(e);
        }
        if let Err(e) = reject_duplicate_ids(stream_ids) {
            return Err(e);
        }
        let ghost before = self@;
        let mut streams: Vec<Stream> = Vec::new();
        let mut i: usize = 0;
        while i < stream_ids.len()
            invariant
                i <= stream_ids@.len(),
                self@ == before,
                before == old(self)@,
                before.wf(),
                before.admin_error(*call) is None,
                crate::batch::distinct(stream_ids@),
                before.bulk_resume_items_error(*call, stream_ids@, i as int) is None,
                streams@.len() == i,
                forall|j: int|
                    0 <= j < i ==> #[trigger] streams@[j] == before.streams[stream_ids@[j]],
            decreases stream_ids@.len() - i,
        {
            proof {
                if before.bulk_resume_items_error(*call, stream_ids@, i + 1) is Some {
                    lemma_resume_prefix(
                        before,
                        *call,
                        stream_ids@,
                        i + 1,
                        stream_ids@.len() as int,
                    );
                }
            }
            let stream = match self.load_stream(stream_ids[i]) {
                Err(e) => {
                    return Err(e);
                },
                Ok(stream) => stream,
            };
            if let Err(e) = stream.check_resume(call) {
                return Err(e);
            }
            streams.push(stream);
            i += 1;
        }
        proof {
            lemma_resume_ok(before, *call, stream_ids@, stream_ids@.len() as int);
        }
        let mut k: usize = 0;
        while k < streams.len()
            invariant
                k <= streams@.len() == stream_ids@.len(),
                before.wf(),
                self@.wf(),
                self@ == before.bulk_resume_step(*call, stream_ids@, k as int),
                crate::batch::distinct(stream_ids@),
                forall|j: int|
                    0 <= j < streams@.len() ==> #[trigger] streams@[j]
                        == before.streams[stream_ids@[j]],
                forall|j: int|
                    0 <= j < stream_ids@.len() ==> before.bulk_resume_item_error(
                        *call,
                        #[trigger] stream_ids@[j],
                    ) is None,
                forall|j: int| #![trigger stream_ids@[j]]
                    k <= j < stream_ids@.len() ==> self@.streams.dom().contains(stream_ids@[j])
                        && self@.streams[stream_ids@[j]] == before.streams[stream_ids@[j]],
            decreases streams@.len() - k,
        {
            let ghost id = stream_ids@[k as int];
            assert(before.bulk_resume_item_error(*call, id) is None);
            proof {
                crate::registry::lemma_stored_stream(before, id);
                assert(streams@[k as int] == before.streams[id]);
            }
            self.toggle(call, &streams[k], StreamStatus::Active);
            self.emit(Event::Status(StreamEvent::Resumed(streams[k].stream_id)));
            assert forall|j: int| #![trigger stream_ids@[j]]
                k + 1 <= j < stream_ids@.len() implies self@.streams.dom().contains(stream_ids@[j])
                && self@.streams[stream_ids@[j]] == before.streams[stream_ids@[j]] by {
                assert(stream_ids@[k as int] != stream_ids@[j]);
            }
            k += 1;
        }
        Ok(())
    }

    /// Cancels one stream of a batch: pays the recipient what it earned and
    /// takes the sender's refund off the books.
    fn bulk_cancel_one(&mut self, stream: &Stream, now: u64)
        requires
            old(self)@.wf(),
            stream.sound(),
            stream.spec_running(),
            old(self)@.streams.dom().contains(stream.stream_id),
            *stream == old(self)@.streams[stream.stream_id],
        ensures
            final(self)@ == old(self)@.bulk_cancel_one(*stream, now),
            final(self)@.wf(),
    {
        let accrued: i128 = stream.accrued_at(now);
        let refund: i128 = stream.deposit_amount - accrued;
        let due: i128 = if accrued < stream.withdrawn_amount {
            0
        } else {
            accrued - stream.withdrawn_amount
        };
        let (was_underfunded, _, _) = compute_stream_health(stream, now);
        let mut after = stream.clone();
        if due > 0 {
            after.withdrawn_amount = after.withdrawn_amount + due;
            self.settle(due);
            self.push_token(stream.recipient, due);
            self.emit(
                Event::Withdrew(
                    Withdrawal {
                        stream_id: stream.stream_id,
                        recipient: stream.recipient,
                        amount: due,
                    },
                ),
            );
        }
        after.status = StreamStatus::Cancelled;
        after.cancelled_at = Some(now);
        self.update_stream(&after);
        self.reconcile_paused_stream_count(stream.status, StreamStatus::Cancelled);
        if refund > 0 {
            self.settle(refund);
        }
        self.emit(Event::Status(StreamEvent::StreamCancelled(stream.stream_id)));
        self.maybe_emit_health_changed(&after, was_underfunded, now, Ghost(*stream));
    }

    /// Cancels several streams of one sender: all of them, or none. Recipients
    /// are paid what they earned, and one payment refunds the sender.
    pub fn bulk_cancel_streams(&mut self, call: &Call, sender: Address, stream_ids: &Vec<u64>) -> (r:
        Result<(), ContractError>)
        requires
            old(self)@.wf(),
        ensures
            final(self)@.wf(),
            match old(self)@.bulk_cancel_error(*call, sender, stream_ids@) {
                Some(e) => r == Err::<(), ContractError>(e) && final(self)@ == old(self)@,
                None => {
                    &&& r == Ok::<(), ContractError>(())
                    &&& final(self)@ == old(self)@.bulk_cancel_step(
                        call.timestamp,
                        sender,
                        stream_ids@,
                    )
                },
            },
    {
        if self.emergency_paused {
            return Err(ContractError::ContractPaused);
        }
        if !call.is_signed_by(sender) {
            return Err(ContractError::Unauthorized);
        }
        if let Err(e) = reject_duplicate_ids(stream_ids) {
            return Err(e);
        }
        let now: u64 = call.timestamp;
        let ghost before = self@;
        let mut streams: Vec<Stream> = Vec::new();
        let mut i: usize = 0;
        while i < stream_ids.len()
            invariant
                i <= stream_ids@.len(),
                self@ == before,
                before == old(self)@,
                before.wf(),
                !before.emergency_paused,
                call.authorised(sender),
                crate::batch::distinct(stream_ids@),
                before.bulk_cancel_items_error(sender, stream_ids@, i as int) is None,
                streams@.len() == i,
                forall|j: int|
                    0 <= j < i ==> #[trigger] streams@[j] == before.streams[stream_ids@[j]],
            decreases stream_ids@.len() - i,
        {
            proof {
                if before.bulk_cancel_items_error(sender, stream_ids@, i + 1) is Some {
                    lemma_cancel_prefix(
                        before,
                        sender,
                        stream_ids@,
                        i + 1,
                        stream_ids@.len() as int,
                    );
                }
            }
            let stream = match self.load_stream(stream_ids[i]) {
                Err(e) => {
                    return Err(e);
                },
                Ok(stream) => stream,
            };
            if stream.sender != sender || stream.is_irrevocable() {
                return Err(ContractError::Unauthorized);
            }
            if !stream.is_running() {
                return Err(ContractError::InvalidState);
            }
            streams.push(stream);
            i += 1;
        }
        proof {
            lemma_cancel_ok(before, sender, stream_ids@, stream_ids@.len() as int);
        }
        let mut refund: i128 = 0;
        let mut j: usize = 0;
        while j < streams.len()
            invariant
                j <= streams@.len() == stream_ids@.len(),
                self@ == before,
                before == old(self)@,
                before.wf(),
                now == call.timestamp,
                before.bulk_cancel_error(*call, sender, stream_ids@) == (if before.bulk_refund(
                    now,
                    stream_ids@,
                    stream_ids@.len() as int,
                ) > i128::MAX {
                    Some(ContractError::ArithmeticOverflow)
                } else {
                    None::<ContractError>
                }),
                before.bulk_cancel_items_error(
                    sender,
                    stream_ids@,
                    stream_ids@.len() as int,
                ) is None,
                forall|j: int|
                    0 <= j < streams@.len() ==> #[trigger] streams@[j]
                        == before.streams[stream_ids@[j]],
                forall|j: int|
                    0 <= j < stream_ids@.len() ==> before.bulk_cancel_item_error(
                        sender,
                        #[trigger] stream_ids@[j],
                    ) is None,
                refund == before.bulk_refund(now, stream_ids@, j as int),
            decreases streams@.len() - j,
        {
            proof {
                assert(before.bulk_cancel_item_error(sender, stream_ids@[j as int]) is None);
                crate::registry::lemma_stored_stream(before, stream_ids@[j as int]);
                assert(streams@[j as int] == before.streams[stream_ids@[j as int]]);
                lemma_refund_grows(
                    before,
                    now,
                    sender,
                    stream_ids@,
                    j + 1,
                    stream_ids@.len() as int,
                );
            }
            let unearned: i128 = streams[j].deposit_amount - streams[j].accrued_at(now);
            refund =
            match refund.checked_add(unearned) {
                Some(sum) => sum,
                None => {
                    return Err(ContractError::ArithmeticOverflow);
                },
            };
            j += 1;
        }
        let mut k: usize = 0;
        while k < streams.len()
            invariant
                k <= streams@.len() == stream_ids@.len(),
                before.wf(),
                self@.wf(),
                self@ == before.bulk_cancel_all(now, stream_ids@, k as int),
                crate::batch::distinct(stream_ids@),
                forall|j: int|
                    0 <= j < streams@.len() ==> #[trigger] streams@[j]
                        == before.streams[stream_ids@[j]],
                forall|j: int|
                    0 <= j < stream_ids@.len() ==> before.bulk_cancel_item_error(
                        sender,
                        #[trigger] stream_ids@[j],
                    ) is None,
                forall|j: int| #![trigger stream_ids@[j]]
                    k <= j < stream_ids@.len() ==> self@.streams.dom().contains(stream_ids@[j])
                        && self@.streams[stream_ids@[j]] == before.streams[stream_ids@[j]],
            decreases streams@.len() - k,
        {
            let ghost id = stream_ids@[k as int];
            proof {
                assert(before.bulk_cancel_item_error(sender, id) is None);
                crate::registry::lemma_stored_stream(before, id);
                assert(streams@[k as int] == before.streams[id]);
            }
            self.bulk_cancel_one(&streams[k], now);
            assert forall|j: int| #![trigger stream_ids@[j]]
                k + 1 <= j < stream_ids@.len() implies self@.streams.dom().contains(stream_ids@[j])
                && self@.streams[stream_ids@[j]] == before.streams[stream_ids@[j]] by {
                assert(stream_ids@[k as int] != stream_ids@[j]);
            }
            k += 1;
        }
        if refund > 0 {
            self.push_token(sender, refund);
        }
        Ok(())
    }
}

} // verus!
