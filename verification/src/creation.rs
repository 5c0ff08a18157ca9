//! Making new streams.

use crate::events::{Event, StreamCreated};
use crate::state::{Call, ContractState, FluxoraStream};
use crate::types::{
    share_option, Address, ContractError, CreateStreamParams, CreateStreamRelativeParams,
    CreateStreamResult, Metadata, PoolShare, Stream, StreamKind, StreamStatus, Bytes,
};
use std::rc::Rc;
use vstd::prelude::*;

verus! {

/// The longest memo, in bytes.
pub const MAX_MEMO_BYTES: usize = 256;

/// The most metadata entries.
pub const MAX_METADATA_KEYS: u32 = 8;

/// The most metadata bytes, keys and values together.
pub const MAX_METADATA_BYTES: u32 = 512;

/// The longest metadata key, in bytes.
pub const MAX_METADATA_KEY_BYTES: u32 = 32;

/// The longest metadata value, in bytes.
pub const MAX_METADATA_VALUE_BYTES: u32 = 128;

/// The most recipients of a pooled stream.
pub const MAX_POOL_RECIPIENTS: u32 = 100;

/// The bytes of the first `n` metadata entries together.
pub open spec fn metadata_bytes(entries: Seq<(Vec<u8>, Vec<u8>)>, n: int) -> int
    decreases n,
{
    if n <= 0 {
        0
    } else {
        metadata_bytes(entries, n - 1) + entries[n - 1].0@.len() + entries[n - 1].1@.len()
    }
}

impl Metadata {
    /// Whether the metadata is small enough to be stored.
    pub open spec fn fits(self) -> bool {
        &&& self@.len() <= MAX_METADATA_KEYS
        &&& forall|i: int| #![trigger self@[i]]
            0 <= i < self@.len() ==> self@[i].0@.len() <= MAX_METADATA_KEY_BYTES
                && self@[i].1@.len() <= MAX_METADATA_VALUE_BYTES
        &&& metadata_bytes(self@, self@.len() as int) <= MAX_METADATA_BYTES
    }
}

/// Refuses metadata that is too large to be stored.
pub fn validate_metadata(metadata: &Metadata) -> (r: Result<(), ContractError>)
    ensures
        r == if metadata.fits() {
            Ok::<(), ContractError>(())
        } else {
            Err(ContractError::MetadataTooLarge)
        },
{
    let entries = metadata.entries();
    if entries.len() > MAX_METADATA_KEYS as usize {
        return Err(ContractError::MetadataTooLarge);
    }
    let mut total: usize = 0;
    let mut i: usize = 0;
    while i < entries.len()
        invariant
            entries@ == metadata@,
            i <= entries@.len() <= MAX_METADATA_KEYS,
            total == metadata_bytes(entries@, i as int),
            total <= i * 160,
            forall|j: int| #![trigger entries@[j]]
                0 <= j < i ==> entries@[j].0@.len() <= MAX_METADATA_KEY_BYTES
                    && entries@[j].1@.len() <= MAX_METADATA_VALUE_BYTES,
        decreases entries@.len() - i,
    {
        let key: usize = entries[i].0.len();
        let value: usize = entries[i].1.len();
        if key > MAX_METADATA_KEY_BYTES as usize || value > MAX_METADATA_VALUE_BYTES as usize {
            assert(!metadata.fits()) by {
                let _entry = entries@[i as int];
            }
            return Err(ContractError::MetadataTooLarge);
        }
        total = total + key + value;
        i += 1;
    }
    if total > MAX_METADATA_BYTES as usize {
        return Err(ContractError::MetadataTooLarge);
    }
    Ok(())
}

/// Why a memo and metadata cannot be stored.
pub open spec fn payload_error(memo: Option<Bytes>, metadata: Option<Rc<Metadata>>) -> Option<
    ContractError,
> {
    if memo is Some && memo->0@.len() > MAX_MEMO_BYTES {
        Some(ContractError::InvalidParams)
    } else if metadata is Some && !metadata->0.fits() {
        Some(ContractError::MetadataTooLarge)
    } else {
        None
    }
}

/// Refuses a memo or metadata that cannot be stored.
pub(crate) fn validate_payload(memo: &Option<Bytes>, metadata: &Option<Rc<Metadata>>) -> (r: Result<
    (),
    ContractError,
>)
    ensures
        match payload_error(*memo, *metadata) {
            Some(e) => r == Err::<(), ContractError>(e),
            None => r == Ok::<(), ContractError>(()),
        },
{
    if let Some(m) = memo {
        if m.len() > MAX_MEMO_BYTES {
            return Err(ContractError::InvalidParams);
        }
    }
    if let Some(md) = metadata {
        return validate_metadata(md);
    }
    Ok(())
}

/// What a schedule can stream at most, before the deposit limits it.
pub open spec fn streamable(
    rate: int,
    start_time: u64,
    cliff_time: u64,
    end_time: u64,
    kind: StreamKind,
) -> int {
    match kind {
        StreamKind::Linear => rate * (end_time - start_time),
        StreamKind::CliffSlope => rate * (end_time - cliff_time),
        StreamKind::CliffOnly => 0,
    }
}

/// Why a schedule is refused. Amounts come first, then the parties, then the
/// times, then the cover.
pub open spec fn schedule_error(
    max_rate: i128,
    sender: Address,
    recipient: Address,
    deposit_amount: i128,
    rate_per_second: i128,
    now: u64,
    start_time: u64,
    cliff_time: u64,
    end_time: u64,
    kind: StreamKind,
) -> Option<ContractError> {
    let total = streamable(rate_per_second as int, start_time, cliff_time, end_time, kind);
    if deposit_amount <= 0 {
        Some(ContractError::InvalidParams)
    } else if kind == StreamKind::CliffOnly && rate_per_second != 0 {
        Some(ContractError::InvalidParams)
    } else if kind != StreamKind::CliffOnly && (rate_per_second <= 0 || rate_per_second
        > max_rate) {
        Some(ContractError::InvalidParams)
    } else if sender == recipient || start_time >= end_time {
        Some(ContractError::InvalidParams)
    } else if start_time < now {
        Some(ContractError::StartTimeInPast)
    } else if cliff_time < start_time || cliff_time > end_time {
        Some(ContractError::InvalidParams)
    } else if total > i128::MAX {
        Some(ContractError::InvalidParams)
    } else if deposit_amount < total {
        Some(ContractError::InsufficientDeposit)
    } else {
        None
    }
}

impl CreateStreamParams {
    /// The rate that the stream gets: a cliff-only stream has none.
    pub open spec fn effective_rate(self) -> i128 {
        if self.kind == StreamKind::CliffOnly {
            0
        } else {
            self.rate_per_second
        }
    }

    /// Why the schedule is refused.
    pub open spec fn error(self, max_rate: i128, sender: Address, now: u64) -> Option<
        ContractError,
    > {
        schedule_error(
            max_rate,
            sender,
            self.recipient,
            self.deposit_amount,
            self.effective_rate(),
            now,
            self.start_time,
            self.cliff_time,
            self.end_time,
            self.kind,
        )
    }

    /// Why an entry of a batch whose entries fail independently is refused,
    /// whatever becomes of its deposit.
    pub open spec fn entry_error(self, max_rate: i128, sender: Address, now: u64) -> Option<
        ContractError,
    > {
        match self.error(max_rate, sender, now) {
            Some(e) => Some(e),
            None => self.payload_error(),
        }
    }

    /// Why the memo or the metadata is refused.
    pub open spec fn payload_error(self) -> Option<ContractError> {
        payload_error(self.memo, self.metadata)
    }

    /// The dust threshold that the stream gets.
    pub open spec fn dust(self) -> i128 {
        match self.withdraw_dust_threshold {
            Some(threshold) => threshold,
            None => 0,
        }
    }

    /// The stream that comes of the parameters.
    pub open spec fn stream(self, stream_id: u64, sender: Address) -> Stream {
        Stream {
            stream_id,
            sender,
            recipient: self.recipient,
            claim_owner: None,
            deposit_amount: self.deposit_amount,
            rate_per_second: self.effective_rate(),
            start_time: self.start_time,
            cliff_time: self.cliff_time,
            end_time: self.end_time,
            withdrawn_amount: 0,
            status: StreamStatus::Active,
            cancelled_at: None,
            checkpointed_amount: 0,
            checkpointed_at: self.start_time,
            withdraw_dust_threshold: self.dust(),
            last_pause_toggle_ledger: 0,
            last_withdraw_ledger: 0,
            last_rate_change_ledger: 0,
            is_pooled: None,
            metadata: self.metadata,
            memo: self.memo,
            kind: self.kind,
            irrevocable: self.irrevocable,
            witness: self.witness,
            delegation_depth: 0,
            parent_stream_id: None,
        }
    }
}

/// The announcement of a new stream.
pub open spec fn created_event(stream: Stream) -> Event {
    Event::Created(
        StreamCreated {
            stream_id: stream.stream_id,
            sender: stream.sender,
            recipient: stream.recipient,
            deposit_amount: stream.deposit_amount,
            rate_per_second: stream.rate_per_second,
            start_time: stream.start_time,
            cliff_time: stream.cliff_time,
            end_time: stream.end_time,
            withdraw_dust_threshold: stream.withdraw_dust_threshold,
            memo: stream.memo,
            metadata: stream.metadata,
        },
    )
}

impl ContractState {
    /// Identifiers and index entries for `n` more streams fit their types.
    pub open spec fn room_for(self, sender: Address, recipient: Address, n: int) -> bool {
        &&& self.next_stream_id + n <= u64::MAX
        &&& crate::state::listed(self.recipient_streams, recipient).len() + n <= u32::MAX
        &&& crate::state::listed(self.sender_streams, sender).len() + n <= u32::MAX
    }

    /// The state with a stream entered into both indexes.
    pub open spec fn enter(self, sender: Address, recipient: Address, id: u64) -> Self {
        ContractState {
            recipient_streams: crate::state::enlist(self.recipient_streams, recipient, id),
            sender_streams: crate::state::enlist(self.sender_streams, sender, id),
            ..self
        }
    }

    /// The state with a new stream of `sender`.
    pub open spec fn register(self, sender: Address, params: CreateStreamParams) -> Self {
        let id = self.fresh_id(sender);
        let stream = params.stream(id, sender);
        self.take_id(sender).put(stream).enter(sender, params.recipient, id).owe(
            params.deposit_amount,
        ).emit(created_event(stream))
    }

    /// Why a new stream is refused.
    pub open spec fn create_error(
        self,
        call: Call,
        sender: Address,
        params: CreateStreamParams,
    ) -> Option<ContractError> {
        if !call.authorised(sender) {
            Some(ContractError::Unauthorized)
        } else if self.creation_blocked() {
            Some(ContractError::ContractPaused)
        } else {
            match params.error(self.max_rate_per_second, sender, call.timestamp) {
                Some(e) => Some(e),
                None => if self.config is None {
                    Some(ContractError::InvalidState)
                } else {
                    params.payload_error()
                },
            }
        }
    }

    /// The state after a new stream was made and paid for.
    pub open spec fn create_step(self, sender: Address, params: CreateStreamParams) -> Self {
        self.pull(sender, params.deposit_amount).register(sender, params)
    }

    /// The state after the first `n` streams of a batch were made.
    pub open spec fn register_all(
        self,
        sender: Address,
        params: Seq<CreateStreamParams>,
        n: int,
    ) -> Self
        decreases n,
    {
        if n <= 0 {
            self
        } else {
            self.register_all(sender, params, n - 1).register(sender, params[n - 1])
        }
    }

    /// The identifiers of the first `n` streams of a batch.
    pub open spec fn batch_ids(
        self,
        sender: Address,
        params: Seq<CreateStreamParams>,
        n: int,
    ) -> Seq<u64> {
        Seq::new(n as nat, |i: int| self.register_all(sender, params, i).fresh_id(sender))
    }

    /// Why one of the first `n` schedules of a batch is refused, or their
    /// deposits together.
    pub open spec fn batch_error(
        self,
        sender: Address,
        now: u64,
        params: Seq<CreateStreamParams>,
        n: int,
    ) -> Option<ContractError>
        decreases n,
    {
        if n <= 0 {
            None
        } else {
            match self.batch_error(sender, now, params, n - 1) {
                Some(e) => Some(e),
                None => match params[n - 1].error(self.max_rate_per_second, sender, now) {
                    Some(e) => Some(e),
                    None => if total_deposit(params, n) > i128::MAX {
                        Some(ContractError::ArithmeticOverflow)
                    } else {
                        None
                    },
                },
            }
        }
    }

    /// Why a batch of new streams is refused.
    pub open spec fn create_all_error(
        self,
        call: Call,
        sender: Address,
        params: Seq<CreateStreamParams>,
    ) -> Option<ContractError> {
        if !call.authorised(sender) {
            Some(ContractError::Unauthorized)
        } else if params.len() == 0 {
            None
        } else if self.creation_blocked() {
            Some(ContractError::ContractPaused)
        } else {
            match self.batch_error(sender, call.timestamp, params, params.len() as int) {
                Some(e) => Some(e),
                None => if self.config is None {
                    Some(ContractError::InvalidState)
                } else {
                    batch_payload_error(params, params.len() as int)
                },
            }
        }
    }

    /// The state after a batch of new streams was made and paid for at once.
    pub open spec fn create_all_step(
        self,
        sender: Address,
        params: Seq<CreateStreamParams>,
    ) -> Self {
        if params.len() == 0 {
            self
        } else {
            self.pull(
                sender,
                total_deposit(params, params.len() as int) as i128,
            ).register_all(sender, params, params.len() as int)
        }
    }

    /// The outcome of one entry of a batch whose entries fail independently.
    pub open spec fn partial_outcome(
        self,
        sender: Address,
        now: u64,
        params: CreateStreamParams,
        transferred: bool,
    ) -> Result<u64, ContractError> {
        match params.entry_error(self.max_rate_per_second, sender, now) {
            Some(e) => Err(e),
            None => if !transferred || self.config is None {
                Err(ContractError::InsufficientBalance)
            } else {
                Ok(self.fresh_id(sender))
            },
        }
    }

    /// The state after the first `n` entries of a batch whose entries fail
    /// independently.
    pub open spec fn partial_step(
        self,
        sender: Address,
        now: u64,
        params: Seq<CreateStreamParams>,
        transfers: Seq<bool>,
        n: int,
    ) -> Self
        decreases n,
    {
        if n <= 0 {
            self
        } else {
            let s = self.partial_step(sender, now, params, transfers, n - 1);
            match s.partial_outcome(sender, now, params[n - 1], transfers[n - 1]) {
                Ok(_) => s.register(sender, params[n - 1]),
                Err(_) => s,
            }
        }
    }
}

/// What the first `n` streams of a batch are funded with.
pub open spec fn total_deposit(params: Seq<CreateStreamParams>, n: int) -> int
    decreases n,
{
    if n <= 0 {
        0
    } else {
        total_deposit(params, n - 1) + params[n - 1].deposit_amount
    }
}

/// Why one of the first `n` memos or metadata of a batch is refused.
pub open spec fn batch_payload_error(params: Seq<CreateStreamParams>, n: int) -> Option<
    ContractError,
>
    decreases n,
{
    if n <= 0 {
        None
    } else {
        match batch_payload_error(params, n - 1) {
            Some(e) => Some(e),
            None => params[n - 1].payload_error(),
        }
    }
}

/// How an outcome is reported in a batch.
pub open spec fn reported(outcome: Result<u64, ContractError>) -> CreateStreamResult {
    match outcome {
        Ok(id) => CreateStreamResult { success: true, stream_id: Some(id), error: None },
        Err(e) => CreateStreamResult {
            success: false,
            stream_id: None,
            error: Some(e.spec_code()),
        },
    }
}

impl FluxoraStream {
    /// Refuses a schedule that cannot be streamed.
    pub(crate) fn validate_stream_params(
        &self,
        sender: Address,
        recipient: Address,
        deposit_amount: i128,
        rate_per_second: i128,
        now: u64,
        start_time: u64,
        cliff_time: u64,
        end_time: u64,
        kind: StreamKind,
    ) -> (r: Result<(), ContractError>)
        ensures
            match schedule_error(
                self@.max_rate_per_second,
                sender,
                recipient,
                deposit_amount,
                rate_per_second,
                now,
                start_time,
                cliff_time,
                end_time,
                kind,
            ) {
                Some(e) => r == Err::<(), ContractError>(e),
                None => r == Ok::<(), ContractError>(()),
            },
    {
        if deposit_amount <= 0 {
            return Err(ContractError::InvalidParams);
        }
        match kind {
            StreamKind::Linear | StreamKind::CliffSlope => {
                if rate_per_second <= 0 || rate_per_second > self.max_rate_per_second {
                    return Err(ContractError::InvalidParams);
                }
            },
            StreamKind::CliffOnly => {
                if rate_per_second != 0 {
                    return Err(ContractError::InvalidParams);
                }
            },
        }
        if sender == recipient || start_time >= end_time {
            return Err(ContractError::InvalidParams);
        }
        if start_time < now {
            return Err(ContractError::StartTimeInPast);
        }
        if cliff_time < start_time || cliff_time > end_time {
            return Err(ContractError::InvalidParams);
        }
        let seconds: u64 = match kind {
            StreamKind::Linear => end_time - start_time,
            StreamKind::CliffSlope => end_time - cliff_time,
            StreamKind::CliffOnly => {
                return Ok(());
            },
        };
        assert(rate_per_second * seconds >= 0) by (nonlinear_arith)
            requires
                rate_per_second > 0,
                seconds >= 0,
        ;
        match rate_per_second.checked_mul(seconds as i128) {
            None => Err(ContractError::InvalidParams),
            Some(total) => if deposit_amount < total {
                Err(ContractError::InsufficientDeposit)
            } else {
                Ok(())
            },
        }
    }

    /// Refuses an entry whose schedule cannot be streamed.
    pub fn validate_entry(
        &self,
        sender: Address,
        params: &CreateStreamParams,
        now: u64,
    ) -> (r: Result<(), ContractError>)
        ensures
            match params.error(self@.max_rate_per_second, sender, now) {
                Some(e) => r == Err::<(), ContractError>(e),
                None => r == Ok::<(), ContractError>(()),
            },
    {
        let rate: i128 = if params.kind == StreamKind::CliffOnly {
            0
        } else {
            params.rate_per_second
        };
        self.validate_stream_params(
            sender,
            params.recipient,
            params.deposit_amount,
            rate,
            now,
            params.start_time,
            params.cliff_time,
            params.end_time,
            params.kind,
        )
    }

    /// Refuses an entry that cannot be streamed or stored, before its deposit
    /// is asked for.
    pub fn admit_entry(&self, sender: Address, params: &CreateStreamParams, now: u64) -> (r: Result<
        (),
        ContractError,
    >)
        ensures
            match params.entry_error(self@.max_rate_per_second, sender, now) {
                Some(e) => r == Err::<(), ContractError>(e),
                None => r == Ok::<(), ContractError>(()),
            },
    {
        if let Err(e) = self.validate_entry(sender, params, now) {
            return Err(e);
        }
        validate_payload(&params.memo, &params.metadata)
    }

    /// Enters a stream into both indexes.
    pub(crate) fn enter(&mut self, sender: Address, recipient: Address, id: u64)
        requires
            old(self)@.wf(),
            old(self)@.streams.dom().contains(id),
            old(self)@.streams[id].sender == sender,
            old(self)@.streams[id].recipient == recipient,
            crate::state::listed(old(self)@.recipient_streams, recipient).len() < u32::MAX,
            crate::state::listed(old(self)@.sender_streams, sender).len() < u32::MAX,
        ensures
            final(self)@ == old(self)@.enter(sender, recipient, id),
            final(self)@.wf(),
    {
        proof {
            crate::registry::lemma_stored_stream(self@, id);
            crate::registry::lemma_lists_ascend(self@, recipient);
            crate::registry::lemma_lists_ascend(self@, sender);
            crate::registry::lemma_enlist_recipient(self@, recipient, id);
        }
        crate::ops::enlist(&mut self.recipient_streams, &self.host, recipient, id);
        proof {
            crate::registry::lemma_enlist_sender(self@, sender, id);
        }
        crate::ops::enlist(&mut self.sender_streams, &self.host, sender, id);
    }

    /// Announces a new stream.
    pub(crate) fn announce_created(&mut self, stream: &Stream)
        ensures
            final(self)@ == old(self)@.emit(created_event(*stream)),
    {
        self.emit(
            Event::Created(
                StreamCreated {
                    stream_id: stream.stream_id,
                    sender: stream.sender,
                    recipient: stream.recipient,
                    deposit_amount: stream.deposit_amount,
                    rate_per_second: stream.rate_per_second,
                    start_time: stream.start_time,
                    cliff_time: stream.cliff_time,
                    end_time: stream.end_time,
                    withdraw_dust_threshold: stream.withdraw_dust_threshold,
                    memo: share_option(&stream.memo),
                    metadata: share_option(&stream.metadata),
                },
            ),
        );
    }

    /// Stores a new stream and enters it into the indexes and the books.
    pub(crate) fn persist_new_stream(
        &mut self,
        sender: Address,
        params: &CreateStreamParams,
    ) -> (r: u64)
        requires
            old(self)@.wf(),
            old(self)@.config is Some,
            old(self)@.room_for(sender, params.recipient, 1),
            params.deposit_amount >= 0,
            params.effective_rate() >= 0,
            params.start_time < params.end_time,
            params.start_time <= params.cliff_time <= params.end_time,
        ensures
            r == old(self)@.fresh_id(sender),
            final(self)@ == old(self)@.register(sender, *params),
            final(self)@.wf(),
    {
        let stream_id: u64 = self.next_stream_id_for(sender);
        let rate: i128 = if params.kind == StreamKind::CliffOnly {
            0
        } else {
            params.rate_per_second
        };
        let dust: i128 = match params.withdraw_dust_threshold {
            Some(threshold) => threshold,
            None => 0,
        };
        let stream = Stream {
            stream_id,
            sender,
            recipient: params.recipient,
            claim_owner: None,
            deposit_amount: params.deposit_amount,
            rate_per_second: rate,
            start_time: params.start_time,
            cliff_time: params.cliff_time,
            end_time: params.end_time,
            withdrawn_amount: 0,
            status: StreamStatus::Active,
            cancelled_at: None,
            checkpointed_amount: 0,
            checkpointed_at: params.start_time,
            withdraw_dust_threshold: dust,
            last_pause_toggle_ledger: 0,
            last_withdraw_ledger: 0,
            last_rate_change_ledger: 0,
            is_pooled: None,
            metadata: share_option(&params.metadata),
            memo: share_option(&params.memo),
            kind: params.kind,
            irrevocable: params.irrevocable,
            witness: params.witness,
            delegation_depth: 0,
            parent_stream_id: None,
        };
        assert(stream == params.stream(stream_id, sender));
        proof {
            crate::registry::lemma_put_new(self@, stream);
        }
        crate::ops::save_stream(self, &stream);
        self.enter(sender, params.recipient, stream_id);
        self.owe(params.deposit_amount);
        self.announce_created(&stream);
        stream_id
    }

    /// Makes a stream from `sender` to the recipient and takes the deposit.
    pub fn create_stream(
        &mut self,
        call: &Call,
        sender: Address,
        params: &CreateStreamParams,
    ) -> (r: Result<u64, ContractError>)
        requires
            old(self)@.wf(),
            old(self)@.room_for(sender, params.recipient, 1),
        ensures
            final(self)@.wf(),
            match old(self)@.create_error(*call, sender, *params) {
                Some(e) => r == Err::<u64, ContractError>(e) && final(self)@ == old(self)@,
                None => {
                    &&& r == Ok::<u64, ContractError>(old(self)@.fresh_id(sender))
                    &&& final(self)@ == old(self)@.create_step(sender, *params)
                },
            },
    {
        if !call.is_signed_by(sender) {
            return Err(ContractError::Unauthorized);
        }
        if self.emergency_paused || self.creation_paused {
            return Err(ContractError::ContractPaused);
        }
        if let Err(e) = self.validate_entry(sender, params, call.timestamp) {
            return Err(e);
        }
        if self.config.is_none() {
            return Err(ContractError::InvalidState);
        }
        if let Err(e) = validate_payload(&params.memo, &params.metadata) {
            return Err(e);
        }
        self.pull_token(sender, params.deposit_amount);
        Ok(self.persist_new_stream(sender, params))
    }
}

/// A new stream uses up room for one.
pub proof fn lemma_register_room(
    s: ContractState,
    sender: Address,
    params: CreateStreamParams,
    who: Address,
    n: int,
)
    requires
        s.wf(),
        s.room_for(sender, who, n),
        n >= 1,
    ensures
        s.register(sender, params).room_for(sender, who, n - 1),
{
    let id = s.fresh_id(sender);
    crate::registry::lemma_lists_ascend(s, who);
    crate::registry::lemma_lists_ascend(s, sender);
    crate::index::lemma_with_id(crate::state::listed(s.recipient_streams, who), id);
    crate::index::lemma_with_id(crate::state::listed(s.sender_streams, sender), id);
}

/// A batch without an error so far has none in a shorter part.
proof fn lemma_batch_prefix(
    s: ContractState,
    sender: Address,
    now: u64,
    params: Seq<CreateStreamParams>,
    i: int,
    n: int,
)
    requires
        0 <= i <= n,
        s.batch_error(sender, now, params, i) is Some,
    ensures
        s.batch_error(sender, now, params, n) == s.batch_error(sender, now, params, i),
    decreases n - i,
{
    if i < n {
        lemma_batch_prefix(s, sender, now, params, i, n - 1);
    }
}

/// An early refusal of a memo or of metadata stands.
proof fn lemma_payload_prefix(params: Seq<CreateStreamParams>, i: int, n: int)
    requires
        0 <= i <= n,
        batch_payload_error(params, i) is Some,
    ensures
        batch_payload_error(params, n) == batch_payload_error(params, i),
    decreases n - i,
{
    if i < n {
        lemma_payload_prefix(params, i, n - 1);
    }
}

/// No entry of an accepted batch is refused.
proof fn lemma_batch_ok(
    s: ContractState,
    sender: Address,
    now: u64,
    params: Seq<CreateStreamParams>,
    n: int,
)
    requires
        0 <= n,
        s.batch_error(sender, now, params, n) is None,
    ensures
        forall|i: int|
            0 <= i < n ==> (#[trigger] params[i]).error(s.max_rate_per_second, sender, now) is None,
        0 <= total_deposit(params, n) <= i128::MAX,
        n > 0 ==> total_deposit(params, n) > 0,
    decreases n,
{
    if n > 0 {
        lemma_batch_ok(s, sender, now, params, n - 1);
    }
}

impl FluxoraStream {
    /// Makes several streams of one sender at once: all of them, or none. One
    /// payment covers all deposits.
    pub fn create_streams(
        &mut self,
        call: &Call,
        sender: Address,
        streams: &Vec<CreateStreamParams>,
    ) -> (r: Result<Vec<u64>, ContractError>)
        requires
            old(self)@.wf(),
            forall|i: int| #![trigger streams@[i]]
                0 <= i < streams@.len() ==> old(self)@.room_for(
                    sender,
                    streams@[i].recipient,
                    streams@.len() as int,
                ),
        ensures
            final(self)@.wf(),
            match old(self)@.create_all_error(*call, sender, streams@) {
                Some(e) => r == Err::<Vec<u64>, ContractError>(e) && final(self)@ == old(self)@,
                None => {
                    &&& r is Ok
                    &&& r->Ok_0@ == old(self)@.batch_ids(
                        sender,
                        streams@,
                        streams@.len() as int,
                    )
                    &&& final(self)@ == old(self)@.create_all_step(sender, streams@)
                },
            },
    {
        if !call.is_signed_by(sender) {
            return Err(ContractError::Unauthorized);
        }
        let mut ids: Vec<u64> = Vec::new();
        if streams.len() == 0 {
            return Ok(ids);
        }
        if self.emergency_paused || self.creation_paused {
            return Err(ContractError::ContractPaused);
        }
        let mut total: i128 = 0;
        let mut i: usize = 0;
        while i < streams.len()
            invariant
                i <= streams@.len(),
                self@ == old(self)@,
                self@.wf(),
                self@.batch_error(sender, call.timestamp, streams@, i as int) is None,
                total == total_deposit(streams@, i as int),
                total >= 0,
                call.authorised(sender),
                streams@.len() > 0,
                !self@.creation_blocked(),
            decreases streams@.len() - i,
        {
            proof {
                if self@.batch_error(sender, call.timestamp, streams@, i + 1) is Some {
                    lemma_batch_prefix(
                        self@,
                        sender,
                        call.timestamp,
                        streams@,
                        i + 1,
                        streams@.len() as int,
                    );
                }
            }
            if let Err(e) = self.validate_entry(sender, &streams[i], call.timestamp) {
                return Err(e);
            }
            total =
            match total.checked_add(streams[i].deposit_amount) {
                Some(sum) => sum,
                None => {
                    return Err(ContractError::ArithmeticOverflow);
                },
            };
            i += 1;
        }
        if self.config.is_none() {
            return Err(ContractError::InvalidState);
        }
        let mut j: usize = 0;
        while j < streams.len()
            invariant
                j <= streams@.len(),
                self@ == old(self)@,
                self@.wf(),
                self@.batch_error(
                    sender,
                    call.timestamp,
                    streams@,
                    streams@.len() as int,
                ) is None,
                batch_payload_error(streams@, j as int) is None,
                self@.config is Some,
                call.authorised(sender),
                streams@.len() > 0,
                !self@.creation_blocked(),
            decreases streams@.len() - j,
        {
            proof {
                if batch_payload_error(streams@, j + 1) is Some {
                    lemma_payload_prefix(streams@, j + 1, streams@.len() as int);
                }
            }
            if let Err(e) = validate_payload(&streams[j].memo, &streams[j].metadata) {
                return Err(e);
            }
            j += 1;
        }
        let ghost before = self@;
        proof {
            lemma_batch_ok(before, sender, call.timestamp, streams@, streams@.len() as int);
        }
        self.pull_token(sender, total);
        let ghost base = self@;
        let mut k: usize = 0;
        while k < streams.len()
            invariant
                k <= streams@.len(),
                self@.wf(),
                self@ == base.register_all(sender, streams@, k as int),
                ids@ == base.batch_ids(sender, streams@, k as int),
                self@.config is Some,
                forall|i: int|
                    0 <= i < streams@.len() ==> (#[trigger] streams@[i]).error(
                        before.max_rate_per_second,
                        sender,
                        call.timestamp,
                    ) is None,
                forall|i: int| #![trigger streams@[i]]
                    0 <= i < streams@.len() ==> self@.room_for(
                        sender,
                        streams@[i].recipient,
                        streams@.len() - k,
                    ),
            decreases streams@.len() - k,
        {
            proof {
                assert(streams@[k as int].error(
                    before.max_rate_per_second,
                    sender,
                    call.timestamp,
                ) is None);
                assert forall|i: int| #![trigger streams@[i]]
                    0 <= i < streams@.len() implies self@.register(
                    sender,
                    streams@[k as int],
                ).room_for(sender, streams@[i].recipient, streams@.len() - k - 1) by {
                    lemma_register_room(
                        self@,
                        sender,
                        streams@[k as int],
                        streams@[i].recipient,
                        streams@.len() - k,
                    );
                }
            }
            let id: u64 = self.persist_new_stream(sender, &streams[k]);
            ids.push(id);
            k += 1;
            assert(ids@ =~= base.batch_ids(sender, streams@, k as int));
        }
        proof {
            lemma_batch_ids_pull(
                before,
                sender,
                total,
                streams@,
                streams@.len() as int,
            );
        }
        Ok(ids)
    }
}

/// A payment does not change which identifiers a batch gets.
proof fn lemma_batch_ids_pull(
    s: ContractState,
    sender: Address,
    amount: i128,
    params: Seq<CreateStreamParams>,
    n: int,
)
    requires
        n >= 0,
    ensures
        s.pull(sender, amount).batch_ids(sender, params, n) == s.batch_ids(sender, params, n),
{
    let t = s.pull(sender, amount);
    assert forall|i: int| 0 <= i < n implies t.register_all(sender, params, i).fresh_id(sender)
        == s.register_all(sender, params, i).fresh_id(sender) by {
        lemma_register_all_pull(s, sender, amount, params, i);
    }
    assert(t.batch_ids(sender, params, n) =~= s.batch_ids(sender, params, n));
}

proof fn lemma_register_all_pull(
    s: ContractState,
    sender: Address,
    amount: i128,
    params: Seq<CreateStreamParams>,
    n: int,
)
    requires
        n >= 0,
    ensures
        s.pull(sender, amount).register_all(sender, params, n).reservations == s.register_all(
            sender,
            params,
            n,
        ).reservations,
        s.pull(sender, amount).register_all(sender, params, n).next_stream_id == s.register_all(
            sender,
            params,
            n,
        ).next_stream_id,
    decreases n,
{
    if n > 0 {
        lemma_register_all_pull(s, sender, amount, params, n - 1);
    }
}

impl CreateStreamRelativeParams {
    /// Whether every moment of the schedule exists, counted from `now`.
    pub open spec fn datable(self, now: u64) -> bool {
        &&& now + self.start_delay + self.duration <= u64::MAX
        &&& now + self.cliff_delay <= u64::MAX
    }

    /// The same parameters with absolute times, counted from `now`.
    pub open spec fn dated(self, now: u64) -> CreateStreamParams {
        CreateStreamParams {
            recipient: self.recipient,
            deposit_amount: self.deposit_amount,
            rate_per_second: if self.kind == StreamKind::CliffOnly {
                0
            } else {
                self.rate_per_second
            },
            start_time: (now + self.start_delay) as u64,
            cliff_time: (now + self.cliff_delay) as u64,
            end_time: (now + self.start_delay + self.duration) as u64,
            withdraw_dust_threshold: self.withdraw_dust_threshold,
            memo: self.memo,
            metadata: self.metadata,
            kind: self.kind,
            irrevocable: self.irrevocable,
            witness: None,
        }
    }

    /// The same parameters with absolute times, counted from `now`.
    pub(crate) fn absolute(&self, now: u64) -> (r: Option<CreateStreamParams>)
        ensures
            r == if self.datable(now) {
                Some(self.dated(now))
            } else {
                None
            },
    {
        let start_time: u64 = match now.checked_add(self.start_delay) {
            Some(t) => t,
            None => {
                return None;
            },
        };
        let cliff_time: u64 = match now.checked_add(self.cliff_delay) {
            Some(t) => t,
            None => {
                return None;
            },
        };
        let end_time: u64 = match start_time.checked_add(self.duration) {
            Some(t) => t,
            None => {
                return None;
            },
        };
        let rate: i128 = if self.kind == StreamKind::CliffOnly {
            0
        } else {
            self.rate_per_second
        };
        Some(
            CreateStreamParams {
                recipient: self.recipient,
                deposit_amount: self.deposit_amount,
                rate_per_second: rate,
                start_time,
                cliff_time,
                end_time,
                withdraw_dust_threshold: self.withdraw_dust_threshold,
                memo: share_option(&self.memo),
                metadata: share_option(&self.metadata),
                kind: self.kind,
                irrevocable: self.irrevocable,
                witness: None,
            },
        )
    }
}

/// A batch with absolute times, counted from `now`.
pub open spec fn dated_batch(params: Seq<CreateStreamRelativeParams>, now: u64) -> Seq<
    CreateStreamParams,
> {
    Seq::new(params.len(), |i: int| params[i].dated(now))
}

/// Whether every moment of every schedule in the batch exists.
pub open spec fn datable_batch(params: Seq<CreateStreamRelativeParams>, now: u64) -> bool {
    forall|i: int| 0 <= i < params.len() ==> (#[trigger] params[i]).datable(now)
}

impl ContractState {
    /// Why a new stream with relative times is refused.
    pub open spec fn create_relative_error(
        self,
        call: Call,
        sender: Address,
        params: CreateStreamRelativeParams,
    ) -> Option<ContractError> {
        if params.datable(call.timestamp) {
            self.create_error(call, sender, params.dated(call.timestamp))
        } else {
            Some(ContractError::InvalidParams)
        }
    }

    /// Why a batch of new streams with relative times is refused.
    pub open spec fn create_all_relative_error(
        self,
        call: Call,
        sender: Address,
        params: Seq<CreateStreamRelativeParams>,
    ) -> Option<ContractError> {
        if params.len() == 0 {
            None
        } else if datable_batch(params, call.timestamp) {
            self.create_all_error(call, sender, dated_batch(params, call.timestamp))
        } else {
            Some(ContractError::InvalidParams)
        }
    }

    /// Why a batch whose entries fail independently is refused as a whole.
    pub open spec fn create_partial_error(
        self,
        call: Call,
        sender: Address,
        params: Seq<CreateStreamParams>,
    ) -> Option<ContractError> {
        if !call.authorised(sender) {
            Some(ContractError::Unauthorized)
        } else if params.len() > 0 && self.creation_blocked() {
            Some(ContractError::ContractPaused)
        } else {
            None
        }
    }

    /// Why a new pooled stream is refused. The funding address stands in for
    /// the recipient.
    pub open spec fn create_pooled_error(
        self,
        call: Call,
        params: CreateStreamParams,
        recipients: Seq<PoolShare>,
    ) -> Option<ContractError> {
        let total = crate::state::share_total(recipients, recipients.len() as int);
        if !call.authorised(params.recipient) {
            Some(ContractError::Unauthorized)
        } else if self.creation_blocked() {
            Some(ContractError::ContractPaused)
        } else if recipients.len() > MAX_POOL_RECIPIENTS {
            Some(ContractError::InvalidParams)
        } else if total > u32::MAX {
            Some(ContractError::ArithmeticOverflow)
        } else if total == 0 {
            Some(ContractError::InvalidParams)
        } else {
            match params.error(self.max_rate_per_second, params.recipient, call.timestamp) {
                Some(e) => Some(e),
                None => if self.config is None {
                    Some(ContractError::InvalidState)
                } else {
                    params.payload_error()
                },
            }
        }
    }

    /// The state after a new pooled stream was made and paid for.
    pub open spec fn create_pooled_step(
        self,
        params: CreateStreamParams,
        recipients: Seq<PoolShare>,
    ) -> Self {
        let sender = params.recipient;
        let id = self.fresh_id(sender);
        let stream = Stream { is_pooled: Some(true), ..params.stream(id, sender) };
        let s = self.pull(sender, params.deposit_amount).take_id(sender).put(stream);
        (ContractState { pool_shares: s.pool_shares.insert(id, recipients), ..s }).owe(
            params.deposit_amount,
        ).emit(created_event(stream))
    }
}

proof fn lemma_share_prefix(shares: Seq<PoolShare>, i: int, n: int)
    requires
        0 <= i <= n <= shares.len(),
    ensures
        0 <= crate::state::share_total(shares, i) <= crate::state::share_total(shares, n),
    decreases n,
{
    if n > 0 && i < n {
        lemma_share_prefix(shares, i, n - 1);
    } else if n > 0 {
        lemma_share_prefix(shares, n - 1, n - 1);
    }
}

impl FluxoraStream {
    /// Makes a stream whose times are counted from the current timestamp.
    pub fn create_stream_relative(
        &mut self,
        call: &Call,
        sender: Address,
        params: &CreateStreamRelativeParams,
    ) -> (r: Result<u64, ContractError>)
        requires
            old(self)@.wf(),
            old(self)@.room_for(sender, params.recipient, 1),
        ensures
            final(self)@.wf(),
            match old(self)@.create_relative_error(*call, sender, *params) {
                Some(e) => r == Err::<u64, ContractError>(e) && final(self)@ == old(self)@,
                None => {
                    &&& r == Ok::<u64, ContractError>(old(self)@.fresh_id(sender))
                    &&& final(self)@ == old(self)@.create_step(
                        sender,
                        params.dated(call.timestamp),
                    )
                },
            },
    {
        match params.absolute(call.timestamp) {
            Some(absolute) => self.create_stream(call, sender, &absolute),
            None => Err(ContractError::InvalidParams),
        }
    }

    /// Makes several streams whose times are counted from the current
    /// timestamp: all of them, or none.
    pub fn create_streams_relative(
        &mut self,
        call: &Call,
        sender: Address,
        streams_relative: &Vec<CreateStreamRelativeParams>,
    ) -> (r: Result<Vec<u64>, ContractError>)
        requires
            old(self)@.wf(),
            forall|i: int| #![trigger streams_relative@[i]]
                0 <= i < streams_relative@.len() ==> old(self)@.room_for(
                    sender,
                    streams_relative@[i].recipient,
                    streams_relative@.len() as int,
                ),
        ensures
            final(self)@.wf(),
            match old(self)@.create_all_relative_error(*call, sender, streams_relative@) {
                Some(e) => r == Err::<Vec<u64>, ContractError>(e) && final(self)@ == old(self)@,
                None => {
                    let dated = dated_batch(streams_relative@, call.timestamp);
                    &&& r is Ok
                    &&& r->Ok_0@ == old(self)@.batch_ids(sender, dated, dated.len() as int)
                    &&& final(self)@ == old(self)@.create_all_step(sender, dated)
                },
            },
    {
        let mut absolute: Vec<CreateStreamParams> = Vec::new();
        if streams_relative.len() == 0 {
            let ids: Vec<u64> = Vec::new();
            return Ok(ids);
        }
        let mut i: usize = 0;
        while i < streams_relative.len()
            invariant
                i <= streams_relative@.len(),
                streams_relative@.len() > 0,
                self@ == old(self)@,
                self@.wf(),
                absolute@.len() == i,
                forall|j: int|
                    0 <= j < i ==> #[trigger] absolute@[j] == streams_relative@[j].dated(
                        call.timestamp,
                    ),
                forall|j: int|
                    0 <= j < i ==> (#[trigger] streams_relative@[j]).datable(call.timestamp),
            decreases streams_relative@.len() - i,
        {
            match streams_relative[i].absolute(call.timestamp) {
                Some(params) => {
                    absolute.push(params);
                },
                None => {
                    assert(!streams_relative@[i as int].datable(call.timestamp));
                    return Err(ContractError::InvalidParams);
                },
            }
            i += 1;
        }
        assert(absolute@ =~= dated_batch(streams_relative@, call.timestamp));
        proof {
            assert forall|j: int| #![trigger absolute@[j]]
                0 <= j < absolute@.len() implies self@.room_for(
                sender,
                absolute@[j].recipient,
                absolute@.len() as int,
            ) by {
                let _params = streams_relative@[j];
            }
        }
        self.create_streams(call, sender, &absolute)
    }

    /// Makes several streams of one sender, each on its own: an entry that
    /// fails is reported and the rest goes on. `transfers` tells for each
    /// entry whether its deposit arrived; it is not looked at where the
    /// schedule is refused.
    pub fn create_streams_partial(
        &mut self,
        call: &Call,
        sender: Address,
        streams: &Vec<CreateStreamParams>,
        transfers: &Vec<bool>,
    ) -> (r: Result<Vec<CreateStreamResult>, ContractError>)
        requires
            old(self)@.wf(),
            transfers@.len() == streams@.len(),
            forall|i: int| #![trigger streams@[i]]
                0 <= i < streams@.len() ==> old(self)@.room_for(
                    sender,
                    streams@[i].recipient,
                    streams@.len() as int,
                ),
        ensures
            final(self)@.wf(),
            match old(self)@.create_partial_error(*call, sender, streams@) {
                Some(e) => {
                    &&& r == Err::<Vec<CreateStreamResult>, ContractError>(e)
                    &&& final(self)@ == old(self)@
                },
                None => {
                    &&& r is Ok
                    &&& r->Ok_0@.len() == streams@.len()
                    &&& forall|i: int| #![trigger r->Ok_0@[i]]
                        0 <= i < streams@.len() ==> r->Ok_0@[i] == reported(
                            old(self)@.partial_step(
                                sender,
                                call.timestamp,
                                streams@,
                                transfers@,
                                i,
                            ).partial_outcome(
                                sender,
                                call.timestamp,
                                streams@[i],
                                transfers@[i],
                            ),
                        )
                    &&& final(self)@ == old(self)@.partial_step(
                        sender,
                        call.timestamp,
                        streams@,
                        transfers@,
                        streams@.len() as int,
                    )
                },
            },
    {
        if !call.is_signed_by(sender) {
            return Err(ContractError::Unauthorized);
        }
        let mut results: Vec<CreateStreamResult> = Vec::new();
        if streams.len() == 0 {
            return Ok(results);
        }
        if self.emergency_paused || self.creation_paused {
            return Err(ContractError::ContractPaused);
        }
        let ghost before = self@;
        let mut i: usize = 0;
        while i < streams.len()
            invariant
                i <= streams@.len(),
                transfers@.len() == streams@.len(),
                self@.wf(),
                self@ == before.partial_step(
                    sender,
                    call.timestamp,
                    streams@,
                    transfers@,
                    i as int,
                ),
                results@.len() == i,
                forall|j: int| #![trigger results@[j]]
                    0 <= j < i ==> results@[j] == reported(
                        before.partial_step(
                            sender,
                            call.timestamp,
                            streams@,
                            transfers@,
                            j,
                        ).partial_outcome(sender, call.timestamp, streams@[j], transfers@[j]),
                    ),
                forall|j: int| #![trigger streams@[j]]
                    0 <= j < streams@.len() ==> self@.room_for(
                        sender,
                        streams@[j].recipient,
                        streams@.len() - i,
                    ),
            decreases streams@.len() - i,
        {
            let ghost here = self@;
            proof {
                assert(here.room_for(sender, streams@[i as int].recipient, streams@.len() - i));
                assert forall|j: int| #![trigger streams@[j]]
                    0 <= j < streams@.len() implies here.register(
                    sender,
                    streams@[i as int],
                ).room_for(sender, streams@[j].recipient, streams@.len() - i - 1) by {
                    lemma_register_room(
                        here,
                        sender,
                        streams@[i as int],
                        streams@[j].recipient,
                        streams@.len() - i,
                    );
                }
            }
            let outcome: Result<u64, ContractError> = match self.admit_entry(
                sender,
                &streams[i],
                call.timestamp,
            ) {
                Err(e) => Err(e),
                Ok(_) => if !transfers[i] || self.config.is_none() {
                    Err(ContractError::InsufficientBalance)
                } else {
                    Ok(self.persist_new_stream(sender, &streams[i]))
                },
            };
            assert(outcome == here.partial_outcome(
                sender,
                call.timestamp,
                streams@[i as int],
                transfers@[i as int],
            ));
            let result = match outcome {
                Ok(id) => CreateStreamResult { success: true, stream_id: Some(id), error: None },
                Err(e) => CreateStreamResult {
                    success: false,
                    stream_id: None,
                    error: Some(e.code()),
                },
            };
            results.push(result);
            i += 1;
        }
        Ok(results)
    }

    /// Makes a stream that several recipients share pro rata. The funding
    /// address stands in for the recipient; as nobody may stream to
    /// themselves, every request is refused in the end.
    pub fn create_pooled_stream(
        &mut self,
        call: &Call,
        sender: Address,
        recipients: Vec<PoolShare>,
        deposit_amount: i128,
        rate_per_second: i128,
        start_time: u64,
        cliff_time: u64,
        end_time: u64,
        withdraw_dust_threshold: i128,
        memo: Option<Bytes>,
        kind: StreamKind,
    ) -> (r: Result<u64, ContractError>)
        requires
            old(self)@.wf(),
            old(self)@.next_stream_id < u64::MAX,
        ensures
            final(self)@.wf(),
            ({
                let params = pooled_params(
                    sender,
                    deposit_amount,
                    rate_per_second,
                    start_time,
                    cliff_time,
                    end_time,
                    withdraw_dust_threshold,
                    memo,
                    kind,
                );
                match old(self)@.create_pooled_error(*call, params, recipients@) {
                    Some(e) => r == Err::<u64, ContractError>(e) && final(self)@ == old(self)@,
                    None => {
                        &&& r == Ok::<u64, ContractError>(old(self)@.fresh_id(sender))
                        &&& final(self)@ == old(self)@.create_pooled_step(params, recipients@)
                    },
                }
            }),
    {
        if !call.is_signed_by(sender) {
            return Err(ContractError::Unauthorized);
        }
        if self.emergency_paused || self.creation_paused {
            return Err(ContractError::ContractPaused);
        }
        if recipients.len() > MAX_POOL_RECIPIENTS as usize {
            return Err(ContractError::InvalidParams);
        }
        let mut total: u32 = 0;
        let mut i: usize = 0;
        while i < recipients.len()
            invariant
                i <= recipients@.len() <= MAX_POOL_RECIPIENTS,
                total == crate::state::share_total(recipients@, i as int),
                self@ == old(self)@,
                self@.wf(),
                call.authorised(sender),
                !self@.creation_blocked(),
            decreases recipients@.len() - i,
        {
            proof {
                lemma_share_prefix(recipients@, i + 1, recipients@.len() as int);
            }
            total =
            match total.checked_add(recipients[i].share) {
                Some(sum) => sum,
                None => {
                    return Err(ContractError::ArithmeticOverflow);
                },
            };
            i += 1;
        }
        if total == 0 {
            return Err(ContractError::InvalidParams);
        }
        let params = CreateStreamParams {
            recipient: sender,
            deposit_amount,
            rate_per_second,
            start_time,
            cliff_time,
            end_time,
            withdraw_dust_threshold: Some(withdraw_dust_threshold),
            memo,
            metadata: None,
            kind,
            irrevocable: None,
            witness: None,
        };
        if let Err(e) = self.validate_entry(sender, &params, call.timestamp) {
            return Err(e);
        }
        if self.config.is_none() {
            return Err(ContractError::InvalidState);
        }
        if let Err(e) = validate_payload(&params.memo, &params.metadata) {
            return Err(e);
        }
        self.pull_token(sender, deposit_amount);
        let stream_id: u64 = self.next_stream_id_for(sender);
        let rate: i128 = if kind == StreamKind::CliffOnly {
            0
        } else {
            rate_per_second
        };
        let stream = Stream {
            stream_id,
            sender,
            recipient: sender,
            claim_owner: None,
            deposit_amount,
            rate_per_second: rate,
            start_time,
            cliff_time,
            end_time,
            withdrawn_amount: 0,
            status: StreamStatus::Active,
            cancelled_at: None,
            checkpointed_amount: 0,
            checkpointed_at: start_time,
            withdraw_dust_threshold,
            last_pause_toggle_ledger: 0,
            last_withdraw_ledger: 0,
            last_rate_change_ledger: 0,
            is_pooled: Some(true),
            metadata: None,
            memo: params.memo,
            kind,
            irrevocable: None,
            witness: None,
            delegation_depth: 0,
            parent_stream_id: None,
        };
        crate::ops::save_stream(self, &stream);
        self.pool_shares.insert(stream_id, recipients);
        self.owe(deposit_amount);
        self.announce_created(&stream);
        Ok(stream_id)
    }
}

/// The parameters of a pooled stream.
pub open spec fn pooled_params(
    sender: Address,
    deposit_amount: i128,
    rate_per_second: i128,
    start_time: u64,
    cliff_time: u64,
    end_time: u64,
    withdraw_dust_threshold: i128,
    memo: Option<Bytes>,
    kind: StreamKind,
) -> CreateStreamParams {
    CreateStreamParams {
        recipient: sender,
        deposit_amount,
        rate_per_second,
        start_time,
        cliff_time,
        end_time,
        withdraw_dust_threshold: Some(withdraw_dust_threshold),
        memo,
        metadata: None,
        kind,
        irrevocable: None,
        witness: None,
    }
}

} // verus!
