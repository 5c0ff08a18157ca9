//! The steps that the entry points are made of.

use crate::events::{Effect, Event};
use crate::index::IdList;
use crate::state::{Call, FluxoraStream};
use crate::table::Table;
use crate::types::{Address, ContractError, IdReservation, Stream, StreamStatus};
use vstd::prelude::*;

verus! {

/// Enters `id` for `who`.
pub(crate) fn enlist(
    lists: &mut Table<Address, IdList>,
    host: &soroban_sdk::Env,
    who: Address,
    id: u64,
)
    requires
        crate::index::ascending(crate::state::listed(old(lists)@, who)),
        crate::state::listed(old(lists)@, who).len() < u32::MAX,
    ensures
        final(lists)@ == crate::state::enlist(old(lists)@, who, id),
{
    let mut list = match lists.take(who) {
        Some(list) => list,
        None => IdList::new(host),
    };
    assert(list@ == crate::state::listed(old(lists)@, who));
    list.add(id);
    lists.insert(who, list);
    assert(lists@ =~= crate::state::enlist(old(lists)@, who, id));
}

/// Strikes `id` out for `who`.
pub(crate) fn delist(lists: &mut Table<Address, IdList>, who: Address, id: u64)
    requires
        crate::index::ascending(crate::state::listed(old(lists)@, who)),
    ensures
        final(lists)@ == crate::state::delist(old(lists)@, who, id),
{
    match lists.take(who) {
        Some(mut list) => {
            assert(list@ == crate::state::listed(old(lists)@, who));
            list.remove(id);
            lists.insert(who, list);
            assert(lists@ =~= crate::state::delist(old(lists)@, who, id));
        },
        None => {
            assert(lists@ =~= old(lists)@);
        },
    }
}

/// How many identifiers are listed for `who`.
pub(crate) fn list_len(lists: &Table<Address, IdList>, who: Address) -> (r: u32)
    ensures
        r == crate::state::listed(lists@, who).len(),
{
    match lists.get(who) {
        Some(list) => list.len(),
        None => 0,
    }
}

/// The identifiers listed for `who`.
pub(crate) fn list_ids(lists: &Table<Address, IdList>, who: Address) -> (r: Vec<u64>)
    ensures
        r@ == crate::state::listed(lists@, who),
{
    match lists.get(who) {
        Some(list) => list.to_vec(),
        None => Vec::new(),
    }
}

/// The sum of two amounts, held at the largest amount there is.
pub(crate) fn saturating_sum(a: i128, b: i128) -> (r: i128)
    ensures
        r == crate::state::saturating_sum(a, b),
{
    match a.checked_add(b) {
        Some(sum) => sum,
        None => i128::MAX,
    }
}

/// The difference of two amounts, or nothing where it does not fit.
pub(crate) fn difference_or_zero(a: i128, b: i128) -> (r: i128)
    ensures
        r == crate::state::difference_or_zero(a, b),
{
    match a.checked_sub(b) {
        Some(difference) => difference,
        None => 0,
    }
}

/// Stores a stream under its identifier, in place of what was there.
pub fn save_stream(contract: &mut FluxoraStream, stream: &Stream)
    ensures
        final(contract)@ == old(contract)@.put(*stream),
{
    contract.streams.insert(stream.stream_id, stream.clone());
}

impl FluxoraStream {
    /// A contract that was not initialised yet.
    pub fn new(host: soroban_sdk::Env) -> (r: Self)
        ensures
            r@ == crate::state::ContractState::blank(),
            r@.wf(),
    {
        let r = FluxoraStream {
            host,
            config: None,
            next_stream_id: 0,
            emergency_paused: false,
            creation_paused: false,
            pause_reason: None,
            pause_timestamp: None,
            pause_admin: None,
            next_template_id: 0,
            active_template_count: 0,
            total_liabilities: 0,
            locked: false,
            max_rate_per_second: i128::MAX,
            last_stream_pause: None,
            last_accrual_timestamp: None,
            paused_stream_count: 0,
            total_keeper_fees_paid: 0,
            streams: Table::new(),
            offers: Table::new(),
            templates: Table::new(),
            auto_claim: Table::new(),
            pending_recipients: Table::new(),
            rotations: Table::new(),
            auto_renew: Table::new(),
            lookback: Table::new(),
            pool_shares: Table::new(),
            pool_withdrawn: Table::new(),
            recipient_streams: Table::new(),
            sender_streams: Table::new(),
            recipient_offers: Table::new(),
            owner_templates: Table::new(),
            reservations: Table::new(),
            delegated_nonces: Table::new(),
            effects: Vec::new(),
        };
        proof {
            crate::registry::lemma_blank();
        }
        r
    }

    /// Hands over what is left to do and starts a new list.
    pub fn take_effects(&mut self) -> (r: Vec<Effect>)
        ensures
            r@ == old(self)@.effects,
            final(self)@ == (crate::state::ContractState {
                effects: Seq::empty(),
                ..old(self)@
            }),
    {
        let mut r: Vec<Effect> = Vec::new();
        std::mem::swap(&mut r, &mut self.effects);
        r
    }

    /// Queues an announcement.
    pub(crate) fn emit(&mut self, event: Event)
        ensures
            final(self)@ == old(self)@.emit(event),
    {
        self.effects.push(Effect::Emit(event));
    }

    /// Queues a payment to `to`.
    pub(crate) fn push_token(&mut self, to: Address, amount: i128)
        ensures
            final(self)@ == old(self)@.push(to, amount),
    {
        self.effects.push(Effect::Push { to, amount });
    }

    /// Queues a payment from `from`.
    pub(crate) fn pull_token(&mut self, from: Address, amount: i128)
        ensures
            final(self)@ == old(self)@.pull(from, amount),
    {
        self.effects.push(Effect::Pull { from, amount });
    }

    /// The stream with the given identifier.
    pub(crate) fn load_stream(&self, stream_id: u64) -> (r: Result<Stream, ContractError>)
        requires
            self@.wf(),
        ensures
            match r {
                Ok(stream) => {
                    &&& self@.streams.dom().contains(stream_id)
                    &&& stream == self@.streams[stream_id]
                    &&& stream.sound()
                    &&& stream.stream_id == stream_id
                },
                Err(e) => {
                    &&& !self@.streams.dom().contains(stream_id)
                    &&& e == ContractError::StreamNotFound
                },
            },
    {
        match self.streams.get(stream_id) {
            Some(stream) => {
                proof {
                    crate::registry::lemma_stored_stream(self@, stream_id);
                }
                Ok(stream.clone())
            },
            None => Err(ContractError::StreamNotFound),
        }
    }

    /// Replaces a stored stream by one with the same parties.
    pub(crate) fn update_stream(&mut self, stream: &Stream)
        requires
            old(self)@.wf(),
            stream.sound(),
            old(self)@.streams.dom().contains(stream.stream_id),
            stream.sender == old(self)@.streams[stream.stream_id].sender,
            stream.recipient == old(self)@.streams[stream.stream_id].recipient,
            stream.parent_stream_id == old(self)@.streams[stream.stream_id].parent_stream_id,
            stream.delegation_depth == old(self)@.streams[stream.stream_id].delegation_depth,
        ensures
            final(self)@ == old(self)@.put(*stream),
            final(self)@.wf(),
    {
        proof {
            crate::registry::lemma_update(self@, *stream);
        }
        save_stream(self, stream);
    }

    /// Raises what the contract owes.
    pub(crate) fn owe(&mut self, amount: i128)
        ensures
            final(self)@ == old(self)@.owe(amount),
    {
        self.total_liabilities = saturating_sum(self.total_liabilities, amount);
    }

    /// Lowers what the contract owes.
    pub(crate) fn settle(&mut self, amount: i128)
        ensures
            final(self)@ == old(self)@.settle(amount),
    {
        self.total_liabilities = difference_or_zero(self.total_liabilities, amount);
    }

    /// Counts the paused streams anew after one stream changed its status.
    pub(crate) fn reconcile_paused_stream_count(
        &mut self,
        previous: StreamStatus,
        next: StreamStatus,
    )
        ensures
            final(self)@ == old(self)@.recount(previous, next),
    {
        if previous == StreamStatus::Paused && next != StreamStatus::Paused {
            if self.paused_stream_count > 0 {
                self.paused_stream_count = self.paused_stream_count - 1;
            }
        } else if previous != StreamStatus::Paused && next == StreamStatus::Paused {
            if self.paused_stream_count < u64::MAX {
                self.paused_stream_count = self.paused_stream_count + 1;
            }
        }
    }

    /// Whether `now` is earlier than the last accrual.
    pub(crate) fn clock_regressed(&self, now: u64) -> (r: bool)
        ensures
            r == !self@.clock_ok(now),
    {
        match self.last_accrual_timestamp {
            Some(previous) => now < previous,
            None => false,
        }
    }

    /// Records the time of an accrual, which must not run backwards.
    pub(crate) fn current_accrual_timestamp(&mut self, call: &Call) -> (r: Result<
        u64,
        ContractError,
    >)
        ensures
            old(self)@.clock_ok(call.timestamp) ==> r == Ok::<u64, ContractError>(call.timestamp)
                && final(self)@ == old(self)@.observe(call.timestamp),
            !old(self)@.clock_ok(call.timestamp) ==> r == Err::<u64, ContractError>(
                ContractError::ClockRegression,
            ) && final(self)@ == old(self)@,
    {
        if self.clock_regressed(call.timestamp) {
            return Err(ContractError::ClockRegression);
        }
        self.last_accrual_timestamp = Some(call.timestamp);
        Ok(call.timestamp)
    }

    /// The identifier for the next stream of `caller`: the first that was set
    /// aside for it, or else the next of the counter.
    pub(crate) fn next_stream_id_for(&mut self, caller: Address) -> (r: u64)
        requires
            old(self)@.wf(),
            old(self)@.has_id_for(caller),
        ensures
            r == old(self)@.fresh_id(caller),
            final(self)@ == old(self)@.take_id(caller),
            final(self)@.wf(),
            final(self)@.unused(r),
            final(self)@.taken(r),
    {
        proof {
            crate::registry::lemma_take_id(self@, caller);
        }
        let held: Option<IdReservation> = match self.reservations.get(caller) {
            Some(res) => Some(*res),
            None => None,
        };
        match held {
            Some(res) => {
                proof {
                    crate::registry::lemma_stored_reservation(self@, caller);
                }
                let id: u64 = res.start_id + res.consumed as u64;
                if res.consumed + 1 >= res.count {
                    self.reservations.remove(caller);
                } else {
                    self.reservations.insert(
                        caller,
                        IdReservation {
                            start_id: res.start_id,
                            count: res.count,
                            consumed: res.consumed + 1,
                            expiry: res.expiry,
                        },
                    );
                }
                assert(self@ =~= old(self)@.take_id(caller));
                id
            },
            None => {
                let id: u64 = self.next_stream_id;
                self.next_stream_id = id + 1;
                id
            },
        }
    }

    /// The administrator, who must have authorised the call.
    pub(crate) fn require_admin(&self, call: &Call) -> (r: Result<Address, ContractError>)
        ensures
            match r {
                Ok(admin) => self@.admin_error(*call) is None && self@.admin() == Some(admin),
                Err(e) => self@.admin_error(*call) == Some(e),
            },
    {
        match self.config {
            None => Err(ContractError::InvalidState),
            Some(config) => if call.is_signed_by(config.admin) {
                Ok(config.admin)
            } else {
                Err(ContractError::Unauthorized)
            },
        }
    }

    /// How many ledgers back a claim on the stream may reach.
    pub(crate) fn max_lookback_ledgers(&self, stream_id: u64) -> (r: Option<u32>)
        ensures
            r == self@.lookback_of(stream_id),
    {
        match self.lookback.get(stream_id) {
            Some(ledgers) => Some(*ledgers),
            None => None,
        }
    }
}

} // verus!
