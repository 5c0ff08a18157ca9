//! The state of the contract and the model that its operations are stated on.

use crate::events::{Effect, Event};
use crate::index::IdList;
use crate::table::Table;
use crate::types::{
    Address, Config, ContractError, IdReservation, PauseRecord, PendingRecipientUpdate, PoolSeat,
    PoolShare, RotationEntry, Stream, StreamOffer, StreamScheduleTemplate, StreamStatus, Text,
};
use vstd::prelude::*;

verus! {

/// The circumstances of a call.
#[derive(Debug)]
pub struct Call {
    /// The ledger timestamp, in seconds.
    pub timestamp: u64,
    /// The ledger sequence number.
    pub sequence: u32,
    /// The address of this contract.
    pub contract: Address,
    /// Who has authorised the call.
    pub signers: Vec<Address>,
    /// How many tokens the contract holds.
    pub balance: i128,
}

impl Call {
    /// Whether `who` has authorised the call.
    pub open spec fn authorised(self, who: Address) -> bool {
        self.signers@.contains(who)
    }

    /// Whether `who` has authorised the call.
    pub fn is_signed_by(&self, who: Address) -> (r: bool)
        ensures
            r == self.authorised(who),
    {
        let mut i: usize = 0;
        while i < self.signers.len()
            invariant
                i <= self.signers@.len(),
                forall|j: int| 0 <= j < i ==> self.signers@[j] != who,
            decreases self.signers@.len() - i,
        {
            if self.signers[i] == who {
                return true;
            }
            i += 1;
        }
        false
    }
}

/// The state of the contract.
pub struct FluxoraStream {
    /// The host in whose memory the identifier lists live.
    pub host: soroban_sdk::Env,
    pub config: Option<Config>,
    pub next_stream_id: u64,
    pub emergency_paused: bool,
    pub creation_paused: bool,
    pub pause_reason: Option<Text>,
    pub pause_timestamp: Option<u64>,
    pub pause_admin: Option<Address>,
    pub next_template_id: u64,
    pub active_template_count: u64,
    /// What the contract owes to recipients and senders of running streams.
    pub total_liabilities: i128,
    /// Whether a transfer is under way.
    pub locked: bool,
    /// The highest rate that a stream may have.
    pub max_rate_per_second: i128,
    pub last_stream_pause: Option<PauseRecord>,
    pub last_accrual_timestamp: Option<u64>,
    pub paused_stream_count: u64,
    pub total_keeper_fees_paid: i128,
    pub streams: Table<u64, Stream>,
    pub offers: Table<u64, StreamOffer>,
    pub templates: Table<u64, StreamScheduleTemplate>,
    pub auto_claim: Table<u64, Address>,
    pub pending_recipients: Table<u64, PendingRecipientUpdate>,
    pub rotations: Table<u64, Vec<RotationEntry>>,
    pub auto_renew: Table<u64, bool>,
    pub lookback: Table<u64, u32>,
    pub pool_shares: Table<u64, Vec<PoolShare>>,
    pub pool_withdrawn: Table<PoolSeat, i128>,
    pub recipient_streams: Table<Address, IdList>,
    pub sender_streams: Table<Address, IdList>,
    pub recipient_offers: Table<Address, IdList>,
    pub owner_templates: Table<Address, IdList>,
    pub reservations: Table<Address, IdReservation>,
    pub delegated_nonces: Table<Address, u64>,
    /// What is left for the surroundings to do, in order.
    pub effects: Vec<Effect>,
}

/// The mathematical model of [`FluxoraStream`].
#[verifier::ext_equal]
pub struct ContractState {
    pub config: Option<Config>,
    pub next_stream_id: u64,
    pub emergency_paused: bool,
    pub creation_paused: bool,
    pub pause_reason: Option<Text>,
    pub pause_timestamp: Option<u64>,
    pub pause_admin: Option<Address>,
    pub next_template_id: u64,
    pub active_template_count: u64,
    pub total_liabilities: i128,
    pub locked: bool,
    pub max_rate_per_second: i128,
    pub last_stream_pause: Option<PauseRecord>,
    pub last_accrual_timestamp: Option<u64>,
    pub paused_stream_count: u64,
    pub total_keeper_fees_paid: i128,
    pub streams: Map<u64, Stream>,
    pub offers: Map<u64, StreamOffer>,
    pub templates: Map<u64, StreamScheduleTemplate>,
    pub auto_claim: Map<u64, Address>,
    pub pending_recipients: Map<u64, PendingRecipientUpdate>,
    pub rotations: Map<u64, Seq<RotationEntry>>,
    pub auto_renew: Map<u64, bool>,
    pub lookback: Map<u64, u32>,
    pub pool_shares: Map<u64, Seq<PoolShare>>,
    pub pool_withdrawn: Map<PoolSeat, i128>,
    pub recipient_streams: Map<Address, Seq<u64>>,
    pub sender_streams: Map<Address, Seq<u64>>,
    pub recipient_offers: Map<Address, Seq<u64>>,
    pub owner_templates: Map<Address, Seq<u64>>,
    pub reservations: Map<Address, IdReservation>,
    pub delegated_nonces: Map<Address, u64>,
    pub effects: Seq<Effect>,
}

impl View for FluxoraStream {
    type V = ContractState;

    open spec fn view(&self) -> ContractState {
        ContractState {
            config: self.config,
            next_stream_id: self.next_stream_id,
            emergency_paused: self.emergency_paused,
            creation_paused: self.creation_paused,
            pause_reason: self.pause_reason,
            pause_timestamp: self.pause_timestamp,
            pause_admin: self.pause_admin,
            next_template_id: self.next_template_id,
            active_template_count: self.active_template_count,
            total_liabilities: self.total_liabilities,
            locked: self.locked,
            max_rate_per_second: self.max_rate_per_second,
            last_stream_pause: self.last_stream_pause,
            last_accrual_timestamp: self.last_accrual_timestamp,
            paused_stream_count: self.paused_stream_count,
            total_keeper_fees_paid: self.total_keeper_fees_paid,
            streams: self.streams@,
            offers: self.offers@,
            templates: self.templates@,
            auto_claim: self.auto_claim@,
            pending_recipients: self.pending_recipients@,
            rotations: self.rotations@,
            auto_renew: self.auto_renew@,
            lookback: self.lookback@,
            pool_shares: self.pool_shares@,
            pool_withdrawn: self.pool_withdrawn@,
            recipient_streams: self.recipient_streams@,
            sender_streams: self.sender_streams@,
            recipient_offers: self.recipient_offers@,
            owner_templates: self.owner_templates@,
            reservations: self.reservations@,
            delegated_nonces: self.delegated_nonces@,
            effects: self.effects@,
        }
    }
}

/// The identifiers listed for an address; none if it has no list.
pub open spec fn listed(lists: Map<Address, Seq<u64>>, who: Address) -> Seq<u64> {
    if lists.dom().contains(who) {
        lists[who]
    } else {
        Seq::empty()
    }
}

/// The lists with `id` entered for `who`.
pub open spec fn enlist(lists: Map<Address, Seq<u64>>, who: Address, id: u64) -> Map<
    Address,
    Seq<u64>,
> {
    lists.insert(who, crate::index::with_id(listed(lists, who), id))
}

/// The lists with `id` struck out for `who`.
pub open spec fn delist(lists: Map<Address, Seq<u64>>, who: Address, id: u64) -> Map<
    Address,
    Seq<u64>,
> {
    if listed(lists, who).contains(id) {
        lists.insert(who, crate::index::without_id(listed(lists, who), id))
    } else {
        lists
    }
}

/// The sum of two amounts, held at the largest amount there is.
pub open spec fn saturating_sum(a: i128, b: i128) -> i128 {
    if a + b > i128::MAX {
        i128::MAX
    } else if a + b < i128::MIN {
        i128::MAX
    } else {
        (a + b) as i128
    }
}

/// The difference of two amounts, or nothing where it does not fit.
pub open spec fn difference_or_zero(a: i128, b: i128) -> i128 {
    if i128::MIN <= a - b <= i128::MAX {
        (a - b) as i128
    } else {
        0
    }
}

/// The number of paused streams after one stream went from `previous` to
/// `next`.
pub open spec fn recounted(count: u64, previous: StreamStatus, next: StreamStatus) -> u64 {
    if previous == StreamStatus::Paused && next != StreamStatus::Paused {
        if count == 0 {
            0
        } else {
            (count - 1) as u64
        }
    } else if previous != StreamStatus::Paused && next == StreamStatus::Paused {
        if count == u64::MAX {
            u64::MAX
        } else {
            (count + 1) as u64
        }
    } else {
        count
    }
}

impl ContractState {
    /// The state before initialisation.
    pub open spec fn blank() -> Self {
        ContractState {
            config: None,
            next_stream_id: 0,
            emergency_paused: false,
            creation_paused: false,
            pause_reason: None,
            pause_timestamp: None,
            pause_admin: None,
            next_template_id: 0,
            active_template_count: 0,
            total_liabilities: 0,
            locked: false,
            max_rate_per_second: i128::MAX,
            last_stream_pause: None,
            last_accrual_timestamp: None,
            paused_stream_count: 0,
            total_keeper_fees_paid: 0,
            streams: Map::empty(),
            offers: Map::empty(),
            templates: Map::empty(),
            auto_claim: Map::empty(),
            pending_recipients: Map::empty(),
            rotations: Map::empty(),
            auto_renew: Map::empty(),
            lookback: Map::empty(),
            pool_shares: Map::empty(),
            pool_withdrawn: Map::empty(),
            recipient_streams: Map::empty(),
            sender_streams: Map::empty(),
            recipient_offers: Map::empty(),
            owner_templates: Map::empty(),
            reservations: Map::empty(),
            delegated_nonces: Map::empty(),
            effects: Seq::empty(),
        }
    }

    /// How many ledgers back a claim on a stream may reach.
    pub open spec fn lookback_of(self, id: u64) -> Option<u32> {
        if self.lookback.dom().contains(id) {
            Some(self.lookback[id])
        } else {
            None
        }
    }

    /// The state with an announcement queued.
    pub open spec fn emit(self, event: Event) -> Self {
        ContractState { effects: self.effects.push(Effect::Emit(event)), ..self }
    }

    /// The state with a payment to `to` queued.
    pub open spec fn push(self, to: Address, amount: i128) -> Self {
        ContractState { effects: self.effects.push(Effect::Push { to, amount }), ..self }
    }

    /// The state with a payment from `from` queued.
    pub open spec fn pull(self, from: Address, amount: i128) -> Self {
        ContractState { effects: self.effects.push(Effect::Pull { from, amount }), ..self }
    }

    /// The state with a stream stored.
    pub open spec fn put(self, stream: Stream) -> Self {
        ContractState { streams: self.streams.insert(stream.stream_id, stream), ..self }
    }

    /// The state with `amount` more owed.
    pub open spec fn owe(self, amount: i128) -> Self {
        ContractState {
            total_liabilities: saturating_sum(self.total_liabilities, amount),
            ..self
        }
    }

    /// The state with `amount` less owed.
    pub open spec fn settle(self, amount: i128) -> Self {
        ContractState {
            total_liabilities: difference_or_zero(self.total_liabilities, amount),
            ..self
        }
    }

    /// The state with the paused streams counted anew after one stream changed
    /// its status.
    pub open spec fn recount(self, previous: StreamStatus, next: StreamStatus) -> Self {
        ContractState {
            paused_stream_count: recounted(self.paused_stream_count, previous, next),
            ..self
        }
    }

    /// Whether `now` is no earlier than the last accrual.
    pub open spec fn clock_ok(self, now: u64) -> bool {
        match self.last_accrual_timestamp {
            Some(previous) => previous <= now,
            None => true,
        }
    }

    /// The state with `now` recorded as the last accrual.
    pub open spec fn observe(self, now: u64) -> Self {
        ContractState { last_accrual_timestamp: Some(now), ..self }
    }

    /// The identifier that the next stream of `who` gets.
    pub open spec fn fresh_id(self, who: Address) -> u64 {
        if self.reservations.dom().contains(who) {
            let res = self.reservations[who];
            (res.start_id + res.consumed) as u64
        } else {
            self.next_stream_id
        }
    }

    /// The state after `who` used up an identifier.
    pub open spec fn take_id(self, who: Address) -> Self {
        if self.reservations.dom().contains(who) {
            let res = self.reservations[who];
            if res.consumed + 1 >= res.count {
                ContractState { reservations: self.reservations.remove(who), ..self }
            } else {
                ContractState {
                    reservations: self.reservations.insert(
                        who,
                        (IdReservation { consumed: (res.consumed + 1) as u32, ..res }),
                    ),
                    ..self
                }
            }
        } else {
            ContractState { next_stream_id: (self.next_stream_id + 1) as u64, ..self }
        }
    }

    /// The administrator, once there is one.
    pub open spec fn admin(self) -> Option<Address> {
        match self.config {
            Some(config) => Some(config.admin),
            None => None,
        }
    }

    /// Why an administrative call is refused.
    pub open spec fn admin_error(self, call: Call) -> Option<ContractError> {
        match self.admin() {
            None => Some(ContractError::InvalidState),
            Some(admin) => if call.authorised(admin) {
                None
            } else {
                Some(ContractError::Unauthorized)
            },
        }
    }

    /// Whether new streams are refused.
    pub open spec fn creation_blocked(self) -> bool {
        self.emergency_paused || self.creation_paused
    }

    /// An identifier that no stream will get any more.
    pub open spec fn taken(self, id: u64) -> bool {
        id_taken(self.reservations, self.next_stream_id, id)
    }

    /// What every reachable state satisfies.
    pub open spec fn wf(self) -> bool {
        &&& registry_ok(
            self.streams,
            self.offers,
            self.recipient_streams,
            self.sender_streams,
            self.recipient_offers,
            self.reservations,
            self.next_stream_id,
        )
        &&& templates_ok(self.templates, self.owner_templates, self.next_template_id)
        &&& pools_ok(self.pool_shares, self.pool_withdrawn)
        &&& self.config is Some || nothing_stored(
            self.streams,
            self.offers,
            self.recipient_streams,
            self.sender_streams,
            self.recipient_offers,
        )
    }
}

/// An identifier below the counter that nobody holds back.
pub open spec fn id_taken(
    reservations: Map<Address, IdReservation>,
    next_stream_id: u64,
    id: u64,
) -> bool {
    &&& id < next_stream_id
    &&& forall|who: Address| #[trigger]
        reservations.dom().contains(who) ==> !id_held(reservations[who], id)
}

/// Whether a reservation still holds `id` back.
pub open spec fn id_held(res: IdReservation, id: u64) -> bool {
    res.start_id + res.consumed <= id < res.start_id + res.count
}

/// What an offer satisfies by itself.
pub open spec fn offer_sound(offer: StreamOffer) -> bool {
    &&& offer.deposit_amount >= 0
    &&& offer.rate_per_second >= 0
    &&& offer.start_time < offer.end_time
    &&& offer.start_time <= offer.cliff_time <= offer.end_time
}

/// The parent of a delegated stream comes before it, as long as it is stored.
pub open spec fn lineage_ok(
    streams: Map<u64, Stream>,
    offers: Map<u64, StreamOffer>,
    reservations: Map<Address, IdReservation>,
    next_stream_id: u64,
    stream: Stream,
) -> bool {
    match stream.parent_stream_id {
        None => true,
        Some(parent) => {
            &&& id_taken(reservations, next_stream_id, parent)
            &&& !offers.dom().contains(parent)
            &&& streams.dom().contains(parent) ==> streams[parent].delegation_depth
                < stream.delegation_depth
        },
    }
}

/// Every list ascends, and holds nothing that `held` leaves out.
pub open spec fn lists_ok(
    lists: Map<Address, Seq<u64>>,
    held: spec_fn(Address, u64) -> bool,
) -> bool {
    &&& forall|who: Address| #[trigger]
        lists.dom().contains(who) ==> crate::index::ascending(lists[who])
    &&& forall|who: Address, id: u64|
        lists.dom().contains(who) && #[trigger] lists[who].contains(id) ==> held(who, id)
}

/// Streams, offers, their indexes and the identifiers that they use fit
/// together.
#[verifier::opaque]
pub open spec fn registry_ok(
    streams: Map<u64, Stream>,
    offers: Map<u64, StreamOffer>,
    recipient_streams: Map<Address, Seq<u64>>,
    sender_streams: Map<Address, Seq<u64>>,
    recipient_offers: Map<Address, Seq<u64>>,
    reservations: Map<Address, IdReservation>,
    next_stream_id: u64,
) -> bool {
    &&& forall|id: u64| #[trigger]
        streams.dom().contains(id) ==> {
            &&& streams[id].sound()
            &&& streams[id].stream_id == id
            &&& id_taken(reservations, next_stream_id, id)
            &&& lineage_ok(streams, offers, reservations, next_stream_id, streams[id])
        }
    &&& forall|id: u64| #[trigger]
        offers.dom().contains(id) ==> {
            &&& offer_sound(offers[id])
            &&& offers[id].offer_id == id
            &&& id_taken(reservations, next_stream_id, id)
            &&& !streams.dom().contains(id)
        }
    &&& lists_ok(
        recipient_streams,
        |who: Address, id: u64|
            id_taken(reservations, next_stream_id, id) && !offers.dom().contains(id) && (
            streams.dom().contains(id) ==> streams[id].recipient == who),
    )
    &&& lists_ok(
        sender_streams,
        |who: Address, id: u64|
            id_taken(reservations, next_stream_id, id) && !offers.dom().contains(id) && (
            streams.dom().contains(id) ==> streams[id].sender == who),
    )
    &&& lists_ok(
        recipient_offers,
        |who: Address, id: u64|
            id_taken(reservations, next_stream_id, id) && (offers.dom().contains(id)
                ==> offers[id].recipient == who),
    )
    &&& forall|who: Address| #[trigger]
        reservations.dom().contains(who) ==> {
            &&& reservations[who].consumed < reservations[who].count
            &&& reservations[who].start_id + reservations[who].count <= next_stream_id
        }
    &&& forall|a: Address, b: Address, id: u64| #[trigger]
        reservations.dom().contains(a) && #[trigger] reservations.dom().contains(b) && a != b
            && #[trigger] id_held(reservations[a], id) ==> !id_held(reservations[b], id)
}

/// There is no stream and no offer, and no index names one.
#[verifier::opaque]
pub open spec fn nothing_stored(
    streams: Map<u64, Stream>,
    offers: Map<u64, StreamOffer>,
    recipient_streams: Map<Address, Seq<u64>>,
    sender_streams: Map<Address, Seq<u64>>,
    recipient_offers: Map<Address, Seq<u64>>,
) -> bool {
    &&& forall|id: u64| !#[trigger] streams.dom().contains(id)
    &&& forall|id: u64| !#[trigger] offers.dom().contains(id)
    &&& forall|who: Address| #[trigger]
        recipient_streams.dom().contains(who) ==> recipient_streams[who].len() == 0
    &&& forall|who: Address| #[trigger]
        sender_streams.dom().contains(who) ==> sender_streams[who].len() == 0
    &&& forall|who: Address| #[trigger]
        recipient_offers.dom().contains(who) ==> recipient_offers[who].len() == 0
}

/// Templates and their indexes fit together.
#[verifier::opaque]
pub open spec fn templates_ok(
    templates: Map<u64, StreamScheduleTemplate>,
    owner_templates: Map<Address, Seq<u64>>,
    next_template_id: u64,
) -> bool {
    &&& forall|id: u64| #[trigger]
        templates.dom().contains(id) ==> id < next_template_id && templates[id].template_id == id
    &&& lists_ok(owner_templates, |who: Address, id: u64| id < next_template_id)
}

/// The shares of the first `n` recipients together.
pub open spec fn share_total(shares: Seq<PoolShare>, n: int) -> int
    decreases n,
{
    if n <= 0 {
        0
    } else {
        share_total(shares, n - 1) + shares[n - 1].share
    }
}

/// Pools can be divided, and nothing negative was withdrawn from them.
#[verifier::opaque]
pub open spec fn pools_ok(
    pool_shares: Map<u64, Seq<PoolShare>>,
    pool_withdrawn: Map<PoolSeat, i128>,
) -> bool {
    &&& forall|id: u64| #[trigger]
        pool_shares.dom().contains(id) ==> 0 < share_total(
            pool_shares[id],
            pool_shares[id].len() as int,
        ) <= u32::MAX
    &&& forall|seat: PoolSeat| #[trigger]
        pool_withdrawn.dom().contains(seat) ==> pool_withdrawn[seat] >= 0
}

} // verus!
