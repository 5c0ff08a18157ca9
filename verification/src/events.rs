//! What the contract announces and what it asks of the token.

use crate::types::{
    Address, Bytes, Metadata, PauseReason, StreamScheduleTemplate, Text, Word,
};
use std::rc::Rc;
use vstd::prelude::*;

verus! {

/// Announces that a stream was paused, and why.
#[derive(Clone, Copy, Debug, PartialEq, Eq)]
pub struct StreamPaused {
    pub stream_id: u64,
    pub reason: PauseReason,
}

/// Announces a change of status.
#[derive(Clone, Copy, Debug, PartialEq, Eq)]
pub enum StreamEvent {
    Paused(u64),
    Resumed(u64),
    StreamCancelled(u64),
    StreamCompleted(u64),
    StreamClosed(u64),
}

/// Announces a new stream.
#[derive(Debug, PartialEq, Eq)]
pub struct StreamCreated {
    pub stream_id: u64,
    pub sender: Address,
    pub recipient: Address,
    pub deposit_amount: i128,
    pub rate_per_second: i128,
    pub start_time: u64,
    pub cliff_time: u64,
    pub end_time: u64,
    pub withdraw_dust_threshold: i128,
    pub memo: Option<Bytes>,
    pub metadata: Option<Rc<Metadata>>,
}

/// Announces that a stream was made after the model of another.
#[derive(Clone, Copy, Debug, PartialEq, Eq)]
pub struct StreamCloned {
    pub new_stream_id: u64,
    pub source_stream_id: u64,
    pub sender: Address,
    pub recipient: Address,
    pub deposit_amount: i128,
    pub rate_per_second: i128,
    pub start_time: u64,
    pub cliff_time: u64,
    pub end_time: u64,
}

/// Announces a payout to the recipient.
#[derive(Clone, Copy, Debug, PartialEq, Eq)]
pub struct Withdrawal {
    pub stream_id: u64,
    pub recipient: Address,
    pub amount: i128,
}

/// Announces a payout to an address that the recipient chose.
#[derive(Clone, Copy, Debug, PartialEq, Eq)]
pub struct WithdrawalTo {
    pub stream_id: u64,
    pub recipient: Address,
    pub destination: Address,
    pub amount: i128,
}

/// Announces a change of recipient.
#[derive(Clone, Copy, Debug, PartialEq, Eq)]
pub struct RecipientUpdated {
    pub stream_id: u64,
    pub old_recipient: Address,
    pub new_recipient: Address,
}

/// Announces a change of rate.
#[derive(Clone, Copy, Debug, PartialEq, Eq)]
pub struct RateUpdated {
    pub stream_id: u64,
    pub old_rate_per_second: i128,
    pub new_rate_per_second: i128,
    pub effective_time: u64,
}

/// Announces that a rate was refused because of the cap.
#[derive(Clone, Copy, Debug, PartialEq, Eq)]
pub struct RateCapEnforced {
    pub stream_id: u64,
    pub attempted_rate: i128,
    pub max_rate_per_second: i128,
}

/// Announces that part of a stream was delegated to a child stream.
#[derive(Clone, Copy, Debug, PartialEq, Eq)]
pub struct RecipientShareDelegated {
    pub parent_stream_id: u64,
    pub child_stream_id: u64,
    pub delegator: Address,
    pub delegatee: Address,
    pub share_bps: u32,
    pub new_parent_rate: i128,
    pub child_rate: i128,
}

/// Announces a lower rate and the refund that came with it.
#[derive(Clone, Copy, Debug, PartialEq, Eq)]
pub struct RateDecreased {
    pub stream_id: u64,
    pub old_rate_per_second: i128,
    pub new_rate_per_second: i128,
    pub effective_time: u64,
    pub checkpointed_amount: i128,
    pub refund_amount: i128,
}

/// Announces an earlier end and the refund that came with it.
#[derive(Clone, Copy, Debug, PartialEq, Eq)]
pub struct StreamEndShortened {
    pub stream_id: u64,
    pub old_end_time: u64,
    pub new_end_time: u64,
    pub refund_amount: i128,
}

/// Announces a later end.
#[derive(Clone, Copy, Debug, PartialEq, Eq)]
pub struct StreamEndExtended {
    pub stream_id: u64,
    pub old_end_time: u64,
    pub new_end_time: u64,
}

/// Announces a larger deposit.
#[derive(Clone, Copy, Debug, PartialEq, Eq)]
pub struct StreamToppedUp {
    pub stream_id: u64,
    pub top_up_amount: i128,
    pub new_deposit_amount: i128,
    pub new_end_time: u64,
}

/// Announces that a completed stream was renewed.
#[derive(Clone, Copy, Debug, PartialEq, Eq)]
pub struct StreamRenewed {
    pub old_stream_id: u64,
    pub new_stream_id: u64,
}

/// Announces a change of sender.
#[derive(Clone, Copy, Debug, PartialEq, Eq)]
pub struct SenderTransferred {
    pub stream_id: u64,
    pub old_sender: Address,
    pub new_sender: Address,
}

/// Announces that a stream became underfunded, or no longer is.
#[derive(Clone, Copy, Debug, PartialEq, Eq)]
pub struct StreamHealthChanged {
    pub stream_id: u64,
    pub is_underfunded: bool,
    pub remaining_balance: i128,
    pub seconds_remaining: u64,
}

/// Announces that the emergency pause was switched.
#[derive(Clone, Copy, Debug, PartialEq, Eq)]
pub struct GlobalEmergencyPauseChanged {
    pub paused: bool,
}

/// Announces that tokens above the liabilities were taken out.
#[derive(Clone, Copy, Debug, PartialEq, Eq)]
pub struct ExcessSwept {
    pub to: Address,
    pub amount: i128,
}

/// Announces that a keeper closed an abandoned stream.
#[derive(Clone, Copy, Debug, PartialEq, Eq)]
pub struct KeeperCancelled {
    pub stream_id: u64,
    pub keeper: Address,
    pub keeper_fee: i128,
    pub recipient_amount: i128,
    pub sender_refund: i128,
}

/// Announces who may now withdraw from a stream.
#[derive(Clone, Copy, Debug, PartialEq, Eq)]
pub struct ClaimOwnershipTransferred {
    pub stream_id: u64,
    pub old_owner: Address,
    pub new_owner: Address,
}

/// Announces an offer.
#[derive(Clone, Copy, Debug, PartialEq, Eq)]
pub struct StreamOfferCreated {
    pub offer_id: u64,
    pub sender: Address,
    pub recipient: Address,
    pub deposit_amount: i128,
    pub rate_per_second: i128,
    pub start_time: u64,
    pub cliff_time: u64,
    pub end_time: u64,
    pub expiry_time: Option<u64>,
    pub created_at: u64,
}

/// Announces that an offer was accepted.
#[derive(Clone, Copy, Debug, PartialEq, Eq)]
pub struct StreamOfferAccepted {
    pub offer_id: u64,
    pub effective_start_time: u64,
    pub recipient: Address,
}

/// Announces that an offer was rejected or withdrawn.
#[derive(Clone, Copy, Debug, PartialEq, Eq)]
pub struct StreamOfferCancelled {
    pub offer_id: u64,
    pub by: Address,
    pub refund_amount: i128,
}

/// Announces where automatic claims of a stream go.
#[derive(Clone, Copy, Debug, PartialEq, Eq)]
pub struct AutoClaimSet {
    pub stream_id: u64,
    pub destination: Address,
}

/// Announces that automatic claims of a stream are off.
#[derive(Clone, Copy, Debug, PartialEq, Eq)]
pub struct AutoClaimRevoked {
    pub stream_id: u64,
}

/// Announces an automatic claim.
#[derive(Clone, Copy, Debug, PartialEq, Eq)]
pub struct AutoClaimTriggered {
    pub stream_id: u64,
    pub destination: Address,
    pub amount: i128,
}

/// Announces that the emergency pause was lifted.
#[derive(Clone, Copy, Debug, PartialEq, Eq)]
pub struct GlobalResumed {
    pub resumed_at: u64,
}

/// Announces that the pause of stream creation was switched.
#[derive(Clone, Copy, Debug, PartialEq, Eq)]
pub struct ContractPauseChanged {
    pub paused: bool,
}

/// Announces a protocol pause.
#[derive(Debug, PartialEq, Eq)]
pub struct ProtocolPaused {
    pub reason: Text,
    pub paused_at: u64,
}

/// Announces the end of a protocol pause.
#[derive(Clone, Copy, Debug, PartialEq, Eq)]
pub struct ProtocolResumed {
    pub resumed_at: u64,
}

/// Announces an upgrade of the contract's code.
#[derive(Clone, Copy, Debug, PartialEq, Eq)]
pub struct ContractUpgraded {
    pub new_wasm_hash: Word,
    pub new_version: u32,
    pub upgraded_at: u64,
    pub upgraded_by: Address,
}

/// Announces that a reservation was given up.
#[derive(Clone, Copy, Debug, PartialEq, Eq)]
pub struct ReservationReleased {
    pub holder: Address,
    pub start_id: u64,
    pub count: u32,
    pub consumed: u32,
    /// How many identifiers can be handed out again.
    pub reclaimed: u32,
}

/// An announcement.
#[derive(Debug, PartialEq, Eq)]
pub enum Event {
    Created(StreamCreated),
    Cloned(StreamCloned),
    Paused(StreamPaused),
    /// A change of status other than a pause.
    Status(StreamEvent),
    Withdrew(Withdrawal),
    WithdrewTo(WithdrawalTo),
    RecipientUpdated(RecipientUpdated),
    ClaimOwner(ClaimOwnershipTransferred),
    AdminUpdated { old_admin: Address, new_admin: Address },
    RateUpdated(RateUpdated),
    RateDecreased(RateDecreased),
    ShareDelegated(RecipientShareDelegated),
    EndShortened(StreamEndShortened),
    EndExtended(StreamEndExtended),
    ToppedUp(StreamToppedUp),
    Renewed(StreamRenewed),
    TemplateDefined(StreamScheduleTemplate),
    KeeperCancelled(KeeperCancelled),
    HealthChanged(StreamHealthChanged),
    EmergencyPause(GlobalEmergencyPauseChanged),
    GlobalResumed(GlobalResumed),
    CreationPause(ContractPauseChanged),
    /// By an administrator.
    ProtocolPaused(Address, ProtocolPaused),
    /// By an administrator.
    ProtocolResumed(Address, ProtocolResumed),
    Swept(ExcessSwept),
    AutoClaimSet(AutoClaimSet),
    AutoClaimRevoked(AutoClaimRevoked),
    /// An automatic claim, with the payout that it made.
    AutoClaimed(AutoClaimTriggered),
    AutoClaimWithdrew(WithdrawalTo),
    ReservationReleased(ReservationReleased),
    OfferCreated(StreamOfferCreated),
    OfferAccepted(StreamOfferAccepted),
    OfferCancelled(StreamOfferCancelled),
    Upgraded(ContractUpgraded),
    /// The older form of the announcement of an upgrade.
    UpgradedLegacy { new_wasm_hash: Word, old_version: u32, new_version: u32, admin: Address },
}

/// Something for the surroundings to do, in order.
#[derive(Debug, PartialEq, Eq)]
pub enum Effect {
    /// Move tokens from an account to the contract.
    Pull { from: Address, amount: i128 },
    /// Move tokens from the contract to an account.
    Push { to: Address, amount: i128 },
    /// Publish an announcement.
    Emit(Event),
    /// Replace the contract's code.
    Replace { new_wasm_hash: Word },
}

} // verus!
