//! The values that the streaming contract works on.

use std::rc::Rc;
use vstd::prelude::*;

verus! {

/// A 32-byte word: an ed25519 public key, a contract identifier or a code hash.
#[derive(Clone, Copy, Debug, PartialEq, Eq, Structural)]
pub struct Word {
    /// The first sixteen bytes, most significant byte first.
    pub high: u128,
    /// The last sixteen bytes, most significant byte first.
    pub low: u128,
}

/// The party to a stream: an account, named by its public key, or a contract.
#[derive(Clone, Copy, Debug, PartialEq, Eq, Structural)]
pub enum Address {
    Account(Word),
    Contract(Word),
}

/// An immutable run of bytes that several records may share.
pub type Bytes = Rc<Vec<u8>>;

/// Hands out a further pointer to a shared value.
///
/// Calls `Rc::clone`, which makes another pointer to the same allocation: the
/// result points to the value that the argument points to.
#[verifier::external_body]
pub(crate) fn share<T>(shared: &Rc<T>) -> (r: Rc<T>)
    ensures
        r == *shared,
{
    Rc::clone(shared)
}

/// A human-readable text; `None` is the empty text.
#[derive(Debug, PartialEq, Eq)]
pub struct Text {
    pub bytes: Option<Bytes>,
}

impl Text {
    /// The number of bytes in the text.
    pub open spec fn spec_len(self) -> nat {
        match self.bytes {
            Some(b) => b@.len(),
            None => 0,
        }
    }

    /// The number of bytes in the text.
    pub fn len(&self) -> (r: usize)
        ensures
            r == self.spec_len(),
    {
        match &self.bytes {
            Some(b) => b.len(),
            None => 0,
        }
    }
}

impl Clone for Text {
    fn clone(&self) -> (r: Self)
        ensures
            r == *self,
    {
        match &self.bytes {
            Some(b) => Text { bytes: Some(share(b)) },
            None => Text { bytes: None },
        }
    }
}

/// Whether a run of bytes comes before another in the order of a dictionary.
pub open spec fn precedes(a: Seq<u8>, b: Seq<u8>) -> bool
    decreases a.len(),
{
    if b.len() == 0 {
        false
    } else if a.len() == 0 {
        true
    } else if a[0] != b[0] {
        a[0] < b[0]
    } else {
        precedes(a.drop_first(), b.drop_first())
    }
}

/// Every key comes before the ones after it, so that no key occurs twice.
pub open spec fn keys_ascend(entries: Seq<(Vec<u8>, Vec<u8>)>) -> bool {
    forall|i: int, j: int|
        0 <= i < j < entries.len() ==> precedes(
            (#[trigger] entries[i]).0@,
            (#[trigger] entries[j]).0@,
        )
}

proof fn lemma_precedes_transitive(a: Seq<u8>, b: Seq<u8>, c: Seq<u8>)
    requires
        precedes(a, b),
        precedes(b, c),
    ensures
        precedes(a, c),
    decreases a.len(),
{
    if a.len() > 0 && a[0] == b[0] && b[0] == c[0] {
        lemma_precedes_transitive(a.drop_first(), b.drop_first(), c.drop_first());
    }
}

/// Whether a run of bytes comes before another in the order of a dictionary.
fn comes_before(a: &Vec<u8>, b: &Vec<u8>) -> (r: bool)
    ensures
        r == precedes(a@, b@),
{
    let mut i: usize = 0;
    assert(a@.skip(0) =~= a@ && b@.skip(0) =~= b@);
    while i < a.len() && i < b.len()
        invariant
            i <= a@.len(),
            i <= b@.len(),
            precedes(a@, b@) == precedes(a@.skip(i as int), b@.skip(i as int)),
        decreases a@.len() - i,
    {
        if a[i] != b[i] {
            return a[i] < b[i];
        }
        assert(a@.skip(i as int).drop_first() =~= a@.skip(i + 1));
        assert(b@.skip(i as int).drop_first() =~= b@.skip(i + 1));
        i += 1;
    }
    i < b.len()
}

/// Structured key/value pairs attached to a stream for indexers, in the order
/// of their keys.
#[derive(Debug, PartialEq, Eq)]
pub struct Metadata {
    entries: Vec<(Vec<u8>, Vec<u8>)>,
}

impl View for Metadata {
    type V = Seq<(Vec<u8>, Vec<u8>)>;

    closed spec fn view(&self) -> Seq<(Vec<u8>, Vec<u8>)> {
        self.entries@
    }
}

impl Metadata {
    #[verifier::type_invariant]
    spec fn ordered(self) -> bool {
        keys_ascend(self.entries@)
    }

    /// Metadata with the given entries, if their keys ascend.
    pub fn new(entries: Vec<(Vec<u8>, Vec<u8>)>) -> (r: Option<Metadata>)
        ensures
            r is Some <==> keys_ascend(entries@),
            r is Some ==> r->0@ == entries@,
    {
        let mut n: usize = 0;
        while n < entries.len()
            invariant
                n <= entries@.len(),
                keys_ascend(entries@.take(n as int)),
            decreases entries@.len() - n,
        {
            let ghost shown = entries@.take(n as int);
            let ghost more = entries@.take(n + 1);
            if n > 0 && !comes_before(&entries[n - 1].0, &entries[n].0) {
                assert(!precedes(entries@[n - 1].0@, entries@[n as int].0@));
                return None;
            }
            assert forall|i: int, j: int| 0 <= i < j < more.len() implies precedes(
                (#[trigger] more[i]).0@,
                (#[trigger] more[j]).0@,
            ) by {
                if j < n {
                    assert(precedes(shown[i].0@, shown[j].0@));
                } else if i < n - 1 {
                    assert(precedes(shown[i].0@, shown[n - 1].0@));
                    lemma_precedes_transitive(
                        entries@[i].0@,
                        entries@[n - 1].0@,
                        entries@[n as int].0@,
                    );
                }
            }
            n += 1;
        }
        assert(entries@.take(n as int) =~= entries@);
        Some(Metadata { entries })
    }

    /// The entries, in the order of their keys.
    pub fn entries(&self) -> (r: &Vec<(Vec<u8>, Vec<u8>)>)
        ensures
            r@ == self@,
            keys_ascend(self@),
    {
        proof {
            use_type_invariant(self);
        }
        &self.entries
    }
}

/// A further pointer to an optional shared value.
pub(crate) fn share_option<T>(shared: &Option<Rc<T>>) -> (r: Option<Rc<T>>)
    ensures
        r == *shared,
{
    match shared {
        Some(b) => Some(share(b)),
        None => None,
    }
}

/// Global configuration of the protocol.
#[derive(Clone, Copy, Debug, PartialEq, Eq, Structural)]
pub struct Config {
    pub token: Address,
    pub admin: Address,
}

/// One recipient's place in a pooled stream.
#[derive(Clone, Copy, Debug, PartialEq, Eq, Structural)]
pub struct PoolSeat {
    pub stream_id: u64,
    pub recipient: Address,
}

/// A run of stream identifiers held back for one caller.
#[derive(Clone, Copy, Debug, PartialEq, Eq)]
pub struct IdReservation {
    pub start_id: u64,
    pub count: u32,
    pub consumed: u32,
    pub expiry: Option<u64>,
}

/// Why a stream was paused.
#[derive(Clone, Copy, Debug, PartialEq, Eq, Structural)]
pub enum PauseReason {
    Operational,
    Administrative,
    Emergency,
    Compliance,
}

impl PauseReason {
    /// The name under which the reason is published.
    pub open spec fn spec_label(self) -> Seq<char> {
        match self {
            PauseReason::Operational => "Operational"@,
            PauseReason::Administrative => "Administrative"@,
            PauseReason::Emergency => "Emergency"@,
            PauseReason::Compliance => "Compliance"@,
        }
    }

    /// The name under which the reason is published.
    pub fn label(self) -> (r: &'static str)
        ensures
            r@ == self.spec_label(),
    {
        match self {
            PauseReason::Operational => "Operational",
            PauseReason::Administrative => "Administrative",
            PauseReason::Emergency => "Emergency",
            PauseReason::Compliance => "Compliance",
        }
    }
}

/// What a pause applies to.
#[derive(Clone, Copy, Debug, PartialEq, Eq, Structural)]
pub enum PauseKind {
    Stream,
    Protocol,
}

/// Health report of a stream.
#[derive(Clone, Copy, Debug, PartialEq, Eq)]
pub struct StreamHealth {
    pub is_underfunded: bool,
    pub is_expired: bool,
    pub accrued_to_date: u128,
    pub remaining_deposit: u128,
    pub seconds_until_depletion: Option<u64>,
}

/// Operational status of a stream.
///
/// ```text
/// Active <-> Paused    (pause_stream / resume_stream)
/// Active  -> Cancelled (cancel_stream, terminal)
/// Paused  -> Cancelled (cancel_stream, terminal)
/// Active  -> Completed (everything withdrawn, terminal)
/// Paused  -> Completed (everything withdrawn after the end time, terminal)
/// ```
#[derive(Clone, Copy, Debug, PartialEq, Eq, Structural)]
pub enum StreamStatus {
    /// Running: withdrawals, pauses, rate and schedule changes, top-ups and
    /// cancellation are allowed.
    Active,
    /// Suspended: withdrawals wait for a resume or for the end time. Accrual
    /// goes on.
    Paused,
    /// Fully withdrawn.
    Completed,
    /// Ended early: accrual is frozen at `cancelled_at`, and what had accrued
    /// by then may still be withdrawn.
    Cancelled,
}

/// How a stream releases its deposit.
#[derive(Clone, Copy, Debug, PartialEq, Eq, Structural)]
pub enum StreamKind {
    /// Accrues linearly from the start time.
    Linear,
    /// Releases the whole deposit at the cliff time.
    CliffOnly,
    /// Accrues linearly from the cliff time.
    CliffSlope,
}

/// Every way in which a request can be refused.
#[derive(Clone, Copy, Debug, PartialEq, Eq, Structural)]
pub enum ContractError {
    StreamNotFound,
    InvalidState,
    InvalidParams,
    /// The emergency pause, or the pause of stream creation, is on.
    ContractPaused,
    /// The start time is before the current ledger timestamp.
    StartTimeInPast,
    /// An amount does not fit its type.
    ArithmeticOverflow,
    /// The caller is not allowed to do this, or a signature is missing.
    Unauthorized,
    /// The contract is already initialised.
    AlreadyInitialised,
    /// The token balance or allowance is too small.
    InsufficientBalance,
    /// The deposit does not cover what the schedule can stream.
    InsufficientDeposit,
    /// The stream is already paused.
    StreamAlreadyPaused,
    /// The stream is not paused.
    StreamNotPaused,
    /// The stream is completed, cancelled or past its end.
    StreamTerminalState,
    /// A batch names one stream twice.
    DuplicateStreamId,
    /// A signature does not match.
    InvalidSignature,
    /// The payout is below the minimum that was signed for.
    BelowMinimumAmount,
    /// A reservation of no identifiers.
    ReservationCountZero,
    /// A reservation of more than `MAX_ID_RESERVATION` identifiers.
    ReservationLimitExceeded,
    /// The signature is no longer valid.
    SignatureDeadlineExpired,
    /// No such template.
    TemplateNotFound,
    /// Too many templates, for the owner or overall.
    TemplateLimitExceeded,
    /// The template belongs to someone else.
    TemplateUnauthorized,
    /// The pause reason is longer than `MAX_PAUSE_REASON_BYTES`.
    PauseReasonTooLong,
    ReservationNotFound,
    ReservationNotExpirable,
    ReservationStillActive,
    /// The ledger timestamp is below one that was seen before.
    ClockRegression,
    /// The operation does not apply to this kind of stream.
    UnsupportedStreamKind,
    /// The rate is above the configured cap.
    RateCapExceeded,
    /// The stream was paused or resumed too recently.
    PauseCooldownActive,
    /// The stream was withdrawn from too recently.
    WithdrawalTooFrequent,
    /// The metadata is larger than allowed.
    MetadataTooLarge,
    /// The keeper came before the grace period was over.
    KeeperGracePeriodNotElapsed,
    ReservationAlreadyActive,
    /// The dust threshold is negative or above the deposit.
    InvalidDustThreshold,
    /// The rate was changed too recently.
    RateCooldownActive,
    /// The sender cannot fund an automatic renewal.
    AutoRenewFundingUnavailable,
    /// No such offer.
    OfferNotFound,
    /// The offer has expired.
    OfferExpired,
    /// The offer is meant for someone else.
    OfferWrongRecipient,
    /// The offer was made by someone else.
    OfferWrongSender,
    /// The delegation would come back to its origin.
    CyclicDelegation,
    /// The stream is delegated too many times already.
    DelegationDepthExceeded,
    /// The token contract lacks the expected interface.
    TokenVerificationFailed,
}

impl ContractError {
    /// The number under which the error is reported to callers.
    pub open spec fn spec_code(self) -> u32 {
        match self {
            ContractError::StreamNotFound => 1,
            ContractError::InvalidState => 2,
            ContractError::InvalidParams => 3,
            ContractError::ContractPaused => 4,
            ContractError::StartTimeInPast => 5,
            ContractError::ArithmeticOverflow => 6,
            ContractError::Unauthorized => 7,
            ContractError::AlreadyInitialised => 8,
            ContractError::InsufficientBalance => 9,
            ContractError::InsufficientDeposit => 10,
            ContractError::StreamAlreadyPaused => 11,
            ContractError::StreamNotPaused => 12,
            ContractError::StreamTerminalState => 13,
            ContractError::DuplicateStreamId => 14,
            ContractError::InvalidSignature => 15,
            ContractError::BelowMinimumAmount => 16,
            ContractError::ReservationCountZero => 17,
            ContractError::ReservationLimitExceeded => 18,
            ContractError::SignatureDeadlineExpired => 19,
            ContractError::TemplateNotFound => 20,
            ContractError::TemplateLimitExceeded => 21,
            ContractError::TemplateUnauthorized => 22,
            ContractError::PauseReasonTooLong => 23,
            ContractError::ReservationNotFound => 24,
            ContractError::ReservationNotExpirable => 25,
            ContractError::ReservationStillActive => 26,
            ContractError::ClockRegression => 27,
            ContractError::UnsupportedStreamKind => 28,
            ContractError::RateCapExceeded => 29,
            ContractError::PauseCooldownActive => 30,
            ContractError::WithdrawalTooFrequent => 31,
            ContractError::MetadataTooLarge => 32,
            ContractError::KeeperGracePeriodNotElapsed => 42,
            ContractError::ReservationAlreadyActive => 34,
            ContractError::InvalidDustThreshold => 35,
            ContractError::RateCooldownActive => 36,
            ContractError::AutoRenewFundingUnavailable => 37,
            ContractError::OfferNotFound => 38,
            ContractError::OfferExpired => 39,
            ContractError::OfferWrongRecipient => 40,
            ContractError::OfferWrongSender => 41,
            ContractError::CyclicDelegation => 43,
            ContractError::DelegationDepthExceeded => 44,
            ContractError::TokenVerificationFailed => 88,
        }
    }

    /// The number under which the error is reported to callers.
    pub fn code(self) -> (r: u32)
        ensures
            r == self.spec_code(),
    {
        match self {
            ContractError::StreamNotFound => 1,
            ContractError::InvalidState => 2,
            ContractError::InvalidParams => 3,
            ContractError::ContractPaused => 4,
            ContractError::StartTimeInPast => 5,
            ContractError::ArithmeticOverflow => 6,
            ContractError::Unauthorized => 7,
            ContractError::AlreadyInitialised => 8,
            ContractError::InsufficientBalance => 9,
            ContractError::InsufficientDeposit => 10,
            ContractError::StreamAlreadyPaused => 11,
            ContractError::StreamNotPaused => 12,
            ContractError::StreamTerminalState => 13,
            ContractError::DuplicateStreamId => 14,
            ContractError::InvalidSignature => 15,
            ContractError::BelowMinimumAmount => 16,
            ContractError::ReservationCountZero => 17,
            ContractError::ReservationLimitExceeded => 18,
            ContractError::SignatureDeadlineExpired => 19,
            ContractError::TemplateNotFound => 20,
            ContractError::TemplateLimitExceeded => 21,
            ContractError::TemplateUnauthorized => 22,
            ContractError::PauseReasonTooLong => 23,
            ContractError::ReservationNotFound => 24,
            ContractError::ReservationNotExpirable => 25,
            ContractError::ReservationStillActive => 26,
            ContractError::ClockRegression => 27,
            ContractError::UnsupportedStreamKind => 28,
            ContractError::RateCapExceeded => 29,
            ContractError::PauseCooldownActive => 30,
            ContractError::WithdrawalTooFrequent => 31,
            ContractError::MetadataTooLarge => 32,
            ContractError::KeeperGracePeriodNotElapsed => 42,
            ContractError::ReservationAlreadyActive => 34,
            ContractError::InvalidDustThreshold => 35,
            ContractError::RateCooldownActive => 36,
            ContractError::AutoRenewFundingUnavailable => 37,
            ContractError::OfferNotFound => 38,
            ContractError::OfferExpired => 39,
            ContractError::OfferWrongRecipient => 40,
            ContractError::OfferWrongSender => 41,
            ContractError::CyclicDelegation => 43,
            ContractError::DelegationDepthExceeded => 44,
            ContractError::TokenVerificationFailed => 88,
        }
    }
}

/// Whose address a rotation replaced.
#[derive(Clone, Copy, Debug, PartialEq, Eq, Structural)]
pub enum RotationRole {
    Recipient,
    Sender,
}

/// One entry in the history of address rotations of a stream.
#[derive(Clone, Copy, Debug, PartialEq, Eq)]
pub struct RotationEntry {
    pub old_addr: Address,
    pub new_addr: Address,
    pub ledger: u32,
    pub role: RotationRole,
    pub authoriser: Address,
}

/// A proposed change of recipient.
#[derive(Clone, Copy, Debug, PartialEq, Eq)]
pub struct PendingRecipientUpdate {
    pub stream_id: u64,
    pub proposed_recipient: Address,
}

/// A payment stream.
#[derive(Debug, PartialEq, Eq)]
pub struct Stream {
    pub stream_id: u64,
    pub sender: Address,
    pub recipient: Address,
    /// Who may withdraw, where that is not the recipient.
    pub claim_owner: Option<Address>,
    pub deposit_amount: i128,
    pub rate_per_second: i128,
    pub start_time: u64,
    pub cliff_time: u64,
    pub end_time: u64,
    pub withdrawn_amount: i128,
    pub status: StreamStatus,
    pub cancelled_at: Option<u64>,
    /// What had accrued by `checkpointed_at` under all earlier rates.
    pub checkpointed_amount: i128,
    /// When the current rate took effect; the start time at first.
    pub checkpointed_at: u64,
    /// Withdrawals below this amount are skipped, unless they drain the stream
    /// or the stream is over.
    pub withdraw_dust_threshold: i128,
    pub last_pause_toggle_ledger: u32,
    pub last_withdraw_ledger: u32,
    pub last_rate_change_ledger: u32,
    /// Whether the stream pays several recipients pro rata.
    pub is_pooled: Option<bool>,
    pub metadata: Option<Rc<Metadata>>,
    pub memo: Option<Bytes>,
    pub kind: StreamKind,
    /// Whether cancellation and shortening are ruled out.
    pub irrevocable: Option<bool>,
    /// Who may cancel by a signed attestation.
    pub witness: Option<Address>,
    /// How many delegations lie between this stream and its root.
    pub delegation_depth: u32,
    pub parent_stream_id: Option<u64>,
}

impl Clone for Stream {
    fn clone(&self) -> (r: Self)
        ensures
            r == *self,
    {
        Stream {
            stream_id: self.stream_id,
            sender: self.sender,
            recipient: self.recipient,
            claim_owner: self.claim_owner,
            deposit_amount: self.deposit_amount,
            rate_per_second: self.rate_per_second,
            start_time: self.start_time,
            cliff_time: self.cliff_time,
            end_time: self.end_time,
            withdrawn_amount: self.withdrawn_amount,
            status: self.status,
            cancelled_at: self.cancelled_at,
            checkpointed_amount: self.checkpointed_amount,
            checkpointed_at: self.checkpointed_at,
            withdraw_dust_threshold: self.withdraw_dust_threshold,
            last_pause_toggle_ledger: self.last_pause_toggle_ledger,
            last_withdraw_ledger: self.last_withdraw_ledger,
            last_rate_change_ledger: self.last_rate_change_ledger,
            is_pooled: self.is_pooled,
            metadata: share_option(&self.metadata),
            memo: share_option(&self.memo),
            kind: self.kind,
            irrevocable: self.irrevocable,
            witness: self.witness,
            delegation_depth: self.delegation_depth,
            parent_stream_id: self.parent_stream_id,
        }
    }
}

/// A funded offer that waits for its recipient.
///
/// The deposit is held by the contract until the recipient accepts or rejects,
/// or the sender cancels. Nothing accrues before acceptance.
#[derive(Debug, PartialEq, Eq)]
pub struct StreamOffer {
    /// Becomes the stream identifier on acceptance.
    pub offer_id: u64,
    pub sender: Address,
    pub recipient: Address,
    pub deposit_amount: i128,
    pub rate_per_second: i128,
    pub start_time: u64,
    pub cliff_time: u64,
    pub end_time: u64,
    pub withdraw_dust_threshold: i128,
    pub memo: Option<Bytes>,
    pub kind: StreamKind,
    pub metadata: Option<Rc<Metadata>>,
    /// The last moment at which the offer can be accepted.
    pub expiry_time: Option<u64>,
    pub created_at: u64,
}

impl Clone for StreamOffer {
    fn clone(&self) -> (r: Self)
        ensures
            r == *self,
    {
        StreamOffer {
            offer_id: self.offer_id,
            sender: self.sender,
            recipient: self.recipient,
            deposit_amount: self.deposit_amount,
            rate_per_second: self.rate_per_second,
            start_time: self.start_time,
            cliff_time: self.cliff_time,
            end_time: self.end_time,
            withdraw_dust_threshold: self.withdraw_dust_threshold,
            memo: share_option(&self.memo),
            kind: self.kind,
            metadata: share_option(&self.metadata),
            expiry_time: self.expiry_time,
            created_at: self.created_at,
        }
    }
}

/// Parameters of a new stream, with absolute times.
#[derive(Debug, PartialEq, Eq)]
pub struct CreateStreamParams {
    pub recipient: Address,
    pub deposit_amount: i128,
    pub rate_per_second: i128,
    pub start_time: u64,
    pub cliff_time: u64,
    pub end_time: u64,
    pub withdraw_dust_threshold: Option<i128>,
    pub memo: Option<Bytes>,
    pub metadata: Option<Rc<Metadata>>,
    pub kind: StreamKind,
    pub irrevocable: Option<bool>,
    pub witness: Option<Address>,
}

/// Parameters of a new stream, with times relative to the current timestamp.
#[derive(Debug, PartialEq, Eq)]
pub struct CreateStreamRelativeParams {
    pub recipient: Address,
    pub deposit_amount: i128,
    pub rate_per_second: i128,
    /// Seconds until accrual starts.
    pub start_delay: u64,
    /// Seconds until withdrawals are allowed.
    pub cliff_delay: u64,
    /// Seconds from the start to the end.
    pub duration: u64,
    pub withdraw_dust_threshold: Option<i128>,
    pub memo: Option<Bytes>,
    pub metadata: Option<Rc<Metadata>>,
    pub kind: StreamKind,
    pub irrevocable: Option<bool>,
}

/// Optional settings of a new stream, with times relative to the current
/// timestamp.
#[derive(Debug, PartialEq, Eq)]
pub struct CreateStreamOptions {
    pub memo: Option<Bytes>,
    pub metadata: Option<Rc<Metadata>>,
    pub recipient: Address,
    pub deposit_amount: i128,
    pub rate_per_second: i128,
    pub start_delay: u64,
    pub cliff_delay: u64,
    pub duration: u64,
    pub withdraw_dust_threshold: Option<i128>,
    pub kind: StreamKind,
    pub irrevocable: Option<bool>,
}

/// A reusable relative schedule.
#[derive(Clone, Copy, Debug, PartialEq, Eq)]
pub struct StreamScheduleTemplate {
    pub template_id: u64,
    pub owner: Address,
    pub start_delay: u64,
    pub cliff_delay: u64,
    pub duration: u64,
}

/// The outcome of one entry of a batch whose entries fail independently.
#[derive(Clone, Copy, Debug, PartialEq, Eq)]
pub struct CreateStreamResult {
    pub success: bool,
    pub stream_id: Option<u64>,
    pub error: Option<u32>,
}

/// The outcome of one entry of a batch withdrawal.
#[derive(Clone, Copy, Debug, PartialEq, Eq)]
pub struct BatchWithdrawResult {
    pub stream_id: u64,
    pub amount: i128,
}

/// One entry of a batch withdrawal.
#[derive(Clone, Copy, Debug, PartialEq, Eq)]
pub struct WithdrawToParam {
    pub stream_id: u64,
    pub destination: Address,
}

/// One page of stream identifiers.
#[derive(Debug, PartialEq, Eq)]
pub struct Page {
    /// Ascending.
    pub stream_ids: Vec<u64>,
    /// Where the next page starts; 0 when there is none.
    pub next_cursor: u64,
}

/// One page of a report on all streams of a sender.
#[derive(Debug, PartialEq, Eq)]
pub struct PortfolioHealthPage {
    /// Running streams whose deposit does not cover the schedule.
    pub underfunded_count: u32,
    /// Streams past their end that are neither completed nor cancelled.
    pub expired_count: u32,
    /// Running streams that are neither underfunded nor expired.
    pub healthy_count: u32,
    /// Where the next page starts; 0 when there is none.
    pub next_cursor: u64,
    /// The streams on this page, ascending.
    pub stream_ids: Vec<u64>,
}

/// A destination that an automatic claim can pay.
#[derive(Clone, Copy, Debug, PartialEq, Eq)]
pub struct AutoClaimValidPayload {
    pub destination: Address,
    pub claimable: i128,
}

/// A destination that an automatic claim cannot pay.
#[derive(Clone, Copy, Debug, PartialEq, Eq)]
pub struct AutoClaimInvalidPayload {
    pub destination: Address,
}

/// The state of the automatic claim of a stream.
#[derive(Clone, Copy, Debug, PartialEq, Eq)]
pub enum AutoClaimStatus {
    NotSet,
    ValidDestination(AutoClaimValidPayload),
    InvalidDestination(AutoClaimInvalidPayload),
}

/// One recipient's share of a pooled stream.
#[derive(Clone, Copy, Debug, PartialEq, Eq)]
pub struct PoolShare {
    pub recipient: Address,
    pub share: u32,
}

/// What is known of the current protocol pause.
#[derive(Debug, PartialEq, Eq)]
pub struct PauseInfo {
    pub is_paused: bool,
    pub reason: Option<Text>,
    pub paused_at: Option<u64>,
    pub paused_by: Option<Address>,
}

/// A pause by the administrator.
#[derive(Clone, Copy, Debug, PartialEq, Eq)]
pub struct PauseRecord {
    pub actor: Address,
    pub timestamp: u64,
    pub reason: PauseReason,
}

impl View for Stream {
    type V = Stream;

    open spec fn view(&self) -> Stream {
        *self
    }
}

impl View for StreamOffer {
    type V = StreamOffer;

    open spec fn view(&self) -> StreamOffer {
        *self
    }
}

impl View for StreamScheduleTemplate {
    type V = StreamScheduleTemplate;

    open spec fn view(&self) -> StreamScheduleTemplate {
        *self
    }
}

impl View for PendingRecipientUpdate {
    type V = PendingRecipientUpdate;

    open spec fn view(&self) -> PendingRecipientUpdate {
        *self
    }
}

impl View for IdReservation {
    type V = IdReservation;

    open spec fn view(&self) -> IdReservation {
        *self
    }
}

impl View for Address {
    type V = Address;

    open spec fn view(&self) -> Address {
        *self
    }
}

} // verus!
