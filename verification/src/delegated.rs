//! Withdrawals and cancellations that a signature stands for.

use crate::events::{Event, StreamEvent, Withdrawal};
use crate::state::{Call, ContractState, FluxoraStream};
use crate::types::{Address, ContractError, StreamStatus, Word};
use vstd::prelude::*;

verus! {

/// The last `n` bytes of a number, most significant byte first.
pub open spec fn big_endian(value: int, n: nat) -> Seq<u8>
    decreases n,
{
    if n == 0 {
        Seq::empty()
    } else {
        big_endian(value / 256, (n - 1) as nat).push((value % 256) as u8)
    }
}

/// The number that stands for a signed amount in 128 bits.
pub open spec fn unsigned(amount: i128) -> int {
    if amount >= 0 {
        amount as int
    } else {
        amount + u128::MAX + 1
    }
}

/// Appends the last `n` bytes of a number, most significant byte first.
fn append_big_endian(out: &mut Vec<u8>, value: u128, n: u8)
    ensures
        final(out)@ == old(out)@ + big_endian(value as int, n as nat),
    decreases n,
{
    if n > 0 {
        append_big_endian(out, value / 256, n - 1);
        out.push((value % 256) as u8);
    }
    assert(out@ =~= old(out)@ + big_endian(value as int, n as nat));
}

/// Appends the sixteen bytes of a signed amount.
fn append_amount(out: &mut Vec<u8>, amount: i128)
    ensures
        final(out)@ == old(out)@ + big_endian(unsigned(amount), 16),
{
    let value: u128 = if amount >= 0 {
        amount as u128
    } else {
        u128::MAX - (-(amount + 1)) as u128
    };
    append_big_endian(out, value, 16);
}

/// What a recipient signs to let a relayer withdraw: the stream, the nonce,
/// the deadline, the least acceptable payout and the relayer's fee.
pub open spec fn withdraw_message(
    stream_id: u64,
    nonce: u64,
    deadline: u64,
    expected_minimum_amount: i128,
    relayer_fee: i128,
) -> Seq<u8> {
    big_endian(stream_id as int, 8) + big_endian(nonce as int, 8) + big_endian(
        deadline as int,
        8,
    ) + big_endian(unsigned(expected_minimum_amount), 16) + big_endian(unsigned(relayer_fee), 16)
}

/// What a recipient signs to let a relayer withdraw.
pub fn build_delegated_withdraw_message(
    stream_id: u64,
    nonce: u64,
    deadline: u64,
    expected_minimum_amount: i128,
    relayer_fee: i128,
) -> (r: Vec<u8>)
    ensures
        r@ == withdraw_message(stream_id, nonce, deadline, expected_minimum_amount, relayer_fee),
{
    let mut r: Vec<u8> = Vec::new();
    append_big_endian(&mut r, stream_id as u128, 8);
    append_big_endian(&mut r, nonce as u128, 8);
    append_big_endian(&mut r, deadline as u128, 8);
    append_amount(&mut r, expected_minimum_amount);
    append_amount(&mut r, relayer_fee);
    assert(r@ =~= withdraw_message(
        stream_id,
        nonce,
        deadline,
        expected_minimum_amount,
        relayer_fee,
    ));
    r
}

/// The tag that sets attestations of a cancellation apart from other messages.
pub open spec fn witnessed_cancel_tag() -> Seq<u8> {
    seq![
        0x77u8, 0x69, 0x74, 0x6e, 0x65, 0x73, 0x73, 0x65, 0x64, 0x5f, 0x63, 0x61, 0x6e, 0x63, 0x65,
        0x6c,
    ]
}

/// What a witness signs to cancel a stream: the tag `witnessed_cancel`, the
/// stream and the deadline.
pub open spec fn cancel_message(stream_id: u64, deadline: u64) -> Seq<u8> {
    witnessed_cancel_tag() + big_endian(stream_id as int, 8) + big_endian(deadline as int, 8)
}

/// What a witness signs to cancel a stream.
pub fn build_witnessed_cancel_message(stream_id: u64, deadline: u64) -> (r: Vec<u8>)
    ensures
        r@ == cancel_message(stream_id, deadline),
{
    let mut r: Vec<u8> = vec![
        0x77, 0x69, 0x74, 0x6e, 0x65, 0x73, 0x73, 0x65, 0x64, 0x5f, 0x63, 0x61, 0x6e, 0x63, 0x65,
        0x6c,
    ];
    assert(r@ =~= witnessed_cancel_tag());
    append_big_endian(&mut r, stream_id as u128, 8);
    append_big_endian(&mut r, deadline as u128, 8);
    assert(r@ =~= cancel_message(stream_id, deadline));
    r
}

/// A request to withdraw that the recipient signed and a relayer hands in.
#[derive(Clone, Copy, Debug, PartialEq, Eq)]
pub struct DelegatedWithdrawal {
    pub stream_id: u64,
    /// Who hands the request in and may get a fee.
    pub relayer: Address,
    /// The key that the request was signed with.
    pub recipient_public_key: Word,
    pub nonce: u64,
    /// The last moment at which the request is good.
    pub deadline: u64,
    /// The least that the recipient accepts, after the fee.
    pub expected_minimum_amount: i128,
    pub relayer_fee: i128,
    /// Whether the signature matches the key and the message.
    pub signature_valid: bool,
}

impl ContractState {
    /// The nonce that the next delegated withdrawal of `who` must carry.
    pub open spec fn delegated_nonce(self, who: Address) -> u64 {
        if self.delegated_nonces.dom().contains(who) {
            self.delegated_nonces[who]
        } else {
            0
        }
    }

    /// The state in which the next delegated withdrawal of `who` must carry the
    /// next nonce.
    pub open spec fn use_nonce(self, who: Address) -> Self {
        ContractState {
            delegated_nonces: self.delegated_nonces.insert(
                who,
                (self.delegated_nonce(who) + 1) as u64,
            ),
            ..self
        }
    }

    /// What a delegated withdrawal takes out of the stream, fee and all.
    pub open spec fn delegated_gross(self, call: Call, id: u64) -> int {
        self.streams[id].spec_payable(self.lookback_of(id), call.timestamp, call.balance)
    }

    /// Why a delegated withdrawal is refused before its signature counts.
    pub open spec fn delegated_admission_error(
        self,
        call: Call,
        request: DelegatedWithdrawal,
    ) -> Option<ContractError> {
        let stream = self.streams[request.stream_id];
        if self.emergency_paused {
            Some(ContractError::ContractPaused)
        } else if !call.authorised(request.relayer) {
            Some(ContractError::Unauthorized)
        } else if request.deadline < call.timestamp {
            Some(ContractError::SignatureDeadlineExpired)
        } else if !self.streams.dom().contains(request.stream_id) {
            Some(ContractError::StreamNotFound)
        } else if request.nonce != self.delegated_nonce(stream.recipient) {
            Some(ContractError::InvalidSignature)
        } else if request.relayer_fee < 0 {
            Some(ContractError::InvalidParams)
        } else if stream.spec_too_soon(call.sequence) {
            Some(ContractError::WithdrawalTooFrequent)
        } else if stream.recipient != Address::Account(request.recipient_public_key) {
            Some(ContractError::InvalidSignature)
        } else {
            None
        }
    }

    /// Why a delegated withdrawal is refused.
    pub open spec fn delegated_withdraw_error(
        self,
        call: Call,
        request: DelegatedWithdrawal,
    ) -> Option<ContractError> {
        let stream = self.streams[request.stream_id];
        let gross = self.delegated_gross(call, request.stream_id);
        if self.delegated_admission_error(call, request) is Some {
            self.delegated_admission_error(call, request)
        } else if !request.signature_valid {
            Some(ContractError::InvalidSignature)
        } else if stream.spec_blocked(call.timestamp) {
            Some(ContractError::InvalidState)
        } else if self.accrual_blocked(stream, call.timestamp) {
            Some(ContractError::ClockRegression)
        } else if self.config is None {
            Some(ContractError::InvalidState)
        } else if gross < request.relayer_fee {
            Some(ContractError::InsufficientBalance)
        } else if gross - request.relayer_fee < request.expected_minimum_amount {
            Some(ContractError::BelowMinimumAmount)
        } else {
            None
        }
    }

    /// What the recipient gets from a delegated withdrawal.
    pub open spec fn delegated_net(self, call: Call, request: DelegatedWithdrawal) -> int {
        self.delegated_gross(call, request.stream_id) - request.relayer_fee
    }

    /// The state after a delegated withdrawal: the nonce is used up, and what
    /// leaves the stream is no longer owed. The recipient is paid first, then
    /// the relayer.
    pub open spec fn delegated_withdraw_step(
        self,
        call: Call,
        request: DelegatedWithdrawal,
    ) -> Self {
        let stream = self.streams[request.stream_id];
        let gross = self.delegated_gross(call, request.stream_id);
        let net = self.delegated_net(call, request) as i128;
        let s = self.accrue(stream, call.timestamp).use_nonce(stream.recipient);
        if gross == 0 {
            s
        } else {
            let after = stream.spec_paid(gross, call.sequence);
            let stored = s.put(after).recount(stream.status, after.status).settle(gross as i128);
            let recipient_paid = if net > 0 {
                stored.push(stream.recipient, net)
            } else {
                stored
            };
            let relayer_paid = if request.relayer_fee > 0 {
                recipient_paid.push(request.relayer, request.relayer_fee)
            } else {
                recipient_paid
            };
            let announced = relayer_paid.emit(
                Event::Withdrew(
                    Withdrawal {
                        stream_id: request.stream_id,
                        recipient: stream.recipient,
                        amount: net,
                    },
                ),
            );
            if after.status == StreamStatus::Completed && stream.status
                != StreamStatus::Completed {
                announced.emit(
                    Event::Status(StreamEvent::StreamCompleted(request.stream_id)),
                )
            } else {
                announced
            }
        }
    }
}

impl FluxoraStream {
    /// The nonce that the next delegated withdrawal of `recipient` must carry.
    pub fn get_delegated_nonce(&self, recipient: Address) -> (r: u64)
        ensures
            r == self@.delegated_nonce(recipient),
    {
        match self.delegated_nonces.get(recipient) {
            Some(nonce) => *nonce,
            None => 0,
        }
    }

    /// Refuses a delegated withdrawal for whatever does not depend on its
    /// signature. Only a request that passes is worth a look at the signature.
    pub fn admit_delegated_withdrawal(&self, call: &Call, request: DelegatedWithdrawal) -> (r:
        Result<(), ContractError>)
        requires
            self@.wf(),
        ensures
            match self@.delegated_admission_error(*call, request) {
                Some(e) => r == Err::<(), ContractError>(e),
                None => r == Ok::<(), ContractError>(()),
            },
    {
        if self.emergency_paused {
            return Err(ContractError::ContractPaused);
        }
        if !call.is_signed_by(request.relayer) {
            return Err(ContractError::Unauthorized);
        }
        if request.deadline < call.timestamp {
            return Err(ContractError::SignatureDeadlineExpired);
        }
        let stream = match self.load_stream(request.stream_id) {
            Err(e) => {
                return Err(e);
            },
            Ok(stream) => stream,
        };
        let recipient = stream.recipient;
        if request.nonce != self.get_delegated_nonce(recipient) {
            return Err(ContractError::InvalidSignature);
        }
        if request.relayer_fee < 0 {
            return Err(ContractError::InvalidParams);
        }
        if stream.too_soon(call.sequence) {
            return Err(ContractError::WithdrawalTooFrequent);
        }
        if recipient != Address::Account(request.recipient_public_key) {
            return Err(ContractError::InvalidSignature);
        }
        Ok(())
    }

    /// Pays out what has been earned at the request of a relayer. The
    /// recipient authorises the request by a signature over
    /// [`build_delegated_withdraw_message`], and the nonce, which every request
    /// that is carried out uses up, keeps a signature from being used again.
    pub fn delegated_withdraw(&mut self, call: &Call, request: DelegatedWithdrawal) -> (r: Result<
        i128,
        ContractError,
    >)
        requires
            old(self)@.wf(),
            request.nonce < u64::MAX,
        ensures
            final(self)@.wf(),
            match old(self)@.delegated_withdraw_error(*call, request) {
                Some(e) => r == Err::<i128, ContractError>(e) && final(self)@ == old(self)@,
                None => {
                    &&& r == Ok::<i128, ContractError>(
                        old(self)@.delegated_net(*call, request) as i128,
                    )
                    &&& 0 <= old(self)@.delegated_net(*call, request) <= i128::MAX
                    &&& final(self)@ == old(self)@.delegated_withdraw_step(*call, request)
                },
            },
    {
        if let Err(e) = self.admit_delegated_withdrawal(call, request) {
            return Err(e);
        }
        if !request.signature_valid {
            return Err(ContractError::InvalidSignature);
        }
        let mut stream = match self.load_stream(request.stream_id) {
            Err(e) => {
                return Err(e);
            },
            Ok(stream) => stream,
        };
        let recipient = stream.recipient;
        if stream.blocked(call.timestamp) {
            return Err(ContractError::InvalidState);
        }
        if self.accrual_blocked(&stream, call.timestamp) {
            return Err(ContractError::ClockRegression);
        }
        if self.config.is_none() {
            return Err(ContractError::InvalidState);
        }
        let earned: i128 = stream.earned(call.timestamp);
        let gross: i128 = stream.payable(
            self.max_lookback_ledgers(request.stream_id),
            call.timestamp,
            call.balance,
            earned,
        );
        if gross < request.relayer_fee {
            return Err(ContractError::InsufficientBalance);
        }
        let net: i128 = gross - request.relayer_fee;
        if net < request.expected_minimum_amount {
            return Err(ContractError::BelowMinimumAmount);
        }
        self.accrue(&stream, call.timestamp);
        self.delegated_nonces.insert(recipient, request.nonce + 1);
        if gross == 0 {
            return Ok(0);
        }
        let previous = stream.status;
        let completed: bool = stream.book_withdrawal(gross, call.sequence);
        self.update_stream(&stream);
        self.reconcile_paused_stream_count(previous, stream.status);
        self.settle(gross);
        if net > 0 {
            self.push_token(recipient, net);
        }
        if request.relayer_fee > 0 {
            self.push_token(request.relayer, request.relayer_fee);
        }
        self.emit(
            Event::Withdrew(
                Withdrawal { stream_id: request.stream_id, recipient, amount: net },
            ),
        );
        if completed {
            self.emit(Event::Status(StreamEvent::StreamCompleted(request.stream_id)));
        }
        Ok(net)
    }
}

} // verus!
