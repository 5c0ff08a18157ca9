//! What the administrator does.

use crate::events::{
    ContractPauseChanged, ContractUpgraded, Effect, Event, ExcessSwept,
    GlobalEmergencyPauseChanged, GlobalResumed, ProtocolPaused, ProtocolResumed,
};
use crate::state::{Call, ContractState, FluxoraStream};
use crate::types::{Address, Config, ContractError, PauseInfo, Text, Word};
use vstd::prelude::*;

verus! {

/// The longest pause reason, in bytes.
pub const MAX_PAUSE_REASON_BYTES: usize = 256;

/// The revision of the protocol.
pub const CONTRACT_VERSION: u32 = 9;

/// The text of a pause reason; empty if there is none.
pub open spec fn reason_text(reason: Option<Text>) -> Text {
    match reason {
        Some(text) => text,
        None => Text { bytes: None },
    }
}

impl ContractState {
    /// Why the contract is not initialised.
    pub open spec fn init_error(self, call: Call, admin: Address, token_verified: bool) -> Option<
        ContractError,
    > {
        if !call.authorised(admin) {
            Some(ContractError::Unauthorized)
        } else if self.config is Some {
            Some(ContractError::AlreadyInitialised)
        } else if !token_verified {
            Some(ContractError::TokenVerificationFailed)
        } else {
            None
        }
    }

    /// The state after initialisation.
    pub open spec fn init_step(self, token: Address, admin: Address) -> Self {
        ContractState {
            config: Some(Config { token, admin }),
            next_stream_id: 0,
            paused_stream_count: 0,
            next_template_id: 0,
            active_template_count: 0,
            total_liabilities: 0,
            total_keeper_fees_paid: 0,
            ..self
        }
    }

    /// Nothing was set aside or registered yet.
    pub open spec fn untouched(self) -> bool {
        &&& self.reservations == Map::<Address, crate::types::IdReservation>::empty()
        &&& self.templates == Map::<u64, crate::types::StreamScheduleTemplate>::empty()
        &&& self.owner_templates == Map::<Address, Seq<u64>>::empty()
    }

    /// The state with another administrator.
    pub open spec fn set_admin_step(self, new_admin: Address) -> Self {
        (ContractState {
            config: Some(Config { token: self.config->0.token, admin: new_admin }),
            ..self
        }).emit(Event::AdminUpdated { old_admin: self.config->0.admin, new_admin })
    }

    /// Why the cap on rates is not changed.
    pub open spec fn set_max_rate_error(self, call: Call, max_rate: i128) -> Option<ContractError> {
        match self.admin_error(call) {
            Some(e) => Some(e),
            None => if max_rate <= 0 {
                Some(ContractError::InvalidParams)
            } else {
                None
            },
        }
    }

    /// Why the emergency pause is not lifted.
    pub open spec fn global_resume_error(self, call: Call) -> Option<ContractError> {
        match self.admin_error(call) {
            Some(e) => Some(e),
            None => if !self.emergency_paused {
                Some(ContractError::InvalidState)
            } else {
                None
            },
        }
    }

    /// Why a call in the administrator's name is refused.
    pub open spec fn named_admin_error(self, call: Call, admin: Address) -> Option<ContractError> {
        if !call.authorised(admin) {
            Some(ContractError::Unauthorized)
        } else if self.config is None {
            Some(ContractError::InvalidState)
        } else if Some(admin) != self.admin() {
            Some(ContractError::Unauthorized)
        } else {
            None
        }
    }

    /// Why the protocol is not paused.
    pub open spec fn pause_protocol_error(
        self,
        call: Call,
        admin: Address,
        reason: Option<Text>,
    ) -> Option<ContractError> {
        match self.named_admin_error(call, admin) {
            Some(e) => Some(e),
            None => if !self.creation_blocked() && reason_text(reason).spec_len()
                > MAX_PAUSE_REASON_BYTES {
                Some(ContractError::PauseReasonTooLong)
            } else {
                None
            },
        }
    }

    /// The state with the protocol paused; unchanged if it is paused already.
    pub open spec fn pause_protocol_step(
        self,
        call: Call,
        admin: Address,
        reason: Option<Text>,
    ) -> Self {
        if self.creation_blocked() {
            self
        } else {
            (ContractState {
                emergency_paused: true,
                pause_reason: Some(reason_text(reason)),
                pause_timestamp: Some(call.timestamp),
                pause_admin: Some(admin),
                ..self
            }).emit(
                Event::ProtocolPaused(
                    admin,
                    ProtocolPaused { reason: reason_text(reason), paused_at: call.timestamp },
                ),
            )
        }
    }

    /// The state with the protocol running; unchanged if it runs already.
    pub open spec fn resume_protocol_step(self, call: Call, admin: Address) -> Self {
        if !self.creation_blocked() {
            self
        } else {
            (ContractState {
                emergency_paused: false,
                creation_paused: false,
                pause_reason: None,
                pause_timestamp: None,
                pause_admin: None,
                ..self
            }).emit(
                Event::ProtocolResumed(admin, ProtocolResumed { resumed_at: call.timestamp }),
            )
        }
    }

    /// What is known of the current protocol pause.
    pub open spec fn pause_info(self) -> PauseInfo {
        if self.creation_blocked() {
            PauseInfo {
                is_paused: true,
                reason: self.pause_reason,
                paused_at: self.pause_timestamp,
                paused_by: self.pause_admin,
            }
        } else {
            PauseInfo { is_paused: false, reason: None, paused_at: None, paused_by: None }
        }
    }

    /// What the contract holds above what it owes.
    pub open spec fn excess(self, call: Call) -> int {
        let difference = call.balance - self.total_liabilities;
        if difference <= 0 {
            0
        } else if difference > i128::MAX {
            i128::MAX as int
        } else {
            difference
        }
    }

    /// Why the excess is not taken out.
    pub open spec fn sweep_error(self, call: Call) -> Option<ContractError> {
        match self.admin_error(call) {
            Some(e) => Some(e),
            None => if self.excess(call) > 0 && self.locked {
                Some(ContractError::InvalidState)
            } else {
                None
            },
        }
    }

    /// The state with the excess taken out.
    pub open spec fn sweep_step(self, call: Call, recipient: Address) -> Self {
        let amount = self.excess(call) as i128;
        if amount == 0 {
            self
        } else {
            self.emit(Event::Swept(ExcessSwept { to: recipient, amount })).push(recipient, amount)
        }
    }

    /// The state with the contract's code replaced.
    pub open spec fn upgrade_step(self, call: Call, new_wasm_hash: Word) -> Self {
        let admin = self.admin()->0;
        (ContractState {
            effects: self.effects.push(Effect::Replace { new_wasm_hash }),
            ..self
        }).emit(
            Event::Upgraded(
                ContractUpgraded {
                    new_wasm_hash,
                    new_version: CONTRACT_VERSION,
                    upgraded_at: call.timestamp,
                    upgraded_by: admin,
                },
            ),
        ).emit(
            Event::UpgradedLegacy {
                new_wasm_hash,
                old_version: CONTRACT_VERSION,
                new_version: CONTRACT_VERSION,
                admin,
            },
        )
    }
}

/// Replaces the contract's code, at the wish of the administrator.
pub fn upgrade(contract: &mut FluxoraStream, call: &Call, new_wasm_hash: Word) -> (r: Result<
    (),
    ContractError,
>)
    requires
        old(contract)@.wf(),
    ensures
        final(contract)@.wf(),
        match old(contract)@.admin_error(*call) {
            Some(e) => r == Err::<(), ContractError>(e) && final(contract)@ == old(contract)@,
            None => {
                &&& r == Ok::<(), ContractError>(())
                &&& final(contract)@ == old(contract)@.upgrade_step(*call, new_wasm_hash)
            },
        },
{
    let admin = match contract.require_admin(call) {
        Err(e) => {
            return Err(e);
        },
        Ok(admin) => admin,
    };
    contract.effects.push(Effect::Replace { new_wasm_hash });
    contract.emit(
        Event::Upgraded(
            ContractUpgraded {
                new_wasm_hash,
                new_version: CONTRACT_VERSION,
                upgraded_at: call.timestamp,
                upgraded_by: admin,
            },
        ),
    );
    contract.emit(
        Event::UpgradedLegacy {
            new_wasm_hash,
            old_version: CONTRACT_VERSION,
            new_version: CONTRACT_VERSION,
            admin,
        },
    );
    Ok(())
}

/// Initialisation leaves a state in order where nothing was set aside or
/// registered before.
proof fn lemma_init(s: ContractState, token: Address, admin: Address)
    requires
        s.wf(),
        s.config is None,
        s.untouched(),
    ensures
        s.init_step(token, admin).wf(),
{
    reveal(crate::state::registry_ok);
    reveal(crate::state::templates_ok);
    reveal(crate::state::nothing_stored);
}

impl FluxoraStream {
    /// Sets the token and the administrator, once. `token_verified` tells
    /// whether the token answered as a token should.
    pub fn init(
        &mut self,
        call: &Call,
        token: Address,
        admin: Address,
        token_verified: bool,
    ) -> (r: Result<(), ContractError>)
        requires
            old(self)@.wf(),
        ensures
            match old(self)@.init_error(*call, admin, token_verified) {
                Some(e) => r == Err::<(), ContractError>(e) && final(self)@ == old(self)@,
                None => {
                    &&& r == Ok::<(), ContractError>(())
                    &&& final(self)@ == old(self)@.init_step(token, admin)
                },
            },
            r is Err || old(self)@.untouched() ==> final(self)@.wf(),
    {
        if !call.is_signed_by(admin) {
            return Err(ContractError::Unauthorized);
        }
        if self.config.is_some() {
            return Err(ContractError::AlreadyInitialised);
        }
        if !token_verified {
            return Err(ContractError::TokenVerificationFailed);
        }
        proof {
            if self@.untouched() {
                lemma_init(self@, token, admin);
            }
        }
        self.config = Some(Config { token, admin });
        self.next_stream_id = 0;
        self.paused_stream_count = 0;
        self.next_template_id = 0;
        self.active_template_count = 0;
        self.total_liabilities = 0;
        self.total_keeper_fees_paid = 0;
        Ok(())
    }

    /// Hands the administration over.
    pub fn set_admin(&mut self, call: &Call, new_admin: Address) -> (r: Result<(), ContractError>)
        requires
            old(self)@.wf(),
        ensures
            final(self)@.wf(),
            match old(self)@.admin_error(*call) {
                Some(e) => r == Err::<(), ContractError>(e) && final(self)@ == old(self)@,
                None => {
                    &&& r == Ok::<(), ContractError>(())
                    &&& final(self)@ == old(self)@.set_admin_step(new_admin)
                },
            },
    {
        let config = match self.config {
            None => {
                return Err(ContractError::InvalidState);
            },
            Some(config) => config,
        };
        if !call.is_signed_by(config.admin) {
            return Err(ContractError::Unauthorized);
        }
        self.config = Some(Config { token: config.token, admin: new_admin });
        self.emit(Event::AdminUpdated { old_admin: config.admin, new_admin });
        Ok(())
    }

    /// Sets the highest rate that a stream may get from now on.
    pub fn set_max_rate_per_second(&mut self, call: &Call, max_rate: i128) -> (r: Result<
        (),
        ContractError,
    >)
        requires
            old(self)@.wf(),
        ensures
            final(self)@.wf(),
            match old(self)@.set_max_rate_error(*call, max_rate) {
                Some(e) => r == Err::<(), ContractError>(e) && final(self)@ == old(self)@,
                None => {
                    &&& r == Ok::<(), ContractError>(())
                    &&& final(self)@ == (ContractState {
                        max_rate_per_second: max_rate,
                        ..old(self)@
                    })
                },
            },
    {
        if let Err(e) = self.require_admin(call) {
            return Err(e);
        }
        if max_rate <= 0 {
            return Err(ContractError::InvalidParams);
        }
        self.max_rate_per_second = max_rate;
        Ok(())
    }

    /// Switches the emergency pause.
    pub fn set_global_emergency_paused(&mut self, call: &Call, paused: bool)
        requires
            old(self)@.wf(),
            old(self)@.admin_error(*call) is None,
        ensures
            final(self)@.wf(),
            final(self)@ == (ContractState { emergency_paused: paused, ..old(self)@ }).emit(
                Event::EmergencyPause(GlobalEmergencyPauseChanged { paused }),
            ),
    {
        self.emergency_paused = paused;
        self.emit(Event::EmergencyPause(GlobalEmergencyPauseChanged { paused }));
    }

    /// Lifts the emergency pause.
    pub fn global_resume(&mut self, call: &Call) -> (r: Result<(), ContractError>)
        requires
            old(self)@.wf(),
        ensures
            final(self)@.wf(),
            match old(self)@.global_resume_error(*call) {
                Some(e) => r == Err::<(), ContractError>(e) && final(self)@ == old(self)@,
                None => {
                    &&& r == Ok::<(), ContractError>(())
                    &&& final(self)@ == (ContractState {
                        emergency_paused: false,
                        ..old(self)@
                    }).emit(Event::GlobalResumed(GlobalResumed { resumed_at: call.timestamp }))
                },
            },
    {
        if let Err(e) = self.require_admin(call) {
            return Err(e);
        }
        if !self.emergency_paused {
            return Err(ContractError::InvalidState);
        }
        self.emergency_paused = false;
        self.emit(Event::GlobalResumed(GlobalResumed { resumed_at: call.timestamp }));
        Ok(())
    }

    /// Switches the pause of stream creation.
    pub fn set_contract_paused(&mut self, call: &Call, paused: bool) -> (r: Result<
        (),
        ContractError,
    >)
        requires
            old(self)@.wf(),
        ensures
            final(self)@.wf(),
            match old(self)@.admin_error(*call) {
                Some(e) => r == Err::<(), ContractError>(e) && final(self)@ == old(self)@,
                None => {
                    &&& r == Ok::<(), ContractError>(())
                    &&& final(self)@ == (ContractState {
                        creation_paused: paused,
                        ..old(self)@
                    }).emit(Event::CreationPause(ContractPauseChanged { paused }))
                },
            },
    {
        if let Err(e) = self.require_admin(call) {
            return Err(e);
        }
        self.creation_paused = paused;
        self.emit(Event::CreationPause(ContractPauseChanged { paused }));
        Ok(())
    }

    /// Refuses a call in the name of somebody who is not the administrator.
    fn require_named_admin(&self, call: &Call, admin: Address) -> (r: Result<(), ContractError>)
        ensures
            match self@.named_admin_error(*call, admin) {
                Some(e) => r == Err::<(), ContractError>(e),
                None => r == Ok::<(), ContractError>(()),
            },
    {
        if !call.is_signed_by(admin) {
            return Err(ContractError::Unauthorized);
        }
        match self.config {
            None => Err(ContractError::InvalidState),
            Some(config) => if admin == config.admin {
                Ok(())
            } else {
                Err(ContractError::Unauthorized)
            },
        }
    }

    /// Pauses the protocol and keeps a record of why, when and by whom.
    /// Nothing happens if it is paused already.
    pub fn pause_protocol(&mut self, call: &Call, admin: Address, reason: Option<Text>) -> (r:
        Result<(), ContractError>)
        requires
            old(self)@.wf(),
        ensures
            final(self)@.wf(),
            match old(self)@.pause_protocol_error(*call, admin, reason) {
                Some(e) => r == Err::<(), ContractError>(e) && final(self)@ == old(self)@,
                None => {
                    &&& r == Ok::<(), ContractError>(())
                    &&& final(self)@ == old(self)@.pause_protocol_step(*call, admin, reason)
                },
            },
    {
        if let Err(e) = self.require_named_admin(call, admin) {
            return Err(e);
        }
        if self.emergency_paused || self.creation_paused {
            return Ok(());
        }
        let text = match reason {
            Some(text) => text,
            None => Text { bytes: None },
        };
        if text.len() > MAX_PAUSE_REASON_BYTES {
            return Err(ContractError::PauseReasonTooLong);
        }
        self.emergency_paused = true;
        self.pause_reason = Some(text.clone());
        self.pause_timestamp = Some(call.timestamp);
        self.pause_admin = Some(admin);
        self.emit(
            Event::ProtocolPaused(
                admin,
                ProtocolPaused { reason: text, paused_at: call.timestamp },
            ),
        );
        Ok(())
    }

    /// Ends every pause of the protocol, that of stream creation included, and
    /// drops the record. Nothing happens if nothing is paused.
    pub fn resume_protocol(&mut self, call: &Call, admin: Address) -> (r: Result<
        (),
        ContractError,
    >)
        requires
            old(self)@.wf(),
        ensures
            final(self)@.wf(),
            match old(self)@.named_admin_error(*call, admin) {
                Some(e) => r == Err::<(), ContractError>(e) && final(self)@ == old(self)@,
                None => {
                    &&& r == Ok::<(), ContractError>(())
                    &&& final(self)@ == old(self)@.resume_protocol_step(*call, admin)
                },
            },
    {
        if let Err(e) = self.require_named_admin(call, admin) {
            return Err(e);
        }
        if !(self.emergency_paused || self.creation_paused) {
            return Ok(());
        }
        self.emergency_paused = false;
        self.creation_paused = false;
        self.pause_reason = None;
        self.pause_timestamp = None;
        self.pause_admin = None;
        self.emit(
            Event::ProtocolResumed(admin, ProtocolResumed { resumed_at: call.timestamp }),
        );
        Ok(())
    }

    /// Whether new streams are refused.
    pub fn is_paused(&self) -> (r: bool)
        ensures
            r == self@.creation_blocked(),
    {
        self.emergency_paused || self.creation_paused
    }

    /// What is known of the current protocol pause.
    pub fn get_pause_info(&self) -> (r: PauseInfo)
        ensures
            r == self@.pause_info(),
    {
        if self.is_paused() {
            PauseInfo {
                is_paused: true,
                reason: match &self.pause_reason {
                    Some(text) => Some(text.clone()),
                    None => None,
                },
                paused_at: self.pause_timestamp,
                paused_by: self.pause_admin,
            }
        } else {
            PauseInfo { is_paused: false, reason: None, paused_at: None, paused_by: None }
        }
    }

    /// Takes out what the contract holds above what it owes.
    pub fn sweep_excess(&mut self, call: &Call, recipient: Address) -> (r: Result<
        i128,
        ContractError,
    >)
        requires
            old(self)@.wf(),
        ensures
            final(self)@.wf(),
            match old(self)@.sweep_error(*call) {
                Some(e) => r == Err::<i128, ContractError>(e) && final(self)@ == old(self)@,
                None => {
                    &&& r == Ok::<i128, ContractError>(old(self)@.excess(*call) as i128)
                    &&& final(self)@ == old(self)@.sweep_step(*call, recipient)
                },
            },
    {
        if let Err(e) = self.require_admin(call) {
            return Err(e);
        }
        if call.balance <= self.total_liabilities {
            return Ok(0);
        }
        let excess: i128 = match call.balance.checked_sub(self.total_liabilities) {
            Some(excess) => excess,
            None => i128::MAX,
        };
        if self.locked {
            return Err(ContractError::InvalidState);
        }
        self.emit(Event::Swept(ExcessSwept { to: recipient, amount: excess }));
        self.push_token(recipient, excess);
        Ok(excess)
    }
}

} // verus!
