//! Recipients, relayers, witnesses, offers and the administrator.

use fluxora_stream::admin::upgrade;
use fluxora_stream::delegated::DelegatedWithdrawal;
use fluxora_stream::events::{Effect, Event};
use fluxora_stream::state::{Call, FluxoraStream};
use fluxora_stream::types::{
    Address, AutoClaimInvalidPayload, AutoClaimStatus, AutoClaimValidPayload, ContractError,
    CreateStreamParams, PendingRecipientUpdate, StreamKind, StreamStatus, Text, Word,
};
use std::rc::Rc;

fn account(n: u128) -> Address {
    Address::Account(Word { high: 0, low: n })
}

fn me() -> Address {
    Address::Contract(Word { high: 1, low: 0 })
}

fn token() -> Address {
    Address::Contract(Word { high: 2, low: 0 })
}

fn admin() -> Address {
    account(100)
}

fn sender() -> Address {
    account(1)
}

fn recipient() -> Address {
    account(2)
}

/// A contract, the ledger around it and a token that obeys its effects.
struct World {
    contract: FluxoraStream,
    now: u64,
    sequence: u32,
    balances: Vec<(Address, i128)>,
    events: Vec<Event>,
}

impl World {
    fn new() -> World {
        let mut world = World {
            contract: FluxoraStream::new(soroban_sdk::Env::default()),
            now: 0,
            sequence: 1,
            balances: vec![(sender(), 1_000_000_000_000)],
            events: Vec::new(),
        };
        let call = world.call(&[admin()]);
        assert_eq!(world.contract.init(&call, token(), admin(), true), Ok(()));
        world
    }

    fn balance(&self, who: Address) -> i128 {
        for (owner, amount) in self.balances.iter() {
            if *owner == who {
                return *amount;
            }
        }
        0
    }

    fn add(&mut self, who: Address, amount: i128) {
        for entry in self.balances.iter_mut() {
            if entry.0 == who {
                entry.1 += amount;
                return;
            }
        }
        self.balances.push((who, amount));
    }

    fn call(&self, signers: &[Address]) -> Call {
        Call {
            timestamp: self.now,
            sequence: self.sequence,
            contract: me(),
            signers: signers.to_vec(),
            balance: self.balance(me()),
        }
    }

    fn settle(&mut self) {
        for effect in self.contract.take_effects() {
            match effect {
                Effect::Pull { from, amount } => {
                    self.add(from, -amount);
                    self.add(me(), amount);
                }
                Effect::Push { to, amount } => {
                    self.add(me(), -amount);
                    self.add(to, amount);
                }
                Effect::Emit(event) => self.events.push(event),
                Effect::Replace { .. } => {}
            }
        }
    }

    fn advance(&mut self, now: u64) {
        self.now = now;
        self.sequence = now as u32 + 1;
    }

    fn create(&mut self, params: &CreateStreamParams) -> Result<u64, ContractError> {
        let call = self.call(&[sender()]);
        let result = self.contract.create_stream(&call, sender(), params);
        self.settle();
        result
    }

    fn withdraw_as(&mut self, who: Address, id: u64) -> Result<i128, ContractError> {
        let call = self.call(&[who]);
        let result = self.contract.withdraw(&call, id);
        self.settle();
        result
    }
}

fn linear(deposit: i128, rate: i128, end: u64) -> CreateStreamParams {
    CreateStreamParams {
        recipient: recipient(),
        deposit_amount: deposit,
        rate_per_second: rate,
        start_time: 0,
        cliff_time: 0,
        end_time: end,
        withdraw_dust_threshold: None,
        memo: None,
        metadata: None,
        kind: StreamKind::Linear,
        irrevocable: None,
        witness: None,
    }
}

#[test]
fn recipient_changes_in_two_steps() {
    let mut world = World::new();
    let id = world.create(&linear(1000, 1, 1000)).unwrap();
    let call = world.call(&[sender()]);
    assert_eq!(
        world.contract.update_recipient(&call, id, recipient()),
        Err(ContractError::InvalidParams)
    );
    assert_eq!(
        world.contract.cancel_recipient_update(&call, id),
        Err(ContractError::InvalidState)
    );
    assert_eq!(world.contract.update_recipient(&call, id, account(3)), Ok(()));
    assert_eq!(
        world.contract.get_pending_recipient_update(id),
        Some(PendingRecipientUpdate { stream_id: id, proposed_recipient: account(3) })
    );
    assert_eq!(
        world.contract.update_recipient(&call, id, account(4)),
        Err(ContractError::InvalidState)
    );
    assert_eq!(
        world.contract.accept_recipient_update(&call, id),
        Err(ContractError::Unauthorized)
    );
    assert_eq!(world.contract.cancel_recipient_update(&call, id), Ok(()));
    assert_eq!(world.contract.get_pending_recipient_update(id), None);
    world.contract.update_recipient(&call, id, account(3)).unwrap();
    let by_recipient = world.call(&[recipient()]);
    assert_eq!(world.contract.accept_recipient_update(&by_recipient, id), Ok(()));
    assert_eq!(world.contract.get_stream_state(id).unwrap().recipient, account(3));
    assert_eq!(world.contract.get_recipient_streams(recipient()), vec![]);
    assert_eq!(world.contract.get_recipient_streams(account(3)), vec![id]);
    world.advance(100);
    assert_eq!(world.withdraw_as(recipient(), id), Err(ContractError::Unauthorized));
    assert_eq!(world.withdraw_as(account(3), id), Ok(100));
}

#[test]
fn history_keeps_the_latest_rotations() {
    let mut world = World::new();
    let id = world.create(&linear(1000, 1, 1000)).unwrap();
    let mut current = recipient();
    for n in 0..60 {
        let next = account(1000 + n);
        let call = world.call(&[sender(), current]);
        world.contract.update_recipient(&call, id, next).unwrap();
        world.contract.accept_recipient_update(&call, id).unwrap();
        current = next;
    }
    let history = world.contract.rotations.get(id).unwrap();
    assert_eq!(history.len(), 50);
    assert_eq!(history[0].new_addr, account(1010));
    assert_eq!(history[49].new_addr, account(1059));
    assert_eq!(history[49].old_addr, account(1058));
}

#[test]
fn claim_can_change_hands() {
    let mut world = World::new();
    let id = world.create(&linear(1000, 1, 1000)).unwrap();
    world.advance(100);
    let call = world.call(&[recipient()]);
    assert_eq!(
        world.contract.transfer_claim_ownership(&call, id, sender(), account(6)),
        Err(ContractError::Unauthorized)
    );
    assert_eq!(
        world.contract.transfer_claim_ownership(&call, id, recipient(), account(6)),
        Ok(())
    );
    assert_eq!(world.withdraw_as(recipient(), id), Err(ContractError::Unauthorized));
    assert_eq!(world.withdraw_as(account(6), id), Ok(100));
    assert_eq!(world.balance(recipient()), 100);
}

#[test]
fn automatic_claim_pays_the_chosen_destination() {
    let mut world = World::new();
    let id = world.create(&linear(1000, 1, 1000)).unwrap();
    let call = world.call(&[recipient()]);
    assert_eq!(world.contract.set_auto_claim(&call, id, me()), Err(ContractError::InvalidParams));
    assert_eq!(world.contract.get_auto_claim_status(&call, id), Ok(AutoClaimStatus::NotSet));
    assert_eq!(world.contract.set_auto_claim(&call, id, account(7)), Ok(()));
    assert_eq!(world.contract.get_auto_claim_destination(id), Ok(Some(account(7))));
    world.advance(400);
    let anyone = world.call(&[]);
    assert_eq!(
        world.contract.get_auto_claim_status(&anyone, id),
        Ok(AutoClaimStatus::ValidDestination(AutoClaimValidPayload {
            destination: account(7),
            claimable: 400,
        }))
    );
    let mut moved = world.call(&[]);
    moved.contract = account(7);
    assert_eq!(
        world.contract.get_auto_claim_status(&moved, id),
        Ok(AutoClaimStatus::InvalidDestination(AutoClaimInvalidPayload {
            destination: account(7),
        }))
    );
    assert_eq!(
        world.contract.trigger_auto_claim(&anyone, id),
        Err(ContractError::InvalidState)
    );
    world.advance(1000);
    let anyone = world.call(&[]);
    assert_eq!(world.contract.trigger_auto_claim(&anyone, id), Ok(1000));
    world.settle();
    assert_eq!(world.balance(account(7)), 1000);
    assert_eq!(world.contract.get_stream_state(id).unwrap().status, StreamStatus::Completed);
    assert_eq!(world.contract.get_total_liabilities(), 0);
}

#[test]
fn automatic_claim_can_be_revoked() {
    let mut world = World::new();
    let id = world.create(&linear(1000, 1, 1000)).unwrap();
    let call = world.call(&[recipient()]);
    assert_eq!(world.contract.revoke_auto_claim(&call, id), Ok(()));
    world.contract.set_auto_claim(&call, id, account(7)).unwrap();
    assert_eq!(world.contract.revoke_auto_claim(&call, id), Ok(()));
    world.advance(1000);
    let anyone = world.call(&[]);
    assert_eq!(
        world.contract.trigger_auto_claim(&anyone, id),
        Err(ContractError::InvalidParams)
    );
    let other = world.call(&[account(7)]);
    assert_eq!(
        world.contract.revoke_auto_claim(&other, id),
        Err(ContractError::Unauthorized)
    );
}

fn request(id: u64, nonce: u64) -> DelegatedWithdrawal {
    DelegatedWithdrawal {
        stream_id: id,
        relayer: account(30),
        recipient_public_key: Word { high: 0, low: 2 },
        nonce,
        deadline: 500,
        expected_minimum_amount: 90,
        relayer_fee: 10,
        signature_valid: true,
    }
}

#[test]
fn relayed_withdrawal_pays_both() {
    let mut world = World::new();
    let id = world.create(&linear(1000, 1, 1000)).unwrap();
    world.advance(100);
    let call = world.call(&[account(30)]);
    assert_eq!(world.contract.get_delegated_nonce(recipient()), 0);
    assert_eq!(world.contract.delegated_withdraw(&call, request(id, 0)), Ok(90));
    world.settle();
    assert_eq!(world.balance(recipient()), 90);
    assert_eq!(world.balance(account(30)), 10);
    assert_eq!(world.contract.get_stream_state(id).unwrap().withdrawn_amount, 100);
    assert_eq!(world.contract.get_delegated_nonce(recipient()), 1);
    assert_eq!(world.contract.get_total_liabilities(), 900);
    world.advance(300);
    let call = world.call(&[account(30)]);
    assert_eq!(
        world.contract.delegated_withdraw(&call, request(id, 0)),
        Err(ContractError::InvalidSignature)
    );
    assert_eq!(world.contract.delegated_withdraw(&call, request(id, 1)), Ok(190));
}

#[test]
fn relayed_withdrawal_of_nothing_uses_its_nonce_up() {
    let mut world = World::new();
    let id = world.create(&linear(1000, 1, 1000)).unwrap();
    let other = world.create(&linear(2000, 1, 1000)).unwrap();
    let call = world.call(&[account(30)]);
    let nothing = |id: u64, nonce: u64| DelegatedWithdrawal {
        relayer_fee: 0,
        expected_minimum_amount: 0,
        ..request(id, nonce)
    };
    assert_eq!(world.contract.admit_delegated_withdrawal(&call, nothing(id, 0)), Ok(()));
    assert_eq!(world.contract.delegated_withdraw(&call, nothing(id, 0)), Ok(0));
    assert_eq!(world.contract.get_delegated_nonce(recipient()), 1);
    assert_eq!(world.contract.get_delegated_nonce(sender()), 0);
    for stream in [id, other] {
        assert_eq!(
            world.contract.admit_delegated_withdrawal(&call, nothing(stream, 0)),
            Err(ContractError::InvalidSignature)
        );
        assert_eq!(
            world.contract.delegated_withdraw(&call, nothing(stream, 0)),
            Err(ContractError::InvalidSignature)
        );
    }
    world.settle();
    assert!(world.balance(recipient()) == 0 && world.contract.get_total_liabilities() == 3000);
}

#[test]
fn relayed_withdrawal_is_checked() {
    let mut world = World::new();
    let id = world.create(&linear(1000, 1, 1000)).unwrap();
    world.advance(99);
    let call = world.call(&[account(30)]);
    let mut ask = |r: DelegatedWithdrawal| world.contract.delegated_withdraw(&call, r);
    assert_eq!(ask(request(id, 0)), Err(ContractError::BelowMinimumAmount));
    assert_eq!(
        ask(DelegatedWithdrawal { relayer_fee: 100, ..request(id, 0) }),
        Err(ContractError::InsufficientBalance)
    );
    assert_eq!(
        ask(DelegatedWithdrawal { relayer_fee: -1, ..request(id, 0) }),
        Err(ContractError::InvalidParams)
    );
    assert_eq!(
        ask(DelegatedWithdrawal { deadline: 98, ..request(id, 0) }),
        Err(ContractError::SignatureDeadlineExpired)
    );
    assert_eq!(
        ask(DelegatedWithdrawal { signature_valid: false, ..request(id, 0) }),
        Err(ContractError::InvalidSignature)
    );
    assert_eq!(
        ask(DelegatedWithdrawal {
            recipient_public_key: Word { high: 0, low: 3 },
            ..request(id, 0)
        }),
        Err(ContractError::InvalidSignature)
    );
    assert_eq!(
        ask(DelegatedWithdrawal { relayer: account(31), ..request(id, 0) }),
        Err(ContractError::Unauthorized)
    );
    assert_eq!(
        ask(DelegatedWithdrawal { stream_id: 8, ..request(id, 0) }),
        Err(ContractError::StreamNotFound)
    );
    assert_eq!(
        ask(DelegatedWithdrawal { expected_minimum_amount: 89, ..request(id, 0) }),
        Ok(89)
    );
}

#[test]
fn witness_can_cancel() {
    let mut world = World::new();
    let plain = world.create(&linear(1000, 1, 1000)).unwrap();
    let mut params = linear(1000, 1, 1000);
    params.witness = Some(account(50));
    let id = world.create(&params).unwrap();
    world.advance(100);
    let call = world.call(&[]);
    let key = Word { high: 0, low: 50 };
    assert_eq!(
        world.contract.witnessed_cancel_stream(&call, plain, key, 200, true),
        Err(ContractError::InvalidParams)
    );
    assert_eq!(
        world.contract.witnessed_cancel_stream(&call, id, key, 99, true),
        Err(ContractError::SignatureDeadlineExpired)
    );
    assert_eq!(
        world.contract.witnessed_cancel_stream(&call, id, key, 200, false),
        Err(ContractError::InvalidSignature)
    );
    assert_eq!(
        world.contract.witnessed_cancel_stream(&call, id, Word { high: 1, low: 50 }, 200, true),
        Err(ContractError::InvalidSignature)
    );
    assert_eq!(world.contract.witnessed_cancel_stream(&call, id, key, 100, true), Ok(()));
    assert_eq!(world.contract.get_stream_state(id).unwrap().status, StreamStatus::Cancelled);
    assert_eq!(world.contract.get_stream_state(id).unwrap().cancelled_at, Some(100));
}

#[test]
fn accepted_offer_starts_when_it_is_accepted() {
    let mut world = World::new();
    let mut params = linear(1000, 1, 1000);
    params.cliff_time = 100;
    let call = world.call(&[sender()]);
    assert_eq!(
        world.contract.create_stream_offer(&call, sender(), &params, Some(0)),
        Err(ContractError::InvalidParams)
    );
    assert_eq!(world.contract.create_stream_offer(&call, sender(), &params, Some(400)), Ok(0));
    world.settle();
    assert_eq!(world.balance(me()), 1000);
    assert_eq!(world.contract.get_total_liabilities(), 0);
    assert_eq!(world.contract.get_recipient_pending_offers(recipient()), vec![0]);
    assert_eq!(world.contract.get_stream_offer(0).unwrap().deposit_amount, 1000);
    world.advance(250);
    let wrong = world.call(&[account(3)]);
    assert_eq!(
        world.contract.accept_stream_offer(&wrong, account(3), 0),
        Err(ContractError::OfferWrongRecipient)
    );
    let call = world.call(&[recipient()]);
    assert_eq!(
        world.contract.accept_stream_offer(&call, recipient(), 5),
        Err(ContractError::OfferNotFound)
    );
    assert_eq!(world.contract.accept_stream_offer(&call, recipient(), 0), Ok(0));
    assert_eq!(
        world.contract.accept_stream_offer(&call, recipient(), 0),
        Err(ContractError::OfferNotFound)
    );
    let stream = world.contract.get_stream_state(0).unwrap();
    assert_eq!((stream.start_time, stream.cliff_time, stream.end_time), (250, 350, 1250));
    assert_eq!(world.contract.get_total_liabilities(), 1000);
    assert_eq!(world.contract.get_recipient_pending_offers(recipient()), vec![]);
    assert_eq!(world.contract.get_recipient_streams(recipient()), vec![0]);
    assert_eq!(world.contract.get_stream_offer(0), Err(ContractError::OfferNotFound));
}

#[test]
fn dropped_offer_is_refunded() {
    let mut world = World::new();
    let call = world.call(&[sender()]);
    for _ in 0..2 {
        world.contract.create_stream_offer(&call, sender(), &linear(1000, 1, 1000), None).unwrap();
    }
    world
        .contract
        .create_stream_offer(&call, sender(), &linear(1000, 1, 1000), Some(10))
        .unwrap();
    world.settle();
    assert_eq!(world.balance(me()), 3000);
    let by_recipient = world.call(&[recipient()]);
    assert_eq!(
        world.contract.cancel_stream_offer(&by_recipient, recipient(), 0),
        Err(ContractError::OfferWrongSender)
    );
    assert_eq!(
        world.contract.reject_stream_offer(&call, sender(), 0),
        Err(ContractError::OfferWrongRecipient)
    );
    assert_eq!(world.contract.reject_stream_offer(&by_recipient, recipient(), 0), Ok(()));
    assert_eq!(world.contract.cancel_stream_offer(&call, sender(), 1), Ok(()));
    world.advance(11);
    let by_recipient = world.call(&[recipient()]);
    assert_eq!(
        world.contract.accept_stream_offer(&by_recipient, recipient(), 2),
        Err(ContractError::OfferExpired)
    );
    assert_eq!(world.contract.cancel_stream_offer(&call, sender(), 2), Ok(()));
    world.settle();
    assert_eq!(world.balance(sender()), 1_000_000_000_000);
    assert_eq!(world.balance(me()), 0);
}

#[test]
fn offer_checks_its_threshold() {
    let mut world = World::new();
    let call = world.call(&[sender()]);
    let mut params = linear(1000, 1, 1000);
    params.withdraw_dust_threshold = Some(-1);
    assert_eq!(
        world.contract.create_stream_offer(&call, sender(), &params, None),
        Err(ContractError::InvalidDustThreshold)
    );
    params.withdraw_dust_threshold = Some(1001);
    assert_eq!(
        world.contract.create_stream_offer(&call, sender(), &params, None),
        Err(ContractError::InvalidDustThreshold)
    );
    params.withdraw_dust_threshold = Some(1000);
    assert_eq!(world.contract.create_stream_offer(&call, sender(), &params, None), Ok(0));
}

#[test]
fn contract_is_initialised_once() {
    let mut contract = FluxoraStream::new(soroban_sdk::Env::default());
    let call = Call {
        timestamp: 0,
        sequence: 1,
        contract: me(),
        signers: vec![admin()],
        balance: 0,
    };
    assert_eq!(contract.get_config(), Err(ContractError::InvalidState));
    assert_eq!(FluxoraStream::version(), 9);
    assert_eq!(
        contract.init(&call, token(), account(9), true),
        Err(ContractError::Unauthorized)
    );
    assert_eq!(
        contract.init(&call, token(), admin(), false),
        Err(ContractError::TokenVerificationFailed)
    );
    assert_eq!(contract.init(&call, token(), admin(), true), Ok(()));
    assert_eq!(
        contract.init(&call, token(), admin(), true),
        Err(ContractError::AlreadyInitialised)
    );
    assert_eq!(contract.get_config().unwrap().token, token());
    assert_eq!(contract.set_admin(&call, account(9)), Ok(()));
    assert_eq!(contract.set_admin(&call, account(9)), Err(ContractError::Unauthorized));
    assert_eq!(contract.get_config().unwrap().admin, account(9));
}

#[test]
fn protocol_pause_tells_why() {
    let mut world = World::new();
    world.advance(77);
    let call = world.call(&[admin(), account(9)]);
    let text = Text { bytes: Some(Rc::new(vec![65; 256])) };
    let long = Text { bytes: Some(Rc::new(vec![65; 257])) };
    assert_eq!(
        world.contract.pause_protocol(&call, account(9), None),
        Err(ContractError::Unauthorized)
    );
    assert_eq!(
        world.contract.pause_protocol(&call, admin(), Some(long)),
        Err(ContractError::PauseReasonTooLong)
    );
    assert!(!world.contract.is_paused());
    assert_eq!(world.contract.get_pause_info().paused_by, None);
    assert_eq!(world.contract.pause_protocol(&call, admin(), Some(text.clone())), Ok(()));
    assert!(world.contract.is_paused());
    let info = world.contract.get_pause_info();
    assert_eq!(info.reason, Some(text));
    assert_eq!(info.paused_at, Some(77));
    assert_eq!(info.paused_by, Some(admin()));
    world.settle();
    let told = world.events.len();
    assert_eq!(world.contract.pause_protocol(&call, admin(), None), Ok(()));
    world.settle();
    assert_eq!(world.events.len(), told);
    assert_eq!(world.contract.resume_protocol(&call, admin()), Ok(()));
    assert!(!world.contract.is_paused());
    assert_eq!(world.contract.get_pause_info().reason, None);
}

#[test]
fn resuming_the_protocol_opens_creation() {
    let mut world = World::new();
    let call = world.call(&[admin()]);
    assert_eq!(world.contract.set_contract_paused(&call, true), Ok(()));
    assert!(world.contract.is_paused());
    world.settle();
    let told = world.events.len();
    assert_eq!(world.contract.resume_protocol(&call, admin()), Ok(()));
    world.settle();
    assert_eq!(world.events.len(), told + 1);
    assert!(!world.contract.is_paused());
    assert!(!world.contract.get_pause_info().is_paused);
    assert_eq!(world.contract.resume_protocol(&call, admin()), Ok(()));
    world.settle();
    assert_eq!(world.events.len(), told + 1);
    assert!(world.create(&linear(1000, 1, 1000)).is_ok());
}

#[test]
fn sweep_leaves_what_is_owed() {
    let mut world = World::new();
    world.create(&linear(1000, 1, 1000)).unwrap();
    world.add(me(), 70);
    let call = world.call(&[sender()]);
    assert_eq!(
        world.contract.sweep_excess(&call, account(9)),
        Err(ContractError::Unauthorized)
    );
    let call = world.call(&[admin()]);
    assert_eq!(world.contract.sweep_excess(&call, account(9)), Ok(70));
    world.settle();
    assert_eq!(world.balance(account(9)), 70);
    assert_eq!(world.balance(me()), 1000);
    let call = world.call(&[admin()]);
    assert_eq!(world.contract.sweep_excess(&call, account(9)), Ok(0));
}

#[test]
fn upgrade_replaces_the_code() {
    let mut world = World::new();
    let hash = Word { high: 5, low: 6 };
    let call = world.call(&[sender()]);
    assert_eq!(upgrade(&mut world.contract, &call, hash), Err(ContractError::Unauthorized));
    let call = world.call(&[admin()]);
    assert_eq!(upgrade(&mut world.contract, &call, hash), Ok(()));
    let effects = world.contract.take_effects();
    assert_eq!(effects[0], Effect::Replace { new_wasm_hash: hash });
    assert!(matches!(effects[1], Effect::Emit(Event::Upgraded(_))));
}
