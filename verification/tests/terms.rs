//! Changing the terms of streams, and making streams from others.

use fluxora_stream::events::{Effect, Event};
use fluxora_stream::state::{Call, FluxoraStream};
use fluxora_stream::types::{
    Address, ContractError, CreateStreamParams, IdReservation, StreamKind, StreamStatus, Word,
};
use std::rc::Rc;

fn account(n: u128) -> Address {
    Address::Account(Word { high: 0, low: n })
}

fn me() -> Address {
    Address::Contract(Word { high: 1, low: 0 })
}

fn token() -> Address {
    Address::Contract(Word { high: 2, low: 0 })
}

fn admin() -> Address {
    account(100)
}

fn sender() -> Address {
    account(1)
}

fn recipient() -> Address {
    account(2)
}

/// A contract, the ledger around it and a token that obeys its effects.
struct World {
    contract: FluxoraStream,
    now: u64,
    sequence: u32,
    balances: Vec<(Address, i128)>,
    events: Vec<Event>,
}

impl World {
    fn new() -> World {
        let mut world = World {
            contract: FluxoraStream::new(soroban_sdk::Env::default()),
            now: 0,
            sequence: 1,
            balances: vec![(sender(), 1_000_000_000_000)],
            events: Vec::new(),
        };
        let call = world.call(&[admin()]);
        assert_eq!(world.contract.init(&call, token(), admin(), true), Ok(()));
        world
    }

    fn balance(&self, who: Address) -> i128 {
        for (owner, amount) in self.balances.iter() {
            if *owner == who {
                return *amount;
            }
        }
        0
    }

    fn add(&mut self, who: Address, amount: i128) {
        for entry in self.balances.iter_mut() {
            if entry.0 == who {
                entry.1 += amount;
                return;
            }
        }
        self.balances.push((who, amount));
    }

    fn call(&self, signers: &[Address]) -> Call {
        Call {
            timestamp: self.now,
            sequence: self.sequence,
            contract: me(),
            signers: signers.to_vec(),
            balance: self.balance(me()),
        }
    }

    fn settle(&mut self) {
        for effect in self.contract.take_effects() {
            match effect {
                Effect::Pull { from, amount } => {
                    self.add(from, -amount);
                    self.add(me(), amount);
                }
                Effect::Push { to, amount } => {
                    self.add(me(), -amount);
                    self.add(to, amount);
                }
                Effect::Emit(event) => self.events.push(event),
                Effect::Replace { .. } => {}
            }
        }
    }

    fn advance(&mut self, now: u64) {
        self.now = now;
        self.sequence = now as u32 + 1;
    }

    fn create(&mut self, params: &CreateStreamParams) -> Result<u64, ContractError> {
        let call = self.call(&[sender()]);
        let result = self.contract.create_stream(&call, sender(), params);
        self.settle();
        result
    }

    fn accrued(&mut self, id: u64) -> i128 {
        let call = self.call(&[]);
        self.contract.calculate_accrued(&call, id).unwrap()
    }

    fn withdraw(&mut self, id: u64) -> Result<i128, ContractError> {
        let call = self.call(&[recipient()]);
        let result = self.contract.withdraw(&call, id);
        self.settle();
        result
    }
}

fn linear(deposit: i128, rate: i128, end: u64) -> CreateStreamParams {
    CreateStreamParams {
        recipient: recipient(),
        deposit_amount: deposit,
        rate_per_second: rate,
        start_time: 0,
        cliff_time: 0,
        end_time: end,
        withdraw_dust_threshold: None,
        memo: None,
        metadata: None,
        kind: StreamKind::Linear,
        irrevocable: None,
        witness: None,
    }
}

#[test]
fn higher_rates_are_checked() {
    let mut world = World::new();
    let id = world.create(&linear(10_000, 10, 500)).unwrap();
    world.advance(100);
    let call = world.call(&[sender()]);
    assert_eq!(
        world.contract.update_rate_per_second(&call, id, 10),
        Err(ContractError::InvalidParams)
    );
    assert_eq!(
        world.contract.update_rate_per_second(&call, id, 21),
        Err(ContractError::InsufficientDeposit)
    );
    assert_eq!(
        world.contract.update_rate_per_second(&call, id, i128::MAX),
        Err(ContractError::ArithmeticOverflow)
    );
    let by_admin = world.call(&[admin()]);
    assert_eq!(world.contract.set_max_rate_per_second(&by_admin, 15), Ok(()));
    assert_eq!(
        world.contract.set_max_rate_per_second(&by_admin, 0),
        Err(ContractError::InvalidParams)
    );
    assert_eq!(
        world.contract.update_rate_per_second(&call, id, 16),
        Err(ContractError::RateCapExceeded)
    );
    assert_eq!(world.contract.update_rate_per_second(&call, id, 15), Ok(()));
    assert_eq!(
        world.contract.update_rate_per_second(&call, id, 15),
        Err(ContractError::RateCooldownActive)
    );
    world.advance(110);
    assert_eq!(world.accrued(id), 1150);
}

#[test]
fn flat_rate_change_counts_for_the_whole_epoch() {
    let mut world = World::new();
    let id = world.create(&linear(10_000, 10, 1000)).unwrap();
    world.advance(100);
    let call = world.call(&[sender()]);
    assert_eq!(
        world.contract.update_rate(&call, id, 0, sender()),
        Err(ContractError::InvalidParams)
    );
    assert_eq!(world.contract.update_rate(&call, id, 20, sender()), Ok(()));
    assert_eq!(world.accrued(id), 2000);
    let other = world.call(&[account(9)]);
    assert_eq!(
        world.contract.update_rate(&other, id, 30, account(9)),
        Err(ContractError::Unauthorized)
    );
}

#[test]
fn shorter_schedule_refunds_the_rest() {
    let mut world = World::new();
    let id = world.create(&linear(1000, 1, 1000)).unwrap();
    world.advance(200);
    let call = world.call(&[sender()]);
    assert_eq!(
        world.contract.shorten_stream_end_time(&call, id, 200),
        Err(ContractError::InvalidParams)
    );
    assert_eq!(
        world.contract.shorten_stream_end_time(&call, id, 1000),
        Err(ContractError::InvalidParams)
    );
    assert_eq!(world.contract.shorten_stream_end_time(&call, id, 600), Ok(()));
    world.settle();
    let stream = world.contract.get_stream_state(id).unwrap();
    assert_eq!((stream.end_time, stream.deposit_amount), (600, 600));
    assert_eq!(world.balance(sender()), 1_000_000_000_000 - 600);
    assert_eq!(world.accrued(id), 200);
    assert_eq!(world.contract.get_total_liabilities(), 600);
}

#[test]
fn longer_schedule_needs_cover() {
    let mut world = World::new();
    let id = world.create(&linear(1500, 1, 1000)).unwrap();
    world.advance(200);
    let call = world.call(&[sender()]);
    assert_eq!(
        world.contract.extend_stream_end_time(&call, id, 1501),
        Err(ContractError::InsufficientDeposit)
    );
    assert_eq!(
        world.contract.extend_stream_end_time(&call, id, 1000),
        Err(ContractError::InvalidParams)
    );
    assert_eq!(world.contract.extend_stream_end_time(&call, id, 1500), Ok(()));
    assert_eq!(world.accrued(id), 200);
    world.advance(1400);
    assert_eq!(world.accrued(id), 1400);
}

#[test]
fn longer_schedule_after_the_end_adds_nothing_at_once() {
    let mut world = World::new();
    let id = world.create(&linear(2000, 10, 100)).unwrap();
    world.advance(150);
    assert_eq!(world.accrued(id), 1000);
    let call = world.call(&[sender()]);
    assert_eq!(world.contract.extend_stream_end_time(&call, id, 200), Ok(()));
    assert_eq!(world.accrued(id), 1000);
    let stream = world.contract.get_stream_state(id).unwrap();
    assert_eq!((stream.end_time, stream.deposit_amount, stream.rate_per_second), (200, 2000, 10));
    world.advance(170);
    assert_eq!(world.accrued(id), 1200);
    world.advance(300);
    assert_eq!(world.accrued(id), 1500);
}

#[test]
fn rate_changes_before_the_cliff_keep_what_has_built_up() {
    let cliff_at_500 = |deposit: i128, rate: i128| {
        let mut params = linear(deposit, rate, 1000);
        params.cliff_time = 500;
        params
    };
    let mut world = World::new();
    let raised = world.create(&cliff_at_500(20_000, 10)).unwrap();
    let lowered = world.create(&cliff_at_500(10_000, 10)).unwrap();
    let shared = world.create(&cliff_at_500(10_000, 10)).unwrap();
    world.advance(400);
    let call = world.call(&[sender(), recipient()]);
    assert_eq!(world.contract.update_rate_per_second(&call, raised, 20), Ok(()));
    assert_eq!(world.contract.decrease_rate_per_second(&call, lowered, 5), Ok(()));
    let child = world
        .contract
        .delegate_recipient_share(&call, shared, recipient(), 5_000, account(3))
        .unwrap();
    world.settle();
    for id in [raised, lowered, shared, child] {
        assert_eq!(world.accrued(id), 0);
    }
    assert_eq!(world.contract.get_stream_state(lowered).unwrap().deposit_amount, 7000);
    world.advance(500);
    assert_eq!(world.accrued(raised), 6000);
    assert_eq!(world.accrued(lowered), 4500);
    assert_eq!(world.accrued(shared), 4500);
    assert_eq!(world.accrued(child), 500);
    world.advance(1000);
    assert_eq!(world.accrued(raised), 16_000);
    assert_eq!(world.accrued(lowered), 7000);
    assert_eq!(world.accrued(shared) + world.accrued(child), 10_000);
}

#[test]
fn top_up_raises_the_deposit() {
    let mut world = World::new();
    let id = world.create(&linear(1000, 1, 1000)).unwrap();
    world.add(account(7), 500);
    world.advance(100);
    let call = world.call(&[account(7)]);
    assert_eq!(
        world.contract.top_up_stream(&call, id, account(7), 0),
        Err(ContractError::InvalidParams)
    );
    assert_eq!(
        world.contract.top_up_stream(&call, id, account(7), i128::MAX),
        Err(ContractError::ArithmeticOverflow)
    );
    assert_eq!(world.contract.top_up_stream(&call, id, account(7), 500), Ok(()));
    world.settle();
    assert_eq!(world.contract.get_stream_state(id).unwrap().deposit_amount, 1500);
    assert_eq!(world.contract.get_total_liabilities(), 1500);
    assert_eq!(world.balance(me()), 1500);
    assert_eq!(world.balance(account(7)), 0);
    world.advance(1000);
    let call = world.call(&[account(7)]);
    assert_eq!(
        world.contract.top_up_stream(&call, id, account(7), 1),
        Err(ContractError::InvalidState)
    );
}

#[test]
fn kinds_without_a_rate_cannot_change_it() {
    let mut world = World::new();
    let mut params = linear(1000, 1, 1000);
    params.kind = StreamKind::CliffSlope;
    let id = world.create(&params).unwrap();
    world.advance(20);
    let call = world.call(&[sender()]);
    assert_eq!(
        world.contract.top_up_stream(&call, id, sender(), 10),
        Err(ContractError::UnsupportedStreamKind)
    );
    assert_eq!(
        world.contract.decrease_rate_per_second(&call, id, 1),
        Err(ContractError::UnsupportedStreamKind)
    );
}

#[test]
fn delegation_splits_rate_and_deposit() {
    let mut world = World::new();
    let id = world.create(&linear(1000, 10, 100)).unwrap();
    world.advance(20);
    let call = world.call(&[recipient()]);
    assert_eq!(
        world.contract.delegate_recipient_share(&call, id, recipient(), 5000, recipient()),
        Err(ContractError::CyclicDelegation)
    );
    assert_eq!(
        world.contract.delegate_recipient_share(&call, id, recipient(), 0, account(3)),
        Err(ContractError::InvalidParams)
    );
    assert_eq!(
        world.contract.delegate_recipient_share(&call, id, recipient(), 4000, account(3)),
        Ok(1)
    );
    let parent = world.contract.get_stream_state(id).unwrap();
    let child = world.contract.get_stream_state(1).unwrap();
    assert_eq!((parent.rate_per_second, child.rate_per_second), (6, 4));
    assert_eq!((parent.deposit_amount, child.deposit_amount), (680, 320));
    assert_eq!(child.parent_stream_id, Some(id));
    assert_eq!(child.delegation_depth, 1);
    assert_eq!(world.contract.get_total_liabilities(), 1000);
    world.advance(70);
    assert_eq!(world.accrued(id) + world.accrued(1), 700);
    assert_eq!(world.contract.get_recipient_streams(account(3)), vec![1]);
}

#[test]
fn delegation_has_a_depth() {
    let mut world = World::new();
    let mut id = world.create(&linear(1_000_000, 1000, 1000)).unwrap();
    world.advance(1);
    let mut holder = recipient();
    for n in 0..3 {
        let next = account(20 + n);
        let call = world.call(&[holder]);
        id = world
            .contract
            .delegate_recipient_share(&call, id, holder, 5000, next)
            .unwrap();
        holder = next;
    }
    let call = world.call(&[holder]);
    assert_eq!(
        world.contract.delegate_recipient_share(&call, id, holder, 5000, account(40)),
        Err(ContractError::DelegationDepthExceeded)
    );
    let middle = world.call(&[account(21)]);
    assert_eq!(
        world.contract.delegate_recipient_share(&middle, 2, account(21), 5000, account(20)),
        Err(ContractError::CyclicDelegation)
    );
}

#[test]
fn renewal_repeats_the_terms() {
    let mut world = World::new();
    let mut params = linear(100, 1, 100);
    params.cliff_time = 30;
    params.memo = Some(Rc::new(vec![1, 2, 3]));
    let id = world.create(&params).unwrap();
    let call = world.call(&[sender()]);
    assert_eq!(world.contract.get_auto_renew(id), Ok(false));
    assert_eq!(world.contract.set_auto_renew(&call, id, sender(), true), Ok(()));
    assert_eq!(world.contract.get_auto_renew(id), Ok(true));
    assert_eq!(
        world.contract.renew_stream(&call, id, 1000, 1000),
        Err(ContractError::InvalidState)
    );
    world.advance(150);
    assert_eq!(world.withdraw(id), Ok(100));
    let anyone = world.call(&[]);
    assert_eq!(
        world.contract.renew_stream(&anyone, id, 99, 1000),
        Err(ContractError::AutoRenewFundingUnavailable)
    );
    assert_eq!(
        world.contract.renew_stream(&anyone, id, 1000, 99),
        Err(ContractError::AutoRenewFundingUnavailable)
    );
    assert_eq!(world.contract.renew_stream(&anyone, id, 100, 100), Ok(1));
    world.settle();
    let stream = world.contract.get_stream_state(1).unwrap();
    assert_eq!((stream.start_time, stream.cliff_time, stream.end_time), (150, 180, 250));
    assert_eq!(stream.memo, Some(Rc::new(vec![1, 2, 3])));
    assert_eq!(stream.status, StreamStatus::Active);
    assert_eq!(world.contract.get_auto_renew(id), Ok(false));
    assert_eq!(world.contract.get_auto_renew(1), Ok(true));
}

#[test]
fn settled_streams_can_be_removed() {
    let mut world = World::new();
    let a = world.create(&linear(100, 1, 100)).unwrap();
    let b = world.create(&linear(100, 1, 100)).unwrap();
    assert_eq!(world.contract.close_completed_stream(a), Err(ContractError::InvalidState));
    world.advance(40);
    let call = world.call(&[sender()]);
    world.contract.cancel_stream(&call, b).unwrap();
    world.settle();
    assert_eq!(world.contract.close_cancelled_stream(b), Err(ContractError::InvalidState));
    assert_eq!(world.withdraw(b), Ok(40));
    assert_eq!(world.contract.close_cancelled_stream(b), Ok(()));
    assert_eq!(world.contract.get_stream_state(b), Err(ContractError::StreamNotFound));
    assert_eq!(world.contract.close_cancelled_stream(b), Err(ContractError::StreamNotFound));
    world.advance(100);
    assert_eq!(world.withdraw(a), Ok(100));
    assert_eq!(world.contract.close_cancelled_stream(a), Err(ContractError::InvalidState));
    assert_eq!(world.contract.get_recipient_streams(recipient()), vec![a]);
    assert_eq!(world.contract.close_completed_stream(a), Ok(()));
    assert_eq!(world.contract.get_recipient_stream_count(recipient()), 0);
    assert_eq!(world.contract.get_stream_count(), 2);
}

#[test]
fn clone_keeps_the_terms() {
    let mut world = World::new();
    let mut params = linear(1000, 1, 1000);
    params.cliff_time = 100;
    params.withdraw_dust_threshold = Some(7);
    let id = world.create(&params).unwrap();
    world.advance(50);
    let call = world.call(&[sender()]);
    assert_eq!(
        world.contract.clone_stream(&call, id, account(3), 2000, 3000, 999, false),
        Err(ContractError::InsufficientDeposit)
    );
    assert_eq!(
        world.contract.clone_stream(&call, id, account(3), 49, 3000, 9999, false),
        Err(ContractError::StartTimeInPast)
    );
    assert_eq!(
        world.contract.clone_stream(&call, id, account(3), u64::MAX, 3000, 9999, false),
        Err(ContractError::ArithmeticOverflow)
    );
    assert_eq!(
        world.contract.clone_stream(&call, id, account(3), 2000, 3000, 1000, false),
        Ok(1)
    );
    let copy = world.contract.get_stream_state(1).unwrap();
    assert_eq!((copy.start_time, copy.cliff_time, copy.end_time), (2000, 2100, 3000));
    assert_eq!((copy.rate_per_second, copy.withdraw_dust_threshold), (1, 7));
    assert_eq!((copy.sender, copy.recipient), (sender(), account(3)));
    world.contract.cancel_stream(&call, id).unwrap();
    assert_eq!(
        world.contract.clone_stream(&call, id, account(3), 2000, 3000, 1000, false),
        Err(ContractError::StreamTerminalState)
    );
}

#[test]
fn clone_of_a_sentinel_threshold_is_deliberate() {
    let mut world = World::new();
    let mut params = linear(1000, 1, 1000);
    params.withdraw_dust_threshold = Some(i128::MAX);
    let id = world.create(&params).unwrap();
    let call = world.call(&[sender()]);
    assert_eq!(
        world.contract.clone_stream(&call, id, account(3), 0, 1000, 1000, false),
        Err(ContractError::InvalidParams)
    );
    assert_eq!(world.contract.clone_stream(&call, id, account(3), 0, 1000, 1000, true), Ok(1));
}

#[test]
fn reserved_identifiers_are_used_in_order() {
    let mut world = World::new();
    let call = world.call(&[sender()]);
    assert_eq!(
        world.contract.reserve_stream_ids(&call, sender(), 0, None),
        Err(ContractError::ReservationCountZero)
    );
    assert_eq!(
        world.contract.reserve_stream_ids(&call, sender(), 101, None),
        Err(ContractError::ReservationLimitExceeded)
    );
    assert_eq!(world.contract.reserve_stream_ids(&call, sender(), 3, None), Ok(vec![0, 1, 2]));
    assert_eq!(
        world.contract.reserve_stream_ids(&call, sender(), 1, None),
        Err(ContractError::ReservationAlreadyActive)
    );
    let other = world.call(&[account(9)]);
    let mut params = linear(10, 1, 10);
    params.recipient = account(3);
    assert_eq!(world.contract.create_stream(&other, account(9), &params), Ok(3));
    assert_eq!(world.create(&linear(10, 1, 10)), Ok(0));
    assert_eq!(world.create(&linear(10, 1, 10)), Ok(1));
    assert_eq!(
        world.contract.get_id_reservation(sender()),
        Some(IdReservation { start_id: 0, count: 3, consumed: 2, expiry: None })
    );
    assert_eq!(world.create(&linear(10, 1, 10)), Ok(2));
    assert_eq!(world.contract.get_id_reservation(sender()), None);
    assert_eq!(world.create(&linear(10, 1, 10)), Ok(4));
    assert_eq!(world.contract.get_recipient_streams(recipient()), vec![0, 1, 2, 4]);
}

#[test]
fn reservations_can_be_given_back() {
    let mut world = World::new();
    let call = world.call(&[sender(), account(9)]);
    assert_eq!(
        world.contract.release_id_reservation(&call, sender()),
        Err(ContractError::ReservationNotFound)
    );
    world.contract.reserve_stream_ids(&call, sender(), 5, None).unwrap();
    assert_eq!(world.create(&linear(10, 1, 10)), Ok(0));
    assert_eq!(world.contract.release_id_reservation(&call, sender()), Ok(()));
    assert_eq!(world.contract.get_stream_count(), 1);
    world.contract.reserve_stream_ids(&call, sender(), 2, None).unwrap();
    world.contract.reserve_stream_ids(&call, account(9), 2, Some(50)).unwrap();
    assert_eq!(world.contract.release_id_reservation(&call, sender()), Ok(()));
    assert_eq!(world.contract.get_stream_count(), 5);
    assert_eq!(world.create(&linear(10, 1, 10)), Ok(5));
    assert_eq!(
        world.contract.reclaim_expired_id_reservation(&call, account(9)),
        Err(ContractError::ReservationStillActive)
    );
    world.contract.reserve_stream_ids(&call, sender(), 1, None).unwrap();
    assert_eq!(
        world.contract.reclaim_expired_id_reservation(&call, sender()),
        Err(ContractError::ReservationNotExpirable)
    );
    assert_eq!(
        world.contract.reclaim_expired_id_reservation(&call, account(11)),
        Err(ContractError::ReservationNotFound)
    );
    world.advance(50);
    let call = world.call(&[]);
    assert_eq!(world.contract.reclaim_expired_id_reservation(&call, account(9)), Ok(()));
    assert_eq!(world.contract.get_id_reservation(account(9)), None);
}

#[test]
fn templates_make_streams() {
    let mut world = World::new();
    world.advance(1000);
    let owner = account(4);
    let call = world.call(&[owner, sender()]);
    assert_eq!(
        world.contract.register_stream_template(&call, owner, 10, 5, 100),
        Err(ContractError::InvalidParams)
    );
    assert_eq!(world.contract.register_stream_template(&call, owner, 10, 20, 100), Ok(0));
    let template = world.contract.get_stream_template(0).unwrap();
    assert_eq!((template.owner, template.start_delay, template.duration), (owner, 10, 100));
    assert_eq!(
        world.contract.create_stream_from_template(
            &call,
            sender(),
            0,
            recipient(),
            100,
            1,
            0,
            None,
            None,
            StreamKind::Linear,
            Some(true),
        ),
        Ok(0)
    );
    let stream = world.contract.get_stream_state(0).unwrap();
    assert_eq!((stream.start_time, stream.cliff_time, stream.end_time), (1010, 1020, 1110));
    assert_eq!(stream.irrevocable, Some(true));
    let other = world.call(&[account(5)]);
    assert_eq!(
        world.contract.delete_stream_template(&other, account(5), 0),
        Err(ContractError::TemplateUnauthorized)
    );
    assert_eq!(world.contract.delete_stream_template(&call, owner, 0), Ok(()));
    assert_eq!(world.contract.get_stream_template(0), Err(ContractError::TemplateNotFound));
    assert_eq!(
        world.contract.delete_stream_template(&call, owner, 0),
        Err(ContractError::TemplateNotFound)
    );
}

#[test]
fn templates_are_limited() {
    let mut world = World::new();
    let owner = account(4);
    let call = world.call(&[owner]);
    for n in 0..50 {
        assert_eq!(world.contract.register_stream_template(&call, owner, 0, 0, 100), Ok(n));
    }
    assert_eq!(
        world.contract.register_stream_template(&call, owner, 0, 0, 100),
        Err(ContractError::TemplateLimitExceeded)
    );
    assert_eq!(world.contract.delete_stream_template(&call, owner, 7), Ok(()));
    assert_eq!(world.contract.register_stream_template(&call, owner, 0, 0, 100), Ok(50));
}
