//! Making streams, drawing on them, and ending them.

use fluxora_stream::events::{Effect, Event, StreamEvent};
use fluxora_stream::state::{Call, FluxoraStream};
use fluxora_stream::types::{
    Address, BatchWithdrawResult, ContractError, CreateStreamParams, CreateStreamRelativeParams,
    Metadata, PauseReason, PoolShare, StreamKind, StreamStatus, WithdrawToParam, Word,
};
use std::rc::Rc;

fn account(n: u128) -> Address {
    Address::Account(Word { high: 0, low: n })
}

fn me() -> Address {
    Address::Contract(Word { high: 1, low: 0 })
}

fn token() -> Address {
    Address::Contract(Word { high: 2, low: 0 })
}

fn admin() -> Address {
    account(100)
}

fn sender() -> Address {
    account(1)
}

fn recipient() -> Address {
    account(2)
}

/// A contract, the ledger around it and a token that obeys its effects.
struct World {
    contract: FluxoraStream,
    now: u64,
    sequence: u32,
    balances: Vec<(Address, i128)>,
    events: Vec<Event>,
}

impl World {
    fn new() -> World {
        let mut world = World {
            contract: FluxoraStream::new(soroban_sdk::Env::default()),
            now: 0,
            sequence: 1,
            balances: vec![(sender(), 1_000_000_000_000)],
            events: Vec::new(),
        };
        let call = world.call(&[admin()]);
        assert_eq!(world.contract.init(&call, token(), admin(), true), Ok(()));
        world
    }

    fn balance(&self, who: Address) -> i128 {
        for (owner, amount) in self.balances.iter() {
            if *owner == who {
                return *amount;
            }
        }
        0
    }

    fn add(&mut self, who: Address, amount: i128) {
        for entry in self.balances.iter_mut() {
            if entry.0 == who {
                entry.1 += amount;
                return;
            }
        }
        self.balances.push((who, amount));
    }

    fn call(&self, signers: &[Address]) -> Call {
        Call {
            timestamp: self.now,
            sequence: self.sequence,
            contract: me(),
            signers: signers.to_vec(),
            balance: self.balance(me()),
        }
    }

    fn settle(&mut self) {
        for effect in self.contract.take_effects() {
            match effect {
                Effect::Pull { from, amount } => {
                    self.add(from, -amount);
                    self.add(me(), amount);
                }
                Effect::Push { to, amount } => {
                    self.add(me(), -amount);
                    self.add(to, amount);
                }
                Effect::Emit(event) => self.events.push(event),
                Effect::Replace { .. } => {}
            }
        }
    }

    fn advance(&mut self, now: u64) {
        self.now = now;
        self.sequence = now as u32 + 1;
    }

    fn create(&mut self, params: &CreateStreamParams) -> Result<u64, ContractError> {
        let call = self.call(&[sender()]);
        let result = self.contract.create_stream(&call, sender(), params);
        self.settle();
        result
    }

    fn accrued(&mut self, id: u64) -> i128 {
        let call = self.call(&[]);
        self.contract.calculate_accrued(&call, id).unwrap()
    }

    fn withdraw(&mut self, id: u64) -> Result<i128, ContractError> {
        let call = self.call(&[recipient()]);
        let result = self.contract.withdraw(&call, id);
        self.settle();
        result
    }

    fn status(&self, id: u64) -> StreamStatus {
        self.contract.get_stream_state(id).unwrap().status
    }
}

fn terms(deposit: i128, rate: i128, cliff: u64, end: u64, kind: StreamKind) -> CreateStreamParams {
    CreateStreamParams {
        recipient: recipient(),
        deposit_amount: deposit,
        rate_per_second: rate,
        start_time: 0,
        cliff_time: cliff,
        end_time: end,
        withdraw_dust_threshold: None,
        memo: None,
        metadata: None,
        kind,
        irrevocable: None,
        witness: None,
    }
}

fn linear(deposit: i128, rate: i128, end: u64) -> CreateStreamParams {
    terms(deposit, rate, 0, end, StreamKind::Linear)
}

#[test]
fn linear_stream_counts_from_its_start() {
    let mut world = World::new();
    let id = world.create(&terms(1000, 1, 500, 1000, StreamKind::Linear)).unwrap();
    let mut seen = Vec::new();
    for t in [300, 499, 500, 800, 1000, 1500] {
        world.advance(t);
        seen.push(world.accrued(id));
    }
    assert_eq!(seen, vec![0, 0, 500, 800, 1000, 1000]);
}

#[test]
fn cliff_only_stream_releases_all_at_once() {
    let mut world = World::new();
    let id = world.create(&terms(700, 99, 50, 100, StreamKind::CliffOnly)).unwrap();
    assert_eq!(world.contract.get_stream_state(id).unwrap().rate_per_second, 0);
    world.advance(49);
    assert_eq!(world.accrued(id), 0);
    world.advance(50);
    assert_eq!(world.accrued(id), 700);
    assert_eq!(world.withdraw(id), Ok(700));
    assert_eq!(world.status(id), StreamStatus::Completed);
}

#[test]
fn cliff_slope_stream_counts_from_its_cliff() {
    let mut world = World::new();
    let id = world.create(&terms(500, 1, 500, 1000, StreamKind::CliffSlope)).unwrap();
    let mut seen = Vec::new();
    for t in [499, 500, 700, 1000, 2000] {
        world.advance(t);
        seen.push(world.accrued(id));
    }
    assert_eq!(seen, vec![0, 0, 200, 500, 500]);
}

#[test]
fn withdrawals_pay_what_was_earned_since() {
    let mut world = World::new();
    let id = world.create(&linear(1000, 1, 1000)).unwrap();
    assert_eq!(world.balance(me()), 1000);
    assert_eq!(world.withdraw(id), Ok(0));
    world.advance(300);
    assert_eq!(world.withdraw(id), Ok(300));
    assert_eq!(world.withdraw(id), Err(ContractError::WithdrawalTooFrequent));
    world.sequence += 1;
    assert_eq!(world.withdraw(id), Ok(0));
    world.advance(800);
    assert_eq!(world.withdraw(id), Ok(500));
    assert_eq!(world.contract.get_total_liabilities(), 200);
    world.advance(1000);
    assert_eq!(world.withdraw(id), Ok(200));
    assert_eq!(world.status(id), StreamStatus::Completed);
    assert_eq!(world.balance(recipient()), 1000);
    assert_eq!(world.balance(me()), 0);
    assert_eq!(world.contract.get_total_liabilities(), 0);
    assert_eq!(
        world.events.last(),
        Some(&Event::Status(StreamEvent::StreamCompleted(id)))
    );
    world.advance(1001);
    assert_eq!(world.withdraw(id), Err(ContractError::InvalidState));
    assert_eq!(world.accrued(id), 1000);
}

#[test]
fn withdrawal_needs_its_recipient() {
    let mut world = World::new();
    let id = world.create(&linear(1000, 1, 1000)).unwrap();
    world.advance(10);
    let call = world.call(&[sender()]);
    assert_eq!(world.contract.withdraw(&call, id), Err(ContractError::Unauthorized));
    assert_eq!(world.contract.withdraw(&call, id + 1), Err(ContractError::StreamNotFound));
    assert_eq!(world.contract.get_stream_state(id).unwrap().withdrawn_amount, 0);
}

#[test]
fn withdrawal_is_limited_by_what_the_contract_holds() {
    let mut world = World::new();
    let id = world.create(&linear(1000, 1, 1000)).unwrap();
    world.advance(400);
    let mut call = world.call(&[recipient()]);
    call.balance = 150;
    assert_eq!(world.contract.withdraw(&call, id), Ok(150));
    assert_eq!(world.contract.get_stream_state(id).unwrap().withdrawn_amount, 150);
}

#[test]
fn small_withdrawals_wait() {
    let mut world = World::new();
    let mut params = linear(1000, 1, 1000);
    params.withdraw_dust_threshold = Some(100);
    let id = world.create(&params).unwrap();
    world.advance(50);
    assert_eq!(world.withdraw(id), Ok(0));
    world.advance(150);
    assert_eq!(world.withdraw(id), Ok(150));
    world.advance(1000);
    assert_eq!(world.withdraw(id), Ok(850));
}

#[test]
fn clock_must_not_run_backwards() {
    let mut world = World::new();
    let id = world.create(&linear(1000, 1, 1000)).unwrap();
    world.advance(500);
    assert_eq!(world.accrued(id), 500);
    world.advance(499);
    let call = world.call(&[recipient()]);
    assert_eq!(
        world.contract.calculate_accrued(&call, id),
        Err(ContractError::ClockRegression)
    );
    assert_eq!(world.contract.withdraw(&call, id), Err(ContractError::ClockRegression));
}

#[test]
fn refused_schedules_name_their_reason() {
    let mut world = World::new();
    world.advance(10);
    let good = || {
        let mut params = linear(1000, 1, 1000);
        params.start_time = 10;
        params.cliff_time = 10;
        params
    };
    let mut params = good();
    params.deposit_amount = 0;
    assert_eq!(world.create(&params), Err(ContractError::InvalidParams));
    let mut params = good();
    params.rate_per_second = 0;
    assert_eq!(world.create(&params), Err(ContractError::InvalidParams));
    let mut params = good();
    params.recipient = sender();
    assert_eq!(world.create(&params), Err(ContractError::InvalidParams));
    let mut params = good();
    params.end_time = 10;
    assert_eq!(world.create(&params), Err(ContractError::InvalidParams));
    let mut params = good();
    params.start_time = 9;
    assert_eq!(world.create(&params), Err(ContractError::StartTimeInPast));
    let mut params = good();
    params.cliff_time = 1001;
    assert_eq!(world.create(&params), Err(ContractError::InvalidParams));
    let mut params = good();
    params.deposit_amount = 989;
    assert_eq!(world.create(&params), Err(ContractError::InsufficientDeposit));
    let mut params = good();
    params.rate_per_second = i128::MAX;
    assert_eq!(world.create(&params), Err(ContractError::InvalidParams));
    let mut params = good();
    params.memo = Some(Rc::new(vec![0; 257]));
    assert_eq!(world.create(&params), Err(ContractError::InvalidParams));
    let mut params = good();
    params.metadata = Metadata::new(vec![(vec![0; 33], vec![])]).map(Rc::new);
    assert_eq!(world.create(&params), Err(ContractError::MetadataTooLarge));
    let call = world.call(&[recipient()]);
    assert_eq!(
        world.contract.create_stream(&call, sender(), &good()),
        Err(ContractError::Unauthorized)
    );
    assert_eq!(world.contract.get_stream_count(), 0);
    assert_eq!(world.balance(sender()), 1_000_000_000_000);
    let mut params = good();
    params.deposit_amount = 990;
    params.memo = Some(Rc::new(vec![7; 256]));
    params.metadata = Metadata::new(vec![(vec![1; 32], vec![2; 128])]).map(Rc::new);
    params.irrevocable = Some(true);
    params.witness = Some(account(9));
    assert_eq!(world.create(&params), Ok(0));
    let stream = world.contract.get_stream_state(0).unwrap();
    assert_eq!(stream.memo, Some(Rc::new(vec![7; 256])));
    assert_eq!(stream.metadata, params.metadata);
    assert_eq!(stream.irrevocable, Some(true));
    assert_eq!(stream.witness, Some(account(9)));
    assert_eq!(world.contract.get_stream_memo(0), Ok(Some(Rc::new(vec![7; 256]))));
    assert_eq!(world.contract.get_stream_metadata(0), Ok(params.metadata));
}

#[test]
fn metadata_limits() {
    let entry = |i: u8, k: usize, v: usize| {
        let mut key = vec![0u8; k];
        key[0] = i;
        (key, vec![0u8; v])
    };
    let check = |entries: Vec<(Vec<u8>, Vec<u8>)>| {
        fluxora_stream::creation::validate_metadata(&Metadata::new(entries).unwrap())
    };
    assert_eq!(check(vec![]), Ok(()));
    assert_eq!(check((0..8).map(|i| entry(i, 1, 1)).collect()), Ok(()));
    assert_eq!(
        check((0..9).map(|i| entry(i, 1, 1)).collect()),
        Err(ContractError::MetadataTooLarge)
    );
    assert_eq!(check(vec![entry(0, 1, 129)]), Err(ContractError::MetadataTooLarge));
    assert_eq!(check((0..4).map(|i| entry(i, 32, 96)).collect()), Ok(()));
    assert_eq!(
        check((0..4).map(|i| entry(i, 32, 97)).collect()),
        Err(ContractError::MetadataTooLarge)
    );
}

#[test]
fn metadata_keys_ascend() {
    let with_keys = |keys: &[&[u8]]| {
        Metadata::new(keys.iter().map(|key| (key.to_vec(), vec![9])).collect())
    };
    assert!(with_keys(&[]).is_some());
    let ordered = with_keys(&[b"", b"a", b"ab", b"b"]).unwrap();
    assert_eq!(ordered.entries().len(), 4);
    assert_eq!(ordered.entries()[2], (b"ab".to_vec(), vec![9]));
    assert!(with_keys(&[b"a", b"a"]).is_none());
    assert!(with_keys(&[b"ab", b"a"]).is_none());
    assert!(with_keys(&[b"a", b"c", b"b"]).is_none());
}

#[test]
fn batch_of_streams_is_paid_at_once() {
    let mut world = World::new();
    let batch = vec![linear(1000, 1, 1000), linear(2000, 2, 1000)];
    let call = world.call(&[sender()]);
    assert_eq!(world.contract.create_streams(&call, sender(), &batch), Ok(vec![0, 1]));
    let effects = world.contract.take_effects();
    assert_eq!(effects.len(), 3);
    assert_eq!(effects[0], Effect::Pull { from: sender(), amount: 3000 });
    assert_eq!(world.contract.get_total_liabilities(), 3000);
    assert_eq!(world.contract.get_recipient_streams(recipient()), vec![0, 1]);
    assert_eq!(world.contract.get_stream_state(1).unwrap().deposit_amount, 2000);
    assert_eq!(world.contract.create_streams(&call, sender(), &vec![]), Ok(vec![]));
    let unsigned = world.call(&[]);
    assert_eq!(
        world.contract.create_streams(&unsigned, sender(), &vec![]),
        Err(ContractError::Unauthorized)
    );
    let too_much = vec![linear(i128::MAX, 1, 1000), linear(1, 1, 1)];
    assert_eq!(
        world.contract.create_streams(&call, sender(), &too_much),
        Err(ContractError::ArithmeticOverflow)
    );
    let half_good = vec![linear(1000, 1, 1000), linear(1, 1, 1000)];
    assert_eq!(
        world.contract.create_streams(&call, sender(), &half_good),
        Err(ContractError::InsufficientDeposit)
    );
    assert_eq!(world.contract.get_stream_count(), 2);
}

#[test]
fn entries_of_a_lenient_batch_fail_alone() {
    let mut world = World::new();
    let batch = vec![linear(1000, 1, 1000), linear(1, 1, 1000), linear(500, 1, 500)];
    let call = world.call(&[sender()]);
    let results = world
        .contract
        .create_streams_partial(&call, sender(), &batch, &vec![true, true, false])
        .unwrap();
    assert_eq!(results.len(), 3);
    assert!(results[0].success && results[0].stream_id == Some(0) && results[0].error == None);
    assert!(!results[1].success && results[1].error == Some(10));
    assert!(!results[2].success && results[2].error == Some(9));
    assert_eq!(world.contract.get_stream_count(), 1);
}

#[test]
fn a_lenient_batch_admits_an_entry_before_its_deposit() {
    let mut world = World::new();
    let mut noted = linear(1000, 1, 1000);
    noted.memo = Some(Rc::new(vec![0; 257]));
    assert_eq!(
        world.contract.admit_entry(sender(), &noted, 0),
        Err(ContractError::InvalidParams)
    );
    assert_eq!(world.contract.validate_entry(sender(), &noted, 0), Ok(()));
    let call = world.call(&[sender()]);
    let results = world
        .contract
        .create_streams_partial(&call, sender(), &vec![noted], &vec![false])
        .unwrap();
    assert_eq!(results[0].error, Some(ContractError::InvalidParams.code()));
}

#[test]
fn relative_times_count_from_now() {
    let mut world = World::new();
    world.advance(100);
    let relative = |start_delay: u64| CreateStreamRelativeParams {
        recipient: recipient(),
        deposit_amount: 1000,
        rate_per_second: 10,
        start_delay,
        cliff_delay: start_delay,
        duration: 100,
        withdraw_dust_threshold: None,
        memo: None,
        metadata: None,
        kind: StreamKind::Linear,
        irrevocable: None,
    };
    let call = world.call(&[sender()]);
    assert_eq!(world.contract.create_stream_relative(&call, sender(), &relative(20)), Ok(0));
    let stream = world.contract.get_stream_state(0).unwrap();
    assert_eq!((stream.start_time, stream.cliff_time, stream.end_time), (120, 120, 220));
    assert_eq!(
        world.contract.create_stream_relative(&call, sender(), &relative(u64::MAX)),
        Err(ContractError::InvalidParams)
    );
    assert_eq!(
        world.contract.create_streams_relative(&call, sender(), &vec![relative(0), relative(5)]),
        Ok(vec![1, 2])
    );
    assert_eq!(world.contract.get_stream_state(2).unwrap().start_time, 105);
    assert_eq!(world.contract.create_streams_relative(&call, sender(), &vec![]), Ok(vec![]));
}

#[test]
fn pooled_streams_are_refused() {
    let mut world = World::new();
    let call = world.call(&[sender()]);
    let mut pool = |shares: Vec<u32>| {
        let recipients: Vec<PoolShare> =
            shares.iter().map(|s| PoolShare { recipient: recipient(), share: *s }).collect();
        world.contract.create_pooled_stream(
            &call,
            sender(),
            recipients,
            1000,
            1,
            0,
            0,
            1000,
            0,
            None,
            StreamKind::Linear,
        )
    };
    assert_eq!(pool(vec![1, 1]), Err(ContractError::InvalidParams));
    assert_eq!(pool(vec![]), Err(ContractError::InvalidParams));
    assert_eq!(pool(vec![u32::MAX, 1]), Err(ContractError::ArithmeticOverflow));
    assert_eq!(pool(vec![1; 101]), Err(ContractError::InvalidParams));
}

#[test]
fn pool_withdrawal_needs_a_pooled_stream() {
    let mut world = World::new();
    let id = world.create(&linear(1000, 1, 1000)).unwrap();
    world.advance(10);
    let call = world.call(&[recipient()]);
    assert_eq!(
        world.contract.withdraw_from_pool(&call, id, recipient()),
        Err(ContractError::InvalidState)
    );
}

#[test]
fn batch_withdrawal_is_all_or_nothing() {
    let mut world = World::new();
    let a = world.create(&linear(1000, 1, 1000)).unwrap();
    let b = world.create(&linear(100, 1, 100)).unwrap();
    let mut other = linear(1000, 1, 1000);
    other.recipient = account(3);
    let c = world.create(&other).unwrap();
    world.advance(50);
    let call = world.call(&[recipient()]);
    assert_eq!(
        world.contract.batch_withdraw(&call, recipient(), &vec![a, b, a]),
        Err(ContractError::DuplicateStreamId)
    );
    assert_eq!(
        world.contract.batch_withdraw(&call, recipient(), &vec![a, c]),
        Err(ContractError::Unauthorized)
    );
    assert_eq!(
        world.contract.batch_withdraw(&call, recipient(), &vec![a, 77]),
        Err(ContractError::StreamNotFound)
    );
    assert_eq!(world.contract.get_stream_state(a).unwrap().withdrawn_amount, 0);
    assert_eq!(
        world.contract.batch_withdraw(&call, recipient(), &vec![b, a]),
        Ok(vec![
            BatchWithdrawResult { stream_id: b, amount: 50 },
            BatchWithdrawResult { stream_id: a, amount: 50 },
        ])
    );
    world.settle();
    assert_eq!(world.balance(recipient()), 100);
    world.advance(200);
    assert_eq!(world.withdraw(b), Ok(50));
    assert_eq!(world.status(b), StreamStatus::Completed);
    world.sequence += 5;
    let call = world.call(&[recipient()]);
    assert_eq!(
        world.contract.batch_withdraw(&call, recipient(), &vec![a, b]),
        Ok(vec![
            BatchWithdrawResult { stream_id: a, amount: 150 },
            BatchWithdrawResult { stream_id: b, amount: 0 },
        ])
    );
}

#[test]
fn empty_batch_withdrawal_changes_nothing() {
    let mut world = World::new();
    world.advance(50);
    let call = world.call(&[recipient()]);
    assert_eq!(world.contract.batch_withdraw(&call, recipient(), &vec![]), Ok(vec![]));
    assert_eq!(world.contract.last_accrual_timestamp, None);
    assert!(world.contract.take_effects().is_empty());
    let call = world.call(&[sender()]);
    assert_eq!(
        world.contract.batch_withdraw(&call, recipient(), &vec![]),
        Err(ContractError::Unauthorized)
    );
}

#[test]
fn batch_payouts_share_the_balance() {
    let mut world = World::new();
    let a = world.create(&linear(1000, 1, 1000)).unwrap();
    let b = world.create(&linear(1000, 1, 1000)).unwrap();
    world.advance(100);
    let mut call = world.call(&[recipient()]);
    call.balance = 130;
    let to = account(8);
    let result = world.contract.batch_withdraw_to(
        &call,
        recipient(),
        &vec![
            WithdrawToParam { stream_id: a, destination: to },
            WithdrawToParam { stream_id: b, destination: to },
        ],
    );
    assert_eq!(
        result,
        Ok(vec![
            BatchWithdrawResult { stream_id: a, amount: 100 },
            BatchWithdrawResult { stream_id: b, amount: 30 },
        ])
    );
    world.settle();
    assert_eq!(world.balance(recipient()), 130);
    let call = world.call(&[recipient()]);
    assert_eq!(
        world.contract.batch_withdraw_to(
            &call,
            recipient(),
            &vec![WithdrawToParam { stream_id: a, destination: me() }],
        ),
        Err(ContractError::InvalidParams)
    );
}

#[test]
fn withdrawal_can_go_elsewhere() {
    let mut world = World::new();
    let id = world.create(&linear(1000, 1, 1000)).unwrap();
    world.advance(100);
    let call = world.call(&[recipient()]);
    assert_eq!(world.contract.withdraw_to(&call, id, me()), Err(ContractError::InvalidParams));
    assert_eq!(world.contract.withdraw_to(&call, id, account(8)), Ok(100));
    world.settle();
    assert_eq!(world.balance(account(8)), 100);
    assert_eq!(world.balance(recipient()), 0);
}

#[test]
fn paused_streams_keep_earning() {
    let mut world = World::new();
    let id = world.create(&linear(1000, 1, 1000)).unwrap();
    world.advance(20);
    let call = world.call(&[sender()]);
    assert_eq!(world.contract.resume_stream(&call, id), Err(ContractError::StreamNotPaused));
    assert_eq!(world.contract.pause_stream(&call, id, PauseReason::Operational), Ok(()));
    assert_eq!(
        world.contract.pause_stream(&call, id, PauseReason::Operational),
        Err(ContractError::StreamAlreadyPaused)
    );
    assert_eq!(world.contract.get_paused_stream_count(), 1);
    assert_eq!(world.contract.resume_stream(&call, id), Err(ContractError::PauseCooldownActive));
    world.advance(30);
    assert_eq!(world.withdraw(id), Err(ContractError::InvalidState));
    assert_eq!(world.accrued(id), 30);
    world.advance(60);
    let call = world.call(&[sender()]);
    assert_eq!(world.contract.resume_stream(&call, id), Ok(()));
    assert_eq!(world.contract.get_paused_stream_count(), 0);
    assert_eq!(world.withdraw(id), Ok(60));
    world.advance(1000);
    let call = world.call(&[sender()]);
    assert_eq!(
        world.contract.pause_stream(&call, id, PauseReason::Operational),
        Err(ContractError::StreamTerminalState)
    );
}

#[test]
fn pause_ends_with_the_stream() {
    let mut world = World::new();
    let id = world.create(&linear(1000, 1, 1000)).unwrap();
    world.advance(500);
    let call = world.call(&[sender()]);
    world.contract.pause_stream(&call, id, PauseReason::Compliance).unwrap();
    world.advance(1000);
    assert_eq!(world.withdraw(id), Ok(1000));
    assert_eq!(world.status(id), StreamStatus::Completed);
    assert_eq!(world.contract.get_paused_stream_count(), 0);
}

#[test]
fn administrator_can_pause_and_resume() {
    let mut world = World::new();
    let id = world.create(&linear(1000, 1, 1000)).unwrap();
    world.advance(20);
    let call = world.call(&[sender()]);
    assert_eq!(
        world.contract.pause_stream_as_admin(&call, id, PauseReason::Emergency),
        Err(ContractError::Unauthorized)
    );
    let call = world.call(&[admin()]);
    assert_eq!(world.contract.pause_stream_as_admin(&call, id, PauseReason::Emergency), Ok(()));
    let record = world.contract.last_stream_pause.unwrap();
    assert_eq!(record.actor, admin());
    assert_eq!(record.timestamp, 20);
    assert_eq!(record.reason.label(), "Emergency");
    world.advance(40);
    let call = world.call(&[admin()]);
    assert_eq!(world.contract.resume_stream_as_admin(&call, id), Ok(()));
    assert_eq!(world.status(id), StreamStatus::Active);
}

#[test]
fn cancellation_splits_the_deposit() {
    let mut world = World::new();
    let id = world.create(&linear(1000, 1, 1000)).unwrap();
    world.advance(300);
    let call = world.call(&[sender()]);
    assert_eq!(world.contract.cancel_stream(&call, id), Ok(()));
    world.settle();
    assert_eq!(world.balance(sender()), 1_000_000_000_000 - 300);
    assert_eq!(world.contract.get_total_liabilities(), 300);
    assert_eq!(world.contract.cancel_stream(&call, id), Err(ContractError::InvalidState));
    world.advance(900);
    assert_eq!(world.accrued(id), 300);
    assert_eq!(world.withdraw(id), Ok(300));
    assert_eq!(world.status(id), StreamStatus::Cancelled);
    world.advance(901);
    assert_eq!(world.withdraw(id), Ok(0));
    assert_eq!(world.contract.get_total_liabilities(), 0);
}

#[test]
fn cancellation_before_the_cliff_refunds_all() {
    let mut world = World::new();
    let id = world.create(&terms(1000, 1, 500, 1000, StreamKind::Linear)).unwrap();
    world.advance(499);
    let call = world.call(&[admin()]);
    assert_eq!(world.contract.cancel_stream_as_admin(&call, id), Ok(()));
    world.settle();
    assert_eq!(world.balance(sender()), 1_000_000_000_000);
}

#[test]
fn irrevocable_streams_stay() {
    let mut world = World::new();
    let mut params = linear(1000, 1, 1000);
    params.irrevocable = Some(true);
    let id = world.create(&params).unwrap();
    world.advance(10);
    let call = world.call(&[sender(), admin()]);
    assert_eq!(world.contract.cancel_stream(&call, id), Err(ContractError::Unauthorized));
    assert_eq!(
        world.contract.cancel_stream_as_admin(&call, id),
        Err(ContractError::Unauthorized)
    );
    assert_eq!(
        world.contract.shorten_stream_end_time(&call, id, 500),
        Err(ContractError::Unauthorized)
    );
    world.advance(10_000_000);
    let call = world.call(&[account(5)]);
    assert_eq!(
        world.contract.keeper_cancel(&call, id, account(5)),
        Err(ContractError::Unauthorized)
    );
}

#[test]
fn keeper_takes_its_fee_from_the_refund() {
    let mut world = World::new();
    let id = world.create(&linear(2000, 1, 1000)).unwrap();
    let keeper = account(5);
    world.advance(1000 + 604_799);
    let call = world.call(&[keeper]);
    assert_eq!(
        world.contract.keeper_cancel(&call, id, keeper),
        Err(ContractError::KeeperGracePeriodNotElapsed)
    );
    assert_eq!(world.contract.get_keeper_fee_split(&call, id), Ok((0, 0)));
    world.advance(1000 + 604_800);
    let call = world.call(&[keeper]);
    assert_eq!(world.contract.get_keeper_fee_split(&call, id), Ok((5, 995)));
    assert_eq!(world.contract.keeper_cancel(&call, id, keeper), Ok(()));
    world.settle();
    assert_eq!(world.balance(recipient()), 1000);
    assert_eq!(world.balance(keeper), 5);
    assert_eq!(world.balance(sender()), 1_000_000_000_000 - 2000 + 995);
    assert_eq!(world.balance(me()), 0);
    assert_eq!(world.contract.get_protocol_fees_accrued(), 5);
    assert_eq!(world.contract.get_total_liabilities(), 0);
    assert_eq!(world.contract.get_keeper_fee_split(&call, id), Err(ContractError::InvalidState));
}

#[test]
fn keeper_payout_counts_as_withdrawn() {
    let mut world = World::new();
    let id = world.create(&linear(2000, 1, 1000)).unwrap();
    let other = world.create(&linear(5000, 5, 1000)).unwrap();
    world.advance(300);
    assert_eq!(world.withdraw(id), Ok(300));
    world.advance(1000 + 604_800);
    let call = world.call(&[account(5)]);
    assert_eq!(world.contract.keeper_cancel(&call, id, account(5)), Ok(()));
    world.settle();
    assert_eq!(world.balance(recipient()), 1000);
    assert_eq!(world.contract.get_stream_state(id).unwrap().withdrawn_amount, 1000);
    assert_eq!(world.contract.get_withdrawable(&call, id), Ok(0));
    assert_eq!(world.withdraw(id), Ok(0));
    assert_eq!(world.balance(recipient()), 1000);
    assert_eq!(world.contract.get_total_liabilities(), 5000);
    assert_eq!(world.contract.close_cancelled_stream(id), Ok(()));
    assert_eq!(world.withdraw(other), Ok(5000));
    assert_eq!(world.contract.get_total_liabilities(), 0);
}

#[test]
fn many_streams_end_together() {
    let mut world = World::new();
    let a = world.create(&linear(1000, 1, 1000)).unwrap();
    let b = world.create(&linear(2000, 2, 1000)).unwrap();
    world.advance(100);
    let call = world.call(&[sender()]);
    assert_eq!(
        world.contract.bulk_cancel_streams(&call, sender(), &vec![a, a]),
        Err(ContractError::DuplicateStreamId)
    );
    assert_eq!(
        world.contract.bulk_cancel_streams(&call, sender(), &vec![a, 9]),
        Err(ContractError::StreamNotFound)
    );
    assert_eq!(world.status(a), StreamStatus::Active);
    assert_eq!(world.contract.bulk_cancel_streams(&call, sender(), &vec![a, b]), Ok(()));
    let effects = world.contract.take_effects();
    let pushes: Vec<&Effect> =
        effects.iter().filter(|e| matches!(e, Effect::Push { .. })).collect();
    assert_eq!(
        pushes,
        vec![
            &Effect::Push { to: recipient(), amount: 100 },
            &Effect::Push { to: recipient(), amount: 200 },
            &Effect::Push { to: sender(), amount: 2700 },
        ]
    );
    assert_eq!(world.contract.get_total_liabilities(), 0);
    assert_eq!(world.contract.get_stream_state(b).unwrap().withdrawn_amount, 200);
}

#[test]
fn many_streams_resume_together() {
    let mut world = World::new();
    let a = world.create(&linear(1000, 1, 1000)).unwrap();
    let b = world.create(&linear(1000, 1, 1000)).unwrap();
    world.advance(20);
    let call = world.call(&[sender(), admin()]);
    world.contract.pause_stream(&call, a, PauseReason::Operational).unwrap();
    world.advance(50);
    let call = world.call(&[sender(), admin()]);
    assert_eq!(
        world.contract.bulk_resume_streams_as_admin(&call, &vec![a, b]),
        Err(ContractError::StreamNotPaused)
    );
    assert_eq!(world.status(a), StreamStatus::Paused);
    world.contract.pause_stream(&call, b, PauseReason::Operational).unwrap();
    assert_eq!(world.contract.get_paused_stream_count(), 2);
    world.advance(70);
    let call = world.call(&[admin()]);
    assert_eq!(world.contract.bulk_resume_streams_as_admin(&call, &vec![a, b]), Ok(()));
    assert_eq!(world.contract.get_paused_stream_count(), 0);
    assert_eq!(world.status(b), StreamStatus::Active);
}

#[test]
fn lookback_limits_a_single_claim() {
    let mut world = World::new();
    let id = world.create(&linear(1000, 1, 1000)).unwrap();
    let call = world.call(&[sender()]);
    assert_eq!(
        world.contract.set_lookback_window(&call, id, sender(), Some(0)),
        Err(ContractError::InvalidParams)
    );
    assert_eq!(world.contract.set_lookback_window(&call, id, sender(), Some(10)), Ok(()));
    assert_eq!(world.contract.get_lookback_window(id), Ok(Some(10)));
    world.advance(500);
    assert_eq!(world.accrued(id), 500);
    let call = world.call(&[]);
    assert_eq!(world.contract.get_withdrawable(&call, id), Ok(50));
    assert_eq!(world.withdraw(id), Ok(50));
    let call = world.call(&[sender()]);
    assert_eq!(world.contract.set_lookback_window(&call, id, sender(), None), Ok(()));
    world.advance(501);
    assert_eq!(world.withdraw(id), Ok(451));
}

#[test]
fn emergency_pause_blocks_withdrawals() {
    let mut world = World::new();
    let id = world.create(&linear(1000, 1, 1000)).unwrap();
    world.advance(10);
    let call = world.call(&[admin()]);
    world.contract.set_global_emergency_paused(&call, true);
    assert!(world.contract.get_global_emergency_paused());
    assert_eq!(world.withdraw(id), Err(ContractError::ContractPaused));
    assert_eq!(world.create(&linear(1000, 1, 1000)), Err(ContractError::ContractPaused));
    assert_eq!(world.contract.global_resume(&call), Ok(()));
    assert_eq!(world.contract.global_resume(&call), Err(ContractError::InvalidState));
    assert_eq!(world.withdraw(id), Ok(10));
    assert_eq!(world.contract.set_contract_paused(&call, true), Ok(()));
    let mut params = linear(1000, 1, 1000);
    params.start_time = 20;
    params.cliff_time = 20;
    assert_eq!(world.create(&params), Err(ContractError::ContractPaused));
    world.advance(15);
    assert_eq!(world.withdraw(id), Ok(5));
}

#[test]
fn emergency_pause_blocks_what_users_change() {
    let mut world = World::new();
    let id = world.create(&linear(1000, 1, 1000)).unwrap();
    let call = world.call(&[admin()]);
    world.contract.set_global_emergency_paused(&call, true);
    world.advance(2_000_000);
    let call = world.call(&[admin(), sender(), recipient()]);
    let paused = ContractError::ContractPaused;
    let c = &mut world.contract;
    assert_eq!(c.pause_stream(&call, id, PauseReason::Operational), Err(paused));
    assert_eq!(c.resume_stream(&call, id), Err(paused));
    assert_eq!(c.update_rate(&call, id, 2, sender()), Err(paused));
    assert_eq!(c.keeper_cancel(&call, id, sender()), Err(paused));
    assert_eq!(c.set_auto_claim(&call, id, account(9)), Err(paused));
    assert_eq!(c.revoke_auto_claim(&call, id), Err(paused));
    assert_eq!(c.register_stream_template(&call, sender(), 0, 0, 9), Err(paused));
    assert_eq!(c.delete_stream_template(&call, sender(), 0), Err(paused));
    assert_eq!(c.reserve_stream_ids(&call, sender(), 1, None), Err(paused));
    assert_eq!(c.release_id_reservation(&call, sender()), Err(paused));
    assert_eq!(c.reclaim_expired_id_reservation(&call, sender()), Err(paused));
    assert_eq!(c.reject_stream_offer(&call, recipient(), 7), Err(paused));
    assert_eq!(c.cancel_stream_offer(&call, sender(), 7), Err(ContractError::OfferNotFound));
    assert_eq!(c.close_completed_stream(id), Err(ContractError::InvalidState));
    assert_eq!(c.cancel_stream_as_admin(&call, id), Ok(()));
}
