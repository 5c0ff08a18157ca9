//! Lists, pages, reports and messages.

use fluxora_stream::accrual::{calculate_accrued_amount_checkpointed, CheckpointState};
use fluxora_stream::batch::reject_duplicate_ids;
use fluxora_stream::delegated::{
    build_delegated_withdraw_message, build_witnessed_cancel_message,
};
use fluxora_stream::events::{Effect, Event};
use fluxora_stream::index::IdList;
use fluxora_stream::lifecycle::compute_stream_health;
use fluxora_stream::state::{Call, FluxoraStream};
use fluxora_stream::table::Table;
use fluxora_stream::types::{
    Address, ContractError, CreateStreamParams, PauseReason, StreamKind, Word,
};
use fluxora_stream::views::compute_adaptive_ttl;

fn account(n: u128) -> Address {
    Address::Account(Word { high: 0, low: n })
}

fn me() -> Address {
    Address::Contract(Word { high: 1, low: 0 })
}

fn token() -> Address {
    Address::Contract(Word { high: 2, low: 0 })
}

fn admin() -> Address {
    account(100)
}

fn sender() -> Address {
    account(1)
}

fn recipient() -> Address {
    account(2)
}

/// A contract, the ledger around it and a token that obeys its effects.
struct World {
    contract: FluxoraStream,
    now: u64,
    sequence: u32,
    balances: Vec<(Address, i128)>,
    events: Vec<Event>,
}

impl World {
    fn new() -> World {
        let mut world = World {
            contract: FluxoraStream::new(soroban_sdk::Env::default()),
            now: 0,
            sequence: 1,
            balances: vec![(sender(), 1_000_000_000_000)],
            events: Vec::new(),
        };
        let call = world.call(&[admin()]);
        assert_eq!(world.contract.init(&call, token(), admin(), true), Ok(()));
        world
    }

    fn balance(&self, who: Address) -> i128 {
        for (owner, amount) in self.balances.iter() {
            if *owner == who {
                return *amount;
            }
        }
        0
    }

    fn add(&mut self, who: Address, amount: i128) {
        for entry in self.balances.iter_mut() {
            if entry.0 == who {
                entry.1 += amount;
                return;
            }
        }
        self.balances.push((who, amount));
    }

    fn call(&self, signers: &[Address]) -> Call {
        Call {
            timestamp: self.now,
            sequence: self.sequence,
            contract: me(),
            signers: signers.to_vec(),
            balance: self.balance(me()),
        }
    }

    fn settle(&mut self) {
        for effect in self.contract.take_effects() {
            match effect {
                Effect::Pull { from, amount } => {
                    self.add(from, -amount);
                    self.add(me(), amount);
                }
                Effect::Push { to, amount } => {
                    self.add(me(), -amount);
                    self.add(to, amount);
                }
                Effect::Emit(event) => self.events.push(event),
                Effect::Replace { .. } => {}
            }
        }
    }

    fn advance(&mut self, now: u64) {
        self.now = now;
        self.sequence = now as u32 + 1;
    }

    fn create(&mut self, params: &CreateStreamParams) -> Result<u64, ContractError> {
        let call = self.call(&[sender()]);
        let result = self.contract.create_stream(&call, sender(), params);
        self.settle();
        result
    }
}

fn linear(deposit: i128, rate: i128, end: u64) -> CreateStreamParams {
    CreateStreamParams {
        recipient: recipient(),
        deposit_amount: deposit,
        rate_per_second: rate,
        start_time: 0,
        cliff_time: 0,
        end_time: end,
        withdraw_dust_threshold: None,
        memo: None,
        metadata: None,
        kind: StreamKind::Linear,
        irrevocable: None,
        witness: None,
    }
}

#[test]
fn list_of_identifiers_stays_sorted() {
    let host = soroban_sdk::Env::default();
    let mut list = IdList::new(&host);
    assert_eq!(list.len(), 0);
    for id in [5, 1, 9, 3, 9, 5] {
        list.add(id);
    }
    assert_eq!(list.to_vec(), vec![1, 3, 5, 9]);
    assert_eq!(list.len(), 4);
    assert_eq!(list.at(2), 5);
    assert!(list.contains(3));
    assert!(!list.contains(4));
    assert_eq!(list.rank(0), 0);
    assert_eq!(list.rank(5), 2);
    assert_eq!(list.rank(6), 3);
    assert_eq!(list.rank(100), 4);
    assert_eq!(list.range(1, 3), vec![3, 5]);
    list.remove(4);
    list.remove(3);
    assert_eq!(list.to_vec(), vec![1, 5, 9]);
    list.append(12);
    assert_eq!(list.to_vec(), vec![1, 5, 9, 12]);
}

#[test]
fn table_remembers_the_latest_value() {
    let mut table: Table<u64, i128> = Table::new();
    for k in 0..20u64 {
        table.insert((k * 7) % 20, k as i128);
    }
    assert_eq!(table.get(7), Some(&1));
    table.insert(7, -1);
    assert_eq!(table.get(7), Some(&-1));
    assert!(table.contains(19));
    table.remove(19);
    assert!(!table.contains(19));
    assert_eq!(table.take(0), Some(0));
    assert_eq!(table.take(0), None);
    assert_eq!(table.get(13), Some(&19));
}

#[test]
fn pages_follow_each_other() {
    let mut world = World::new();
    for _ in 0..5 {
        world.create(&linear(10, 1, 10)).unwrap();
    }
    let mut cursor = 0;
    let mut seen = Vec::new();
    let mut pages = 0;
    loop {
        let page = world.contract.get_recipient_streams_paginated(recipient(), cursor, 2);
        seen.extend(page.stream_ids);
        pages += 1;
        cursor = page.next_cursor;
        if cursor == 0 {
            break;
        }
    }
    assert_eq!(seen, vec![0, 1, 2, 3, 4]);
    assert_eq!(pages, 3);
    assert_eq!(world.contract.get_recipient_stream_count(recipient()), 5);
    let page = world.contract.get_recipient_streams_paginated(account(9), 0, 2);
    assert_eq!((page.stream_ids.len(), page.next_cursor), (0, 0));
}

#[test]
fn long_lists_are_cut() {
    let mut world = World::new();
    for _ in 0..105 {
        world.create(&linear(10, 1, 10)).unwrap();
    }
    assert_eq!(world.contract.get_recipient_streams(recipient()).len(), 100);
    let page = world.contract.get_recipient_streams_paginated(recipient(), 0, 1000);
    assert_eq!((page.stream_ids.len(), page.next_cursor), (100, 100));
    assert_eq!(world.contract.get_streams_by_id_range(0, u64::MAX, 1000).len(), 100);
    let streams = world.contract.get_streams_by_id_range(101, u64::MAX, 1000);
    let ids: Vec<u64> = streams.iter().map(|s| s.stream_id).collect();
    assert_eq!(ids, vec![101, 102, 103, 104]);
    assert_eq!(world.contract.get_streams_by_id_range(9, 3, 10).len(), 0);
}

#[test]
fn id_range_skips_removed_streams() {
    let mut world = World::new();
    for _ in 0..4 {
        world.create(&linear(10, 1, 10)).unwrap();
    }
    world.advance(10);
    let call = world.call(&[recipient()]);
    world.contract.withdraw(&call, 1).unwrap();
    world.contract.close_completed_stream(1).unwrap();
    let ids: Vec<u64> = world
        .contract
        .get_streams_by_id_range(0, 3, 10)
        .iter()
        .map(|s| s.stream_id)
        .collect();
    assert_eq!(ids, vec![0, 2, 3]);
    assert_eq!(world.contract.get_streams_by_id_range(0, 3, 2).len(), 2);
}

#[test]
fn portfolio_counts_every_stream_once() {
    let mut world = World::new();
    let healthy = world.create(&linear(1000, 1, 1000)).unwrap();
    let expired = world.create(&linear(100, 1, 100)).unwrap();
    let cancelled = world.create(&linear(1000, 1, 1000)).unwrap();
    let underfunded = world.create(&linear(1000, 1, 1000)).unwrap();
    world.advance(50);
    let call = world.call(&[sender()]);
    world.contract.cancel_stream(&call, cancelled).unwrap();
    world.contract.update_rate(&call, underfunded, 2, sender()).unwrap();
    world.advance(150);
    let call = world.call(&[]);
    let page = world.contract.get_sender_portfolio_health(&call, sender(), 0, 0);
    assert_eq!(page.stream_ids, vec![healthy, expired, cancelled, underfunded]);
    assert_eq!(page.healthy_count, 1);
    assert_eq!(page.expired_count, 1);
    assert_eq!(page.underfunded_count, 1);
    assert_eq!(page.next_cursor, 0);
    let page = world.contract.get_sender_portfolio_health(&call, sender(), 0, 3);
    assert_eq!(page.next_cursor, underfunded);
    assert_eq!(page.underfunded_count, 0);
}

#[test]
fn health_of_a_stream() {
    let mut world = World::new();
    let id = world.create(&linear(1000, 1, 1000)).unwrap();
    world.advance(300);
    let call = world.call(&[recipient()]);
    world.contract.withdraw(&call, id).unwrap();
    let health = world.contract.get_stream_health(&call, id).unwrap();
    assert!(!health.is_underfunded);
    assert!(!health.is_expired);
    assert_eq!(health.accrued_to_date, 300);
    assert_eq!(health.remaining_deposit, 700);
    assert_eq!(health.seconds_until_depletion, Some(700));
    world.advance(1000);
    let call = world.call(&[]);
    assert!(world.contract.get_stream_health(&call, id).unwrap().is_expired);
    let stream = world.contract.get_stream_state(id).unwrap();
    assert_eq!(compute_stream_health(&stream, 400), (false, 700, 600));
    assert_eq!(
        world.contract.get_stream_health(&call, 5),
        Err(ContractError::StreamNotFound)
    );
}

#[test]
fn claims_can_be_planned() {
    let mut world = World::new();
    let id = world.create(&linear(1000, 1, 1000)).unwrap();
    assert_eq!(world.contract.get_claimable_at(id, 250), Ok(250));
    assert_eq!(world.contract.get_claimable_at(id, 5000), Ok(1000));
    world.advance(400);
    let call = world.call(&[sender(), recipient()]);
    assert_eq!(world.contract.get_withdrawable(&call, id), Ok(400));
    world.contract.cancel_stream(&call, id).unwrap();
    assert_eq!(world.contract.get_claimable_at(id, 300), Ok(300));
    assert_eq!(world.contract.get_claimable_at(id, 5000), Ok(400));
    let mut call = world.call(&[recipient()]);
    call.balance = 1000;
    assert_eq!(world.contract.get_withdrawable(&call, id), Ok(400));
    assert_eq!(world.contract.withdraw(&call, id), Ok(400));
    assert_eq!(world.contract.get_claimable_at(id, 5000), Ok(0));
}

#[test]
fn accrual_formula() {
    let state = |kind: StreamKind| CheckpointState {
        checkpointed_amount: 40,
        checkpointed_at: 10,
        cliff_time: 20,
        end_time: 100,
        deposit_amount: 300,
        kind,
    };
    let at = |kind: StreamKind, t: u64| calculate_accrued_amount_checkpointed(state(kind), 3, t);
    assert_eq!(at(StreamKind::Linear, 19), 0);
    assert_eq!(at(StreamKind::Linear, 20), 70);
    assert_eq!(at(StreamKind::Linear, 50), 160);
    assert_eq!(at(StreamKind::Linear, 100), 300);
    assert_eq!(at(StreamKind::CliffSlope, 20), 40);
    assert_eq!(at(StreamKind::CliffSlope, 50), 130);
    assert_eq!(at(StreamKind::CliffSlope, 200), 280);
    assert_eq!(at(StreamKind::CliffOnly, 19), 0);
    assert_eq!(at(StreamKind::CliffOnly, 20), 300);
    assert_eq!(
        calculate_accrued_amount_checkpointed(state(StreamKind::Linear), i128::MAX, 99),
        300
    );
}

#[test]
fn stored_streams_live_long_enough() {
    assert_eq!(compute_adaptive_ttl(100, 50), 120_960);
    assert_eq!(compute_adaptive_ttl(0, 5 * 103_680), 120_960);
    assert_eq!(compute_adaptive_ttl(0, 5 * 103_681), 120_961);
    assert_eq!(compute_adaptive_ttl(0, u64::MAX), 3_110_400);
}

#[test]
fn repeated_identifiers_are_found() {
    assert_eq!(reject_duplicate_ids(&vec![]), Ok(()));
    assert_eq!(reject_duplicate_ids(&vec![4, 2, 9]), Ok(()));
    assert_eq!(reject_duplicate_ids(&vec![4, 2, 4]), Err(ContractError::DuplicateStreamId));
}

#[test]
fn signed_messages_are_big_endian() {
    let message = build_delegated_withdraw_message(1, 0x0203, 4, -1, 256);
    let mut expected = vec![0, 0, 0, 0, 0, 0, 0, 1];
    expected.extend([0, 0, 0, 0, 0, 0, 2, 3]);
    expected.extend([0, 0, 0, 0, 0, 0, 0, 4]);
    expected.extend([255; 16]);
    expected.extend([0, 0, 0, 0, 0, 0, 0, 0, 0, 0, 0, 0, 0, 0, 1, 0]);
    assert_eq!(message, expected);
    let message = build_witnessed_cancel_message(7, 8);
    assert_eq!(&message[..16], "witnessed_cancel".as_bytes());
    assert_eq!(&message[16..], &[0, 0, 0, 0, 0, 0, 0, 7, 0, 0, 0, 0, 0, 0, 0, 8]);
}

#[test]
fn errors_have_stable_numbers() {
    assert_eq!(ContractError::StreamNotFound.code(), 1);
    assert_eq!(ContractError::Unauthorized.code(), 7);
    assert_eq!(ContractError::MetadataTooLarge.code(), 32);
    assert_eq!(ContractError::ReservationAlreadyActive.code(), 34);
    assert_eq!(ContractError::KeeperGracePeriodNotElapsed.code(), 42);
    assert_eq!(ContractError::TokenVerificationFailed.code(), 88);
    assert_eq!(PauseReason::Operational.label(), "Operational");
    assert_eq!(PauseReason::Compliance.label(), "Compliance");
}

#[test]
fn a_table_lists_the_keys_that_are_in_use() {
    let mut table: Table<u64, bool> = Table::new();
    assert!(table.keys().is_empty());
    table.insert(7, true);
    table.insert(3, false);
    table.insert(7, false);
    table.insert(5, true);
    table.remove(3);
    let mut keys = table.keys();
    keys.sort();
    keys.dedup();
    assert_eq!(keys, vec![5, 7]);
}

#[test]
fn portfolio_shows_created_streams_and_drops_closed_ones() {
    let mut world = World::new();
    for _ in 0..4 {
        world.create(&linear(1000, 1, 1000)).unwrap();
    }
    let call = world.call(&[sender(), recipient()]);
    let offer = world
        .contract
        .create_stream_offer(&call, sender(), &linear(1000, 1, 1000), None)
        .unwrap();
    assert_eq!(world.contract.reject_stream_offer(&call, recipient(), offer), Ok(()));
    assert!(world.contract.get_recipient_pending_offers(recipient()).is_empty());
    world.settle();
    let call = world.call(&[sender()]);
    assert_eq!(world.contract.cancel_stream(&call, 2), Ok(()));
    world.settle();
    let shown = |world: &World| {
        let call = world.call(&[]);
        let mut ids = Vec::new();
        let mut cursor = 0;
        loop {
            let page = world.contract.get_sender_portfolio_health(&call, sender(), cursor, 2);
            assert!(page.stream_ids.len() <= 2);
            ids.extend(page.stream_ids);
            cursor = page.next_cursor;
            if cursor == 0 {
                return ids;
            }
        }
    };
    assert_eq!(shown(&world), vec![0, 1, 2, 3]);
    assert_eq!(world.contract.close_cancelled_stream(2), Ok(()));
    assert_eq!(shown(&world), vec![0, 1, 3]);
}
