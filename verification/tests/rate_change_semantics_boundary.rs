//! What a change of rate does to a stream that has already earned something:
//! what was earned is kept, and the new rate counts from there on.

use fluxora_stream::events::{Effect, Event};
use fluxora_stream::state::{Call, FluxoraStream};
use fluxora_stream::types::{
    Address, ContractError, CreateStreamParams, Stream, StreamKind, StreamStatus, Word,
};

fn account(n: u128) -> Address {
    Address::Account(Word { high: 0, low: n })
}

fn me() -> Address {
    Address::Contract(Word { high: 1, low: 0 })
}

fn token() -> Address {
    Address::Contract(Word { high: 2, low: 0 })
}

fn admin() -> Address {
    account(100)
}

fn sender() -> Address {
    account(1)
}

fn recipient() -> Address {
    account(2)
}

/// A contract, the ledger around it and a token that obeys its effects.
struct World {
    contract: FluxoraStream,
    now: u64,
    sequence: u32,
    balances: Vec<(Address, i128)>,
    events: Vec<Event>,
}

impl World {
    fn new() -> World {
        let mut world = World {
            contract: FluxoraStream::new(soroban_sdk::Env::default()),
            now: 0,
            sequence: 1,
            balances: vec![(sender(), 1_000_000_000_000)],
            events: Vec::new(),
        };
        let call = world.call(&[admin()]);
        assert_eq!(world.contract.init(&call, token(), admin(), true), Ok(()));
        world
    }

    fn balance(&self, who: Address) -> i128 {
        for (owner, amount) in self.balances.iter() {
            if *owner == who {
                return *amount;
            }
        }
        0
    }

    fn add(&mut self, who: Address, amount: i128) {
        for entry in self.balances.iter_mut() {
            if entry.0 == who {
                entry.1 += amount;
                return;
            }
        }
        self.balances.push((who, amount));
    }

    fn call(&self, signers: &[Address]) -> Call {
        Call {
            timestamp: self.now,
            sequence: self.sequence,
            contract: me(),
            signers: signers.to_vec(),
            balance: self.balance(me()),
        }
    }

    fn settle(&mut self) {
        for effect in self.contract.take_effects() {
            match effect {
                Effect::Pull { from, amount } => {
                    self.add(from, -amount);
                    self.add(me(), amount);
                }
                Effect::Push { to, amount } => {
                    self.add(me(), -amount);
                    self.add(to, amount);
                }
                Effect::Emit(event) => self.events.push(event),
                Effect::Replace { .. } => {}
            }
        }
    }

    fn advance(&mut self, now: u64) {
        self.now = now;
        self.sequence = now as u32 + 1;
    }
}

struct Ctx {
    world: World,
}

impl Ctx {
    fn new() -> Ctx {
        Ctx { world: World::new() }
    }

    fn advance(&mut self, now: u64) {
        self.world.advance(now);
    }

    fn everybody(&self) -> Call {
        self.world.call(&[sender(), recipient(), admin()])
    }

    fn create(&mut self, params: CreateStreamParams) -> u64 {
        let call = self.everybody();
        let id = self.world.contract.create_stream(&call, sender(), &params).unwrap();
        self.world.settle();
        id
    }

    fn create_stream(&mut self, deposit: i128, rate: i128, end: u64) -> u64 {
        self.create(CreateStreamParams {
            recipient: recipient(),
            deposit_amount: deposit,
            rate_per_second: rate,
            start_time: 0,
            cliff_time: 0,
            end_time: end,
            withdraw_dust_threshold: Some(0),
            memo: None,
            metadata: None,
            kind: StreamKind::Linear,
            irrevocable: None,
            witness: None,
        })
    }

    fn calculate_accrued(&mut self, id: u64) -> i128 {
        let call = self.everybody();
        self.world.contract.calculate_accrued(&call, id).unwrap()
    }

    fn get_withdrawable(&mut self, id: u64) -> i128 {
        let call = self.everybody();
        self.world.contract.get_withdrawable(&call, id).unwrap()
    }

    fn get_stream_state(&self, id: u64) -> Stream {
        self.world.contract.get_stream_state(id).unwrap()
    }

    fn withdraw(&mut self, id: u64) -> i128 {
        let call = self.everybody();
        let paid = self.world.contract.withdraw(&call, id).unwrap();
        self.world.settle();
        paid
    }

    fn update_rate_per_second(&mut self, id: u64, rate: i128) -> Result<(), ContractError> {
        let call = self.everybody();
        let result = self.world.contract.update_rate_per_second(&call, id, rate);
        self.world.settle();
        result
    }

    fn decrease_rate_per_second(&mut self, id: u64, rate: i128) -> Result<(), ContractError> {
        let call = self.everybody();
        let result = self.world.contract.decrease_rate_per_second(&call, id, rate);
        self.world.settle();
        result
    }
}

/// Rate increase must checkpoint accrued-to-date and apply the new rate only
/// from the effective timestamp forward.
///
/// Math:
///   deposit = 20_000, rate = 10/s, end = 1000
///   t = 100:  accrued = 10 * 100 = 1000
///             update_rate(10 to 20):
///             checkpointed_amount = 1000, checkpointed_at = 100
///   t = 100:  accrued = 1000 (unchanged: no time elapsed)
///   t = 110:  accrued = 1000 + 20 * 10 = 1200
///   t = 500:  accrued = 1000 + 20 * 400 = 9000
///   t = 1000: accrued = 1000 + 20 * 900 = 19000
/// NOTE: deposit must be >= new_rate * full_duration for update_rate_per_second
/// to succeed (it validates deposit covers the total streamable amount).
#[test]
fn rate_increase_checkpoints_accrued_and_applies_new_rate_forward_only() {
    let mut ctx = Ctx::new();
    let id = ctx.create_stream(20_000, 10, 1000);

    // t = 100: verify pre-increase accrual.
    ctx.advance(100);
    assert_eq!(ctx.calculate_accrued(id), 1000);
    assert_eq!(ctx.get_withdrawable(id), 1000);
    assert_eq!(
        ctx.get_stream_state(id).checkpointed_amount,
        0,
        "no rate change yet: checkpointed_amount must be 0"
    );

    // t = 100: increase rate to 20/s.
    ctx.update_rate_per_second(id, 20).unwrap();
    let s = ctx.get_stream_state(id);
    assert_eq!(s.rate_per_second, 20);
    assert_eq!(
        s.checkpointed_amount, 1000,
        "checkpoint must lock in the accrued 1000 under the old rate"
    );
    assert_eq!(s.checkpointed_at, 100);

    // t = 100: no time elapsed: accrual must be unchanged.
    assert_eq!(
        ctx.calculate_accrued(id),
        1000,
        "at checkpoint moment: accrued must equal checkpointed_amount"
    );
    assert_eq!(
        ctx.get_withdrawable(id),
        1000,
        "at checkpoint moment: withdrawable must be unchanged"
    );

    // t = 110: 10 seconds of new-rate accrual.
    ctx.advance(110);
    // accrued = 1000 (checkpoint) + 20 * 10 = 1200
    assert_eq!(ctx.calculate_accrued(id), 1200);
    assert_eq!(ctx.get_withdrawable(id), 1200);

    // t = 500: 400 seconds of new-rate accrual.
    ctx.advance(500);
    // accrued = 1000 + 20 * 400 = 9000
    assert_eq!(ctx.calculate_accrued(id), 9000);
    assert_eq!(ctx.get_withdrawable(id), 9000);

    // t = 1000: end-of-stream.
    ctx.advance(1000);
    // accrued = 1000 + 20 * 900 = 19_000, no cap needed (deposit = 20_000)
    assert_eq!(ctx.calculate_accrued(id), 19_000);
    assert_eq!(ctx.get_withdrawable(id), 19_000);
}

/// Rate decrease must lock in accrued under the old rate and apply the lower
/// rate forward. Historical entitlement is never reduced.
///
/// Math:
///   deposit = 10_000, rate = 10/s, end = 1000
///   t = 200:  accrued = 2000. decrease to 5/s:
///             checkpointed = 2000, new_deposit = 2000 + 5*800 = 6000
///             refund = 10_000 - 6000 = 4000
///   t = 200:  accrued = 2000 (no change)
///   t = 300:  accrued = 2000 + 5*100 = 2500
///   t = 1000: accrued = 2000 + 5*800 = 6000 (== new_deposit)
#[test]
fn rate_decrease_checkpoints_and_applies_lower_rate_forward_only() {
    let mut ctx = Ctx::new();
    let id = ctx.create_stream(10_000, 10, 1000);
    let sender_before = ctx.world.balance(sender());

    // t = 200: pre-decrease accrual.
    ctx.advance(200);
    assert_eq!(ctx.calculate_accrued(id), 2000);
    assert_eq!(ctx.get_withdrawable(id), 2000);

    // t = 200: decrease to 5/s.
    ctx.decrease_rate_per_second(id, 5).unwrap();
    let s = ctx.get_stream_state(id);
    assert_eq!(s.rate_per_second, 5);
    assert_eq!(s.checkpointed_amount, 2000);
    assert_eq!(s.checkpointed_at, 200);
    assert_eq!(
        s.deposit_amount, 6000,
        "new deposit = 2000 + 5 * (1000 - 200)"
    );
    assert_eq!(s.withdrawn_amount, 0);

    // Refund: 10_000 - 6000 = 4000
    let sender_after = ctx.world.balance(sender());
    assert_eq!(sender_after - sender_before, 4000);

    // t = 200: no time elapsed: accrual unchanged.
    assert_eq!(
        ctx.calculate_accrued(id),
        2000,
        "checkpoint moment: accrued == checkpointed_amount"
    );
    assert_eq!(ctx.get_withdrawable(id), 2000);

    // t = 300: 100 seconds of new-rate accrual.
    ctx.advance(300);
    // accrued = 2000 + 5 * 100 = 2500
    assert_eq!(ctx.calculate_accrued(id), 2500);
    assert_eq!(ctx.get_withdrawable(id), 2500);

    // t = 1000: end-of-stream.
    ctx.advance(1000);
    // accrued = 2000 + 5 * 800 = 6000
    assert_eq!(ctx.calculate_accrued(id), 6000);
    assert_eq!(ctx.get_withdrawable(id), 6000);
}

/// After a partial withdrawal, a rate change must preserve the withdrawn
/// amount and the remaining entitlement must be calculated from the new
/// checkpoint.
///
/// Math:
///   deposit = 10_000, rate = 10/s, end = 1000
///   t = 100:  withdraw 1000.   withdrawn_amount = 1000
///   t = 100:  decrease 10 to 3/s.
///             checkpointed = 1000, checkpointed_at = 100
///             new_deposit = 1000 + 3 * 900 = 3700, refund = 6300
///   t = 100:  withdrawable = 1000 - 1000 = 0
///   t = 200:  accrued = 1000 + 3*100 = 1300, withdrawable = 300
///   t = 1000: accrued = 1000 + 3*900 = 3700, withdrawable = 3700 - 1300 = 2400
///   Final withdrawn = 3700, deposit after decrease = 3700. Balance conserved.
#[test]
fn historical_liability_preserved_across_withdraw_and_rate_change() {
    let mut ctx = Ctx::new();
    let id = ctx.create_stream(10_000, 10, 1000);

    // t = 100: withdraw everything earned so far.
    ctx.advance(100);
    assert_eq!(ctx.withdraw(id), 1000);
    assert_eq!(ctx.get_stream_state(id).withdrawn_amount, 1000);

    // t = 100: decrease rate to 3/s.
    ctx.decrease_rate_per_second(id, 3).unwrap();
    let s = ctx.get_stream_state(id);
    assert_eq!(s.withdrawn_amount, 1000, "withdrawn_amount must persist");
    assert_eq!(s.checkpointed_amount, 1000);
    assert_eq!(s.deposit_amount, 3700);

    // t = 100: no remaining withdrawable.
    assert_eq!(ctx.get_withdrawable(id), 0);

    // t = 200: partial withdraw under new rate.
    ctx.advance(200);
    // accrued = 1000 + 3 * 100 = 1300
    assert_eq!(ctx.calculate_accrued(id), 1300);
    assert_eq!(ctx.get_withdrawable(id), 300); // 1300 - 1000
    assert_eq!(ctx.withdraw(id), 300);
    assert_eq!(ctx.get_stream_state(id).withdrawn_amount, 1300);

    // t = 1000: final drain.
    ctx.advance(1000);
    // accrued = 1000 + 3 * 900 = 3700
    assert_eq!(ctx.calculate_accrued(id), 3700);
    assert_eq!(ctx.get_withdrawable(id), 2400); // 3700 - 1300
    assert_eq!(ctx.withdraw(id), 2400);

    let final_s = ctx.get_stream_state(id);
    assert_eq!(final_s.withdrawn_amount, 3700);
    assert_eq!(final_s.deposit_amount, 3700);
    assert_eq!(final_s.status, StreamStatus::Completed);
}

/// An increase after a partial withdraw must checkpoint the already-earned
/// and already-withdrawn amounts, then apply the higher rate forward only.
///
/// Math:
///   deposit = 10_000, rate = 5/s, end = 1000
///   t = 100:  accrued = 500.  Withdraw 500.  withdrawn = 500.
///   t = 100:  update_rate(5 to 10).
///             checkpointed = 500, deposit = 10_000 (unchanged since
///             new_rate * remaining > deposit - checkpointed is bounded)
///   t = 500:  accrued = 500 + 10 * 400 = 4500, withdrawable = 4000
///   t = 1000: accrued = 500 + 10 * 900 = 9500, withdrawable = 9000
///   Final withdrawable = 9500 - 500 = 9000
#[test]
fn rate_increase_after_partial_withdraw_preserves_history() {
    let mut ctx = Ctx::new();
    let id = ctx.create_stream(10_000, 5, 1000);

    // t = 100: withdraw partial accrual.
    ctx.advance(100);
    assert_eq!(ctx.withdraw(id), 500);
    assert_eq!(ctx.get_stream_state(id).withdrawn_amount, 500);

    // t = 100: increase rate to 10/s.
    ctx.update_rate_per_second(id, 10).unwrap();
    let s = ctx.get_stream_state(id);
    assert_eq!(s.checkpointed_amount, 500);
    assert_eq!(s.checkpointed_at, 100);
    assert_eq!(s.withdrawn_amount, 500);
    assert_eq!(s.rate_per_second, 10);
    assert_eq!(
        s.deposit_amount, 10_000,
        "deposit unchanged for rate increases"
    );

    // t = 500: under new rate.
    ctx.advance(500);
    // accrued = 500 + 10 * 400 = 4500
    assert_eq!(ctx.calculate_accrued(id), 4500);
    assert_eq!(ctx.get_withdrawable(id), 4000);

    // t = 1000: end-of-stream.
    ctx.advance(1000);
    // accrued = 500 + 10 * 900 = 9500
    assert_eq!(ctx.calculate_accrued(id), 9500);
    assert_eq!(ctx.get_withdrawable(id), 9000);
}

/// Three consecutive rate decreases, each checkpointing the current accrual.
/// Verifies that the cumulative checkpoint chain computes correctly.
///
/// Math:
///   deposit = 30_000, rate = 30/s, end = 1000
///   t = 100:  accrued = 3000.  Down to 20/s.
///             cp = 3000, new_deposit = 3000 + 20*900 = 21_000. refund = 9000.
///   t = 300:  accrued = 3000 + 20*200 = 7000.  Down to 10/s.
///             cp = 7000, new_deposit = 7000 + 10*700 = 14_000. refund = 7000.
///   t = 600:  accrued = 7000 + 10*300 = 10_000.  Down to 5/s.
///             cp = 10_000, new_deposit = 10_000 + 5*400 = 12_000. refund = 2000.
///   t = 1000: accrued = 10_000 + 5*400 = 12_000.
///   Total paid to sender as refunds = 9000 + 7000 + 2000 = 18_000.
///   Total paid to recipient = 12_000.
///   Original deposit = 30_000. 18_000 + 12_000 = 30_000
#[test]
fn three_sequential_rate_decreases_preserve_cumulative_checkpoints() {
    let mut ctx = Ctx::new();
    let id = ctx.create_stream(30_000, 30, 1000);
    let mut sender_refunds: i128 = 0;

    // t = 100: first decrease 30 to 20.
    ctx.advance(100);
    let sb1 = ctx.world.balance(sender());
    assert_eq!(ctx.calculate_accrued(id), 3000);
    ctx.decrease_rate_per_second(id, 20).unwrap();
    sender_refunds += ctx.world.balance(sender()) - sb1; // 9000
    let s = ctx.get_stream_state(id);
    assert_eq!(s.checkpointed_amount, 3000);
    assert_eq!(s.deposit_amount, 21_000);
    assert_eq!(s.rate_per_second, 20);

    // t = 300: second decrease 20 to 10.
    ctx.advance(300);
    // accrued = 3000 + 20*200 = 7000
    assert_eq!(ctx.calculate_accrued(id), 7000);
    let sb2 = ctx.world.balance(sender());
    ctx.decrease_rate_per_second(id, 10).unwrap();
    sender_refunds += ctx.world.balance(sender()) - sb2; // 7000
    let s = ctx.get_stream_state(id);
    assert_eq!(s.checkpointed_amount, 7000);
    assert_eq!(s.deposit_amount, 14_000);
    assert_eq!(s.rate_per_second, 10);

    // t = 600: third decrease 10 to 5.
    ctx.advance(600);
    // accrued = 7000 + 10*300 = 10_000
    assert_eq!(ctx.calculate_accrued(id), 10_000);
    let sb3 = ctx.world.balance(sender());
    ctx.decrease_rate_per_second(id, 5).unwrap();
    sender_refunds += ctx.world.balance(sender()) - sb3; // 2000
    let s = ctx.get_stream_state(id);
    assert_eq!(s.checkpointed_amount, 10_000);
    assert_eq!(s.deposit_amount, 12_000);
    assert_eq!(s.rate_per_second, 5);

    // t = 1000: final accrual.
    ctx.advance(1000);
    // accrued = 10_000 + 5*400 = 12_000
    assert_eq!(ctx.calculate_accrued(id), 12_000);
    assert_eq!(ctx.get_withdrawable(id), 12_000);

    // Balance conservation.
    assert_eq!(sender_refunds, 18_000);
    let total =
        ctx.world.balance(sender()) + ctx.world.balance(recipient()) + ctx.world.balance(me());
    assert_eq!(
        total, 1_000_000_000_000,
        "total tokens must be conserved across sender + recipient + contract"
    );
}

/// A change of rate that is refused leaves the rate as it was, whoever asks.
#[test]
fn rate_change_rejected_for_non_sender() {
    let mut ctx = Ctx::new();
    let id = ctx.create_stream(1000, 10, 100);
    ctx.advance(50);

    let state_before = ctx.get_stream_state(id);
    // Signed by everybody: the deposit does not cover the higher rate.
    let result = ctx.update_rate_per_second(id, state_before.rate_per_second + 5);
    assert!(result.is_err());
    let state_after = ctx.get_stream_state(id);
    assert_eq!(
        state_after.rate_per_second, state_before.rate_per_second,
        "rate must not change for unauthorized caller"
    );

    // Signed by somebody else.
    let attacker = account(66);
    let call = ctx.world.call(&[attacker]);
    let result = ctx.world.contract.update_rate_per_second(&call, id, 15);
    assert_eq!(result, Err(ContractError::Unauthorized));
    assert_eq!(ctx.get_stream_state(id).rate_per_second, 10);
}

/// Rate changes must be rejected on Completed or Cancelled streams.
#[test]
fn rate_change_rejected_on_completed_stream() {
    let mut ctx = Ctx::new();
    // Small deposit: 100 tokens at 10/s for 10 seconds.
    let id = ctx.create_stream(100, 10, 10);

    ctx.advance(10);
    assert_eq!(ctx.withdraw(id), 100);
    assert_eq!(ctx.get_stream_state(id).status, StreamStatus::Completed);

    let result = ctx.update_rate_per_second(id, 20);
    assert!(result.is_err(), "update rate on Completed stream must fail");
}

#[test]
fn rate_decrease_rejected_on_completed_stream() {
    let mut ctx = Ctx::new();
    let id = ctx.create_stream(100, 10, 10);

    ctx.advance(10);
    assert_eq!(ctx.withdraw(id), 100);
    assert_eq!(ctx.get_stream_state(id).status, StreamStatus::Completed);

    let result = ctx.decrease_rate_per_second(id, 5);
    assert!(result.is_err(), "decrease rate on Completed stream must fail");
}

/// When cliff == start (no cliff delay), a rate change at t = 0 still
/// checkpoints the zero-accrued state correctly.
///
/// NOTE: deposit must be >= new_rate * full_duration for update_rate_per_second
/// to succeed (20/s * 500s = 10_000).
#[test]
fn rate_change_at_start_boundary_checkpoints_zero_accrual() {
    let mut ctx = Ctx::new();
    let id = ctx.create_stream(10_000, 10, 500);

    // t = 0: stream just started, nothing accrued yet.
    ctx.advance(0);
    assert_eq!(ctx.calculate_accrued(id), 0);

    // Increase rate immediately.
    ctx.update_rate_per_second(id, 20).unwrap();
    let s = ctx.get_stream_state(id);
    assert_eq!(s.checkpointed_amount, 0, "nothing accrued yet");
    assert_eq!(s.checkpointed_at, 0);
    assert_eq!(s.rate_per_second, 20);

    // t = 10: verify new rate applies from the start
    ctx.advance(10);
    // accrued = 0 + 20 * 10 = 200
    assert_eq!(ctx.calculate_accrued(id), 200);

    // t = 500: end-of-stream
    ctx.advance(500);
    // accrued = 0 + 20 * 500 = 10_000, capped at deposit 10_000
    assert_eq!(ctx.calculate_accrued(id), 10_000);
}

/// Rate change in the final second of the stream. The new rate applies
/// for exactly 1 second.
///
/// Math:
///   deposit = 1000, rate = 10/s, end = 100
///   t = 99:  accrued = 990.  Down to 1/s.
///            cp = 990, new_deposit = 990 + 1*1 = 991. refund = 9.
///   t = 100: accrued = 990 + 1*1 = 991.
#[test]
fn rate_change_at_last_second_before_end_applies_one_second() {
    let mut ctx = Ctx::new();
    let id = ctx.create_stream(1000, 10, 100);

    ctx.advance(99);
    assert_eq!(ctx.calculate_accrued(id), 990);

    let sb = ctx.world.balance(sender());
    ctx.decrease_rate_per_second(id, 1).unwrap();
    let s = ctx.get_stream_state(id);
    assert_eq!(s.checkpointed_amount, 990);
    assert_eq!(s.deposit_amount, 991);
    assert_eq!(s.rate_per_second, 1);
    assert_eq!(ctx.world.balance(sender()) - sb, 9, "refund = 1000 - 991");

    ctx.advance(100);
    assert_eq!(ctx.calculate_accrued(id), 991);
    assert_eq!(ctx.get_withdrawable(id), 991);
}

/// Decrease to the minimum rate (1 token per second) and verify the
/// remaining duration is correctly computed.
///
/// Math:
///   deposit = 1000, rate = 10/s, end = 100
///   t = 50:  accrued = 500.  Down to 1/s.
///            cp = 500, new_deposit = 500 + 1*50 = 550. refund = 450.
///   t = 100: accrued = 500 + 1*50 = 550.
#[test]
fn rate_decrease_to_minimum_rate_correctly_computes_remaining() {
    let mut ctx = Ctx::new();
    let id = ctx.create_stream(1000, 10, 100);

    ctx.advance(50);
    assert_eq!(ctx.calculate_accrued(id), 500);

    ctx.decrease_rate_per_second(id, 1).unwrap();
    let s = ctx.get_stream_state(id);
    assert_eq!(s.deposit_amount, 550);
    assert_eq!(s.checkpointed_amount, 500);

    ctx.advance(100);
    // accrued = 500 + 1*50 = 550
    assert_eq!(ctx.calculate_accrued(id), 550);
    assert_eq!(ctx.withdraw(id), 550);
    assert_eq!(ctx.get_stream_state(id).status, StreamStatus::Completed);
}

/// CliffOnly streams do not support rate changes.
#[test]
fn rate_change_rejected_for_cliff_only_stream() {
    let mut ctx = Ctx::new();

    let id = ctx.create(CreateStreamParams {
        recipient: recipient(),
        deposit_amount: 1000,
        rate_per_second: 0,
        start_time: 0,
        cliff_time: 0,
        end_time: 100,
        withdraw_dust_threshold: Some(0),
        memo: None,
        metadata: None,
        kind: StreamKind::CliffOnly,
        irrevocable: None,
        witness: None,
    });

    ctx.advance(50);
    let result = ctx.update_rate_per_second(id, 10);
    assert!(
        result.is_err(),
        "rate change on CliffOnly stream must fail with UnsupportedStreamKind"
    );
    assert_eq!(result, Err(ContractError::UnsupportedStreamKind));
}
