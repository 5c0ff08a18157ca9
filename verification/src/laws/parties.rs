//! What the two sides of a stream and the administrator may set.

use crate::events::{
    AutoClaimRevoked, AutoClaimSet, ClaimOwnershipTransferred, ContractUpgraded, Effect, Event,
    ExcessSwept, ProtocolPaused, ProtocolResumed, RecipientUpdated,
};
use crate::state::{Call, ContractState};
use crate::types::{
    Address, AutoClaimStatus, Config, PendingRecipientUpdate, RotationEntry, RotationRole, Stream,
    StreamHealth, StreamStatus, Text, Word,
};
use crate::views::Standing;
use vstd::prelude::*;

verus! {

/// Another recipient is proposed by the sender, one at a time, and may be taken
/// back by the sender; the stream does not change.
pub proof fn law_proposal_outcome(s: ContractState, call: Call, id: u64, new_recipient: Address)
    ensures
        ({
            let a = s.streams[id];
            let open = !s.emergency_paused && s.streams.dom().contains(id)
                && call.signers@.contains(a.sender);
            &&& s.update_recipient_error(call, id, new_recipient) is None <==> open
                && new_recipient != a.recipient && !s.pending_recipients.dom().contains(id)
            &&& s.cancel_recipient_error(call, id) is None <==> open
                && s.pending_recipients.dom().contains(id)
            &&& s.update_recipient_step(id, new_recipient) == (ContractState {
                pending_recipients: s.pending_recipients.insert(
                    id,
                    PendingRecipientUpdate { stream_id: id, proposed_recipient: new_recipient },
                ),
                ..s
            })
            &&& s.cancel_recipient_step(id) == (ContractState {
                pending_recipients: s.pending_recipients.remove(id),
                ..s
            })
        }),
{
}

/// A proposal takes effect when the recipient in office signs it: the stream
/// gets the new recipient and nothing else changes in it, it moves from one list
/// to the other, and the change is remembered last of all.
pub proof fn law_rotation_outcome(s: ContractState, call: Call, id: u64)
    requires
        s.wf(),
    ensures
        ({
            let a = s.streams[id];
            let new = s.pending_recipients[id].proposed_recipient;
            let t = s.accept_recipient_step(call, id);
            let before = if s.rotations.dom().contains(id) {
                s.rotations[id]
            } else {
                Seq::empty()
            };
            let history = t.rotations[id];
            &&& s.accept_recipient_error(call, id) is None <==> {
                &&& !s.emergency_paused
                &&& s.pending_recipients.dom().contains(id)
                &&& s.streams.dom().contains(id)
                &&& call.signers@.contains(a.recipient)
            }
            &&& s.streams.dom().contains(id) ==> {
                &&& t.streams == s.streams.insert(id, Stream { recipient: new, ..a })
                &&& t.pending_recipients == s.pending_recipients.remove(id)
                &&& history.len() > 0
                &&& history.last() == (RotationEntry {
                    old_addr: a.recipient,
                    new_addr: new,
                    ledger: call.sequence,
                    role: RotationRole::Recipient,
                    authoriser: a.recipient,
                })
                &&& before.len() < 50 ==> history.drop_last() == before
                &&& before.len() == 50 ==> history.drop_last() == before.drop_first()
                &&& t.rotations == s.rotations.insert(id, history)
                &&& t.effects == s.effects.push(
                    Effect::Emit(
                        Event::RecipientUpdated(
                            RecipientUpdated {
                                stream_id: id,
                                old_recipient: a.recipient,
                                new_recipient: new,
                            },
                        ),
                    ),
                )
                &&& forall|who: Address, x: u64|
                    #![trigger crate::laws::lists::on_list(t.recipient_streams, who, x)]
                    crate::laws::lists::on_list(t.recipient_streams, who, x) == ((who == new && x
                        == id) || (crate::laws::lists::on_list(s.recipient_streams, who, x) && !(who
                        == a.recipient && x == id)))
                &&& t == (ContractState {
                    streams: t.streams,
                    pending_recipients: t.pending_recipients,
                    rotations: t.rotations,
                    recipient_streams: t.recipient_streams,
                    effects: t.effects,
                    ..s
                })
            }
        }),
{
    if s.streams.dom().contains(id) {
        let a = s.streams[id];
        let new = s.pending_recipients[id].proposed_recipient;
        crate::registry::lemma_stored_stream(s, id);
        crate::registry::lemma_lists_ascend(s, a.recipient);
        crate::registry::lemma_lists_ascend(s, new);
        let between = crate::state::delist(s.recipient_streams, a.recipient, id);
        crate::laws::lists::lemma_delisted(s.recipient_streams, a.recipient, id);
        assert(crate::index::ascending(crate::state::listed(between, new)));
        crate::laws::lists::lemma_enlisted(between, new, id);
        let before = s.history_of(id);
        let history = s.accept_recipient_step(call, id).rotations[id];
        assert(before.len() < 50 ==> history.drop_last() =~= before);
        assert(before.len() == 50 ==> history.drop_last() =~= before.drop_first());
    }
}

/// The right to withdraw is handed over by the one who has it, to anybody.
pub proof fn law_claim_transfer_outcome(
    s: ContractState,
    call: Call,
    id: u64,
    current: Address,
    new_owner: Address,
)
    requires
        s.wf(),
    ensures
        ({
            let a = s.streams[id];
            let owner = if a.claim_owner is Some {
                a.claim_owner->0
            } else {
                a.recipient
            };
            &&& s.transfer_claim_error(call, id, current) is None <==> {
                &&& !s.emergency_paused
                &&& s.streams.dom().contains(id)
                &&& current == owner
                &&& call.signers@.contains(current)
            }
            &&& s.streams.dom().contains(id) ==> s.transfer_claim_step(call, id, new_owner) == (
            ContractState {
                streams: s.streams.insert(id, Stream { claim_owner: Some(new_owner), ..a }),
                effects: s.effects.push(
                    Effect::Emit(
                        Event::ClaimOwner(
                            ClaimOwnershipTransferred {
                                stream_id: id,
                                old_owner: if a.claim_owner is Some {
                                    a.claim_owner->0
                                } else {
                                    call.contract
                                },
                                new_owner,
                            },
                        ),
                    ),
                ),
                ..s
            })
        }),
{
    if s.streams.dom().contains(id) {
        crate::registry::lemma_stored_stream(s, id);
    }
}

/// The recipient says where automatic claims go, which is not the contract, and
/// may switch them off.
pub proof fn law_auto_claim_settings(s: ContractState, call: Call, id: u64, destination: Address)
    ensures
        ({
            let open = !s.emergency_paused && s.streams.dom().contains(id)
                && call.signers@.contains(s.streams[id].recipient);
            &&& s.set_auto_claim_error(call, id, destination) is None <==> open && destination
                != call.contract
            &&& s.revoke_auto_claim_error(call, id) is None <==> open
            &&& s.set_auto_claim_step(id, destination) == (ContractState {
                auto_claim: s.auto_claim.insert(id, destination),
                effects: s.effects.push(
                    Effect::Emit(
                        Event::AutoClaimSet(AutoClaimSet { stream_id: id, destination }),
                    ),
                ),
                ..s
            })
            &&& s.revoke_auto_claim_step(id) == (ContractState {
                auto_claim: s.auto_claim.remove(id),
                effects: s.effects.push(
                    Effect::Emit(Event::AutoClaimRevoked(AutoClaimRevoked { stream_id: id })),
                ),
                ..s
            })
        }),
{
}

/// What is told of automatic claims: whether a destination is set, whether it
/// can be paid, and what a claim would pay now.
pub proof fn law_auto_claim_status_told(s: ContractState, call: Call, id: u64)
    ensures
        match s.auto_claim_status(call, id) {
            AutoClaimStatus::NotSet => !s.auto_claim.dom().contains(id),
            AutoClaimStatus::InvalidDestination(p) => s.auto_claim.dom().contains(id)
                && p.destination == s.auto_claim[id] && p.destination == call.contract,
            AutoClaimStatus::ValidDestination(p) => {
                &&& s.auto_claim.dom().contains(id)
                &&& p.destination == s.auto_claim[id]
                &&& p.destination != call.contract
                &&& 0 <= s.auto_claim_amount(call, id) <= i128::MAX ==> p.claimable
                    == s.auto_claim_amount(call, id)
            },
        },
        ({
            let payable = s.auto_claim.dom().contains(id) && s.auto_claim[id] != call.contract;
            &&& s.auto_claim_status_step(call, id) == if payable {
                ContractState { last_accrual_timestamp: Some(call.timestamp), ..s }
            } else {
                s
            }
            &&& s.auto_claim_status_error(call, id) is None <==> s.streams.dom().contains(id) && (
            payable && s.last_accrual_timestamp is Some ==> s.last_accrual_timestamp->0
                <= call.timestamp)
        }),
{
}

/// The sender allows or forbids renewal, and sets the lookback window, which is
/// at least one ledger, unless the stream is cancelled.
pub proof fn law_sender_settings(
    s: ContractState,
    call: Call,
    id: u64,
    sender: Address,
    enabled: bool,
    ledgers: Option<u32>,
)
    ensures
        ({
            let a = s.streams[id];
            let open = {
                &&& !s.emergency_paused
                &&& s.streams.dom().contains(id)
                &&& call.signers@.contains(sender)
                &&& sender == a.sender
                &&& a.status != StreamStatus::Cancelled
            };
            &&& s.set_auto_renew_error(call, id, sender) is None <==> open
            &&& s.set_lookback_error(call, id, sender, ledgers) is None <==> open && (ledgers
                is Some ==> ledgers->0 > 0)
            &&& s.with_renewal(id, enabled) == (ContractState {
                auto_renew: s.auto_renew.insert(id, enabled),
                ..s
            })
            &&& s.renews(id) == (s.auto_renew.dom().contains(id) && s.auto_renew[id])
            &&& s.with_renewal(id, enabled).renews(id) == enabled
            &&& s.with_lookback(id, ledgers) == (ContractState {
                lookback: if ledgers is Some {
                    s.lookback.insert(id, ledgers->0)
                } else {
                    s.lookback.remove(id)
                },
                ..s
            })
            &&& s.with_lookback(id, ledgers).lookback_of(id) == ledgers
        }),
{
}

/// The contract is initialised once, by its administrator, with a token that
/// was verified; all counters start at nothing.
pub proof fn law_initialisation_outcome(
    s: ContractState,
    call: Call,
    token: Address,
    admin: Address,
    verified: bool,
)
    ensures
        s.init_error(call, admin, verified) is None <==> call.signers@.contains(admin) && s.config
            is None && verified,
        s.init_step(token, admin) == (ContractState {
            config: Some(Config { token, admin }),
            next_stream_id: 0,
            next_template_id: 0,
            active_template_count: 0,
            paused_stream_count: 0,
            total_liabilities: 0,
            total_keeper_fees_paid: 0,
            ..s
        }),
{
}

/// What the administrator may do needs its signature, once there is one.
pub proof fn law_administration_signed(
    s: ContractState,
    call: Call,
    id: u64,
    max_rate: i128,
    admin: Address,
    text: Option<Text>,
    recipient: Address,
)
    ensures
        ({
            let signed = s.config is Some && call.signers@.contains(s.config->0.admin);
            let long = text is Some && text->0.bytes is Some && text->0.bytes->0@.len() > 256;
            let over = call.balance > s.total_liabilities;
            &&& s.admin_error(call) is None <==> signed
            &&& s.set_max_rate_error(call, max_rate) is None <==> signed && max_rate > 0
            &&& s.global_resume_error(call) is None <==> signed && s.emergency_paused
            &&& s.named_admin_error(call, admin) is None <==> signed && admin == s.config->0.admin
            &&& s.pause_protocol_error(call, admin, text) is None <==> signed && admin
                == s.config->0.admin && (s.emergency_paused || s.creation_paused || !long)
            &&& s.sweep_error(call) is None <==> signed && (over ==> !s.locked)
        }),
{
}

/// Administration hands over, pauses and resumes as asked, and touches neither
/// streams nor money.
pub proof fn law_administration_outcome(
    s: ContractState,
    call: Call,
    admin: Address,
    new_admin: Address,
    text: Option<Text>,
)
    requires
        s.config is Some,
    ensures
        ({
            let reason = if text is Some {
                text->0
            } else {
                Text { bytes: None }
            };
            let blocked = s.emergency_paused || s.creation_paused;
            &&& s.set_admin_step(new_admin) == (ContractState {
                config: Some(Config { token: s.config->0.token, admin: new_admin }),
                effects: s.effects.push(
                    Effect::Emit(
                        Event::AdminUpdated { old_admin: s.config->0.admin, new_admin },
                    ),
                ),
                ..s
            })
            &&& s.pause_protocol_step(call, admin, text) == if blocked {
                s
            } else {
                ContractState {
                    emergency_paused: true,
                    pause_reason: Some(reason),
                    pause_timestamp: Some(call.timestamp),
                    pause_admin: Some(admin),
                    effects: s.effects.push(
                        Effect::Emit(
                            Event::ProtocolPaused(
                                admin,
                                ProtocolPaused { reason, paused_at: call.timestamp },
                            ),
                        ),
                    ),
                    ..s
                }
            }
            &&& s.resume_protocol_step(call, admin) == if !blocked {
                s
            } else {
                ContractState {
                    emergency_paused: false,
                    creation_paused: false,
                    pause_reason: None,
                    pause_timestamp: None,
                    pause_admin: None,
                    effects: s.effects.push(
                        Effect::Emit(
                            Event::ProtocolResumed(
                                admin,
                                ProtocolResumed { resumed_at: call.timestamp },
                            ),
                        ),
                    ),
                    ..s
                }
            }
            &&& s.creation_blocked() == blocked
            &&& s.pause_info().is_paused == blocked
            &&& blocked ==> s.pause_info().reason == s.pause_reason && s.pause_info().paused_at
                == s.pause_timestamp && s.pause_info().paused_by == s.pause_admin
            &&& !blocked ==> s.pause_info().reason is None && s.pause_info().paused_at is None
                && s.pause_info().paused_by is None
        }),
{
}

/// A sweep pays out what the contract holds above what it owes, in one payment,
/// and nothing if it holds no more.
pub proof fn law_sweep_outcome(s: ContractState, call: Call, recipient: Address)
    requires
        s.total_liabilities >= 0,
    ensures
        ({
            let amount = (call.balance - s.total_liabilities) as i128;
            &&& call.balance > s.total_liabilities ==> {
                &&& s.excess(call) == call.balance - s.total_liabilities == amount
                &&& s.sweep_step(call, recipient) == (ContractState {
                    effects: s.effects.push(
                        Effect::Emit(Event::Swept(ExcessSwept { to: recipient, amount })),
                    ).push(Effect::Push { to: recipient, amount }),
                    ..s
                })
            }
            &&& call.balance <= s.total_liabilities ==> s.excess(call) == 0 && s.sweep_step(
                call,
                recipient,
            ) == s
        }),
{
}

/// An upgrade replaces the code, announces it twice, and changes nothing else.
pub proof fn law_upgrade_outcome(s: ContractState, call: Call, new_wasm_hash: Word)
    requires
        s.config is Some,
    ensures
        s.upgrade_step(call, new_wasm_hash) == (ContractState {
            effects: s.effects.push(Effect::Replace { new_wasm_hash }).push(
                Effect::Emit(
                    Event::Upgraded(
                        ContractUpgraded {
                            new_wasm_hash,
                            new_version: 9,
                            upgraded_at: call.timestamp,
                            upgraded_by: s.config->0.admin,
                        },
                    ),
                ),
            ).push(
                Effect::Emit(
                    Event::UpgradedLegacy {
                        new_wasm_hash,
                        old_version: 9,
                        new_version: 9,
                        admin: s.config->0.admin,
                    },
                ),
            ),
            ..s
        }),
{
}

/// What is told of the amount that can be withdrawn: nothing of a paused or
/// completed stream, and else what a withdrawal would pay.
pub proof fn law_withdrawable_told(s: ContractState, call: Call, id: u64)
    ensures
        ({
            let a = s.streams[id];
            let still = a.status == StreamStatus::Paused || a.status == StreamStatus::Completed;
            &&& s.withdrawable(call, id) == if still {
                0
            } else {
                s.payout_of(call, id)
            }
            &&& s.get_withdrawable_step(call, id) == if a.status == StreamStatus::Active {
                ContractState { last_accrual_timestamp: Some(call.timestamp), ..s }
            } else {
                s
            }
            &&& s.accrue(a, call.timestamp) == if a.status == StreamStatus::Active || a.status
                == StreamStatus::Paused {
                ContractState { last_accrual_timestamp: Some(call.timestamp), ..s }
            } else {
                s
            }
            &&& s.get_withdrawable_error(call, id) is None <==> {
                &&& s.streams.dom().contains(id)
                &&& a.status == StreamStatus::Active && s.last_accrual_timestamp is Some
                    ==> s.last_accrual_timestamp->0 <= call.timestamp
                &&& !still ==> s.config is Some
            }
            &&& s.calculate_accrued_error(call, id) is None <==> {
                &&& s.streams.dom().contains(id)
                &&& (a.status == StreamStatus::Active || a.status == StreamStatus::Paused)
                    && s.last_accrual_timestamp is Some ==> s.last_accrual_timestamp->0
                    <= call.timestamp
            }
        }),
{
}

/// How a stream counts in a report: settled ones are left out; of the others
/// one past its end counts as expired, and else one whose schedule promises
/// more than its deposit as underfunded.
pub proof fn law_standing_told(s: ContractState, id: u64, now: u64)
    requires
        s.wf(),
    ensures
        ({
            let a = s.streams[id];
            let counted = s.streams.dom().contains(id) && (a.status == StreamStatus::Active
                || a.status == StreamStatus::Paused);
            let seconds = if a.checkpointed_at < a.end_time {
                a.end_time - a.checkpointed_at
            } else {
                0
            };
            let short = a.deposit_amount < a.checkpointed_amount + a.rate_per_second * seconds;
            let fits = a.checkpointed_amount + a.rate_per_second * seconds <= i128::MAX;
            &&& s.standing(id, now) == Standing::Settled <==> !counted
            &&& s.standing(id, now) == Standing::Expired <==> counted && now >= a.end_time
            &&& counted && fits ==> (s.standing(id, now) == Standing::Underfunded <==> now
                < a.end_time && short)
            &&& counted && fits ==> (s.standing(id, now) == Standing::Healthy <==> now < a.end_time
                && !short)
        }),
{
    if s.streams.dom().contains(id) {
        crate::registry::lemma_stored_stream(s, id);
        let a = s.streams[id];
        let seconds = if a.checkpointed_at < a.end_time {
            a.end_time - a.checkpointed_at
        } else {
            0
        };
        assert(0 <= a.rate_per_second * seconds) by (nonlinear_arith)
            requires
                0 <= a.rate_per_second,
                0 <= seconds,
        ;
    }
}

/// What a report on a sound stream tells. What is left of the deposit is told
/// in 128 bits.
pub proof fn law_health_told(health: StreamHealth, stream: Stream, now: u64)
    requires
        stream.sound(),
        crate::views::health_reported(health, stream, now),
    ensures
        ({
            let left = stream.deposit_amount - stream.withdrawn_amount;
            &&& health.is_underfunded == stream.spec_underfunded()
            &&& health.is_expired <==> now >= stream.end_time && (stream.status
                == StreamStatus::Active || stream.status == StreamStatus::Paused)
            &&& health.accrued_to_date == stream.spec_earned(now)
            &&& health.remaining_deposit == if left < 0 {
                left + 0x1_0000_0000_0000_0000_0000_0000_0000_0000int
            } else {
                left
            }
        }),
{
    let left = stream.deposit_amount - stream.withdrawn_amount;
    if left < 0 {
        vstd::arithmetic::div_mod::lemma_mod_add_multiples_vanish(left, u128::MAX + 1);
        vstd::arithmetic::div_mod::lemma_small_mod(
            (left + u128::MAX + 1) as nat,
            (u128::MAX + 1) as nat,
        );
    } else {
        vstd::arithmetic::div_mod::lemma_small_mod(left as nat, (u128::MAX + 1) as nat);
    }
}

/// When the deposit is used up: as many seconds after the last change of rate
/// as the rate goes into what is left of the deposit, counted in 64 bits, but
/// no later than the end. A stream without a rate never uses it up, unless it
/// has already.
pub proof fn law_depletion_formula(health: StreamHealth, stream: Stream, now: u64)
    requires
        stream.sound(),
        crate::views::health_reported(health, stream, now),
    ensures
        ({
            let left = stream.deposit_amount - stream.checkpointed_amount;
            let rate = stream.rate_per_second as int;
            let whole = if left < 0 {
                -((-left) / rate)
            } else {
                left / rate
            };
            let at = stream.checkpointed_at + whole % 0x1_0000_0000_0000_0000int;
            let last = if at < stream.end_time {
                at
            } else {
                stream.end_time as int
            };
            &&& rate > 0 ==> health.seconds_until_depletion is Some
            &&& rate > 0 && now <= last ==> health.seconds_until_depletion->0 == last - now
            &&& rate > 0 && last < now ==> health.seconds_until_depletion->0 == 0
            &&& rate == 0 && left <= 0 ==> health.seconds_until_depletion == Some(0u64)
            &&& rate == 0 && left > 0 ==> health.seconds_until_depletion is None
        }),
{
}

/// A stream lacks funds if what is fixed and what the rate adds until the end
/// is more than the deposit, or more than any amount, unless the deposit is the
/// largest amount there is.
pub proof fn law_underfunding_formula(stream: Stream)
    requires
        stream.sound(),
    ensures
        ({
            let seconds = if stream.checkpointed_at < stream.end_time {
                stream.end_time - stream.checkpointed_at
            } else {
                0
            };
            let more = stream.rate_per_second * seconds;
            stream.spec_underfunded() <==> more > i128::MAX || (stream.deposit_amount
                < stream.checkpointed_amount + more && stream.deposit_amount < i128::MAX)
        }),
{
}

/// Pages hold at most a hundred entries, and as many as were asked for if that
/// is less.
pub proof fn law_page_sizes(limit: u32)
    ensures
        crate::views::capped_limit(limit) <= 100,
        crate::views::capped_limit(limit) <= limit,
        crate::views::capped_limit(limit) == limit || crate::views::capped_limit(limit) == 100,
        crate::views::MAX_PAGE_SIZE == 100,
        crate::views::RECIPIENT_STREAMS_PAGE_LIMIT == 100,
{
}

/// A stored stream is kept until its end, counted in ledgers of five seconds,
/// and a day longer, but at least a week and at most half a year.
pub proof fn law_lifetime_formula(now: u64, end_time: u64)
    ensures
        ({
            let ledgers = crate::views::adaptive_ttl(now, end_time);
            let wanted = 17_280 + if now < end_time {
                (end_time - now) as int / 5
            } else {
                0
            };
            &&& 120_960 <= ledgers <= 3_110_400
            &&& 120_960 <= wanted <= 3_110_400 ==> ledgers == wanted
            &&& wanted < 120_960 ==> ledgers == 120_960
            &&& wanted > 3_110_400 ==> ledgers == 3_110_400
        }),
{
}

/// What a keeper would get of a stream, and what the sender: nothing until a
/// week after the end, then half a percent of what was not earned, rounded
/// down, and the rest of it.
pub proof fn law_keeper_preview_formula(s: ContractState, call: Call, id: u64)
    requires
        s.streams[id].sound(),
    ensures
        ({
            let a = s.streams[id];
            let gross = a.deposit_amount - a.spec_accrued_at(call.timestamp as int);
            let (fee, rest) = s.keeper_fee_preview(call, id);
            &&& call.timestamp < a.end_time + 604_800 ==> fee == 0 && rest == 0
            &&& call.timestamp >= a.end_time + 604_800 ==> fee + rest == gross
            &&& call.timestamp >= a.end_time + 604_800 ==> fee == if gross * 50 <= i128::MAX {
                gross * 50 / 10_000
            } else {
                i128::MAX as int / 10_000
            }
            &&& s.keeper_fee_error(id) is None <==> s.streams.dom().contains(id) && (a.status
                == StreamStatus::Active || a.status == StreamStatus::Paused) && a.end_time
                + 604_800 <= u64::MAX
        }),
{
    crate::laws::accrual::law_accrued_bounded(s.streams[id], call.timestamp as int);
}

/// Different refusals are told apart by their numbers.
pub proof fn law_refusals_told_apart(a: crate::types::ContractError, b: crate::types::ContractError)
    requires
        a.spec_code() == b.spec_code(),
    ensures
        a == b,
{
}

} // verus!
