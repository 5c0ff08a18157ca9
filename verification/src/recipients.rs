//! Who a stream pays and who may withdraw from it.

use crate::events::{ClaimOwnershipTransferred, Event, RecipientUpdated};
use crate::state::{Call, ContractState, FluxoraStream};
use crate::types::{
    Address, ContractError, PendingRecipientUpdate, RotationEntry, RotationRole, Stream,
};
use vstd::prelude::*;

verus! {

/// The most rotations that are remembered of a stream.
pub const MAX_ROTATION_HISTORY: u32 = 50;

/// A history with one more entry; the oldest one goes when it is full.
pub open spec fn with_rotation(history: Seq<RotationEntry>, entry: RotationEntry) -> Seq<
    RotationEntry,
> {
    if history.len() >= MAX_ROTATION_HISTORY {
        history.drop_first().push(entry)
    } else {
        history.push(entry)
    }
}

impl ContractState {
    /// The rotations of a stream that are remembered, oldest first.
    pub open spec fn history_of(self, id: u64) -> Seq<RotationEntry> {
        if self.rotations.dom().contains(id) {
            self.rotations[id]
        } else {
            Seq::empty()
        }
    }

    /// Why another recipient cannot be proposed.
    pub open spec fn update_recipient_error(self, call: Call, id: u64, new_recipient: Address) -> Option<
        ContractError,
    > {
        if self.emergency_paused {
            Some(ContractError::ContractPaused)
        } else if !self.streams.dom().contains(id) {
            Some(ContractError::StreamNotFound)
        } else if !call.authorised(self.streams[id].sender) {
            Some(ContractError::Unauthorized)
        } else if new_recipient == self.streams[id].recipient {
            Some(ContractError::InvalidParams)
        } else if self.pending_recipients.dom().contains(id) {
            Some(ContractError::InvalidState)
        } else {
            None
        }
    }

    /// The state with another recipient proposed.
    pub open spec fn update_recipient_step(self, id: u64, new_recipient: Address) -> Self {
        ContractState {
            pending_recipients: self.pending_recipients.insert(
                id,
                PendingRecipientUpdate { stream_id: id, proposed_recipient: new_recipient },
            ),
            ..self
        }
    }

    /// Why a proposed recipient cannot be accepted.
    pub open spec fn accept_recipient_error(self, call: Call, id: u64) -> Option<ContractError> {
        if self.emergency_paused {
            Some(ContractError::ContractPaused)
        } else if !self.pending_recipients.dom().contains(id) {
            Some(ContractError::InvalidState)
        } else if !self.streams.dom().contains(id) {
            Some(ContractError::StreamNotFound)
        } else if !call.authorised(self.streams[id].recipient) {
            Some(ContractError::Unauthorized)
        } else {
            None
        }
    }

    /// The state with the proposed recipient in place of the old one.
    pub open spec fn accept_recipient_step(self, call: Call, id: u64) -> Self {
        let stream = self.streams[id];
        let old = stream.recipient;
        let new = self.pending_recipients[id].proposed_recipient;
        let s = self.put((Stream { recipient: new, ..stream }));
        (ContractState {
            recipient_streams: crate::state::enlist(
                crate::state::delist(s.recipient_streams, old, id),
                new,
                id,
            ),
            rotations: s.rotations.insert(
                id,
                with_rotation(
                    self.history_of(id),
                    RotationEntry {
                        old_addr: old,
                        new_addr: new,
                        ledger: call.sequence,
                        role: RotationRole::Recipient,
                        authoriser: old,
                    },
                ),
            ),
            pending_recipients: s.pending_recipients.remove(id),
            ..s
        }).emit(
            Event::RecipientUpdated(
                RecipientUpdated { stream_id: id, old_recipient: old, new_recipient: new },
            ),
        )
    }

    /// Why a proposal cannot be withdrawn.
    pub open spec fn cancel_recipient_error(self, call: Call, id: u64) -> Option<ContractError> {
        if self.emergency_paused {
            Some(ContractError::ContractPaused)
        } else if !self.streams.dom().contains(id) {
            Some(ContractError::StreamNotFound)
        } else if !call.authorised(self.streams[id].sender) {
            Some(ContractError::Unauthorized)
        } else if !self.pending_recipients.dom().contains(id) {
            Some(ContractError::InvalidState)
        } else {
            None
        }
    }

    /// The state with a proposal withdrawn.
    pub open spec fn cancel_recipient_step(self, id: u64) -> Self {
        ContractState { pending_recipients: self.pending_recipients.remove(id), ..self }
    }

    /// Why the right to withdraw is not handed over.
    pub open spec fn transfer_claim_error(self, call: Call, id: u64, current: Address) -> Option<
        ContractError,
    > {
        if self.emergency_paused {
            Some(ContractError::ContractPaused)
        } else if !self.streams.dom().contains(id) {
            Some(ContractError::StreamNotFound)
        } else if self.streams[id].spec_owner() != current || !call.authorised(current) {
            Some(ContractError::Unauthorized)
        } else {
            None
        }
    }

    /// The state with the right to withdraw handed over.
    pub open spec fn transfer_claim_step(self, call: Call, id: u64, new_owner: Address) -> Self {
        let stream = self.streams[id];
        self.put((Stream { claim_owner: Some(new_owner), ..stream })).emit(
            Event::ClaimOwner(
                ClaimOwnershipTransferred {
                    stream_id: id,
                    old_owner: match stream.claim_owner {
                        Some(owner) => owner,
                        None => call.contract,
                    },
                    new_owner,
                },
            ),
        )
    }
}

/// Moving a stream to another recipient keeps the registry in order.
proof fn lemma_move(s: ContractState, id: u64, new: Address)
    requires
        s.wf(),
        s.streams.dom().contains(id),
    ensures
        ({
            let stream = s.streams[id];
            let delisted = ContractState {
                recipient_streams: crate::state::delist(
                    s.recipient_streams,
                    stream.recipient,
                    id,
                ),
                ..s
            };
            let moved = delisted.put((Stream { recipient: new, ..stream }));
            let enlisted = ContractState {
                recipient_streams: crate::state::enlist(moved.recipient_streams, new, id),
                ..moved
            };
            &&& delisted.wf()
            &&& moved.wf()
            &&& enlisted.wf()
        }),
{
    let stream = s.streams[id];
    crate::registry::lemma_stored_stream(s, id);
    crate::registry::lemma_delist_recipient(s, stream.recipient, id);
    let delisted = ContractState {
        recipient_streams: crate::state::delist(s.recipient_streams, stream.recipient, id),
        ..s
    };
    let after = Stream { recipient: new, ..stream };
    assert forall|who: Address| #![trigger delisted.recipient_streams.dom().contains(who)]
        delisted.recipient_streams.dom().contains(who) && delisted.recipient_streams[who].contains(
            id,
        ) implies who == new by {
        reveal(crate::state::registry_ok);
        assert(delisted.recipient_streams[who].contains(id));
        assert(s.recipient_streams[who].contains(id));
        assert(s.streams[id].recipient == who);
    }
    assert forall|who: Address| #![trigger delisted.sender_streams.dom().contains(who)]
        delisted.sender_streams.dom().contains(who) && delisted.sender_streams[who].contains(
            id,
        ) implies who == after.sender by {
        reveal(crate::state::registry_ok);
        assert(s.sender_streams[who].contains(id));
    }
    assert forall|x: u64| #![trigger delisted.streams.dom().contains(x)]
        delisted.streams.dom().contains(x) && delisted.streams[x].parent_stream_id == Some(
            id,
        ) implies after.delegation_depth < delisted.streams[x].delegation_depth by {
        crate::registry::lemma_stored_stream(s, x);
    }
    crate::registry::lemma_put(delisted, after);
    let moved = delisted.put(after);
    crate::registry::lemma_enlist_recipient(moved, new, id);
}

impl FluxoraStream {
    /// Proposes another recipient for a stream, at the wish of its sender. The
    /// current recipient must accept.
    pub fn update_recipient(&mut self, call: &Call, stream_id: u64, new_recipient: Address) -> (r:
        Result<(), ContractError>)
        requires
            old(self)@.wf(),
        ensures
            final(self)@.wf(),
            match old(self)@.update_recipient_error(*call, stream_id, new_recipient) {
                Some(e) => r == Err::<(), ContractError>(e) && final(self)@ == old(self)@,
                None => {
                    &&& r == Ok::<(), ContractError>(())
                    &&& final(self)@ == old(self)@.update_recipient_step(stream_id, new_recipient)
                },
            },
    {
        if self.emergency_paused {
            return Err(ContractError::ContractPaused);
        }
        let stream = match self.load_stream(stream_id) {
            Err(e) => {
                return Err(e);
            },
            Ok(stream) => stream,
        };
        if !call.is_signed_by(stream.sender) {
            return Err(ContractError::Unauthorized);
        }
        if new_recipient == stream.recipient {
            return Err(ContractError::InvalidParams);
        }
        if self.pending_recipients.contains(stream_id) {
            return Err(ContractError::InvalidState);
        }
        self.pending_recipients.insert(
            stream_id,
            PendingRecipientUpdate { stream_id, proposed_recipient: new_recipient },
        );
        Ok(())
    }

    /// The recipient that is proposed for a stream.
    pub fn get_pending_recipient_update(&self, stream_id: u64) -> (r: Option<
        PendingRecipientUpdate,
    >)
        ensures
            r == if self@.pending_recipients.dom().contains(stream_id) {
                Some(self@.pending_recipients[stream_id])
            } else {
                None
            },
    {
        match self.pending_recipients.get(stream_id) {
            Some(pending) => Some(*pending),
            None => None,
        }
    }

    /// Adds to the history of a stream.
    fn append_rotation_entry(&mut self, stream_id: u64, entry: RotationEntry)
        ensures
            final(self)@ == (ContractState {
                rotations: old(self)@.rotations.insert(
                    stream_id,
                    with_rotation(old(self)@.history_of(stream_id), entry),
                ),
                ..old(self)@
            }),
    {
        let mut history: Vec<RotationEntry> = match self.rotations.take(stream_id) {
            Some(history) => history,
            None => Vec::new(),
        };
        assert(history@ == old(self)@.history_of(stream_id));
        if history.len() >= MAX_ROTATION_HISTORY as usize {
            let _oldest = history.remove(0);
            assert(history@ =~= old(self)@.history_of(stream_id).drop_first());
        }
        history.push(entry);
        self.rotations.insert(stream_id, history);
        assert(self.rotations@ =~= old(self)@.rotations.insert(
            stream_id,
            with_rotation(old(self)@.history_of(stream_id), entry),
        ));
    }

    /// Puts the proposed recipient in place of the current one, at the wish of
    /// the latter.
    pub fn accept_recipient_update(&mut self, call: &Call, stream_id: u64) -> (r: Result<
        (),
        ContractError,
    >)
        requires
            old(self)@.wf(),
            old(self)@.pending_recipients.dom().contains(stream_id) ==> crate::state::listed(
                old(self)@.recipient_streams,
                old(self)@.pending_recipients[stream_id].proposed_recipient,
            ).len() < u32::MAX,
        ensures
            final(self)@.wf(),
            match old(self)@.accept_recipient_error(*call, stream_id) {
                Some(e) => r == Err::<(), ContractError>(e) && final(self)@ == old(self)@,
                None => {
                    &&& r == Ok::<(), ContractError>(())
                    &&& final(self)@ == old(self)@.accept_recipient_step(*call, stream_id)
                },
            },
    {
        if self.emergency_paused {
            return Err(ContractError::ContractPaused);
        }
        let new_recipient: Address = match self.get_pending_recipient_update(stream_id) {
            Some(pending) => pending.proposed_recipient,
            None => {
                return Err(ContractError::InvalidState);
            },
        };
        let mut stream = match self.load_stream(stream_id) {
            Err(e) => {
                return Err(e);
            },
            Ok(stream) => stream,
        };
        let old_recipient: Address = stream.recipient;
        if !call.is_signed_by(old_recipient) {
            return Err(ContractError::Unauthorized);
        }
        let ghost before = self@;
        proof {
            lemma_move(before, stream_id, new_recipient);
            crate::registry::lemma_lists_ascend(before, old_recipient);
        }
        crate::ops::delist(&mut self.recipient_streams, old_recipient, stream_id);
        proof {
            crate::registry::lemma_lists_ascend(self@, new_recipient);
            crate::index::lemma_without_id(
                crate::state::listed(before.recipient_streams, old_recipient),
                stream_id,
            );
        }
        crate::ops::enlist(&mut self.recipient_streams, &self.host, new_recipient, stream_id);
        stream.recipient = new_recipient;
        crate::ops::save_stream(self, &stream);
        self.append_rotation_entry(
            stream_id,
            RotationEntry {
                old_addr: old_recipient,
                new_addr: new_recipient,
                ledger: call.sequence,
                role: RotationRole::Recipient,
                authoriser: old_recipient,
            },
        );
        self.pending_recipients.remove(stream_id);
        self.emit(
            Event::RecipientUpdated(
                RecipientUpdated { stream_id, old_recipient, new_recipient },
            ),
        );
        Ok(())
    }

    /// Withdraws the proposal of another recipient, at the wish of the sender.
    pub fn cancel_recipient_update(&mut self, call: &Call, stream_id: u64) -> (r: Result<
        (),
        ContractError,
    >)
        requires
            old(self)@.wf(),
        ensures
            final(self)@.wf(),
            match old(self)@.cancel_recipient_error(*call, stream_id) {
                Some(e) => r == Err::<(), ContractError>(e) && final(self)@ == old(self)@,
                None => {
                    &&& r == Ok::<(), ContractError>(())
                    &&& final(self)@ == old(self)@.cancel_recipient_step(stream_id)
                },
            },
    {
        if self.emergency_paused {
            return Err(ContractError::ContractPaused);
        }
        let stream = match self.load_stream(stream_id) {
            Err(e) => {
                return Err(e);
            },
            Ok(stream) => stream,
        };
        if !call.is_signed_by(stream.sender) {
            return Err(ContractError::Unauthorized);
        }
        if !self.pending_recipients.contains(stream_id) {
            return Err(ContractError::InvalidState);
        }
        self.pending_recipients.remove(stream_id);
        Ok(())
    }

    /// Hands the right to withdraw from a stream over to somebody else. The
    /// payouts still go to the recipient.
    pub fn transfer_claim_ownership(
        &mut self,
        call: &Call,
        stream_id: u64,
        current_owner: Address,
        new_owner: Address,
    ) -> (r: Result<(), ContractError>)
        requires
            old(self)@.wf(),
        ensures
            final(self)@.wf(),
            match old(self)@.transfer_claim_error(*call, stream_id, current_owner) {
                Some(e) => r == Err::<(), ContractError>(e) && final(self)@ == old(self)@,
                None => {
                    &&& r == Ok::<(), ContractError>(())
                    &&& final(self)@ == old(self)@.transfer_claim_step(
                        *call,
                        stream_id,
                        new_owner,
                    )
                },
            },
    {
        if self.emergency_paused {
            return Err(ContractError::ContractPaused);
        }
        let mut stream = match self.load_stream(stream_id) {
            Err(e) => {
                return Err(e);
            },
            Ok(stream) => stream,
        };
        if stream.owner() != current_owner || !call.is_signed_by(current_owner) {
            return Err(ContractError::Unauthorized);
        }
        let old_owner: Address = match stream.claim_owner {
            Some(owner) => owner,
            None => call.contract,
        };
        stream.claim_owner = Some(new_owner);
        self.update_stream(&stream);
        self.emit(
            Event::ClaimOwner(
                ClaimOwnershipTransferred { stream_id, old_owner, new_owner },
            ),
        );
        Ok(())
    }
}

} // verus!
