//! Reusable schedules.

use crate::events::Event;
use crate::index::IdList;
use crate::state::{Call, ContractState, FluxoraStream};
use crate::types::{
    Address, Bytes, ContractError, CreateStreamRelativeParams, Metadata, StreamKind,
    StreamScheduleTemplate,
};
use std::rc::Rc;
use vstd::prelude::*;

verus! {

/// The most templates of one owner.
pub const MAX_TEMPLATES_PER_OWNER: u64 = 50;

/// The most templates of all owners together.
pub const MAX_GLOBAL_TEMPLATES: u64 = 1_000;

/// Whether a relative schedule makes sense, counted from `now`.
pub open spec fn delays_ok(now: u64, start_delay: u64, cliff_delay: u64, duration: u64) -> bool {
    &&& duration > 0
    &&& start_delay <= cliff_delay <= start_delay + duration
    &&& now + start_delay + duration <= u64::MAX
}

/// Refuses a relative schedule that makes no sense.
fn validate_template_delays(now: u64, start_delay: u64, cliff_delay: u64, duration: u64) -> (r:
    Result<(), ContractError>)
    ensures
        r == if delays_ok(now, start_delay, cliff_delay, duration) {
            Ok::<(), ContractError>(())
        } else {
            Err(ContractError::InvalidParams)
        },
{
    if duration == 0 || cliff_delay < start_delay {
        return Err(ContractError::InvalidParams);
    }
    let start_time: u64 = match now.checked_add(start_delay) {
        None => {
            return Err(ContractError::InvalidParams);
        },
        Some(t) => t,
    };
    let cliff_time: u64 = match now.checked_add(cliff_delay) {
        None => {
            return Err(ContractError::InvalidParams);
        },
        Some(t) => t,
    };
    let end_time: u64 = match start_time.checked_add(duration) {
        None => {
            return Err(ContractError::InvalidParams);
        },
        Some(t) => t,
    };
    if cliff_time > end_time {
        return Err(ContractError::InvalidParams);
    }
    Ok(())
}

impl ContractState {
    /// Why a template is not registered.
    pub open spec fn register_template_error(
        self,
        call: Call,
        owner: Address,
        start_delay: u64,
        cliff_delay: u64,
        duration: u64,
    ) -> Option<ContractError> {
        if self.emergency_paused {
            Some(ContractError::ContractPaused)
        } else if !call.authorised(owner) {
            Some(ContractError::Unauthorized)
        } else if !delays_ok(call.timestamp, start_delay, cliff_delay, duration) {
            Some(ContractError::InvalidParams)
        } else if crate::state::listed(self.owner_templates, owner).len()
            >= MAX_TEMPLATES_PER_OWNER || self.active_template_count >= MAX_GLOBAL_TEMPLATES {
            Some(ContractError::TemplateLimitExceeded)
        } else {
            None
        }
    }

    /// The state with a template registered.
    pub open spec fn register_template_step(
        self,
        owner: Address,
        start_delay: u64,
        cliff_delay: u64,
        duration: u64,
    ) -> Self {
        let id = self.next_template_id;
        let template = StreamScheduleTemplate {
            template_id: id,
            owner,
            start_delay,
            cliff_delay,
            duration,
        };
        (ContractState {
            templates: self.templates.insert(id, template),
            owner_templates: self.owner_templates.insert(
                owner,
                crate::state::listed(self.owner_templates, owner).push(id),
            ),
            next_template_id: (id + 1) as u64,
            active_template_count: (self.active_template_count + 1) as u64,
            ..self
        }).emit(Event::TemplateDefined(template))
    }

    /// Why a template is not deleted.
    pub open spec fn delete_template_error(self, call: Call, owner: Address, id: u64) -> Option<
        ContractError,
    > {
        if self.emergency_paused {
            Some(ContractError::ContractPaused)
        } else if !call.authorised(owner) {
            Some(ContractError::Unauthorized)
        } else if !self.templates.dom().contains(id) {
            Some(ContractError::TemplateNotFound)
        } else if self.templates[id].owner != owner {
            Some(ContractError::TemplateUnauthorized)
        } else if !crate::state::listed(self.owner_templates, owner).contains(id) {
            Some(ContractError::TemplateNotFound)
        } else {
            None
        }
    }

    /// The state with a template deleted.
    pub open spec fn delete_template_step(self, owner: Address, id: u64) -> Self {
        ContractState {
            templates: self.templates.remove(id),
            owner_templates: crate::state::delist(self.owner_templates, owner, id),
            active_template_count: if self.active_template_count == 0 {
                0
            } else {
                (self.active_template_count - 1) as u64
            },
            ..self
        }
    }
}

/// Registering keeps the templates in order.
proof fn lemma_register(s: ContractState, owner: Address, template: StreamScheduleTemplate)
    requires
        s.wf(),
        template.template_id == s.next_template_id,
        s.next_template_id < u64::MAX,
    ensures
        (ContractState {
            templates: s.templates.insert(template.template_id, template),
            owner_templates: s.owner_templates.insert(
                owner,
                crate::state::listed(s.owner_templates, owner).push(template.template_id),
            ),
            next_template_id: (s.next_template_id + 1) as u64,
            ..s
        }).wf(),
{
    reveal(crate::state::templates_ok);
    let before = crate::state::listed(s.owner_templates, owner);
    let id = template.template_id;
    let after = before.push(id);
    assert forall|i: int, j: int| 0 <= i < j < after.len() implies after[i] < after[j] by {
        if j == before.len() {
            assert(before.contains(before[i]));
        } else {
            assert(before[i] < before[j]);
        }
    }
    let lists = s.owner_templates.insert(owner, after);
    assert forall|who: Address, x: u64|
        lists.dom().contains(who) && #[trigger] lists[who].contains(x) implies x < id + 1 by {
        if who == owner {
            if x != id {
                let i = choose|i: int| 0 <= i < after.len() && after[i] == x;
                assert(before[i] == x);
                assert(before.contains(x));
            }
        } else {
            assert(s.owner_templates[who].contains(x));
        }
    }
}

/// Deleting keeps the templates in order.
proof fn lemma_delete(s: ContractState, owner: Address, id: u64)
    requires
        s.wf(),
    ensures
        (ContractState {
            templates: s.templates.remove(id),
            owner_templates: crate::state::delist(s.owner_templates, owner, id),
            ..s
        }).wf(),
{
    reveal(crate::state::templates_ok);
    let before = crate::state::listed(s.owner_templates, owner);
    crate::index::lemma_without_id(before, id);
    let lists = crate::state::delist(s.owner_templates, owner, id);
    assert forall|who: Address, x: u64|
        lists.dom().contains(who) && #[trigger] lists[who].contains(x) implies x
        < s.next_template_id by {
        if who == owner && before.contains(id) {
            assert(before.contains(x));
        }
        assert(s.owner_templates[who].contains(x));
    }
}

impl FluxoraStream {
    /// The template with the given identifier.
    fn load_stream_template(&self, template_id: u64) -> (r: Result<
        StreamScheduleTemplate,
        ContractError,
    >)
        ensures
            r == if self@.templates.dom().contains(template_id) {
                Ok::<StreamScheduleTemplate, ContractError>(self@.templates[template_id])
            } else {
                Err(ContractError::TemplateNotFound)
            },
    {
        match self.templates.get(template_id) {
            Some(template) => Ok(*template),
            None => Err(ContractError::TemplateNotFound),
        }
    }

    /// Keeps a relative schedule for later use.
    pub fn register_stream_template(
        &mut self,
        call: &Call,
        owner: Address,
        start_delay: u64,
        cliff_delay: u64,
        duration: u64,
    ) -> (r: Result<u64, ContractError>)
        requires
            old(self)@.wf(),
            old(self)@.next_template_id < u64::MAX,
        ensures
            final(self)@.wf(),
            match old(self)@.register_template_error(
                *call,
                owner,
                start_delay,
                cliff_delay,
                duration,
            ) {
                Some(e) => r == Err::<u64, ContractError>(e) && final(self)@ == old(self)@,
                None => {
                    &&& r == Ok::<u64, ContractError>(old(self)@.next_template_id)
                    &&& final(self)@ == old(self)@.register_template_step(
                        owner,
                        start_delay,
                        cliff_delay,
                        duration,
                    )
                },
            },
    {
        if self.emergency_paused {
            return Err(ContractError::ContractPaused);
        }
        if !call.is_signed_by(owner) {
            return Err(ContractError::Unauthorized);
        }
        if let Err(e) = validate_template_delays(
            call.timestamp,
            start_delay,
            cliff_delay,
            duration,
        ) {
            return Err(e);
        }
        if crate::ops::list_len(&self.owner_templates, owner) as u64 >= MAX_TEMPLATES_PER_OWNER
            || self.active_template_count >= MAX_GLOBAL_TEMPLATES {
            return Err(ContractError::TemplateLimitExceeded);
        }
        let template_id: u64 = self.next_template_id;
        let template = StreamScheduleTemplate {
            template_id,
            owner,
            start_delay,
            cliff_delay,
            duration,
        };
        proof {
            lemma_register(self@, owner, template);
        }
        self.templates.insert(template_id, template);
        let mut list = match self.owner_templates.take(owner) {
            Some(list) => list,
            None => IdList::new(&self.host),
        };
        assert(list@ == crate::state::listed(old(self)@.owner_templates, owner));
        list.append(template_id);
        self.owner_templates.insert(owner, list);
        assert(self.owner_templates@ =~= old(self)@.owner_templates.insert(owner, list@));
        self.next_template_id = template_id + 1;
        self.active_template_count = self.active_template_count + 1;
        self.emit(Event::TemplateDefined(template));
        Ok(template_id)
    }

    /// Forgets a relative schedule, at the wish of its owner.
    pub fn delete_stream_template(&mut self, call: &Call, owner: Address, template_id: u64) -> (r:
        Result<(), ContractError>)
        requires
            old(self)@.wf(),
        ensures
            final(self)@.wf(),
            match old(self)@.delete_template_error(*call, owner, template_id) {
                Some(e) => r == Err::<(), ContractError>(e) && final(self)@ == old(self)@,
                None => {
                    &&& r == Ok::<(), ContractError>(())
                    &&& final(self)@ == old(self)@.delete_template_step(owner, template_id)
                },
            },
    {
        if self.emergency_paused {
            return Err(ContractError::ContractPaused);
        }
        if !call.is_signed_by(owner) {
            return Err(ContractError::Unauthorized);
        }
        match self.load_stream_template(template_id) {
            Err(e) => {
                return Err(e);
            },
            Ok(template) => {
                if template.owner != owner {
                    return Err(ContractError::TemplateUnauthorized);
                }
            },
        }
        proof {
            crate::registry::lemma_lists_ascend(self@, owner);
            lemma_delete(self@, owner, template_id);
        }
        let listed: bool = match self.owner_templates.get(owner) {
            Some(list) => list.contains(template_id),
            None => false,
        };
        if !listed {
            return Err(ContractError::TemplateNotFound);
        }
        self.templates.remove(template_id);
        crate::ops::delist(&mut self.owner_templates, owner, template_id);
        if self.active_template_count > 0 {
            self.active_template_count = self.active_template_count - 1;
        }
        Ok(())
    }

    /// Makes a stream on a registered schedule, counted from the current
    /// timestamp.
    pub fn create_stream_from_template(
        &mut self,
        call: &Call,
        sender: Address,
        template_id: u64,
        recipient: Address,
        deposit_amount: i128,
        rate_per_second: i128,
        withdraw_dust_threshold: i128,
        memo: Option<Bytes>,
        metadata: Option<Rc<Metadata>>,
        kind: StreamKind,
        irrevocable: Option<bool>,
    ) -> (r: Result<u64, ContractError>)
        requires
            old(self)@.wf(),
            old(self)@.room_for(sender, recipient, 1),
        ensures
            final(self)@.wf(),
            !old(self)@.templates.dom().contains(template_id) ==> r == Err::<u64, ContractError>(
                ContractError::TemplateNotFound,
            ) && final(self)@ == old(self)@,
            old(self)@.templates.dom().contains(template_id) ==> {
                let template = old(self)@.templates[template_id];
                let params = CreateStreamRelativeParams {
                    recipient,
                    deposit_amount,
                    rate_per_second,
                    start_delay: template.start_delay,
                    cliff_delay: template.cliff_delay,
                    duration: template.duration,
                    withdraw_dust_threshold: Some(withdraw_dust_threshold),
                    memo,
                    metadata,
                    kind,
                    irrevocable,
                };
                match old(self)@.create_relative_error(*call, sender, params) {
                    Some(e) => r == Err::<u64, ContractError>(e) && final(self)@ == old(self)@,
                    None => {
                        &&& r == Ok::<u64, ContractError>(old(self)@.fresh_id(sender))
                        &&& final(self)@ == old(self)@.create_step(
                            sender,
                            params.dated(call.timestamp),
                        )
                    },
                }
            },
    {
        let template = match self.load_stream_template(template_id) {
            Err(e) => {
                return Err(e);
            },
            Ok(template) => template,
        };
        let params = CreateStreamRelativeParams {
            recipient,
            deposit_amount,
            rate_per_second,
            start_delay: template.start_delay,
            cliff_delay: template.cliff_delay,
            duration: template.duration,
            withdraw_dust_threshold: Some(withdraw_dust_threshold),
            memo,
            metadata,
            kind,
            irrevocable,
        };
        self.create_stream_relative(call, sender, &params)
    }

    /// The template with the given identifier.
    pub fn get_stream_template(&self, template_id: u64) -> (r: Result<
        StreamScheduleTemplate,
        ContractError,
    >)
        ensures
            r == if self@.templates.dom().contains(template_id) {
                Ok::<StreamScheduleTemplate, ContractError>(self@.templates[template_id])
            } else {
                Err(ContractError::TemplateNotFound)
            },
    {
        self.load_stream_template(template_id)
    }
}

} // verus!
