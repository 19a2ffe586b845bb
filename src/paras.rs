use vstd::prelude::*;
use std::collections::HashMap;
use std::collections::VecDeque;
use crate::actions::{due_actions, other_actions, ActionQueue, QueuedAction};
use crate::blob::{code_fits, head_fits, validate_code, validate_head};
use crate::pruning::{due_count, retained_entries, PastCodeEntry, PruningQueue};
use crate::types::{
    sat_add, Event, HeadData, HostConfig, ParaAction, ParaId, ParasError, ValidationCode,
};

verus! {

broadcast use vstd::std_specs::hash::group_hash_axioms;

/// A pending replacement of a para's validation code.
#[derive(Debug, PartialEq, Eq)]
pub struct ScheduledUpgrade {
    pub code: ValidationCode,
    pub activation_block: u32,
}

/// The abstract state: tables keyed by the raw para id, the pruning queue,
/// the action queue and the notifications emitted so far.
pub struct ParasView {
    pub codes: Map<u32, ValidationCode>,
    pub heads: Map<u32, HeadData>,
    pub upgrades: Map<u32, ScheduledUpgrade>,
    pub past_code: Seq<PastCodeEntry>,
    pub actions: Seq<QueuedAction>,
    pub events: Seq<Event>,
}

/// Whether `para` has a scheduled upgrade whose activation block is at or
/// before `current_block`.
pub open spec fn is_due(v: ParasView, para: ParaId, current_block: u32) -> bool {
    v.upgrades.contains_key(para.0) && v.upgrades[para.0].activation_block <= current_block
}

/// The state after applying the due upgrade of `para`: the scheduled code
/// becomes current, the replaced code (if any) is retired until
/// `current_block` plus the retention period, the schedule is cleared and a
/// code-updated notification is emitted. Unchanged when nothing is due.
pub open spec fn apply_due(v: ParasView, para: ParaId, current_block: u32, cfg: HostConfig) -> ParasView {
    if is_due(v, para, current_block) {
        ParasView {
            codes: v.codes.insert(para.0, v.upgrades[para.0].code),
            upgrades: v.upgrades.remove(para.0),
            past_code: if v.codes.contains_key(para.0) {
                v.past_code.push(
                    PastCodeEntry {
                        para,
                        code: v.codes[para.0],
                        eligible_block: sat_add(current_block, cfg.code_retention_period),
                    },
                )
            } else {
                v.past_code
            },
            events: v.events.push(Event::CurrentCodeUpdated(para)),
            ..v
        }
    } else {
        v
    }
}

/// The state after a forced code overwrite of `para`.
pub open spec fn set_code(v: ParasView, para: ParaId, code: ValidationCode) -> ParasView {
    ParasView {
        codes: v.codes.insert(para.0, code),
        events: v.events.push(Event::CurrentCodeUpdated(para)),
        ..v
    }
}

/// The state after a forced head overwrite of `para`.
pub open spec fn set_head(v: ParasView, para: ParaId, head: HeadData) -> ParasView {
    ParasView {
        heads: v.heads.insert(para.0, head),
        events: v.events.push(Event::CurrentHeadUpdated(para)),
        ..v
    }
}

/// The state after scheduling `code` for `para` at `activation_block`; any
/// earlier schedule of `para` is dropped.
pub open spec fn schedule(v: ParasView, para: ParaId, code: ValidationCode, activation_block: u32) -> ParasView {
    ParasView {
        upgrades: v.upgrades.insert(para.0, ScheduledUpgrade { code, activation_block }),
        events: v.events.push(Event::CodeUpgradeScheduled(para)),
        ..v
    }
}

/// The state after noting a new head of `para` at `current_block`: the head
/// is overwritten, a due upgrade is applied, and a head-noted notification
/// closes the sequence.
pub open spec fn note_head(
    v: ParasView,
    para: ParaId,
    head: HeadData,
    current_block: u32,
    cfg: HostConfig,
) -> ParasView {
    let w = apply_due(ParasView { heads: v.heads.insert(para.0, head), ..v }, para, current_block, cfg);
    ParasView { events: w.events.push(Event::NewHeadNoted(para)), ..w }
}

/// The state container of validation code and head data for all paras.
pub struct Paras {
    codes: HashMap<u32, ValidationCode>,
    heads: HashMap<u32, HeadData>,
    upgrades: HashMap<u32, ScheduledUpgrade>,
    past_code: PruningQueue,
    actions: ActionQueue,
    events: Vec<Event>,
}

impl View for Paras {
    type V = ParasView;

    closed spec fn view(&self) -> ParasView {
        ParasView {
            codes: self.codes@,
            heads: self.heads@,
            upgrades: self.upgrades@,
            past_code: self.past_code@,
            actions: self.actions@,
            events: self.events@,
        }
    }
}

impl Paras {
    /// A state with no paras, no pending work and no notifications.
    pub fn new() -> (p: Paras)
        ensures
            p@.codes == Map::<u32, ValidationCode>::empty(),
            p@.heads == Map::<u32, HeadData>::empty(),
            p@.upgrades == Map::<u32, ScheduledUpgrade>::empty(),
            p@.past_code == Seq::<PastCodeEntry>::empty(),
            p@.actions == Seq::<QueuedAction>::empty(),
            p@.events == Seq::<Event>::empty(),
    {
        Paras {
            codes: HashMap::new(),
            heads: HashMap::new(),
            upgrades: HashMap::new(),
            past_code: PruningQueue::new(),
            actions: ActionQueue::new(),
            events: Vec::new(),
        }
    }

    /// Overwrites the current code of `para`. The code it replaces is
    /// discarded, not retired. Fails with `BlobTooLarge`, changing nothing,
    /// when the code exceeds the configured bound.
    pub fn force_set_code(&mut self, para: ParaId, code: ValidationCode, cfg: &HostConfig) -> (r:
        Result<(), ParasError>)
        ensures
            r == (if code_fits(code@, *cfg) {
                Ok(())
            } else {
                Err(ParasError::BlobTooLarge)
            }),
            r is Ok ==> final(self)@ == set_code(old(self)@, para, code),
            r is Err ==> final(self)@ == old(self)@,
    {
        validate_code(&code, cfg)?;
        self.codes.insert(para.0, code);
        self.events.push(Event::CurrentCodeUpdated(para));
        Ok(())
    }

    /// Overwrites the current head of `para`. Fails with `BlobTooLarge`,
    /// changing nothing, when the head exceeds the configured bound.
    pub fn force_set_head(&mut self, para: ParaId, head: HeadData, cfg: &HostConfig) -> (r: Result<
        (),
        ParasError,
    >)
        ensures
            r == (if head_fits(head@, *cfg) {
                Ok(())
            } else {
                Err(ParasError::BlobTooLarge)
            }),
            r is Ok ==> final(self)@ == set_head(old(self)@, para, head),
            r is Err ==> final(self)@ == old(self)@,
    {
        validate_head(&head, cfg)?;
        self.heads.insert(para.0, head);
        self.events.push(Event::CurrentHeadUpdated(para));
        Ok(())
    }

    /// Schedules `code` to become the code of `para` at `activation_block`,
    /// replacing any upgrade already scheduled for it. A block in the past is
    /// accepted: the upgrade is then due at once. Fails with `BlobTooLarge`,
    /// changing nothing, when the code exceeds the configured bound.
    pub fn schedule_code_upgrade(
        &mut self,
        para: ParaId,
        code: ValidationCode,
        activation_block: u32,
        cfg: &HostConfig,
    ) -> (r: Result<(), ParasError>)
        ensures
            r == (if code_fits(code@, *cfg) {
                Ok(())
            } else {
                Err(ParasError::BlobTooLarge)
            }),
            r is Ok ==> final(self)@ == schedule(old(self)@, para, code, activation_block),
            r is Err ==> final(self)@ == old(self)@,
    {
        validate_code(&code, cfg)?;
        self.upgrades.insert(para.0, ScheduledUpgrade { code, activation_block });
        self.events.push(Event::CodeUpgradeScheduled(para));
        Ok(())
    }

    /// Applies the scheduled upgrade of `para` when its activation block is
    /// at or before `current_block`, and reports whether it did. A second
    /// call at the same block finds nothing due.
    pub fn apply_if_due(&mut self, para: ParaId, current_block: u32, cfg: &HostConfig) -> (applied:
        bool)
        ensures
            applied == is_due(old(self)@, para, current_block),
            final(self)@ == apply_due(old(self)@, para, current_block, *cfg),
            !is_due(final(self)@, para, current_block),
    {
        let due = match self.upgrades.get(&para.0) {
            Some(up) => up.activation_block <= current_block,
            None => false,
        };
        if !due {
            return false;
        }
        let removed = self.upgrades.remove(&para.0);
        match removed {
            Some(up) => {
                let replaced = self.codes.insert(para.0, up.code);
                match replaced {
                    Some(prior) => {
                        let eligible = current_block.saturating_add(cfg.code_retention_period);
                        self.past_code.enqueue(para, prior, eligible);
                    },
                    None => {},
                }
                self.events.push(Event::CurrentCodeUpdated(para));
                true
            },
            None => false,
        }
    }

    /// Notes a new head for `para` at `current_block`: overwrites the head,
    /// applies the scheduled upgrade of `para` if it is due (an expired one
    /// included), and reports whether it did. Fails with `BlobTooLarge`,
    /// changing nothing, when the head exceeds the configured bound.
    pub fn note_new_head(
        &mut self,
        para: ParaId,
        head: HeadData,
        current_block: u32,
        cfg: &HostConfig,
    ) -> (r: Result<bool, ParasError>)
        ensures
            r == (if head_fits(head@, *cfg) {
                Ok(is_due(old(self)@, para, current_block))
            } else {
                Err(ParasError::BlobTooLarge)
            }),
            r is Ok ==> final(self)@ == note_head(old(self)@, para, head, current_block, *cfg),
            r is Err ==> final(self)@ == old(self)@,
    {
        validate_head(&head, cfg)?;
        self.heads.insert(para.0, head);
        let applied = self.apply_if_due(para, current_block, cfg);
        self.events.push(Event::NewHeadNoted(para));
        Ok(applied)
    }

    /// Queues `action` for `para` at the session after `current_session`,
    /// emits a notification naming that session, and returns it.
    pub fn queue_action(&mut self, para: ParaId, action: ParaAction, current_session: u32) -> (next:
        u32)
        ensures
            next == sat_add(current_session, 1),
            final(self)@ == (ParasView {
                actions: old(self)@.actions.push(QueuedAction { session: next, para, action }),
                events: old(self)@.events.push(Event::ActionQueued(para, next)),
                ..old(self)@
            }),
    {
        let next = self.actions.queue(para, action, current_session);
        self.events.push(Event::ActionQueued(para, next));
        next
    }

    /// Removes and returns, in queue order, the actions queued for exactly
    /// `session`.
    pub fn flush_actions(&mut self, session: u32) -> (r: Vec<(ParaId, ParaAction)>)
        ensures
            r@ == due_actions(old(self)@.actions, session),
            final(self)@ == (ParasView {
                actions: other_actions(old(self)@.actions, session),
                ..old(self)@
            }),
    {
        self.actions.flush(session)
    }

    /// Discards every retired code whose eligible block is at or before
    /// `current_block`, whatever the order of insertion, and returns how many.
    pub fn prune_past_code(&mut self, current_block: u32) -> (removed: usize)
        ensures
            removed == due_count(old(self)@.past_code, current_block),
            final(self)@ == (ParasView {
                past_code: retained_entries(old(self)@.past_code, current_block),
                ..old(self)@
            }),
    {
        self.past_code.sweep(current_block)
    }

    /// Retires a code directly into the pruning queue, eligible for deletion
    /// after `eligible_block`.
    pub fn note_past_code(&mut self, para: ParaId, code: ValidationCode, eligible_block: u32)
        ensures
            final(self)@ == (ParasView {
                past_code: old(self)@.past_code.push(PastCodeEntry { para, code, eligible_block }),
                ..old(self)@
            }),
    {
        self.past_code.enqueue(para, code, eligible_block);
    }

    /// Removes the current code, head and scheduled upgrade of an offboarded
    /// para. Fails with `NoSuchPara`, changing nothing, when the para has no
    /// current code.
    pub fn offboard(&mut self, para: ParaId) -> (r: Result<(), ParasError>)
        ensures
            r == (if old(self)@.codes.contains_key(para.0) {
                Ok(())
            } else {
                Err(ParasError::NoSuchPara)
            }),
            r is Ok ==> final(self)@ == (ParasView {
                codes: old(self)@.codes.remove(para.0),
                heads: old(self)@.heads.remove(para.0),
                upgrades: old(self)@.upgrades.remove(para.0),
                ..old(self)@
            }),
            r is Err ==> final(self)@ == old(self)@,
    {
        if !self.codes.contains_key(&para.0) {
            return Err(ParasError::NoSuchPara);
        }
        self.codes.remove(&para.0);
        self.heads.remove(&para.0);
        self.upgrades.remove(&para.0);
        Ok(())
    }

    /// The current code of `para`, if any.
    pub fn current_code(&self, para: ParaId) -> (r: Option<&ValidationCode>)
        ensures
            r == (if self@.codes.contains_key(para.0) {
                Some(&self@.codes[para.0])
            } else {
                None
            }),
    {
        self.codes.get(&para.0)
    }

    /// The current head of `para`, if any.
    pub fn current_head(&self, para: ParaId) -> (r: Option<&HeadData>)
        ensures
            r == (if self@.heads.contains_key(para.0) {
                Some(&self@.heads[para.0])
            } else {
                None
            }),
    {
        self.heads.get(&para.0)
    }

    /// The upgrade scheduled for `para`, if any.
    pub fn scheduled_upgrade(&self, para: ParaId) -> (r: Option<&ScheduledUpgrade>)
        ensures
            r == (if self@.upgrades.contains_key(para.0) {
                Some(&self@.upgrades[para.0])
            } else {
                None
            }),
    {
        self.upgrades.get(&para.0)
    }

    /// The retired codes awaiting pruning, in insertion order.
    pub fn past_code(&self) -> (r: &VecDeque<PastCodeEntry>)
        ensures
            r@ == self@.past_code,
    {
        self.past_code.entries()
    }

    /// Number of actions queued, over all sessions.
    pub fn queued_action_count(&self) -> (n: usize)
        ensures
            n == self@.actions.len(),
    {
        self.actions.len()
    }

    /// The notifications emitted so far, oldest first.
    pub fn events(&self) -> (r: &Vec<Event>)
        ensures
            r@ == self@.events,
    {
        &self.events
    }

    /// The most recent notification, if any.
    pub fn last_event(&self) -> (r: Option<Event>)
        ensures
            r == (if self@.events.len() > 0 {
                Some(self@.events.last())
            } else {
                None
            }),
    {
        if self.events.len() == 0 {
            None
        } else {
            Some(self.events[self.events.len() - 1])
        }
    }
}

} // verus!
