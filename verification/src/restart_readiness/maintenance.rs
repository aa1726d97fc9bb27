//! Deployment-only absence proof. Ordinary restart readiness has no exceptions.

use vstd::prelude::*;

use super::RestartReadinessError;
use crate::text::{chars_of, push_all, same_text, string_of};
use crate::text_order::{ordered_texts, sort_texts, texts_of};

verus! {

/// A maintenance ticket naming a thread that must be absent everywhere.
#[derive(Clone, Debug, PartialEq, Eq)]
pub struct AbsentTarget {
    pub state_db: String,
    pub thread_id: String,
    pub room: i64,
    pub parent: i64,
}

/// The reason a malformed ticket is refused.
pub const INVALID_TARGET: &'static str = "invalid maintenance target";

/// The reason a ticket whose thread Codex still lists is refused.
pub const IN_INVENTORY: &'static str = "maintenance target exists in Codex inventory";

/// The reason a ticket whose thread is still owned is refused, before the
/// owning table's name.
pub const RETAINS_OWNERSHIP: &'static str = "maintenance target retains ownership in ";

/// The reason a ticket whose room a cleanup protects is refused, before the
/// protecting cleanup's reason.
pub const PROTECTED_BY: &'static str = "maintenance target protected by ";

/// The ticket is refused for `reason`.
pub open spec fn refused_for(r: Result<(), RestartReadinessError>, thread_id: Seq<char>, reason: Seq<char>) -> bool {
    r matches Err(RestartReadinessError::InvalidThreadState { thread_id: t, reason: m }) && t@ == thread_id
        && m@ == reason
}

/// The reason a ticket whose room mapping changed is refused.
pub const MAPPING_CHANGED: &'static str = "maintenance mapping changed or room has multiple owners";

impl AbsentTarget {
    fn fail(&self, reason: &str) -> (e: RestartReadinessError)
        ensures
            e matches RestartReadinessError::InvalidThreadState { thread_id, reason: r } && thread_id@
                == self.thread_id@ && r@ == reason@,
    {
        RestartReadinessError::InvalidThreadState {
            thread_id: self.thread_id.clone(),
            reason: reason.to_owned(),
        }
    }

    /// A ticket names a thread, a room and its parent channel.
    pub fn validate(&self) -> (r: Result<(), RestartReadinessError>)
        ensures
            (self.thread_id@.len() > 0 && self.room > 0 && self.parent > 0) ==> r is Ok,
            !(self.thread_id@.len() > 0 && self.room > 0 && self.parent > 0) ==> (r matches Err(
                RestartReadinessError::InvalidThreadState { thread_id, reason },
            ) && thread_id@ == self.thread_id@ && reason@ == INVALID_TARGET@),
    {
        if self.thread_id.as_str().is_empty() || self.room <= 0 || self.parent <= 0 {
            return Err(self.fail(INVALID_TARGET));
        }
        Ok(())
    }

    /// The mirror rows that map the room or the thread are exactly the one
    /// row binding this thread to this room under this parent.
    pub fn check_mapping(&self, rows: &[(String, i64, i64)]) -> (r: Result<(), RestartReadinessError>)
        ensures
            (rows.len() == 1 && rows@[0].0@ == self.thread_id@ && rows@[0].1 == self.room && rows@[0].2
                == self.parent) ==> r is Ok,
            !(rows.len() == 1 && rows@[0].0@ == self.thread_id@ && rows@[0].1 == self.room && rows@[0].2
                == self.parent) ==> (r matches Err(RestartReadinessError::InvalidThreadState { thread_id, reason })
                && thread_id@ == self.thread_id@ && reason@ == MAPPING_CHANGED@),
    {
        if rows.len() == 1 && same_text(rows[0].0.as_str(), self.thread_id.as_str()) && rows[0].1
            == self.room && rows[0].2 == self.parent {
            Ok(())
        } else {
            Err(self.fail(MAPPING_CHANGED))
        }
    }
}

impl AbsentTarget {
    fn fail_chars(&self, reason: &Vec<char>) -> (e: RestartReadinessError)
        ensures
            e matches RestartReadinessError::InvalidThreadState { thread_id, reason: r } && thread_id@
                == self.thread_id@ && r@ == reason@,
    {
        RestartReadinessError::InvalidThreadState { thread_id: self.thread_id.clone(), reason: string_of(reason) }
    }

    /// A room that a pending cleanup protects may not be maintained.
    pub fn protection_check(&self, protected_by: Option<&str>) -> (r: Result<(), RestartReadinessError>)
        ensures
            protected_by is None ==> r is Ok,
            protected_by matches Some(p) ==> refused_for(r, self.thread_id@, PROTECTED_BY@ + p@),
    {
        match protected_by {
            None => Ok(()),
            Some(p) => {
                let mut reason = chars_of(PROTECTED_BY);
                push_all(&mut reason, &chars_of(p));
                Err(self.fail_chars(&reason))
            },
        }
    }

    /// The thread must be absent from the Codex inventory: neither listed
    /// nor loadable. On success the listed ids are returned sorted.
    pub fn inventory_check(&self, listed: Vec<String>, loadable: bool) -> (r: Result<Vec<String>, RestartReadinessError>)
        ensures
            (texts_of(listed@).contains(self.thread_id@) || loadable) ==> (r matches Err(
                RestartReadinessError::InvalidThreadState { thread_id, reason },
            ) && thread_id@ == self.thread_id@ && reason@ == IN_INVENTORY@),
            !(texts_of(listed@).contains(self.thread_id@) || loadable) ==> (r matches Ok(ids) && ordered_texts(
                texts_of(ids@),
            ) && ids@.to_multiset() == listed@.to_multiset()),
    {
        let mut listed_here = false;
        let mut i: usize = 0;
        while i < listed.len()
            invariant
                i <= listed.len(),
                listed_here == exists|k: int| 0 <= k < i && (#[trigger] listed@[k])@ == self.thread_id@,
            decreases listed.len() - i,
        {
            if same_text(listed[i].as_str(), self.thread_id.as_str()) {
                listed_here = true;
            }
            i = i + 1;
        }
        proof {
            if texts_of(listed@).contains(self.thread_id@) {
                let k = choose|k: int| 0 <= k < listed.len() && texts_of(listed@)[k] == self.thread_id@;
                assert(listed@[k]@ == self.thread_id@);
            }
            if listed_here {
                let k = choose|k: int| 0 <= k < listed.len() && (#[trigger] listed@[k])@ == self.thread_id@;
                assert(texts_of(listed@)[k] == self.thread_id@);
            }
        }
        if listed_here || loadable {
            return Err(self.fail(IN_INVENTORY));
        }
        Ok(sort_texts(listed))
    }

    /// No table of managed targets or fork handoffs may still own the thread.
    pub fn ownership_check(&self, table: &str, retained: bool) -> (r: Result<(), RestartReadinessError>)
        ensures
            !retained ==> r is Ok,
            retained ==> refused_for(r, self.thread_id@, RETAINS_OWNERSHIP@ + table@),
    {
        if !retained {
            return Ok(());
        }
        let mut reason = chars_of(RETAINS_OWNERSHIP);
        push_all(&mut reason, &chars_of(table));
        Err(self.fail_chars(&reason))
    }
}

/// The table of threads the app-server manages.
pub const MANAGED_TARGETS_TABLE: &'static str = "codex_app_server_managed_targets";

/// The table of fork handoffs.
pub const FORK_HANDOFFS_TABLE: &'static str = "codex_thread_fork_handoffs";

/// Where an absence proof stands.
#[derive(Debug)]
pub enum AbsenceStage {
    /// Waiting for the cleanup that protects the room, if any.
    Protection,
    /// Waiting for the Codex inventory.
    Inventory,
    /// Waiting to learn whether the managed-targets table owns the thread.
    ManagedOwnership(Vec<String>),
    /// Waiting to learn whether the fork-handoffs table owns the thread.
    HandoffOwnership(Vec<String>),
    /// Waiting for the mirror rows of the thread or the room.
    Mapping(Vec<String>),
    /// The proof is over.
    Finished,
}

/// What the stores answered.
#[derive(Debug)]
pub enum AbsenceEvent {
    /// The reason of a pending cleanup that protects the room, if any.
    Protected(Option<String>),
    /// The thread ids Codex lists, and whether the thread itself loads.
    Inventory { listed: Vec<String>, loadable: bool },
    /// Whether the table asked about still owns the thread.
    Retained(bool),
    /// The mirror rows mapping the thread or the room.
    Rows(Vec<(String, i64, i64)>),
    /// A store could not be read; the reason is reported.
    Failed(String),
}

/// What to do next.
#[derive(Debug)]
pub enum AbsenceAction {
    ReadProtection,
    ReadInventory,
    /// Ask whether `table` (when it exists) still owns the thread.
    ReadOwnership { table: &'static str },
    ReadMapping,
    /// End with the sorted inventory ids, or the refusal.
    Finish(Result<Vec<String>, RestartReadinessError>),
}

/// One absence proof for a maintenance ticket.
pub struct AbsenceRun {
    pub target: AbsentTarget,
    pub stage: AbsenceStage,
}

/// The proof ends refused with `reason` for the ticket's thread.
pub open spec fn absence_refused(target: AbsentTarget, next: AbsenceStage, a: AbsenceAction, reason: Seq<char>) -> bool {
    next is Finished && (a matches AbsenceAction::Finish(Err(RestartReadinessError::InvalidThreadState { thread_id, reason: r }))
        && thread_id@ == target.thread_id@ && r@ == reason)
}

/// The event that answers the action a stage waits for.
pub open spec fn absence_expects(stage: AbsenceStage, event: AbsenceEvent) -> bool {
    event is Failed || match stage {
        AbsenceStage::Protection => event is Protected,
        AbsenceStage::Inventory => event is Inventory,
        AbsenceStage::ManagedOwnership(_) => event is Retained,
        AbsenceStage::HandoffOwnership(_) => event is Retained,
        AbsenceStage::Mapping(_) => event is Rows,
        AbsenceStage::Finished => false,
    }
}

/// The step of a proof from `run` on `event`: the room's protection, then
/// the inventory, then each owning table, then the mapping; a store that
/// cannot be read refuses the ticket with its reason.
pub open spec fn absence_step(run: AbsenceRun, event: AbsenceEvent, next: AbsenceRun, a: AbsenceAction) -> bool {
    let t = run.target;
    &&& next.target == t
    &&& match event {
        AbsenceEvent::Failed(reason) => absence_refused(t, next.stage, a, reason@),
        AbsenceEvent::Protected(p) => match p {
            Some(reason) => absence_refused(t, next.stage, a, PROTECTED_BY@ + reason@),
            None => next.stage is Inventory && a is ReadInventory,
        },
        AbsenceEvent::Inventory { listed, loadable } => if texts_of(listed@).contains(t.thread_id@) || loadable {
            absence_refused(t, next.stage, a, IN_INVENTORY@)
        } else {
            (next.stage matches AbsenceStage::ManagedOwnership(ids) && ordered_texts(texts_of(ids@))
                && ids@.to_multiset() == listed@.to_multiset()) && a == (AbsenceAction::ReadOwnership {
                table: MANAGED_TARGETS_TABLE,
            })
        },
        AbsenceEvent::Retained(retained) => match run.stage {
            AbsenceStage::ManagedOwnership(ids) => if retained {
                absence_refused(t, next.stage, a, RETAINS_OWNERSHIP@ + MANAGED_TARGETS_TABLE@)
            } else {
                next.stage == AbsenceStage::HandoffOwnership(ids) && a == (AbsenceAction::ReadOwnership {
                    table: FORK_HANDOFFS_TABLE,
                })
            },
            AbsenceStage::HandoffOwnership(ids) => if retained {
                absence_refused(t, next.stage, a, RETAINS_OWNERSHIP@ + FORK_HANDOFFS_TABLE@)
            } else {
                next.stage == AbsenceStage::Mapping(ids) && a is ReadMapping
            },
            _ => false,
        },
        AbsenceEvent::Rows(rows) => match run.stage {
            AbsenceStage::Mapping(ids) => if rows.len() == 1 && rows@[0].0@ == t.thread_id@ && rows@[0].1 == t.room
                && rows@[0].2 == t.parent {
                next.stage is Finished && a == AbsenceAction::Finish(Ok(ids))
            } else {
                absence_refused(t, next.stage, a, MAPPING_CHANGED@)
            },
            _ => false,
        },
    }
}

impl AbsenceRun {
    /// Starts the proof for `target`: a malformed ticket is refused before
    /// any store is read; otherwise the room's protection is read first.
    pub fn begin(target: AbsentTarget) -> (r: (AbsenceRun, AbsenceAction))
        ensures
            r.0.target == target,
            (target.thread_id@.len() > 0 && target.room > 0 && target.parent > 0) ==> r.0.stage is Protection
                && r.1 is ReadProtection,
            !(target.thread_id@.len() > 0 && target.room > 0 && target.parent > 0) ==> absence_refused(
                target,
                r.0.stage,
                r.1,
                INVALID_TARGET@,
            ),
    {
        match target.validate() {
            Err(e) => (AbsenceRun { target, stage: AbsenceStage::Finished }, AbsenceAction::Finish(Err(e))),
            Ok(()) => (AbsenceRun { target, stage: AbsenceStage::Protection }, AbsenceAction::ReadProtection),
        }
    }

    /// Takes the answer to the last action and returns the next one.
    pub fn on(&mut self, event: AbsenceEvent) -> (a: AbsenceAction)
        requires
            absence_expects(old(self).stage, event),
        ensures
            absence_step(*old(self), event, *final(self), a),
    {
        let mut stage = AbsenceStage::Finished;
        std::mem::swap(&mut stage, &mut self.stage);
        let (next, action) = match event {
            AbsenceEvent::Failed(reason) => {
                let e = RestartReadinessError::InvalidThreadState { thread_id: self.target.thread_id.clone(), reason };
                (AbsenceStage::Finished, AbsenceAction::Finish(Err(e)))
            },
            AbsenceEvent::Protected(p) => {
                let pr = match &p {
                    Some(x) => Some(x.as_str()),
                    None => None,
                };
                match self.target.protection_check(pr) {
                    Err(e) => (AbsenceStage::Finished, AbsenceAction::Finish(Err(e))),
                    Ok(()) => (AbsenceStage::Inventory, AbsenceAction::ReadInventory),
                }
            },
            AbsenceEvent::Inventory { listed, loadable } => match self.target.inventory_check(listed, loadable) {
                Err(e) => (AbsenceStage::Finished, AbsenceAction::Finish(Err(e))),
                Ok(ids) => (
                    AbsenceStage::ManagedOwnership(ids),
                    AbsenceAction::ReadOwnership { table: MANAGED_TARGETS_TABLE },
                ),
            },
            AbsenceEvent::Retained(retained) => match stage {
                AbsenceStage::ManagedOwnership(ids) => match self.target.ownership_check(MANAGED_TARGETS_TABLE, retained) {
                    Err(e) => (AbsenceStage::Finished, AbsenceAction::Finish(Err(e))),
                    Ok(()) => (AbsenceStage::HandoffOwnership(ids), AbsenceAction::ReadOwnership { table: FORK_HANDOFFS_TABLE }),
                },
                AbsenceStage::HandoffOwnership(ids) => match self.target.ownership_check(FORK_HANDOFFS_TABLE, retained) {
                    Err(e) => (AbsenceStage::Finished, AbsenceAction::Finish(Err(e))),
                    Ok(()) => (AbsenceStage::Mapping(ids), AbsenceAction::ReadMapping),
                },
                _ => {
                    proof {
                        assert(false);
                    }
                    (AbsenceStage::Finished, AbsenceAction::ReadMapping)
                },
            },
            AbsenceEvent::Rows(rows) => match stage {
                AbsenceStage::Mapping(ids) => match self.target.check_mapping(&rows) {
                    Err(e) => (AbsenceStage::Finished, AbsenceAction::Finish(Err(e))),
                    Ok(()) => (AbsenceStage::Finished, AbsenceAction::Finish(Ok(ids))),
                },
                _ => {
                    proof {
                        assert(false);
                    }
                    (AbsenceStage::Finished, AbsenceAction::ReadMapping)
                },
            },
        };
        self.stage = next;
        action
    }
}

} // verus!
