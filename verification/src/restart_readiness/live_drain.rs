//! In-process quiescence check performed before the live app-server is closed.

use vstd::prelude::*;

use crate::text::{chars_of, push_all, same_text, string_of};
use crate::text_order::{lemma_text_total, lemma_text_transitive, sorted_texts, text_less};

verus! {

/// Outcome of a live drain check.
#[derive(Clone, Debug, Eq, PartialEq)]
pub enum LiveDrainState {
    Ready,
    Blocked { reason: String },
}

/// The resident app-server's lifecycle as the drain reads it.
#[derive(Clone, Debug, Eq, PartialEq)]
pub struct LifecycleObservation {
    pub healthy: bool,
    pub quarantined: bool,
    pub restart_pending: bool,
    pub has_process_id: bool,
    /// The lifecycle snapshot as its `Debug` form shows it.
    pub description: String,
}

/// One observation of the resident app-server.
#[derive(Clone, Debug, Eq, PartialEq)]
pub struct LiveObservation {
    pub lifecycle: LifecycleObservation,
    pub unsettled: bool,
    /// Active turns by thread, in thread order, as `record_active` keeps them.
    pub active: Vec<(String, String)>,
}

/// What keeps the app-server from being closed, if anything: an unstable
/// lifecycle, then an unsettled request, then the first active turn.
pub open spec fn blocker_of(o: LiveObservation) -> Option<Seq<char>> {
    let l = o.lifecycle;
    if !l.healthy || l.quarantined || l.restart_pending || !l.has_process_id {
        Some("resident app-server is not stably healthy: "@ + l.description@)
    } else if o.unsettled {
        Some("resident app-server has an unsettled approval or input request"@)
    } else if o.active@.len() > 0 {
        Some("resident app-server thread "@ + o.active@[0].0@ + " still has active turn "@ + o.active@[0].1@)
    } else {
        None
    }
}

impl LiveObservation {
    /// The reason the app-server may not be closed yet, if any.
    pub fn blocker(&self) -> (r: Option<String>)
        ensures
            match r {
                Some(s) => blocker_of(*self) == Some(s@),
                None => blocker_of(*self) is None,
            },
    {
        let l = &self.lifecycle;
        if !l.healthy || l.quarantined || l.restart_pending || !l.has_process_id {
            let mut s = chars_of("resident app-server is not stably healthy: ");
            push_all(&mut s, &chars_of(l.description.as_str()));
            return Some(string_of(&s));
        }
        if self.unsettled {
            return Some("resident app-server has an unsettled approval or input request".to_owned());
        }
        if self.active.len() > 0 {
            let mut s = chars_of("resident app-server thread ");
            push_all(&mut s, &chars_of(self.active[0].0.as_str()));
            push_all(&mut s, &chars_of(" still has active turn "));
            push_all(&mut s, &chars_of(self.active[0].1.as_str()));
            return Some(string_of(&s));
        }
        None
    }
}

/// The thread names of active turns.
pub open spec fn threads_of(active: Seq<(String, String)>) -> Seq<Seq<char>> {
    active.map_values(|p: (String, String)| p.0@)
}

/// The active turn recorded for `thread`, if any.
pub open spec fn turn_of(active: Seq<(String, String)>, thread: Seq<char>) -> Option<Seq<char>> {
    if exists|k: int| 0 <= k < active.len() && (#[trigger] active[k]).0@ == thread {
        Some(active[choose|k: int| 0 <= k < active.len() && (#[trigger] active[k]).0@ == thread].1@)
    } else {
        None
    }
}

/// Records that `thread` has the active turn `turn`, keeping the threads in
/// order and each once; a thread recorded again takes the new turn.
pub fn record_active(active: &mut Vec<(String, String)>, thread: String, turn: String)
    requires
        sorted_texts(threads_of(old(active)@)),
    ensures
        sorted_texts(threads_of(final(active)@)),
        forall|x: Seq<char>| #[trigger] threads_of(final(active)@).contains(x) <==> (threads_of(old(active)@).contains(x)
            || x == thread@),
        turn_of(final(active)@, thread@) == Some(turn@),
        forall|x: Seq<char>| x != thread@ ==> #[trigger] turn_of(final(active)@, x) == turn_of(old(active)@, x),
{
    let ghost old_a = active@;
    let ghost old_t = threads_of(old_a);
    let mut i: usize = 0;
    while i < active.len() && text_less(active[i].0.as_str(), thread.as_str())
        invariant
            i <= active.len(),
            active@ == old_a,
            old_t == threads_of(old_a),
            sorted_texts(old_t),
            forall|k: int| 0 <= k < i ==> crate::text_order::text_before(#[trigger] old_t[k], thread@),
        decreases active.len() - i,
    {
        i = i + 1;
    }
    proof {
        if i < active.len() {
            assert(old_t[i as int] == active@[i as int].0@);
        }
    }
    if i < active.len() && same_text(active[i].0.as_str(), thread.as_str()) {
        let ghost new_pair = (thread, turn);
        active.set(i, (thread, turn));
        proof {
            let a = active@;
            assert(a == old_a.update(i as int, new_pair));
            let t = threads_of(a);
            assert(t =~= old_t);
            assert forall|x: Seq<char>| x != thread@ implies #[trigger] turn_of(a, x) == turn_of(old_a, x) by {
                if exists|k: int| 0 <= k < a.len() && (#[trigger] a[k]).0@ == x {
                    let k1 = choose|k: int| 0 <= k < a.len() && (#[trigger] a[k]).0@ == x;
                    assert(k1 != i);
                    assert(old_a[k1].0@ == x);
                    let k2 = choose|k: int| 0 <= k < old_a.len() && (#[trigger] old_a[k]).0@ == x;
                    if k1 != k2 {
                        assert(old_t[k1] == x && old_t[k2] == x);
                        crate::text_order::lemma_text_irreflexive(x);
                    }
                } else if exists|k: int| 0 <= k < old_a.len() && (#[trigger] old_a[k]).0@ == x {
                    let k2 = choose|k: int| 0 <= k < old_a.len() && (#[trigger] old_a[k]).0@ == x;
                    assert(k2 != i);
                    assert(a[k2].0@ == x);
                }
            }
            assert(a[i as int].0@ == thread@);
            let k1 = choose|k: int| 0 <= k < a.len() && (#[trigger] a[k]).0@ == thread@;
            if k1 != i {
                assert(t[k1] == thread@ && t[i as int] == thread@);
                crate::text_order::lemma_text_irreflexive(thread@);
            }
        }
        return;
    }
    proof {
        if i < active.len() {
            lemma_text_total(old_t[i as int], thread@);
        }
    }
    active.insert(i, (thread, turn));
    proof {
        let t = threads_of(active@);
        assert(t =~= old_t.insert(i as int, thread@));
        assert forall|p: int, q: int| 0 <= p < q < t.len() implies crate::text_order::text_before(
            #[trigger] t[p],
            #[trigger] t[q],
        ) by {
            if q == i {
                assert(t[p] == old_t[p]);
            } else if p == i {
                assert(t[q] == old_t[q - 1]);
                if q - 1 > i {
                    assert(crate::text_order::text_before(old_t[i as int], old_t[q - 1]));
                    lemma_text_transitive(thread@, old_t[i as int], old_t[q - 1]);
                }
            } else if p < i && q < i {
                assert(t[p] == old_t[p] && t[q] == old_t[q]);
            } else if p < i {
                assert(t[p] == old_t[p] && t[q] == old_t[q - 1]);
                assert(crate::text_order::text_before(old_t[p], old_t[q - 1]));
            } else {
                assert(t[p] == old_t[p - 1] && t[q] == old_t[q - 1]);
            }
        }
        assert forall|x: Seq<char>| #[trigger] t.contains(x) <==> (old_t.contains(x) || x == thread@) by {
            if t.contains(x) {
                let k = choose|k: int| 0 <= k < t.len() && t[k] == x;
                if k < i {
                    assert(old_t[k] == x);
                } else if k > i {
                    assert(old_t[k - 1] == x);
                }
            }
            if old_t.contains(x) {
                let k = choose|k: int| 0 <= k < old_t.len() && old_t[k] == x;
                if k < i {
                    assert(t[k] == x);
                } else {
                    assert(t[k + 1] == x);
                }
            }
            if x == thread@ {
                assert(t[i as int] == x);
            }
        }
        let a = active@;
        assert(a[i as int].0@ == thread@);
        let k1 = choose|k: int| 0 <= k < a.len() && (#[trigger] a[k]).0@ == thread@;
        if k1 != i {
            assert(t[k1] == thread@ && t[i as int] == thread@);
            crate::text_order::lemma_text_irreflexive(thread@);
        }
        assert forall|x: Seq<char>| x != thread@ implies #[trigger] turn_of(a, x) == turn_of(old_a, x) by {
            if exists|k: int| 0 <= k < old_a.len() && (#[trigger] old_a[k]).0@ == x {
                let k2 = choose|k: int| 0 <= k < old_a.len() && (#[trigger] old_a[k]).0@ == x;
                let j = if k2 < i { k2 } else { k2 + 1 };
                assert(a[j] == old_a[k2]);
                let k1 = choose|k: int| 0 <= k < a.len() && (#[trigger] a[k]).0@ == x;
                if k1 != j {
                    assert(t[k1] == x && t[j] == x);
                    crate::text_order::lemma_text_irreflexive(x);
                }
            }
            if exists|k: int| 0 <= k < a.len() && (#[trigger] a[k]).0@ == x {
                let k1 = choose|k: int| 0 <= k < a.len() && (#[trigger] a[k]).0@ == x;
                assert(k1 != i);
                let k2 = if k1 < i { k1 } else { k1 - 1 };
                assert(old_a[k2] == a[k1]);
            }
        }
    }
}

/// Reason given when the durable restart state changed during the live inspection.
pub const DURABLE_CHANGED: &'static str = "Rust durable restart state changed during live drain inspection";

/// Reason given when the resident changed during the live inspection.
pub const RESIDENT_CHANGED: &'static str = "resident app-server state changed during live drain inspection";

/// The verdict once neither observation found a blocker: ready only when
/// the durable state and then the resident are what they were before.
pub fn quiescence_verdict(durable_unchanged: bool, live_unchanged: bool) -> (r: LiveDrainState)
    ensures
        !durable_unchanged ==> (r matches LiveDrainState::Blocked { reason } && reason@ == DURABLE_CHANGED@),
        durable_unchanged && !live_unchanged ==> (r matches LiveDrainState::Blocked { reason } && reason@
            == RESIDENT_CHANGED@),
        durable_unchanged && live_unchanged ==> r == LiveDrainState::Ready,
{
    if !durable_unchanged {
        LiveDrainState::Blocked { reason: DURABLE_CHANGED.to_owned() }
    } else if !live_unchanged {
        LiveDrainState::Blocked { reason: RESIDENT_CHANGED.to_owned() }
    } else {
        LiveDrainState::Ready
    }
}

/// The resident may be closed only when its lifecycle is stable, no
/// approval or input is unsettled and no thread has an active turn.
pub proof fn law_quiet_only_without_blockers(o: LiveObservation)
    requires
        blocker_of(o) is None,
    ensures
        o.lifecycle.healthy && !o.lifecycle.quarantined && !o.lifecycle.restart_pending && o.lifecycle.has_process_id,
        !o.unsettled,
        o.active@.len() == 0,
{
}

/// Two observations show the same resident: the same lifecycle, the same
/// unsettled flag and the same active turns.
pub open spec fn same_observation(a: LiveObservation, b: LiveObservation) -> bool {
    &&& a.lifecycle.healthy == b.lifecycle.healthy
    &&& a.lifecycle.quarantined == b.lifecycle.quarantined
    &&& a.lifecycle.restart_pending == b.lifecycle.restart_pending
    &&& a.lifecycle.has_process_id == b.lifecycle.has_process_id
    &&& a.lifecycle.description@ == b.lifecycle.description@
    &&& a.unsettled == b.unsettled
    &&& a.active@.len() == b.active@.len()
    &&& forall|i: int|
        0 <= i < a.active@.len() ==> (#[trigger] a.active@[i]).0@ == b.active@[i].0@ && a.active@[i].1@
            == b.active@[i].1@
}

/// Whether two observations show the same resident.
pub fn observations_match(a: &LiveObservation, b: &LiveObservation) -> (r: bool)
    ensures
        r == same_observation(*a, *b),
{
    if a.lifecycle.healthy != b.lifecycle.healthy || a.lifecycle.quarantined != b.lifecycle.quarantined
        || a.lifecycle.restart_pending != b.lifecycle.restart_pending
        || a.lifecycle.has_process_id != b.lifecycle.has_process_id || !same_text(
        a.lifecycle.description.as_str(),
        b.lifecycle.description.as_str(),
    ) || a.unsettled != b.unsettled || a.active.len() != b.active.len() {
        return false;
    }
    let mut i: usize = 0;
    while i < a.active.len()
        invariant
            i <= a.active.len(),
            a.active.len() == b.active.len(),
            forall|k: int|
                0 <= k < i ==> (#[trigger] a.active@[k]).0@ == b.active@[k].0@ && a.active@[k].1@
                    == b.active@[k].1@,
        decreases a.active.len() - i,
    {
        if !same_text(a.active[i].0.as_str(), b.active[i].0.as_str()) || !same_text(
            a.active[i].1.as_str(),
            b.active[i].1.as_str(),
        ) {
            return false;
        }
        i = i + 1;
    }
    true
}

/// Where a quiescence check stands.
#[derive(Debug)]
pub enum QuiescenceStage {
    /// Waiting for the durable restart snapshot.
    DurableBefore,
    /// Waiting for the first observation of the resident.
    LiveBefore,
    /// Waiting to learn whether the durable snapshot is unchanged.
    DurableAfter(LiveObservation),
    /// Waiting for the second observation of the resident.
    LiveAfter(LiveObservation),
    /// The check is over.
    Finished,
}

/// What the store or the resident answered.
#[derive(Debug)]
pub enum QuiescenceEvent {
    /// The durable snapshot: its blockers (a running job among them) and
    /// the target threads to observe.
    Durable { blockers: Vec<String>, target_thread_ids: Vec<String> },
    /// An observation of the resident over the target threads.
    Observed(LiveObservation),
    /// Whether the durable snapshot read again equals the first.
    DurableAgain { unchanged: bool },
}

/// What to do next.
#[derive(Debug)]
pub enum QuiescenceAction {
    /// Read the durable snapshot again.
    ReadDurable,
    /// Observe the resident over the check's target threads.
    Observe,
    Finish(LiveDrainState),
}

/// One quiescence check of the runtime before its app-server is closed.
pub struct QuiescenceRun {
    /// The target threads of the durable snapshot.
    pub target_thread_ids: Vec<String>,
    pub stage: QuiescenceStage,
}

/// The check ends blocked by `reason`.
pub open spec fn quiescence_blocked(next: QuiescenceStage, a: QuiescenceAction, reason: Seq<char>) -> bool {
    next is Finished && (a matches QuiescenceAction::Finish(LiveDrainState::Blocked { reason: r }) && r@ == reason)
}

/// An observation kept for comparison showed no blocker.
pub open spec fn quiescence_wf(stage: QuiescenceStage) -> bool {
    match stage {
        QuiescenceStage::DurableAfter(o) => blocker_of(o) is None,
        QuiescenceStage::LiveAfter(o) => blocker_of(o) is None,
        _ => true,
    }
}

/// The event that answers the action a stage waits for.
pub open spec fn quiescence_expects(stage: QuiescenceStage, event: QuiescenceEvent) -> bool {
    match stage {
        QuiescenceStage::DurableBefore => event is Durable,
        QuiescenceStage::LiveBefore => event is Observed,
        QuiescenceStage::DurableAfter(_) => event is DurableAgain,
        QuiescenceStage::LiveAfter(_) => event is Observed,
        QuiescenceStage::Finished => false,
    }
}

/// The step of a check from `run` on `event`: a durable blocker ends it
/// before the resident is observed; then the first observation's blocker;
/// then a changed durable snapshot; then a changed resident; otherwise the
/// runtime is ready.
pub open spec fn quiescence_step(run: QuiescenceRun, event: QuiescenceEvent, next: QuiescenceRun, a: QuiescenceAction) -> bool {
    match (run.stage, event) {
        (QuiescenceStage::DurableBefore, QuiescenceEvent::Durable { blockers, target_thread_ids }) => if blockers@.len()
            > 0 {
            quiescence_blocked(next.stage, a, blockers@[0]@)
        } else {
            next.stage is LiveBefore && next.target_thread_ids == target_thread_ids && a is Observe
        },
        (QuiescenceStage::LiveBefore, QuiescenceEvent::Observed(o)) => next.target_thread_ids == run.target_thread_ids
            && match blocker_of(o) {
            Some(reason) => quiescence_blocked(next.stage, a, reason),
            None => next.stage == QuiescenceStage::DurableAfter(o) && a is ReadDurable,
        },
        (QuiescenceStage::DurableAfter(before), QuiescenceEvent::DurableAgain { unchanged }) => next.target_thread_ids
            == run.target_thread_ids && if unchanged {
            next.stage == QuiescenceStage::LiveAfter(before) && a is Observe
        } else {
            quiescence_blocked(next.stage, a, DURABLE_CHANGED@)
        },
        (QuiescenceStage::LiveAfter(before), QuiescenceEvent::Observed(after)) => next.target_thread_ids
            == run.target_thread_ids && if same_observation(before, after) {
            next.stage is Finished && a == QuiescenceAction::Finish(LiveDrainState::Ready)
        } else {
            quiescence_blocked(next.stage, a, RESIDENT_CHANGED@)
        },
        _ => false,
    }
}

fn blocked(reason: String) -> (r: (QuiescenceStage, QuiescenceAction))
    ensures
        quiescence_blocked(r.0, r.1, reason@),
{
    (QuiescenceStage::Finished, QuiescenceAction::Finish(LiveDrainState::Blocked { reason }))
}

impl QuiescenceRun {
    /// A check that reads the durable snapshot first.
    pub fn new() -> (r: Self)
        ensures
            r.stage is DurableBefore,
            r.target_thread_ids@.len() == 0,
    {
        QuiescenceRun { target_thread_ids: Vec::new(), stage: QuiescenceStage::DurableBefore }
    }

    /// Takes the answer to the last action and returns the next one.
    pub fn on(&mut self, event: QuiescenceEvent) -> (a: QuiescenceAction)
        requires
            quiescence_wf(old(self).stage),
            quiescence_expects(old(self).stage, event),
        ensures
            quiescence_wf(final(self).stage),
            quiescence_step(*old(self), event, *final(self), a),
    {
        let mut stage = QuiescenceStage::Finished;
        std::mem::swap(&mut stage, &mut self.stage);
        let (next, action) = match (stage, event) {
            (QuiescenceStage::DurableBefore, QuiescenceEvent::Durable { blockers, target_thread_ids }) => {
                if blockers.len() > 0 {
                    blocked(blockers[0].clone())
                } else {
                    self.target_thread_ids = target_thread_ids;
                    (QuiescenceStage::LiveBefore, QuiescenceAction::Observe)
                }
            },
            (QuiescenceStage::LiveBefore, QuiescenceEvent::Observed(o)) => match o.blocker() {
                Some(reason) => blocked(reason),
                None => (QuiescenceStage::DurableAfter(o), QuiescenceAction::ReadDurable),
            },
            (QuiescenceStage::DurableAfter(before), QuiescenceEvent::DurableAgain { unchanged }) => if unchanged {
                (QuiescenceStage::LiveAfter(before), QuiescenceAction::Observe)
            } else {
                blocked(DURABLE_CHANGED.to_owned())
            },
            (QuiescenceStage::LiveAfter(before), QuiescenceEvent::Observed(after)) => if observations_match(
                &before,
                &after,
            ) {
                (QuiescenceStage::Finished, QuiescenceAction::Finish(LiveDrainState::Ready))
            } else {
                blocked(RESIDENT_CHANGED.to_owned())
            },
            (_, _) => {
                proof {
                    assert(false);
                }
                (QuiescenceStage::Finished, QuiescenceAction::Finish(LiveDrainState::Ready))
            },
        };
        self.stage = next;
        action
    }
}

/// The check finds the runtime ready only on the second observation, after
/// a first observation with no blocker and an unchanged durable snapshot,
/// and only when both observations agree.
pub proof fn law_ready_needs_two_agreeing_quiet_observations(
    run: QuiescenceRun,
    event: QuiescenceEvent,
    next: QuiescenceRun,
    a: QuiescenceAction,
)
    requires
        quiescence_wf(run.stage),
        quiescence_step(run, event, next, a),
        a == QuiescenceAction::Finish(LiveDrainState::Ready),
    ensures
        run.stage is LiveAfter,
        event matches QuiescenceEvent::Observed(after) && (run.stage matches QuiescenceStage::LiveAfter(before)
            && same_observation(before, after) && blocker_of(before) is None && blocker_of(after) is None),
{
    if let (QuiescenceStage::LiveAfter(before), QuiescenceEvent::Observed(after)) = (run.stage, event) {
        if after.active@.len() > 0 {
            assert(before.active@[0].0@ == after.active@[0].0@);
        }
    }
}

} // verus!
