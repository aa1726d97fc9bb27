//! Startup recovery bookkeeping of the durable queue.

use std::collections::BTreeSet;

use vstd::prelude::*;

use super::job::{QueueJobRecord, QueueJobState};
use super::types::{TurnRecord, TurnStatus};
use crate::text::{chars_of, has_prefix, same_text, starts_with};
use crate::text_order::{insert_sorted, sorted_texts, texts_of};
use super::unavailable_log::UnavailableTargetLogState;

verus! {

/// What one recovery pass did.
#[derive(Clone, Debug, Default, PartialEq, Eq)]
pub struct RecoveryReport {
    pub adopted: usize,
    pub recovered_running: usize,
    pub requeued: usize,
    pub completed: usize,
    pub unresolved: usize,
    pub started: usize,
    /// Targets for which authoritative `thread/read` failed.
    pub read_unavailable_targets: BTreeSet<String>,
    /// Targets for which a writer-only resume/start operation failed.
    pub mutation_unavailable_targets: BTreeSet<String>,
    /// Union of read and mutation failures.
    pub unavailable_targets: BTreeSet<String>,
    pub active_writer_targets: BTreeSet<String>,
}

/// The status recorded for `turn_id` among `turns`: the first match.
pub open spec fn status_of(turns: Seq<TurnRecord>, turn_id: Seq<char>) -> Option<TurnStatus>
    decreases turns.len(),
{
    if turns.len() == 0 {
        None
    } else if turns[0].turn_id@ == turn_id {
        Some(turns[0].status)
    } else {
        status_of(turns.drop_first(), turn_id)
    }
}

/// The status of `turn_id` in the thread's turns, if it is there.
pub fn turn_status(turns: &[TurnRecord], turn_id: &str) -> (r: Option<TurnStatus>)
    ensures
        r == status_of(turns@, turn_id@),
{
    let mut i: usize = 0;
    assert(turns@.subrange(0, turns.len() as int) =~= turns@);
    while i < turns.len()
        invariant
            i <= turns.len(),
            status_of(turns@, turn_id@) == status_of(turns@.subrange(i as int, turns.len() as int), turn_id@),
        decreases turns.len() - i,
    {
        let ghost rest = turns@.subrange(i as int, turns.len() as int);
        assert(rest[0] == turns@[i as int]);
        if same_text(turns[i].turn_id.as_str(), turn_id) {
            return Some(turns[i].status);
        }
        assert(rest.drop_first() =~= turns@.subrange(i + 1, turns.len() as int));
        i = i + 1;
    }
    None
}

/// Whether a running job stays unresolved after recovery reads its thread:
/// it does unless its turn is still in progress. A finished turn waits for
/// the completion worker to stage the reply first.
pub fn running_job_unresolved(turn_id: &Option<String>, turns: &[TurnRecord]) -> (r: bool)
    ensures
        r == match turn_id {
            None => true,
            Some(t) => status_of(turns@, t@) != Some(TurnStatus::InProgress),
        },
{
    match turn_id {
        None => true,
        Some(t) => match turn_status(turns, t.as_str()) {
            Some(TurnStatus::InProgress) => false,
            _ => true,
        },
    }
}

/// Number of jobs of `target` among `jobs[..n]` that are not quarantined.
pub open spec fn affected_count(jobs: Seq<QueueJobRecord>, target: Seq<char>, n: int) -> nat
    decreases n,
{
    if n <= 0 {
        0
    } else {
        affected_count(jobs, target, n - 1) + if jobs[n - 1].target_thread_id@ == target
            && jobs[n - 1].state != QueueJobState::Quarantined {
            1nat
        } else {
            0nat
        }
    }
}

/// How many jobs an unavailable target leaves unresolved: its jobs that are
/// not quarantined.
pub fn affected_jobs(jobs: &[QueueJobRecord], target: &str) -> (r: usize)
    ensures
        r == affected_count(jobs@, target@, jobs.len() as int),
{
    let mut count: usize = 0;
    let mut i: usize = 0;
    while i < jobs.len()
        invariant
            i <= jobs.len(),
            count == affected_count(jobs@, target@, i as int),
            count <= i,
        decreases jobs.len() - i,
    {
        if same_text(jobs[i].target_thread_id.as_str(), target) && jobs[i].state
            != QueueJobState::Quarantined {
            count = count + 1;
        }
        i = i + 1;
    }
    count
}

/// A turn that may be the start of a job: it appears in the thread's turns
/// and not in the job's baseline.
pub open spec fn is_candidate(x: Seq<char>, baseline: Seq<String>, turns: Seq<TurnRecord>) -> bool {
    (exists|j: int| 0 <= j < turns.len() && (#[trigger] turns[j]).turn_id@ == x) && !texts_of(
        baseline,
    ).contains(x)
}

fn in_baseline(baseline: &[String], id: &str) -> (r: bool)
    ensures
        r == texts_of(baseline@).contains(id@),
{
    let mut i: usize = 0;
    while i < baseline.len()
        invariant
            i <= baseline.len(),
            forall|k: int| 0 <= k < i ==> baseline@[k]@ != id@,
        decreases baseline.len() - i,
    {
        if same_text(baseline[i].as_str(), id) {
            assert(texts_of(baseline@)[i as int] == id@);
            return true;
        }
        i = i + 1;
    }
    proof {
        if texts_of(baseline@).contains(id@) {
            let k = choose|k: int| 0 <= k < baseline.len() && texts_of(baseline@)[k] == id@;
            assert(baseline@[k]@ == id@);
        }
    }
    false
}

/// The turns that may have started a job, sorted and without repeats: the
/// thread's turns that are not in the job's baseline.
pub fn candidate_turn_ids(baseline: &[String], turns: &[TurnRecord]) -> (r: Vec<String>)
    ensures
        sorted_texts(texts_of(r@)),
        forall|x: Seq<char>| #[trigger] texts_of(r@).contains(x) <==> is_candidate(x, baseline@, turns@),
{
    let mut out: Vec<String> = Vec::new();
    let mut i: usize = 0;
    assert(texts_of(out@) =~= Seq::<Seq<char>>::empty());
    while i < turns.len()
        invariant
            i <= turns.len(),
            sorted_texts(texts_of(out@)),
            forall|x: Seq<char>| #[trigger] texts_of(out@).contains(x) <==> ((exists|j: int|
                0 <= j < i && (#[trigger] turns@[j]).turn_id@ == x) && !texts_of(baseline@).contains(x)),
        decreases turns.len() - i,
    {
        let id = &turns[i].turn_id;
        if !in_baseline(baseline, id.as_str()) {
            insert_sorted(&mut out, id.clone());
        }
        proof {
            assert forall|x: Seq<char>| #[trigger] texts_of(out@).contains(x) <==> ((exists|j: int|
                0 <= j < i + 1 && (#[trigger] turns@[j]).turn_id@ == x) && !texts_of(baseline@).contains(x)) by {
                if x == turns@[i as int].turn_id@ {
                    assert(turns@[i as int].turn_id@ == x);
                }
                if exists|j: int| 0 <= j < i + 1 && (#[trigger] turns@[j]).turn_id@ == x {
                    let j = choose|j: int| 0 <= j < i + 1 && (#[trigger] turns@[j]).turn_id@ == x;
                    if j < i {
                        assert(turns@[j].turn_id@ == x);
                    }
                }
            }
        }
        i = i + 1;
    }
    out
}

/// Store message of a start whose first-turn acceptance cannot be decided.
pub const FIRST_TURN_UNKNOWN: &'static str =
    "new first-turn acceptance remains unknown; empty history does not authorize retry";

/// Store message of a start whose generation ended before any turn appeared.
pub const GENERATION_ENDED: &'static str = "previous app-server generation ended before a turn appeared";

/// What recovery does with a job left starting.
#[derive(Clone, Debug, PartialEq, Eq)]
pub enum StartingStep {
    /// Hold the job on these candidate turns; it stays unresolved.
    HoldCandidates(Vec<String>),
    /// The start attempt may still be in flight; it stays unresolved.
    LeaseActive,
    /// The one candidate turn is the job's: mark it running.
    MarkRunning(String),
    /// No turn appeared and the generation ended: the new-reply record decides.
    CheckFirstTurn,
    /// Nothing can be decided yet; it stays unresolved.
    Unresolved,
}

/// A starting step in the abstract, with the turn it adopts.
pub enum StartingPlan {
    Hold,
    Lease,
    Adopt(Seq<char>),
    CheckFirstTurn,
    Unresolved,
}

/// The step for a starting job with the given candidate turns.
pub open spec fn starting_spec(
    held: bool,
    lease_active: bool,
    candidates: Seq<Seq<char>>,
    ended: bool,
) -> StartingPlan {
    if held {
        StartingPlan::Hold
    } else if lease_active {
        StartingPlan::Lease
    } else if candidates.len() == 1 {
        StartingPlan::Adopt(candidates[0])
    } else if candidates.len() == 0 && ended {
        StartingPlan::CheckFirstTurn
    } else if candidates.len() > 1 {
        StartingPlan::Hold
    } else {
        StartingPlan::Unresolved
    }
}

/// The abstract value of a step.
pub open spec fn step_view(s: StartingStep) -> StartingPlan {
    match s {
        StartingStep::HoldCandidates(_) => StartingPlan::Hold,
        StartingStep::LeaseActive => StartingPlan::Lease,
        StartingStep::MarkRunning(t) => StartingPlan::Adopt(t@),
        StartingStep::CheckFirstTurn => StartingPlan::CheckFirstTurn,
        StartingStep::Unresolved => StartingPlan::Unresolved,
    }
}

/// Recovery of a job left starting, given its last error, whether its start
/// lease is still running, its candidate turns, whether the target is cold
/// and its generation: a job held on candidates stays held; a live lease
/// waits; one candidate is adopted; no candidate after the generation ended
/// is decided by the new-reply record; several candidates hold the job.
pub fn starting_step(
    last_error: &str,
    hold_prefix: &str,
    lease_active: bool,
    candidates: Vec<String>,
    cold: bool,
    job_generation: i64,
    generation: i64,
) -> (r: StartingStep)
    ensures
        step_view(r) == starting_spec(
            has_prefix(last_error@, hold_prefix@),
            lease_active,
            texts_of(candidates@),
            cold || job_generation != generation,
        ),
        r matches StartingStep::HoldCandidates(c) ==> c@ == candidates@,
        has_prefix(last_error@, hold_prefix@) ==> r is HoldCandidates,
        !has_prefix(last_error@, hold_prefix@) && lease_active ==> r is LeaseActive,
        r matches StartingStep::MarkRunning(t) ==> !lease_active && candidates@.len() == 1 && t@ == candidates@[0]@,
        r is CheckFirstTurn ==> !lease_active && candidates@.len() == 0 && (cold || job_generation != generation),
{
    if starts_with(&chars_of(last_error), &chars_of(hold_prefix)) {
        return StartingStep::HoldCandidates(candidates);
    }
    if lease_active {
        return StartingStep::LeaseActive;
    }
    let n = candidates.len();
    if n == 1 {
        let mut candidates = candidates;
        let only = candidates.remove(0);
        return StartingStep::MarkRunning(only);
    }
    if n == 0 && (cold || job_generation != generation) {
        return StartingStep::CheckFirstTurn;
    }
    if n > 1 {
        return StartingStep::HoldCandidates(candidates);
    }
    StartingStep::Unresolved
}

/// Recovery of a starting job respects its start lease and candidate hold:
/// a job on a candidate hold stays held; otherwise, while its start lease
/// is active it waits, whatever the candidate turns and generation say; a
/// turn is adopted only with the lease over and exactly that one candidate
/// visible; the new-reply record (which can requeue the job) is consulted
/// only with the lease over, no candidate visible and the generation ended.
pub proof fn law_active_lease_waits(held: bool, lease_active: bool, candidates: Seq<Seq<char>>, ended: bool)
    ensures
        held ==> starting_spec(held, lease_active, candidates, ended) == StartingPlan::Hold,
        !held && lease_active ==> starting_spec(held, lease_active, candidates, ended) == StartingPlan::Lease,
        starting_spec(held, lease_active, candidates, ended) matches StartingPlan::Adopt(t) ==> !held && !lease_active
            && candidates.len() == 1 && t == candidates[0],
        starting_spec(held, lease_active, candidates, ended) == StartingPlan::CheckFirstTurn ==> !held && !lease_active
            && candidates.len() == 0 && ended,
        !held && !lease_active && candidates.len() > 1 ==> starting_spec(held, lease_active, candidates, ended)
            == StartingPlan::Hold,
        starting_spec(held, lease_active, candidates, ended) == StartingPlan::Unresolved ==> !held && !lease_active
            && candidates.len() == 0 && !ended,
{
}

/// What recovery does with a starting job whose generation ended with no
/// turn in sight.
#[derive(Clone, Copy, Debug, PartialEq, Eq)]
pub enum FirstTurnStep {
    /// Record that the first-turn acceptance is unknown; it stays unresolved.
    RecordUnknown,
    /// Leave it unresolved.
    Unresolved,
    /// Record that the generation ended, which requeues the job.
    Requeue,
}

/// A first turn that is still awaited leaves the job unresolved, recording
/// that once; otherwise the job is requeued.
pub fn first_turn_step(reply_awaits_turn: bool, last_error: &str) -> (r: FirstTurnStep)
    ensures
        reply_awaits_turn && last_error@.len() == 0 ==> r == FirstTurnStep::RecordUnknown,
        reply_awaits_turn && last_error@.len() > 0 ==> r == FirstTurnStep::Unresolved,
        !reply_awaits_turn ==> r == FirstTurnStep::Requeue,
{
    if reply_awaits_turn {
        if last_error.is_empty() {
            FirstTurnStep::RecordUnknown
        } else {
            FirstTurnStep::Unresolved
        }
    } else {
        FirstTurnStep::Requeue
    }
}

/// A target recovery visits: one with a job that is not quarantined.
pub open spec fn is_recovery_target(x: Seq<char>, jobs: Seq<QueueJobRecord>) -> bool {
    exists|j: int|
        0 <= j < jobs.len() && (#[trigger] jobs[j]).target_thread_id@ == x && jobs[j].state
            != QueueJobState::Quarantined
}

/// The targets recovery visits, sorted and without repeats.
pub fn recovery_targets(jobs: &[QueueJobRecord]) -> (r: Vec<String>)
    ensures
        sorted_texts(texts_of(r@)),
        forall|x: Seq<char>| #[trigger] texts_of(r@).contains(x) <==> is_recovery_target(x, jobs@),
{
    let mut out: Vec<String> = Vec::new();
    let mut i: usize = 0;
    assert(texts_of(out@) =~= Seq::<Seq<char>>::empty());
    while i < jobs.len()
        invariant
            i <= jobs.len(),
            sorted_texts(texts_of(out@)),
            forall|x: Seq<char>| #[trigger] texts_of(out@).contains(x) <==> exists|j: int|
                0 <= j < i && (#[trigger] jobs@[j]).target_thread_id@ == x && jobs@[j].state
                    != QueueJobState::Quarantined,
        decreases jobs.len() - i,
    {
        if jobs[i].state != QueueJobState::Quarantined {
            insert_sorted(&mut out, jobs[i].target_thread_id.clone());
        }
        proof {
            assert forall|x: Seq<char>| #[trigger] texts_of(out@).contains(x) <==> exists|j: int|
                0 <= j < i + 1 && (#[trigger] jobs@[j]).target_thread_id@ == x && jobs@[j].state
                    != QueueJobState::Quarantined by {
                if x == jobs@[i as int].target_thread_id@ && jobs@[i as int].state != QueueJobState::Quarantined {
                    assert(jobs@[i as int].target_thread_id@ == x);
                }
                if exists|j: int| 0 <= j < i + 1 && (#[trigger] jobs@[j]).target_thread_id@ == x
                    && jobs@[j].state != QueueJobState::Quarantined {
                    let j = choose|j: int| 0 <= j < i + 1 && (#[trigger] jobs@[j]).target_thread_id@ == x
                        && jobs@[j].state != QueueJobState::Quarantined;
                    if j < i {
                        assert(jobs@[j].target_thread_id@ == x);
                    }
                }
            }
        }
        i = i + 1;
    }
    out
}

/// Recovery state shared by the passes: whether a pass ran yet, and the
/// targets not yet reconciled since startup.
pub struct RecoveryState {
    initialized: bool,
    cold_targets: Vec<String>,
}

impl RecoveryState {
    /// Whether a recovery pass has begun.
    pub closed spec fn started(&self) -> bool {
        self.initialized
    }

    /// The targets that have not been reconciled since startup.
    pub closed spec fn cold(&self) -> Seq<Seq<char>> {
        texts_of(self.cold_targets@)
    }

    /// The cold targets are sorted and distinct.
    pub closed spec fn wf(&self) -> bool {
        sorted_texts(texts_of(self.cold_targets@))
    }

    /// No pass has run and no target is cold.
    pub fn new() -> (r: Self)
        ensures
            r.wf(),
            !r.started(),
            r.cold() == Seq::<Seq<char>>::empty(),
    {
        let r = RecoveryState { initialized: false, cold_targets: Vec::new() };
        assert(r.cold() =~= Seq::<Seq<char>>::empty());
        r
    }

    /// Begins a pass over `targets`: the logged failures of other targets
    /// are forgotten, and the first pass marks every target cold.
    pub fn initialize(&mut self, targets: &[String], logs: &mut UnavailableTargetLogState)
        requires
            old(self).wf(),
        ensures
            final(self).wf(),
            final(self).started(),
            old(self).started() ==> final(self).cold() == old(self).cold(),
            !old(self).started() ==> forall|x: Seq<char>| #[trigger] final(self).cold().contains(x) <==> (old(
                self,
            ).cold().contains(x) || texts_of(targets@).contains(x)),
            forall|t: Seq<char>| final(logs).failure(t) == if super::unavailable_log::listed(targets@, t) {
                old(logs).failure(t)
            } else {
                None
            },
    {
        logs.retain_targets(targets);
        if !self.initialized {
            self.initialized = true;
            let mut i: usize = 0;
            let ghost start = texts_of(self.cold_targets@);
            while i < targets.len()
                invariant
                    i <= targets.len(),
                    self.initialized,
                    sorted_texts(texts_of(self.cold_targets@)),
                    forall|x: Seq<char>| #[trigger] texts_of(self.cold_targets@).contains(x) <==> (start.contains(x)
                        || texts_of(targets@.subrange(0, i as int)).contains(x)),
                decreases targets.len() - i,
            {
                insert_sorted(&mut self.cold_targets, targets[i].clone());
                proof {
                    let before = texts_of(targets@.subrange(0, i as int));
                    let after = texts_of(targets@.subrange(0, i + 1));
                    assert(after =~= before.push(targets@[i as int]@));
                    assert forall|x: Seq<char>| after.contains(x) <==> (before.contains(x) || x == targets@[i as int]@) by {
                        if after.contains(x) {
                            let k = choose|k: int| 0 <= k < after.len() && after[k] == x;
                            if k < before.len() {
                                assert(before[k] == x);
                            }
                        }
                        if before.contains(x) {
                            let k = choose|k: int| 0 <= k < before.len() && before[k] == x;
                            assert(after[k] == x);
                        }
                        if x == targets@[i as int]@ {
                            assert(after[i as int] == x);
                        }
                    }
                }
                i = i + 1;
            }
            assert(targets@.subrange(0, targets.len() as int) =~= targets@);
        }
    }

    /// Whether `target` has not been reconciled since startup.
    pub fn is_cold(&self, target: &str) -> (r: bool)
        ensures
            r == self.cold().contains(target@),
    {
        let mut i: usize = 0;
        while i < self.cold_targets.len()
            invariant
                i <= self.cold_targets.len(),
                forall|k: int| 0 <= k < i ==> self.cold_targets@[k]@ != target@,
            decreases self.cold_targets.len() - i,
        {
            if same_text(self.cold_targets[i].as_str(), target) {
                assert(self.cold()[i as int] == target@);
                return true;
            }
            i = i + 1;
        }
        proof {
            if self.cold().contains(target@) {
                let k = choose|k: int| 0 <= k < self.cold().len() && self.cold()[k] == target@;
                assert(self.cold_targets@[k]@ == target@);
            }
        }
        false
    }

    /// `target` was reconciled: it is no longer cold.
    pub fn mark_reconciled(&mut self, target: &str)
        requires
            old(self).wf(),
        ensures
            final(self).wf(),
            final(self).started() == old(self).started(),
            forall|x: Seq<char>| #[trigger] final(self).cold().contains(x) <==> (old(self).cold().contains(x) && x
                != target@),
    {
        let mut i: usize = 0;
        while i < self.cold_targets.len()
            invariant
                i <= self.cold_targets.len(),
                self.cold_targets@ == old(self).cold_targets@,
                self.initialized == old(self).initialized,
                sorted_texts(texts_of(self.cold_targets@)),
                forall|k: int| 0 <= k < i ==> self.cold_targets@[k]@ != target@,
            decreases self.cold_targets.len() - i,
        {
            if same_text(self.cold_targets[i].as_str(), target) {
                let ghost old_t = texts_of(self.cold_targets@);
                self.cold_targets.remove(i);
                proof {
                    let t = texts_of(self.cold_targets@);
                    assert(t =~= old_t.remove(i as int));
                    assert forall|p: int, q: int| 0 <= p < q < t.len() implies crate::text_order::text_before(
                        #[trigger] t[p],
                        #[trigger] t[q],
                    ) by {
                        let pp = if p < i { p } else { p + 1 };
                        let qq = if q < i { q } else { q + 1 };
                        assert(t[p] == old_t[pp] && t[q] == old_t[qq]);
                    }
                    assert forall|x: Seq<char>| #[trigger] t.contains(x) <==> (old_t.contains(x) && x != target@) by {
                        if t.contains(x) {
                            let k = choose|k: int| 0 <= k < t.len() && t[k] == x;
                            let kk = if k < i { k } else { k + 1 };
                            assert(old_t[kk] == x);
                            if x == target@ {
                                assert(old_t[i as int] == target@);
                                if kk < i {
                                    assert(crate::text_order::text_before(old_t[kk], old_t[i as int]));
                                } else {
                                    assert(crate::text_order::text_before(old_t[i as int], old_t[kk]));
                                }
                                crate::text_order::lemma_text_irreflexive(x);
                            }
                        }
                        if old_t.contains(x) && x != target@ {
                            let k = choose|k: int| 0 <= k < old_t.len() && old_t[k] == x;
                            assert(k != i);
                            if k < i {
                                assert(t[k] == x);
                            } else {
                                assert(t[k - 1] == x);
                            }
                        }
                    }
                }
                return;
            }
            i = i + 1;
        }
        proof {
            assert forall|x: Seq<char>| #[trigger] self.cold().contains(x) implies x != target@ by {
                let k = choose|k: int| 0 <= k < self.cold().len() && self.cold()[k] == x;
                assert(self.cold_targets@[k]@ == x);
            }
        }
    }
}

/// Recovery observes a target only while one of its jobs is starting or
/// running.
pub fn needs_observation(jobs: &[QueueJobRecord]) -> (r: bool)
    ensures
        r == exists|k: int| 0 <= k < jobs.len() && super::job::owns_target((#[trigger] jobs@[k]).state),
{
    let mut i: usize = 0;
    while i < jobs.len()
        invariant
            i <= jobs.len(),
            forall|k: int| 0 <= k < i ==> !super::job::owns_target((#[trigger] jobs@[k]).state),
        decreases jobs.len() - i,
    {
        if jobs[i].state == QueueJobState::Starting || jobs[i].state == QueueJobState::Running {
            return true;
        }
        i = i + 1;
    }
    false
}

/// The failure recorded for a target whose fork handoff is unresolved: a
/// second fork is fenced until it resolves.
pub fn fenced_handoff_failure(handoff_id: &str) -> (r: super::types::BackendFailure)
    ensures
        super::types::failure_is(
            r,
            "app-server fork handoff "@ + handoff_id@ + " is unresolved; duplicate fork retry is fenced"@,
            false,
            super::types::BackendFailureKind::Other,
        ),
{
    let mut m = chars_of("app-server fork handoff ");
    crate::text::push_all(&mut m, &chars_of(handoff_id));
    crate::text::push_all(&mut m, &chars_of(" is unresolved; duplicate fork retry is fenced"));
    super::types::BackendFailure::definite(crate::text::string_of(&m))
}

/// The turn ids a start attempt records as its baseline.
pub fn baseline_turn_ids(turns: &[TurnRecord]) -> (r: Vec<String>)
    ensures
        texts_of(r@) == turns@.map_values(|t: TurnRecord| t.turn_id@),
{
    let mut out: Vec<String> = Vec::new();
    let mut i: usize = 0;
    while i < turns.len()
        invariant
            i <= turns.len(),
            out.len() == i,
            texts_of(out@) == turns@.subrange(0, i as int).map_values(|t: TurnRecord| t.turn_id@),
        decreases turns.len() - i,
    {
        let id = turns[i].turn_id.clone();
        let ghost before = out@;
        out.push(id);
        proof {
            let a = texts_of(out@);
            let b = turns@.subrange(0, i + 1).map_values(|t: TurnRecord| t.turn_id@);
            assert(a.len() == b.len());
            assert forall|k: int| 0 <= k < a.len() implies a[k] == b[k] by {
                if k < i {
                    assert(out@[k] == before[k]);
                    assert(texts_of(before)[k] == turns@.subrange(0, i as int).map_values(|t: TurnRecord| t.turn_id@)[k]);
                }
            }
            assert(a =~= b);
        }
        i = i + 1;
    }
    assert(turns@.subrange(0, turns.len() as int) =~= turns@);
    out
}

} // verus!
