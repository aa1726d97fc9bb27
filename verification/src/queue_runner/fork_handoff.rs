//! App-server-only target selection.

use vstd::prelude::*;

use super::job::{QueueJobRecord, QueueJobState, copy_opt, opt_text, owns_target};
use super::types::QueueRunnerError;
use crate::text::same_text;
use crate::text_order::{sorted_texts, texts_of};

verus! {

/// Shown when a fork handoff was interrupted before its response was recorded.
pub const INTERRUPTED_FORK_ERROR: &'static str =
    "app-server fork handoff was interrupted before a response was durably recorded";

/// The thread that now receives a source thread's requests.
#[derive(Clone, Debug, PartialEq, Eq)]
pub struct AppServerTarget {
    pub thread_id: String,
    pub forked_from: Option<String>,
    pub quarantined_job_id: Option<String>,
}

/// The target of a thread that needs no fork: the thread itself.
pub fn unchanged(thread_id: &str) -> (r: AppServerTarget)
    ensures
        r.thread_id@ == thread_id@,
        r.forked_from is None,
        r.quarantined_job_id is None,
{
    AppServerTarget { thread_id: thread_id.to_owned(), forked_from: None, quarantined_job_id: None }
}

/// The fork error shown to users: the recorded one, or a note that the
/// handoff was interrupted when none was recorded.
pub fn visible_fork_error(error: &str) -> (r: String)
    ensures
        r@ == if error@.len() == 0 {
            INTERRUPTED_FORK_ERROR@
        } else {
            error@
        },
{
    if error.is_empty() {
        INTERRUPTED_FORK_ERROR.to_owned()
    } else {
        error.to_owned()
    }
}

/// A target forked from `source`.
pub open spec fn forked(t: AppServerTarget, target: Seq<char>, source: Seq<char>, quarantined: Option<Seq<char>>) -> bool {
    t.thread_id@ == target && opt_text(t.forked_from) == Some(source) && opt_text(t.quarantined_job_id)
        == quarantined
}

/// The abstract walk: its source, the threads seen, and where it stands.
pub struct ForkChainView {
    pub source: Seq<char>,
    pub seen: Seq<Seq<char>>,
    pub current: Seq<char>,
}

/// A walk along completed fork handoffs, from a source thread to the thread
/// that now receives its requests; a thread met twice is a cycle.
pub struct ForkChain {
    source: String,
    seen: Vec<String>,
    current: String,
}

impl View for ForkChain {
    type V = ForkChainView;

    closed spec fn view(&self) -> ForkChainView {
        ForkChainView { source: self.source@, seen: texts_of(self.seen@), current: self.current@ }
    }
}

impl ForkChain {
    /// The walk has met no thread twice, began at its source and stands at
    /// the last thread met.
    pub closed spec fn wf(&self) -> bool {
        let v = self@;
        &&& v.seen.len() > 0
        &&& v.seen[0] == v.source
        &&& v.seen.last() == v.current
        &&& v.seen.no_duplicates()
    }

    /// A walk that has not left `source`.
    pub fn new(source: &str) -> (r: Self)
        ensures
            r.wf(),
            r@ == (ForkChainView { source: source@, seen: seq![source@], current: source@ }),
    {
        let mut seen: Vec<String> = Vec::new();
        seen.push(source.to_owned());
        let r = ForkChain { source: source.to_owned(), seen, current: source.to_owned() };
        assert(r@.seen =~= seq![source@]);
        r
    }

    /// Where the walk stands.
    pub fn current(&self) -> (r: &str)
        ensures
            r@ == self@.current,
    {
        self.current.as_str()
    }

    fn has_seen(&self, thread: &str) -> (r: bool)
        ensures
            r == self@.seen.contains(thread@),
    {
        let mut i: usize = 0;
        while i < self.seen.len()
            invariant
                i <= self.seen.len(),
                forall|k: int| 0 <= k < i ==> self.seen@[k]@ != thread@,
            decreases self.seen.len() - i,
        {
            if same_text(self.seen[i].as_str(), thread) {
                assert(self@.seen[i as int] == thread@);
                return true;
            }
            i = i + 1;
        }
        proof {
            if self@.seen.contains(thread@) {
                let k = choose|k: int| 0 <= k < self@.seen.len() && self@.seen[k] == thread@;
                assert(self.seen@[k]@ == thread@);
            }
        }
        false
    }

    /// Steps to `next`, the completed fork target of the current thread; a
    /// thread already met is a cycle, and the walk stays where it was.
    pub fn advance(&mut self, next: String) -> (r: Result<(), QueueRunnerError>)
        requires
            old(self).wf(),
        ensures
            final(self).wf(),
            old(self)@.seen.contains(next@) ==> final(self)@ == old(self)@ && (r matches Err(
                QueueRunnerError::ForkTargetCycle { source_thread_id },
            ) && source_thread_id@ == old(self)@.source),
            !old(self)@.seen.contains(next@) ==> r is Ok && final(self)@ == (ForkChainView {
                source: old(self)@.source,
                seen: old(self)@.seen.push(next@),
                current: next@,
            }),
    {
        if self.has_seen(next.as_str()) {
            return Err(QueueRunnerError::ForkTargetCycle { source_thread_id: self.source.clone() });
        }
        let ghost before = self@;
        self.seen.push(next.clone());
        self.current = next;
        assert(self@.seen =~= before.seen.push(self@.current));
        Ok(())
    }

    /// The thread the walk ended at, when it left its source.
    pub fn finish(&self) -> (r: Option<String>)
        requires
            self.wf(),
        ensures
            self@.seen.len() == 1 ==> r is None,
            self@.seen.len() > 1 ==> opt_text(r) == Some(self@.current),
    {
        if same_text(self.current.as_str(), self.source.as_str()) {
            proof {
                if self@.seen.len() > 1 {
                    assert(self@.seen[0] == self@.seen[self@.seen.len() - 1]);
                }
            }
            None
        } else {
            proof {
                if self@.seen.len() == 1 {
                    assert(self@.seen[0] == self@.current);
                }
            }
            Some(self.current.clone())
        }
    }
}

/// A walk never meets a thread twice, so it takes at most as many steps as
/// there are distinct threads: every thread it has met is distinct from the
/// one it would step to next.
pub proof fn law_fork_chain_is_acyclic(before: ForkChainView, next: Seq<char>, after: ForkChainView)
    requires
        before.seen.no_duplicates(),
        !before.seen.contains(next),
        after == (ForkChainView { source: before.source, seen: before.seen.push(next), current: next }),
    ensures
        after.seen.no_duplicates(),
        after.seen.len() == before.seen.len() + 1,
{
    assert forall|i: int, j: int| 0 <= i < j < after.seen.len() implies after.seen[i] != after.seen[j] by {
        if j == before.seen.len() {
            assert(after.seen[i] == before.seen[i]);
        }
    }
}

/// A fork handoff record as the store returns it.
#[derive(Clone, Debug, PartialEq, Eq)]
pub struct ForkHandoffRecord {
    pub handoff_id: String,
    pub ambiguous_job_id: Option<String>,
    pub target_thread_id: Option<String>,
    pub observed_target_thread_id: Option<String>,
    pub last_fork_error: String,
    pub fork_failure_ambiguous: bool,
}

/// Where a fork handoff stands for a caller.
#[derive(Clone, Debug, PartialEq, Eq)]
pub enum HandoffStep {
    /// The handoff is complete: requests go to this target.
    Target(AppServerTarget),
    /// The fork answered with `target`: finalize the handoff with it.
    Finalize { handoff_id: String, target: String },
    /// The handoff is unresolved: its notice is refreshed with `notice` and
    /// `ambiguous`, and the caller gets `QueueRunnerError::UnresolvedForkHandoff`.
    Unresolved { handoff_id: String, notice: String, ambiguous: bool },
}

/// The step for an unresolved handoff `h` whose fork result may or may not
/// be staged.
pub open spec fn unresolved_or_finalize(h: ForkHandoffRecord, s: HandoffStep) -> bool {
    match h.observed_target_thread_id {
        Some(t) => s matches HandoffStep::Finalize { handoff_id, target } && handoff_id@
            == h.handoff_id@ && target@ == t@,
        None => s matches HandoffStep::Unresolved { handoff_id, notice, ambiguous } && handoff_id@
            == h.handoff_id@ && notice@ == (if h.last_fork_error@.len() == 0 {
            INTERRUPTED_FORK_ERROR@
        } else {
            h.last_fork_error@
        }) && ambiguous == (h.fork_failure_ambiguous || h.last_fork_error@.len() == 0),
    }
}

fn unresolved_step(h: &ForkHandoffRecord) -> (r: HandoffStep)
    ensures
        unresolved_or_finalize(*h, r),
{
    match &h.observed_target_thread_id {
        Some(t) => HandoffStep::Finalize { handoff_id: h.handoff_id.clone(), target: t.clone() },
        None => HandoffStep::Unresolved {
            handoff_id: h.handoff_id.clone(),
            notice: visible_fork_error(h.last_fork_error.as_str()),
            ambiguous: h.fork_failure_ambiguous || h.last_fork_error.as_str().is_empty(),
        },
    }
}

/// An unresolved handoff is re-announced with the failure its fork
/// recorded: a fork failure recorded as ambiguous stays ambiguous, a
/// handoff interrupted before any failure was recorded is ambiguous with
/// the interruption notice, and only a recorded definite failure is
/// re-announced as definite, with its own message.
pub proof fn law_unresolved_handoff_keeps_its_ambiguity(h: ForkHandoffRecord, s: HandoffStep)
    requires
        unresolved_or_finalize(h, s),
        h.observed_target_thread_id is None,
    ensures
        s matches HandoffStep::Unresolved { handoff_id, notice, ambiguous } && handoff_id@ == h.handoff_id@ && (
        h.fork_failure_ambiguous ==> ambiguous) && (h.last_fork_error@.len() == 0 ==> ambiguous && notice@
            == INTERRUPTED_FORK_ERROR@) && (h.last_fork_error@.len() > 0 ==> notice@ == h.last_fork_error@ && (
        ambiguous <==> h.fork_failure_ambiguous)),
{
}

/// The step for an unresolved handoff of the source found before any new
/// fork: a staged fork result is finalized, otherwise the caller is fenced.
pub fn existing_handoff_step(h: &ForkHandoffRecord) -> (r: HandoffStep)
    ensures
        unresolved_or_finalize(*h, r),
        r matches HandoffStep::Unresolved { ambiguous, .. } ==> (h.fork_failure_ambiguous ==> ambiguous),
{
    unresolved_step(h)
}

/// The step for a handoff another request had already begun for `source`:
/// its completed target, else its staged fork result, else the fence.
pub fn begun_handoff_step(source: &str, h: &ForkHandoffRecord) -> (r: HandoffStep)
    ensures
        r matches HandoffStep::Unresolved { ambiguous, .. } ==> (h.fork_failure_ambiguous ==> ambiguous),
        match h.target_thread_id {
            Some(t) => r matches HandoffStep::Target(a) && forked(a, t@, source@, opt_text(h.ambiguous_job_id)),
            None => unresolved_or_finalize(*h, r),
        },
{
    match &h.target_thread_id {
        Some(t) => HandoffStep::Target(AppServerTarget {
            thread_id: t.clone(),
            forked_from: Some(source.to_owned()),
            quarantined_job_id: copy_opt(&h.ambiguous_job_id),
        }),
        None => unresolved_step(h),
    }
}

/// The target of `source` at the end of its completed fork chain.
pub fn chained_target(source: &str, target: String) -> (r: AppServerTarget)
    ensures
        forked(r, target@, source@, None),
{
    AppServerTarget { thread_id: target, forked_from: Some(source.to_owned()), quarantined_job_id: None }
}

/// The target a handoff request settles before any handoff record is read:
/// a backend that does not fork keeps the source itself, and a completed
/// fork chain gives the thread at its end; `None` means the source's
/// handoff records decide.
pub fn handoff_entry(source: &str, requires_fork: bool, completed_chain: Option<String>) -> (r: Option<AppServerTarget>)
    ensures
        !requires_fork ==> (r matches Some(t) && t.thread_id@ == source@ && t.forked_from is None
            && t.quarantined_job_id is None),
        requires_fork ==> match completed_chain {
            Some(c) => r matches Some(t) && forked(t, c@, source@, None),
            None => r is None,
        },
{
    if !requires_fork {
        return Some(unchanged(source));
    }
    match completed_chain {
        Some(c) => Some(chained_target(source, c)),
        None => None,
    }
}

/// With no unresolved handoff, a target that the app-server already manages
/// keeps its thread unless the fork is forced.
pub fn keeps_managed_target(force: bool, managed: bool) -> (r: bool)
    ensures
        r == (!force && managed),
{
    !force && managed
}

/// The first starting job of the source, whose attempt a new handoff
/// quarantines, and the generation the handoff expects: that job's, or the
/// current one.
pub fn handoff_basis(jobs: &[QueueJobRecord], current_generation: i64) -> (r: (Option<usize>, i64))
    ensures
        match r.0 {
            Some(i) => i < jobs.len() && jobs@[i as int].state == QueueJobState::Starting
                && (forall|k: int| 0 <= k < i ==> (#[trigger] jobs@[k]).state != QueueJobState::Starting)
                && r.1 == jobs@[i as int].app_server_generation,
            None => (forall|k: int| 0 <= k < jobs.len() ==> (#[trigger] jobs@[k]).state
                != QueueJobState::Starting) && r.1 == current_generation,
        },
{
    let mut i: usize = 0;
    while i < jobs.len()
        invariant
            i <= jobs.len(),
            forall|k: int| 0 <= k < i ==> (#[trigger] jobs@[k]).state != QueueJobState::Starting,
        decreases jobs.len() - i,
    {
        if jobs[i].state == QueueJobState::Starting {
            return (Some(i), jobs[i].app_server_generation);
        }
        i = i + 1;
    }
    (None, current_generation)
}

/// A writer conflict may be moved to a fork only when the target has jobs
/// and none of them is starting or running.
pub fn writer_conflict_movable(jobs: &[QueueJobRecord]) -> (r: bool)
    ensures
        r == (jobs.len() > 0 && forall|k: int| 0 <= k < jobs.len() ==> !owns_target(
            (#[trigger] jobs@[k]).state,
        )),
{
    if jobs.len() == 0 {
        return false;
    }
    let mut i: usize = 0;
    while i < jobs.len()
        invariant
            i <= jobs.len(),
            forall|k: int| 0 <= k < i ==> !owns_target((#[trigger] jobs@[k]).state),
        decreases jobs.len() - i,
    {
        if jobs[i].state == QueueJobState::Starting || jobs[i].state == QueueJobState::Running {
            return false;
        }
        i = i + 1;
    }
    true
}

/// Some job of `target` that is not quarantined is starting or running.
pub open spec fn target_owned(jobs: Seq<QueueJobRecord>, target: Seq<char>) -> bool {
    exists|j: int|
        0 <= j < jobs.len() && (#[trigger] jobs[j]).target_thread_id@ == target && jobs[j].state
            != QueueJobState::Quarantined && owns_target(jobs[j].state)
}

/// The target names of a list of targets and flags.
pub open spec fn targets_of(r: Seq<(String, bool)>) -> Seq<Seq<char>> {
    r.map_values(|p: (String, bool)| p.0@)
}

/// The targets of jobs that are not quarantined, sorted, each with whether
/// one of its jobs is starting or running.
pub fn unmanaged_candidates(jobs: &[QueueJobRecord]) -> (r: Vec<(String, bool)>)
    ensures
        sorted_texts(targets_of(r@)),
        forall|x: Seq<char>| #[trigger] targets_of(r@).contains(x)
            <==> super::recovery::is_recovery_target(x, jobs@),
        forall|k: int| 0 <= k < r.len() ==> (#[trigger] r@[k]).1 == target_owned(jobs@, r@[k].0@),
{
    let targets = super::recovery::recovery_targets(jobs);
    let mut out: Vec<(String, bool)> = Vec::new();
    let mut i: usize = 0;
    while i < targets.len()
        invariant
            i <= targets.len(),
            out.len() == i,
            forall|k: int| 0 <= k < i ==> (#[trigger] out@[k]).0@ == targets@[k]@,
            forall|k: int| 0 <= k < i ==> (#[trigger] out@[k]).1 == target_owned(jobs@, out@[k].0@),
        decreases targets.len() - i,
    {
        let t = targets[i].as_str();
        let mut owned = false;
        let mut j: usize = 0;
        while j < jobs.len()
            invariant
                j <= jobs.len(),
                owned == exists|m: int| 0 <= m < j && (#[trigger] jobs@[m]).target_thread_id@ == t@
                    && jobs@[m].state != QueueJobState::Quarantined && owns_target(jobs@[m].state),
            decreases jobs.len() - j,
        {
            if same_text(jobs[j].target_thread_id.as_str(), t) && (jobs[j].state == QueueJobState::Starting
                || jobs[j].state == QueueJobState::Running) {
                owned = true;
            }
            j = j + 1;
        }
        out.push((targets[i].clone(), owned));
        i = i + 1;
    }
    assert(targets_of(out@) =~= texts_of(targets@));
    out
}

/// A target is prepared for app-server-only operation unless one of its jobs
/// is starting or running with no unresolved handoff to finish.
pub fn needs_fork_preparation(has_unresolved_handoff: bool, owned: bool) -> (r: bool)
    ensures
        r == (has_unresolved_handoff || !owned),
{
    has_unresolved_handoff || !owned
}

/// How a failed fork request is recorded.
#[derive(Clone, Copy, Debug, PartialEq, Eq)]
pub enum ForkFailureRecord {
    /// The fork may have happened: record the failure and keep the fence.
    KeepFenced,
    /// The fork certainly did not happen: record it and cancel the handoff.
    Cancel,
}

/// An ambiguous fork failure keeps the handoff fenced; a definite one
/// cancels it.
pub fn fork_failure_record(ambiguous: bool) -> (r: ForkFailureRecord)
    ensures
        ambiguous ==> r == ForkFailureRecord::KeepFenced,
        !ambiguous ==> r == ForkFailureRecord::Cancel,
{
    if ambiguous {
        ForkFailureRecord::KeepFenced
    } else {
        ForkFailureRecord::Cancel
    }
}

/// The target of a finalized handoff: the fork, with the job it quarantined.
pub fn finalized_target(source: &str, target: &str, quarantined_job_id: Option<String>) -> (r: AppServerTarget)
    ensures
        forked(r, target@, source@, opt_text(quarantined_job_id)),
{
    AppServerTarget {
        thread_id: target.to_owned(),
        forked_from: Some(source.to_owned()),
        quarantined_job_id,
    }
}

} // verus!
