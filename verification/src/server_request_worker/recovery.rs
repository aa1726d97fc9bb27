//! Retry schedule and generation checks of the server-request worker.
//! Times are milliseconds on one monotonic clock.

use vstd::prelude::*;

verus! {

/// Backoff delays in milliseconds: 1, 2, 4, 8, 16, then 30 seconds.
pub open spec fn retry_delay_ms(failures: nat) -> u64 {
    if failures == 0 {
        1_000
    } else if failures == 1 {
        2_000
    } else if failures == 2 {
        4_000
    } else if failures == 3 {
        8_000
    } else if failures == 4 {
        16_000
    } else {
        30_000
    }
}

/// The longest backoff delay.
pub const MAX_RETRY_DELAY_MS: u64 = 30_000;

fn delay_for(failures: usize) -> (r: u64)
    ensures
        r == retry_delay_ms(failures as nat),
{
    if failures == 0 {
        1_000
    } else if failures == 1 {
        2_000
    } else if failures == 2 {
        4_000
    } else if failures == 3 {
        8_000
    } else if failures == 4 {
        16_000
    } else {
        30_000
    }
}

/// When the worker next retries after consecutive failures.
#[derive(Debug, Default)]
pub struct RetrySchedule {
    failures: usize,
    deadline: Option<u64>,
}

/// The abstract schedule.
pub struct RetryScheduleView {
    pub failures: nat,
    pub deadline: Option<u64>,
}

impl View for RetrySchedule {
    type V = RetryScheduleView;

    closed spec fn view(&self) -> RetryScheduleView {
        RetryScheduleView { failures: self.failures as nat, deadline: self.deadline }
    }
}

impl RetrySchedule {
    /// A schedule with no failure and no pending retry.
    pub fn new() -> (r: Self)
        ensures
            r@ == (RetryScheduleView { failures: 0, deadline: None }),
    {
        RetrySchedule { failures: 0, deadline: None }
    }

    /// Records a failure at `now`; when no retry is pending, schedules one
    /// after the backoff for the failures so far.
    pub fn schedule_failure(&mut self, now: u64)
        requires
            now <= u64::MAX - MAX_RETRY_DELAY_MS,
        ensures
            old(self)@.deadline is Some ==> final(self)@ == old(self)@,
            old(self)@.deadline is None ==> final(self)@ == (RetryScheduleView {
                failures: if old(self)@.failures < usize::MAX {
                    old(self)@.failures + 1
                } else {
                    old(self)@.failures
                },
                deadline: Some((now + retry_delay_ms(old(self)@.failures)) as u64),
            }),
    {
        if self.deadline.is_some() {
            return;
        }
        self.deadline = Some(now + delay_for(self.failures));
        if self.failures < usize::MAX {
            self.failures = self.failures + 1;
        }
    }

    /// When the pending retry is due, if one is pending.
    pub fn deadline(&self) -> (r: Option<u64>)
        ensures
            r == self@.deadline,
    {
        self.deadline
    }

    /// The pending retry starts now.
    pub fn begin_retry(&mut self)
        ensures
            final(self)@ == (RetryScheduleView { deadline: None, ..old(self)@ }),
    {
        self.deadline = None;
    }

    /// A success: the backoff starts over.
    pub fn clear(&mut self)
        ensures
            final(self)@ == (RetryScheduleView { failures: 0, deadline: None }),
    {
        self.failures = 0;
        self.deadline = None;
    }
}

/// The app-server generation changed under a worker.
#[derive(Debug, Clone, Copy, PartialEq, Eq)]
pub struct GenerationMismatch {
    pub expected: u64,
    pub actual: u64,
}

/// Succeeds when the generation is still the expected one.
pub fn validate_generation(expected: u64, actual: u64) -> (r: Result<(), GenerationMismatch>)
    ensures
        expected == actual ==> r is Ok,
        expected != actual ==> r == Err::<(), GenerationMismatch>(GenerationMismatch { expected, actual }),
{
    if expected == actual {
        Ok(())
    } else {
        Err(GenerationMismatch { expected, actual })
    }
}

/// Why a consistent snapshot could not be taken.
#[derive(Debug, PartialEq, Eq)]
pub enum SnapshotError<E> {
    Fetch(E),
    Unstable { attempts: usize },
}

/// Consecutive failures back off to the 30 second cap and stay there.
pub proof fn law_backoff_caps(failures: nat)
    ensures
        retry_delay_ms(failures) <= MAX_RETRY_DELAY_MS,
        failures >= 5 ==> retry_delay_ms(failures) == MAX_RETRY_DELAY_MS,
        retry_delay_ms(failures) <= retry_delay_ms(failures + 1),
{
}

impl RetrySchedule {
    /// Records the outcome of one worker action at `now`: a successful
    /// recovery starts the backoff over, a failure schedules a retry, and a
    /// successful request changes nothing.
    pub fn on_outcome(&mut self, recovered: bool, succeeded: bool, now: u64)
        requires
            now <= u64::MAX - MAX_RETRY_DELAY_MS,
        ensures
            succeeded && recovered ==> final(self)@ == (RetryScheduleView { failures: 0, deadline: None }),
            succeeded && !recovered ==> final(self)@ == old(self)@,
            !succeeded && old(self)@.deadline is Some ==> final(self)@ == old(self)@,
            !succeeded && old(self)@.deadline is None ==> final(self)@ == (RetryScheduleView {
                failures: if old(self)@.failures < usize::MAX {
                    old(self)@.failures + 1
                } else {
                    old(self)@.failures
                },
                deadline: Some((now + retry_delay_ms(old(self)@.failures)) as u64),
            }),
    {
        if succeeded {
            if recovered {
                self.clear();
            }
        } else {
            self.schedule_failure(now);
        }
    }
}

/// What the next step of a consistent snapshot is.
#[derive(Clone, Copy, Debug, PartialEq, Eq)]
pub enum SnapshotStep {
    /// Fetch the pending requests between two generation reads.
    Fetch,
    /// The snapshot is consistent, taken in this generation.
    Accept(u64),
    /// The generation kept changing over this many attempts.
    GiveUp(usize),
}

/// The first step of a snapshot of at most `max_attempts` attempts.
pub fn snapshot_start(max_attempts: usize) -> (r: SnapshotStep)
    ensures
        max_attempts > 0 ==> r == SnapshotStep::Fetch,
        max_attempts == 0 ==> r == SnapshotStep::GiveUp(0),
{
    if max_attempts > 0 {
        SnapshotStep::Fetch
    } else {
        SnapshotStep::GiveUp(0)
    }
}

/// The step after attempt `attempt` (counting from 1) read generation
/// `before`, fetched, and read `after`: a fetch bracketed by one
/// generation is accepted; otherwise the snapshot is retried until the
/// attempts run out.
pub fn snapshot_after_fetch(attempt: usize, max_attempts: usize, before: u64, after: u64) -> (r: SnapshotStep)
    requires
        1 <= attempt <= max_attempts,
    ensures
        before == after ==> r == SnapshotStep::Accept(before),
        before != after && attempt < max_attempts ==> r == SnapshotStep::Fetch,
        before != after && attempt == max_attempts ==> r == SnapshotStep::GiveUp(max_attempts),
{
    if before == after {
        SnapshotStep::Accept(before)
    } else if attempt < max_attempts {
        SnapshotStep::Fetch
    } else {
        SnapshotStep::GiveUp(max_attempts)
    }
}

/// Keeps the first error among a run of attempts.
pub fn keep_first_error<E>(first: &mut Option<E>, result: Result<(), E>)
    ensures
        (*old(first)) is Some ==> *final(first) == *old(first),
        (*old(first)) is None ==> *final(first) == match result {
            Ok(()) => None,
            Err(e) => Some(e),
        },
{
    if first.is_none() {
        if let Err(e) = result {
            *first = Some(e);
        }
    }
}

/// The outcome of a run of attempts: its first error, if any.
pub fn first_error_result<E>(first: Option<E>) -> (r: Result<(), E>)
    ensures
        match first {
            Some(e) => r == Err::<(), E>(e),
            None => r is Ok,
        },
{
    match first {
        Some(e) => Err(e),
        None => Ok(()),
    }
}

/// An event the server-request worker receives.
#[derive(Clone, Copy, Debug, PartialEq, Eq)]
pub enum WorkerEvent {
    /// A request of this generation arrived.
    Request { generation: u64 },
    /// The app-server reported skipped requests.
    Gap,
    /// The worker fell behind the broadcast and missed events.
    Lagged,
    /// The broadcast closed.
    Closed,
}

/// What the worker does next.
#[derive(Clone, Copy, Debug, PartialEq, Eq)]
pub enum WorkerStep {
    /// Deliver the request of this generation.
    Process { generation: u64 },
    /// Recover from the app-server's pending requests; `mark_gap` also
    /// marks the idle observation as having a gap.
    Recover { mark_gap: bool },
    /// Stop the worker.
    Stop,
}

/// The step for an event: a request is processed; a gap of either kind is
/// marked and recovered from; a closed broadcast stops the worker.
pub fn worker_step(event: WorkerEvent) -> (r: WorkerStep)
    ensures
        r == match event {
            WorkerEvent::Request { generation } => WorkerStep::Process { generation },
            WorkerEvent::Gap | WorkerEvent::Lagged => WorkerStep::Recover { mark_gap: true },
            WorkerEvent::Closed => WorkerStep::Stop,
        },
{
    match event {
        WorkerEvent::Request { generation } => WorkerStep::Process { generation },
        WorkerEvent::Gap => WorkerStep::Recover { mark_gap: true },
        WorkerEvent::Lagged => WorkerStep::Recover { mark_gap: true },
        WorkerEvent::Closed => WorkerStep::Stop,
    }
}

} // verus!
