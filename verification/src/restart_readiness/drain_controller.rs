//! Runtime-owned side of the filesystem restart drain handshake: the
//! decisions between the file reads and writes that the runtime performs.

use vstd::prelude::*;

use super::drain::{AdmissionGate, DrainFenceKey, DrainFenceKeyView, DrainGateError, seal_outcome};
use super::drain_marker::{DrainMarkerError, RuntimeMarker, RuntimeMarkerView};
use crate::text::{chars_of, decimal, has_prefix, push_all, push_decimal, starts_with, string_of};

verus! {

/// How a drained runtime leaves.
#[derive(Clone, Copy, Debug, Eq, PartialEq)]
pub enum DrainedTransition {
    Restart,
    Stop,
}

/// Why the drain handshake failed.
#[derive(Debug)]
pub enum DrainProtocolError {
    Marker(DrainMarkerError),
    Gate(DrainGateError),
    /// Orphaned drain state exists; the former runtime must be proved gone.
    OrphanedState,
    /// The prepare marker targets another runtime.
    IdentityMismatch,
    /// The prepare marker changed before acknowledgement.
    PrepareChanged,
    LiveDrainTimeout { last_reason: String },
}

/// The nonce of the key that fences an untrusted prepare marker.
pub const UNTRUSTED_PREPARE_NONCE: &'static str = "untrusted-prepare";

/// The prepare key `k` targets the runtime `m`: same runtime id, and a
/// process identity `pid|...` for its process.
pub open spec fn targets_runtime(k: DrainFenceKeyView, m: RuntimeMarkerView) -> bool {
    k.runtime_id == m.runtime_id && has_prefix(
        k.process_identity,
        decimal(m.process_id as nat).push('|'),
    )
}

/// Whether the prepare key `key` targets the runtime `identity`.
pub fn prepare_targets(key: &DrainFenceKey, identity: &RuntimeMarker) -> (r: bool)
    ensures
        r == targets_runtime(key@, identity@),
{
    let mut pid: Vec<char> = Vec::new();
    push_decimal(&mut pid, identity.process_id as u128);
    pid.push('|');
    assert(pid@ =~= decimal(identity.process_id as nat).push('|'));
    crate::text::same_text(key.runtime_id(), identity.runtime_id.as_str()) && starts_with(
        &chars_of(key.process_identity()),
        &pid,
    )
}

/// The key that seals the fence when a prepare marker cannot be trusted:
/// the runtime's id, `pid|0`, and a fixed nonce.
pub fn untrusted_prepare_key(identity: &RuntimeMarker) -> (r: Result<DrainFenceKey, DrainGateError>)
    ensures
        r matches Ok(k) ==> k@ == (DrainFenceKeyView {
            runtime_id: identity@.runtime_id,
            process_identity: decimal(identity@.process_id as nat) + seq!['|', '0'],
            nonce: UNTRUSTED_PREPARE_NONCE@,
        }),
        r is Ok <==> (DrainFenceKeyView {
            runtime_id: identity@.runtime_id,
            process_identity: decimal(identity@.process_id as nat) + seq!['|', '0'],
            nonce: UNTRUSTED_PREPARE_NONCE@,
        }).valid(),
{
    let mut pi: Vec<char> = Vec::new();
    push_decimal(&mut pi, identity.process_id as u128);
    pi.push('|');
    pi.push('0');
    assert(pi@ =~= decimal(identity.process_id as nat) + seq!['|', '0']);
    DrainFenceKey::new(identity.runtime_id.clone(), string_of(&pi), UNTRUSTED_PREPARE_NONCE.to_owned())
}

/// Claims a prepare marker read from disk: none means nothing to do; one
/// for another runtime is refused; otherwise the fence is sealed with it.
pub fn claim_prepare(
    prepare: Option<DrainFenceKey>,
    identity: &RuntimeMarker,
    gate: &mut AdmissionGate,
) -> (r: Result<Option<DrainFenceKey>, DrainProtocolError>)
    ensures
        match prepare {
            None => (r matches Ok(None)) && final(gate)@ == old(gate)@,
            Some(k) => if !targets_runtime(k@, identity@) {
                (r matches Err(DrainProtocolError::IdentityMismatch)) && final(gate)@ == old(gate)@
            } else {
                final(gate)@ == seal_outcome(old(gate)@, k@).0 && match seal_outcome(old(gate)@, k@).1 {
                    Ok(()) => r matches Ok(Some(c)) && c@ == k@,
                    Err(e) => r matches Err(DrainProtocolError::Gate(g)) && g == e,
                }
            },
        },
{
    let key = match prepare {
        None => { return Ok(None); },
        Some(k) => k,
    };
    if !prepare_targets(&key, identity) {
        return Err(DrainProtocolError::IdentityMismatch);
    }
    match gate.seal(&key) {
        Ok(()) => Ok(Some(key)),
        Err(e) => Err(DrainProtocolError::Gate(e)),
    }
}

/// Whether acknowledgement may be published: the fence is drained for
/// `key` and the prepare marker still names it.
pub fn acknowledgement_allowed(gate: &AdmissionGate, key: &DrainFenceKey, prepare: &Option<DrainFenceKey>) -> (r: bool)
    ensures
        r == (gate@.active == 0 && gate@.sealed == Some(key@) && match prepare {
            Some(p) => p@ == key@,
            None => false,
        }),
{
    gate.is_drained_for(key) && match prepare {
        Some(p) => p.same_as(key),
        None => false,
    }
}

/// The log line for a failure, when it differs from the one last logged;
/// the failure is then remembered.
pub fn report_changed_failure(previous: &mut Option<String>, event: &str, current: String) -> (r: Option<String>)
    ensures
        (match *old(previous) {
            Some(p) => p@ == current@,
            None => false,
        }) ==> r is None && *final(previous) == *old(previous),
        !(match *old(previous) {
            Some(p) => p@ == current@,
            None => false,
        }) ==> (r matches Some(line) && line@ == event@ + ": "@ + current@
            + "; runtime_remains_sealed=true"@) && (*final(previous) matches Some(p) && p@ == current@),
{
    let same = match previous {
        Some(p) => crate::text::same_text(p.as_str(), current.as_str()),
        None => false,
    };
    if same {
        return None;
    }
    let mut line = chars_of(event);
    push_all(&mut line, &chars_of(": "));
    push_all(&mut line, &chars_of(current.as_str()));
    push_all(&mut line, &chars_of("; runtime_remains_sealed=true"));
    *previous = Some(current);
    Some(string_of(&line))
}

/// The line logged for failure `current` after `previous` was logged, and
/// the failure then remembered: nothing is logged for a repeat.
pub open spec fn changed_report(previous: Option<Seq<char>>, event: Seq<char>, current: Seq<char>) -> (
    Option<Seq<char>>,
    Option<Seq<char>>,
) {
    if previous == Some(current) {
        (None, previous)
    } else {
        (Some(event + ": "@ + current + "; runtime_remains_sealed=true"@), Some(current))
    }
}

/// What the runtime does on one poll of a drained wait.
#[derive(Clone, Copy, Debug, Eq, PartialEq)]
pub enum PollStep {
    /// A stop was requested: leave now.
    Stop,
    /// Try to publish the acknowledgement.
    Acknowledge,
    /// Read the restart marker.
    ReadRestart,
}

/// State of a drained runtime waiting for its restart or stop.
pub struct TransitionWatch {
    key: DrainFenceKey,
    acknowledgement_complete: bool,
    acknowledgement_failure: Option<String>,
    restart_read_failure: Option<String>,
}

impl TransitionWatch {
    /// Starts watching for `key`; the acknowledgement is still owed when
    /// `publish_acknowledgement` is set.
    pub fn new(key: DrainFenceKey, publish_acknowledgement: bool) -> (r: Self)
        ensures
            r.key() == key@,
            r.acknowledged() == !publish_acknowledgement,
    {
        TransitionWatch {
            key,
            acknowledgement_complete: !publish_acknowledgement,
            acknowledgement_failure: None,
            restart_read_failure: None,
        }
    }

    /// The key being watched.
    pub closed spec fn key(&self) -> DrainFenceKeyView {
        self.key@
    }

    /// Whether the acknowledgement has been published.
    pub closed spec fn acknowledged(&self) -> bool {
        self.acknowledgement_complete
    }

    /// The acknowledgement failure last logged, if any.
    pub closed spec fn ack_failure(&self) -> Option<Seq<char>> {
        match self.acknowledgement_failure {
            Some(f) => Some(f@),
            None => None,
        }
    }

    /// The restart-marker read failure last logged, if any.
    pub closed spec fn restart_failure(&self) -> Option<Seq<char>> {
        match self.restart_read_failure {
            Some(f) => Some(f@),
            None => None,
        }
    }

    /// The first step of a poll: a stop request wins, then an owed
    /// acknowledgement, then the restart marker.
    pub fn on_poll(&self, stop_requested: bool) -> (r: PollStep)
        ensures
            stop_requested ==> r == PollStep::Stop,
            !stop_requested && !self.acknowledged() ==> r == PollStep::Acknowledge,
            !stop_requested && self.acknowledged() ==> r == PollStep::ReadRestart,
    {
        if stop_requested {
            PollStep::Stop
        } else if !self.acknowledgement_complete {
            PollStep::Acknowledge
        } else {
            PollStep::ReadRestart
        }
    }

    /// The acknowledgement attempt ended with `outcome` (an error's text on
    /// failure). Returns whether to go on to the restart marker in this
    /// poll, and the line to log.
    pub fn on_acknowledgement(&mut self, outcome: Result<(), String>) -> (r: (bool, Option<String>))
        ensures
            final(self).key() == old(self).key(),
            outcome is Ok ==> final(self).acknowledged() && r.0 && (r.1 matches Some(line) && line@
                == "rust_runtime_restart_drain_ack nonce="@ + old(self).key().nonce),
            outcome is Err ==> final(self).acknowledged() == old(self).acknowledged() && !r.0,
            outcome matches Err(e) ==> (
                match r.1 {
                    Some(l) => Some(l@),
                    None => None,
                },
                final(self).ack_failure(),
            ) == changed_report(
                old(self).ack_failure(),
                "restart_drain_acknowledgement_failed"@,
                e@,
            ),
            outcome is Ok ==> final(self).ack_failure() is None,
    {
        match outcome {
            Ok(()) => {
                self.acknowledgement_complete = true;
                self.acknowledgement_failure = None;
                let mut line = chars_of("rust_runtime_restart_drain_ack nonce=");
                push_all(&mut line, &chars_of(self.key.nonce()));
                (true, Some(string_of(&line)))
            },
            Err(error) => {
                let log = report_changed_failure(
                    &mut self.acknowledgement_failure,
                    "restart_drain_acknowledgement_failed",
                    error,
                );
                (false, log)
            },
        }
    }

    /// The restart marker was read with `outcome`. Only a marker naming
    /// exactly the watched key releases the runtime for a restart.
    pub fn on_restart_read(&mut self, outcome: Result<Option<DrainFenceKey>, String>) -> (r: (Option<DrainedTransition>, Option<String>))
        ensures
            final(self).key() == old(self).key(),
            final(self).acknowledged() == old(self).acknowledged(),
            (r.0 == Some(DrainedTransition::Restart)) <==> (outcome matches Ok(Some(k)) && k@ == old(self).key()),
            r.0 != Some(DrainedTransition::Stop),
            outcome is Ok ==> r.1 is None,
            outcome matches Ok(k) && k matches Some(c) && c@ == old(self).key() ==> final(self).restart_failure()
                == old(self).restart_failure(),
            outcome matches Ok(k) && !(k matches Some(c) && c@ == old(self).key()) ==> final(self).restart_failure() is None,
            outcome matches Err(e) ==> (
                match r.1 {
                    Some(l) => Some(l@),
                    None => None,
                },
                final(self).restart_failure(),
            ) == changed_report(old(self).restart_failure(), "restart_drain_restart_marker_read_failed"@, e@),
    {
        match outcome {
            Ok(Some(candidate)) => {
                if candidate.same_as(&self.key) {
                    return (Some(DrainedTransition::Restart), None);
                }
                self.restart_read_failure = None;
                (None, None)
            },
            Ok(None) => {
                self.restart_read_failure = None;
                (None, None)
            },
            Err(error) => {
                let log = report_changed_failure(
                    &mut self.restart_read_failure,
                    "restart_drain_restart_marker_read_failed",
                    error,
                );
                (None, log)
            },
        }
    }
}

/// A runtime may not start while a prepare or acknowledgement marker is
/// left over: the former runtime must first be proved gone.
pub fn initial_state_check(prepare_exists: bool, ack_exists: bool) -> (r: Result<(), DrainProtocolError>)
    ensures
        (prepare_exists || ack_exists) ==> r matches Err(DrainProtocolError::OrphanedState),
        !(prepare_exists || ack_exists) ==> r is Ok,
{
    if prepare_exists || ack_exists {
        return Err(DrainProtocolError::OrphanedState);
    }
    Ok(())
}

/// The prepare marker read again still names `key`; otherwise the
/// acknowledgement is refused as changed.
pub fn prepare_unchanged(prepare: &Option<DrainFenceKey>, key: &DrainFenceKey) -> (r: Result<(), DrainProtocolError>)
    ensures
        (prepare matches Some(p) && p@ == key@) ==> r is Ok,
        !(prepare matches Some(p) && p@ == key@) ==> r matches Err(DrainProtocolError::PrepareChanged),
{
    match prepare {
        Some(p) => if p.same_as(key) { Ok(()) } else { Err(DrainProtocolError::PrepareChanged) },
        None => Err(DrainProtocolError::PrepareChanged),
    }
}

/// A marker is removed only when it still names exactly the key this
/// runtime wrote.
pub fn owns_fence_marker(read: &Option<DrainFenceKey>, expected: &DrainFenceKey) -> (r: bool)
    ensures
        r == (read matches Some(k) && k@ == expected@),
{
    match read {
        Some(k) => k.same_as(expected),
        None => false,
    }
}

/// The identity marker is removed only when it still names this runtime.
pub fn owns_identity_marker(read: &Option<RuntimeMarker>, expected: &RuntimeMarker) -> (r: bool)
    ensures
        r == (read matches Some(m) && m@ == expected@),
{
    match read {
        Some(m) => crate::text::same_text(m.runtime_id.as_str(), expected.runtime_id.as_str()) && m.process_id
            == expected.process_id,
        None => false,
    }
}

} // verus!
