use cdr_runtime_core::restart_readiness::drain::{AdmissionGate, DrainFenceKey, DrainGateError};
use cdr_runtime_core::restart_readiness::drain_controller::{
    acknowledgement_allowed, claim_prepare, initial_state_check, prepare_targets, report_changed_failure,
    untrusted_prepare_key, DrainProtocolError, DrainedTransition, PollStep, TransitionWatch,
    UNTRUSTED_PREPARE_NONCE,
};
use cdr_runtime_core::restart_readiness::drain_marker::{ack_marker_text, read_prepare, RuntimeMarker};

fn key(runtime_id: &str, process_identity: &str, nonce: &str) -> DrainFenceKey {
    DrainFenceKey::new(runtime_id.to_owned(), process_identity.to_owned(), nonce.to_owned())
        .expect("valid key")
}

fn marker(runtime_id: &str, process_id: u32) -> RuntimeMarker {
    RuntimeMarker { runtime_id: runtime_id.to_owned(), process_id }
}

#[test]
fn fence_key_accepts_well_formed_parts() {
    let k = key("runtime-1", "4242|987654", "nonce_A");
    assert_eq!(k.runtime_id(), "runtime-1");
    assert_eq!(k.process_identity(), "4242|987654");
    assert_eq!(k.nonce(), "nonce_A");
    assert!(k.same_as(&k.duplicate()));
}

#[test]
fn fence_key_rejects_malformed_parts() {
    let cases = [
        ("", "1|2", "n"),
        ("bad id", "1|2", "n"),
        ("r", "1|2", "n!"),
        ("r", "12", "n"),
        ("r", "|2", "n"),
        ("r", "1|", "n"),
        ("r", "1|2|3", "n"),
        ("r", "a|2", "n"),
    ];
    for (runtime_id, process_identity, nonce) in cases {
        let result = DrainFenceKey::new(
            runtime_id.to_owned(),
            process_identity.to_owned(),
            nonce.to_owned(),
        );
        assert_eq!(result.err(), Some(DrainGateError::InvalidKey), "{runtime_id} {process_identity} {nonce}");
    }
    let long = "x".repeat(129);
    assert!(DrainFenceKey::new(long, "1|2".to_owned(), "n".to_owned()).is_err());
    let longest = "x".repeat(128);
    assert!(DrainFenceKey::new(longest, "1|2".to_owned(), "n".to_owned()).is_ok());
}

#[test]
fn sealed_fence_refuses_ordinary_work_but_admits_controls_until_closed() {
    let mut fence = AdmissionGate::new();
    assert_eq!(fence.try_enter(), Ok(()));
    let k = key("r", "1|2", "n");
    assert_eq!(fence.seal(&k), Ok(()));
    assert!(fence.is_sealed());
    assert_eq!(fence.try_enter(), Err(DrainGateError::Sealed));
    assert_eq!(fence.try_enter_control(), Ok(()));
    assert_eq!(fence.close_controls(&k), Ok(()));
    assert_eq!(fence.try_enter_control(), Err(DrainGateError::Sealed));
    assert_eq!(fence.open_controls(&k), Ok(()));
    assert_eq!(fence.try_enter_control_observed(), Ok(true));
}

#[test]
fn fence_release_waits_for_every_permit() {
    let mut fence = AdmissionGate::new();
    let k = key("r", "1|2", "n");
    fence.try_enter().unwrap();
    fence.permit_cloned();
    fence.seal(&k).unwrap();
    assert!(!fence.is_drained_for(&k));
    assert_eq!(fence.drained_status(&k), Ok(false));
    assert!(!fence.release(&k));
    assert!(!fence.permit_dropped());
    assert!(fence.permit_dropped());
    assert!(fence.is_drained_for(&k));
    assert!(fence.release(&k));
    assert!(!fence.is_sealed());
    assert_eq!(fence.try_enter(), Ok(()));
}

#[test]
fn fence_is_exclusive_to_its_key() {
    let mut fence = AdmissionGate::new();
    let first = key("r", "1|2", "a");
    let second = key("r", "1|2", "b");
    fence.seal(&first).unwrap();
    assert_eq!(fence.seal(&first), Ok(()));
    assert_eq!(fence.seal(&second), Err(DrainGateError::FenceMismatch));
    assert_eq!(fence.close_controls(&second), Err(DrainGateError::FenceMismatch));
    assert_eq!(fence.drained_status(&second), Err(DrainGateError::FenceMismatch));
    assert!(!fence.release(&second));
    assert!(fence.is_sealed());
}

#[test]
fn unsealed_fence_refuses_control_changes() {
    let mut fence = AdmissionGate::new();
    let k = key("r", "1|2", "n");
    assert_eq!(fence.close_controls(&k), Err(DrainGateError::FenceMismatch));
    assert_eq!(fence.open_controls(&k), Err(DrainGateError::FenceMismatch));
    assert_eq!(fence.try_enter_kind(true), Ok(false));
}

#[test]
fn prepare_must_target_this_runtime_process() {
    let identity = marker("runtime-1", 42);
    assert!(prepare_targets(&key("runtime-1", "42|100", "n"), &identity));
    assert!(!prepare_targets(&key("runtime-1", "420|100", "n"), &identity));
    assert!(!prepare_targets(&key("runtime-2", "42|100", "n"), &identity));
}

#[test]
fn untrusted_prepare_key_uses_pid_and_fixed_nonce() {
    let k = untrusted_prepare_key(&marker("runtime-1", 77)).unwrap();
    assert_eq!(k.runtime_id(), "runtime-1");
    assert_eq!(k.process_identity(), "77|0");
    assert_eq!(k.nonce(), UNTRUSTED_PREPARE_NONCE);
    assert_eq!(untrusted_prepare_key(&marker("bad id", 77)).err(), Some(DrainGateError::InvalidKey));
}

#[test]
fn claim_prepare_seals_for_matching_runtime_only() {
    let identity = marker("runtime-1", 42);
    let mut fence = AdmissionGate::new();
    assert!(matches!(claim_prepare(None, &identity, &mut fence), Ok(None)));
    assert!(!fence.is_sealed());
    let other = key("runtime-9", "42|1", "n");
    assert!(matches!(
        claim_prepare(Some(other), &identity, &mut fence),
        Err(DrainProtocolError::IdentityMismatch)
    ));
    assert!(!fence.is_sealed());
    let mine = key("runtime-1", "42|1", "n");
    let claimed = claim_prepare(Some(mine.duplicate()), &identity, &mut fence).unwrap().unwrap();
    assert!(claimed.same_as(&mine));
    assert!(fence.is_sealed());
    let rival = key("runtime-1", "42|1", "m");
    assert!(matches!(
        claim_prepare(Some(rival), &identity, &mut fence),
        Err(DrainProtocolError::Gate(DrainGateError::FenceMismatch))
    ));
}

#[test]
fn acknowledgement_needs_drained_fence_and_unchanged_prepare() {
    let k = key("r", "1|2", "n");
    let mut fence = AdmissionGate::new();
    fence.try_enter().unwrap();
    fence.seal(&k).unwrap();
    assert!(!acknowledgement_allowed(&fence, &k, &Some(k.duplicate())));
    fence.permit_dropped();
    assert!(acknowledgement_allowed(&fence, &k, &Some(k.duplicate())));
    assert!(!acknowledgement_allowed(&fence, &k, &None));
    assert!(!acknowledgement_allowed(&fence, &k, &Some(key("r", "1|2", "other"))));
}

#[test]
fn changed_failures_are_logged_once() {
    let mut previous = None;
    assert_eq!(
        report_changed_failure(&mut previous, "event", "boom".to_owned()),
        Some("event: boom; runtime_remains_sealed=true".to_owned())
    );
    assert_eq!(report_changed_failure(&mut previous, "event", "boom".to_owned()), None);
    assert_eq!(
        report_changed_failure(&mut previous, "event", "bang".to_owned()),
        Some("event: bang; runtime_remains_sealed=true".to_owned())
    );
    assert_eq!(previous.as_deref(), Some("bang"));
}

#[test]
fn transition_watch_acknowledges_then_waits_for_exact_restart_marker() {
    let k = key("r", "1|2", "n1");
    let mut watch = TransitionWatch::new(k.duplicate(), true);
    assert_eq!(watch.on_poll(true), PollStep::Stop);
    assert_eq!(watch.on_poll(false), PollStep::Acknowledge);
    let (go_on, log) = watch.on_acknowledgement(Err("disk full".to_owned()));
    assert!(!go_on);
    assert_eq!(
        log.as_deref(),
        Some("restart_drain_acknowledgement_failed: disk full; runtime_remains_sealed=true")
    );
    let (_, log) = watch.on_acknowledgement(Err("disk full".to_owned()));
    assert_eq!(log, None);
    assert_eq!(watch.on_poll(false), PollStep::Acknowledge);
    let (go_on, log) = watch.on_acknowledgement(Ok(()));
    assert!(go_on);
    assert_eq!(log.as_deref(), Some("rust_runtime_restart_drain_ack nonce=n1"));
    assert_eq!(watch.on_poll(false), PollStep::ReadRestart);
    assert_eq!(watch.on_restart_read(Ok(None)), (None, None));
    assert_eq!(watch.on_restart_read(Ok(Some(key("r", "1|2", "n2")))), (None, None));
    let (transition, log) = watch.on_restart_read(Err("unreadable".to_owned()));
    assert_eq!(transition, None);
    assert_eq!(
        log.as_deref(),
        Some("restart_drain_restart_marker_read_failed: unreadable; runtime_remains_sealed=true")
    );
    assert_eq!(
        watch.on_restart_read(Ok(Some(k.duplicate()))),
        (Some(DrainedTransition::Restart), None)
    );
}

#[test]
fn transition_watch_without_owed_acknowledgement_reads_restart() {
    let watch = TransitionWatch::new(key("r", "1|2", "n"), false);
    assert_eq!(watch.on_poll(false), PollStep::ReadRestart);
}

#[test]
fn stale_or_mismatched_prepare_never_claims_a_new_runtime() {
    let path = "/run/.codex_discord_rust.drain.prepare";
    let stale = "version=1\nruntime_id=old-runtime\nprocess_identity=9|10\nnonce=old-nonce\n";
    assert!(read_prepare(path, Some(stale)).unwrap().is_some());
    assert!(matches!(initial_state_check(true, false), Err(DrainProtocolError::OrphanedState)));
    assert!(initial_state_check(false, false).is_ok());

    let pid: u32 = 4242;
    let identity = marker("new-runtime", pid);
    let wrong = key("different-runtime", &format!("{pid}|10"), "nonce");
    let text = ack_marker_text(&wrong);
    let read = read_prepare(path, Some(&text)).unwrap();
    let mut fence = AdmissionGate::new();
    assert!(matches!(
        claim_prepare(read, &identity, &mut fence),
        Err(DrainProtocolError::IdentityMismatch)
    ));
    assert!(!fence.is_sealed());
}
