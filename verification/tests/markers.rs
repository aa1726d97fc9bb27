use cdr_runtime_core::restart_readiness::drain::{DrainFenceKey, DrainGateError};
use cdr_runtime_core::restart_readiness::drain_marker::{
    ack_marker_text, identity_marker_text, read_ack, read_identity, read_prepare, read_restart,
    DrainMarkerError, RuntimeMarker,
};

const PATH: &str = "/run/.codex_discord_rust.drain.prepare";

fn malformed_reason(result: Result<Option<DrainFenceKey>, DrainMarkerError>) -> String {
    match result {
        Err(DrainMarkerError::Malformed { path, reason }) => {
            assert_eq!(path, PATH);
            reason
        }
        other => panic!("expected a malformed marker, got {other:?}"),
    }
}

#[test]
fn absent_markers_read_as_none() {
    assert!(matches!(read_prepare(PATH, None), Ok(None)));
    assert!(matches!(read_ack(PATH, None), Ok(None)));
    assert!(matches!(read_restart(PATH, None), Ok(None)));
    assert!(matches!(read_identity(PATH, None), Ok(None)));
}

#[test]
fn prepare_marker_yields_its_key() {
    let text = "version=1\nruntime_id=rt\nprocess_identity=12|34\nnonce=abc\n";
    let k = read_prepare(PATH, Some(text)).unwrap().unwrap();
    assert_eq!(k.runtime_id(), "rt");
    assert_eq!(k.process_identity(), "12|34");
    assert_eq!(k.nonce(), "abc");
    let crlf = "version=1\r\nruntime_id=rt\r\nprocess_identity=12|34\r\nnonce=abc";
    let k2 = read_restart(PATH, Some(crlf)).unwrap().unwrap();
    assert!(k.same_as(&k2));
}

#[test]
fn marker_faults_are_reported_by_reason() {
    assert_eq!(malformed_reason(read_prepare(PATH, Some("version=1\nnonsense\n"))), "line does not contain '='");
    assert_eq!(malformed_reason(read_prepare(PATH, Some("version=1\nversion=1\n"))), "field is empty or duplicated");
    assert_eq!(malformed_reason(read_prepare(PATH, Some("version=\n"))), "field is empty or duplicated");
    assert_eq!(malformed_reason(read_prepare(PATH, Some("runtime_id=rt\n"))), "missing version");
    assert_eq!(malformed_reason(read_prepare(PATH, Some("version=2\n"))), "invalid version");
    assert_eq!(malformed_reason(read_prepare(PATH, Some("version=1\nruntime_id=rt\n"))), "missing process_identity");
    let big = format!("version=1\nx={}\n", "y".repeat(5000));
    assert_eq!(malformed_reason(read_prepare(PATH, Some(&big))), "marker exceeds 4096 bytes");
}

#[test]
fn acknowledgement_marker_must_be_sealed() {
    let open = "version=1\nruntime_id=rt\nprocess_identity=12|34\nnonce=abc\nstate=open\n";
    assert_eq!(malformed_reason(read_ack(PATH, Some(open))), "invalid state");
    let unstated = "version=1\nruntime_id=rt\nprocess_identity=12|34\nnonce=abc\n";
    assert_eq!(malformed_reason(read_ack(PATH, Some(unstated))), "missing state");
}

#[test]
fn malformed_key_in_marker_is_an_invalid_key() {
    let text = "version=1\nruntime_id=r t\nprocess_identity=12|34\nnonce=abc\n";
    assert!(matches!(
        read_prepare(PATH, Some(text)),
        Err(DrainMarkerError::InvalidKey(DrainGateError::InvalidKey))
    ));
}

#[test]
fn acknowledgement_marker_round_trips() {
    let k = DrainFenceKey::new("rt".to_owned(), "12|34".to_owned(), "abc".to_owned()).unwrap();
    let text = ack_marker_text(&k);
    assert_eq!(text, "version=1\nruntime_id=rt\nprocess_identity=12|34\nnonce=abc\nstate=sealed\n");
    let back = read_ack(PATH, Some(&text)).unwrap().unwrap();
    assert!(back.same_as(&k));
}

#[test]
fn identity_marker_round_trips() {
    let m = RuntimeMarker { runtime_id: "rt".to_owned(), process_id: 4_000_000_000 };
    let text = identity_marker_text(&m);
    assert_eq!(text, "version=1\nruntime_id=rt\npid=4000000000\nstate=open\n");
    assert_eq!(read_identity(PATH, Some(&text)).unwrap(), Some(m));
}

#[test]
fn identity_pid_must_be_an_unsigned_integer() {
    let plus = "version=1\nruntime_id=rt\npid=+7\nstate=open\n";
    assert_eq!(
        read_identity(PATH, Some(plus)).unwrap(),
        Some(RuntimeMarker { runtime_id: "rt".to_owned(), process_id: 7 })
    );
    for pid in ["-1", "x", "4294967296", "+"] {
        let text = format!("version=1\nruntime_id=rt\npid={pid}\nstate=open\n");
        match read_identity(PATH, Some(&text)) {
            Err(DrainMarkerError::Malformed { reason, .. }) => {
                assert_eq!(reason, "pid must be an unsigned integer")
            }
            other => panic!("pid {pid}: {other:?}"),
        }
    }
}
