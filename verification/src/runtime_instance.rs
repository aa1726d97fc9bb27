//! Single-instance guard and heartbeat of the runtime: the marker texts,
//! the per-root instance name, and the decision on a leftover socket.

use vstd::prelude::*;

use crate::server_request_worker::delivery_identity::{hex_encode, hex_lower, lemma_hex_len, sha256, sha256_of};
use crate::text::{chars_of, decimal, push_all, push_decimal, string_of};

verus! {

/// File name of the runtime lock marker.
pub const LOCK_NAME: &'static str = ".codex_discord_rust.runtime.lock";

/// File name of the runtime heartbeat marker.
pub const HEARTBEAT_NAME: &'static str = ".codex_discord_rust.heartbeat";

/// Why the runtime instance could not be acquired.
#[derive(Clone, Debug, PartialEq, Eq)]
pub enum RuntimeInstanceError {
    AlreadyRunning,
    Io { path: String, detail: String },
}

/// The text of the lock marker of process `pid` started at `started_at`
/// (Unix seconds).
pub open spec fn lock_text(pid: u32, started_at: u64) -> Seq<char> {
    "pid="@ + decimal(pid as nat) + "\nstarted_at="@ + decimal(started_at as nat) + "\n"@
}

/// The text of the lock marker.
pub fn lock_marker_text(pid: u32, started_at: u64) -> (r: String)
    ensures
        r@ == lock_text(pid, started_at),
{
    let mut out = chars_of("pid=");
    push_decimal(&mut out, pid as u128);
    push_all(&mut out, &chars_of("\nstarted_at="));
    push_decimal(&mut out, started_at as u128);
    push_all(&mut out, &chars_of("\n"));
    string_of(&out)
}

/// The text of the heartbeat marker of process `pid` updated at
/// `updated_at` (Unix seconds).
pub open spec fn heartbeat_text(pid: u32, updated_at: u64) -> Seq<char> {
    "pid="@ + decimal(pid as nat) + "\nupdated_at="@ + decimal(updated_at as nat) + "\n"@
}

/// The text of the heartbeat marker.
pub fn heartbeat_marker_text(pid: u32, updated_at: u64) -> (r: String)
    ensures
        r@ == heartbeat_text(pid, updated_at),
{
    let mut out = chars_of("pid=");
    push_decimal(&mut out, pid as u128);
    push_all(&mut out, &chars_of("\nupdated_at="));
    push_decimal(&mut out, updated_at as u128);
    push_all(&mut out, &chars_of("\n"));
    string_of(&out)
}

/// Unicode lowercase of a text, as `str::to_lowercase` gives it.
pub uninterp spec fn lowercase(s: Seq<char>) -> Seq<char>;

/// `str::to_lowercase`.
///
/// Claims only that the result is the named lowercase of the argument;
/// the Unicode case mapping itself is left unsaid.
#[verifier::external_body]
fn to_lowercase(s: &str) -> (r: String)
    ensures
        r@ == lowercase(s@),
{
    s.to_lowercase()
}

/// The name of the per-root instance lock: a fixed prefix and the first 16
/// hexadecimal digits of the SHA-256 of the lowercased root.
pub open spec fn instance_name(root: Seq<char>) -> Seq<char> {
    "Local\\CodexDiscordBot_"@ + hex_lower(sha256_of(vstd::utf8::encode_utf8(lowercase(root)))).take(16)
}

/// The instance lock name of the runtime root `root`.
pub fn mutex_name(root: &str) -> (r: String)
    ensures
        r@ == instance_name(root@),
{
    let lower = to_lowercase(root);
    let d = sha256(lower.as_str().as_bytes());
    let h = chars_of(hex_encode(&d).as_str());
    proof {
        lemma_hex_len(d@);
    }
    let mut out = chars_of("Local\\CodexDiscordBot_");
    push_all(&mut out, &crate::text::slice_chars(&h, 0, 16));
    assert(h@.subrange(0, 16) =~= h@.take(16));
    string_of(&out)
}

/// What to do with the socket path of a Unix instance lock.
#[derive(Clone, Copy, Debug, PartialEq, Eq)]
pub enum SocketStep {
    /// Another runtime answers on the socket.
    AlreadyRunning,
    /// A stale socket is left: remove it, then bind.
    RemoveStale,
    /// Bind the socket.
    Bind,
}

/// The step for the socket path, by whether it exists and whether a
/// connection to it succeeds.
pub fn socket_step(exists: bool, connected: bool) -> (r: SocketStep)
    ensures
        exists && connected ==> r == SocketStep::AlreadyRunning,
        exists && !connected ==> r == SocketStep::RemoveStale,
        !exists ==> r == SocketStep::Bind,
{
    if exists {
        if connected {
            SocketStep::AlreadyRunning
        } else {
            SocketStep::RemoveStale
        }
    } else {
        SocketStep::Bind
    }
}

} // verus!
