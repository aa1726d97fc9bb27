# cdr_runtime_core

The decision core of the Codex Discord Remote runtime, written in Verus: every
function in `src/` carries a `requires`/`ensures` contract that Verus proves.

- `src/restart_readiness/` – the restart drain protocol: the admission fence,
  drain keys, marker files (parsing and rendering), the drained-runtime
  handshake steps, thread and live-server readiness with the step machine
  of the whole quiescence check, and the absent-target maintenance proof.
- `src/queue_runner/` – queue job records, retry back-off, unavailable-target
  logging, recovery planning, fork handoff chains, submission and completion
  steps, and the step machine of one start attempt (`start.rs`).
- `src/reserve_auto.rs`, `src/reserve_auto/` – the automatic Reserve model
  policy: identities, admission, recovery cycles, restore of settings, the
  step machines of a preparation and of a restore up to its claim
  (`flow.rs`), and of a claimed settings transition (`transition.rs`).
- `src/server_prompt*.rs`, `src/server_request_worker/` – approval and input
  prompts, prompt authority checks and the step machine that assembles a
  verified authority, redisplay, delivery identities, the sent
  cache and the worker's retry and snapshot steps.
- `src/runtime_paths/`, `src/runtime_instance.rs`, `src/resource_report.rs` –
  path resolution, instance lock texts and resource report lines.
- `src/text*.rs` – string helpers and their specifications.

Public proof functions named `law_*` state properties that span several
operations (for example, that a sealed fence refuses ordinary work, or that a
marker written by the runtime reads back as the same key).

`app/` holds the unverified plumbing around the core: file and socket I/O,
clocks, Tokio loops, JSON reading and the error types with `Display`.
`tests/` exercises the library through its public API.
