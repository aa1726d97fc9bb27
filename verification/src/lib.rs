//! Verified decision core of the Codex Discord runtime: queue retry and
//! recovery bookkeeping, the restart-drain admission fence and its marker
//! files, runtime path resolution, and server-request delivery identities.

mod text;
mod text_lines;
mod text_order;
pub mod restart_readiness;
pub mod queue_runner;
pub mod reserve_auto;
pub mod resource_report;
pub mod server_request_worker;
pub mod server_prompt;
pub mod server_prompt_authority;
pub mod server_prompt_redisplay;
pub mod session_mirror;
pub mod runtime_instance;
pub mod runtime_paths;
