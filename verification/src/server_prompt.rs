//! Discord prompts for app-server approval and input requests.

pub mod compose;
pub mod text_binding;
