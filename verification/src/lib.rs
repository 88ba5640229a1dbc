//! Control flow for intercepted calls.
//!
//! A hook that stands in for a native operation answers every call in one of
//! three ways: with a value of its own, by stepping aside so that the native
//! operation runs, or with a hard failure. This crate holds the pieces that
//! make that decision safe to take from inside the very calls being
//! intercepted:
//!
//! - [`detour::Detour`], the three-way outcome, and its combinators;
//! - [`bypass::Bypass`], the closed list of reasons for stepping aside;
//! - [`guard::DetourGuard`], the per-thread guard against re-entering a hook;
//! - [`hook_fn::HookFn`], the write-once slot for a native operation.
//!
//! Beside them stand what the processes around a hook settle before they
//! start: the settings of the internal proxy
//! ([`internal_proxy::InternalProxyConfig`]), where a process sends its log
//! ([`logging::tracing_setup`]), and the one message of the agent about
//! pausing a container ([`pause::DaemonPauseTarget`]).

pub mod bypass;
pub mod detour;
pub mod error;
pub mod guard;
pub mod hook_fn;
pub mod internal_proxy;
pub mod logging;
pub mod path;
pub mod pause;

pub use crate::bypass::Bypass;
pub use crate::detour::Detour;
pub use crate::error::HookError;
pub use crate::guard::{DetourGuard, ReentrancyFlag};
pub use crate::hook_fn::HookFn;
