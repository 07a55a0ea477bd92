//! Isolated script execution: the host side of a small script sandbox.
//!
//! The engine that compiles and runs a script lives outside this library.
//! What the library holds is everything that is decided around it: the log
//! buffer that the guest-callable `log` primitive appends to, the assembly of
//! the caller-visible outcome, the mapping of failures to responses, and the
//! access rules of the surrounding service.

pub mod auth;
pub mod login;
pub mod logs;
pub mod pipeline;
pub mod post_run_js;
pub mod snippets;
pub mod status;
pub mod users;
