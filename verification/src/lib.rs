//! A minimal multi-protocol service core: one remote-procedure greeting
//! endpoint and one HTTP health endpoint, run as a coordinated pair under a
//! supervisor.
//!
//! The library holds the verified logic: message types and the greeting
//! handler, the HTTP router and health handler with their exact wire bodies,
//! listen-address validation, the supervisor state machine that starts both
//! servers and resolves the joint wait on the first outcome, and the polling
//! probe that detects startup readiness. The surrounding process (sockets,
//! the async runtime, command-line flags) lives outside the library and
//! hands it plain values.

pub mod addr;
pub mod http_api;
pub mod json;
pub mod readiness;
pub mod rpc;
pub mod supervisor;
