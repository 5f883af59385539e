//! Test-run orchestration for a Unity editor bridge: the request and result
//! model, the interpretation of bridge replies, and the state machine that
//! decides each step of a test run.

pub mod text;
pub mod types;
pub mod bridge;
pub mod scope;
pub mod snapshot;
pub mod active;
pub mod run;
pub mod storage;
pub mod laws;
