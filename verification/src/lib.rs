//! Segment recorder supervisor.
//!
//! A long-running capture session is made of sequential, fixed-duration
//! recording segments, each produced by an external recorder process and
//! handed off to a session bundle exactly once.  This crate holds the
//! verified core of that supervisor: the session state machine
//! (`supervisor`), the per-session recorder loop (`recorder_loop`), the
//! graceful-then-forced process termination protocol (`process`), the
//! finished-segment pipeline decisions (`pipeline`), and the pure path
//! helpers the supervisor needs (`paths`, `names`, `digits`).
//!
//! Everything that touches the operating system — spawning the recorder,
//! polling it, copying files, appending bundle events — is driven by a
//! thin unverified shell that feeds outcomes back into these machines as
//! plain values.

pub mod digits;
pub mod names;
pub mod paths;
pub mod pipeline;
pub mod process;
pub mod recorder_loop;
pub mod supervisor;
