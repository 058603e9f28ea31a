//! Verified core of a framed byte-stream relay.
//!
//! The library holds the logic of a bridge between a native-messaging
//! channel (standard input/output) and a local inter-process socket:
//! the length-prefixed wire codec, the endpoint resolution shared by the
//! connecting and the listening side, the bounded connect-retry policy,
//! the stale-endpoint recovery of the listener, the step machines of the
//! four relay pumps with their bounded queue, and the supervisor rule
//! that tears the bridge down as soon as any pump finishes.
//!
//! All I/O — the streams themselves, the sleeps, the task scheduling —
//! lives outside the library; callers feed events in and perform the
//! actions the library decides on.

pub mod codec;
pub mod diag;
pub mod endpoint;
pub mod listener;
pub mod pump;
pub mod queue;
pub mod retry;
