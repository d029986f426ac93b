//! Decisions of a dual-node replication harness: decoding a node's readiness
//! payload, gating on readiness, and the cycles of the monitor on the primary
//! and of the writer on the secondary. Every function here goes from plain
//! values to plain values; opening connections, running statements, pausing
//! and printing are left to the caller.

pub mod error;
pub mod reply;
pub mod report;
pub mod node;
pub mod status;
pub mod gate;
pub mod monitor;
pub mod writer;
pub mod supervisor;
