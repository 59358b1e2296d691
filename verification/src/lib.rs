//! Supervisor-level runtime core for a guest capsule running under a
//! hypervisor with a register-based call interface.
//!
//! The crate verifies the three hard pieces of such a runtime: the call
//! gate that encodes requests and decodes three-word replies into a typed
//! result, the multi-hart boot barrier that lets exactly one hart perform
//! one-time setup, and the last-resort fault reporter that formats
//! diagnostics without heap or formatting machinery.

pub mod sbi;
pub mod stdio;
pub mod irq;
pub mod entry;
