//! Core logic of a command-line launcher for a single lightweight virtual
//! machine: resolving a declarative configuration (file- or flag-based) into a
//! validated device topology and sequencing the asynchronous start.
//!
//! The platform work itself (terminal attribute syscalls, path
//! canonicalization, the hypervisor capability) is performed by the
//! surrounding binary; this library holds the decisions: what the
//! configuration means, which devices are built and in what order, when
//! validation runs, and how start-up failures are surfaced.

pub mod terminal;
pub mod config;
pub mod orchestrator;
pub mod storage;
pub mod topology;
pub mod vmspec;
