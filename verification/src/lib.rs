//! Control plane of a confidential-VM manager.
//!
//! The library holds the verified orchestration core: the bootstrap protocol
//! to the long-lived supervisor daemon, the shared VM registry with its
//! reload and reconciliation logic, the periodic auto-restart control loop,
//! the dual-endpoint API surface with its bind-strategy fallback and
//! first-failure-wins shutdown, and the one-shot direct-launch mode.
//! The surrounding process (argument handling, sockets, timers, process
//! spawning) drives these state machines from outside the library.

pub mod api;
pub mod config;
pub mod one_shot;
pub mod registry;
pub mod restart;
pub mod startup;
pub mod supervisor;
pub mod version;
