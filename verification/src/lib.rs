//! A hardware debug session manager.
//!
//! The crate turns a debug adapter (a transport handle) plus a chip selection
//! into an attached, breakpoint-clean debugging session over one of two debug
//! architectures: ARM, reached through a debug-access-port (DAP) interface,
//! and RISC-V, reached through JTAG. The session hands out exclusive,
//! per-core access handles.
//!
//! The physical adapter, the register-level wire protocols and the chip
//! registry are collaborators outside this crate. They enter the library as
//! plain values: the transport is a [`probe::Probe`] whose fields describe
//! the adapter and the chip behind it, and the registry is a
//! [`config::Registry`] table of chip descriptors. Every function that reads
//! or drives them is specified and verified against that model.

pub mod arch;
pub mod config;
pub mod error;
pub mod probe;
pub mod session;
