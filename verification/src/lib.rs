//! Verified core of a Linux security agent that watches file opens and
//! network connects through eBPF and forwards them to a backend.
//!
//! The library holds the logic: decoding the kernel's event records,
//! rendering them for the backend, deciding what to do with each record,
//! the backend client's retry policy and response handling, and the
//! agent's configuration. Loading eBPF programs, the ring buffer, HTTP
//! and the async runtime live in the application around it.

pub mod config;
pub mod ebpf;
pub mod errors;
pub mod events;
pub mod networks;
pub mod text;
