//! Verified core of a tunnel that carries guest services (display server,
//! clock, TCP, agent socket) between a virtual machine and its host over a
//! hypervisor socket.
//!
//! The library decides; the programs around it perform the I/O. Each
//! protocol step is a function from plain values to plain values whose
//! contract states the decision exactly.
pub mod clock;
pub mod guest_config;
pub mod host_config;
pub mod lock;
pub mod rules;
pub mod relay;
pub mod supervisor;
pub mod tag;
pub mod text;
pub mod vmid;
pub mod wire;
