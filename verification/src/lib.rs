//! Glue layer between polled NIC drivers and a pre-allocated-socket TCP/IP
//! protocol engine: a driver contract, a buffer-lease device bridge with a
//! SYN-snooping hook, and a listen table that emulates `accept` semantics.

use vstd::prelude::*;

pub mod addr;
pub mod buf;
pub mod common;
pub mod device;
pub mod driver;
pub mod laws;
pub mod listen_table;
pub mod loopback;
pub mod snoop;
pub mod sockets;

pub use addr::{EthernetAddress, Medium};
pub use buf::NetBufOps;
pub use driver::NetDriverOps;

verus! {

/// A monotonic timestamp in microseconds, as handed out by the host kernel's
/// time source.
pub struct NetInstant {
    pub micros: i64,
}

/// Services the host kernel supplies to the network stack: a monotonic clock
/// and a cooperative-yield hint. Implementations live outside this crate, so
/// nothing is promised of their results.
pub trait KernelNetFunc: Send + Sync {
    fn now(&self) -> NetInstant;

    fn yield_now(&self) -> bool;
}

} // verus!
