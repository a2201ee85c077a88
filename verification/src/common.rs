//! Error taxonomy and sizing constants shared by the whole stack.

use vstd::prelude::*;

verus! {

/// How an operation of this layer can fail.
///
/// `Again` and `WouldBlock` are transient signals, not faults: the caller
/// simply skips this cycle and retries later. The remaining variants report
/// bad arguments or device trouble.
#[derive(Clone, Copy, PartialEq, Eq, Structural, Debug)]
pub enum NetError {
    /// No data ready (receive) or not ready (transmit); try again later.
    Again,
    /// The operation cannot complete now without blocking (e.g. `accept`
    /// with no established connection queued).
    WouldBlock,
    /// A malformed argument, such as a zero port.
    InvalidInput,
    /// The local address is already bound by another listener.
    AddrInUse,
    /// The handle or address does not name a live object.
    InvalidHandle,
    /// A device fault other than "not ready".
    DeviceError,
    /// The driver could not satisfy an allocation request.
    NoMemory,
}

/// Maximum transmission unit reported to the protocol engine: a full
/// Ethernet frame (1500 payload bytes plus the 14-byte link header).
pub const STANDARD_MTU: usize = 1514;

/// Receive-buffer capacity of a TCP socket handed to the protocol engine.
pub const TCP_RX_BUF_LEN: usize = 64 * 1024;

/// Transmit-buffer capacity of a TCP socket handed to the protocol engine.
pub const TCP_TX_BUF_LEN: usize = 64 * 1024;

/// Receive-buffer capacity of a UDP socket handed to the protocol engine.
pub const UDP_RX_BUF_LEN: usize = 64 * 1024;

/// Transmit-buffer capacity of a UDP socket handed to the protocol engine.
pub const UDP_TX_BUF_LEN: usize = 64 * 1024;

} // verus!
