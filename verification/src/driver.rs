//! The driver contract: what any NIC driver (loopback, virtio-net, future
//! hardware) must offer so the device bridge can run a polling protocol
//! engine over it.

use vstd::prelude::*;

use crate::addr::{EthernetAddress, Medium};
use crate::buf::NetBuf;
use crate::common::NetError;

verus! {

/// Operations a network device driver must implement.
///
/// All operations are non-blocking and return immediately. The abstract
/// model is a queue of inbound packets (`rx_queue`) and a count of receive
/// leases returned to the driver's pool (`rx_recycled`); implementations say
/// in these terms what each operation did.
pub trait NetDriverOps: Sized {
    /// Model: the inbound packets buffered and ready to be received,
    /// oldest first. The default describes an idle driver; implementations
    /// override it with their real state.
    open spec fn rx_queue(&self) -> Seq<Seq<u8>> {
        Seq::<Seq<u8>>::empty()
    }

    /// Model: how many receive-buffer leases have been returned so far.
    open spec fn rx_recycled(&self) -> nat {
        0
    }

    /// Model: whether frames carry a link-layer header.
    open spec fn medium_spec(&self) -> Medium {
        Medium::Ip
    }

    /// Whether frames on this device include an Ethernet header or are
    /// raw IP.
    fn medium(&self) -> (r: Medium)
        ensures
            r == self.medium_spec(),
    ;

    /// The link-layer address of the device; all-zero for mediums without
    /// a real link layer.
    fn mac_address(&self) -> (r: EthernetAddress)
        ensures
            self.medium_spec() == Medium::Ip ==> r.is_zero_spec(),
    ;

    /// Cheap probe: can a packet be handed to the hardware queue now?
    fn can_transmit(&self) -> bool;

    /// Cheap probe: is an inbound packet buffered?
    fn can_receive(&self) -> (r: bool)
        ensures
            r == (self.rx_queue().len() > 0),
    ;

    /// Depth of the receive queue.
    fn rx_queue_size(&self) -> usize;

    /// Depth of the transmit queue.
    fn tx_queue_size(&self) -> usize;

    /// Give a previously leased receive buffer back to the driver's free
    /// pool. Fails only on driver-internal inconsistency, which callers
    /// treat as a device fault.
    fn recycle_rx_buffer(&mut self, rx_buf: NetBuf) -> (r: Result<(), NetError>)
        ensures
            final(self).rx_queue() == old(self).rx_queue(),
            final(self).medium_spec() == old(self).medium_spec(),
            r is Ok ==> final(self).rx_recycled() == old(self).rx_recycled() + 1,
            r is Err ==> final(self).rx_recycled() == old(self).rx_recycled(),
    ;

    /// Reclaim completed transmit buffers. Must run once per poll cycle
    /// before readiness probes are trusted.
    fn recycle_tx_buffers(&mut self) -> (r: Result<(), NetError>)
        ensures
            final(self).rx_queue() == old(self).rx_queue(),
            final(self).rx_recycled() == old(self).rx_recycled(),
            final(self).medium_spec() == old(self).medium_spec(),
    ;

    /// Hand a filled buffer to the hardware queue, without blocking. Fails
    /// only on queue-full or device-fault conditions.
    fn transmit(&mut self, tx_buf: NetBuf) -> (r: Result<(), NetError>)
        ensures
            final(self).rx_recycled() == old(self).rx_recycled(),
            final(self).medium_spec() == old(self).medium_spec(),
            r is Err ==> final(self).rx_queue() == old(self).rx_queue(),
    ;

    /// Take the next buffered inbound packet. When the queue is empty this
    /// fails with `Again`: a signal to stop polling this cycle, not an
    /// error.
    fn receive(&mut self) -> (r: Result<NetBuf, NetError>)
        ensures
            final(self).rx_recycled() == old(self).rx_recycled(),
            final(self).medium_spec() == old(self).medium_spec(),
            old(self).rx_queue().len() == 0 ==> r == Result::<NetBuf, NetError>::Err(NetError::Again),
            r matches Ok(buf) ==> old(self).rx_queue().len() > 0
                && buf@ == old(self).rx_queue()[0]
                && final(self).rx_queue() == old(self).rx_queue().drop_first(),
            r is Err ==> final(self).rx_queue() == old(self).rx_queue(),
    ;

    /// Lease a zero-initialized transmit buffer of exactly `size` bytes.
    /// Fails only if the driver cannot satisfy the request.
    fn alloc_tx_buffer(&mut self, size: usize) -> (r: Result<NetBuf, NetError>)
        ensures
            final(self).rx_queue() == old(self).rx_queue(),
            final(self).rx_recycled() == old(self).rx_recycled(),
            final(self).medium_spec() == old(self).medium_spec(),
            r matches Ok(buf) ==> buf@.len() == size
                && forall|i: int| 0 <= i < size ==> buf@[i] == 0,
    ;
}

} // verus!
