//! The device bridge: adapts a driver's buffer-lease model to the protocol
//! engine's two-phase token protocol, and runs the SYN-snoop hook on every
//! inbound packet before the engine sees it.

use vstd::prelude::*;

use smoltcp::iface::SocketSet;

use crate::addr::Medium;
use crate::buf::{NetBuf, NetBufOps};
use crate::common::{NetError, STANDARD_MTU};
use crate::driver::NetDriverOps;
use crate::listen_table::{incoming_post, ListenTable};
use crate::snoop::{snoop_tcp_syn, syn_snoop};
use crate::sockets::{owned_storage, tcp_handle_ids};

verus! {

/// What the bridge reports to the protocol engine about its device.
pub struct DeviceCaps {
    pub max_transmission_unit: usize,
    pub medium: Medium,
}

/// One pending receive operation: the leased inbound buffer. The token is
/// not cloneable, and both ways of finishing it consume it, so the lease is
/// recycled at most once and never read afterwards.
pub struct NetRxToken {
    buf: NetBuf,
}

impl NetRxToken {
    /// The bytes of the inbound packet.
    pub closed spec fn contents(&self) -> Seq<u8> {
        self.buf@
    }

    /// Borrow the packet for inspection.
    pub fn packet(&self) -> (r: &NetBuf)
        ensures
            r@ == self.contents(),
    {
        &self.buf
    }

    /// Run the SYN-snoop hook on the packet: if it is a well-formed TCP SYN
    /// without ACK, report its endpoints to the listen table, which may
    /// pre-create a connected socket in `sockets`. Every other packet — the
    /// malformed included — changes nothing. The packet itself is never
    /// rejected or altered; it flows on to the engine either way.
    pub fn preprocess(
        &self,
        medium: Medium,
        table: &mut ListenTable,
        sockets: &mut SocketSet<'static>,
    )
        requires
            old(table).wf(tcp_handle_ids(*old(sockets))),
            owned_storage(*old(sockets)),
        ensures
            final(table).wf(tcp_handle_ids(*final(sockets))),
            owned_storage(*final(sockets)),
            match syn_snoop(self.contents(), medium == Medium::Ethernet) {
                Some(endpoints) => incoming_post(
                    old(table)@,
                    final(table)@,
                    tcp_handle_ids(*old(sockets)),
                    tcp_handle_ids(*final(sockets)),
                    endpoints.0,
                    endpoints.1,
                ),
                None => final(table)@ == old(table)@ && tcp_handle_ids(*final(sockets))
                    == tcp_handle_ids(*old(sockets)),
            },
    {
        let is_ethernet = match medium {
            Medium::Ethernet => true,
            Medium::Ip => false,
        };
        match snoop_tcp_syn(self.buf.packet(), is_ethernet) {
            Some((src, dst)) => {
                table.incoming_tcp_packet(src, dst, sockets);
            },
            None => {},
        }
    }
}

/// Wraps one driver instance with exclusive ownership: the single mutator
/// the concurrency model demands is the `&mut` receiver itself.
pub struct NetDeviceWrapper<D: NetDriverOps> {
    dev: D,
}

impl<D: NetDriverOps> NetDeviceWrapper<D> {
    /// The wrapped driver, for stating what operations did to its model.
    pub closed spec fn driver(&self) -> D {
        self.dev
    }

    pub fn new(dev: D) -> (r: Self)
        ensures
            r.driver() == dev,
    {
        NetDeviceWrapper { dev }
    }

    /// Borrow the wrapped driver, e.g. to read its readiness probes.
    pub fn driver_ref(&self) -> (r: &D)
        ensures
            *r == self.driver(),
    {
        &self.dev
    }

    /// One receive poll: drain transmit completions first (readiness is not
    /// trusted until they are), then take the next inbound packet as a
    /// token. Reports nothing to receive — not an error — when the queue is
    /// empty or the driver says not ready.
    pub fn receive(&mut self) -> (r: Option<NetRxToken>)
        ensures
            final(self).driver().rx_recycled() == old(self).driver().rx_recycled(),
            final(self).driver().medium_spec() == old(self).driver().medium_spec(),
            old(self).driver().rx_queue().len() == 0 ==> r is None,
            r matches Some(tok) ==> old(self).driver().rx_queue().len() > 0 && tok.contents()
                == old(self).driver().rx_queue()[0] && final(self).driver().rx_queue() == old(
                self,
            ).driver().rx_queue().drop_first(),
            r is None ==> final(self).driver().rx_queue() == old(self).driver().rx_queue(),
    {
        if self.dev.recycle_tx_buffers().is_err() {
            return None;
        }
        if !self.dev.can_receive() {
            return None;
        }
        match self.dev.receive() {
            Ok(buf) => Some(NetRxToken { buf }),
            Err(_) => None,
        }
    }

    /// One transmit poll: drain completions, then report whether a
    /// transmit token is available this cycle.
    pub fn transmit(&mut self) -> (r: bool)
        ensures
            final(self).driver().rx_queue() == old(self).driver().rx_queue(),
            final(self).driver().rx_recycled() == old(self).driver().rx_recycled(),
            final(self).driver().medium_spec() == old(self).driver().medium_spec(),
    {
        if self.dev.recycle_tx_buffers().is_err() {
            return false;
        }
        self.dev.can_transmit()
    }

    /// Finish a receive token: give its lease back to the driver's pool.
    /// This is the only way a lease returns, and the token is consumed, so
    /// each received buffer is recycled exactly once and never exposed
    /// after. A failure is a device fault; the buffer is abandoned.
    pub fn rx_recycle(&mut self, token: NetRxToken) -> (r: Result<(), NetError>)
        ensures
            final(self).driver().rx_queue() == old(self).driver().rx_queue(),
            final(self).driver().medium_spec() == old(self).driver().medium_spec(),
            r is Ok ==> final(self).driver().rx_recycled() == old(self).driver().rx_recycled()
                + 1,
            r is Err ==> final(self).driver().rx_recycled() == old(self).driver().rx_recycled(),
    {
        self.dev.recycle_rx_buffer(token.buf)
    }

    /// Consume a transmit token: lease a zero-filled buffer of exactly
    /// `len` bytes for the engine's fill function. Allocation failure drops
    /// the packet silently at this layer.
    pub fn tx_alloc(&mut self, len: usize) -> (r: Option<NetBuf>)
        ensures
            final(self).driver().rx_queue() == old(self).driver().rx_queue(),
            final(self).driver().rx_recycled() == old(self).driver().rx_recycled(),
            final(self).driver().medium_spec() == old(self).driver().medium_spec(),
            r matches Some(buf) ==> buf@.len() == len && forall|i: int|
                0 <= i < len ==> buf@[i] == 0,
    {
        match self.dev.alloc_tx_buffer(len) {
            Ok(buf) => Some(buf),
            Err(_) => None,
        }
    }

    /// Hand a filled buffer to the hardware queue. Failure (queue full,
    /// device fault) drops the packet; retransmission, if any, is the
    /// protocol engine's business.
    pub fn tx_send(&mut self, buf: NetBuf) -> (r: Result<(), NetError>)
        ensures
            final(self).driver().rx_recycled() == old(self).driver().rx_recycled(),
            final(self).driver().medium_spec() == old(self).driver().medium_spec(),
            r is Err ==> final(self).driver().rx_queue() == old(self).driver().rx_queue(),
    {
        self.dev.transmit(buf)
    }

    /// The fixed capability report: a full-Ethernet-frame MTU and the
    /// driver's medium kind.
    pub fn capabilities(&self) -> (r: DeviceCaps)
        ensures
            r.max_transmission_unit == STANDARD_MTU,
            r.medium == self.driver().medium_spec(),
    {
        DeviceCaps { max_transmission_unit: STANDARD_MTU, medium: self.dev.medium() }
    }

    /// The medium of the wrapped driver.
    pub fn medium(&self) -> (r: Medium)
        ensures
            r == self.driver().medium_spec(),
    {
        self.dev.medium()
    }
}

} // verus!
