//! The loopback driver: everything transmitted comes straight back on the
//! receive side, byte for byte.

use vstd::prelude::*;
use std::collections::VecDeque;

use crate::addr::{EthernetAddress, Medium};
use crate::buf::NetBuf;
use crate::common::NetError;
use crate::driver::NetDriverOps;

verus! {

/// A software NIC whose wire is a FIFO of frames: transmitted packets are
/// queued and handed back by `receive` in order.
pub struct LoopbackDev {
    queue: VecDeque<Vec<u8>>,
    recycled: Ghost<nat>,
}

impl LoopbackDev {
    pub fn new() -> (r: Self)
        ensures
            r.rx_queue() =~= Seq::<Seq<u8>>::empty(),
            r.rx_recycled() == 0,
    {
        let r = LoopbackDev { queue: VecDeque::new(), recycled: Ghost(0nat) };
        proof {
            assert(r.rx_queue() =~= Seq::<Seq<u8>>::empty());
        }
        r
    }
}

impl Default for LoopbackDev {
    fn default() -> (r: Self)
        ensures
            r.rx_queue() =~= Seq::<Seq<u8>>::empty(),
            r.rx_recycled() == 0,
    {
        Self::new()
    }
}

impl NetDriverOps for LoopbackDev {
    closed spec fn rx_queue(&self) -> Seq<Seq<u8>> {
        Seq::new(self.queue@.len(), |i: int| self.queue@[i]@)
    }

    closed spec fn rx_recycled(&self) -> nat {
        self.recycled@
    }

    closed spec fn medium_spec(&self) -> Medium {
        Medium::Ip
    }

    fn medium(&self) -> (r: Medium)
        ensures
            r == Medium::Ip,
    {
        Medium::Ip
    }

    fn mac_address(&self) -> (r: EthernetAddress)
        ensures
            r.is_zero_spec(),
    {
        EthernetAddress::zeroed()
    }

    fn can_transmit(&self) -> (r: bool)
        ensures
            r,
    {
        true
    }

    fn can_receive(&self) -> (r: bool) {
        self.queue.len() > 0
    }

    fn rx_queue_size(&self) -> (r: usize) {
        usize::MAX
    }

    fn tx_queue_size(&self) -> (r: usize) {
        usize::MAX
    }

    fn recycle_rx_buffer(&mut self, rx_buf: NetBuf) -> (r: Result<(), NetError>)
        ensures
            r is Ok,
    {
        proof {
            self.recycled@ = self.recycled@ + 1;
        }
        Ok(())
    }

    fn recycle_tx_buffers(&mut self) -> (r: Result<(), NetError>)
        ensures
            r is Ok,
    {
        Ok(())
    }

    /// On loopback, transmitting appends the frame to the receive queue.
    fn transmit(&mut self, tx_buf: NetBuf) -> (r: Result<(), NetError>)
        ensures
            r is Ok,
            final(self).rx_queue() == old(self).rx_queue().push(tx_buf@),
    {
        let data = tx_buf.into_vec();
        self.queue.push_back(data);
        proof {
            assert(self.rx_queue() =~= old(self).rx_queue().push(data@));
        }
        Ok(())
    }

    fn receive(&mut self) -> (r: Result<NetBuf, NetError>)
        ensures
            old(self).rx_queue().len() > 0 ==> r is Ok,
    {
        match self.queue.pop_front() {
            Some(data) => {
                proof {
                    assert(self.rx_queue() =~= old(self).rx_queue().drop_first());
                }
                Ok(NetBuf::from_vec(data))
            },
            None => Err(NetError::Again),
        }
    }

    fn alloc_tx_buffer(&mut self, size: usize) -> (r: Result<NetBuf, NetError>)
        ensures
            r is Ok,
    {
        Ok(NetBuf::zeroed(size))
    }
}

} // verus!
