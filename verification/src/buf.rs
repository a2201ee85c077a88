//! Buffer leases: the byte regions drivers hand out for exactly one
//! transmit or receive operation.

use vstd::prelude::*;

verus! {

/// The tiny read contract any leased byte region satisfies.
pub trait NetBufOps {
    /// The bytes the lease currently holds.
    spec fn contents(&self) -> Seq<u8>;

    /// Borrow the packet bytes.
    fn packet(&self) -> (r: &[u8])
        ensures
            r@ == self.contents(),
    ;

    /// Length of the packet in bytes.
    fn packet_len(&self) -> (r: usize)
        ensures
            r == self.contents().len(),
    ;
}

/// A driver-owned byte region, leased out for one operation. Leases are not
/// cloneable and are consumed exactly once, so no two holders can ever touch
/// the same region.
pub struct NetBuf {
    data: Vec<u8>,
}

impl View for NetBuf {
    type V = Seq<u8>;

    closed spec fn view(&self) -> Seq<u8> {
        self.data@
    }
}

impl NetBuf {
    pub fn from_vec(data: Vec<u8>) -> (r: Self)
        ensures
            r@ == data@,
    {
        NetBuf { data }
    }

    /// A fresh zero-filled buffer of exactly `size` bytes.
    pub fn zeroed(size: usize) -> (r: Self)
        ensures
            r@.len() == size,
            forall|i: int| 0 <= i < size ==> r@[i] == 0,
    {
        let mut data: Vec<u8> = Vec::new();
        let mut i: usize = 0;
        while i < size
            invariant
                0 <= i <= size,
                data@.len() == i,
                forall|j: int| 0 <= j < i ==> data@[j] == 0,
            decreases size - i,
        {
            data.push(0);
            i = i + 1;
        }
        NetBuf { data }
    }

    /// Give up the lease, keeping only the bytes.
    pub fn into_vec(self) -> (r: Vec<u8>)
        ensures
            r@ == self@,
    {
        self.data
    }

    /// Overwrite one byte of the packet.
    pub fn set_byte(&mut self, i: usize, v: u8)
        requires
            i < old(self)@.len(),
        ensures
            final(self)@ == old(self)@.update(i as int, v),
    {
        self.data[i] = v;
    }

    /// Read one byte of the packet.
    pub fn byte(&self, i: usize) -> (r: u8)
        requires
            i < self@.len(),
        ensures
            r == self@[i as int],
    {
        self.data[i]
    }

    /// Copy `src` over the front of the packet, leaving the rest unchanged.
    pub fn write_prefix(&mut self, src: &[u8])
        requires
            src@.len() <= old(self)@.len(),
        ensures
            final(self)@.len() == old(self)@.len(),
            forall|i: int| 0 <= i < src@.len() ==> final(self)@[i] == src@[i],
            forall|i: int| src@.len() <= i < old(self)@.len() ==> final(self)@[i] == old(self)@[i],
    {
        let mut i: usize = 0;
        while i < src.len()
            invariant
                0 <= i <= src@.len(),
                src@.len() <= self@.len(),
                self@.len() == old(self)@.len(),
                forall|j: int| 0 <= j < i ==> self@[j] == src@[j],
                forall|j: int| i <= j < self@.len() ==> self@[j] == old(self)@[j],
            decreases src@.len() - i,
        {
            let v = src[i];
            self.data[i] = v;
            i = i + 1;
        }
    }
}

impl NetBufOps for NetBuf {
    open spec fn contents(&self) -> Seq<u8> {
        self.view()
    }

    fn packet(&self) -> (r: &[u8]) {
        self.data.as_slice()
    }

    fn packet_len(&self) -> (r: usize) {
        self.data.len()
    }
}

} // verus!
