//! The owned-buffer capability and the kernel-facing region shape.

use vstd::prelude::*;

verus! {

/// OS-level I/O endpoint identifier (a Unix file descriptor).
pub type RawFd = i32;

/// One kernel-facing memory region: a start address and a byte length, in
/// the shape a scatter/gather submission expects.
#[derive(Clone, Copy, PartialEq, Eq, Structural, Debug)]
pub struct RegionDesc {
    pub addr: u64,
    pub len: usize,
}

/// An owned buffer lent to an in-flight operation: a stable start address,
/// a fixed-capacity byte store, and a count of valid (initialized) bytes.
///
/// The address is a plain value standing for the region's start; it stays
/// fixed for as long as the buffer is lent to a descriptor.
pub struct Buf {
    addr: u64,
    data: Vec<u8>,
    init: usize,
}

impl Buf {
    /// The buffer's stable start address.
    pub closed spec fn spec_addr(&self) -> u64 {
        self.addr
    }

    /// Full capacity in bytes.
    pub closed spec fn spec_capacity(&self) -> nat {
        self.data@.len()
    }

    /// Number of valid bytes.
    pub closed spec fn spec_len(&self) -> nat {
        self.init as nat
    }

    /// The backing bytes, capacity-many.
    pub closed spec fn spec_bytes(&self) -> Seq<u8> {
        self.data@
    }

    /// Valid bytes never exceed capacity.
    pub open spec fn wf(&self) -> bool {
        self.spec_len() <= self.spec_capacity()
    }

    /// A writable buffer of `capacity` zeroed bytes, none of them valid yet.
    pub fn new(addr: u64, capacity: usize) -> (r: Buf)
        ensures
            r.wf(),
            r.spec_addr() == addr,
            r.spec_capacity() == capacity,
            r.spec_len() == 0,
            r.spec_bytes() == Seq::new(capacity as nat, |i: int| 0u8),
    {
        let mut data: Vec<u8> = Vec::new();
        while data.len() < capacity
            invariant
                data@.len() <= capacity,
                forall|i: int| 0 <= i < data@.len() ==> data@[i] == 0u8,
            decreases capacity - data.len(),
        {
            data.push(0u8);
        }
        proof {
            assert(data@ =~= Seq::new(capacity as nat, |i: int| 0u8));
        }
        Buf { addr, data, init: 0 }
    }

    /// A readable buffer over caller-supplied bytes, all of them valid.
    pub fn from_vec(addr: u64, data: Vec<u8>) -> (r: Buf)
        ensures
            r.wf(),
            r.spec_addr() == addr,
            r.spec_bytes() == data@,
            r.spec_capacity() == data@.len(),
            r.spec_len() == data@.len(),
    {
        let init = data.len();
        Buf { addr, data, init }
    }

    pub fn addr(&self) -> (r: u64)
        ensures
            r == self.spec_addr(),
    {
        self.addr
    }

    pub fn capacity(&self) -> (r: usize)
        ensures
            r == self.spec_capacity(),
    {
        self.data.len()
    }

    pub fn len(&self) -> (r: usize)
        ensures
            r == self.spec_len(),
    {
        self.init
    }

    pub fn bytes(&self) -> (r: &Vec<u8>)
        ensures
            r@ == self.spec_bytes(),
    {
        &self.data
    }

    /// Driver-facing: record how many of the bytes are valid after a
    /// completed transfer. Address, capacity and contents are untouched.
    pub fn set_len(&mut self, n: usize)
        requires
            n <= old(self).spec_capacity(),
        ensures
            final(self).wf(),
            final(self).spec_len() == n,
            final(self).spec_addr() == old(self).spec_addr(),
            final(self).spec_bytes() == old(self).spec_bytes(),
    {
        self.init = n;
    }
}

} // verus!
