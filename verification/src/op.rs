//! The five transfer-operation descriptors.

use vstd::prelude::*;
use crate::buffer::{Buf, RawFd, RegionDesc};

verus! {

/// The platform's maximal socket-address representation, libc's
/// sockaddr_storage. Opaque here: only its size matters to this layer.
#[verifier::external_type_specification]
#[verifier::external_body]
pub struct ExSockaddrStorage(libc::sockaddr_storage);

/// Relies on core::mem::size_of for libc::sockaddr_storage: the result is
/// that type's size, as vstd's size_of names it, and the platform's
/// maximal socket-address representation is at least one byte wide and its
/// size fits a socklen_t.
#[verifier::external_body]
fn sockaddr_storage_size() -> (r: usize)
    ensures
        r as nat == vstd::layout::size_of::<libc::sockaddr_storage>(),
        1 <= r <= 0xffff_ffffusize,
{
    core::mem::size_of::<libc::sockaddr_storage>()
}

/// A remote peer's socket address as the kernel wrote it: the raw bytes of
/// the platform address structure, family and payload included.
pub struct RawAddr {
    pub bytes: Vec<u8>,
}

/// Accept a connection: owns a fixed-capacity scratch region for the kernel
/// to fill with the remote peer's address, and the length the kernel
/// reports for it.
pub struct Accept {
    fd: RawFd,
    buffer: Vec<u8>,
    addr_len: u32,
}

impl Accept {
    pub closed spec fn spec_fd(&self) -> RawFd {
        self.fd
    }

    /// The scratch region's bytes, capacity-many.
    pub closed spec fn spec_storage(&self) -> Seq<u8> {
        self.buffer@
    }

    /// The reported address length.
    pub closed spec fn spec_addr_len(&self) -> u32 {
        self.addr_len
    }

    /// The reported length never exceeds the scratch capacity, which itself
    /// fits a socklen_t.
    pub open spec fn wf(&self) -> bool {
        self.spec_addr_len() as nat <= self.spec_storage().len() <= 0xffff_ffff
    }

    /// Allocate a zeroed scratch region sized to the platform's maximal
    /// socket-address representation; the reported length starts at that
    /// full capacity. Pure value construction, no I/O.
    pub fn new(fd: RawFd) -> (r: Self)
        ensures
            r.wf(),
            r.spec_fd() == fd,
            r.spec_storage().len() == vstd::layout::size_of::<libc::sockaddr_storage>(),
            1 <= r.spec_storage().len(),
            r.spec_addr_len() as nat == r.spec_storage().len(),
            forall|i: int| 0 <= i < r.spec_storage().len() ==> r.spec_storage()[i] == 0u8,
    {
        let cap = sockaddr_storage_size();
        let mut buffer: Vec<u8> = Vec::new();
        while buffer.len() < cap
            invariant
                buffer@.len() <= cap,
                forall|i: int| 0 <= i < buffer@.len() ==> buffer@[i] == 0u8,
            decreases cap - buffer.len(),
        {
            buffer.push(0u8);
        }
        Accept { fd, buffer, addr_len: cap as u32 }
    }

    pub fn fd(&self) -> (r: RawFd)
        ensures
            r == self.spec_fd(),
    {
        self.fd
    }

    /// The scratch region's full capacity in bytes.
    pub fn capacity(&self) -> (r: usize)
        ensures
            r == self.spec_storage().len(),
    {
        self.buffer.len()
    }

    /// The reported address length as it currently stands.
    pub fn addr_len(&self) -> (r: u32)
        ensures
            r == self.spec_addr_len(),
    {
        self.addr_len
    }

    /// Driver-facing: the kernel wrote the peer's address, `addr.len()`
    /// bytes, at the start of the scratch region and overwrote the reported
    /// length with that count. The rest of the region keeps its old bytes.
    pub fn record_addr(&mut self, addr: &Vec<u8>)
        requires
            old(self).wf(),
            addr@.len() <= old(self).spec_storage().len(),
        ensures
            final(self).wf(),
            final(self).spec_fd() == old(self).spec_fd(),
            final(self).spec_addr_len() as nat == addr@.len(),
            final(self).spec_storage() == addr@ + old(self).spec_storage().skip(addr@.len() as int),
    {
        let n = addr.len();
        let mut i: usize = 0;
        while i < n
            invariant
                i <= n,
                n == addr@.len(),
                n <= self.buffer@.len(),
                self.fd == old(self).spec_fd(),
                self.addr_len == old(self).spec_addr_len(),
                self.buffer@.len() == old(self).spec_storage().len(),
                forall|j: int| 0 <= j < i ==> self.buffer@[j] == addr@[j],
                forall|j: int|
                    i <= j < self.buffer@.len() ==> self.buffer@[j] == old(
                        self,
                    ).spec_storage()[j],
            decreases n - i,
        {
            let v = addr[i];
            self.buffer.set(i, v);
            i = i + 1;
        }
        self.addr_len = n as u32;
        proof {
            assert(self.buffer@ =~= addr@ + old(self).spec_storage().skip(addr@.len() as int));
        }
    }

    /// One-shot consuming extraction of the remote address: exactly the
    /// first `addr_len` bytes of the scratch region, no more.
    pub fn into_addr(self) -> (r: RawAddr)
        requires
            self.wf(),
        ensures
            r.bytes@ == self.spec_storage().take(self.spec_addr_len() as int),
    {
        let n = self.addr_len as usize;
        let mut bytes: Vec<u8> = Vec::new();
        while bytes.len() < n
            invariant
                bytes@.len() <= n,
                n <= self.buffer@.len(),
                forall|j: int| 0 <= j < bytes@.len() ==> bytes@[j] == self.buffer@[j],
            decreases n - bytes.len(),
        {
            let v = self.buffer[bytes.len()];
            bytes.push(v);
        }
        proof {
            assert(bytes@ =~= self.spec_storage().take(self.spec_addr_len() as int));
        }
        RawAddr { bytes }
    }
}

/// Writing a peer address into the scratch region and then decoding the
/// reported length's worth of bytes yields exactly the written address.
pub proof fn lemma_addr_roundtrip(stored: Seq<u8>, written: Seq<u8>)
    requires
        written.len() <= stored.len(),
    ensures
        (written + stored.skip(written.len() as int)).take(written.len() as int) == written,
{
    assert((written + stored.skip(written.len() as int)).take(written.len() as int) =~= written);
}

/// Receive data from remote into one owned buffer.
pub struct Recv {
    fd: RawFd,
    buffer: Buf,
}

impl Recv {
    pub closed spec fn spec_fd(&self) -> RawFd {
        self.fd
    }

    pub closed spec fn spec_buffer(&self) -> Buf {
        self.buffer
    }

    /// The descriptor a construction yields: the handle and the very buffer
    /// supplied, nothing else.
    pub closed spec fn spec_new(fd: RawFd, buffer: Buf) -> Recv {
        Recv { fd, buffer }
    }

    /// Take ownership of `buffer` for one pending receive on `fd`.
    pub fn new(fd: RawFd, buffer: Buf) -> (r: Self)
        ensures
            r == Recv::spec_new(fd, buffer),
            r.spec_fd() == fd,
            r.spec_buffer() == buffer,
    {
        Recv { fd, buffer }
    }

    pub fn fd(&self) -> (r: RawFd)
        ensures
            r == self.spec_fd(),
    {
        self.fd
    }

    /// Arming: the single destination region, the buffer's address and its
    /// full capacity.
    pub fn region(&self) -> (r: RegionDesc)
        ensures
            r.addr == self.spec_buffer().spec_addr(),
            r.len == self.spec_buffer().spec_capacity(),
    {
        RegionDesc { addr: self.buffer.addr(), len: self.buffer.capacity() }
    }

    /// One-shot consuming extraction of the owned buffer, unchanged.
    pub fn into_inner(self) -> (r: Buf)
        ensures
            r == self.spec_buffer(),
    {
        self.buffer
    }
}

/// Send data to remote from one owned buffer.
pub struct Send {
    fd: RawFd,
    buffer: Buf,
}

impl Send {
    pub closed spec fn spec_fd(&self) -> RawFd {
        self.fd
    }

    pub closed spec fn spec_buffer(&self) -> Buf {
        self.buffer
    }

    /// The descriptor a construction yields: the handle and the very buffer
    /// supplied, nothing else.
    pub closed spec fn spec_new(fd: RawFd, buffer: Buf) -> Send {
        Send { fd, buffer }
    }

    /// Take ownership of `buffer` for one pending send on `fd`.
    pub fn new(fd: RawFd, buffer: Buf) -> (r: Self)
        ensures
            r == Send::spec_new(fd, buffer),
            r.spec_fd() == fd,
            r.spec_buffer() == buffer,
    {
        Send { fd, buffer }
    }

    pub fn fd(&self) -> (r: RawFd)
        ensures
            r == self.spec_fd(),
    {
        self.fd
    }

    /// Arming: the single source region, the buffer's address and its count
    /// of valid bytes to send.
    pub fn region(&self) -> (r: RegionDesc)
        ensures
            r.addr == self.spec_buffer().spec_addr(),
            r.len == self.spec_buffer().spec_len(),
    {
        RegionDesc { addr: self.buffer.addr(), len: self.buffer.len() }
    }

    /// One-shot consuming extraction of the owned buffer, unchanged.
    pub fn into_inner(self) -> (r: Buf)
        ensures
            r == self.spec_buffer(),
    {
        self.buffer
    }
}

/// The scatter list a collection of writable buffers projects to: one region
/// per buffer, in collection order, each with the buffer's address and its
/// full capacity.
pub open spec fn recv_regions(bufs: Seq<Buf>) -> Seq<RegionDesc> {
    bufs.map(|i: int, b: Buf| RegionDesc { addr: b.spec_addr(), len: b.spec_capacity() as usize })
}

/// The gather list a collection of readable buffers projects to: one region
/// per buffer, in collection order, each with the buffer's address and its
/// count of valid bytes to send.
pub open spec fn send_regions(bufs: Seq<Buf>) -> Seq<RegionDesc> {
    bufs.map(|i: int, b: Buf| RegionDesc { addr: b.spec_addr(), len: b.spec_len() as usize })
}

/// Receive data from remote into an ordered collection of owned buffers.
///
/// The region list is a disposable, kernel-facing projection: empty at
/// construction, rebuilt from the buffers on every arming, never handed to
/// the caller.
pub struct RecvVectored {
    fd: RawFd,
    buffer: Vec<Buf>,
    slices: Vec<RegionDesc>,
}

impl RecvVectored {
    pub closed spec fn spec_fd(&self) -> RawFd {
        self.fd
    }

    pub closed spec fn spec_buffers(&self) -> Seq<Buf> {
        self.buffer@
    }

    pub closed spec fn spec_slices(&self) -> Seq<RegionDesc> {
        self.slices@
    }

    /// Take ownership of the ordered buffer collection for one pending
    /// scatter receive on `fd`. The region list is not built here.
    pub fn new(fd: RawFd, buffer: Vec<Buf>) -> (r: Self)
        ensures
            r.spec_fd() == fd,
            r.spec_buffers() == buffer@,
            r.spec_slices() == Seq::<RegionDesc>::empty(),
    {
        RecvVectored { fd, buffer, slices: Vec::new() }
    }

    pub fn fd(&self) -> (r: RawFd)
        ensures
            r == self.spec_fd(),
    {
        self.fd
    }

    /// Arming: rebuild the scatter list from the owned buffers, one region
    /// per buffer in collection order, each carrying the buffer's address
    /// and full capacity. The buffers themselves are untouched.
    pub fn arm(&mut self)
        ensures
            final(self).spec_fd() == old(self).spec_fd(),
            final(self).spec_buffers() == old(self).spec_buffers(),
            final(self).spec_slices() == recv_regions(old(self).spec_buffers()),
    {
        self.slices = Vec::new();
        let n = self.buffer.len();
        let mut i: usize = 0;
        while i < n
            invariant
                n == self.buffer.len(),
                i <= n,
                self.fd == old(self).spec_fd(),
                self.buffer@ == old(self).spec_buffers(),
                self.slices@ =~= recv_regions(old(self).spec_buffers()).take(i as int),
            decreases n - i,
        {
            let b = &self.buffer[i];
            self.slices.push(RegionDesc { addr: b.addr(), len: b.capacity() });
            i = i + 1;
        }
        proof {
            assert(self.slices@ =~= recv_regions(old(self).spec_buffers()));
        }
    }

    /// The scatter list as last built by `arm`: driver-facing only.
    pub fn slices(&self) -> (r: &Vec<RegionDesc>)
        ensures
            r@ == self.spec_slices(),
    {
        &self.slices
    }

    /// One-shot consuming extraction of the owned buffer collection, in
    /// original order, identity intact.
    pub fn into_inner(self) -> (r: Vec<Buf>)
        ensures
            r@ == self.spec_buffers(),
    {
        self.buffer
    }
}

/// Send data to remote from an ordered collection of owned buffers.
///
/// The region list is a disposable, kernel-facing projection: empty at
/// construction, rebuilt from the buffers on every arming, never handed to
/// the caller.
pub struct SendVectored {
    fd: RawFd,
    buffer: Vec<Buf>,
    slices: Vec<RegionDesc>,
}

impl SendVectored {
    pub closed spec fn spec_fd(&self) -> RawFd {
        self.fd
    }

    pub closed spec fn spec_buffers(&self) -> Seq<Buf> {
        self.buffer@
    }

    pub closed spec fn spec_slices(&self) -> Seq<RegionDesc> {
        self.slices@
    }

    /// Take ownership of the ordered buffer collection for one pending
    /// gather send on `fd`. The region list is not built here.
    pub fn new(fd: RawFd, buffer: Vec<Buf>) -> (r: Self)
        ensures
            r.spec_fd() == fd,
            r.spec_buffers() == buffer@,
            r.spec_slices() == Seq::<RegionDesc>::empty(),
    {
        SendVectored { fd, buffer, slices: Vec::new() }
    }

    pub fn fd(&self) -> (r: RawFd)
        ensures
            r == self.spec_fd(),
    {
        self.fd
    }

    /// Arming: rebuild the gather list from the owned buffers, one region
    /// per buffer in collection order, each carrying the buffer's address
    /// and count of valid bytes. The buffers themselves are untouched.
    pub fn arm(&mut self)
        ensures
            final(self).spec_fd() == old(self).spec_fd(),
            final(self).spec_buffers() == old(self).spec_buffers(),
            final(self).spec_slices() == send_regions(old(self).spec_buffers()),
    {
        self.slices = Vec::new();
        let n = self.buffer.len();
        let mut i: usize = 0;
        while i < n
            invariant
                n == self.buffer.len(),
                i <= n,
                self.fd == old(self).spec_fd(),
                self.buffer@ == old(self).spec_buffers(),
                self.slices@ =~= send_regions(old(self).spec_buffers()).take(i as int),
            decreases n - i,
        {
            let b = &self.buffer[i];
            self.slices.push(RegionDesc { addr: b.addr(), len: b.len() });
            i = i + 1;
        }
        proof {
            assert(self.slices@ =~= send_regions(old(self).spec_buffers()));
        }
    }

    /// The gather list as last built by `arm`: driver-facing only.
    pub fn slices(&self) -> (r: &Vec<RegionDesc>)
        ensures
            r@ == self.spec_slices(),
    {
        &self.slices
    }

    /// One-shot consuming extraction of the owned buffer collection, in
    /// original order, identity intact.
    pub fn into_inner(self) -> (r: Vec<Buf>)
        ensures
            r@ == self.spec_buffers(),
    {
        self.buffer
    }
}

/// Constructing a receive descriptor and extracting it, with no arming or
/// completion in between, hands back the very buffer supplied.
pub proof fn lemma_recv_roundtrip(fd: RawFd, b: Buf)
    ensures
        Recv::spec_new(fd, b).spec_buffer() == b,
{
}

/// Constructing a send descriptor and extracting it, with no arming or
/// completion in between, hands back the very buffer supplied.
pub proof fn lemma_send_roundtrip(fd: RawFd, b: Buf)
    ensures
        Send::spec_new(fd, b).spec_buffer() == b,
{
}

/// Arming a scatter receive yields exactly one region per buffer, in
/// collection order: region `i` carries buffer `i`'s address and its full
/// capacity.
pub proof fn lemma_recv_regions_pointwise(bufs: Seq<Buf>)
    ensures
        recv_regions(bufs).len() == bufs.len(),
        forall|i: int|
            0 <= i < bufs.len() ==> recv_regions(bufs)[i] == (RegionDesc {
                addr: bufs[i].spec_addr(),
                len: bufs[i].spec_capacity() as usize,
            }),
{
}

/// Arming a gather send yields exactly one region per buffer, in collection
/// order: region `i` carries buffer `i`'s address and its count of valid
/// bytes.
pub proof fn lemma_send_regions_pointwise(bufs: Seq<Buf>)
    ensures
        send_regions(bufs).len() == bufs.len(),
        forall|i: int|
            0 <= i < bufs.len() ==> send_regions(bufs)[i] == (RegionDesc {
                addr: bufs[i].spec_addr(),
                len: bufs[i].spec_len() as usize,
            }),
{
}

/// Arming over an empty buffer collection yields an empty region list, for
/// the scatter and the gather projection alike.
pub proof fn lemma_regions_empty()
    ensures
        recv_regions(Seq::<Buf>::empty()) == Seq::<RegionDesc>::empty(),
        send_regions(Seq::<Buf>::empty()) == Seq::<RegionDesc>::empty(),
{
    assert(recv_regions(Seq::<Buf>::empty()) =~= Seq::<RegionDesc>::empty());
    assert(send_regions(Seq::<Buf>::empty()) =~= Seq::<RegionDesc>::empty());
}

} // verus!
