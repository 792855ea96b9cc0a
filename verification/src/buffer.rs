//! The aligned, padded byte buffer.

use crate::layout::{align_offset, allocated_len, checked_padded_len, fits, padded_len, ALIGNMENT};
use vstd::prelude::*;

verus! {

/// `n` zero bytes.
pub open spec fn zeros(n: nat) -> Seq<u8> {
    Seq::new(n, |i: int| 0u8)
}

/// The bytes `s` followed by zero bytes up to the next block boundary: what
/// the storage of a buffer holds once `s` has been copied into fresh,
/// zero-filled storage.
pub open spec fn padded_bytes(s: Seq<u8>) -> Seq<u8> {
    s + zeros((padded_len(s.len()) - s.len()) as nat)
}

/// Bytes copied into fresh storage are found again at its front, and every
/// byte after them, up to the block boundary, is zero.
pub proof fn lemma_padded_bytes(s: Seq<u8>)
    ensures
        padded_bytes(s).len() == padded_len(s.len()),
        padded_bytes(s).subrange(0, s.len() as int) == s,
        forall|i: int| s.len() <= i < padded_bytes(s).len() ==> padded_bytes(s)[i] == 0u8,
        padded_bytes(zeros(s.len())) == zeros(padded_len(s.len())),
{
    assert(padded_bytes(s).subrange(0, s.len() as int) =~= s);
    assert(padded_bytes(zeros(s.len())) =~= zeros(padded_len(s.len())));
}

/// An exclusively owned run of bytes that starts on a 64-byte boundary and is
/// padded with spare bytes to a whole number of 64-byte blocks.
///
/// The backing vector is made once, 63 bytes longer than the padded region,
/// and never grows or shrinks; the region begins at the first aligned byte
/// within it. An empty buffer has an empty backing vector, which owns no
/// memory.
pub struct Buffer {
    storage: Vec<u8>,
    /// Where the region begins within `storage`.
    start: usize,
    /// The address of the region's first byte, taken when `storage` was made.
    base: usize,
    /// The size of the region as laid out.
    padded: usize,
    /// The number of usable bytes.
    len: usize,
}

impl View for Buffer {
    type V = Seq<u8>;

    /// The usable bytes, in order.
    closed spec fn view(&self) -> Seq<u8> {
        self.storage@.subrange(self.start as int, self.start + self.len)
    }
}

/// The address at which a vector keeps its elements.
///
/// Calls `Vec::as_ptr` and hands the pointer's address back as an integer.
/// Which number it is rests with the allocator. The contract claims only
/// what holds of every vector: its pointer is never null, and its elements
/// do not run past the end of the address space.
#[verifier::external_body]
fn address_of(v: &Vec<u8>) -> (addr: usize)
    ensures
        addr != 0,
        addr + v@.len() <= usize::MAX,
{
    v.as_ptr() as usize
}

/// The elements of a vector from index `i` up to `j`, borrowed mutably.
///
/// Indexes the vector by the range `i..j` (`IndexMut` of `Vec`), which
/// panics unless `i <= j <= len`. The contract claims that the part starts
/// out as that range of the vector, that it keeps its length for as long as
/// it is borrowed, and that when the borrow ends the vector is as before
/// except that the range holds what the part then holds.
#[verifier::external_body]
fn subrange_mut(v: &mut Vec<u8>, i: usize, j: usize) -> (part: &mut [u8])
    requires
        i <= j <= old(v)@.len(),
    ensures
        part@ == old(v)@.subrange(i as int, j as int),
        final(part)@.len() == j - i,
        final(v)@ == old(v)@.subrange(0, i as int) + final(part)@ + old(v)@.subrange(
            j as int,
            old(v)@.len() as int,
        ),
    no_unwind
{
    &mut v[i..j]
}

/// Overwrites the whole of `dst` with `src`, which is as long.
fn copy_into(dst: &mut [u8], src: &[u8])
    requires
        old(dst)@.len() == src@.len(),
    ensures
        final(dst)@ == src@,
{
    let n: usize = src.len();
    let mut i: usize = 0;
    while i < n
        invariant
            n == src@.len(),
            i <= n,
            dst@.len() == n,
            forall|k: int| 0 <= k < i ==> dst@[k] == src@[k],
        decreases n - i,
    {
        dst[i] = src[i];
        i += 1;
    }
    assert(dst@ =~= src@);
}

impl Buffer {
    /// What holds of every buffer: the region is laid out for the usable
    /// length and lies wholly within the backing vector, and its address is
    /// not null and, unless the buffer is empty, aligned.
    #[verifier::type_invariant]
    pub closed spec fn wf(&self) -> bool {
        &&& fits(self.len as nat)
        &&& self.base != 0
        &&& self.padded == allocated_len(self.len as nat)
        &&& self.len == 0 ==> self.storage@.len() == 0 && self.start == 0
        &&& self.len > 0 ==> self.storage@.len() == self.padded + 63 && self.start < 64
            && self.base % 64 == 0
    }

    /// Every byte of the region, usable bytes first, then the padding. An
    /// empty buffer has no region.
    pub closed spec fn allocated(&self) -> Seq<u8> {
        if self.len == 0 {
            Seq::empty()
        } else {
            self.storage@.subrange(self.start as int, self.start + self.padded)
        }
    }

    /// The bytes of the region that lie beyond the usable ones.
    pub open spec fn padding(&self) -> Seq<u8> {
        self.allocated().subrange(self@.len() as int, self.allocated().len() as int)
    }

    /// The address of the region's first byte.
    pub closed spec fn base_addr(&self) -> usize {
        self.base
    }

    /// What every buffer keeps to, whatever has been written to it: an
    /// empty buffer has no region at all; any other has a region of exactly
    /// the size laid out for its length, which begins with the usable bytes
    /// and starts at an aligned address. The address is never null.
    pub proof fn lemma_region(self)
        requires
            self.wf(),
        ensures
            fits(self@.len()),
            self.base_addr() != 0,
            self@.len() == 0 ==> self.allocated() == Seq::<u8>::empty(),
            self@.len() > 0 ==> self.allocated().len() == allocated_len(self@.len()),
            self@.len() > 0 ==> self.allocated().subrange(0, self@.len() as int) == self@,
            self@.len() > 0 ==> self.base_addr() % 64 == 0,
    {
        if self.len > 0 {
            assert(self.allocated().subrange(0, self@.len() as int) =~= self@);
        }
    }

    /// A buffer built from the bytes that `self` shows is its equal in what
    /// can be seen of it: the same length, the same usable bytes, and a
    /// region of the same size.
    pub proof fn lemma_round_trip(self, rebuilt: Buffer)
        requires
            self.wf(),
            rebuilt.wf(),
            rebuilt@ == self@,
            rebuilt.allocated() == padded_bytes(self@),
        ensures
            rebuilt@.len() == self@.len(),
            forall|i: int| 0 <= i < self@.len() ==> rebuilt@[i] == self@[i],
            rebuilt.allocated().len() == self.allocated().len(),
            allocated_len(rebuilt@.len()) == allocated_len(self@.len()),
    {
    }

    /// A buffer of `len` usable bytes, all zero, in a region that is zero
    /// throughout. An empty buffer is made without allocating.
    pub fn new(len: usize) -> (b: Buffer)
        requires
            fits(len as nat),
        ensures
            b.wf(),
            b@ == zeros(len as nat),
            b.allocated() == padded_bytes(zeros(len as nat)),
            b.base_addr() != 0,
            len > 0 ==> b.base_addr() % 64 == 0,
    {
        if len == 0 {
            let storage: Vec<u8> = Vec::new();
            let base: usize = address_of(&storage);
            let b = Buffer { storage, start: 0, base, padded: ALIGNMENT, len };
            assert(b@ =~= zeros(0));
            assert(b.allocated() =~= padded_bytes(zeros(0)));
            return b;
        }
        let padded: usize = checked_padded_len(len).unwrap();
        let storage: Vec<u8> = vec![0u8; padded + (ALIGNMENT - 1)];
        let addr: usize = address_of(&storage);
        let start: usize = align_offset(addr);
        let base: usize = addr + start;
        let b = Buffer { storage, start, base, padded, len };
        assert(b@ =~= zeros(len as nat));
        assert(b.allocated() =~= padded_bytes(zeros(len as nat)));
        b
    }

    /// The address of the region's first byte, as an integer; never null.
    /// For an empty buffer it is a placeholder that must not be read through.
    pub fn as_ptr(&self) -> (addr: usize)
        ensures
            addr == self.base_addr(),
            addr != 0,
            self@.len() > 0 ==> addr % 64 == 0,
    {
        proof {
            use_type_invariant(self);
        }
        self.base
    }

    /// The address of the region's first byte, for a caller that means to
    /// write there. The buffer itself is left as it was.
    pub fn as_mut_ptr(&mut self) -> (addr: usize)
        ensures
            addr == old(self).base_addr(),
            addr != 0,
            old(self)@.len() > 0 ==> addr % 64 == 0,
            *final(self) == *old(self),
    {
        proof {
            use_type_invariant(&*self);
        }
        self.base
    }

    /// The usable bytes, and only those.
    pub fn as_slice(&self) -> (bytes: &[u8])
        ensures
            bytes@ == self@,
    {
        proof {
            use_type_invariant(self);
        }
        vstd::slice::slice_subrange(self.storage.as_slice(), self.start, self.start + self.len)
    }

    /// The usable bytes, and only those, open to writing. What the caller
    /// leaves there is what the buffer then holds; the padding, the length
    /// and the address stay as they were.
    pub fn as_mut_slice(&mut self) -> (bytes: &mut [u8])
        ensures
            bytes@ == old(self)@,
            final(bytes)@.len() == old(self)@.len(),
            final(self)@ == final(bytes)@,
            final(self).padding() == old(self).padding(),
            final(self).allocated() == final(bytes)@ + old(self).padding(),
            final(self).base_addr() == old(self).base_addr(),
            final(self).wf(),
    {
        proof {
            use_type_invariant(&*self);
        }
        let start: usize = self.start;
        let end: usize = self.start + self.len;
        let part = subrange_mut(&mut self.storage, start, end);
        part
    }

    /// The whole region, padding included, for reading a block at a time. It
    /// is empty for an empty buffer, which has no region.
    pub fn as_padded_slice(&self) -> (bytes: &[u8])
        ensures
            bytes@ == self.allocated(),
    {
        proof {
            use_type_invariant(self);
        }
        let end: usize = if self.len == 0 {
            self.start
        } else {
            self.start + self.padded
        };
        vstd::slice::slice_subrange(self.storage.as_slice(), self.start, end)
    }

    /// The whole region, padding included, open to writing. What the caller
    /// leaves there is what the region then holds, and its first bytes are
    /// the usable ones; the length and the address stay as they were.
    pub fn as_padded_mut_slice(&mut self) -> (bytes: &mut [u8])
        ensures
            bytes@ == old(self).allocated(),
            final(bytes)@.len() == old(self).allocated().len(),
            final(self).allocated() == final(bytes)@,
            final(self)@ == final(bytes)@.subrange(0, old(self)@.len() as int),
            final(self).base_addr() == old(self).base_addr(),
            final(self).wf(),
    {
        proof {
            use_type_invariant(&*self);
        }
        let start: usize = self.start;
        let end: usize = if self.len == 0 {
            self.start
        } else {
            self.start + self.padded
        };
        let part = subrange_mut(&mut self.storage, start, end);
        part
    }

    /// The number of usable bytes; never the padded size.
    pub fn len(&self) -> (n: usize)
        ensures
            n == self@.len(),
    {
        proof {
            use_type_invariant(self);
        }
        self.len
    }

    /// Whether the buffer has no usable bytes.
    pub fn is_empty(&self) -> (e: bool)
        ensures
            e <==> self@.len() == 0,
    {
        self.len() == 0
    }

    /// The size of the region as laid out: the usable length rounded up to a
    /// whole number of blocks, and one block for an empty buffer.
    pub fn allocated_len(&self) -> (n: usize)
        ensures
            n == allocated_len(self@.len()),
            self@.len() > 0 ==> n == self.allocated().len(),
    {
        proof {
            use_type_invariant(self);
        }
        self.padded
    }

    /// A new buffer whose usable bytes are a copy of `src`, in a region that
    /// is zero from there on.
    pub fn from_slice(src: &[u8]) -> (b: Buffer)
        requires
            fits(src@.len()),
        ensures
            b.wf(),
            b@ == src@,
            b.allocated() == padded_bytes(src@),
            b.base_addr() != 0,
            src@.len() > 0 ==> b.base_addr() % 64 == 0,
    {
        let mut buf = Buffer::new(src.len());
        copy_into(buf.as_mut_slice(), src);
        assert(buf.allocated() =~= padded_bytes(src@));
        buf
    }
}

impl Clone for Buffer {
    /// A new buffer with its own storage, built from this one's usable bytes
    /// as `from_slice` builds one from any bytes: it has the same length and
    /// the same usable bytes, in a region that is zero from there on. The
    /// padding is not copied.
    fn clone(&self) -> (b: Buffer)
        ensures
            b.wf(),
            b@ == self@,
            b.allocated() == padded_bytes(self@),
            b.base_addr() != 0,
            self@.len() > 0 ==> b.base_addr() % 64 == 0,
    {
        proof {
            use_type_invariant(self);
        }
        Buffer::from_slice(self.as_slice())
    }
}

} // verus!
