//! Padding and alignment arithmetic for 64-byte blocks.

use vstd::prelude::*;

verus! {

/// The boundary, in bytes, on which every buffer starts and to which its
/// allocated length is padded.
pub const ALIGNMENT: usize = 64;

/// `len` rounded up to a whole number of blocks.
pub open spec fn padded_len(len: nat) -> nat {
    ((len + 63) / 64 * 64) as nat
}

/// The size of the region that a buffer of `len` usable bytes lays claim to:
/// one block for an empty buffer, `len` rounded up otherwise.
pub open spec fn allocated_len(len: nat) -> nat {
    if len == 0 {
        64
    } else {
        padded_len(len)
    }
}

/// The largest region size that can be requested: the last multiple of the
/// alignment for which the region plus the slack needed to align it still
/// fits in an allocation.
pub open spec fn max_allocated_len() -> nat {
    (isize::MAX - 63) as nat
}

/// Whether a buffer of `len` usable bytes can be laid out at all.
pub open spec fn fits(len: nat) -> bool {
    padded_len(len) <= max_allocated_len()
}

/// The distance from `addr` up to the next multiple of the alignment (zero
/// when `addr` is one already).
pub open spec fn align_offset_of(addr: nat) -> nat {
    ((64 - addr % 64) % 64) as nat
}

/// `padded_len(len)` is the smallest multiple of the alignment that is at
/// least `len`: it is such a multiple, and no other such multiple `m` is
/// smaller.
pub proof fn lemma_padded_len_is_least_multiple(len: nat, m: nat)
    ensures
        padded_len(len) % 64 == 0,
        padded_len(len) >= len,
        m % 64 == 0 && m >= len ==> padded_len(len) <= m,
{
}

/// The region laid out for a buffer is never empty, is a whole number of
/// blocks, and has room for every usable byte; for a buffer that is not
/// empty it is the smallest such size.
pub proof fn lemma_allocated_len(len: nat, m: nat)
    ensures
        allocated_len(len) >= 64,
        allocated_len(len) % 64 == 0,
        allocated_len(len) >= len,
        len > 0 && m % 64 == 0 && m >= len ==> allocated_len(len) <= m,
{
}

/// `addr` moved up by its offset is aligned, and no smaller move aligns it.
pub proof fn lemma_align_offset(addr: nat, k: nat)
    ensures
        align_offset_of(addr) < 64,
        (addr + align_offset_of(addr)) % 64 == 0,
        (addr + k) % 64 == 0 ==> align_offset_of(addr) <= k,
{
}

/// Rounds `len` up to a whole number of blocks, or reports that the result
/// would not fit in a `usize`.
pub fn checked_padded_len(len: usize) -> (r: Option<usize>)
    ensures
        match r {
            Some(p) => p == padded_len(len as nat),
            None => padded_len(len as nat) > usize::MAX,
        },
{
    let rem: usize = len % ALIGNMENT;
    if rem == 0 {
        Some(len)
    } else {
        len.checked_add(ALIGNMENT - rem)
    }
}

/// Whether a buffer of `len` usable bytes can be laid out: the test to make
/// before asking for one of a length that is not known to be small.
pub fn can_allocate(len: usize) -> (ok: bool)
    ensures
        ok == fits(len as nat),
{
    match checked_padded_len(len) {
        Some(p) => p <= (isize::MAX as usize) - (ALIGNMENT - 1),
        None => false,
    }
}

/// The number of bytes to skip from `addr` to reach the next multiple of the
/// alignment.
pub fn align_offset(addr: usize) -> (off: usize)
    ensures
        off == align_offset_of(addr as nat),
        off < 64,
        (addr + off) % 64 == 0,
{
    (ALIGNMENT - addr % ALIGNMENT) % ALIGNMENT
}

} // verus!
