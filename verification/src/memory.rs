//! A linear guest memory with typed, bounds- and alignment-checked access.
//!
//! The shim borrows the memory for the duration of one call; every access
//! states exactly the bytes it reads or replaces.

use vstd::prelude::*;
use crate::errors::Cause;

verus! {

/// A guest's linear memory region, addressed by byte offset.
pub struct GuestMemory {
    bytes: Vec<u8>,
}

impl View for GuestMemory {
    type V = Seq<u8>;

    closed spec fn view(&self) -> Seq<u8> {
        self.bytes@
    }
}

/// Whether an access of `size` bytes at `offset` with alignment `align` is
/// valid for a region of `mem.len()` bytes.
pub open spec fn access_ok(mem: Seq<u8>, offset: u64, size: u64, align: u64) -> bool {
    offset % align == 0 && offset + size <= mem.len()
}

/// The failure an invalid access reports: alignment is checked first, then
/// bounds.
pub open spec fn access_cause(mem: Seq<u8>, offset: u64, size: u64, align: u64) -> Cause {
    if offset % align != 0 {
        Cause::Misaligned
    } else {
        Cause::OutOfBounds
    }
}

/// The `size` bytes of `mem` starting at `offset`.
pub open spec fn bytes_at(mem: Seq<u8>, offset: u64, size: u64) -> Seq<u8> {
    mem.subrange(offset as int, offset + size)
}

/// `mem` with the range starting at `offset` replaced by `b`.
pub open spec fn splice(mem: Seq<u8>, offset: u64, b: Seq<u8>) -> Seq<u8> {
    mem.subrange(0, offset as int) + b + mem.subrange(offset + b.len(), mem.len() as int)
}

impl GuestMemory {
    /// Wraps a byte vector as a guest memory region.
    pub fn from_bytes(b: Vec<u8>) -> (m: GuestMemory)
        ensures
            m@ == b@,
    {
        GuestMemory { bytes: b }
    }

    /// A zero-filled region of `n` bytes.
    pub fn zeroed(n: usize) -> (m: GuestMemory)
        ensures
            m@.len() == n,
            forall|i: int| 0 <= i < n ==> m@[i] == 0u8,
    {
        let mut b: Vec<u8> = Vec::new();
        let mut i: usize = 0;
        while i < n
            invariant
                i <= n,
                b@.len() == i,
                forall|k: int| 0 <= k < i ==> b@[k] == 0u8,
            decreases n - i,
        {
            b.push(0u8);
            i = i + 1;
        }
        GuestMemory { bytes: b }
    }

    /// The region's size in bytes.
    pub fn size(&self) -> (n: usize)
        ensures
            n == self@.len(),
    {
        self.bytes.len()
    }

    /// The byte at offset `i`.
    pub fn byte_at(&self, i: usize) -> (b: u8)
        requires
            i < self@.len(),
        ensures
            b == self@[i as int],
    {
        self.bytes[i]
    }

    /// Reads `size` bytes at `offset`, after checking alignment and bounds.
    pub fn checked_read(&self, offset: u64, size: u64, align: u64) -> (r: Result<Vec<u8>, Cause>)
        requires
            align == 1 || align == 2 || align == 4 || align == 8,
            offset <= 0xFFFF_FFFF,
            size <= 0x1_0000_0000,
        ensures
            match r {
                Ok(b) => access_ok(self@, offset, size, align) && b@ == bytes_at(self@, offset, size),
                Err(c) => !access_ok(self@, offset, size, align) && c == access_cause(
                    self@,
                    offset,
                    size,
                    align,
                ),
            },
    {
        if offset % align != 0 {
            return Err(Cause::Misaligned);
        }
        let len: u64 = self.bytes.len() as u64;
        if offset > len || size > len - offset {
            return Err(Cause::OutOfBounds);
        }
        let mut b: Vec<u8> = Vec::new();
        let mut i: u64 = 0;
        while i < size
            invariant
                i <= size,
                offset <= 0xFFFF_FFFF,
                size <= 0x1_0000_0000,
                offset + size <= self@.len(),
                self@.len() <= usize::MAX,
                b@.len() == i,
                forall|k: int| 0 <= k < i ==> b@[k] == self@[offset + k],
            decreases size - i,
        {
            b.push(self.bytes[(offset + i) as usize]);
            i = i + 1;
        }
        assert(b@ =~= bytes_at(self@, offset, size));
        Ok(b)
    }

    /// Writes `b` at `offset`, after checking alignment and bounds; on
    /// failure the region is unchanged.
    pub fn checked_write(&mut self, offset: u64, b: &Vec<u8>, align: u64) -> (r: Result<
        (),
        Cause,
    >)
        requires
            align == 1 || align == 2 || align == 4 || align == 8,
            offset <= 0xFFFF_FFFF,
            b@.len() <= 0x1_0000_0000,
        ensures
            match r {
                Ok(()) => access_ok(old(self)@, offset, b@.len() as u64, align) && final(self)@
                    == splice(old(self)@, offset, b@),
                Err(c) => !access_ok(old(self)@, offset, b@.len() as u64, align) && c
                    == access_cause(old(self)@, offset, b@.len() as u64, align) && final(self)@
                    == old(self)@,
            },
    {
        if offset % align != 0 {
            return Err(Cause::Misaligned);
        }
        let size: u64 = b.len() as u64;
        let len: u64 = self.bytes.len() as u64;
        if offset > len || size > len - offset {
            return Err(Cause::OutOfBounds);
        }
        let mut i: u64 = 0;
        while i < size
            invariant
                i <= size,
                offset <= 0xFFFF_FFFF,
                size <= 0x1_0000_0000,
                size == b@.len(),
                offset + size <= self@.len(),
                self@.len() <= usize::MAX,
                self@.len() == old(self)@.len(),
                forall|k: int| 0 <= k < i ==> self@[offset + k] == b@[k],
                forall|k: int|
                    0 <= k < self@.len() && !(offset <= k < offset + i) ==> self@[k] == old(
                        self,
                    )@[k],
        decreases size - i,
        {
            self.bytes.set((offset + i) as usize, b[i as usize]);
            i = i + 1;
        }
        assert(self@ =~= splice(old(self)@, offset, b@));
        Ok(())
    }
}

} // verus!
