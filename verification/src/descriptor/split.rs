//! One entry of a split-format descriptor table: the 16-byte little-endian
//! record `{addr: u64, len: u32, flags: u16, next: u16}`.

use vstd::prelude::*;
use crate::defs::VIRTQ_DESC_F_INDIRECT;
use crate::defs::VIRTQ_DESC_F_NEXT;
use crate::defs::VIRTQ_DESC_F_WRITE;

verus! {

/// A split-format descriptor table entry.
#[derive(Clone, Copy, Debug, PartialEq, Eq, Structural)]
pub struct Descriptor {
    /// Guest physical address of the buffer this entry describes.
    pub addr: u64,
    /// Length in bytes of that buffer.
    pub len: u32,
    /// The `NEXT`, `WRITE` and `INDIRECT` bits.
    pub flags: u16,
    /// Index of the following entry, meaningful only while `NEXT` is set.
    pub next: u16,
}

/// Whether a flags word carries the `NEXT` bit.
pub open spec fn spec_has_next(flags: u16) -> bool {
    flags & VIRTQ_DESC_F_NEXT != 0
}

/// Whether a flags word carries the `WRITE` bit.
pub open spec fn spec_is_write_only(flags: u16) -> bool {
    flags & VIRTQ_DESC_F_WRITE != 0
}

/// Whether a flags word carries the `INDIRECT` bit.
pub open spec fn spec_refers_to_indirect_table(flags: u16) -> bool {
    flags & VIRTQ_DESC_F_INDIRECT != 0
}

impl Descriptor {
    /// Create a new descriptor table entry.
    pub fn new(addr: u64, len: u32, flags: u16, next: u16) -> (r: Descriptor)
        ensures
            r == (Descriptor { addr, len, flags, next }),
    {
        Descriptor { addr, len, flags, next }
    }

    /// Return the guest physical address of the descriptor buffer.
    pub fn addr(&self) -> (r: u64)
        ensures
            r == self.addr,
    {
        self.addr
    }

    /// Return the length of the descriptor buffer.
    pub fn len(&self) -> (r: u32)
        ensures
            r == self.len,
    {
        self.len
    }

    /// Return the flags for this descriptor, including next, write and indirect bits.
    pub fn flags(&self) -> (r: u16)
        ensures
            r == self.flags,
    {
        self.flags
    }

    /// Return the value stored in the `next` field of the descriptor.
    pub fn next(&self) -> (r: u16)
        ensures
            r == self.next,
    {
        self.next
    }

    /// Check whether this descriptor refers to a buffer containing an indirect
    /// descriptor table.
    pub fn refers_to_indirect_table(&self) -> (r: bool)
        ensures
            r == spec_refers_to_indirect_table(self.flags),
    {
        self.flags & VIRTQ_DESC_F_INDIRECT != 0
    }

    /// Check whether the `NEXT` bit is set for the descriptor.
    pub fn has_next(&self) -> (r: bool)
        ensures
            r == spec_has_next(self.flags),
    {
        self.flags & VIRTQ_DESC_F_NEXT != 0
    }

    /// Check if the driver designated this as a write only descriptor.
    ///
    /// If this is false, this descriptor is read only.
    /// Write only means the emulated device can write and the driver can read.
    pub fn is_write_only(&self) -> (r: bool)
        ensures
            r == spec_is_write_only(self.flags),
    {
        self.flags & VIRTQ_DESC_F_WRITE != 0
    }

    /// Set the guest physical address of the descriptor buffer.
    pub fn set_addr(&mut self, addr: u64)
        ensures
            *final(self) == (Descriptor { addr, ..*old(self) }),
    {
        self.addr = addr;
    }

    /// Set the length of the descriptor buffer.
    pub fn set_len(&mut self, len: u32)
        ensures
            *final(self) == (Descriptor { len, ..*old(self) }),
    {
        self.len = len;
    }

    /// Set the flags for this descriptor.
    pub fn set_flags(&mut self, flags: u16)
        ensures
            *final(self) == (Descriptor { flags, ..*old(self) }),
    {
        self.flags = flags;
    }

    /// Set the value stored in the `next` field of the descriptor.
    pub fn set_next(&mut self, next: u16)
        ensures
            *final(self) == (Descriptor { next, ..*old(self) }),
    {
        self.next = next;
    }
}

} // verus!
