//! One entry of a packed-format descriptor ring: the 16-byte little-endian
//! record `{addr: u64, len: u32, id: u16, flags: u16}`.

use vstd::prelude::*;
use crate::defs::VIRTQ_DESC_F_INDIRECT;
use crate::defs::VIRTQ_DESC_F_NEXT;
use crate::defs::VIRTQ_DESC_F_WRITE;
use crate::descriptor::split::spec_has_next;
use crate::descriptor::split::spec_is_write_only;
use crate::descriptor::split::spec_refers_to_indirect_table;

verus! {

/// A packed-format descriptor ring entry.
#[derive(Clone, Copy, Debug, PartialEq, Eq, Structural, Default)]
pub struct Descriptor {
    /// Guest physical address of device specific data.
    pub addr: u64,
    /// Length of device specific data.
    pub len: u32,
    /// Index of descriptor in the descriptor table.
    pub id: u16,
    /// Includes next, write, and indirect bits.
    pub flags: u16,
}

impl Descriptor {
    /// Create a new descriptor.
    ///
    /// # Arguments
    /// * `addr` - the guest physical address of the descriptor buffer.
    /// * `len` - the length of the descriptor buffer.
    /// * `id` - the index of the descriptor in the descriptor table.
    /// * `flags` - the `flags` for the descriptor.
    pub fn new(addr: u64, len: u32, id: u16, flags: u16) -> (r: Descriptor)
        ensures
            r == (Descriptor { addr, len, id, flags }),
    {
        Descriptor { addr, len, id, flags }
    }

    /// Return the guest physical address of the descriptor buffer.
    pub fn addr(&self) -> (r: u64)
        ensures
            r == self.addr,
    {
        self.addr
    }

    /// Return the length of the descriptor buffer.
    pub fn len(&self) -> (r: u32)
        ensures
            r == self.len,
    {
        self.len
    }

    /// Return the flags for this descriptor, including next, write and indirect bits.
    pub fn flags(&self) -> (r: u16)
        ensures
            r == self.flags,
    {
        self.flags
    }

    /// Return the index of the descriptor in the descriptor table.
    pub fn id(&self) -> (r: u16)
        ensures
            r == self.id,
    {
        self.id
    }

    /// Check whether this descriptor refers to a buffer containing an indirect
    /// descriptor table.
    pub fn refers_to_indirect_table(&self) -> (r: bool)
        ensures
            r == spec_refers_to_indirect_table(self.flags),
    {
        self.flags & VIRTQ_DESC_F_INDIRECT != 0
    }

    /// Check whether the `NEXT` bit is set for the descriptor.
    pub fn has_next(&self) -> (r: bool)
        ensures
            r == spec_has_next(self.flags),
    {
        self.flags & VIRTQ_DESC_F_NEXT != 0
    }

    /// Check if the driver designated this as a write only descriptor.
    ///
    /// If this is false, this descriptor is read only.
    /// Write only means the emulated device can write and the driver can read.
    pub fn is_write_only(&self) -> (r: bool)
        ensures
            r == spec_is_write_only(self.flags),
    {
        self.flags & VIRTQ_DESC_F_WRITE != 0
    }

    /// Set the guest physical address of the descriptor buffer.
    pub fn set_addr(&mut self, addr: u64)
        ensures
            *final(self) == (Descriptor { addr, ..*old(self) }),
    {
        self.addr = addr;
    }

    /// Set the length of the descriptor buffer.
    pub fn set_len(&mut self, len: u32)
        ensures
            *final(self) == (Descriptor { len, ..*old(self) }),
    {
        self.len = len;
    }

    /// Set the flags for this descriptor.
    pub fn set_flags(&mut self, flags: u16)
        ensures
            *final(self) == (Descriptor { flags, ..*old(self) }),
    {
        self.flags = flags;
    }

    /// Set the index stored in the `id` field of the descriptor.
    pub fn set_id(&mut self, id: u16)
        ensures
            *final(self) == (Descriptor { id, ..*old(self) }),
    {
        self.id = id;
    }
}

} // verus!
