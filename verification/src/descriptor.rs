//! Descriptor table entry codecs: the split and packed formats, the sum type
//! over the two, and the packed-ring event suppression record.

use vstd::prelude::*;

pub mod packed;
pub mod split;

verus! {

/// A virtio descriptor of either ring format.
#[derive(Clone, Copy, Debug, PartialEq, Eq, Structural)]
pub enum Descriptor {
    /// The split descriptor.
    SplitDescriptor(split::Descriptor),
    /// The packed descriptor.
    PackedDescriptor(packed::Descriptor),
}

impl Descriptor {
    /// The flags word, whichever format the descriptor has.
    pub open spec fn spec_flags(self) -> u16 {
        match self {
            Descriptor::SplitDescriptor(d) => d.flags,
            Descriptor::PackedDescriptor(d) => d.flags,
        }
    }

    /// Return the guest physical address of the descriptor buffer.
    pub fn addr(&self) -> (r: u64)
        ensures
            r == (match *self {
                Descriptor::SplitDescriptor(d) => d.addr,
                Descriptor::PackedDescriptor(d) => d.addr,
            }),
    {
        match self {
            Descriptor::SplitDescriptor(d) => d.addr(),
            Descriptor::PackedDescriptor(d) => d.addr(),
        }
    }

    /// Return the length of the descriptor buffer.
    pub fn len(&self) -> (r: u32)
        ensures
            r == (match *self {
                Descriptor::SplitDescriptor(d) => d.len,
                Descriptor::PackedDescriptor(d) => d.len,
            }),
    {
        match self {
            Descriptor::SplitDescriptor(d) => d.len(),
            Descriptor::PackedDescriptor(d) => d.len(),
        }
    }

    /// Return the flags for this descriptor, including next, write and indirect bits.
    pub fn flags(&self) -> (r: u16)
        ensures
            r == self.spec_flags(),
    {
        match self {
            Descriptor::SplitDescriptor(d) => d.flags(),
            Descriptor::PackedDescriptor(d) => d.flags(),
        }
    }

    /// Return the value stored in the `next` field of the descriptor.
    ///
    /// Chain linkage is a split-format notion; for a packed descriptor there
    /// is no such field and `None` reports that, rather than a guess.
    pub fn next(&self) -> (r: Option<u16>)
        ensures
            r == (match *self {
                Descriptor::SplitDescriptor(d) => Some(d.next),
                Descriptor::PackedDescriptor(_) => None::<u16>,
            }),
    {
        match self {
            Descriptor::SplitDescriptor(d) => Some(d.next()),
            Descriptor::PackedDescriptor(_) => None,
        }
    }

    /// Check whether this descriptor refers to a buffer containing an indirect
    /// descriptor table.
    pub fn refers_to_indirect_table(&self) -> (r: bool)
        ensures
            r == split::spec_refers_to_indirect_table(self.spec_flags()),
    {
        match self {
            Descriptor::SplitDescriptor(d) => d.refers_to_indirect_table(),
            Descriptor::PackedDescriptor(d) => d.refers_to_indirect_table(),
        }
    }

    /// Check whether the `NEXT` bit is set for the descriptor.
    pub fn has_next(&self) -> (r: bool)
        ensures
            r == split::spec_has_next(self.spec_flags()),
    {
        match self {
            Descriptor::SplitDescriptor(d) => d.has_next(),
            Descriptor::PackedDescriptor(d) => d.has_next(),
        }
    }

    /// Check if the driver designated this as a write only descriptor.
    ///
    /// If this is false, this descriptor is read only.
    /// Write only means the emulated device can write and the driver can read.
    pub fn is_write_only(&self) -> (r: bool)
        ensures
            r == split::spec_is_write_only(self.spec_flags()),
    {
        match self {
            Descriptor::SplitDescriptor(d) => d.is_write_only(),
            Descriptor::PackedDescriptor(d) => d.is_write_only(),
        }
    }

    /// Set the flags for this descriptor.
    pub fn set_flags(&mut self, flags: u16)
        ensures
            *final(self) == (match *old(self) {
                Descriptor::SplitDescriptor(d) => Descriptor::SplitDescriptor(
                    split::Descriptor { flags, ..d },
                ),
                Descriptor::PackedDescriptor(d) => Descriptor::PackedDescriptor(
                    packed::Descriptor { flags, ..d },
                ),
            }),
    {
        match self {
            Descriptor::SplitDescriptor(d) => d.set_flags(flags),
            Descriptor::PackedDescriptor(d) => d.set_flags(flags),
        }
    }

    /// Set the address of the descriptor.
    pub fn set_addr(&mut self, addr: u64)
        ensures
            *final(self) == (match *old(self) {
                Descriptor::SplitDescriptor(d) => Descriptor::SplitDescriptor(
                    split::Descriptor { addr, ..d },
                ),
                Descriptor::PackedDescriptor(d) => Descriptor::PackedDescriptor(
                    packed::Descriptor { addr, ..d },
                ),
            }),
    {
        match self {
            Descriptor::SplitDescriptor(d) => d.set_addr(addr),
            Descriptor::PackedDescriptor(d) => d.set_addr(addr),
        }
    }

    /// Set the length of the descriptor buffer.
    pub fn set_len(&mut self, len: u32)
        ensures
            *final(self) == (match *old(self) {
                Descriptor::SplitDescriptor(d) => Descriptor::SplitDescriptor(
                    split::Descriptor { len, ..d },
                ),
                Descriptor::PackedDescriptor(d) => Descriptor::PackedDescriptor(
                    packed::Descriptor { len, ..d },
                ),
            }),
    {
        match self {
            Descriptor::SplitDescriptor(d) => d.set_len(len),
            Descriptor::PackedDescriptor(d) => d.set_len(len),
        }
    }
}

/// The packed-ring event suppression record: `{off_wrap: u16, flags: u16}`.
#[derive(Clone, Copy, Debug, PartialEq, Eq, Structural, Default)]
pub struct PackedDescEvent {
    /// Event offset and wrap counter.
    pub off_wrap: u16,
    /// Event suppression mode flags.
    pub flags: u16,
}

impl PackedDescEvent {
    /// Set the event offset and wrap counter.
    pub fn set_off_wrap(&mut self, off_wrap: u16)
        ensures
            *final(self) == (PackedDescEvent { off_wrap, ..*old(self) }),
    {
        self.off_wrap = off_wrap;
    }

    /// Set the event suppression mode flags.
    pub fn set_flags(&mut self, flags: u16)
        ensures
            *final(self) == (PackedDescEvent { flags, ..*old(self) }),
    {
        self.flags = flags;
    }

    /// Return the event offset and wrap counter.
    pub fn get_off_wrap(&self) -> (r: u16)
        ensures
            r == self.off_wrap,
    {
        self.off_wrap
    }

    /// Return the event suppression mode flags.
    pub fn get_flags(&self) -> (r: u16)
        ensures
            r == self.flags,
    {
        self.flags
    }
}

} // verus!
