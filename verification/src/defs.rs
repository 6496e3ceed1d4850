//! Wire-layout constants of the split virtqueue and the flag bits the engine
//! reads and writes.  All of them are fixed by the virtio ring layout: the
//! available ring is `flags: u16, idx: u16, ring: [u16; size], used_event: u16`,
//! the used ring is `flags: u16, idx: u16, ring: [{id: u32, len: u32}; size],
//! avail_event: u16`, and a descriptor table entry is 16 bytes.

use vstd::prelude::*;

verus! {

/// Split descriptor flag bit: the chain continues at the entry named by `next`.
pub const VIRTQ_DESC_F_NEXT: u16 = 1;

/// Split descriptor flag bit: the buffer is device-writable.
pub const VIRTQ_DESC_F_WRITE: u16 = 2;

/// Split descriptor flag bit: the buffer holds an indirect descriptor table.
pub const VIRTQ_DESC_F_INDIRECT: u16 = 4;

/// Used ring `flags` bit: the device asks the driver not to notify it.
pub const VIRTQ_USED_F_NO_NOTIFY: u16 = 1;

/// Size in bytes of one descriptor table entry.
pub const VIRTQ_DESCRIPTOR_SIZE: u64 = 16;

/// Size in bytes of one available ring entry (a head index).
pub const VIRTQ_AVAIL_ELEMENT_SIZE: u64 = 2;

/// Bytes of the available ring before its first entry: `flags` and `idx`.
pub const VIRTQ_AVAIL_RING_HEADER_SIZE: u64 = 4;

/// The available ring header plus the trailing `used_event` field.
pub const VIRTQ_AVAIL_RING_META_SIZE: u64 = 6;

/// Size in bytes of one used ring element: `id` and `len`.
pub const VIRTQ_USED_ELEMENT_SIZE: u64 = 8;

/// Bytes of the used ring before its first element: `flags` and `idx`.
pub const VIRTQ_USED_RING_HEADER_SIZE: u64 = 4;

/// The used ring header plus the trailing `avail_event` field.
pub const VIRTQ_USED_RING_META_SIZE: u64 = 6;

/// Guest physical address of the descriptor table before the driver sets one.
pub const DEFAULT_DESC_TABLE_ADDR: u64 = 0;

/// Guest physical address of the available ring before the driver sets one.
pub const DEFAULT_AVAIL_RING_ADDR: u64 = 0;

/// Guest physical address of the used ring before the driver sets one.
pub const DEFAULT_USED_RING_ADDR: u64 = 0;

/// Addition that wraps modulo 2^16, the arithmetic of every ring index.
pub open spec fn w_add(a: u16, b: u16) -> u16 {
    if a + b > 0xffff {
        (a + b - 0x10000) as u16
    } else {
        (a + b) as u16
    }
}

/// Subtraction that wraps modulo 2^16: the circular distance from `b` up to `a`.
pub open spec fn w_sub(a: u16, b: u16) -> u16 {
    if a - b < 0 {
        (a - b + 0x10000) as u16
    } else {
        (a - b) as u16
    }
}

/// A power of two, the only queue sizes the split ring layout allows.
pub open spec fn is_power_of_two(n: int) -> bool
    decreases n,
{
    if n <= 0 {
        false
    } else if n == 1 {
        true
    } else {
        n % 2 == 0 && is_power_of_two(n / 2)
    }
}

} // verus!
