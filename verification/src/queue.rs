//! The device-side state of one virtio split virtqueue and the protocol
//! operations a device model drives it with.
//!
//! The driver configures the queue through the setters, each of which refuses
//! an invalid value and keeps the last good one; the device model then checks
//! [`Queue::is_valid`], consumes requests, reports completions with
//! [`Queue::add_used`], and lets the notification operations decide when the
//! driver must be signalled.  All ring indices are 16-bit counters that wrap
//! modulo 2^16, and every comparison between them is a wrapping distance,
//! never an ordinal one.

use vstd::prelude::*;
use crate::Error;
use crate::defs::DEFAULT_AVAIL_RING_ADDR;
use crate::defs::DEFAULT_DESC_TABLE_ADDR;
use crate::defs::DEFAULT_USED_RING_ADDR;
use crate::defs::VIRTQ_AVAIL_ELEMENT_SIZE;
use crate::defs::VIRTQ_AVAIL_RING_HEADER_SIZE;
use crate::defs::VIRTQ_AVAIL_RING_META_SIZE;
use crate::defs::VIRTQ_DESCRIPTOR_SIZE;
use crate::defs::VIRTQ_USED_ELEMENT_SIZE;
use crate::defs::VIRTQ_USED_RING_HEADER_SIZE;
use crate::defs::VIRTQ_USED_RING_META_SIZE;
use crate::defs::VIRTQ_USED_F_NO_NOTIFY;
use crate::defs::is_power_of_two;
use crate::defs::w_add;
use crate::defs::w_sub;
use crate::descriptor::split::spec_has_next;
use crate::descriptor::split::spec_refers_to_indirect_table;
use crate::mem::GuestMem;
use crate::mem::LoadOrder;
use crate::mem::StoreOrder;
use crate::mem::mem_address_in_range;
use crate::mem::mem_bytes;
use crate::mem::mem_grants;
use crate::mem::mem_fence;
use crate::mem::mem_load_u16;
use crate::mem::mem_store_u16;
use crate::mem::mem_store_u32;
use crate::mem::store_le16;
use crate::mem::store_le32;
use crate::mem::u16_at;
use crate::chain::DescriptorChain;
use crate::chain::walk_chain;

verus! {

/// Struct to maintain information and manipulate a virtio queue.
#[derive(Debug, Default, PartialEq, Eq, Structural)]
pub struct Queue {
    /// The maximum size in elements offered by the device.
    pub max_size: u16,
    /// Tail position of the available ring.
    pub next_avail: u16,
    /// Head position of the used ring.
    pub next_used: u16,
    /// Whether the event index feature has been negotiated.
    pub event_idx_enabled: bool,
    /// The number of descriptor chains placed in the used ring via `add_used`
    /// since the last time `needs_notification` was called on the queue.
    pub num_added: u16,
    /// The queue size in elements the driver selected.
    pub size: u16,
    /// Indicates if the queue finished with the configuration.
    pub ready: bool,
    /// Guest physical address of the descriptor table.
    pub desc_table: u64,
    /// Guest physical address of the available ring.
    pub avail_ring: u64,
    /// Guest physical address of the used ring.
    pub used_ring: u64,
}

/// The state a queue starts in and returns to on reset: only the size
/// ceiling survives.
pub open spec fn spec_default_queue(max_size: u16) -> Queue {
    Queue {
        max_size,
        next_avail: 0,
        next_used: 0,
        event_idx_enabled: false,
        num_added: 0,
        size: max_size,
        ready: false,
        desc_table: DEFAULT_DESC_TABLE_ADDR,
        avail_ring: DEFAULT_AVAIL_RING_ADDR,
        used_ring: DEFAULT_USED_RING_ADDR,
    }
}

/// The 64-bit address made of a queue register's current value and the
/// halves a driver wrote, each half kept when the driver left it alone.
pub open spec fn spec_combined_addr(current: u64, low: Option<u32>, high: Option<u32>) -> u64 {
    ((match high {
        Some(h) => h as int,
        None => current as int / 0x1_0000_0000,
    }) * 0x1_0000_0000 + (match low {
        Some(l) => l as int,
        None => current as int % 0x1_0000_0000,
    })) as u64
}

/// Whether a ring that starts at `base` and runs for `size` bytes ends inside
/// the memory space: its end address is computable and in range.
pub open spec fn spec_ring_end_in_range(m: GuestMem, base: u64, size: int) -> bool {
    base + size <= u64::MAX && mem_grants(m, (base + size) as u64, 1)
}

impl Queue {
    /// Whether the queue, as configured, may touch the given memory space:
    /// the driver reported it ready and all three rings end in range.
    pub open spec fn spec_is_valid(self, m: GuestMem) -> bool {
        &&& self.ready
        &&& spec_ring_end_in_range(m, self.desc_table, VIRTQ_DESCRIPTOR_SIZE * self.size as int)
        &&& spec_ring_end_in_range(
            m,
            self.avail_ring,
            VIRTQ_AVAIL_RING_META_SIZE + VIRTQ_AVAIL_ELEMENT_SIZE * self.size as int,
        )
        &&& spec_ring_end_in_range(
            m,
            self.used_ring,
            VIRTQ_USED_RING_META_SIZE + VIRTQ_USED_ELEMENT_SIZE * self.size as int,
        )
    }

    /// Construct an empty virtio queue with the given maximum size.
    pub fn new(max_size: u16) -> (r: Queue)
        ensures
            r == spec_default_queue(max_size),
    {
        Queue {
            max_size,
            size: max_size,
            ready: false,
            desc_table: DEFAULT_DESC_TABLE_ADDR,
            avail_ring: DEFAULT_AVAIL_RING_ADDR,
            used_ring: DEFAULT_USED_RING_ADDR,
            next_avail: 0,
            next_used: 0,
            event_idx_enabled: false,
            num_added: 0,
        }
    }

    /// Check whether the queue configuration is valid against a memory space:
    /// the driver marked it ready and the descriptor table, available ring
    /// and used ring all end within the space.  An address computation that
    /// overflows makes the queue invalid; nothing here can panic.
    pub fn is_valid(&self, mem: &GuestMem) -> (r: bool)
        ensures
            r == self.spec_is_valid(*mem),
    {
        let queue_size = self.size as u64;
        let desc_table_size = VIRTQ_DESCRIPTOR_SIZE * queue_size;
        let avail_ring_size = VIRTQ_AVAIL_RING_META_SIZE + VIRTQ_AVAIL_ELEMENT_SIZE * queue_size;
        let used_ring_size = VIRTQ_USED_RING_META_SIZE + VIRTQ_USED_ELEMENT_SIZE * queue_size;
        if !self.ready {
            false
        } else if !ring_end_in_range(mem, self.desc_table, desc_table_size) {
            false
        } else if !ring_end_in_range(mem, self.avail_ring, avail_ring_size) {
            false
        } else if !ring_end_in_range(mem, self.used_ring, used_ring_size) {
            false
        } else {
            true
        }
    }

    /// Put the queue back in its freshly built state, whatever came before:
    /// not ready, size back at the ceiling, default ring addresses, all
    /// counters zero, event index off.
    pub fn reset(&mut self)
        ensures
            *final(self) == spec_default_queue(old(self).max_size),
    {
        self.ready = false;
        self.size = self.max_size;
        self.desc_table = DEFAULT_DESC_TABLE_ADDR;
        self.avail_ring = DEFAULT_AVAIL_RING_ADDR;
        self.used_ring = DEFAULT_USED_RING_ADDR;
        self.next_avail = 0;
        self.next_used = 0;
        self.num_added = 0;
        self.event_idx_enabled = false;
    }

    /// Borrow the queue for a run of operations.  The engine is exclusively
    /// owned by its device model, so the borrow itself is the lock.
    pub fn lock(&mut self) -> (r: &mut Queue)
        ensures
            *r == *old(self),
            *final(self) == *final(r),
    {
        self
    }

    /// Get the maximum size of the virtio queue.
    pub fn max_size(&self) -> (r: u16)
        ensures
            r == self.max_size,
    {
        self.max_size
    }

    /// Get the actual size configured by the guest driver.
    pub fn size(&self) -> (r: u16)
        ensures
            r == self.size,
    {
        self.size
    }

    /// Configure the queue size for the virtio queue.  A size of zero, above
    /// the ceiling, or not a power of two is refused and the queue keeps its
    /// last accepted size.
    pub fn set_size(&mut self, size: u16)
        ensures
            *final(self) == (if 0 < size && size <= old(self).max_size && is_power_of_two(
                size as int,
            ) {
                Queue { size, ..*old(self) }
            } else {
                *old(self)
            }),
    {
        if size > self.max_size || size == 0 || !size_is_power_of_two(size) {
            return ;
        }
        self.size = size;
    }

    /// Check whether the queue is marked ready for use by the driver.
    pub fn ready(&self) -> (r: bool)
        ensures
            r == self.ready,
    {
        self.ready
    }

    /// Configure the queue as ready, or not, for use.
    pub fn set_ready(&mut self, ready: bool)
        ensures
            *final(self) == (Queue { ready, ..*old(self) }),
    {
        self.ready = ready;
    }

    /// Configure the guest physical address of the descriptor table, from the
    /// halves the driver wrote.  An address that breaks the table's 16-byte
    /// alignment is refused and the queue keeps the last accepted one.
    pub fn set_desc_table_address(&mut self, low: Option<u32>, high: Option<u32>)
        ensures
            *final(self) == (if spec_combined_addr(old(self).desc_table, low, high) % 16 == 0 {
                Queue { desc_table: spec_combined_addr(old(self).desc_table, low, high), ..*old(
                    self,
                ) }
            } else {
                *old(self)
            }),
    {
        let desc_table = combine_addr(self.desc_table, low, high);
        if desc_table % 16 != 0 {
            return ;
        }
        self.desc_table = desc_table;
    }

    /// Configure the guest physical address of the available ring, from the
    /// halves the driver wrote.  An address that breaks the ring's 2-byte
    /// alignment is refused and the queue keeps the last accepted one.
    pub fn set_avail_ring_address(&mut self, low: Option<u32>, high: Option<u32>)
        ensures
            *final(self) == (if spec_combined_addr(old(self).avail_ring, low, high) % 2 == 0 {
                Queue { avail_ring: spec_combined_addr(old(self).avail_ring, low, high), ..*old(
                    self,
                ) }
            } else {
                *old(self)
            }),
    {
        let avail_ring = combine_addr(self.avail_ring, low, high);
        if avail_ring % 2 != 0 {
            return ;
        }
        self.avail_ring = avail_ring;
    }

    /// Configure the guest physical address of the used ring, from the halves
    /// the driver wrote.  An address that breaks the ring's 4-byte alignment
    /// is refused and the queue keeps the last accepted one.
    pub fn set_used_ring_address(&mut self, low: Option<u32>, high: Option<u32>)
        ensures
            *final(self) == (if spec_combined_addr(old(self).used_ring, low, high) % 4 == 0 {
                Queue { used_ring: spec_combined_addr(old(self).used_ring, low, high), ..*old(
                    self,
                ) }
            } else {
                *old(self)
            }),
    {
        let used_ring = combine_addr(self.used_ring, low, high);
        if used_ring % 4 != 0 {
            return ;
        }
        self.used_ring = used_ring;
    }

    /// Enable or disable the event index feature.
    pub fn set_event_idx(&mut self, enabled: bool)
        ensures
            *final(self) == (Queue { event_idx_enabled: enabled, ..*old(self) }),
    {
        self.event_idx_enabled = enabled;
    }

    /// Get the value of the next entry of the available ring the engine will
    /// consume.
    pub fn next_avail(&self) -> (r: u16)
        ensures
            r == self.next_avail,
    {
        self.next_avail
    }

    /// Set the position in the available ring the engine consumes from next.
    pub fn set_next_avail(&mut self, next_avail: u16)
        ensures
            *final(self) == (Queue { next_avail, ..*old(self) }),
    {
        self.next_avail = next_avail;
    }

    /// Get the value of the next entry of the used ring the engine will write.
    pub fn next_used(&self) -> (r: u16)
        ensures
            r == self.next_used,
    {
        self.next_used
    }

    /// Set the position in the used ring the engine writes to next.
    pub fn set_next_used(&mut self, next_used: u16)
        ensures
            *final(self) == (Queue { next_used, ..*old(self) }),
    {
        self.next_used = next_used;
    }

    /// Step the available ring cursor back by one entry, so that the chain
    /// consumed last is yielded once more.
    pub fn go_to_previous_position(&mut self)
        ensures
            *final(self) == (Queue { next_avail: w_sub(old(self).next_avail, 1), ..*old(self) }),
    {
        self.next_avail = self.next_avail.wrapping_sub(1);
    }

    /// Read the index field the driver publishes new available entries with,
    /// two bytes into the available ring header.  The value is whatever the
    /// driver has published by the moment of the read; the contract pins
    /// when the read succeeds, and with which error it fails.
    pub fn avail_idx(&self, mem: &GuestMem, order: LoadOrder) -> (r: Result<u16, Error>)
        ensures
            ({
                let a = self.avail_ring as int + 2;
                match r {
                    Ok(_) => a <= u64::MAX && mem_grants(*mem, a as u64, 2),
                    Err(Error::AddressOverflow) => a > u64::MAX,
                    Err(Error::GuestMemory(_)) => a <= u64::MAX && !mem_grants(*mem, a as u64, 2),
                    Err(_) => false,
                }
            }),
    {
        let addr = match self.avail_ring.checked_add(2) {
            Some(a) => a,
            None => {
                return Err(Error::AddressOverflow);
            },
        };
        match mem_load_u16(mem, addr, order) {
            Ok(v) => Ok(v),
            Err(e) => Err(Error::GuestMemory(e)),
        }
    }

    /// Read the index field the device publishes completions with, two bytes
    /// into the used ring header.  As with `avail_idx`, only the success and
    /// failure conditions are pinned, not the value.
    pub fn used_idx(&self, mem: &GuestMem, order: LoadOrder) -> (r: Result<u16, Error>)
        ensures
            ({
                let a = self.used_ring as int + 2;
                match r {
                    Ok(_) => a <= u64::MAX && mem_grants(*mem, a as u64, 2),
                    Err(Error::AddressOverflow) => a > u64::MAX,
                    Err(Error::GuestMemory(_)) => a <= u64::MAX && !mem_grants(*mem, a as u64, 2),
                    Err(_) => false,
                }
            }),
    {
        let addr = match self.used_ring.checked_add(2) {
            Some(a) => a,
            None => {
                return Err(Error::AddressOverflow);
            },
        };
        match mem_load_u16(mem, addr, order) {
            Ok(v) => Ok(v),
            Err(e) => Err(Error::GuestMemory(e)),
        }
    }

    /// The queue state after one completion is recorded: both the used ring
    /// cursor and the batch counter step forward by one, wrapping.
    pub open spec fn spec_after_add_used(self) -> Queue {
        Queue { next_used: w_add(self.next_used, 1), num_added: w_add(self.num_added, 1), ..self }
    }

    /// The guest address of the used ring slot the next completion goes to.
    /// Meaningful only while the size is nonzero.
    pub open spec fn spec_used_slot_addr(self) -> int {
        self.used_ring + 4 + 8 * (self.next_used as int % self.size as int)
    }

    /// Write one element of the used ring: `{id: head_index, len}` at the
    /// slot `next_used` names, then publish the stepped `next_used` through
    /// the ring's index field with release order.
    ///
    /// A head index at or past the queue size is refused with the queue and
    /// the ring untouched.  Whatever else fails, the published index field
    /// keeps its old value; the cursors step forward exactly when the element
    /// was fully written.
    pub fn add_used(&mut self, mem: &mut GuestMem, head_index: u16, len: u32) -> (r: Result<
        (),
        Error,
    >)
        ensures
            head_index >= old(self).size ==> {
                &&& r matches Err(Error::InvalidDescriptorIndex)
                &&& *final(self) == *old(self)
                &&& mem_bytes(*final(mem)) == mem_bytes(*old(mem))
            },
            head_index < old(self).size ==> ({
                let mm = mem_bytes(*old(mem));
                let elem = old(self).spec_used_slot_addr();
                let idxa = old(self).used_ring as int + 2;
                if elem + 4 > u64::MAX {
                    &&& r matches Err(Error::AddressOverflow)
                    &&& *final(self) == *old(self)
                    &&& mem_bytes(*final(mem)) == mm
                } else {
                    let g_id = mem_grants(*old(mem), elem as u64, 4);
                    let g_len = mem_grants(*old(mem), (elem + 4) as u64, 4);
                    let g_idx = mem_grants(*old(mem), idxa as u64, 2);
                    if g_id && g_len && g_idx {
                        &&& r is Ok
                        &&& *final(self) == old(self).spec_after_add_used()
                        &&& mem_bytes(*final(mem)) == store_le16(
                            store_le32(store_le32(mm, elem, head_index as u32), elem + 4, len),
                            idxa,
                            w_add(old(self).next_used, 1),
                        )
                    } else {
                        &&& r matches Err(Error::GuestMemory(_))
                        &&& (if g_id && g_len {
                            &&& *final(self) == old(self).spec_after_add_used()
                            &&& mem_bytes(*final(mem)) == store_le32(
                                store_le32(mm, elem, head_index as u32),
                                elem + 4,
                                len,
                            )
                        } else if g_id {
                            &&& *final(self) == *old(self)
                            &&& mem_bytes(*final(mem)) == store_le32(mm, elem, head_index as u32)
                        } else {
                            &&& *final(self) == *old(self)
                            &&& mem_bytes(*final(mem)) == mm
                        })
                    }
                }
            }),
            r is Err ==> u16_at(mem_bytes(*final(mem)), old(self).used_ring as int + 2) == u16_at(
                mem_bytes(*old(mem)),
                old(self).used_ring as int + 2,
            ),
            forall|a: u64, l: u64| mem_grants(*final(mem), a, l) == mem_grants(*old(mem), a, l),
    {
        if head_index >= self.size {
            return Err(Error::InvalidDescriptorIndex);
        }
        let next_used_index = (self.next_used % self.size) as u64;
        let offset = VIRTQ_USED_RING_HEADER_SIZE + next_used_index * VIRTQ_USED_ELEMENT_SIZE;
        let addr = match self.used_ring.checked_add(offset) {
            Some(a) => a,
            None => {
                return Err(Error::AddressOverflow);
            },
        };
        let addr_len = match addr.checked_add(4) {
            Some(a) => a,
            None => {
                return Err(Error::AddressOverflow);
            },
        };
        match mem_store_u32(mem, addr, head_index as u32, StoreOrder::Relaxed) {
            Ok(_) => {},
            Err(e) => {
                return Err(Error::GuestMemory(e));
            },
        }
        match mem_store_u32(mem, addr_len, len, StoreOrder::Relaxed) {
            Ok(_) => {},
            Err(e) => {
                return Err(Error::GuestMemory(e));
            },
        }
        self.next_used = self.next_used.wrapping_add(1);
        self.num_added = self.num_added.wrapping_add(1);
        let idx_addr = match self.used_ring.checked_add(2) {
            Some(a) => a,
            // The element address two words past this one was computable, so
            // this cannot overflow.
            None => unreached(),
        };
        match mem_store_u16(mem, idx_addr, self.next_used, StoreOrder::Release) {
            Ok(_) => Ok(()),
            Err(e) => Err(Error::GuestMemory(e)),
        }
    }

    /// The guest address of the `avail_event` field: past the used ring's
    /// header and all of its elements.
    pub open spec fn spec_avail_event_addr(self) -> int {
        self.used_ring + 4 + 8 * self.size as int
    }

    /// The guest address of the `used_event` field: past the available
    /// ring's header and all of its entries.
    pub open spec fn spec_used_event_addr(self) -> int {
        self.avail_ring + 4 + 2 * self.size as int
    }

    /// Where arming notifications writes: with the event index feature the
    /// `avail_event` field, without it the used ring's `flags` word.
    pub open spec fn spec_arm_addr(self) -> int {
        if self.event_idx_enabled {
            self.spec_avail_event_addr()
        } else {
            self.used_ring as int
        }
    }

    /// What arming notifications writes there: with the event index feature
    /// the pending cursor `next_avail` — deliberately not the last observed
    /// available index, so a driver that advanced the ring meanwhile still
    /// gets noticed — and without it a cleared flags word.
    pub open spec fn spec_arm_value(self) -> u16 {
        if self.event_idx_enabled {
            self.next_avail
        } else {
            0
        }
    }

    /// Write `val` to the `avail_event` field of the used ring.
    fn set_avail_event(&self, mem: &mut GuestMem, val: u16, order: StoreOrder) -> (r: Result<
        (),
        Error,
    >)
        ensures
            ({
                let a = self.spec_avail_event_addr();
                match r {
                    Ok(_) => a <= u64::MAX && mem_grants(*old(mem), a as u64, 2) && mem_bytes(
                        *final(mem),
                    ) == store_le16(mem_bytes(*old(mem)), a, val),
                    Err(Error::AddressOverflow) => a > u64::MAX && mem_bytes(*final(mem))
                        == mem_bytes(*old(mem)),
                    Err(Error::GuestMemory(_)) => a <= u64::MAX && !mem_grants(
                        *old(mem),
                        a as u64,
                        2,
                    ) && mem_bytes(*final(mem)) == mem_bytes(*old(mem)),
                    Err(_) => false,
                }
            }),
            forall|a: u64, l: u64| mem_grants(*final(mem), a, l) == mem_grants(*old(mem), a, l),
    {
        let avail_event_offset = VIRTQ_USED_RING_HEADER_SIZE + VIRTQ_USED_ELEMENT_SIZE * (
        self.size as u64);
        let addr = match self.used_ring.checked_add(avail_event_offset) {
            Some(a) => a,
            None => {
                return Err(Error::AddressOverflow);
            },
        };
        match mem_store_u16(mem, addr, val, order) {
            Ok(_) => Ok(()),
            Err(e) => Err(Error::GuestMemory(e)),
        }
    }

    /// Set the `flags` word at the head of the used ring.
    fn set_used_flags(&self, mem: &mut GuestMem, val: u16, order: StoreOrder) -> (r: Result<
        (),
        Error,
    >)
        ensures
            ({
                match r {
                    Ok(_) => mem_grants(*old(mem), self.used_ring, 2) && mem_bytes(*final(mem))
                        == store_le16(mem_bytes(*old(mem)), self.used_ring as int, val),
                    Err(Error::GuestMemory(_)) => !mem_grants(*old(mem), self.used_ring, 2)
                        && mem_bytes(*final(mem)) == mem_bytes(*old(mem)),
                    Err(_) => false,
                }
            }),
            forall|a: u64, l: u64| mem_grants(*final(mem), a, l) == mem_grants(*old(mem), a, l),
    {
        match mem_store_u16(mem, self.used_ring, val, order) {
            Ok(_) => Ok(()),
            Err(e) => Err(Error::GuestMemory(e)),
        }
    }

    /// Read the `used_event` field of the available ring: the driver's
    /// advertised notification threshold under the event index feature.
    /// Which threshold comes back is the driver's act; only the success and
    /// failure conditions are pinned.
    fn used_event(&self, mem: &GuestMem, order: LoadOrder) -> (r: Result<u16, Error>)
        ensures
            ({
                let a = self.spec_used_event_addr();
                match r {
                    Ok(_) => a <= u64::MAX && mem_grants(*mem, a as u64, 2),
                    Err(Error::AddressOverflow) => a > u64::MAX,
                    Err(Error::GuestMemory(_)) => a <= u64::MAX && !mem_grants(*mem, a as u64, 2),
                    Err(_) => false,
                }
            }),
    {
        let used_event_offset = VIRTQ_AVAIL_RING_HEADER_SIZE + (self.size as u64)
            * VIRTQ_AVAIL_ELEMENT_SIZE;
        let addr = match self.avail_ring.checked_add(used_event_offset) {
            Some(a) => a,
            None => {
                return Err(Error::AddressOverflow);
            },
        };
        match mem_load_u16(mem, addr, order) {
            Ok(v) => Ok(v),
            Err(e) => Err(Error::GuestMemory(e)),
        }
    }

    /// Write the appropriate values to enable or disable notifications from
    /// the driver.  Every store here is relaxed: the callers that need an
    /// ordering guarantee fence themselves.
    fn set_notification(&self, mem: &mut GuestMem, enable: bool) -> (r: Result<(), Error>)
        ensures
            enable ==> ({
                let a = self.spec_arm_addr();
                match r {
                    Ok(_) => a <= u64::MAX && mem_grants(*old(mem), a as u64, 2) && mem_bytes(
                        *final(mem),
                    ) == store_le16(mem_bytes(*old(mem)), a, self.spec_arm_value()),
                    Err(Error::AddressOverflow) => a > u64::MAX && mem_bytes(*final(mem))
                        == mem_bytes(*old(mem)),
                    Err(Error::GuestMemory(_)) => a <= u64::MAX && !mem_grants(
                        *old(mem),
                        a as u64,
                        2,
                    ) && mem_bytes(*final(mem)) == mem_bytes(*old(mem)),
                    Err(_) => false,
                }
            }),
            !enable && !self.event_idx_enabled ==> ({
                match r {
                    Ok(_) => mem_grants(*old(mem), self.used_ring, 2) && mem_bytes(*final(mem))
                        == store_le16(
                        mem_bytes(*old(mem)),
                        self.used_ring as int,
                        VIRTQ_USED_F_NO_NOTIFY,
                    ),
                    Err(Error::GuestMemory(_)) => !mem_grants(*old(mem), self.used_ring, 2)
                        && mem_bytes(*final(mem)) == mem_bytes(*old(mem)),
                    Err(_) => false,
                }
            }),
            !enable && self.event_idx_enabled ==> r is Ok && mem_bytes(*final(mem)) == mem_bytes(
                *old(mem),
            ),
            forall|a: u64, l: u64| mem_grants(*final(mem), a, l) == mem_grants(*old(mem), a, l),
    {
        if enable {
            if self.event_idx_enabled {
                // Arm with the pending cursor `next_avail`, not the observed
                // available index, so no advance of the ring between the last
                // poll and this re-arm can go unnoticed.
                self.set_avail_event(mem, self.next_avail, StoreOrder::Relaxed)
            } else {
                self.set_used_flags(mem, 0, StoreOrder::Relaxed)
            }
        } else if !self.event_idx_enabled {
            self.set_used_flags(mem, VIRTQ_USED_F_NO_NOTIFY, StoreOrder::Relaxed)
        } else {
            // With the event index negotiated, notifications stay off by
            // themselves once one fired; there is no flag to set.
            Ok(())
        }
    }

    /// Re-arm driver notifications and report whether new available entries
    /// appeared meanwhile.
    ///
    /// The arm write, a sequentially consistent fence, and a re-read of the
    /// driver's published available index: `Ok(true)` means the re-read index
    /// differed from `next_avail`, so the driver moved the ring before the
    /// re-arm could take effect and the caller must poll once more instead of
    /// trusting a future notification.  Which index the re-read found is the
    /// driver's doing, so the contract pins the arm write and the success
    /// conditions, not the returned bool.
    pub fn enable_notification(&mut self, mem: &mut GuestMem) -> (r: Result<bool, Error>)
        ensures
            *final(self) == *old(self),
            ({
                let arm_a = old(self).spec_arm_addr();
                let idx_a = old(self).avail_ring as int + 2;
                let armed = store_le16(
                    mem_bytes(*old(mem)),
                    arm_a,
                    old(self).spec_arm_value(),
                );
                match r {
                    Ok(_) => {
                        &&& arm_a <= u64::MAX && mem_grants(*old(mem), arm_a as u64, 2)
                        &&& idx_a <= u64::MAX && mem_grants(*old(mem), idx_a as u64, 2)
                        &&& mem_bytes(*final(mem)) == armed
                    },
                    Err(Error::AddressOverflow) => (arm_a > u64::MAX && mem_bytes(*final(mem))
                        == mem_bytes(*old(mem))) || (arm_a <= u64::MAX && mem_grants(
                        *old(mem),
                        arm_a as u64,
                        2,
                    ) && idx_a > u64::MAX && mem_bytes(*final(mem)) == armed),
                    Err(Error::GuestMemory(_)) => (arm_a <= u64::MAX && !mem_grants(
                        *old(mem),
                        arm_a as u64,
                        2,
                    ) && mem_bytes(*final(mem)) == mem_bytes(*old(mem))) || (arm_a <= u64::MAX
                        && mem_grants(*old(mem), arm_a as u64, 2) && idx_a <= u64::MAX
                        && !mem_grants(*old(mem), idx_a as u64, 2) && mem_bytes(*final(mem))
                        == armed),
                    Err(_) => false,
                }
            }),
            forall|a: u64, l: u64| mem_grants(*final(mem), a, l) == mem_grants(*old(mem), a, l),
    {
        match self.set_notification(mem, true) {
            Ok(_) => {},
            Err(e) => {
                return Err(e);
            },
        }
        // Keep the following read from drifting ahead of the arm write.
        mem_fence();
        match self.avail_idx(mem, LoadOrder::Relaxed) {
            Ok(idx) => Ok(idx != self.next_avail),
            Err(e) => Err(e),
        }
    }

    /// Ask the driver not to notify the device.  With the event index
    /// feature this is a no-op: suppression is implicit there until the
    /// device re-arms.
    pub fn disable_notification(&mut self, mem: &mut GuestMem) -> (r: Result<(), Error>)
        ensures
            *final(self) == *old(self),
            old(self).event_idx_enabled ==> r is Ok && mem_bytes(*final(mem)) == mem_bytes(
                *old(mem),
            ),
            !old(self).event_idx_enabled ==> ({
                match r {
                    Ok(_) => mem_grants(*old(mem), old(self).used_ring, 2) && mem_bytes(
                        *final(mem),
                    ) == store_le16(
                        mem_bytes(*old(mem)),
                        old(self).used_ring as int,
                        VIRTQ_USED_F_NO_NOTIFY,
                    ),
                    Err(Error::GuestMemory(_)) => !mem_grants(*old(mem), old(self).used_ring, 2)
                        && mem_bytes(*final(mem)) == mem_bytes(*old(mem)),
                    Err(_) => false,
                }
            }),
            forall|a: u64, l: u64| mem_grants(*final(mem), a, l) == mem_grants(*old(mem), a, l),
    {
        self.set_notification(mem, false)
    }

    /// Decide, after a batch of completions, whether the driver must be
    /// notified.
    ///
    /// Without the event index feature there is no suppression and the
    /// answer is always yes.  With it, the driver's threshold is read after
    /// a sequentially consistent fence, the batch counter is reset, and the
    /// answer is [`notification_due`] for the threshold that was read: yes
    /// exactly when the threshold lies in the circular window the batch just
    /// moved the used index across.  The threshold itself is the driver's
    /// act, so the contract fixes the decision for every value it may have
    /// had, not which value it was.
    pub fn needs_notification(&mut self, mem: &GuestMem) -> (r: Result<bool, Error>)
        ensures
            ({
                let ue = old(self).spec_used_event_addr();
                if !old(self).event_idx_enabled {
                    r matches Ok(b) && b == true && *final(self) == *old(self)
                } else {
                    match r {
                        Ok(b) => {
                            &&& ue <= u64::MAX && mem_grants(*mem, ue as u64, 2)
                            &&& *final(self) == (Queue { num_added: 0, ..*old(self) })
                            &&& exists|threshold: u16|
                                b == spec_needs_notification(
                                    old(self).next_used,
                                    old(self).num_added,
                                    threshold,
                                )
                        },
                        Err(Error::AddressOverflow) => ue > u64::MAX && *final(self) == *old(self),
                        Err(Error::GuestMemory(_)) => ue <= u64::MAX && !mem_grants(
                            *mem,
                            ue as u64,
                            2,
                        ) && *final(self) == *old(self),
                        Err(_) => false,
                    }
                }
            }),
    {
        let used_idx = self.next_used;
        // Let every store of the batch settle before the threshold is read.
        mem_fence();
        if self.event_idx_enabled {
            let used_event = match self.used_event(mem, LoadOrder::Relaxed) {
                Ok(v) => v,
                Err(e) => {
                    return Err(e);
                },
            };
            let num_added = self.num_added;
            self.num_added = 0;
            return Ok(notification_due(used_idx, num_added, used_event));
        }
        Ok(true)
    }
}

impl Queue {
    /// Consume one entry of the available ring: read the driver's published
    /// index with acquire order, and while [`has_pending_entries`] says
    /// entries are pending, yield the chain headed at the cursor's slot and
    /// step the cursor.
    ///
    /// Which head and which descriptors come out is what the driver put in
    /// the rings, read at this moment; the contract pins the cursor's
    /// movement — one step forward exactly when a chain is yielded — and
    /// the shape of the chain, and leaves everything untouched whenever
    /// nothing is yielded, a decremented published index included.
    pub fn pop_descriptor_chain(&mut self, mem: &GuestMem) -> (r: Option<DescriptorChain>)
        ensures
            r is None ==> *final(self) == *old(self),
            old(self).avail_ring + 2 > u64::MAX || !mem_grants(
                *mem,
                (old(self).avail_ring + 2) as u64,
                2,
            ) ==> r is None,
            r matches Some(c) ==> {
                &&& old(self).size > 0
                &&& *final(self) == (Queue {
                    next_avail: w_add(old(self).next_avail, 1),
                    ..*old(self)
                })
                &&& c.descriptors@.len() <= old(self).size
                &&& forall|i: int|
                    0 <= i < c.descriptors@.len() ==> !spec_refers_to_indirect_table(
                        #[trigger] c.descriptors@[i].flags,
                    )
                &&& forall|i: int|
                    0 <= i < c.descriptors@.len() - 1 ==> spec_has_next(
                        #[trigger] c.descriptors@[i].flags,
                    )
            },
    {
        let idx_addr = match self.avail_ring.checked_add(2) {
            Some(a) => a,
            None => {
                return None;
            },
        };
        let avail_idx = match mem_load_u16(mem, idx_addr, LoadOrder::Acquire) {
            Ok(v) => v,
            Err(_) => {
                return None;
            },
        };
        if !has_pending_entries(avail_idx, self.next_avail, self.size) {
            return None;
        }
        let slot_offset = VIRTQ_AVAIL_RING_HEADER_SIZE + ((self.next_avail % self.size) as u64)
            * VIRTQ_AVAIL_ELEMENT_SIZE;
        let slot_addr = match self.avail_ring.checked_add(slot_offset) {
            Some(a) => a,
            None => {
                return None;
            },
        };
        let head = match mem_load_u16(mem, slot_addr, LoadOrder::Acquire) {
            Ok(v) => v,
            Err(_) => {
                return None;
            },
        };
        self.next_avail = self.next_avail.wrapping_add(1);
        let descriptors = walk_chain(mem, self.desc_table, self.size, head);
        Some(DescriptorChain { head_index: head, descriptors })
    }
}

/// Whether a completion batch crossed the driver's advertised threshold: the
/// threshold lies in the circular half-open window from the used index the
/// driver last saw evaluated, exclusive, up to the current one, inclusive.
/// Both distances are wrapping 16-bit subtractions; `num_added` is how many
/// completions the batch recorded.
pub open spec fn spec_needs_notification(used_idx: u16, num_added: u16, used_event: u16) -> bool {
    w_sub(w_sub(used_idx, used_event), 1) < w_sub(used_idx, w_sub(used_idx, num_added))
}

/// Evaluate the notification window for values in hand: the current used
/// index, the completions recorded since the last evaluation, and the
/// threshold read back from the driver.  This is the whole of the decision;
/// the caller only supplies what it read.
pub fn notification_due(used_idx: u16, num_added: u16, used_event: u16) -> (r: bool)
    ensures
        r == spec_needs_notification(used_idx, num_added, used_event),
{
    let old_idx = used_idx.wrapping_sub(num_added);
    used_idx.wrapping_sub(used_event).wrapping_sub(1) < used_idx.wrapping_sub(old_idx)
}

/// Whether the driver's published available index leaves entries for the
/// cursor: the wrapping distance from the cursor up to the index is neither
/// zero nor more than the ring could hold.
pub open spec fn spec_has_pending(avail_idx: u16, next_avail: u16, size: u16) -> bool {
    w_sub(avail_idx, next_avail) != 0 && w_sub(avail_idx, next_avail) <= size
}

/// Decide, from the published index the caller read back, whether entries
/// are pending for the cursor.  A distance beyond the queue size can only
/// come from a driver that moved its index backwards or invented entries,
/// and counts as nothing pending.
pub fn has_pending_entries(avail_idx: u16, next_avail: u16, size: u16) -> (r: bool)
    ensures
        r == spec_has_pending(avail_idx, next_avail, size),
{
    let pending = avail_idx.wrapping_sub(next_avail);
    pending != 0 && pending <= size
}

/// A driver that decrements its published index below the cursor exposes
/// nothing: any index behind the cursor leaves no entry pending, short of a
/// decrement so large that it wraps clear around to within a ring's worth
/// ahead of the cursor again.
pub proof fn lemma_decremented_index_pends_nothing(next_avail: u16, back: u16, size: u16)
    requires
        1 <= back,
        back < 0x10000 - size,
    ensures
        !spec_has_pending(w_sub(next_avail, back), next_avail, size),
{
}

/// The wrapping formula is the circular window test it is meant to be:
/// with `d` the wrapping distance from the driver's threshold up to the
/// current used index, a notification is due exactly when the batch covered
/// that distance — `1 <= d <= num_added`.
pub proof fn lemma_needs_notification_window(used_idx: u16, num_added: u16, used_event: u16)
    ensures
        spec_needs_notification(used_idx, num_added, used_event) <==> (1 <= w_sub(
            used_idx,
            used_event,
        ) && w_sub(used_idx, used_event) <= num_added),
{
}

/// With exactly one completion recorded since the last evaluation, the
/// notification is due at exactly one used index value: one past the
/// driver's advertised threshold, wraparound included.
pub proof fn lemma_single_added_notification(next_used: u16, used_event: u16)
    ensures
        spec_needs_notification(next_used, 1, used_event) <==> next_used == w_add(used_event, 1),
{
}

/// True exactly when the queue size is one the split ring layout allows.
fn size_is_power_of_two(size: u16) -> (r: bool)
    ensures
        r == is_power_of_two(size as int),
{
    if size == 0 {
        return false;
    }
    let mut v: u16 = size;
    while v % 2 == 0
        invariant
            1 <= v <= size,
            is_power_of_two(v as int) == is_power_of_two(size as int),
        decreases v,
    {
        v = v / 2;
    }
    v == 1
}

/// Combine a register's current value with the halves the driver wrote.
fn combine_addr(current: u64, low: Option<u32>, high: Option<u32>) -> (r: u64)
    ensures
        r == spec_combined_addr(current, low, high),
{
    let lo: u64 = match low {
        Some(l) => l as u64,
        None => current % 0x1_0000_0000,
    };
    let hi: u64 = match high {
        Some(h) => h as u64,
        None => current / 0x1_0000_0000,
    };
    hi * 0x1_0000_0000 + lo
}

/// True exactly when a ring starting at `base` and running for `size` bytes
/// ends inside the memory space.
fn ring_end_in_range(mem: &GuestMem, base: u64, size: u64) -> (r: bool)
    ensures
        r == spec_ring_end_in_range(*mem, base, size as int),
{
    match base.checked_add(size) {
        Some(end) => mem_address_in_range(mem, end),
        None => false,
    }
}

} // verus!
