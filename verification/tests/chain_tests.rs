//! The descriptor chain walker against raw table bytes: little-endian field
//! decoding, linkage, the traversal bound, and indirect tables.

use virtio_bindings::bindings::virtio_ring::{VRING_DESC_F_INDIRECT, VRING_DESC_F_NEXT};
use virtio_queue::queue::Queue;
use vm_memory::{Bytes, GuestAddress, GuestMemoryMmap};

const QUEUE_SIZE: u16 = 16;
const DESC_TABLE_ADDR: u64 = 0;
const AVAIL_RING_ADDR: u64 = 0x100;
const USED_RING_ADDR: u64 = 0x128;

fn memory() -> GuestMemoryMmap<()> {
    GuestMemoryMmap::<()>::from_ranges(&[(GuestAddress(0), 0x10000)]).unwrap()
}

fn mock_queue() -> Queue {
    let mut q = Queue::new(QUEUE_SIZE);
    q.set_desc_table_address(Some(DESC_TABLE_ADDR as u32), None);
    q.set_avail_ring_address(Some(AVAIL_RING_ADDR as u32), None);
    q.set_used_ring_address(Some(USED_RING_ADDR as u32), None);
    q.set_ready(true);
    q
}

fn write_u16(mem: &GuestMemoryMmap<()>, addr: u64, v: u16) {
    mem.write_obj::<u16>(u16::to_le(v), GuestAddress(addr)).unwrap();
}

fn write_desc_at(mem: &GuestMemoryMmap<()>, table: u64, i: u16, addr: u64, len: u32, flags: u16, next: u16) {
    let base = table + 16 * i as u64;
    mem.write_obj::<u64>(u64::to_le(addr), GuestAddress(base)).unwrap();
    mem.write_obj::<u32>(u32::to_le(len), GuestAddress(base + 8)).unwrap();
    write_u16(mem, base + 12, flags);
    write_u16(mem, base + 14, next);
}

fn publish_head(mem: &GuestMemoryMmap<()>, slot: u16, head: u16, idx: u16) {
    write_u16(mem, AVAIL_RING_ADDR + 4 + 2 * slot as u64, head);
    write_u16(mem, AVAIL_RING_ADDR + 2, idx);
}

#[test]
fn chain_decodes_little_endian_fields() {
    let mem = memory();
    let mut q = mock_queue();

    // One entry spelled byte by byte: the fields must be read back as
    // little-endian values, whatever the host byte order.
    let raw: [u8; 16] = [
        0x01, 0x02, 0x03, 0x04, 0x05, 0x06, 0x07, 0x08, // addr
        0x11, 0x22, 0x33, 0x44, // len
        0x00, 0x00, // flags
        0x2a, 0x00, // next
    ];
    mem.write_slice(&raw, GuestAddress(DESC_TABLE_ADDR)).unwrap();
    publish_head(&mem, 0, 0, 1);

    let chain = q.pop_descriptor_chain(&mem).unwrap();
    assert_eq!(chain.head_index(), 0);
    let descs = chain.descriptors();
    assert_eq!(descs.len(), 1);
    assert_eq!(descs[0].addr(), 0x0807060504030201);
    assert_eq!(descs[0].len(), 0x44332211);
    assert_eq!(descs[0].flags(), 0);
    // The last entry of a chain leaves its `next` field meaningless; the
    // walker must not have followed it.
    assert_eq!(descs[0].next(), 0x2a);
}

#[test]
fn chain_follows_linkage() {
    let mem = memory();
    let mut q = mock_queue();

    write_desc_at(&mem, DESC_TABLE_ADDR, 2, 0x3000, 0x30, VRING_DESC_F_NEXT as u16, 3);
    write_desc_at(&mem, DESC_TABLE_ADDR, 3, 0x4000, 0x40, VRING_DESC_F_NEXT as u16, 4);
    write_desc_at(&mem, DESC_TABLE_ADDR, 4, 0x5000, 0x50, 0, 0);
    publish_head(&mem, 0, 2, 1);

    let chain = q.pop_descriptor_chain(&mem).unwrap();
    assert_eq!(chain.head_index(), 2);
    let descs = chain.descriptors();
    assert_eq!(descs.len(), 3);
    assert_eq!(descs[0].addr(), 0x3000);
    assert_eq!(descs[1].addr(), 0x4000);
    assert_eq!(descs[2].addr(), 0x5000);
    assert_eq!(q.next_avail(), 1);
}

#[test]
fn chain_with_out_of_table_head_is_empty() {
    let mem = memory();
    let mut q = mock_queue();

    publish_head(&mem, 0, 40, 1);

    // A head at or past the queue size names no table entry; the chain is
    // yielded, with nothing in it, and nothing panics.
    let chain = q.pop_descriptor_chain(&mem).unwrap();
    assert_eq!(chain.head_index(), 40);
    assert!(chain.descriptors().is_empty());
}

#[test]
fn chain_traversal_is_bounded() {
    let mem = memory();
    let mut q = mock_queue();

    // Entry 0 links to itself: an adversarial table must not walk forever.
    write_desc_at(&mem, DESC_TABLE_ADDR, 0, 0x1000, 0x10, VRING_DESC_F_NEXT as u16, 0);
    publish_head(&mem, 0, 0, 1);

    let chain = q.pop_descriptor_chain(&mem).unwrap();
    assert_eq!(chain.descriptors().len(), QUEUE_SIZE as usize);
}

#[test]
fn chain_enters_indirect_table() {
    let mem = memory();
    let mut q = mock_queue();

    let indirect_table: u64 = 0x2000;
    write_desc_at(
        &mem,
        DESC_TABLE_ADDR,
        0,
        indirect_table,
        32,
        VRING_DESC_F_INDIRECT as u16,
        0,
    );
    write_desc_at(&mem, indirect_table, 0, 0x6000, 0x60, VRING_DESC_F_NEXT as u16, 1);
    write_desc_at(&mem, indirect_table, 1, 0x7000, 0x70, 0, 0);
    publish_head(&mem, 0, 0, 1);

    let chain = q.pop_descriptor_chain(&mem).unwrap();
    let descs = chain.descriptors();
    assert_eq!(descs.len(), 2);
    assert_eq!(descs[0].addr(), 0x6000);
    assert_eq!(descs[1].addr(), 0x7000);
}

#[test]
fn chain_refuses_nested_indirection() {
    let mem = memory();
    let mut q = mock_queue();

    let indirect_table: u64 = 0x2000;
    write_desc_at(
        &mem,
        DESC_TABLE_ADDR,
        0,
        indirect_table,
        16,
        VRING_DESC_F_INDIRECT as u16,
        0,
    );
    // The indirect table's first entry asks for another indirection, which
    // the layout forbids; the walker yields nothing rather than recursing.
    write_desc_at(&mem, indirect_table, 0, 0x3000, 16, VRING_DESC_F_INDIRECT as u16, 0);
    publish_head(&mem, 0, 0, 1);

    let chain = q.pop_descriptor_chain(&mem).unwrap();
    assert!(chain.descriptors().is_empty());
}

#[test]
fn chain_refuses_malformed_indirect_length() {
    let mem = memory();
    let mut q = mock_queue();

    // An indirect table length that is no multiple of the entry size names
    // no whole number of descriptors.
    write_desc_at(&mem, DESC_TABLE_ADDR, 0, 0x2000, 24, VRING_DESC_F_INDIRECT as u16, 0);
    publish_head(&mem, 0, 0, 1);

    let chain = q.pop_descriptor_chain(&mem).unwrap();
    assert!(chain.descriptors().is_empty());
}

#[test]
fn chain_refuses_oversized_indirect_table() {
    let mem = memory();
    let mut q = mock_queue();

    // An indirect table claiming more entries than a queue index can name
    // is refused outright, before any of its entries is read.
    write_desc_at(
        &mem,
        DESC_TABLE_ADDR,
        0,
        0x2000,
        0x10_0000,
        VRING_DESC_F_INDIRECT as u16,
        0,
    );
    publish_head(&mem, 0, 0, 1);

    let chain = q.pop_descriptor_chain(&mem).unwrap();
    assert!(chain.descriptors().is_empty());
}

#[test]
fn single_entry_queue_bounds_the_walk() {
    let mem = memory();
    let mut q = mock_queue();
    q.set_size(1);

    // With the smallest possible queue, even a self-linking entry yields at
    // most one descriptor.
    write_desc_at(&mem, DESC_TABLE_ADDR, 0, 0x1000, 0x10, VRING_DESC_F_NEXT as u16, 0);
    publish_head(&mem, 0, 0, 1);

    let chain = q.pop_descriptor_chain(&mem).unwrap();
    assert_eq!(chain.descriptors().len(), 1);
    assert_eq!(q.next_avail(), 1);
}

#[test]
fn cursor_recovers_once_index_moves_ahead_again() {
    let mem = memory();
    let mut q = mock_queue();

    write_desc_at(&mem, DESC_TABLE_ADDR, 0, 0x1000, 0x10, 0, 0);
    write_desc_at(&mem, DESC_TABLE_ADDR, 7, 0x9000, 0x90, 0, 0);
    publish_head(&mem, 0, 0, 1);
    assert!(q.pop_descriptor_chain(&mem).is_some());
    assert_eq!(q.next_avail(), 1);

    // The driver decrements its published index below the cursor: nothing
    // is pending, however long the device polls.
    write_u16(&mem, AVAIL_RING_ADDR + 2, 0);
    assert!(q.pop_descriptor_chain(&mem).is_none());
    assert!(q.pop_descriptor_chain(&mem).is_none());
    assert_eq!(q.next_avail(), 1);

    // Once the index passes the cursor again, consumption resumes at the
    // cursor's slot.
    write_u16(&mem, AVAIL_RING_ADDR + 4 + 2, 7);
    write_u16(&mem, AVAIL_RING_ADDR + 2, 2);
    let chain = q.pop_descriptor_chain(&mem).unwrap();
    assert_eq!(chain.head_index(), 7);
    assert_eq!(q.next_avail(), 2);
}

#[test]
fn cursor_steps_back_on_request() {
    let mem = memory();
    let mut q = mock_queue();

    write_desc_at(&mem, DESC_TABLE_ADDR, 5, 0x5000, 0x50, 0, 0);
    publish_head(&mem, 0, 5, 1);

    let first = q.pop_descriptor_chain(&mem).unwrap();
    assert_eq!(first.head_index(), 5);
    assert_eq!(q.next_avail(), 1);

    // Stepping the cursor back makes the same chain come out once more.
    q.go_to_previous_position();
    assert_eq!(q.next_avail(), 0);
    let again = q.pop_descriptor_chain(&mem).unwrap();
    assert_eq!(again.head_index(), 5);
}
