//! Scenarios for the engine's stated behaviors: the notification threshold,
//! suppression without the event index, the failure classes of each
//! operation, and the configuration setters' refusals.

use virtio_queue::mem::LoadOrder;
use virtio_queue::queue::{has_pending_entries, notification_due, Queue};
use virtio_queue::Error;
use vm_memory::{Bytes, GuestAddress, GuestMemoryMmap};

const QUEUE_SIZE: u16 = 16;
const DESC_TABLE_ADDR: u64 = 0;
const AVAIL_RING_ADDR: u64 = 0x100;
const USED_RING_ADDR: u64 = 0x128;

fn memory() -> GuestMemoryMmap<()> {
    GuestMemoryMmap::<()>::from_ranges(&[(GuestAddress(0), 0x10000)]).unwrap()
}

fn mock_queue() -> Queue {
    let mut q = Queue::new(QUEUE_SIZE);
    q.set_desc_table_address(Some(DESC_TABLE_ADDR as u32), None);
    q.set_avail_ring_address(Some(AVAIL_RING_ADDR as u32), None);
    q.set_used_ring_address(Some(USED_RING_ADDR as u32), None);
    q.set_ready(true);
    q
}

fn write_u16(mem: &GuestMemoryMmap<()>, addr: u64, v: u16) {
    mem.write_obj::<u16>(u16::to_le(v), GuestAddress(addr)).unwrap();
}

#[test]
fn notification_fires_once_past_the_threshold() {
    let mem = memory();
    let mut q = mock_queue();
    q.set_event_idx(true);

    // The driver advertises a threshold of 5: with one completion recorded
    // per evaluation, the notification is due at exactly one used index —
    // one past the threshold — across the whole 16-bit range, wraparound
    // included.
    write_u16(&mem, AVAIL_RING_ADDR + 4 + QUEUE_SIZE as u64 * 2, 5);

    let wrap = u32::from(u16::MAX) + 1;
    for i in 0..wrap + 12 {
        q.next_used = i as u16;
        q.num_added = 1;
        let expected = i == 6 || i == 6 + wrap;
        assert_eq!((q.needs_notification(&mem).unwrap(), i), (expected, i));
    }
}

#[test]
fn notification_covers_a_batch() {
    let mem = memory();
    let mut q = mock_queue();
    q.set_event_idx(true);

    write_u16(&mem, AVAIL_RING_ADDR + 4 + QUEUE_SIZE as u64 * 2, 5);

    // A batch of four completions moved the used index from 4 to 8, across
    // the threshold: one notification is due, and evaluating again without
    // new completions stays quiet.
    q.next_used = 8;
    q.num_added = 4;
    assert!(q.needs_notification(&mem).unwrap());
    assert_eq!(q.num_added, 0);
    assert!(!q.needs_notification(&mem).unwrap());

    // A batch that stayed at or below the threshold is quiet too.
    q.next_used = 5;
    q.num_added = 1;
    assert!(!q.needs_notification(&mem).unwrap());
}

#[test]
fn notification_always_due_without_event_idx() {
    let mem = memory();
    let mut q = mock_queue();

    // Whatever the counters hold, without the event index feature there is
    // no suppression and the answer is always yes.
    for (next_used, num_added) in [(0u16, 0u16), (5, 1), (40000, 123), (u16::MAX, u16::MAX)] {
        q.next_used = next_used;
        q.num_added = num_added;
        assert!(q.needs_notification(&mem).unwrap());
        // Without the feature the batch counter is not consumed.
        assert_eq!(q.num_added, num_added);
    }
}

#[test]
fn add_used_failure_classes() {
    let mut mem = memory();
    let mut q = mock_queue();

    // A head index at the queue size is refused outright.
    let e = q.add_used(&mut mem, QUEUE_SIZE, 0x100).unwrap_err();
    assert!(matches!(e, Error::InvalidDescriptorIndex));
    assert_eq!(q.next_used, 0);
    assert_eq!(q.num_added, 0);

    // A used ring whose slot address cannot be computed overflows.
    q.used_ring = u64::MAX - 2;
    let e = q.add_used(&mut mem, 1, 0x100).unwrap_err();
    assert!(matches!(e, Error::AddressOverflow));
    assert_eq!(q.next_used, 0);

    // A used ring outside the memory space fails as a memory access.
    q.used_ring = 0x2_0000;
    let e = q.add_used(&mut mem, 1, 0x100).unwrap_err();
    assert!(matches!(e, Error::GuestMemory(_)));
    assert_eq!(q.next_used, 0);
    assert_eq!(q.num_added, 0);
}

#[test]
fn index_reads_report_their_failure() {
    let mem = memory();
    let mut q = mock_queue();

    q.avail_ring = u64::MAX - 1;
    let e = q.avail_idx(&mem, LoadOrder::Acquire).unwrap_err();
    assert!(matches!(e, Error::AddressOverflow));

    q.avail_ring = 0x2_0000;
    let e = q.avail_idx(&mem, LoadOrder::Acquire).unwrap_err();
    assert!(matches!(e, Error::GuestMemory(_)));

    q.used_ring = u64::MAX - 1;
    let e = q.used_idx(&mem, LoadOrder::Acquire).unwrap_err();
    assert!(matches!(e, Error::AddressOverflow));

    q.used_ring = 0x2_0000;
    let e = q.used_idx(&mem, LoadOrder::Acquire).unwrap_err();
    assert!(matches!(e, Error::GuestMemory(_)));
}

#[test]
fn failed_threshold_read_keeps_the_batch() {
    let mem = memory();
    let mut q = mock_queue();
    q.set_event_idx(true);
    q.next_used = 3;
    q.num_added = 3;

    // With the available ring out of the space, the threshold cannot be
    // read; the evaluation reports that and keeps the batch counter, so a
    // later evaluation still covers these completions.
    q.avail_ring = 0x2_0000;
    let e = q.needs_notification(&mem).unwrap_err();
    assert!(matches!(e, Error::GuestMemory(_)));
    assert_eq!(q.num_added, 3);
}

#[test]
fn rearming_publishes_the_pending_cursor() {
    let mut mem = memory();
    let mut q = mock_queue();
    q.set_event_idx(true);

    // Re-arming advertises the engine's own pending cursor, not the index
    // it last observed: a driver advance between poll and re-arm must not
    // be lost.
    q.next_avail = 5;
    q.enable_notification(&mut mem).unwrap();
    let avail_event_addr = USED_RING_ADDR + 4 + 8 * QUEUE_SIZE as u64;
    let v = u16::from_le(mem.read_obj::<u16>(GuestAddress(avail_event_addr)).unwrap());
    assert_eq!(v, 5);

    // With the event index negotiated, disabling is a no-op: suppression is
    // implicit until the device re-arms.
    write_u16(&mem, USED_RING_ADDR, 0x5a5a);
    q.disable_notification(&mut mem).unwrap();
    let flags = u16::from_le(mem.read_obj::<u16>(GuestAddress(USED_RING_ADDR)).unwrap());
    assert_eq!(flags, 0x5a5a);
}

#[test]
fn notification_decision_on_values() {
    // The decision for a threshold the caller read, over the full 16-bit
    // range: with one completion per evaluation it fires exactly one past
    // the threshold, and a batch fires exactly when it covers the distance
    // up to the used index.
    let wrap = u32::from(u16::MAX) + 1;
    for i in 0..wrap {
        let expected = i == 6;
        assert_eq!(notification_due(i as u16, 1, 5), expected);
    }
    assert!(notification_due(8, 4, 5));
    assert!(!notification_due(8, 3, 4));
    assert!(!notification_due(8, 0, 7));
    // Wraparound: a batch from 0xffff across 0 covers a threshold of 0xffff.
    assert!(notification_due(1, 2, 0xffff));
}

#[test]
fn pending_entries_on_values() {
    // Nothing pending when the published index equals the cursor.
    assert!(!has_pending_entries(3, 3, 16));
    // Up to a ring's worth ahead is pending, wraparound included.
    assert!(has_pending_entries(4, 3, 16));
    assert!(has_pending_entries(19, 3, 16));
    assert!(has_pending_entries(5, 0xfff8, 16));
    // One past a ring's worth cannot be real entries.
    assert!(!has_pending_entries(20, 3, 16));
    // A decremented index — any distance that only a backwards move or an
    // invented burst could produce — counts as nothing pending.
    assert!(!has_pending_entries(2, 3, 16));
    assert!(!has_pending_entries(0, 3, 16));
    assert!(!has_pending_entries(0xffff, 3, 16));
}

#[test]
fn index_reads_see_driver_writes() {
    let mem = memory();
    let q = mock_queue();

    // A value the driver published is read back exactly; a cursor that
    // ignored memory could not produce it.
    write_u16(&mem, AVAIL_RING_ADDR + 2, 0xbeef);
    assert_eq!(q.avail_idx(&mem, LoadOrder::Acquire).unwrap(), 0xbeef);
    write_u16(&mem, USED_RING_ADDR + 2, 0x1234);
    assert_eq!(q.used_idx(&mem, LoadOrder::Acquire).unwrap(), 0x1234);
}

#[test]
fn setters_refuse_bad_values_and_keep_state() {
    let mut q = mock_queue();

    // Sizes: zero, over the ceiling, and a non-power-of-two all bounce.
    q.set_size(32);
    assert_eq!(q.size(), 16);
    q.set_size(0);
    assert_eq!(q.size(), 16);
    q.set_size(11);
    assert_eq!(q.size(), 16);
    q.set_size(4);
    assert_eq!(q.size(), 4);

    // Address halves combine; a half left alone is kept.
    q.set_desc_table_address(Some(0x1000), Some(0x2));
    assert_eq!(q.desc_table, 0x2_0000_1000);
    q.set_desc_table_address(None, Some(0x3));
    assert_eq!(q.desc_table, 0x3_0000_1000);
    q.set_desc_table_address(Some(0x2000), None);
    assert_eq!(q.desc_table, 0x3_0000_2000);

    // Misaligned addresses bounce without touching the kept value.
    q.set_desc_table_address(Some(0x2008), None);
    assert_eq!(q.desc_table, 0x3_0000_2000);
    q.set_avail_ring_address(Some(0x101), None);
    assert_eq!(q.avail_ring, AVAIL_RING_ADDR);
    q.set_used_ring_address(Some(0x12a), None);
    assert_eq!(q.used_ring, USED_RING_ADDR);
}
