//! Trusted boundary to the guest memory space.
//!
//! The engine reaches guest memory only through the wrappers in this module,
//! and everything it knows about the space is said here over two
//! uninterpreted names.  [`mem_grants`] tells at which addresses an atomic
//! access of a given width succeeds: the range lies inside one region of the
//! space and its backing is suitably aligned.  Regions are fixed when a
//! space is built, so this is a stable fact of the value, and every wrapper
//! leaves it unchanged.  [`mem_bytes`] is the byte map the store wrappers
//! transform: everything the engine writes — a used element, a published
//! index, an event threshold — is pinned in it byte for byte, in
//! little-endian order whatever the host byte order is.
//!
//! The loads promise only when they succeed, never which value comes back:
//! the driver writes the same memory from its own execution context, so a
//! loaded value is not a function of anything the verifier can see.  The
//! logic that consumes a loaded value — the notification window, the
//! pending-entry test, the chain walk — takes it as an argument and is
//! verified for every value of it.
//!
//! One name answers for loads and stores alike: the vendored backend
//! discards the access direction when it resolves a range, so a space whose
//! backing cannot be written (none that this crate builds) lies outside
//! what the store contracts cover.

use vstd::prelude::*;
use core::sync::atomic::Ordering;
use vm_memory::Bytes;
use vm_memory::GuestAddress;
use vm_memory::GuestMemoryBackend;

verus! {

#[verifier::external_type_specification]
#[verifier::external_body]
#[verifier::reject_recursive_types(R)]
pub struct ExGuestRegionCollection<R>(vm_memory::GuestRegionCollection<R>);

#[verifier::external_type_specification]
#[verifier::external_body]
#[verifier::reject_recursive_types(B)]
pub struct ExGuestRegionMmap<B>(vm_memory::GuestRegionMmap<B>);

#[verifier::external_type_specification]
#[verifier::external_body]
pub struct ExGuestMemoryError(vm_memory::GuestMemoryError);

/// The guest memory space the engine works against.
pub type GuestMem = vm_memory::GuestMemoryMmap<()>;

/// The byte contents of the space, keyed by guest physical address.
pub uninterp spec fn mem_bytes(m: GuestMem) -> Map<int, u8>;

/// Whether the space grants an atomic access of `len` bytes at `addr`: the
/// range lies inside one region and its backing is aligned for that width.
pub uninterp spec fn mem_grants(m: GuestMem, addr: u64, len: u64) -> bool;

/// Memory ordering the engine may request for an atomic load.  The release
/// orderings are absent on purpose: a standard atomic load panics on them,
/// so here they are unrepresentable.
#[derive(Clone, Copy, Debug)]
pub enum LoadOrder {
    /// No ordering beyond atomicity.
    Relaxed,
    /// Pairs with a release store by the other side.
    Acquire,
    /// A single total order with all other sequentially consistent accesses.
    SeqCst,
}

/// Memory ordering the engine may request for an atomic store.  The acquire
/// orderings are absent on purpose: a standard atomic store panics on them,
/// so here they are unrepresentable.
#[derive(Clone, Copy, Debug)]
pub enum StoreOrder {
    /// No ordering beyond atomicity.
    Relaxed,
    /// Makes earlier writes visible to an acquiring reader.
    Release,
    /// A single total order with all other sequentially consistent accesses.
    SeqCst,
}

/// The little-endian 16-bit value spelled by two adjacent bytes.
pub open spec fn u16_at(mm: Map<int, u8>, a: int) -> u16 {
    (mm[a] + 0x100 * mm[a + 1]) as u16
}

/// The little-endian 32-bit value spelled by four adjacent bytes.
pub open spec fn u32_at(mm: Map<int, u8>, a: int) -> u32 {
    (mm[a] + 0x100 * mm[a + 1] + 0x10000 * mm[a + 2] + 0x1000000 * mm[a + 3]) as u32
}

/// The contents after a 16-bit value is stored at `a` in little-endian order.
pub open spec fn store_le16(mm: Map<int, u8>, a: int, v: u16) -> Map<int, u8> {
    mm.insert(a, (v % 0x100) as u8).insert(a + 1, (v / 0x100) as u8)
}

/// The contents after a 32-bit value is stored at `a` in little-endian order.
pub open spec fn store_le32(mm: Map<int, u8>, a: int, v: u32) -> Map<int, u8> {
    mm.insert(a, (v % 0x100) as u8).insert(a + 1, ((v / 0x100) % 0x100) as u8).insert(
        a + 2,
        ((v / 0x10000) % 0x100) as u8,
    ).insert(a + 3, (v / 0x1000000) as u8)
}

/// Storing a 16-bit value and reading the same two bytes back gives the
/// value again: the little-endian codec round-trips.
pub proof fn lemma_store_le16_round_trip(mm: Map<int, u8>, a: int, v: u16)
    ensures
        u16_at(store_le16(mm, a, v), a) == v,
{
}

/// Storing a 32-bit value and reading the same four bytes back gives the
/// value again: the little-endian codec round-trips.
pub proof fn lemma_store_le32_round_trip(mm: Map<int, u8>, a: int, v: u32)
    ensures
        u32_at(store_le32(mm, a, v), a) == v,
{
}

/// Relies on `GuestMemoryBackend::address_in_range`: true exactly when some
/// region of the space contains the address.
#[verifier::external_body]
pub(crate) fn mem_address_in_range(m: &GuestMem, addr: u64) -> (r: bool)
    ensures
        r == mem_grants(*m, addr, 1),
{
    m.address_in_range(GuestAddress(addr))
}

/// Relies on `Bytes::load` at width 16: an atomic load, normalized here to
/// the little-endian reading of the two bytes, that fails exactly when the
/// space grants no such access.  Which value comes back is whatever was in
/// those bytes at that moment; nothing is claimed of it.
#[verifier::external_body]
pub(crate) fn mem_load_u16(m: &GuestMem, addr: u64, order: LoadOrder) -> (r: Result<
    u16,
    vm_memory::GuestMemoryError,
>)
    ensures
        r is Ok <==> mem_grants(*m, addr, 2),
{
    let o = match order {
        LoadOrder::Relaxed => Ordering::Relaxed,
        LoadOrder::Acquire => Ordering::Acquire,
        LoadOrder::SeqCst => Ordering::SeqCst,
    };
    m.load(GuestAddress(addr), o).map(u16::from_le)
}

/// Relies on `Bytes::load` at width 32, as the 16-bit load above.
#[verifier::external_body]
pub(crate) fn mem_load_u32(m: &GuestMem, addr: u64, order: LoadOrder) -> (r: Result<
    u32,
    vm_memory::GuestMemoryError,
>)
    ensures
        r is Ok <==> mem_grants(*m, addr, 4),
{
    let o = match order {
        LoadOrder::Relaxed => Ordering::Relaxed,
        LoadOrder::Acquire => Ordering::Acquire,
        LoadOrder::SeqCst => Ordering::SeqCst,
    };
    m.load(GuestAddress(addr), o).map(u32::from_le)
}

/// Relies on `Bytes::load` at width 64, as the 16-bit load above.
#[verifier::external_body]
pub(crate) fn mem_load_u64(m: &GuestMem, addr: u64, order: LoadOrder) -> (r: Result<
    u64,
    vm_memory::GuestMemoryError,
>)
    ensures
        r is Ok <==> mem_grants(*m, addr, 8),
{
    let o = match order {
        LoadOrder::Relaxed => Ordering::Relaxed,
        LoadOrder::Acquire => Ordering::Acquire,
        LoadOrder::SeqCst => Ordering::SeqCst,
    };
    m.load(GuestAddress(addr), o).map(u64::from_le)
}

/// Relies on `Bytes::store` at width 16: an atomic store of the value's
/// little-endian bytes that changes nothing else, and that fails, changing
/// nothing at all, exactly when the space grants no such access.
#[verifier::external_body]
pub(crate) fn mem_store_u16(m: &mut GuestMem, addr: u64, v: u16, order: StoreOrder) -> (r: Result<
    (),
    vm_memory::GuestMemoryError,
>)
    ensures
        r is Ok <==> mem_grants(*old(m), addr, 2),
        r is Ok ==> mem_bytes(*final(m)) == store_le16(mem_bytes(*old(m)), addr as int, v),
        r is Err ==> mem_bytes(*final(m)) == mem_bytes(*old(m)),
        forall|a: u64, l: u64| mem_grants(*final(m), a, l) == mem_grants(*old(m), a, l),
{
    let o = match order {
        StoreOrder::Relaxed => Ordering::Relaxed,
        StoreOrder::Release => Ordering::Release,
        StoreOrder::SeqCst => Ordering::SeqCst,
    };
    m.store(u16::to_le(v), GuestAddress(addr), o)
}

/// Relies on `Bytes::store` at width 32, as the 16-bit store above.
#[verifier::external_body]
pub(crate) fn mem_store_u32(m: &mut GuestMem, addr: u64, v: u32, order: StoreOrder) -> (r: Result<
    (),
    vm_memory::GuestMemoryError,
>)
    ensures
        r is Ok <==> mem_grants(*old(m), addr, 4),
        r is Ok ==> mem_bytes(*final(m)) == store_le32(mem_bytes(*old(m)), addr as int, v),
        r is Err ==> mem_bytes(*final(m)) == mem_bytes(*old(m)),
        forall|a: u64, l: u64| mem_grants(*final(m), a, l) == mem_grants(*old(m), a, l),
{
    let o = match order {
        StoreOrder::Relaxed => Ordering::Relaxed,
        StoreOrder::Release => Ordering::Release,
        StoreOrder::SeqCst => Ordering::SeqCst,
    };
    m.store(u32::to_le(v), GuestAddress(addr), o)
}

/// Relies on `core::sync::atomic::fence` with sequentially consistent order;
/// nothing is claimed of it beyond returning.
#[verifier::external_body]
pub(crate) fn mem_fence() {
    core::sync::atomic::fence(Ordering::SeqCst);
}

} // verus!
