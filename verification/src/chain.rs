//! One consumed request: the descriptors reached from a head index by
//! following the split-format `next` linkage, indirect tables included.
//!
//! What a table entry holds is the driver's writing, read at the moment of
//! traversal, so the walker's promises are structural: the chain is bounded
//! by the queue size, carries no indirect marker, and only its last
//! descriptor may lack the `NEXT` bit.  Whether an entry can be read at all
//! is geometry of the memory space, and that part is pinned exactly.

use vstd::prelude::*;
use crate::descriptor::split;
use crate::mem::GuestMem;
use crate::mem::LoadOrder;
use crate::mem::mem_grants;
use crate::mem::mem_load_u16;
use crate::mem::mem_load_u32;
use crate::mem::mem_load_u64;

verus! {

/// The descriptors of one request, in traversal order, with the head index
/// the driver published for it.
#[derive(Clone, Debug)]
pub struct DescriptorChain {
    /// The available ring entry this chain was reached from.
    pub head_index: u16,
    /// The descriptors of the chain, in the order the table links them.
    pub descriptors: Vec<split::Descriptor>,
}

impl DescriptorChain {
    /// Return the head index of the chain.
    pub fn head_index(&self) -> (r: u16)
        ensures
            r == self.head_index,
    {
        self.head_index
    }

    /// Return the descriptors of the chain, in traversal order.
    pub fn descriptors(&self) -> (r: &Vec<split::Descriptor>)
        ensures
            r == self.descriptors,
    {
        &self.descriptors
    }
}

/// The guest address of entry `idx` of a descriptor table at `table`.
pub open spec fn spec_desc_addr(table: u64, idx: u16) -> int {
    table + 16 * idx as int
}

/// Whether all four fields of table entry `idx` can be loaded: the entry
/// lies below the top of the address space and the memory space grants each
/// field's access.
pub open spec fn spec_desc_readable(m: GuestMem, table: u64, idx: u16) -> bool {
    let d = spec_desc_addr(table, idx);
    &&& d + 14 <= u64::MAX
    &&& mem_grants(m, d as u64, 8)
    &&& mem_grants(m, (d + 8) as u64, 4)
    &&& mem_grants(m, (d + 12) as u64, 2)
    &&& mem_grants(m, (d + 14) as u64, 2)
}

/// Load the four fields of table entry `idx` — the little-endian record
/// `{addr: u64, len: u32, flags: u16, next: u16}` — or nothing if any of
/// them is out of reach.
fn read_descriptor(mem: &GuestMem, table: u64, idx: u16) -> (r: Option<split::Descriptor>)
    ensures
        r is Some <==> spec_desc_readable(*mem, table, idx),
{
    let d = match table.checked_add((idx as u64) * 16) {
        Some(a) => a,
        None => {
            return None;
        },
    };
    let a_next = match d.checked_add(14) {
        Some(a) => a,
        None => {
            return None;
        },
    };
    let addr = match mem_load_u64(mem, d, LoadOrder::Relaxed) {
        Ok(v) => v,
        Err(_) => {
            return None;
        },
    };
    let len = match mem_load_u32(mem, d + 8, LoadOrder::Relaxed) {
        Ok(v) => v,
        Err(_) => {
            return None;
        },
    };
    let flags = match mem_load_u16(mem, d + 12, LoadOrder::Relaxed) {
        Ok(v) => v,
        Err(_) => {
            return None;
        },
    };
    let next = match mem_load_u16(mem, a_next, LoadOrder::Relaxed) {
        Ok(v) => v,
        Err(_) => {
            return None;
        },
    };
    Some(split::Descriptor { addr, len, flags, next })
}

/// Gather the chain that starts at entry `head` of the descriptor table,
/// following the `next` linkage and switching once into an indirect table
/// where a descriptor asks for it.
///
/// Traversal stops quietly — yielding what was gathered so far — at an
/// entry at or past the table size, at one whose fields are out of reach,
/// at a nested indirection, at an indirect table with a malformed length,
/// and after a queue size's worth of links, so that no cycle in a corrupted
/// table can keep it going.  Hence the promises: no more descriptors than
/// the queue size, none of them an indirect marker, and every one but the
/// last carrying the `NEXT` bit.
pub(crate) fn walk_chain(mem: &GuestMem, table: u64, queue_size: u16, head: u16) -> (r: Vec<
    split::Descriptor,
>)
    ensures
        r@.len() <= queue_size,
        forall|i: int|
            0 <= i < r@.len() ==> !split::spec_refers_to_indirect_table(#[trigger] r@[i].flags),
        forall|i: int| 0 <= i < r@.len() - 1 ==> split::spec_has_next(#[trigger] r@[i].flags),
{
    let mut descs: Vec<split::Descriptor> = Vec::new();
    let mut tbl: u64 = table;
    let mut tsize: u16 = queue_size;
    let mut idx: u16 = head;
    let mut ttl: u16 = queue_size;
    let mut indirect: bool = false;
    loop
        invariant_except_break
            descs@.len() + ttl <= queue_size,
            forall|i: int|
                0 <= i < descs@.len() ==> !split::spec_refers_to_indirect_table(
                    #[trigger] descs@[i].flags,
                ),
            forall|i: int| 0 <= i < descs@.len() ==> split::spec_has_next(#[trigger] descs@[i].flags),
        ensures
            descs@.len() <= queue_size,
            forall|i: int|
                0 <= i < descs@.len() ==> !split::spec_refers_to_indirect_table(
                    #[trigger] descs@[i].flags,
                ),
            forall|i: int| 0 <= i < descs@.len() - 1 ==> split::spec_has_next(
                #[trigger] descs@[i].flags,
            ),
        decreases ttl, (if indirect {
            0int
        } else {
            1int
        }),
    {
        if ttl == 0 || idx >= tsize {
            break ;
        }
        let desc = match read_descriptor(mem, tbl, idx) {
            Some(d) => d,
            None => {
                break ;
            },
        };
        if desc.refers_to_indirect_table() {
            if indirect || desc.len % 16 != 0 || desc.len / 16 > 0xffff {
                break ;
            }
            tbl = desc.addr;
            tsize = (desc.len / 16) as u16;
            idx = 0;
            indirect = true;
        } else {
            descs.push(desc);
            if desc.has_next() {
                idx = desc.next;
                ttl = ttl - 1;
            } else {
                break ;
            }
        }
    }
    descs
}

} // verus!
