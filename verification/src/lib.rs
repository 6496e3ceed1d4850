//! Device-side engine of a virtio split virtqueue.
//!
//! A guest driver publishes buffer descriptors through three ring structures
//! in guest memory; the device consumes them, writes completions to the used
//! ring, and decides when the driver must be notified.  [`queue::Queue`] owns
//! the device-side state of one such queue and exposes the protocol
//! operations; [`chain::DescriptorChain`] is one consumed request; the
//! [`descriptor`] module holds the descriptor table entry codecs; [`mem`] is
//! the trusted boundary to the guest memory space.

use vstd::prelude::*;

pub mod chain;
pub mod defs;
pub mod descriptor;
pub mod mem;
pub mod queue;

pub use chain::DescriptorChain;
pub use descriptor::Descriptor;
pub use descriptor::PackedDescEvent;
pub use queue::Queue;

verus! {

/// Failure of a queue operation on guest memory.
#[derive(Debug)]
pub enum Error {
    /// An offset into one of the rings did not fit in a 64-bit address.
    AddressOverflow,
    /// A head index at or past the queue size was handed to completion.
    InvalidDescriptorIndex,
    /// The guest memory space rejected a load or store.
    GuestMemory(vm_memory::GuestMemoryError),
}

} // verus!
