//! Ownership bookkeeping for a binding to a native publish/subscribe
//! middleware: return codes, entity handles, state masks, and the rules by
//! which message buffers and strings of two allocators are released.

use vstd::prelude::*;

pub mod buffer;
pub mod dds_error;
pub mod dds_string;
pub mod exchange;
pub mod state_mask;

pub use dds_error::DDSError;
pub use state_mask::State;
pub use state_mask::StateMask;

verus! {

/// Flag of the native sample-free call: release the key fields.
pub const DDS_FREE_KEY_BIT: u32 = 0x01;

/// Flag of the native sample-free call: release what the sample points to.
pub const DDS_FREE_CONTENTS_BIT: u32 = 0x02;

/// Flag of the native sample-free call: release the sample and all it holds.
pub const DDS_FREE_ALL_BIT: u32 = 0x04;

/// An object of the middleware (participant, topic, reader, writer, ...),
/// known by the integer under which the native registry keeps it.
///
/// The handle is a plain value: copying it copies no ownership, and letting
/// it go deletes nothing.
#[derive(Clone, Copy, Debug, PartialEq, Eq, Structural)]
pub struct DdsEntity(i32);

impl View for DdsEntity {
    type V = i32;

    closed spec fn view(&self) -> i32 {
        self.0
    }
}

impl DdsEntity {
    /// Wraps a native handle. Nothing here can tell whether the registry
    /// still knows `entity`: the caller vouches that a native create call
    /// returned it and that it has not been deleted since.
    pub fn new(entity: i32) -> (handle: Self)
        ensures
            handle@ == entity,
    {
        DdsEntity(entity)
    }

    /// The native handle, for passing to native calls.
    pub fn entity(&self) -> (raw: i32)
        ensures
            raw == self@,
    {
        self.0
    }

    /// Two handles that wrap the same integer are the same handle.
    pub proof fn lemma_view_injective(a: DdsEntity, b: DdsEntity)
        requires
            a@ == b@,
        ensures
            a == b,
    {
    }
}

} // verus!
