//! Shared handles to GPU resources.
//!
//! A configuration never creates, dereferences or releases a GPU resource: it
//! only forwards handles between the embedding application and the renderer.
//! A handle therefore carries exactly what the configuration reads of it, the
//! identity of the underlying resource, as a plain number. Whoever actually
//! creates resources assigns each creation a fresh identity, so two handles
//! designate the same underlying resource exactly when their identities are
//! equal; copying a handle shares the resource it designates.
use vstd::prelude::*;

verus! {

/// Shared handle to a GPU instance: a connection to the graphics API from
/// which devices are obtained.
#[derive(Clone, Copy, Debug, PartialEq, Eq, Structural)]
pub struct Instance {
    /// Identity of the underlying instance.
    pub id: u64,
}

/// Shared handle to a GPU device: a logical graphics-processing context used
/// to allocate resources and submit work.
#[derive(Clone, Copy, Debug, PartialEq, Eq, Structural)]
pub struct Device {
    /// Identity of the underlying device.
    pub id: u64,
}

/// Shared handle to a command queue: an ordered submission channel for GPU
/// work associated with a device.
#[derive(Clone, Copy, Debug, PartialEq, Eq, Structural)]
pub struct Queue {
    /// Identity of the underlying queue.
    pub id: u64,
}

} // verus!
