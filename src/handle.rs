//! Handles into element buffers and the per-slot bookkeeping record.
use vstd::prelude::*;

verus! {

/// Position of a slot inside an element buffer.
pub type Index = usize;

/// Reuse counter of a slot, bumped each time a freed slot is handed out again.
pub type Generation = usize;

/// Visitation mark written by traversals.
pub type Tag = usize;

/// A typed-by-convention reference into one element buffer: a slot index and
/// the generation the slot had when the handle was issued.
///
/// Index 0 names the sentinel slot, so `Handle::default()` is never live.
#[derive(Clone, Copy, Debug, PartialEq, Eq, Structural, Hash)]
pub struct Handle {
    pub index: Index,
    pub generation: Generation,
}

/// Handle to a vertex.
pub type VertexIndex = Handle;

/// Handle to a half-edge.
pub type EdgeIndex = Handle;

/// Handle to a face.
pub type FaceIndex = Handle;

/// Handle to a point.
pub type PointIndex = Handle;

impl Handle {
    /// The handle naming the sentinel slot.
    pub open spec fn sentinel() -> Handle {
        Handle { index: 0, generation: 0 }
    }

    pub fn new(index: Index, generation: Generation) -> (r: Handle)
        ensures
            r.index == index,
            r.generation == generation,
    {
        Handle { index, generation }
    }

    /// The handle naming the sentinel slot; it never resolves to a live element.
    pub fn invalid() -> (r: Handle)
        ensures
            r == Handle::sentinel(),
    {
        Handle { index: 0, generation: 0 }
    }
}

impl Default for Handle {
    fn default() -> (r: Handle)
        ensures
            r == Handle::sentinel(),
    {
        Handle::invalid()
    }
}

/// Whether a value refers to something usable.
pub trait IsValid {
    spec fn valid_spec(&self) -> bool;

    fn is_valid(&self) -> (r: bool)
        ensures
            r == self.valid_spec(),
    ;
}

impl IsValid for Handle {
    /// A handle on its own is valid when it does not name the sentinel slot;
    /// whether the slot is live is a question for the buffer that owns it.
    open spec fn valid_spec(&self) -> bool {
        self.index != 0
    }

    fn is_valid(&self) -> (r: bool) {
        self.index != 0
    }
}

/// Whether a slot currently holds an element.
#[derive(Clone, Copy, Debug, PartialEq, Eq, Structural)]
pub enum ElementStatus {
    Active,
    Inactive,
}

/// Bookkeeping kept beside every element: its status, the generation of its
/// slot and the last visitation tag written on it.
#[derive(Clone, Copy, Debug, PartialEq, Eq, Structural)]
pub struct ElementProperties {
    pub status: ElementStatus,
    pub generation: Generation,
    pub tag: Tag,
}

impl ElementProperties {
    pub open spec fn inactive_spec() -> ElementProperties {
        ElementProperties { status: ElementStatus::Inactive, generation: 0, tag: 0 }
    }

    /// The record of a slot that holds nothing yet.
    pub fn inactive() -> (r: ElementProperties)
        ensures
            r == ElementProperties::inactive_spec(),
    {
        ElementProperties { status: ElementStatus::Inactive, generation: 0, tag: 0 }
    }
}

impl Default for ElementProperties {
    fn default() -> (r: ElementProperties)
        ensures
            r == ElementProperties::inactive_spec(),
    {
        ElementProperties::inactive()
    }
}

/// Element kinds that can build handles to their own slots.
pub trait Storable {
    fn make_handle(index: Index, generation: Generation) -> (h: Handle)
        ensures
            h.index == index,
            h.generation == generation,
    ;
}

} // verus!
