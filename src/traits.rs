//! Element access that the mesh offers for each element kind.
use vstd::prelude::*;
use crate::handle::Handle;
use crate::buffer::{Slot, slot_live, resolve, removed, added};

verus! {

/// A container with one buffer of elements of kind `E`.
pub trait ElementStore<E> {
    /// The slots of the buffer of kind `E`.
    spec fn slots_of(&self) -> Seq<Slot<E>>;

    /// The container's invariant.
    spec fn store_wf(&self) -> bool;

    /// `self` and `other` agree on everything but the buffer of kind `E`.
    spec fn same_elsewhere(&self, other: &Self) -> bool;
}

pub trait AddElement<E>: ElementStore<E> {
    /// Stores `element` under a fresh live handle; nothing else changes.
    fn add(&mut self, element: E) -> (h: Handle)
        requires
            old(self).store_wf(),
            old(self).slots_of().len() < usize::MAX,
        ensures
            final(self).store_wf(),
            added(old(self).slots_of(), final(self).slots_of(), element, h),
            old(self).same_elsewhere(final(self)),
    ;
}

pub trait RemoveElement<E>: ElementStore<E> {
    /// Turns the slot of a live `handle` inactive; any other handle is a no-op.
    fn remove(&mut self, handle: Handle)
        requires
            old(self).store_wf(),
        ensures
            final(self).store_wf(),
            final(self).slots_of() == removed(old(self).slots_of(), handle),
            old(self).same_elsewhere(final(self)),
    ;
}

pub trait GetElement<E>: ElementStore<E> {
    /// The element `handle` names, or the sentinel element when it is not live.
    fn get(&self, handle: Handle) -> (r: &E)
        requires
            self.store_wf(),
        ensures
            *r == resolve(self.slots_of(), handle),
    ;
}

pub trait GetElementMut<E>: ElementStore<E> {
    /// Mutable access to a live element; `None` when `handle` is not live.
    fn get_mut(&mut self, handle: Handle) -> (r: Option<&mut E>)
        requires
            old(self).store_wf(),
        ensures
            final(self).store_wf(),
            old(self).same_elsewhere(final(self)),
            r is None <==> !slot_live(old(self).slots_of(), handle),
            r is None ==> final(self).slots_of() == old(self).slots_of(),
            r matches Some(e) ==> {
                &&& *e == old(self).slots_of()[handle.index as int].element
                &&& final(self).slots_of() == old(self).slots_of().update(
                    handle.index as int,
                    Slot { element: *final(e), props: old(self).slots_of()[handle.index as int].props },
                )
            },
    ;
}

/// Builders that assemble a face from `A`, such as three vertex handles, and
/// return the new face's handle.
pub trait MakeFace<A> {
    fn make_face(&mut self, args: A) -> Handle;
}

} // verus!
