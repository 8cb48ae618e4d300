//! A growable arena of elements with slot reuse and a permanent sentinel slot.
use vstd::prelude::*;
use crate::handle::{Handle, Index, Tag, ElementStatus, ElementProperties};

verus! {

/// One cell of an element buffer: the element and its bookkeeping record.
#[derive(Clone, Copy, Debug)]
pub struct Slot<E> {
    pub element: E,
    pub props: ElementProperties,
}

/// Whether `h` names a non-sentinel slot of `s` that is active and still has
/// the generation the handle was issued with.
pub open spec fn slot_live<E>(s: Seq<Slot<E>>, h: Handle) -> bool {
    &&& 0 < h.index < s.len()
    &&& s[h.index as int].props.status == ElementStatus::Active
    &&& s[h.index as int].props.generation == h.generation
}

/// What `get` resolves `h` to: the element of a live slot, else the sentinel's.
pub open spec fn resolve<E>(s: Seq<Slot<E>>, h: Handle) -> E
    recommends
        s.len() > 0,
{
    if slot_live(s, h) {
        s[h.index as int].element
    } else {
        s[0].element
    }
}

/// The slots after `h` is removed: a live slot turns inactive, keeping its
/// element, generation and tag; anything else leaves the slots as they were.
pub open spec fn removed<E>(s: Seq<Slot<E>>, h: Handle) -> Seq<Slot<E>> {
    if slot_live(s, h) {
        let old_slot = s[h.index as int];
        s.update(
            h.index as int,
            Slot {
                element: old_slot.element,
                props: ElementProperties { status: ElementStatus::Inactive, ..old_slot.props },
            },
        )
    } else {
        s
    }
}

/// `after` is `before` with `e` stored under the fresh handle `h`: either a
/// formerly inactive slot reused with a larger generation, or a new last slot.
/// Every other slot is untouched.
pub open spec fn added<E>(before: Seq<Slot<E>>, after: Seq<Slot<E>>, e: E, h: Handle) -> bool {
    &&& slot_live(after, h)
    &&& after[h.index as int].element == e
    &&& after[h.index as int].props.tag == 0
    &&& (after.len() == before.len() || after.len() == before.len() + 1)
    &&& h.index < before.len() ==> {
        &&& before[h.index as int].props.status == ElementStatus::Inactive
        &&& before[h.index as int].props.generation < h.generation
        &&& after.len() == before.len()
    }
    &&& h.index >= before.len() ==> h.index == before.len()
    &&& forall|i: int| 0 <= i < before.len() && i != h.index ==> after[i] == before[i]
}

/// `a` and `b` hold the same elements, statuses and generations; only the
/// visitation tags may differ.
pub open spec fn same_up_to_tags<E>(a: Seq<Slot<E>>, b: Seq<Slot<E>>) -> bool {
    &&& a.len() == b.len()
    &&& forall|i: int|
        0 <= i < a.len() ==> {
            &&& (#[trigger] a[i]).element == b[i].element
            &&& a[i].props.status == b[i].props.status
            &&& a[i].props.generation == b[i].props.generation
        }
}

/// Round trip: the element stored under a fresh handle is what that handle
/// resolves to.
pub proof fn lemma_add_then_get<E>(before: Seq<Slot<E>>, after: Seq<Slot<E>>, e: E, h: Handle)
    requires
        added(before, after, e, h),
    ensures
        slot_live(after, h),
        resolve(after, h) == e,
{
}

/// Storing another element leaves what a live handle resolves to unchanged.
pub proof fn lemma_add_keeps<E>(before: Seq<Slot<E>>, after: Seq<Slot<E>>, e: E, fresh: Handle, h: Handle)
    requires
        added(before, after, e, fresh),
        slot_live(before, h),
    ensures
        h != fresh,
        slot_live(after, h),
        resolve(after, h) == resolve(before, h),
{
}

/// Removing another handle leaves what a live handle resolves to unchanged.
pub proof fn lemma_remove_keeps<E>(s: Seq<Slot<E>>, gone: Handle, h: Handle)
    requires
        slot_live(s, h),
        h != gone,
    ensures
        slot_live(removed(s, gone), h),
        resolve(removed(s, gone), h) == resolve(s, h),
{
}

/// Post-removal invalidity: a removed handle is no longer live and resolves
/// to the sentinel's element, which the removal leaves in place.
pub proof fn lemma_remove_invalidates<E>(s: Seq<Slot<E>>, h: Handle)
    requires
        s.len() >= 1,
    ensures
        !slot_live(removed(s, h), h),
        removed(s, h)[0] == s[0],
        resolve(removed(s, h), h) == s[0].element,
{
}

/// `s` with tag `tag` written on slot `i`.
pub open spec fn with_tag<E>(s: Seq<Slot<E>>, i: int, tag: Tag) -> Seq<Slot<E>> {
    s.update(i, Slot { element: s[i].element, props: ElementProperties { tag, ..s[i].props } })
}

/// Generational arena: slot 0 is a sentinel that is never active, removed
/// slots go on a free list and are handed out again with a bumped generation.
pub struct ElementBuffer<E> {
    slots: Vec<Slot<E>>,
    free_cells: Vec<Index>,
}

impl<E> View for ElementBuffer<E> {
    type V = Seq<Slot<E>>;

    closed spec fn view(&self) -> Seq<Slot<E>> {
        self.slots@
    }
}

impl<E> ElementBuffer<E> {
    /// The buffer invariant: a sentinel first slot that is inactive, and a free
    /// list of distinct, inactive, non-sentinel slots.
    pub closed spec fn wf(&self) -> bool {
        &&& self.slots@.len() >= 1
        &&& self.slots@[0].props.status == ElementStatus::Inactive
        &&& forall|k: int|
            0 <= k < self.free_cells@.len() ==> {
                &&& 0 < #[trigger] self.free_cells@[k] < self.slots@.len()
                &&& self.slots@[self.free_cells@[k] as int].props.status
                    == ElementStatus::Inactive
            }
        &&& forall|j: int, k: int|
            0 <= j < self.free_cells@.len() && 0 <= k < self.free_cells@.len() && j != k
                ==> self.free_cells@[j] != self.free_cells@[k]
    }

    /// A buffer holding only the sentinel slot with element `sentinel`.
    pub fn new(sentinel: E) -> (r: Self)
        ensures
            r.wf(),
            r@ == seq![Slot { element: sentinel, props: ElementProperties::inactive_spec() }],
    {
        let mut slots: Vec<Slot<E>> = Vec::new();
        slots.push(Slot { element: sentinel, props: ElementProperties::inactive() });
        let r = ElementBuffer { slots, free_cells: Vec::new() };
        assert(r@ =~= seq![Slot { element: sentinel, props: ElementProperties::inactive_spec() }]);
        r
    }

    /// Number of slots, the sentinel included.
    pub fn len(&self) -> (r: usize)
        ensures
            r == self@.len(),
    {
        self.slots.len()
    }

    /// Whether `h` resolves to a live element of this buffer.
    pub fn is_live(&self, h: Handle) -> (r: bool)
        ensures
            r == slot_live(self@, h),
    {
        h.index > 0 && h.index < self.slots.len() && self.slots[h.index].props.status
            == ElementStatus::Active && self.slots[h.index].props.generation == h.generation
    }

    /// Stores `element` and returns a fresh handle to it, reusing a freed slot
    /// when one can take a larger generation.
    pub fn add(&mut self, element: E) -> (h: Handle)
        requires
            old(self).wf(),
            old(self)@.len() < usize::MAX,
        ensures
            final(self).wf(),
            added(old(self)@, final(self)@, element, h),
    {
        let ghost before = self.slots@;
        if let Some(index) = self.free_cells.pop() {
            let generation = self.slots[index].props.generation;
            if generation < usize::MAX {
                let props = ElementProperties {
                    status: ElementStatus::Active,
                    generation: generation + 1,
                    tag: 0,
                };
                self.slots.set(index, Slot { element, props });
                proof {
                    assert forall|k: int| 0 <= k < self.free_cells@.len() implies {
                        &&& 0 < #[trigger] self.free_cells@[k] < self.slots@.len()
                        &&& self.slots@[self.free_cells@[k] as int].props.status
                            == ElementStatus::Inactive
                    } by {
                        assert(self.free_cells@[k] == old(self).free_cells@[k]);
                        assert(old(self).free_cells@[k] != index);
                    }
                }
                return Handle { index, generation: generation + 1 };
            }
            // The slot's generation is exhausted: it is retired for good.

        }
        let index = self.slots.len();
        self.slots.push(
            Slot {
                element,
                props: ElementProperties { status: ElementStatus::Active, generation: 0, tag: 0 },
            },
        );
        proof {
            assert forall|k: int| 0 <= k < self.free_cells@.len() implies {
                &&& 0 < #[trigger] self.free_cells@[k] < self.slots@.len()
                &&& self.slots@[self.free_cells@[k] as int].props.status
                    == ElementStatus::Inactive
            } by {
                assert(self.free_cells@[k] == old(self).free_cells@[k]);
            }
        }
        Handle { index, generation: 0 }
    }

    /// Marks the slot of a live `h` inactive and queues it for reuse; does
    /// nothing for any other handle.
    pub fn remove(&mut self, h: Handle)
        requires
            old(self).wf(),
        ensures
            final(self).wf(),
            final(self)@ == removed(old(self)@, h),
    {
        if self.is_live(h) {
            self.slots[h.index].props.status = ElementStatus::Inactive;
            self.free_cells.push(h.index);
            proof {
                assert forall|k: int| 0 <= k < self.free_cells@.len() implies {
                    &&& 0 < #[trigger] self.free_cells@[k] < self.slots@.len()
                    &&& self.slots@[self.free_cells@[k] as int].props.status
                        == ElementStatus::Inactive
                } by {
                    if k < old(self).free_cells@.len() {
                        assert(self.free_cells@[k] == old(self).free_cells@[k]);
                    }
                }
                assert forall|j: int, k: int|
                    0 <= j < self.free_cells@.len() && 0 <= k < self.free_cells@.len() && j
                        != k implies self.free_cells@[j] != self.free_cells@[k] by {
                    if j < old(self).free_cells@.len() {
                        assert(old(self).slots@[old(self).free_cells@[j] as int].props.status
                            == ElementStatus::Inactive);
                    }
                    if k < old(self).free_cells@.len() {
                        assert(old(self).slots@[old(self).free_cells@[k] as int].props.status
                            == ElementStatus::Inactive);
                    }
                }
                assert(self.slots@ =~= removed(old(self)@, h));
            }
        }
    }

    /// The element `h` names, or the sentinel's element when `h` is not live.
    pub fn get(&self, h: Handle) -> (r: &E)
        requires
            self.wf(),
        ensures
            *r == resolve(self@, h),
    {
        if self.is_live(h) {
            &self.slots[h.index].element
        } else {
            &self.slots[0].element
        }
    }

    /// Mutable access to the element of a live `h`; `None` for any other handle.
    pub fn get_mut(&mut self, h: Handle) -> (r: Option<&mut E>)
        requires
            old(self).wf(),
        ensures
            final(self).wf(),
            r is None <==> !slot_live(old(self)@, h),
            r is None ==> final(self)@ == old(self)@,
            r matches Some(e) ==> {
                &&& *e == old(self)@[h.index as int].element
                &&& final(self)@ == old(self)@.update(
                    h.index as int,
                    Slot { element: *final(e), props: old(self)@[h.index as int].props },
                )
            },
    {
        if self.is_live(h) {
            Some(&mut self.slots[h.index].element)
        } else {
            None
        }
    }

    /// The visitation tag of slot `index`.
    pub fn tag_of(&self, index: Index) -> (r: Tag)
        requires
            index < self@.len(),
        ensures
            r == self@[index as int].props.tag,
    {
        self.slots[index].props.tag
    }

    /// Writes visitation tag `tag` on slot `index`, leaving all else as it was.
    pub fn set_tag(&mut self, index: Index, tag: Tag)
        requires
            old(self).wf(),
            index < old(self)@.len(),
        ensures
            final(self).wf(),
            final(self)@ == old(self)@.update(
                index as int,
                Slot {
                    element: old(self)@[index as int].element,
                    props: ElementProperties { tag, ..old(self)@[index as int].props },
                },
            ),
    {
        self.slots[index].props.tag = tag;
        proof {
            assert forall|k: int| 0 <= k < self.free_cells@.len() implies {
                &&& 0 < #[trigger] self.free_cells@[k] < self.slots@.len()
                &&& self.slots@[self.free_cells@[k] as int].props.status
                    == ElementStatus::Inactive
            } by {
                assert(old(self).slots@[old(self).free_cells@[k] as int].props.status
                    == ElementStatus::Inactive);
            }
        }
    }

    /// The first live slot at or after `from`, skipping the sentinel.
    pub fn next_live(&self, from: Index) -> (r: Option<Handle>)
        requires
            self.wf(),
        ensures
            r matches Some(h) ==> {
                &&& slot_live(self@, h)
                &&& h.index < usize::MAX
                &&& from <= h.index
                &&& forall|i: int|
                    from <= i < h.index ==> self@[i].props.status != ElementStatus::Active
            },
            r is None ==> forall|i: int|
                from <= i < self@.len() ==> self@[i].props.status != ElementStatus::Active,
    {
        let mut i: usize = from;
        while i < self.slots.len()
            invariant
                self.wf(),
                from <= i,
                forall|j: int| from <= j < i ==> self@[j].props.status != ElementStatus::Active,
            decreases self@.len() - i,
        {
            if self.slots[i].props.status == ElementStatus::Active {
                return Some(Handle { index: i, generation: self.slots[i].props.generation });
            }
            i = i + 1;
        }
        None
    }

    /// Sets every slot's visitation tag back to zero.
    pub fn reset_tags(&mut self)
        requires
            old(self).wf(),
        ensures
            final(self).wf(),
            same_up_to_tags(old(self)@, final(self)@),
            forall|i: int| 0 <= i < final(self)@.len() ==> #[trigger] final(self)@[i].props.tag == 0,
    {
        let mut i: usize = 0;
        while i < self.slots.len()
            invariant
                self.wf(),
                same_up_to_tags(old(self)@, self@),
                forall|j: int| 0 <= j < i ==> #[trigger] self@[j].props.tag == 0,
            decreases self@.len() - i,
        {
            self.set_tag(i, 0);
            i = i + 1;
        }
    }
}

} // verus!
