//! The mesh: four element buffers and the source of visitation tags.
use vstd::prelude::*;
use crate::handle::{Handle, Tag, EdgeIndex, FaceIndex, VertexIndex, PointIndex, ElementStatus, ElementProperties};
use crate::buffer::{Slot, ElementBuffer, slot_live, resolve, same_up_to_tags};
use crate::elements::{Point, Vertex, Edge, Face};
use crate::traits::{ElementStore, AddElement, RemoveElement, GetElement, GetElementMut};

verus! {

/// Storage of a mesh: one buffer per element kind.
pub struct Kernel {
    edge_buffer: ElementBuffer<Edge>,
    face_buffer: ElementBuffer<Face>,
    vertex_buffer: ElementBuffer<Vertex>,
    point_buffer: ElementBuffer<Point>,
}

/// A half-edge mesh. Connectivity is expressed by handles between elements;
/// traversals mark the half-edges they pass with a tag drawn from `tag`.
pub struct Mesh {
    kernel: Kernel,
    tag: Tag,
}

/// A buffer that holds its sentinel, inactive and with the default element, in slot 0.
pub open spec fn sentinel_first<E>(s: Seq<Slot<E>>, sentinel: E) -> bool {
    &&& s.len() >= 1
    &&& s[0].element == sentinel
    &&& s[0].props.status == ElementStatus::Inactive
}

/// The edge buffers of `a` and `b` agree up to tags, and all else is equal.
pub open spec fn same_but_edge_tags(a: &Mesh, b: &Mesh) -> bool {
    &&& same_up_to_tags(a.edge_slots(), b.edge_slots())
    &&& a.face_slots() == b.face_slots()
    &&& a.vertex_slots() == b.vertex_slots()
    &&& a.point_slots() == b.point_slots()
}

impl Mesh {
    pub closed spec fn edge_slots(&self) -> Seq<Slot<Edge>> {
        self.kernel.edge_buffer@
    }

    pub closed spec fn face_slots(&self) -> Seq<Slot<Face>> {
        self.kernel.face_buffer@
    }

    pub closed spec fn vertex_slots(&self) -> Seq<Slot<Vertex>> {
        self.kernel.vertex_buffer@
    }

    pub closed spec fn point_slots(&self) -> Seq<Slot<Point>> {
        self.kernel.point_buffer@
    }

    /// The next tag a traversal will be given.
    pub closed spec fn tag_counter(&self) -> Tag {
        self.tag
    }

    pub closed spec fn buffers_wf(&self) -> bool {
        &&& self.kernel.edge_buffer.wf()
        &&& self.kernel.face_buffer.wf()
        &&& self.kernel.vertex_buffer.wf()
        &&& self.kernel.point_buffer.wf()
    }

    /// The mesh invariant: well-formed buffers, each with its sentinel first,
    /// and no half-edge carrying a tag that has not been handed out yet.
    pub open spec fn wf(&self) -> bool {
        &&& self.buffers_wf()
        &&& sentinel_first(self.edge_slots(), Edge::default_spec())
        &&& sentinel_first(self.face_slots(), Face::default_spec())
        &&& sentinel_first(self.vertex_slots(), Vertex::default_spec())
        &&& sentinel_first(self.point_slots(), Point::default_spec())
        &&& 1 <= self.tag_counter()
        &&& forall|i: int|
            0 <= i < self.edge_slots().len() ==> #[trigger] self.edge_slots()[i].props.tag
                < self.tag_counter()
    }

    pub open spec fn edge_live(&self, h: EdgeIndex) -> bool {
        slot_live(self.edge_slots(), h)
    }

    pub open spec fn face_live(&self, h: FaceIndex) -> bool {
        slot_live(self.face_slots(), h)
    }

    pub open spec fn vertex_live(&self, h: VertexIndex) -> bool {
        slot_live(self.vertex_slots(), h)
    }

    pub open spec fn point_live(&self, h: PointIndex) -> bool {
        slot_live(self.point_slots(), h)
    }

    /// The half-edge `h` resolves to (the sentinel's when `h` is not live).
    pub open spec fn edge_at(&self, h: EdgeIndex) -> Edge {
        resolve(self.edge_slots(), h)
    }

    pub open spec fn face_at(&self, h: FaceIndex) -> Face {
        resolve(self.face_slots(), h)
    }

    pub open spec fn vertex_at(&self, h: VertexIndex) -> Vertex {
        resolve(self.vertex_slots(), h)
    }

    pub open spec fn point_at(&self, h: PointIndex) -> Point {
        resolve(self.point_slots(), h)
    }

    /// The half-edge after `e` in its face loop.
    pub open spec fn next_of(&self, e: EdgeIndex) -> EdgeIndex {
        self.edge_at(e).next_index
    }

    /// The half-edge before `e` in its face loop.
    pub open spec fn prev_of(&self, e: EdgeIndex) -> EdgeIndex {
        self.edge_at(e).prev_index
    }

    /// The opposite half-edge of `e`.
    pub open spec fn twin_of(&self, e: EdgeIndex) -> EdgeIndex {
        self.edge_at(e).twin_index
    }

    /// The vertex `e` leaves from.
    pub open spec fn origin_of(&self, e: EdgeIndex) -> VertexIndex {
        self.edge_at(e).vertex_index
    }

    /// The face `e` bounds (the sentinel for a boundary half-edge).
    pub open spec fn face_of(&self, e: EdgeIndex) -> FaceIndex {
        self.edge_at(e).face_index
    }

    /// A live face whose root half-edge is live.
    pub open spec fn face_valid(&self, f: FaceIndex) -> bool {
        self.face_live(f) && self.edge_live(self.face_at(f).edge_index)
    }

    /// A live vertex whose outgoing half-edge is live.
    pub open spec fn vertex_valid(&self, v: VertexIndex) -> bool {
        self.vertex_live(v) && self.edge_live(self.vertex_at(v).edge_index)
    }

    /// A live half-edge whose twin and origin are live.
    pub open spec fn edge_valid(&self, e: EdgeIndex) -> bool {
        &&& self.edge_live(e)
        &&& self.edge_live(self.twin_of(e))
        &&& self.vertex_live(self.origin_of(e))
    }

    /// `e` lies on the boundary: its face or its twin's face is not valid.
    pub open spec fn is_boundary_spec(&self, e: EdgeIndex) -> bool {
        !self.face_valid(self.face_of(e)) || !self.face_valid(self.face_of(self.twin_of(e)))
    }

    /// Navigating from a handle that is not live lands on the sentinel handle.
    pub proof fn lemma_invalid_propagates(&self, e: EdgeIndex)
        requires
            self.wf(),
            !self.edge_live(e),
        ensures
            self.next_of(e) == Handle::sentinel(),
            self.prev_of(e) == Handle::sentinel(),
            self.twin_of(e) == Handle::sentinel(),
            self.origin_of(e) == Handle::sentinel(),
            self.face_of(e) == Handle::sentinel(),
            !self.edge_live(Handle::sentinel()),
            !self.face_live(Handle::sentinel()),
            !self.vertex_live(Handle::sentinel()),
    {
    }

    /// Meshes that differ only in half-edge tags navigate alike.
    pub proof fn lemma_same_navigation(&self, other: &Mesh, e: EdgeIndex)
        requires
            self.wf(),
            same_but_edge_tags(self, other),
        ensures
            self.edge_live(e) == other.edge_live(e),
            self.edge_at(e) == other.edge_at(e),
            self.edge_live(self.twin_of(e)) == other.edge_live(self.twin_of(e)),
            self.edge_live(self.prev_of(e)) == other.edge_live(self.prev_of(e)),
            self.is_boundary_spec(e) == other.is_boundary_spec(e),
            self.vertex_at(self.origin_of(e)) == other.vertex_at(self.origin_of(e)),
            forall|h: EdgeIndex| #[trigger] self.edge_live(h) == other.edge_live(h),
            forall|h: EdgeIndex| #[trigger] self.edge_at(h) == other.edge_at(h),
            forall|h: EdgeIndex| #[trigger] self.is_boundary_spec(h) == other.is_boundary_spec(h),
    {
        let a = self.edge_slots();
        let b = other.edge_slots();
        assert forall|h: EdgeIndex| #[trigger] slot_live(a, h) == slot_live(b, h)
            && resolve(a, h) == resolve(b, h) by {
            if 0 <= h.index < a.len() {
                assert(a[h.index as int].element == b[h.index as int].element);
            }
            assert(a[0].element == b[0].element);
        }
    }

    /// Every live half-edge has a live twin whose twin is the half-edge itself.
    pub open spec fn twins_paired(&self) -> bool {
        forall|e: EdgeIndex|
            #[trigger] self.edge_live(e) ==> self.edge_live(self.twin_of(e)) && self.twin_of(
                self.twin_of(e),
            ) == e
    }

    /// Twin involution: in a mesh whose twins are paired, `twin(twin(e))` is `e`
    /// for every live half-edge `e`.
    pub proof fn lemma_twin_involution(&self, e: EdgeIndex)
        requires
            self.twins_paired(),
            self.edge_live(e),
        ensures
            self.edge_live(self.twin_of(e)),
            self.twin_of(self.twin_of(e)) == e,
    {
    }

    /// Sentinel: in a well-formed mesh slot 0 of every buffer is inactive, so
    /// no handle into slot 0, the default handle included, is live.
    pub proof fn lemma_sentinel_never_live(&self, h: Handle)
        requires
            self.wf(),
            h.index == 0,
        ensures
            self.edge_slots()[0].props.status == ElementStatus::Inactive,
            self.face_slots()[0].props.status == ElementStatus::Inactive,
            self.vertex_slots()[0].props.status == ElementStatus::Inactive,
            self.point_slots()[0].props.status == ElementStatus::Inactive,
            !self.edge_live(h),
            !self.face_live(h),
            !self.vertex_live(h),
            !self.point_live(h),
    {
    }

    /// An empty mesh: every buffer holds only its sentinel.
    pub fn new() -> (r: Mesh)
        ensures
            r.wf(),
            r.edge_slots().len() == 1,
            r.face_slots().len() == 1,
            r.vertex_slots().len() == 1,
            r.point_slots().len() == 1,
    {
        let r = Mesh {
            kernel: Kernel {
                edge_buffer: ElementBuffer::new(Edge::default()),
                face_buffer: ElementBuffer::new(Face::default()),
                vertex_buffer: ElementBuffer::new(Vertex::default()),
                point_buffer: ElementBuffer::new(Point::default()),
            },
            tag: 1,
        };
        r
    }

    /// Hands out a tag that no half-edge carries yet. When the counter is
    /// exhausted every half-edge tag is cleared and counting starts over.
    pub fn next_tag(&mut self) -> (t: Tag)
        requires
            old(self).wf(),
        ensures
            final(self).wf(),
            same_but_edge_tags(old(self), final(self)),
            t < final(self).tag_counter(),
            1 <= t,
            old(self).tag_counter() < usize::MAX ==> t == old(self).tag_counter()
                && final(self).tag_counter() == t + 1,
            forall|i: int|
                0 <= i < final(self).edge_slots().len()
                    ==> #[trigger] final(self).edge_slots()[i].props.tag < t,
    {
        if self.tag == usize::MAX {
            self.kernel.edge_buffer.reset_tags();
            self.tag = 1;
        }
        let t = self.tag;
        self.tag = self.tag + 1;
        t
    }
}

/// The edge slots after `prev` is linked to `next`: `prev`'s next becomes
/// `next`, then `next`'s prev becomes `prev`.
pub open spec fn connected(s: Seq<Slot<Edge>>, prev: EdgeIndex, next: EdgeIndex) -> Seq<Slot<Edge>> {
    let p = s[prev.index as int];
    let s1 = s.update(
        prev.index as int,
        Slot { element: Edge { next_index: next, ..p.element }, props: p.props },
    );
    let n = s1[next.index as int];
    s1.update(
        next.index as int,
        Slot { element: Edge { prev_index: prev, ..n.element }, props: n.props },
    )
}

/// Linking half-edges into a loop keeps twins paired: it rewrites only
/// `next` and `prev`.
pub proof fn lemma_connect_keeps_twins(a: &Mesh, b: &Mesh, prev: EdgeIndex, next: EdgeIndex)
    requires
        a.wf(),
        a.edge_live(prev),
        a.edge_live(next),
        b.edge_slots() == connected(a.edge_slots(), prev, next),
        a.twins_paired(),
    ensures
        b.twins_paired(),
{
    let s = a.edge_slots();
    let t = b.edge_slots();
    assert forall|h: EdgeIndex| #[trigger] b.edge_live(h) == a.edge_live(h) && b.twin_of(h) == a.twin_of(h) by {
        assert(t.len() == s.len());
        if 0 <= h.index < s.len() {
            assert(t[h.index as int].props == s[h.index as int].props);
            assert(t[h.index as int].element.twin_index == s[h.index as int].element.twin_index);
        }
        assert(t[0].element.twin_index == s[0].element.twin_index);
    }
    assert forall|e: EdgeIndex| #[trigger] b.edge_live(e) implies b.edge_live(b.twin_of(e)) && b.twin_of(b.twin_of(e)) == e by {
        assert(a.edge_live(e));
        assert(b.edge_live(a.twin_of(e)) == a.edge_live(a.twin_of(e)));
        assert(b.twin_of(a.twin_of(e)) == a.twin_of(a.twin_of(e)));
    }
}

impl Mesh {
    /// Links `prev` to `next` as neighbours in a face loop.
    pub fn connect_edges(&mut self, prev: EdgeIndex, next: EdgeIndex)
        requires
            old(self).wf(),
            old(self).edge_live(prev),
            old(self).edge_live(next),
        ensures
            final(self).wf(),
            final(self).edge_slots() == connected(old(self).edge_slots(), prev, next),
            final(self).face_slots() == old(self).face_slots(),
            final(self).vertex_slots() == old(self).vertex_slots(),
            final(self).point_slots() == old(self).point_slots(),
            final(self).tag_counter() == old(self).tag_counter(),
    {
        if let Some(e) = self.kernel.edge_buffer.get_mut(prev) {
            e.next_index = next;
        }
        if let Some(e) = self.kernel.edge_buffer.get_mut(next) {
            e.prev_index = prev;
        }
        proof {
            assert(self.edge_slots() =~= connected(old(self).edge_slots(), prev, next));
        }
    }

    /// The face `index` names, or the sentinel face.
    pub fn face(&self, index: FaceIndex) -> (r: &Face)
        requires
            self.wf(),
        ensures
            *r == self.face_at(index),
    {
        self.kernel.face_buffer.get(index)
    }

    /// The half-edge `index` names, or the sentinel half-edge.
    pub fn edge(&self, index: EdgeIndex) -> (r: &Edge)
        requires
            self.wf(),
        ensures
            *r == self.edge_at(index),
    {
        self.kernel.edge_buffer.get(index)
    }

    /// The vertex `index` names, or the sentinel vertex.
    pub fn vertex(&self, index: VertexIndex) -> (r: &Vertex)
        requires
            self.wf(),
        ensures
            *r == self.vertex_at(index),
    {
        self.kernel.vertex_buffer.get(index)
    }

    /// The point `index` names, or the sentinel point.
    pub fn point(&self, index: PointIndex) -> (r: &Point)
        requires
            self.wf(),
        ensures
            *r == self.point_at(index),
    {
        self.kernel.point_buffer.get(index)
    }

    /// Mutable access to a live face; `None` otherwise.
    pub fn face_mut(&mut self, index: FaceIndex) -> (r: Option<&mut Face>)
        requires
            old(self).wf(),
        ensures
            final(self).wf(),
            final(self).point_slots() == old(self).point_slots(),
            final(self).tag_counter() == old(self).tag_counter(),
            final(self).edge_slots() == old(self).edge_slots(),
            final(self).vertex_slots() == old(self).vertex_slots(),
            r is None <==> !old(self).face_live(index),
            r is None ==> final(self).face_slots() == old(self).face_slots(),
            r matches Some(f) ==> {
                &&& *f == old(self).face_at(index)
                &&& final(self).face_slots() == old(self).face_slots().update(
                    index.index as int,
                    Slot { element: *final(f), props: old(self).face_slots()[index.index as int].props },
                )
            },
    {
        self.kernel.face_buffer.get_mut(index)
    }

    /// Mutable access to a live half-edge; `None` otherwise.
    pub fn edge_mut(&mut self, index: EdgeIndex) -> (r: Option<&mut Edge>)
        requires
            old(self).wf(),
        ensures
            final(self).wf(),
            final(self).point_slots() == old(self).point_slots(),
            final(self).tag_counter() == old(self).tag_counter(),
            final(self).face_slots() == old(self).face_slots(),
            final(self).vertex_slots() == old(self).vertex_slots(),
            r is None <==> !old(self).edge_live(index),
            r is None ==> final(self).edge_slots() == old(self).edge_slots(),
            r matches Some(e) ==> {
                &&& *e == old(self).edge_at(index)
                &&& final(self).edge_slots() == old(self).edge_slots().update(
                    index.index as int,
                    Slot { element: *final(e), props: old(self).edge_slots()[index.index as int].props },
                )
            },
    {
        self.kernel.edge_buffer.get_mut(index)
    }

    /// Mutable access to a live vertex; `None` otherwise.
    pub fn vertex_mut(&mut self, index: VertexIndex) -> (r: Option<&mut Vertex>)
        requires
            old(self).wf(),
        ensures
            final(self).wf(),
            final(self).point_slots() == old(self).point_slots(),
            final(self).tag_counter() == old(self).tag_counter(),
            final(self).edge_slots() == old(self).edge_slots(),
            final(self).face_slots() == old(self).face_slots(),
            r is None <==> !old(self).vertex_live(index),
            r is None ==> final(self).vertex_slots() == old(self).vertex_slots(),
            r matches Some(v) ==> {
                &&& *v == old(self).vertex_at(index)
                &&& final(self).vertex_slots() == old(self).vertex_slots().update(
                    index.index as int,
                    Slot { element: *final(v), props: old(self).vertex_slots()[index.index as int].props },
                )
            },
    {
        self.kernel.vertex_buffer.get_mut(index)
    }

    /// Whether `index` names a live half-edge.
    pub fn is_edge_live(&self, index: EdgeIndex) -> (r: bool)
        ensures
            r == self.edge_live(index),
    {
        self.kernel.edge_buffer.is_live(index)
    }

    /// Whether `index` names a live face.
    pub fn is_face_live(&self, index: FaceIndex) -> (r: bool)
        ensures
            r == self.face_live(index),
    {
        self.kernel.face_buffer.is_live(index)
    }

    /// Whether `index` names a live vertex.
    pub fn is_vertex_live(&self, index: VertexIndex) -> (r: bool)
        ensures
            r == self.vertex_live(index),
    {
        self.kernel.vertex_buffer.is_live(index)
    }

    /// Slots handed out for faces, removed ones included, sentinel excluded.
    pub fn face_count(&self) -> (r: usize)
        requires
            self.wf(),
        ensures
            r == self.face_slots().len() - 1,
    {
        self.kernel.face_buffer.len() - 1
    }

    /// Slots handed out for half-edges, removed ones included, sentinel excluded.
    pub fn edge_count(&self) -> (r: usize)
        requires
            self.wf(),
        ensures
            r == self.edge_slots().len() - 1,
    {
        self.kernel.edge_buffer.len() - 1
    }

    /// Slots handed out for vertices, removed ones included, sentinel excluded.
    pub fn vertex_count(&self) -> (r: usize)
        requires
            self.wf(),
        ensures
            r == self.vertex_slots().len() - 1,
    {
        self.kernel.vertex_buffer.len() - 1
    }

    /// Slots handed out for points, removed ones included, sentinel excluded.
    pub fn point_count(&self) -> (r: usize)
        requires
            self.wf(),
        ensures
            r == self.point_slots().len() - 1,
    {
        self.kernel.point_buffer.len() - 1
    }

    /// Same as `face_count`.
    pub fn num_faces(&self) -> (r: usize)
        requires
            self.wf(),
        ensures
            r == self.face_slots().len() - 1,
    {
        self.face_count()
    }

    /// Same as `edge_count`.
    pub fn num_edges(&self) -> (r: usize)
        requires
            self.wf(),
        ensures
            r == self.edge_slots().len() - 1,
    {
        self.edge_count()
    }

    /// Same as `vertex_count`.
    pub fn num_vertices(&self) -> (r: usize)
        requires
            self.wf(),
        ensures
            r == self.vertex_slots().len() - 1,
    {
        self.vertex_count()
    }

    /// Whether `eindex` lies on the boundary: its face or its twin's face is
    /// not valid.
    pub fn is_boundary_edge(&self, eindex: EdgeIndex) -> (r: bool)
        requires
            self.wf(),
        ensures
            r == self.is_boundary_spec(eindex),
    {
        let twin = self.edge(eindex).twin_index;
        !self.is_face_valid(self.edge(eindex).face_index) || !self.is_face_valid(
            self.edge(twin).face_index,
        )
    }

    /// The visitation tag on half-edge slot `index`.
    pub fn edge_tag(&self, index: usize) -> (r: Tag)
        requires
            index < self.edge_slots().len(),
        ensures
            r == self.edge_slots()[index as int].props.tag,
    {
        self.kernel.edge_buffer.tag_of(index)
    }

    /// Writes tag `tag`, one already handed out, on half-edge slot `index`.
    pub fn stamp_edge(&mut self, index: usize, tag: Tag)
        requires
            old(self).wf(),
            index < old(self).edge_slots().len(),
            tag < old(self).tag_counter(),
        ensures
            final(self).wf(),
            same_but_edge_tags(old(self), final(self)),
            final(self).tag_counter() == old(self).tag_counter(),
            final(self).edge_slots() == old(self).edge_slots().update(
                index as int,
                Slot {
                    element: old(self).edge_slots()[index as int].element,
                    props: ElementProperties { tag, ..old(self).edge_slots()[index as int].props },
                },
            ),
    {
        self.kernel.edge_buffer.set_tag(index, tag);
    }

    /// The first live edge at or after slot `from`.
    pub fn next_live_edge(&self, from: usize) -> (r: Option<Handle>)
        requires
            self.wf(),
        ensures
            r matches Some(h) ==> {
                &&& self.edge_live(h)
                &&& h.index < usize::MAX
                &&& from <= h.index
                &&& forall|i: int|
                    from <= i < h.index ==> self.edge_slots()[i].props.status != ElementStatus::Active
            },
            r is None ==> forall|i: int|
                from <= i < self.edge_slots().len() ==> self.edge_slots()[i].props.status
                    != ElementStatus::Active,
    {
        self.kernel.edge_buffer.next_live(from)
    }

    /// The first live face at or after slot `from`.
    pub fn next_live_face(&self, from: usize) -> (r: Option<Handle>)
        requires
            self.wf(),
        ensures
            r matches Some(h) ==> {
                &&& self.face_live(h)
                &&& h.index < usize::MAX
                &&& from <= h.index
                &&& forall|i: int|
                    from <= i < h.index ==> self.face_slots()[i].props.status != ElementStatus::Active
            },
            r is None ==> forall|i: int|
                from <= i < self.face_slots().len() ==> self.face_slots()[i].props.status
                    != ElementStatus::Active,
    {
        self.kernel.face_buffer.next_live(from)
    }

    /// The first live vertex at or after slot `from`.
    pub fn next_live_vertex(&self, from: usize) -> (r: Option<Handle>)
        requires
            self.wf(),
        ensures
            r matches Some(h) ==> {
                &&& self.vertex_live(h)
                &&& h.index < usize::MAX
                &&& from <= h.index
                &&& forall|i: int|
                    from <= i < h.index ==> self.vertex_slots()[i].props.status != ElementStatus::Active
            },
            r is None ==> forall|i: int|
                from <= i < self.vertex_slots().len() ==> self.vertex_slots()[i].props.status
                    != ElementStatus::Active,
    {
        self.kernel.vertex_buffer.next_live(from)
    }

    /// The first live point at or after slot `from`.
    pub fn next_live_point(&self, from: usize) -> (r: Option<Handle>)
        requires
            self.wf(),
        ensures
            r matches Some(h) ==> {
                &&& self.point_live(h)
                &&& h.index < usize::MAX
                &&& from <= h.index
                &&& forall|i: int|
                    from <= i < h.index ==> self.point_slots()[i].props.status != ElementStatus::Active
            },
            r is None ==> forall|i: int|
                from <= i < self.point_slots().len() ==> self.point_slots()[i].props.status
                    != ElementStatus::Active,
    {
        self.kernel.point_buffer.next_live(from)
    }

    /// Whether `f` is a live face with a live root half-edge.
    pub fn is_face_valid(&self, f: FaceIndex) -> (r: bool)
        requires
            self.wf(),
        ensures
            r == self.face_valid(f),
    {
        self.is_face_live(f) && self.is_edge_live(self.face(f).edge_index)
    }

    /// Whether `v` is a live vertex with a live outgoing half-edge.
    pub fn is_vertex_valid(&self, v: VertexIndex) -> (r: bool)
        requires
            self.wf(),
        ensures
            r == self.vertex_valid(v),
    {
        self.is_vertex_live(v) && self.is_edge_live(self.vertex(v).edge_index)
    }

    /// Whether `e` is a live half-edge with a live twin and a live origin.
    pub fn is_edge_valid(&self, e: EdgeIndex) -> (r: bool)
        requires
            self.wf(),
        ensures
            r == self.edge_valid(e),
    {
        let element = self.edge(e);
        self.is_edge_live(e) && self.is_edge_live(element.twin_index) && self.is_vertex_live(
            element.vertex_index,
        )
    }
}

impl ElementStore<Edge> for Mesh {
    open spec fn slots_of(&self) -> Seq<Slot<Edge>> {
        self.edge_slots()
    }

    open spec fn store_wf(&self) -> bool {
        self.wf()
    }

    open spec fn same_elsewhere(&self, other: &Self) -> bool {
        &&& self.face_slots() == other.face_slots()
        &&& self.vertex_slots() == other.vertex_slots()
        &&& self.point_slots() == other.point_slots()
        &&& self.tag_counter() == other.tag_counter()
    }
}

impl AddElement<Edge> for Mesh {
    fn add(&mut self, element: Edge) -> (h: Handle) {
        self.kernel.edge_buffer.add(element)
    }
}

impl RemoveElement<Edge> for Mesh {
    fn remove(&mut self, handle: Handle) {
        self.kernel.edge_buffer.remove(handle)
    }
}

impl GetElement<Edge> for Mesh {
    fn get(&self, handle: Handle) -> (r: &Edge) {
        self.kernel.edge_buffer.get(handle)
    }
}

impl GetElementMut<Edge> for Mesh {
    fn get_mut(&mut self, handle: Handle) -> (r: Option<&mut Edge>) {
        self.kernel.edge_buffer.get_mut(handle)
    }
}

impl ElementStore<Face> for Mesh {
    open spec fn slots_of(&self) -> Seq<Slot<Face>> {
        self.face_slots()
    }

    open spec fn store_wf(&self) -> bool {
        self.wf()
    }

    open spec fn same_elsewhere(&self, other: &Self) -> bool {
        &&& self.edge_slots() == other.edge_slots()
        &&& self.vertex_slots() == other.vertex_slots()
        &&& self.point_slots() == other.point_slots()
        &&& self.tag_counter() == other.tag_counter()
    }
}

impl AddElement<Face> for Mesh {
    fn add(&mut self, element: Face) -> (h: Handle) {
        self.kernel.face_buffer.add(element)
    }
}

impl RemoveElement<Face> for Mesh {
    fn remove(&mut self, handle: Handle) {
        self.kernel.face_buffer.remove(handle)
    }
}

impl GetElement<Face> for Mesh {
    fn get(&self, handle: Handle) -> (r: &Face) {
        self.kernel.face_buffer.get(handle)
    }
}

impl GetElementMut<Face> for Mesh {
    fn get_mut(&mut self, handle: Handle) -> (r: Option<&mut Face>) {
        self.kernel.face_buffer.get_mut(handle)
    }
}

impl ElementStore<Vertex> for Mesh {
    open spec fn slots_of(&self) -> Seq<Slot<Vertex>> {
        self.vertex_slots()
    }

    open spec fn store_wf(&self) -> bool {
        self.wf()
    }

    open spec fn same_elsewhere(&self, other: &Self) -> bool {
        &&& self.edge_slots() == other.edge_slots()
        &&& self.face_slots() == other.face_slots()
        &&& self.point_slots() == other.point_slots()
        &&& self.tag_counter() == other.tag_counter()
    }
}

impl AddElement<Vertex> for Mesh {
    fn add(&mut self, element: Vertex) -> (h: Handle) {
        self.kernel.vertex_buffer.add(element)
    }
}

impl RemoveElement<Vertex> for Mesh {
    fn remove(&mut self, handle: Handle) {
        self.kernel.vertex_buffer.remove(handle)
    }
}

impl GetElement<Vertex> for Mesh {
    fn get(&self, handle: Handle) -> (r: &Vertex) {
        self.kernel.vertex_buffer.get(handle)
    }
}

impl GetElementMut<Vertex> for Mesh {
    fn get_mut(&mut self, handle: Handle) -> (r: Option<&mut Vertex>) {
        self.kernel.vertex_buffer.get_mut(handle)
    }
}

impl ElementStore<Point> for Mesh {
    open spec fn slots_of(&self) -> Seq<Slot<Point>> {
        self.point_slots()
    }

    open spec fn store_wf(&self) -> bool {
        self.wf()
    }

    open spec fn same_elsewhere(&self, other: &Self) -> bool {
        &&& self.edge_slots() == other.edge_slots()
        &&& self.face_slots() == other.face_slots()
        &&& self.vertex_slots() == other.vertex_slots()
        &&& self.tag_counter() == other.tag_counter()
    }
}

impl AddElement<Point> for Mesh {
    fn add(&mut self, element: Point) -> (h: Handle) {
        self.kernel.point_buffer.add(element)
    }
}

impl RemoveElement<Point> for Mesh {
    fn remove(&mut self, handle: Handle) {
        self.kernel.point_buffer.remove(handle)
    }
}

impl GetElement<Point> for Mesh {
    fn get(&self, handle: Handle) -> (r: &Point) {
        self.kernel.point_buffer.get(handle)
    }
}

impl GetElementMut<Point> for Mesh {
    fn get_mut(&mut self, handle: Handle) -> (r: Option<&mut Point>) {
        self.kernel.point_buffer.get_mut(handle)
    }
}

} // verus!
