//! Whole-mesh enumerators and tag-stamped walks: face edge loops, face vertex
//! loops and vertex one-rings.
use vstd::prelude::*;
use crate::handle::{Tag, EdgeIndex, FaceIndex, VertexIndex, PointIndex, ElementStatus, ElementProperties};
use crate::cursors::{VertexFn, EdgeFn, FaceFn};
use crate::buffer::{Slot, with_tag};
use crate::elements::{Point, Edge};
use crate::mesh::{Mesh, same_but_edge_tags};

verus! {

/// Walks the live vertices of a mesh in ascending slot order, skipping the
/// sentinel and removed slots.
pub struct VertexFnIterator<'mesh> {
    pub mesh: &'mesh Mesh,
    /// The next slot to look at.
    pub slot: usize,
}

impl<'mesh> VertexFnIterator<'mesh> {
    pub fn new(mesh: &'mesh Mesh) -> (r: VertexFnIterator<'mesh>)
        ensures
            r.mesh == mesh,
            r.slot == 0,
    {
        VertexFnIterator { mesh, slot: 0 }
    }

    /// The next live vertex, or `None` once every slot has been looked at.
    pub fn next(&mut self) -> (r: Option<VertexFn<'mesh>>)
        requires
            old(self).mesh.wf(),
        ensures
            final(self).mesh == old(self).mesh,
            r matches Some(x) ==> {
                &&& x.mesh == old(self).mesh
                &&& old(self).mesh.vertex_live(x.index)
                &&& old(self).slot <= x.index.index
                &&& final(self).slot == x.index.index + 1
                &&& forall|i: int|
                    old(self).slot <= i < x.index.index ==> old(self).mesh.vertex_slots()[i].props.status
                        != ElementStatus::Active
            },
            r is None ==> final(self).slot == old(self).slot,
            r is None ==> forall|i: int|
                old(self).slot <= i < old(self).mesh.vertex_slots().len() ==> old(self).mesh.vertex_slots()[i].props.status
                    != ElementStatus::Active,
    {
        match self.mesh.next_live_vertex(self.slot) {
            Some(h) => {
                self.slot = h.index + 1;
                Some(VertexFn::new(h, self.mesh))
            },
            None => None,
        }
    }
}

/// Walks the live faces of a mesh in ascending slot order, skipping the
/// sentinel and removed slots.
pub struct FaceFnIterator<'mesh> {
    pub mesh: &'mesh Mesh,
    /// The next slot to look at.
    pub slot: usize,
}

impl<'mesh> FaceFnIterator<'mesh> {
    pub fn new(mesh: &'mesh Mesh) -> (r: FaceFnIterator<'mesh>)
        ensures
            r.mesh == mesh,
            r.slot == 0,
    {
        FaceFnIterator { mesh, slot: 0 }
    }

    /// The next live face, or `None` once every slot has been looked at.
    pub fn next(&mut self) -> (r: Option<FaceFn<'mesh>>)
        requires
            old(self).mesh.wf(),
        ensures
            final(self).mesh == old(self).mesh,
            r matches Some(x) ==> {
                &&& x.mesh == old(self).mesh
                &&& old(self).mesh.face_live(x.index)
                &&& old(self).slot <= x.index.index
                &&& final(self).slot == x.index.index + 1
                &&& forall|i: int|
                    old(self).slot <= i < x.index.index ==> old(self).mesh.face_slots()[i].props.status
                        != ElementStatus::Active
            },
            r is None ==> final(self).slot == old(self).slot,
            r is None ==> forall|i: int|
                old(self).slot <= i < old(self).mesh.face_slots().len() ==> old(self).mesh.face_slots()[i].props.status
                    != ElementStatus::Active,
    {
        match self.mesh.next_live_face(self.slot) {
            Some(h) => {
                self.slot = h.index + 1;
                Some(FaceFn::new(h, self.mesh))
            },
            None => None,
        }
    }
}

/// Walks the live edges of a mesh in ascending slot order, skipping the
/// sentinel and removed slots.
pub struct EdgeFnIterator<'mesh> {
    pub mesh: &'mesh Mesh,
    /// The next slot to look at.
    pub slot: usize,
}

impl<'mesh> EdgeFnIterator<'mesh> {
    pub fn new(mesh: &'mesh Mesh) -> (r: EdgeFnIterator<'mesh>)
        ensures
            r.mesh == mesh,
            r.slot == 0,
    {
        EdgeFnIterator { mesh, slot: 0 }
    }

    /// The next live edge, or `None` once every slot has been looked at.
    pub fn next(&mut self) -> (r: Option<EdgeFn<'mesh>>)
        requires
            old(self).mesh.wf(),
        ensures
            final(self).mesh == old(self).mesh,
            r matches Some(x) ==> {
                &&& x.mesh == old(self).mesh
                &&& old(self).mesh.edge_live(x.index)
                &&& old(self).slot <= x.index.index
                &&& final(self).slot == x.index.index + 1
                &&& forall|i: int|
                    old(self).slot <= i < x.index.index ==> old(self).mesh.edge_slots()[i].props.status
                        != ElementStatus::Active
            },
            r is None ==> final(self).slot == old(self).slot,
            r is None ==> forall|i: int|
                old(self).slot <= i < old(self).mesh.edge_slots().len() ==> old(self).mesh.edge_slots()[i].props.status
                    != ElementStatus::Active,
    {
        match self.mesh.next_live_edge(self.slot) {
            Some(h) => {
                self.slot = h.index + 1;
                Some(EdgeFn::new(h, self.mesh))
            },
            None => None,
        }
    }
}

/// Walks the live points of a mesh in ascending slot order, skipping the
/// sentinel and removed slots.
pub struct PointIterator<'mesh> {
    pub mesh: &'mesh Mesh,
    /// The next slot to look at.
    pub slot: usize,
}

impl<'mesh> PointIterator<'mesh> {
    pub fn new(mesh: &'mesh Mesh) -> (r: PointIterator<'mesh>)
        ensures
            r.mesh == mesh,
            r.slot == 0,
    {
        PointIterator { mesh, slot: 0 }
    }

    /// The next live point, or `None` once every slot has been looked at.
    pub fn next(&mut self) -> (r: Option<&'mesh Point>)
        requires
            old(self).mesh.wf(),
        ensures
            final(self).mesh == old(self).mesh,
            r matches Some(x) ==> exists|h: PointIndex| {
                &&& #[trigger] old(self).mesh.point_live(h)
                &&& *x == old(self).mesh.point_at(h)
                &&& old(self).slot <= h.index
                &&& final(self).slot == h.index + 1
                &&& forall|i: int|
                    old(self).slot <= i < h.index ==> old(self).mesh.point_slots()[i].props.status
                        != ElementStatus::Active
            },
            r is None ==> final(self).slot == old(self).slot,
            r is None ==> forall|i: int|
                old(self).slot <= i < old(self).mesh.point_slots().len() ==> old(self).mesh.point_slots()[i].props.status
                    != ElementStatus::Active,
    {
        match self.mesh.next_live_point(self.slot) {
            Some(h) => {
                self.slot = h.index + 1;
                Some(self.mesh.point(h))
            },
            None => None,
        }
    }
}

/// How a walk moves from one half-edge to the next.
#[derive(Clone, Copy, Debug, PartialEq, Eq, Structural)]
pub enum Stride {
    /// Along the face loop: `next`.
    Next,
    /// Counter clockwise around the origin vertex: `prev`, then `twin`.
    PrevTwin,
    /// Clockwise around the origin vertex: `twin`, then `next`.
    TwinNext,
}

/// One move of kind `stride` from `e`.
pub open spec fn stride_of(m: &Mesh, stride: Stride, e: EdgeIndex) -> EdgeIndex {
    match stride {
        Stride::Next => m.next_of(e),
        Stride::PrevTwin => m.twin_of(m.prev_of(e)),
        Stride::TwinNext => m.next_of(m.twin_of(e)),
    }
}

/// `n` moves of kind `stride` from `e`.
pub open spec fn stride_iter(m: &Mesh, stride: Stride, e: EdgeIndex, n: nat) -> EdgeIndex
    decreases n,
{
    if n == 0 {
        e
    } else {
        stride_of(m, stride, stride_iter(m, stride, e, (n - 1) as nat))
    }
}

/// The half-edges of `v` sit in pairwise different slots.
pub open spec fn index_distinct(v: Seq<EdgeIndex>) -> bool {
    forall|i: int, j: int| 0 <= i < v.len() && 0 <= j < v.len() && i != j ==> v[i].index != v[j].index
}

/// `s` is a prefix of the orbit of `start` under `stride`, of live half-edges
/// that `prior` does not hold, without repeats, and (when the walk stops at
/// the boundary) without a boundary half-edge but perhaps the last one.
pub open spec fn walk_prefix(
    m: &Mesh,
    start: EdgeIndex,
    stride: Stride,
    stop_at_boundary: bool,
    prior: Seq<EdgeIndex>,
    s: Seq<EdgeIndex>,
) -> bool {
    &&& forall|i: int|
        0 <= i < s.len() ==> {
            &&& #[trigger] s[i] == stride_iter(m, stride, start, i as nat)
            &&& m.edge_live(s[i])
            &&& !prior.contains(s[i])
        }
    &&& forall|i: int|
        0 <= i < s.len() - 1 ==> !(stop_at_boundary && m.is_boundary_spec(#[trigger] s[i]))
    &&& s.no_duplicates()
}

/// Why a walk that collected `s` stops: it took a boundary half-edge while
/// stopping at the boundary, or the next candidate is not live, or it was
/// already visited.
pub open spec fn walk_ends(
    m: &Mesh,
    start: EdgeIndex,
    stride: Stride,
    stop_at_boundary: bool,
    prior: Seq<EdgeIndex>,
    s: Seq<EdgeIndex>,
) -> bool {
    let c = stride_iter(m, stride, start, s.len());
    ||| s.len() > 0 && stop_at_boundary && m.is_boundary_spec(s.last())
    ||| !m.edge_live(c)
    ||| prior.contains(c)
    ||| s.contains(c)
}

/// `s` is exactly what a tag-stamped walk from `start` collects after the
/// half-edges in `prior` were visited with the same tag.
pub open spec fn is_walk(
    m: &Mesh,
    start: EdgeIndex,
    stride: Stride,
    stop_at_boundary: bool,
    prior: Seq<EdgeIndex>,
    s: Seq<EdgeIndex>,
) -> bool {
    &&& walk_prefix(m, start, stride, stop_at_boundary, prior, s)
    &&& walk_ends(m, start, stride, stop_at_boundary, prior, s)
}

/// The half-edge slots that carry tag `t` are exactly those of `v`.
pub open spec fn stamped_exactly(m: &Mesh, t: Tag, v: Seq<EdgeIndex>) -> bool {
    forall|j: int|
        0 <= j < m.edge_slots().len() ==> (#[trigger] m.edge_slots()[j].props.tag == t <==> exists|
            i: int,
        | 0 <= i < v.len() && v[i].index == j)
}

/// Number of slots among the first `n` whose tag is not `t`.
pub open spec fn count_untagged(s: Seq<Slot<Edge>>, t: Tag, n: nat) -> nat
    decreases n,
{
    if n == 0 {
        0
    } else {
        count_untagged(s, t, (n - 1) as nat) + if s[n - 1].props.tag != t {
            1nat
        } else {
            0nat
        }
    }
}

proof fn lemma_count_same(a: Seq<Slot<Edge>>, b: Seq<Slot<Edge>>, t: Tag, n: nat)
    requires
        n <= a.len(),
        n <= b.len(),
        forall|i: int| 0 <= i < n ==> a[i].props.tag == b[i].props.tag,
    ensures
        count_untagged(a, t, n) == count_untagged(b, t, n),
    decreases n,
{
    if n > 0 {
        lemma_count_same(a, b, t, (n - 1) as nat);
    }
}

/// Stamping one untagged slot lowers the count of untagged slots.
proof fn lemma_count_stamp(a: Seq<Slot<Edge>>, b: Seq<Slot<Edge>>, t: Tag, j: int, n: nat)
    requires
        n <= a.len(),
        a.len() == b.len(),
        0 <= j < n,
        a[j].props.tag != t,
        b[j].props.tag == t,
        forall|i: int| 0 <= i < a.len() && i != j ==> a[i].props.tag == b[i].props.tag,
    ensures
        count_untagged(b, t, n) < count_untagged(a, t, n),
    decreases n,
{
    if j == n - 1 {
        lemma_count_same(a, b, t, (n - 1) as nat);
    } else {
        lemma_count_stamp(a, b, t, j, (n - 1) as nat);
    }
}

/// One move of kind `stride` from `e`.
pub fn stride_step(mesh: &Mesh, stride: Stride, e: EdgeIndex) -> (r: EdgeIndex)
    requires
        mesh.wf(),
    ensures
        r == stride_of(mesh, stride, e),
{
    match stride {
        Stride::Next => mesh.edge(e).next_index,
        Stride::PrevTwin => mesh.edge(mesh.edge(e).prev_index).twin_index,
        Stride::TwinNext => mesh.edge(mesh.edge(e).twin_index).next_index,
    }
}

/// Follows `stride` from `start`, stamping each half-edge it takes with `tag`
/// and appending it to `out`. It stops at a half-edge that is not live or
/// already carries `tag`, and, when `stop_at_boundary` holds, right after
/// taking a boundary half-edge. Every move stamps a half-edge that had no
/// `tag` yet, so the walk ends after at most one pass over the half-edges.
pub fn walk(
    mesh: &mut Mesh,
    start: EdgeIndex,
    tag: Tag,
    stride: Stride,
    stop_at_boundary: bool,
    out: &mut Vec<EdgeIndex>,
)
    requires
        old(mesh).wf(),
        tag < old(mesh).tag_counter(),
        stamped_exactly(old(mesh), tag, old(out)@),
        forall|i: int| 0 <= i < old(out)@.len() ==> old(mesh).edge_live(#[trigger] old(out)@[i]),
        index_distinct(old(out)@),
    ensures
        final(mesh).wf(),
        same_but_edge_tags(old(mesh), final(mesh)),
        final(mesh).tag_counter() == old(mesh).tag_counter(),
        stamped_exactly(final(mesh), tag, final(out)@),
        forall|i: int|
            0 <= i < final(out)@.len() ==> final(mesh).edge_live(#[trigger] final(out)@[i]),
        index_distinct(final(out)@),
        old(out)@.len() <= final(out)@.len(),
        final(out)@.subrange(0, old(out)@.len() as int) == old(out)@,
        is_walk(
            old(mesh),
            start,
            stride,
            stop_at_boundary,
            old(out)@,
            final(out)@.subrange(old(out)@.len() as int, final(out)@.len() as int),
        ),
{
    let ghost m0 = *mesh;
    let ghost prior = out@;
    let ghost n0 = out@.len();
    let mut cur = start;
    let mut done = false;
    while !done
        invariant
            m0.wf(),
            mesh.wf(),
            same_but_edge_tags(&m0, mesh),
            mesh.tag_counter() == m0.tag_counter(),
            tag < m0.tag_counter(),
            stamped_exactly(mesh, tag, out@),
            forall|i: int| 0 <= i < out@.len() ==> m0.edge_live(#[trigger] out@[i]),
            index_distinct(out@),
            n0 <= out@.len(),
            out@.subrange(0, n0 as int) == prior,
            walk_prefix(&m0, start, stride, stop_at_boundary, prior, out@.subrange(n0 as int, out@.len() as int)),
            !done ==> forall|i: int|
                n0 <= i < out@.len() ==> !(stop_at_boundary && m0.is_boundary_spec(#[trigger] out@[i])),
            cur == stride_iter(&m0, stride, start, (out@.len() - n0) as nat),
            done ==> walk_ends(&m0, start, stride, stop_at_boundary, prior, out@.subrange(n0 as int, out@.len() as int)),
        decreases count_untagged(mesh.edge_slots(), tag, mesh.edge_slots().len()) + if done {
            0nat
        } else {
            1nat
        },
    {
        proof {
            m0.lemma_same_navigation(mesh, cur);
        }
        let ghost s = out@.subrange(n0 as int, out@.len() as int);
        if !mesh.is_edge_live(cur) {
            done = true;
        } else if mesh.edge_tag(cur.index) == tag {
            proof {
                let i = choose|i: int| 0 <= i < out@.len() && out@[i].index == cur.index;
                assert(out@[i] == cur);
                if i < n0 {
                    assert(prior[i] == out@[i]);
                    assert(prior.contains(cur));
                } else {
                    assert(s[i - n0] == out@[i]);
                    assert(s.contains(cur));
                }
            }
            done = true;
        } else {
            let ghost before = *mesh;
            let ghost out0 = out@;
            proof {
                lemma_count_stamp(
                    before.edge_slots(),
                    before.edge_slots().update(
                        cur.index as int,
                        Slot {
                            element: before.edge_slots()[cur.index as int].element,
                            props: ElementProperties {
                                tag,
                                ..before.edge_slots()[cur.index as int].props
                            },
                        },
                    ),
                    tag,
                    cur.index as int,
                    before.edge_slots().len(),
                );
                assert forall|i: int| 0 <= i < out@.len() implies out@[i].index != cur.index by {
                    if out@[i].index == cur.index {
                        assert(before.edge_slots()[cur.index as int].props.tag == tag);
                    }
                }
            }
            mesh.stamp_edge(cur.index, tag);
            out.push(cur);
            proof {
                let s2 = out@.subrange(n0 as int, out@.len() as int);
                assert(s2 =~= s.push(cur));
                assert(out@.subrange(0, n0 as int) =~= prior);
                assert forall|i: int| 0 <= i < prior.len() implies prior[i] != cur by {
                    assert(prior[i] == out@[i]);
                }
                assert forall|i: int| 0 <= i < s.len() implies s[i] != cur by {
                    assert(s[i] == out@[i + n0]);
                }
                assert forall|j: int| 0 <= j < mesh.edge_slots().len() implies (
                #[trigger] mesh.edge_slots()[j].props.tag == tag <==> exists|i: int|
                    0 <= i < out@.len() && out@[i].index == j) by {
                    if j == cur.index {
                        assert(out@[out@.len() - 1].index == j);
                    } else if mesh.edge_slots()[j].props.tag == tag {
                        assert(before.edge_slots()[j].props.tag == tag);
                        let i = choose|i: int| 0 <= i < out0.len() && out0[i].index == j;
                        assert(out@[i] == out0[i]);
                    } else if exists|i: int| 0 <= i < out@.len() && out@[i].index == j {
                        let i = choose|i: int| 0 <= i < out@.len() && out@[i].index == j;
                        assert(i < out@.len() - 1);
                        assert(out@[i] == out0[i]);
                        assert(before.edge_slots()[j].props.tag == tag);
                    }
                }
                m0.lemma_same_navigation(mesh, cur);
            }
            if stop_at_boundary && mesh.is_boundary_edge(cur) {
                done = true;
            }
            cur = stride_step(mesh, stride, cur);
            proof {
                m0.lemma_same_navigation(mesh, cur);
            }
        }
    }
}

/// A walk with tag `tag` takes `e`: it is live and not yet stamped with `tag`.
pub open spec fn takes(m: &Mesh, e: EdgeIndex, tag: Tag) -> bool {
    m.edge_live(e) && m.edge_slots()[e.index as int].props.tag != tag
}

/// Stamps `e` with `tag` when a walk with that tag takes it; says whether it did.
pub fn visit(mesh: &mut Mesh, e: EdgeIndex, tag: Tag) -> (taken: bool)
    requires
        old(mesh).wf(),
        tag < old(mesh).tag_counter(),
    ensures
        final(mesh).wf(),
        same_but_edge_tags(old(mesh), final(mesh)),
        final(mesh).tag_counter() == old(mesh).tag_counter(),
        taken == takes(old(mesh), e, tag),
        final(mesh).edge_slots() == if taken {
            with_tag(old(mesh).edge_slots(), e.index as int, tag)
        } else {
            old(mesh).edge_slots()
        },
{
    if mesh.is_edge_live(e) && mesh.edge_tag(e.index) != tag {
        mesh.stamp_edge(e.index, tag);
        true
    } else {
        false
    }
}

/// Step-by-step walk around a face loop: each call yields the current
/// half-edge and stamps it, until it meets one already stamped or not live.
#[derive(Clone, Copy, Debug)]
pub struct FaceEdges {
    pub tag: Tag,
    pub edge: EdgeIndex,
}

impl FaceEdges {
    pub fn new(tag: Tag, edge: EdgeIndex) -> (r: FaceEdges)
        ensures
            r.tag == tag,
            r.edge == edge,
    {
        FaceEdges { tag, edge }
    }

    pub fn next(&mut self, mesh: &mut Mesh) -> (r: Option<EdgeIndex>)
        requires
            old(mesh).wf(),
            old(self).tag < old(mesh).tag_counter(),
        ensures
            final(mesh).wf(),
            same_but_edge_tags(old(mesh), final(mesh)),
            final(mesh).tag_counter() == old(mesh).tag_counter(),
            final(self).tag == old(self).tag,
            r == if takes(old(mesh), old(self).edge, old(self).tag) {
                Some(old(self).edge)
            } else {
                None
            },
            takes(old(mesh), old(self).edge, old(self).tag) ==> {
                &&& final(mesh).edge_slots() == with_tag(old(mesh).edge_slots(), old(self).edge.index as int, old(self).tag)
                &&& final(self).edge == old(mesh).next_of(old(self).edge)
            },
            !takes(old(mesh), old(self).edge, old(self).tag) ==> {
                &&& final(mesh).edge_slots() == old(mesh).edge_slots()
                &&& final(self).edge == old(self).edge
            },
    {
        let e = self.edge;
        if visit(mesh, e, self.tag) {
            proof {
                old(mesh).lemma_same_navigation(mesh, e);
            }
            self.edge = mesh.edge(e).next_index;
            Some(e)
        } else {
            None
        }
    }
}

/// Step-by-step walk over the origin vertices of a face loop.
#[derive(Clone, Copy, Debug)]
pub struct FaceVertices {
    pub edges: FaceEdges,
}

impl FaceVertices {
    pub fn new(edges: FaceEdges) -> (r: FaceVertices)
        ensures
            r.edges == edges,
    {
        FaceVertices { edges }
    }

    pub fn next(&mut self, mesh: &mut Mesh) -> (r: Option<VertexIndex>)
        requires
            old(mesh).wf(),
            old(self).edges.tag < old(mesh).tag_counter(),
        ensures
            final(mesh).wf(),
            same_but_edge_tags(old(mesh), final(mesh)),
            final(mesh).tag_counter() == old(mesh).tag_counter(),
            final(self).edges.tag == old(self).edges.tag,
            r == if takes(old(mesh), old(self).edges.edge, old(self).edges.tag) {
                Some(old(mesh).origin_of(old(self).edges.edge))
            } else {
                None
            },
            takes(old(mesh), old(self).edges.edge, old(self).edges.tag) ==> {
                &&& final(mesh).edge_slots() == with_tag(old(mesh).edge_slots(), old(self).edges.edge.index as int, old(self).edges.tag)
                &&& final(self).edges.edge == old(mesh).next_of(old(self).edges.edge)
            },
            !takes(old(mesh), old(self).edges.edge, old(self).edges.tag) ==> {
                &&& final(mesh).edge_slots() == old(mesh).edge_slots()
                &&& final(self).edges.edge == old(self).edges.edge
            },
    {
        match self.edges.next(mesh) {
            Some(e) => {
                proof {
                    old(mesh).lemma_same_navigation(mesh, e);
                }
                Some(mesh.edge(e).vertex_index)
            },
            None => None,
        }
    }
}

/// Direction of a vertex circulator's rotation.
#[derive(Clone, Copy, Debug, PartialEq, Eq, Structural)]
pub enum CirculatorDirection {
    /// Counter clockwise: `prev`, then `twin`.
    CCW,
    /// Clockwise: `twin`, then `next`.
    CW,
}

/// Step-by-step walk around a vertex: counter clockwise until a boundary
/// half-edge, then clockwise from the other side of the vertex's outgoing
/// half-edge until a second boundary half-edge or an already stamped one.
#[derive(Clone, Copy, Debug)]
pub struct VertexCirculator {
    pub tag: Tag,
    pub direction: CirculatorDirection,
    pub vertex: VertexIndex,
    pub current_edge: EdgeIndex,
}

impl VertexCirculator {
    pub fn new(tag: Tag, vertex: VertexFn<'_>) -> (r: VertexCirculator)
        requires
            vertex.mesh.wf(),
        ensures
            r.tag == tag,
            r.direction == CirculatorDirection::CCW,
            r.vertex == vertex.index,
            r.current_edge == vertex.mesh.vertex_at(vertex.index).edge_index,
    {
        let current_edge = vertex.edge().index;
        VertexCirculator { tag, direction: CirculatorDirection::CCW, vertex: vertex.index, current_edge }
    }

    pub fn next(&mut self, mesh: &mut Mesh) -> (r: Option<EdgeIndex>)
        requires
            old(mesh).wf(),
            old(self).tag < old(mesh).tag_counter(),
        ensures
            final(mesh).wf(),
            same_but_edge_tags(old(mesh), final(mesh)),
            final(mesh).tag_counter() == old(mesh).tag_counter(),
            final(self).tag == old(self).tag,
            final(self).vertex == old(self).vertex,
            r == if takes(old(mesh), old(self).current_edge, old(self).tag) {
                Some(old(self).current_edge)
            } else {
                None
            },
            !takes(old(mesh), old(self).current_edge, old(self).tag) ==> {
                &&& final(mesh).edge_slots() == old(mesh).edge_slots()
                &&& *final(self) == *old(self)
            },
            takes(old(mesh), old(self).current_edge, old(self).tag) ==> {
                let m = old(mesh);
                let e = old(self).current_edge;
                let start = m.vertex_at(old(self).vertex).edge_index;
                &&& final(mesh).edge_slots() == with_tag(m.edge_slots(), e.index as int, old(self).tag)
                &&& final(self).direction == if m.is_boundary_spec(e) {
                    CirculatorDirection::CW
                } else {
                    old(self).direction
                }
                &&& final(self).current_edge == match (old(self).direction, m.is_boundary_spec(e)) {
                    (CirculatorDirection::CCW, true) => stride_of(m, Stride::TwinNext, start),
                    (CirculatorDirection::CCW, false) => stride_of(m, Stride::PrevTwin, e),
                    (CirculatorDirection::CW, true) => start,
                    (CirculatorDirection::CW, false) => stride_of(m, Stride::TwinNext, e),
                }
            },
    {
        let e = self.current_edge;
        let boundary = mesh.is_boundary_edge(e);
        let start = mesh.vertex(self.vertex).edge_index;
        if !visit(mesh, e, self.tag) {
            return None;
        }
        proof {
            old(mesh).lemma_same_navigation(mesh, e);
            old(mesh).lemma_same_navigation(mesh, start);
        }
        match self.direction {
            CirculatorDirection::CCW => {
                if boundary {
                    self.direction = CirculatorDirection::CW;
                    self.current_edge = stride_step(mesh, Stride::TwinNext, start);
                } else {
                    self.current_edge = stride_step(mesh, Stride::PrevTwin, e);
                }
            },
            CirculatorDirection::CW => {
                if boundary {
                    self.current_edge = start;
                } else {
                    self.current_edge = stride_step(mesh, Stride::TwinNext, e);
                }
            },
        }
        Some(e)
    }
}

/// What the one-ring circulator collects from `start`: a counter clockwise
/// walk, and, when that walk ended on a boundary half-edge, a clockwise walk
/// from the other side of `start` that skips what the first one took.
pub open spec fn is_one_ring(m: &Mesh, start: EdgeIndex, s: Seq<EdgeIndex>) -> bool {
    exists|p: int| #[trigger] one_ring_split(m, start, s, p)
}

/// `s` splits at `p` into the two walks of the one-ring circulator.
pub open spec fn one_ring_split(m: &Mesh, start: EdgeIndex, s: Seq<EdgeIndex>, p: int) -> bool {
    0 <= p <= s.len() && {
        let ccw = s.subrange(0, p);
        let cw = s.subrange(p, s.len() as int);
        &&& is_walk(m, start, Stride::PrevTwin, true, Seq::empty(), ccw)
        &&& if p > 0 && m.is_boundary_spec(ccw.last()) {
            is_walk(m, stride_of(m, Stride::TwinNext, start), Stride::TwinNext, true, ccw, cw)
        } else {
            cw.len() == 0
        }
    }
}

/// `after` is `before` with each half-edge of the loop walk `s` from `root`
/// replaced by what `callback` makes of it, and the other half-edges unchanged.
pub open spec fn edited_along<F: Fn(Edge) -> Edge>(
    before: &Mesh,
    after: &Mesh,
    root: EdgeIndex,
    s: Seq<EdgeIndex>,
    callback: F,
) -> bool {
    &&& is_walk(before, root, Stride::Next, false, Seq::empty(), s)
    &&& after.edge_slots().len() == before.edge_slots().len()
    &&& forall|k: int| 0 <= k < s.len() ==> callback.ensures((before.edge_at(s[k]),), #[trigger] after.edge_at(s[k]))
    &&& forall|j: int|
        0 <= j < before.edge_slots().len() && !(exists|k: int| 0 <= k < s.len() && #[trigger] s[k].index == j)
            ==> #[trigger] after.edge_slots()[j].element == before.edge_slots()[j].element
    &&& forall|j: int|
        0 <= j < before.edge_slots().len() ==> (#[trigger] after.edge_slots()[j]).props.status
            == before.edge_slots()[j].props.status && after.edge_slots()[j].props.generation
            == before.edge_slots()[j].props.generation
}

impl Mesh {
    /// Enumerates the live faces.
    pub fn faces(&self) -> (r: FaceFnIterator<'_>)
        ensures
            r.mesh == self,
            r.slot == 0,
    {
        FaceFnIterator::new(self)
    }

    /// Enumerates the live vertices.
    pub fn vertices(&self) -> (r: VertexFnIterator<'_>)
        ensures
            r.mesh == self,
            r.slot == 0,
    {
        VertexFnIterator::new(self)
    }
}

impl Mesh {
    /// The half-edges of the loop through `root`, from `root` along `next`,
    /// each once. Empty when `root` is not live.
    pub fn edge_loop(&mut self, root: EdgeIndex) -> (r: Vec<EdgeIndex>)
        requires
            old(self).wf(),
        ensures
            final(self).wf(),
            same_but_edge_tags(old(self), final(self)),
            forall|i: int| 0 <= i < r@.len() ==> final(self).edge_live(#[trigger] r@[i]),
            index_distinct(r@),
            is_walk(old(self), root, Stride::Next, false, Seq::empty(), r@),
    {
        let tag = self.next_tag();
        let mut out: Vec<EdgeIndex> = Vec::new();
        let ghost m1 = *self;
        walk(self, root, tag, Stride::Next, false, &mut out);
        proof {
            assert(out@.subrange(0, 0) =~= Seq::<EdgeIndex>::empty());
            assert(out@.subrange(0, out@.len() as int) =~= out@);
            lemma_walk_same(&m1, old(self), root, Stride::Next, false, Seq::empty(), out@);
        }
        out
    }

    /// The half-edges of the loop of `face`, from its root along `next`,
    /// each once. Empty when the face or its root is not live.
    pub fn edges(&mut self, face: FaceIndex) -> (r: Vec<EdgeIndex>)
        requires
            old(self).wf(),
        ensures
            final(self).wf(),
            same_but_edge_tags(old(self), final(self)),
            is_walk(old(self), old(self).face_at(face).edge_index, Stride::Next, false, Seq::empty(), r@),
    {
        let root = self.face(face).edge_index;
        self.edge_loop(root)
    }

    /// Replaces each half-edge of the loop through `eindex` with what
    /// `callback` makes of it; everything else stays as it was.
    pub fn foreach_edge_mut<F: Fn(Edge) -> Edge>(&mut self, eindex: EdgeIndex, callback: F)
        requires
            old(self).wf(),
            forall|e: Edge| #[trigger] callback.requires((e,)),
        ensures
            final(self).wf(),
            final(self).face_slots() == old(self).face_slots(),
            final(self).vertex_slots() == old(self).vertex_slots(),
            final(self).point_slots() == old(self).point_slots(),
            exists|s: Seq<EdgeIndex>| #[trigger] edited_along(old(self), final(self), eindex, s, callback),
    {
        let ghost m0 = *self;
        let edges = self.edge_loop(eindex);
        let ghost m1 = *self;
        let ghost s = edges@;
        let mut i: usize = 0;
        while i < edges.len()
            invariant
                m1.wf(),
                self.wf(),
                same_but_edge_tags(&m0, &m1),
                m0.wf(),
                s == edges@,
                i <= s.len(),
                index_distinct(s),
                forall|k: int| 0 <= k < s.len() ==> m1.edge_live(#[trigger] s[k]),
                self.face_slots() == m1.face_slots(),
                self.vertex_slots() == m1.vertex_slots(),
                self.point_slots() == m1.point_slots(),
                self.edge_slots().len() == m1.edge_slots().len(),
                forall|j: int| 0 <= j < m1.edge_slots().len() ==> #[trigger] self.edge_slots()[j].props == m1.edge_slots()[j].props,
                forall|k: int| 0 <= k < i ==> callback.ensures((m1.edge_at(s[k]),), #[trigger] self.edge_at(s[k])),
                forall|k: int| i <= k < s.len() ==> #[trigger] self.edge_at(s[k]) == m1.edge_at(s[k]),
                forall|j: int|
                    0 <= j < m1.edge_slots().len() && !(exists|k: int| 0 <= k < s.len() && #[trigger] s[k].index == j)
                        ==> #[trigger] self.edge_slots()[j].element == m1.edge_slots()[j].element,
                forall|e: Edge| #[trigger] callback.requires((e,)),
            decreases s.len() - i,
        {
            let h = edges[i];
            let ghost before = *self;
            let v = callback(*self.edge(h));
            if let Some(e) = self.edge_mut(h) {
                *e = v;
            }
            proof {
                assert(before.edge_live(h));
                assert(self.edge_at(h) == v);
                assert(before.edge_at(h) == m1.edge_at(s[i as int]));
                assert(callback.ensures((m1.edge_at(s[i as int]),), self.edge_at(s[i as int])));
                assert forall|k: int| 0 <= k < s.len() && k != i implies #[trigger] self.edge_at(s[k])
                    == before.edge_at(s[k]) by {
                    assert(s[k].index != h.index);
                    assert(self.edge_slots()[s[k].index as int] == before.edge_slots()[s[k].index as int]);
                }
                assert forall|k: int| 0 <= k < s.len() && k != i implies s[k].index != h.index by {}
                assert forall|k: int| 0 <= k < s.len() implies self.edge_live(#[trigger] s[k]) == before.edge_live(s[k]) by {}
            }
            i = i + 1;
        }
        proof {
            assert forall|k: int| 0 <= k < s.len() implies #[trigger] m0.edge_at(s[k]) == m1.edge_at(s[k]) by {
                m0.lemma_same_navigation(&m1, s[k]);
            }
            assert(edited_along(old(self), self, eindex, s, callback));
        }
    }

    /// The origin vertices of the half-edges `edges(face)` yields, in order.
    pub fn face_vertices(&mut self, face: FaceIndex) -> (r: Vec<VertexIndex>)
        requires
            old(self).wf(),
        ensures
            final(self).wf(),
            same_but_edge_tags(old(self), final(self)),
            exists|s: Seq<EdgeIndex>|
                {
                    &&& is_walk(old(self), old(self).face_at(face).edge_index, Stride::Next, false, Seq::empty(), s)
                    &&& r@ == s.map_values(|e: EdgeIndex| old(self).origin_of(e))
                },
    {
        let ghost m0 = *self;
        let edges = self.edges(face);
        let mut r: Vec<VertexIndex> = Vec::new();
        let mut i: usize = 0;
        while i < edges.len()
            invariant
                self.wf(),
                same_but_edge_tags(&m0, self),
                m0.wf(),
                i <= edges@.len(),
                r@ == edges@.subrange(0, i as int).map_values(|e: EdgeIndex| m0.origin_of(e)),
            decreases edges@.len() - i,
        {
            proof {
                m0.lemma_same_navigation(self, edges@[i as int]);
            }
            r.push(self.edge(edges[i]).vertex_index);
            proof {
                assert(edges@.subrange(0, i + 1) =~= edges@.subrange(0, i as int).push(edges@[i as int]));
                assert(r@ =~= edges@.subrange(0, i + 1).map_values(|e: EdgeIndex| m0.origin_of(e)));
            }
            i = i + 1;
        }
        proof {
            assert(edges@.subrange(0, i as int) =~= edges@);
        }
        r
    }

    /// The half-edges around `vertex`, starting at its outgoing half-edge:
    /// counter clockwise until a boundary half-edge, then clockwise from the
    /// other side. Each half-edge comes once; empty when the vertex's
    /// outgoing half-edge is not live.
    pub fn edges_around_vertex(&mut self, vertex: VertexIndex) -> (r: Vec<EdgeIndex>)
        requires
            old(self).wf(),
        ensures
            final(self).wf(),
            same_but_edge_tags(old(self), final(self)),
            is_one_ring(old(self), old(self).vertex_at(vertex).edge_index, r@),
    {
        let start = self.vertex(vertex).edge_index;
        let tag = self.next_tag();
        let mut out: Vec<EdgeIndex> = Vec::new();
        let ghost m1 = *self;
        walk(self, start, tag, Stride::PrevTwin, true, &mut out);
        let ghost ccw = out@;
        let ghost m2 = *self;
        proof {
            assert(out@.subrange(0, 0) =~= Seq::<EdgeIndex>::empty());
            assert(out@.subrange(0, out@.len() as int) =~= out@);
            lemma_walk_same(&m1, old(self), start, Stride::PrevTwin, true, Seq::empty(), ccw);
        }
        let p = out.len();
        if p > 0 && self.is_boundary_edge(out[p - 1]) {
            let other = stride_step(self, Stride::TwinNext, start);
            walk(self, other, tag, Stride::TwinNext, true, &mut out);
            proof {
                m1.lemma_same_navigation(&m2, start);
                m1.lemma_same_navigation(old(self), start);
                lemma_walk_same(&m2, old(self), other, Stride::TwinNext, true, ccw, out@.subrange(p as int, out@.len() as int));
                assert(out@.subrange(0, p as int) == ccw);
                m1.lemma_same_navigation(&m2, ccw.last());
                m1.lemma_same_navigation(old(self), ccw.last());
            }
        } else {
            proof {
                assert(out@.subrange(p as int, out@.len() as int) =~= Seq::<EdgeIndex>::empty());
                assert(out@.subrange(0, p as int) =~= out@);
                if p > 0 {
                    m1.lemma_same_navigation(&m2, ccw.last());
                    m1.lemma_same_navigation(old(self), ccw.last());
                }
            }
        }
        proof {
            m1.lemma_same_navigation(old(self), start);
            assert(one_ring_split(old(self), start, out@, p as int));
        }
        out
    }
}

/// `stride_iter` agrees on meshes that differ only in half-edge tags.
proof fn lemma_iter_same(a: &Mesh, b: &Mesh, stride: Stride, e: EdgeIndex, n: nat)
    requires
        a.wf(),
        same_but_edge_tags(a, b),
    ensures
        stride_iter(a, stride, e, n) == stride_iter(b, stride, e, n),
    decreases n,
{
    a.lemma_same_navigation(b, e);
    if n > 0 {
        lemma_iter_same(a, b, stride, e, (n - 1) as nat);
    }
}

/// A walk read on one mesh reads the same on a mesh that differs only in tags.
proof fn lemma_walk_same(
    a: &Mesh,
    b: &Mesh,
    start: EdgeIndex,
    stride: Stride,
    stop_at_boundary: bool,
    prior: Seq<EdgeIndex>,
    s: Seq<EdgeIndex>,
)
    requires
        a.wf(),
        same_but_edge_tags(a, b),
        is_walk(a, start, stride, stop_at_boundary, prior, s),
    ensures
        is_walk(b, start, stride, stop_at_boundary, prior, s),
{
    a.lemma_same_navigation(b, start);
    assert forall|n: nat| #[trigger] stride_iter(a, stride, start, n) == stride_iter(b, stride, start, n) by {
        lemma_iter_same(a, b, stride, start, n);
    }
    assert(stride_iter(a, stride, start, s.len()) == stride_iter(b, stride, start, s.len()));
    assert forall|i: int| 0 <= i < s.len() implies {
        &&& #[trigger] s[i] == stride_iter(b, stride, start, i as nat)
        &&& b.edge_live(s[i])
        &&& !prior.contains(s[i])
    } by {
        assert(stride_iter(a, stride, start, i as nat) == stride_iter(b, stride, start, i as nat));
    }
}

/// From `start`, `k` moves of kind `stride` pass `k` distinct live half-edges
/// (none on the boundary when `stop_at_boundary` holds) and return to `start`.
pub open spec fn is_cycle(m: &Mesh, start: EdgeIndex, stride: Stride, stop_at_boundary: bool, k: nat) -> bool {
    &&& k >= 1
    &&& forall|i: nat|
        i < k ==> {
            &&& m.edge_live(#[trigger] stride_iter(m, stride, start, i))
            &&& !(stop_at_boundary && m.is_boundary_spec(stride_iter(m, stride, start, i)))
        }
    &&& forall|i: nat, j: nat|
        i < j < k ==> #[trigger] stride_iter(m, stride, start, i) != #[trigger] stride_iter(m, stride, start, j)
    &&& stride_iter(m, stride, start, k) == start
}

/// A fresh walk around a cycle of `k` half-edges takes exactly those `k`, in order.
proof fn lemma_walk_cycle(m: &Mesh, start: EdgeIndex, stride: Stride, stop_at_boundary: bool, k: nat, s: Seq<EdgeIndex>)
    requires
        is_cycle(m, start, stride, stop_at_boundary, k),
        is_walk(m, start, stride, stop_at_boundary, Seq::empty(), s),
    ensures
        s.len() == k,
        forall|i: int| 0 <= i < k ==> #[trigger] s[i] == stride_iter(m, stride, start, i as nat),
{
    let n = s.len();
    if n < k {
        let c = stride_iter(m, stride, start, n);
        assert(m.edge_live(c));
        if n > 0 {
            assert(s.last() == stride_iter(m, stride, start, (n - 1) as nat));
        }
        assert(!Seq::<EdgeIndex>::empty().contains(c));
        assert(s.contains(c));
        let i = choose|i: int| 0 <= i < n && s[i] == c;
        assert(s[i] == stride_iter(m, stride, start, i as nat));
        assert(false);
    }
    if n > k {
        assert(s[k as int] == stride_iter(m, stride, start, k));
        assert(s[0] == stride_iter(m, stride, start, 0));
        assert(false);
    }
}

/// A face whose loop has `k` sides: `k` distinct live half-edges along `next`
/// from `root`, the `k`-th move landing back on `root`.
pub open spec fn is_face_loop(m: &Mesh, root: EdgeIndex, k: nat) -> bool {
    is_cycle(m, root, Stride::Next, false, k)
}

/// Loop closure: walking the loop of a face with `k` sides from its root
/// yields exactly its `k` half-edges, each once and in order, and the `k`-th
/// `next` step returns to the root.
pub proof fn lemma_loop_closure(m: &Mesh, root: EdgeIndex, k: nat, s: Seq<EdgeIndex>)
    requires
        is_face_loop(m, root, k),
        is_walk(m, root, Stride::Next, false, Seq::empty(), s),
    ensures
        s.len() == k,
        s.no_duplicates(),
        forall|i: int| 0 <= i < k ==> #[trigger] s[i] == stride_iter(m, Stride::Next, root, i as nat),
        stride_iter(m, Stride::Next, root, k) == root,
{
    lemma_walk_cycle(m, root, Stride::Next, false, k, s);
}

/// Distinct live half-edges are no more than the half-edge slots besides the sentinel.
pub proof fn lemma_distinct_live_bound(m: &Mesh, s: Seq<EdgeIndex>)
    requires
        m.wf(),
        s.no_duplicates(),
        forall|i: int| 0 <= i < s.len() ==> m.edge_live(#[trigger] s[i]),
    ensures
        s.len() <= m.edge_slots().len() - 1,
{
    let idx = s.map_values(|h: EdgeIndex| h.index as int);
    assert forall|i: int, j: int| 0 <= i < idx.len() && 0 <= j < idx.len() && i != j implies idx[i] != idx[j] by {
        assert(m.edge_live(s[i]) && m.edge_live(s[j]));
        assert(s[i] != s[j]);
    }
    assert(idx.no_duplicates());
    idx.unique_seq_to_set();
    let n = m.edge_slots().len() as int;
    vstd::set_lib::lemma_int_range(1, n);
    assert forall|x: int| idx.to_set().contains(x) implies vstd::set_lib::set_int_range(1, n).contains(x) by {
        let i = choose|i: int| 0 <= i < idx.len() && idx[i] == x;
        assert(m.edge_live(s[i]));
    }
    vstd::set_lib::lemma_len_subset(idx.to_set(), vstd::set_lib::set_int_range(1, n));
}

/// One-ring termination: the circulator takes each half-edge at most once,
/// only live ones, so it ends within as many steps as there are half-edges.
pub proof fn lemma_one_ring_once(m: &Mesh, start: EdgeIndex, s: Seq<EdgeIndex>)
    requires
        m.wf(),
        is_one_ring(m, start, s),
    ensures
        s.no_duplicates(),
        forall|i: int| 0 <= i < s.len() ==> m.edge_live(#[trigger] s[i]),
        s.len() <= m.edge_slots().len() - 1,
{
    let p = choose|p: int| #[trigger] one_ring_split(m, start, s, p);
    let ccw = s.subrange(0, p);
    let cw = s.subrange(p, s.len() as int);
    assert(s =~= ccw + cw);
    assert forall|i: int| 0 <= i < s.len() implies m.edge_live(#[trigger] s[i]) by {
        if i < p {
            assert(s[i] == ccw[i]);
        } else {
            assert(s[i] == cw[i - p]);
        }
    }
    assert forall|i: int, j: int| 0 <= i < s.len() && 0 <= j < s.len() && i != j implies s[i] != s[j] by {
        if i < p && j < p {
            assert(s[i] == ccw[i] && s[j] == ccw[j]);
        } else if i >= p && j >= p {
            assert(s[i] == cw[i - p] && s[j] == cw[j - p]);
        } else if i < p {
            assert(s[i] == ccw[i] && s[j] == cw[j - p]);
            assert(ccw.contains(s[i]));
        } else {
            assert(s[j] == ccw[j] && s[i] == cw[i - p]);
            assert(ccw.contains(s[j]));
        }
    }
    lemma_distinct_live_bound(m, s);
}

/// Around an interior vertex whose `k` outgoing half-edges form a closed fan
/// (counter clockwise, none on the boundary), the circulator yields exactly
/// those `k` half-edges, each once, in rotation order.
pub proof fn lemma_one_ring_closed_fan(m: &Mesh, start: EdgeIndex, k: nat, s: Seq<EdgeIndex>)
    requires
        is_cycle(m, start, Stride::PrevTwin, true, k),
        is_one_ring(m, start, s),
    ensures
        s.len() == k,
        forall|i: int| 0 <= i < k ==> #[trigger] s[i] == stride_iter(m, Stride::PrevTwin, start, i as nat),
{
    let p = choose|p: int| #[trigger] one_ring_split(m, start, s, p);
    let ccw = s.subrange(0, p);
    lemma_walk_cycle(m, start, Stride::PrevTwin, true, k, ccw);
    assert(ccw.last() == stride_iter(m, Stride::PrevTwin, start, (k - 1) as nat));
    assert(s =~= ccw);
}

/// From `start`, `k` moves of kind `stride` pass `k` distinct live half-edges
/// that `prior` does not hold, none on the boundary but the last, which is.
pub open spec fn is_chain(m: &Mesh, start: EdgeIndex, stride: Stride, prior: Seq<EdgeIndex>, k: nat) -> bool {
    &&& k >= 1
    &&& forall|i: nat|
        i < k ==> {
            &&& m.edge_live(#[trigger] stride_iter(m, stride, start, i))
            &&& !prior.contains(stride_iter(m, stride, start, i))
            &&& i + 1 < k ==> !m.is_boundary_spec(stride_iter(m, stride, start, i))
        }
    &&& m.is_boundary_spec(stride_iter(m, stride, start, (k - 1) as nat))
    &&& forall|i: nat, j: nat|
        i < j < k ==> #[trigger] stride_iter(m, stride, start, i) != #[trigger] stride_iter(m, stride, start, j)
}

/// A walk that stops at the boundary takes exactly the `k` half-edges of a chain.
proof fn lemma_walk_chain(m: &Mesh, start: EdgeIndex, stride: Stride, prior: Seq<EdgeIndex>, k: nat, s: Seq<EdgeIndex>)
    requires
        is_chain(m, start, stride, prior, k),
        is_walk(m, start, stride, true, prior, s),
    ensures
        s.len() == k,
        forall|i: int| 0 <= i < k ==> #[trigger] s[i] == stride_iter(m, stride, start, i as nat),
{
    let n = s.len();
    if n < k {
        let c = stride_iter(m, stride, start, n);
        assert(m.edge_live(c));
        if n > 0 {
            assert(s.last() == stride_iter(m, stride, start, (n - 1) as nat));
        }
        assert(s.contains(c));
        let i = choose|i: int| 0 <= i < n && s[i] == c;
        assert(s[i] == stride_iter(m, stride, start, i as nat));
        assert(false);
    }
    if n > k {
        assert(s[k - 1] == stride_iter(m, stride, start, (k - 1) as nat));
        assert(false);
    }
}

/// The first `p` half-edges of the counter clockwise rotation from `start`.
pub open spec fn ccw_chain(m: &Mesh, start: EdgeIndex, p: nat) -> Seq<EdgeIndex> {
    Seq::new(p, |i: int| stride_iter(m, Stride::PrevTwin, start, i as nat))
}

/// Around a boundary vertex whose outgoing half-edges form an open fan (a
/// counter clockwise chain of `p` from `start` and a clockwise chain of `q`
/// from the other side of `start`, each ending on the boundary, with no
/// half-edge in both), the circulator yields exactly those `p + q`
/// half-edges, each once: first the counter clockwise chain, then the other.
pub proof fn lemma_one_ring_open_fan(m: &Mesh, start: EdgeIndex, p: nat, q: nat, s: Seq<EdgeIndex>)
    requires
        is_chain(m, start, Stride::PrevTwin, Seq::empty(), p),
        is_chain(m, stride_of(m, Stride::TwinNext, start), Stride::TwinNext, ccw_chain(m, start, p), q),
        is_one_ring(m, start, s),
    ensures
        s.len() == p + q,
        forall|i: int| 0 <= i < p ==> #[trigger] s[i] == stride_iter(m, Stride::PrevTwin, start, i as nat),
        forall|i: int|
            0 <= i < q ==> #[trigger] s[p + i] == stride_iter(
                m,
                Stride::TwinNext,
                stride_of(m, Stride::TwinNext, start),
                i as nat,
            ),
{
    let split = choose|split: int| #[trigger] one_ring_split(m, start, s, split);
    let ccw = s.subrange(0, split);
    let cw = s.subrange(split, s.len() as int);
    lemma_walk_chain(m, start, Stride::PrevTwin, Seq::empty(), p, ccw);
    assert(ccw =~= ccw_chain(m, start, p));
    assert(ccw.last() == stride_iter(m, Stride::PrevTwin, start, (p - 1) as nat));
    lemma_walk_chain(m, stride_of(m, Stride::TwinNext, start), Stride::TwinNext, ccw, q, cw);
    assert forall|i: int| 0 <= i < p implies #[trigger] s[i] == stride_iter(m, Stride::PrevTwin, start, i as nat) by {
        assert(s[i] == ccw[i]);
    }
    assert forall|i: int| 0 <= i < q implies #[trigger] s[p + i] == stride_iter(
        m,
        Stride::TwinNext,
        stride_of(m, Stride::TwinNext, start),
        i as nat,
    ) by {
        assert(s[p + i] == cw[i]);
    }
}

} // verus!
