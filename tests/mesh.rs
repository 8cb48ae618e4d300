use std::collections::HashMap;

use hedge::{
    AddElement, CirculatorDirection, Edge, EdgeFnIterator, EdgeIndex, Face, FaceEdges, FaceIndex,
    FaceVertices, GetElement, GetElementMut, Handle, IsValid, Mesh, Point, PointIterator,
    RemoveElement, Storable, Vertex, VertexCirculator, VertexIndex,
};

/// Builds a mesh from triangles over `n` vertices. Shared edges get paired
/// half-edges; every other edge gets a boundary twin, linked into boundary loops.
fn build(
    mesh: &mut Mesh,
    n: usize,
    tris: &[[usize; 3]],
) -> (Vec<VertexIndex>, Vec<FaceIndex>, HashMap<(usize, usize), EdgeIndex>) {
    let verts: Vec<VertexIndex> = (0..n).map(|_| mesh.add(Vertex::default())).collect();
    let mut half: HashMap<(usize, usize), EdgeIndex> = HashMap::new();
    let mut faces = Vec::new();
    for t in tris {
        let es: Vec<EdgeIndex> =
            (0..3).map(|k| mesh.add(Edge::new(verts[t[k]]))).collect();
        let f = mesh.add(Face::new(es[0]));
        for k in 0..3 {
            mesh.connect_edges(es[k], es[(k + 1) % 3]);
            mesh.edge_mut(es[k]).unwrap().face_index = f;
            half.insert((t[k], t[(k + 1) % 3]), es[k]);
            mesh.vertex_mut(verts[t[k]]).unwrap().edge_index = es[k];
        }
        faces.push(f);
    }
    let inner: Vec<(usize, usize)> = half.keys().cloned().collect();
    let mut boundary: HashMap<usize, (usize, EdgeIndex)> = HashMap::new();
    for (a, b) in inner {
        if !half.contains_key(&(b, a)) {
            let e = mesh.add(Edge::new(verts[b]));
            half.insert((b, a), e);
            boundary.insert(b, (a, e));
        }
    }
    for (&a, &(b, e)) in boundary.iter() {
        let _ = a;
        let (_, next) = boundary[&b];
        mesh.connect_edges(e, next);
    }
    let keys: Vec<(usize, usize)> = half.keys().cloned().collect();
    for (a, b) in keys {
        let twin = half[&(b, a)];
        mesh.edge_mut(half[&(a, b)]).unwrap().twin_index = twin;
    }
    (verts, faces, half)
}

fn one_triangle() -> (Mesh, Vec<VertexIndex>, Vec<EdgeIndex>, FaceIndex) {
    let mut mesh = Mesh::new();
    let v1 = mesh.add(Vertex::default());
    let v2 = mesh.add(Vertex::default());
    let v3 = mesh.add(Vertex::default());
    let e1 = mesh.add(Edge::new(v1));
    let e2 = mesh.add(Edge::new(v2));
    let e3 = mesh.add(Edge::new(v3));
    mesh.connect_edges(e1, e2);
    mesh.connect_edges(e2, e3);
    mesh.connect_edges(e3, e1);
    let f = mesh.add(Face::new(e1));
    for e in [e1, e2, e3] {
        mesh.edge_mut(e).unwrap().face_index = f;
    }
    mesh.vertex_mut(v1).unwrap().edge_index = e1;
    mesh.vertex_mut(v2).unwrap().edge_index = e2;
    mesh.vertex_mut(v3).unwrap().edge_index = e3;
    (mesh, vec![v1, v2, v3], vec![e1, e2, e3], f)
}

#[test]
fn new_mesh_is_empty() {
    let mesh = Mesh::new();
    assert_eq!(mesh.vertex_count(), 0);
    assert_eq!(mesh.edge_count(), 0);
    assert_eq!(mesh.face_count(), 0);
    assert_eq!(mesh.point_count(), 0);
    assert_eq!(mesh.num_vertices(), 0);
    assert_eq!(mesh.num_edges(), 0);
    assert_eq!(mesh.num_faces(), 0);
    assert!(mesh.vertices().next().is_none());
    assert!(mesh.faces().next().is_none());
}

#[test]
fn triangle_face_scenario() {
    let (mut mesh, verts, edges, f) = one_triangle();
    assert_eq!(mesh.face_fn(f).edge().next().vertex().index, verts[1]);
    assert_eq!(mesh.vertex_count(), 3);
    assert_eq!(mesh.edge_count(), 3);
    assert_eq!(mesh.face_count(), 1);
    assert!(mesh.face_fn(f).is_valid());
    assert_eq!(mesh.edges(f), edges);
    assert_eq!(mesh.face_vertices(f), verts);
}

#[test]
fn removed_vertex_one_ring_is_empty() {
    let (mut mesh, verts, _, _) = one_triangle();
    let v = verts[0];
    RemoveElement::<Vertex>::remove(&mut mesh, v);
    assert!(mesh.edges_around_vertex(v).is_empty());
    let tag = mesh.next_tag();
    let mut circ = VertexCirculator::new(tag, mesh.vertex_fn(v));
    assert!(circ.next(&mut mesh).is_none());
}

#[test]
fn shared_edge_scenario() {
    let mut mesh = Mesh::new();
    let (_, faces, half) = build(&mut mesh, 4, &[[0, 1, 2], [1, 0, 3]]);
    let ab = half[&(0, 1)];
    let ba = half[&(1, 0)];
    assert_eq!(mesh.edge_fn(ab).twin().index, ba);
    assert_eq!(mesh.edge_fn(ba).twin().index, ab);
    assert_eq!(mesh.edge_fn(ab).face().index, faces[0]);
    assert_eq!(mesh.edge_fn(ba).face().index, faces[1]);
    assert_ne!(mesh.edge_fn(ab).face().index, mesh.edge_fn(ba).face().index);
    assert!(!mesh.is_boundary_edge(ab));
    assert!(!mesh.is_boundary_edge(ba));
    assert!(!mesh.edge_fn(ab).is_boundary());
}

#[test]
fn boundary_detection() {
    let mut mesh = Mesh::new();
    let (_, _, half) = build(&mut mesh, 4, &[[0, 1, 2], [1, 0, 3]]);
    // An outer edge of a face: its own face is valid, its twin's is not.
    assert!(mesh.is_boundary_edge(half[&(1, 2)]));
    // The boundary half-edge itself has no face.
    assert!(mesh.is_boundary_edge(half[&(2, 1)]));
    assert!(!mesh.edge_fn(half[&(2, 1)]).face().is_valid());
    // A sentinel half-edge counts as boundary.
    assert!(mesh.is_boundary_edge(Handle::default()));
}

#[test]
fn twin_involution_on_built_mesh() {
    let mut mesh = Mesh::new();
    let (_, _, half) = build(&mut mesh, 4, &[[0, 1, 2], [0, 2, 3], [0, 3, 1], [1, 3, 2]]);
    for (_, &e) in half.iter() {
        assert_eq!(mesh.edge_fn(e).twin().twin().index, e);
        assert!(mesh.edge_fn(e).is_valid());
    }
}

#[test]
fn loop_closure_on_quad() {
    let mut mesh = Mesh::new();
    let vs: Vec<VertexIndex> = (0..4).map(|_| mesh.add(Vertex::default())).collect();
    let es: Vec<EdgeIndex> = vs.iter().map(|&v| mesh.add(Edge::new(v))).collect();
    for k in 0..4 {
        mesh.connect_edges(es[k], es[(k + 1) % 4]);
    }
    let f = mesh.add(Face::new(es[0]));
    let walked = mesh.edges(f);
    assert_eq!(walked, es);
    let mut e = mesh.edge_fn(es[0]);
    for _ in 0..4 {
        e = e.next();
    }
    assert_eq!(e.index, es[0]);
    // A second pass draws a new tag and yields the same loop.
    assert_eq!(mesh.edges(f), es);
}

#[test]
fn face_loop_stops_at_broken_link() {
    let mut mesh = Mesh::new();
    let v = mesh.add(Vertex::default());
    let e1 = mesh.add(Edge::new(v));
    let e2 = mesh.add(Edge::new(v));
    mesh.connect_edges(e1, e2);
    let f = mesh.add(Face::new(e1));
    // e2's next is unset, so the walk ends after e2.
    assert_eq!(mesh.edges(f), vec![e1, e2]);
}

#[test]
fn step_walkers_match_collected_loop() {
    let (mut mesh, verts, edges, f) = one_triangle();
    let tag = mesh.next_tag();
    let root = mesh.face_fn(f).edge().index;
    let mut walk = FaceEdges::new(tag, root);
    let mut got = Vec::new();
    while let Some(e) = walk.next(&mut mesh) {
        got.push(e);
    }
    assert_eq!(got, edges);
    let tag = mesh.next_tag();
    let mut vwalk = FaceVertices::new(FaceEdges::new(tag, root));
    let mut vgot = Vec::new();
    while let Some(v) = vwalk.next(&mut mesh) {
        vgot.push(v);
    }
    assert_eq!(vgot, verts);
}

#[test]
fn one_ring_interior_vertex() {
    let mut mesh = Mesh::new();
    let (verts, _, half) = build(&mut mesh, 4, &[[0, 1, 2], [0, 2, 3], [0, 3, 1], [1, 3, 2]]);
    let ring = mesh.edges_around_vertex(verts[0]);
    assert_eq!(ring.len(), 3);
    let mut expected = vec![half[&(0, 1)], half[&(0, 2)], half[&(0, 3)]];
    let mut got = ring.clone();
    expected.sort_by_key(|h| h.index);
    got.sort_by_key(|h| h.index);
    assert_eq!(got, expected);
    for e in ring {
        assert_eq!(mesh.edge_fn(e).vertex().index, verts[0]);
    }
}

#[test]
fn one_ring_boundary_vertex() {
    let mut mesh = Mesh::new();
    let (verts, _, half) = build(&mut mesh, 4, &[[0, 1, 2], [1, 0, 3]]);
    mesh.vertex_mut(verts[0]).unwrap().edge_index = half[&(0, 1)];
    let ring = mesh.edges_around_vertex(verts[0]);
    assert_eq!(ring, vec![half[&(0, 1)], half[&(0, 2)], half[&(0, 3)]]);
}

#[test]
fn circulator_steps_through_both_directions() {
    let mut mesh = Mesh::new();
    let (verts, _, half) = build(&mut mesh, 4, &[[0, 1, 2], [1, 0, 3]]);
    mesh.vertex_mut(verts[0]).unwrap().edge_index = half[&(0, 1)];
    let tag = mesh.next_tag();
    let mut circ = VertexCirculator::new(tag, mesh.vertex_fn(verts[0]));
    assert_eq!(circ.direction, CirculatorDirection::CCW);
    assert_eq!(circ.next(&mut mesh), Some(half[&(0, 1)]));
    assert_eq!(circ.next(&mut mesh), Some(half[&(0, 2)]));
    assert_eq!(circ.direction, CirculatorDirection::CW);
    assert_eq!(circ.next(&mut mesh), Some(half[&(0, 3)]));
    assert_eq!(circ.next(&mut mesh), None);
    assert_eq!(circ.next(&mut mesh), None);
}

#[test]
fn round_trip_point_payload() {
    let mut mesh = Mesh::new();
    let p = Point::new(1, 2, 3);
    let h = mesh.add(p);
    assert_eq!(*mesh.point(h), p);
    let other = mesh.add(Point::new(7, 8, 9));
    RemoveElement::<Point>::remove(&mut mesh, other);
    let _ = mesh.add(Vertex::default());
    let got: &Point = mesh.get(h);
    assert_eq!(*got, p);
    let q: Option<&mut Point> = mesh.get_mut(h);
    q.unwrap().x_bits = 10;
    assert_eq!(*mesh.point(h), Point::new(10, 2, 3));
}

#[test]
fn removal_invalidates_handle() {
    let mut mesh = Mesh::new();
    let e = mesh.add(Edge::new(Handle::new(5, 0)));
    assert!(mesh.is_edge_live(e));
    RemoveElement::<Edge>::remove(&mut mesh, e);
    assert!(!mesh.is_edge_live(e));
    assert!(mesh.edge_mut(e).is_none());
    let got: Option<&mut Edge> = mesh.get_mut(e);
    assert!(got.is_none());
    assert_eq!(*mesh.edge(e), Edge::default());
    // Removing again does nothing.
    RemoveElement::<Edge>::remove(&mut mesh, e);
    assert!(!mesh.is_edge_live(e));
}

#[test]
fn slot_reuse_bumps_generation() {
    let mut mesh = Mesh::new();
    let a = mesh.add(Face::new(Handle::default()));
    RemoveElement::<Face>::remove(&mut mesh, a);
    let b = mesh.add(Face::new(Handle::new(3, 0)));
    assert_eq!(b.index, a.index);
    assert_eq!(b.generation, a.generation + 1);
    assert!(!mesh.is_face_live(a));
    assert!(mesh.is_face_live(b));
    assert_eq!(mesh.face(a).edge_index, Handle::default());
    assert_eq!(mesh.face(b).edge_index, Handle::new(3, 0));
    assert_eq!(mesh.face_count(), 1);
}

#[test]
fn sentinel_is_never_live() {
    let mut mesh = Mesh::new();
    let h = Handle::default();
    assert!(!h.is_valid());
    assert_eq!(h, Handle::invalid());
    assert!(!mesh.is_vertex_live(h));
    assert!(!mesh.is_edge_live(h));
    assert!(!mesh.is_face_live(h));
    assert!(mesh.vertex_mut(h).is_none());
    assert!(mesh.face_mut(h).is_none());
    assert_eq!(*mesh.vertex(h), Vertex::default());
    assert_eq!(*mesh.point(h), Point::default());
    let v = mesh.add(Vertex::default());
    assert!(v.is_valid());
    assert_ne!(v.index, 0);
    assert!(!mesh.vertex_fn(h).is_valid());
    assert!(!mesh.edge_fn(h).next().twin().is_valid());
    assert_eq!(mesh.edge_fn(h).next().index, Handle::default());
}

#[test]
fn enumerators_skip_removed() {
    let mut mesh = Mesh::new();
    let a = mesh.add(Vertex::default());
    let b = mesh.add(Vertex::default());
    let c = mesh.add(Vertex::default());
    RemoveElement::<Vertex>::remove(&mut mesh, b);
    let mut it = mesh.vertices();
    let mut seen = Vec::new();
    while let Some(v) = it.next() {
        seen.push(v.index);
    }
    assert_eq!(seen, vec![a, c]);

    let e1 = mesh.add(Edge::default());
    let e2 = mesh.add(Edge::default());
    RemoveElement::<Edge>::remove(&mut mesh, e1);
    let mut eit = EdgeFnIterator::new(&mesh);
    assert_eq!(eit.next().map(|e| e.index), Some(e2));
    assert!(eit.next().is_none());

    let p = mesh.add(Point::new(4, 5, 6));
    let mut pit = PointIterator::new(&mesh);
    assert_eq!(pit.next(), Some(&Point::new(4, 5, 6)));
    assert!(pit.next().is_none());
    let _ = p;

    let f = mesh.add(Face::default());
    let mut fit = mesh.faces();
    assert_eq!(fit.next().map(|x| x.index), Some(f));
    assert!(fit.next().is_none());
}

#[test]
fn make_handle_and_tags() {
    let h = <Vertex as Storable>::make_handle(4, 2);
    assert_eq!(h, Handle::new(4, 2));
    let mut mesh = Mesh::new();
    let t1 = mesh.next_tag();
    let t2 = mesh.next_tag();
    assert!(t2 > t1);
}

#[test]
fn foreach_edge_mut_edits_the_loop_only() {
    let (mut mesh, _, edges, _) = one_triangle();
    let stray = mesh.add(Edge::default());
    let f2 = Handle::new(9, 1);
    mesh.foreach_edge_mut(edges[1], |mut e: Edge| {
        e.face_index = f2;
        e
    });
    for e in &edges {
        assert_eq!(mesh.edge(*e).face_index, f2);
    }
    assert_eq!(mesh.edge(stray).face_index, Handle::default());
    // The loop itself is unchanged.
    assert_eq!(mesh.edge_loop(edges[0]), edges);
}

#[test]
fn enumeration_does_not_restart() {
    let mut mesh = Mesh::new();
    let a = mesh.add(Vertex::default());
    let mut it = mesh.vertices();
    assert_eq!(it.next().map(|v| v.index), Some(a));
    assert!(it.next().is_none());
    assert!(it.next().is_none());
    let mut fit = mesh.faces();
    assert!(fit.next().is_none());
    assert!(fit.next().is_none());
}

#[test]
fn tags_are_consecutive_and_nonzero() {
    let mut mesh = Mesh::new();
    let t1 = mesh.next_tag();
    let t2 = mesh.next_tag();
    assert!(t1 >= 1);
    assert_eq!(t2, t1 + 1);
}
