//! The records held by the mesh's buffers.
use vstd::prelude::*;
use crate::handle::{Handle, Index, Generation, EdgeIndex, FaceIndex, VertexIndex, PointIndex, Storable};

verus! {

/// Positional payload of a vertex. The coordinates are kept as the raw bits
/// of single-precision numbers: the kernel stores them and never reads them.
#[derive(Clone, Copy, Debug, PartialEq, Eq, Structural)]
pub struct Point {
    pub x_bits: u32,
    pub y_bits: u32,
    pub z_bits: u32,
}

/// A vertex: one outgoing half-edge and the point that places it.
#[derive(Clone, Copy, Debug, PartialEq, Eq, Structural)]
pub struct Vertex {
    pub edge_index: EdgeIndex,
    pub point_index: PointIndex,
}

/// A directed half-edge. `face_index` is the sentinel for a boundary half-edge.
#[derive(Clone, Copy, Debug, PartialEq, Eq, Structural)]
pub struct Edge {
    pub twin_index: EdgeIndex,
    pub next_index: EdgeIndex,
    pub prev_index: EdgeIndex,
    pub vertex_index: VertexIndex,
    pub face_index: FaceIndex,
}

/// A face, defined by the loop of half-edges that starts at `edge_index`.
#[derive(Clone, Copy, Debug, PartialEq, Eq, Structural)]
pub struct Face {
    pub edge_index: EdgeIndex,
}

impl Point {
    pub open spec fn default_spec() -> Point {
        Point { x_bits: 0, y_bits: 0, z_bits: 0 }
    }

    pub fn new(x_bits: u32, y_bits: u32, z_bits: u32) -> (r: Point)
        ensures
            r == (Point { x_bits, y_bits, z_bits }),
    {
        Point { x_bits, y_bits, z_bits }
    }
}

impl Vertex {
    pub open spec fn default_spec() -> Vertex {
        Vertex { edge_index: Handle::sentinel(), point_index: Handle::sentinel() }
    }

    /// A vertex placed at `point_index` whose outgoing half-edge is set later.
    pub fn new(point_index: PointIndex) -> (r: Vertex)
        ensures
            r == (Vertex { edge_index: Handle::sentinel(), point_index }),
    {
        Vertex { edge_index: Handle::invalid(), point_index }
    }
}

impl Edge {
    pub open spec fn default_spec() -> Edge {
        Edge {
            twin_index: Handle::sentinel(),
            next_index: Handle::sentinel(),
            prev_index: Handle::sentinel(),
            vertex_index: Handle::sentinel(),
            face_index: Handle::sentinel(),
        }
    }

    /// A half-edge leaving `vertex_index`, not yet linked to anything else.
    pub fn new(vertex_index: VertexIndex) -> (r: Edge)
        ensures
            r == (Edge { vertex_index, ..Edge::default_spec() }),
    {
        Edge {
            twin_index: Handle::invalid(),
            next_index: Handle::invalid(),
            prev_index: Handle::invalid(),
            vertex_index,
            face_index: Handle::invalid(),
        }
    }
}

impl Face {
    pub open spec fn default_spec() -> Face {
        Face { edge_index: Handle::sentinel() }
    }

    /// A face whose loop starts at `edge_index`.
    pub fn new(edge_index: EdgeIndex) -> (r: Face)
        ensures
            r.edge_index == edge_index,
    {
        Face { edge_index }
    }
}

impl Default for Point {
    fn default() -> (r: Point)
        ensures
            r == Point::default_spec(),
    {
        Point { x_bits: 0, y_bits: 0, z_bits: 0 }
    }
}

impl Default for Vertex {
    fn default() -> (r: Vertex)
        ensures
            r == Vertex::default_spec(),
    {
        Vertex::new(Handle::invalid())
    }
}

impl Default for Edge {
    fn default() -> (r: Edge)
        ensures
            r == Edge::default_spec(),
    {
        Edge::new(Handle::invalid())
    }
}

impl Default for Face {
    fn default() -> (r: Face)
        ensures
            r == Face::default_spec(),
    {
        Face::new(Handle::invalid())
    }
}

impl Storable for Point {
    fn make_handle(index: Index, generation: Generation) -> (h: Handle) {
        Handle::new(index, generation)
    }
}

impl Storable for Vertex {
    fn make_handle(index: Index, generation: Generation) -> (h: Handle) {
        Handle::new(index, generation)
    }
}

impl Storable for Edge {
    fn make_handle(index: Index, generation: Generation) -> (h: Handle) {
        Handle::new(index, generation)
    }
}

impl Storable for Face {
    fn make_handle(index: Index, generation: Generation) -> (h: Handle) {
        Handle::new(index, generation)
    }
}

} // verus!
