//! Navigation cursors: a handle paired with the mesh it points into.
//!
//! Every step is total: from a handle that is not live a step lands on the
//! sentinel handle, so chains of steps carry invalidity along.
use vstd::prelude::*;
use crate::handle::{EdgeIndex, FaceIndex, VertexIndex};
use crate::elements::{Edge, Face, Vertex};
use crate::mesh::Mesh;

verus! {

/// Cursor on a vertex.
#[derive(Clone, Copy)]
pub struct VertexFn<'mesh> {
    pub index: VertexIndex,
    pub mesh: &'mesh Mesh,
}

/// Cursor on a half-edge.
#[derive(Clone, Copy)]
pub struct EdgeFn<'mesh> {
    pub index: EdgeIndex,
    pub mesh: &'mesh Mesh,
}

/// Cursor on a face.
#[derive(Clone, Copy)]
pub struct FaceFn<'mesh> {
    pub index: FaceIndex,
    pub mesh: &'mesh Mesh,
}

impl<'mesh> VertexFn<'mesh> {
    pub fn new(index: VertexIndex, mesh: &'mesh Mesh) -> (r: VertexFn<'mesh>)
        ensures
            r.index == index,
            r.mesh == mesh,
    {
        VertexFn { index, mesh }
    }

    /// The vertex under the cursor, or the sentinel vertex.
    pub fn element(&self) -> (r: &'mesh Vertex)
        requires
            self.mesh.wf(),
        ensures
            *r == self.mesh.vertex_at(self.index),
    {
        self.mesh.vertex(self.index)
    }

    /// The vertex's outgoing half-edge.
    pub fn edge(&self) -> (r: EdgeFn<'mesh>)
        requires
            self.mesh.wf(),
        ensures
            r.index == self.mesh.vertex_at(self.index).edge_index,
            r.mesh == self.mesh,
    {
        EdgeFn::new(self.mesh.vertex(self.index).edge_index, self.mesh)
    }

    /// A live vertex whose outgoing half-edge is live.
    pub fn is_valid(&self) -> (r: bool)
        requires
            self.mesh.wf(),
        ensures
            r == self.mesh.vertex_valid(self.index),
    {
        self.mesh.is_vertex_valid(self.index)
    }
}

impl<'mesh> EdgeFn<'mesh> {
    pub fn new(index: EdgeIndex, mesh: &'mesh Mesh) -> (r: EdgeFn<'mesh>)
        ensures
            r.index == index,
            r.mesh == mesh,
    {
        EdgeFn { index, mesh }
    }

    /// The half-edge under the cursor, or the sentinel half-edge.
    pub fn element(&self) -> (r: &'mesh Edge)
        requires
            self.mesh.wf(),
        ensures
            *r == self.mesh.edge_at(self.index),
    {
        self.mesh.edge(self.index)
    }

    /// The following half-edge of the face loop.
    pub fn next(&self) -> (r: EdgeFn<'mesh>)
        requires
            self.mesh.wf(),
        ensures
            r.index == self.mesh.next_of(self.index),
            r.mesh == self.mesh,
    {
        EdgeFn::new(self.mesh.edge(self.index).next_index, self.mesh)
    }

    /// The preceding half-edge of the face loop.
    pub fn prev(&self) -> (r: EdgeFn<'mesh>)
        requires
            self.mesh.wf(),
        ensures
            r.index == self.mesh.prev_of(self.index),
            r.mesh == self.mesh,
    {
        EdgeFn::new(self.mesh.edge(self.index).prev_index, self.mesh)
    }

    /// The opposite half-edge.
    pub fn twin(&self) -> (r: EdgeFn<'mesh>)
        requires
            self.mesh.wf(),
        ensures
            r.index == self.mesh.twin_of(self.index),
            r.mesh == self.mesh,
    {
        EdgeFn::new(self.mesh.edge(self.index).twin_index, self.mesh)
    }

    /// The vertex the half-edge leaves from.
    pub fn vertex(&self) -> (r: VertexFn<'mesh>)
        requires
            self.mesh.wf(),
        ensures
            r.index == self.mesh.origin_of(self.index),
            r.mesh == self.mesh,
    {
        VertexFn::new(self.mesh.edge(self.index).vertex_index, self.mesh)
    }

    /// The face the half-edge bounds; not valid for a boundary half-edge.
    pub fn face(&self) -> (r: FaceFn<'mesh>)
        requires
            self.mesh.wf(),
        ensures
            r.index == self.mesh.face_of(self.index),
            r.mesh == self.mesh,
    {
        FaceFn::new(self.mesh.edge(self.index).face_index, self.mesh)
    }

    /// Whether the half-edge's face or its twin's face is not valid.
    pub fn is_boundary(&self) -> (r: bool)
        requires
            self.mesh.wf(),
        ensures
            r == self.mesh.is_boundary_spec(self.index),
    {
        self.mesh.is_boundary_edge(self.index)
    }

    /// A live half-edge whose twin and origin are live.
    pub fn is_valid(&self) -> (r: bool)
        requires
            self.mesh.wf(),
        ensures
            r == self.mesh.edge_valid(self.index),
    {
        self.mesh.is_edge_valid(self.index)
    }
}

impl<'mesh> FaceFn<'mesh> {
    pub fn new(index: FaceIndex, mesh: &'mesh Mesh) -> (r: FaceFn<'mesh>)
        ensures
            r.index == index,
            r.mesh == mesh,
    {
        FaceFn { index, mesh }
    }

    /// The face under the cursor, or the sentinel face.
    pub fn element(&self) -> (r: &'mesh Face)
        requires
            self.mesh.wf(),
        ensures
            *r == self.mesh.face_at(self.index),
    {
        self.mesh.face(self.index)
    }

    /// The root half-edge of the face's loop.
    pub fn edge(&self) -> (r: EdgeFn<'mesh>)
        requires
            self.mesh.wf(),
        ensures
            r.index == self.mesh.face_at(self.index).edge_index,
            r.mesh == self.mesh,
    {
        EdgeFn::new(self.mesh.face(self.index).edge_index, self.mesh)
    }

    /// A live face whose root half-edge is live.
    pub fn is_valid(&self) -> (r: bool)
        requires
            self.mesh.wf(),
        ensures
            r == self.mesh.face_valid(self.index),
    {
        self.mesh.is_face_valid(self.index)
    }
}

impl Mesh {
    /// A cursor on face `index`.
    pub fn face_fn(&self, index: FaceIndex) -> (r: FaceFn<'_>)
        ensures
            r.index == index,
            r.mesh == self,
    {
        FaceFn::new(index, self)
    }

    /// A cursor on half-edge `index`.
    pub fn edge_fn(&self, index: EdgeIndex) -> (r: EdgeFn<'_>)
        ensures
            r.index == index,
            r.mesh == self,
    {
        EdgeFn::new(index, self)
    }

    /// A cursor on vertex `index`.
    pub fn vertex_fn(&self, index: VertexIndex) -> (r: VertexFn<'_>)
        ensures
            r.index == index,
            r.mesh == self,
    {
        VertexFn::new(index, self)
    }
}

} // verus!
