//! An index based half-edge mesh: generational element buffers, the half-edge
//! connectivity model, navigation cursors and tag-stamped traversals.
pub mod handle;
pub mod buffer;
pub mod elements;
pub mod mesh;
pub mod traits;
pub mod cursors;
pub mod iterators;

pub use handle::{
    Handle, VertexIndex, EdgeIndex, FaceIndex, PointIndex, IsValid, Storable, ElementStatus,
    ElementProperties, Index, Generation, Tag,
};
pub use buffer::{Slot, ElementBuffer};
pub use elements::{Point, Vertex, Edge, Face};
pub use mesh::{Kernel, Mesh};
pub use traits::{ElementStore, AddElement, RemoveElement, GetElement, GetElementMut, MakeFace};
pub use cursors::{VertexFn, EdgeFn, FaceFn};
pub use iterators::{
    Stride, VertexFnIterator, FaceFnIterator, EdgeFnIterator, PointIterator, FaceEdges,
    FaceVertices, CirculatorDirection, VertexCirculator,
};
