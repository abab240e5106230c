//! Triangles, and the primitives that a mesh backend adds to a scene.
use crate::color::Color;
use crate::damage::Damage;
use crate::geometry::{Point, Rectangle, Size};
use crate::scalar::Scalar;
use vstd::prelude::*;

verus! {

/// The graphical primitives of a backend that draws meshes.
pub type Primitive<N> = crate::primitive::Primitive<Custom<N>, N>;

/// A corner of a triangle.
#[derive(Clone, Copy, Debug, PartialEq)]
pub struct Vertex<N> {
    /// Where the corner is.
    pub position: Point<N>,
    /// The colour at the corner.
    pub color: Color<N>,
}

/// A set of triangles.
#[derive(Clone, Debug, PartialEq)]
pub struct Mesh<N> {
    /// The corners of the triangles.
    pub vertices: Vec<Vertex<N>>,
    /// The triangles: every three numbers name the corners of one.
    pub indices: Vec<u32>,
    /// The size of the drawable region of the mesh. Anything outside of it
    /// is clipped.
    pub size: Size<N>,
}

impl<N: Scalar + PartialEq> Damage<N> for Mesh<N> {
    /// The drawable region of the mesh, from the origin.
    open spec fn region(&self) -> Rectangle<N> {
        Rectangle {
            x: N::integer(0),
            y: N::integer(0),
            width: self.size.width,
            height: self.size.height,
        }
    }

    fn bounds(&self) -> (bounds: Rectangle<N>) {
        Rectangle::with_size(self.size)
    }
}

/// The custom primitives of a backend that draws meshes.
#[derive(Clone, Debug, PartialEq)]
pub enum Custom<N> {
    /// A mesh primitive.
    Mesh(Mesh<N>),
}

impl<N: Scalar + PartialEq> Damage<N> for Custom<N> {
    /// The region of the primitive that is held.
    open spec fn region(&self) -> Rectangle<N> {
        match self {
            Custom::Mesh(mesh) => mesh.region(),
        }
    }

    fn bounds(&self) -> (bounds: Rectangle<N>) {
        match self {
            Custom::Mesh(mesh) => mesh.bounds(),
        }
    }
}

} // verus!
