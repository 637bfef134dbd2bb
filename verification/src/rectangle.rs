//! An axis-aligned rectangle and its expansion into the four vertices and
//! six indices of a two-triangle quad.
//!
//! Coordinates are plain integers in scene units; the shell scales them to
//! the float clip-space values its vertex buffers hold. Texture coordinates
//! only ever take the corner values zero and one.

use vstd::prelude::*;

verus! {

/// One vertex of a quad: a position in scene units and the texture
/// coordinates of the corner it maps to.
#[derive(Clone, Copy, Debug, PartialEq, Eq, Structural)]
pub struct Vertex {
    pub x: i64,
    pub y: i64,
    pub u: u8,
    pub v: u8,
}

/// An axis-aligned rectangle, anchored at its top-left corner and extending
/// right by `width` and down by `height`.
#[derive(Clone, Copy, Debug, PartialEq, Eq, Structural)]
pub struct Rectangle {
    pub top: i64,
    pub left: i64,
    pub height: i64,
    pub width: i64,
}

impl Rectangle {
    /// The four corners in order: top-left, bottom-left, bottom-right,
    /// top-right, each carrying the texture coordinates of its corner
    /// (texture v grows downward).
    pub open spec fn vertices_spec(self) -> Seq<Vertex> {
        seq![
            Vertex { x: self.left, y: self.top, u: 0, v: 0 },
            Vertex { x: self.left, y: (self.top - self.height) as i64, u: 0, v: 1 },
            Vertex {
                x: (self.left + self.width) as i64,
                y: (self.top - self.height) as i64,
                u: 1,
                v: 1,
            },
            Vertex { x: (self.left + self.width) as i64, y: self.top, u: 1, v: 0 },
        ]
    }

    /// Expand the rectangle into its four corner vertices.
    pub fn create_vertices(&self) -> (r: Vec<Vertex>)
        requires
            self.width >= 0,
            self.height >= 0,
            self.left + self.width <= i64::MAX,
            self.top - self.height >= i64::MIN,
        ensures
            r@ == self.vertices_spec(),
    {
        let mut vertices: Vec<Vertex> = Vec::new();
        vertices.push(Vertex { x: self.left, y: self.top, u: 0, v: 0 });
        vertices.push(Vertex { x: self.left, y: self.top - self.height, u: 0, v: 1 });
        vertices.push(
            Vertex { x: self.left + self.width, y: self.top - self.height, u: 1, v: 1 },
        );
        vertices.push(Vertex { x: self.left + self.width, y: self.top, u: 1, v: 0 });
        proof {
            assert(vertices@ =~= self.vertices_spec());
        }
        vertices
    }

    /// The index list that stitches the four corners into two triangles
    /// covering the quad.
    pub fn get_indices() -> (r: Vec<u16>)
        ensures
            r@ == seq![0u16, 1u16, 2u16, 0u16, 2u16, 3u16],
    {
        let indices: Vec<u16> = vec![0, 1, 2, 0, 2, 3];
        proof {
            assert(indices@ =~= seq![0u16, 1u16, 2u16, 0u16, 2u16, 3u16]);
        }
        indices
    }
}

} // verus!
