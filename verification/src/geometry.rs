//! Mesh data for the built-in primitive shapes.
//!
//! Positions and texture coordinates are fixed-point values in thousandths of
//! a unit: `UNIT` stands for `1.0`. Producing vertex lists is pure integer
//! arithmetic; inputs are `i32` and vertex coordinates are `i64`, so no input
//! can overflow and degenerate (zero-extent) shapes are accepted.

use vstd::prelude::*;

verus! {

/// One whole unit in the fixed-point coordinate scale (represents `1.0`).
pub const UNIT: i64 = 1000;

/// A two-dimensional fixed-point vector.
#[derive(Clone, Copy, PartialEq, Eq, Structural, Debug)]
pub struct Vec2 {
    pub x: i64,
    pub y: i64,
}

/// One mesh vertex: a position and a texture coordinate, both fixed point.
#[derive(Clone, Copy, PartialEq, Eq, Structural, Debug)]
pub struct Vertex {
    pub pos: Vec2,
    pub uv: Vec2,
}

/// Vertex and index data for one shape outline. Indices reference vertices by
/// position and describe a triangle list.
pub struct Mesh {
    pub vertices: Vec<Vertex>,
    pub indices: Vec<u16>,
}

/// Four corner vertices of an axis-aligned quad centered at
/// `(center_x, center_y)` with the given half extents, UV corners mapped to
/// the unit square, and the two triangles `[0,1,2]` and `[0,2,3]` sharing the
/// diagonal between corners 0 and 2.
pub fn quad(center_x: i32, center_y: i32, half_width: i32, half_height: i32) -> (m: Mesh)
    ensures
        m.vertices@.len() == 4,
        m.vertices@[0].pos.x == center_x - half_width,
        m.vertices@[0].pos.y == center_y - half_height,
        m.vertices@[0].uv == (Vec2 { x: 0, y: 0 }),
        m.vertices@[1].pos.x == center_x + half_width,
        m.vertices@[1].pos.y == center_y - half_height,
        m.vertices@[1].uv == (Vec2 { x: UNIT, y: 0 }),
        m.vertices@[2].pos.x == center_x + half_width,
        m.vertices@[2].pos.y == center_y + half_height,
        m.vertices@[2].uv == (Vec2 { x: UNIT, y: UNIT }),
        m.vertices@[3].pos.x == center_x - half_width,
        m.vertices@[3].pos.y == center_y + half_height,
        m.vertices@[3].uv == (Vec2 { x: 0, y: UNIT }),
        m.indices@ == seq![0u16, 1u16, 2u16, 0u16, 2u16, 3u16],
{
    let cx: i64 = center_x as i64;
    let cy: i64 = center_y as i64;
    let hw: i64 = half_width as i64;
    let hh: i64 = half_height as i64;

    let mut vertices: Vec<Vertex> = Vec::new();
    vertices.push(Vertex { pos: Vec2 { x: cx - hw, y: cy - hh }, uv: Vec2 { x: 0, y: 0 } });
    vertices.push(Vertex { pos: Vec2 { x: cx + hw, y: cy - hh }, uv: Vec2 { x: UNIT, y: 0 } });
    vertices.push(Vertex { pos: Vec2 { x: cx + hw, y: cy + hh }, uv: Vec2 { x: UNIT, y: UNIT } });
    vertices.push(Vertex { pos: Vec2 { x: cx - hw, y: cy + hh }, uv: Vec2 { x: 0, y: UNIT } });

    let mut indices: Vec<u16> = Vec::new();
    indices.push(0);
    indices.push(1);
    indices.push(2);
    indices.push(0);
    indices.push(2);
    indices.push(3);

    proof {
        assert(indices@ =~= seq![0u16, 1u16, 2u16, 0u16, 2u16, 3u16]);
    }

    Mesh { vertices, indices }
}

/// Three vertices of an isosceles triangle: bottom-left, bottom-right, and
/// the apex centered above, with indices `[0,1,2]`.
pub fn triangle(center_x: i32, center_y: i32, half_width: i32, half_height: i32) -> (m: Mesh)
    ensures
        m.vertices@.len() == 3,
        m.vertices@[0].pos.x == center_x - half_width,
        m.vertices@[0].pos.y == center_y - half_height,
        m.vertices@[0].uv == (Vec2 { x: 0, y: 0 }),
        m.vertices@[1].pos.x == center_x + half_width,
        m.vertices@[1].pos.y == center_y - half_height,
        m.vertices@[1].uv == (Vec2 { x: UNIT, y: 0 }),
        m.vertices@[2].pos.x == center_x,
        m.vertices@[2].pos.y == center_y + half_height,
        m.vertices@[2].uv == (Vec2 { x: UNIT, y: UNIT }),
        m.indices@ == seq![0u16, 1u16, 2u16],
{
    let cx: i64 = center_x as i64;
    let cy: i64 = center_y as i64;
    let hw: i64 = half_width as i64;
    let hh: i64 = half_height as i64;

    let mut vertices: Vec<Vertex> = Vec::new();
    vertices.push(Vertex { pos: Vec2 { x: cx - hw, y: cy - hh }, uv: Vec2 { x: 0, y: 0 } });
    vertices.push(Vertex { pos: Vec2 { x: cx + hw, y: cy - hh }, uv: Vec2 { x: UNIT, y: 0 } });
    vertices.push(Vertex { pos: Vec2 { x: cx, y: cy + hh }, uv: Vec2 { x: UNIT, y: UNIT } });

    let mut indices: Vec<u16> = Vec::new();
    indices.push(0);
    indices.push(1);
    indices.push(2);

    proof {
        assert(indices@ =~= seq![0u16, 1u16, 2u16]);
    }

    Mesh { vertices, indices }
}

} // verus!
