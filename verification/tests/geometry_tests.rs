//! Geometry factory tests: exact vertex, UV and index data.

use scene2d::geometry::{quad, triangle, Vec2, Vertex, UNIT};

fn vert(px: i64, py: i64, ux: i64, uy: i64) -> Vertex {
    Vertex { pos: Vec2 { x: px, y: py }, uv: Vec2 { x: ux, y: uy } }
}

#[test]
fn quad_vertices_exact() {
    let m = quad(100, 200, 30, 40);
    assert_eq!(m.vertices.len(), 4);
    assert_eq!(m.vertices[0], vert(70, 160, 0, 0));
    assert_eq!(m.vertices[1], vert(130, 160, UNIT, 0));
    assert_eq!(m.vertices[2], vert(130, 240, UNIT, UNIT));
    assert_eq!(m.vertices[3], vert(70, 240, 0, UNIT));
    assert_eq!(m.indices, vec![0, 1, 2, 0, 2, 3]);
}

#[test]
fn quad_negative_center() {
    let m = quad(-400, -200, 50, 50);
    assert_eq!(m.vertices[0].pos, Vec2 { x: -450, y: -250 });
    assert_eq!(m.vertices[1].pos, Vec2 { x: -350, y: -250 });
    assert_eq!(m.vertices[2].pos, Vec2 { x: -350, y: -150 });
    assert_eq!(m.vertices[3].pos, Vec2 { x: -450, y: -150 });
}

#[test]
fn quad_degenerate_zero_extent() {
    let m = quad(5, 7, 0, 0);
    assert_eq!(m.vertices.len(), 4);
    for v in &m.vertices {
        assert_eq!(v.pos, Vec2 { x: 5, y: 7 });
    }
    assert_eq!(m.indices, vec![0, 1, 2, 0, 2, 3]);
}

#[test]
fn quad_extreme_inputs_do_not_overflow() {
    let m = quad(i32::MIN, i32::MIN, i32::MAX, i32::MAX);
    assert_eq!(m.vertices[0].pos.x, i32::MIN as i64 - i32::MAX as i64);
    assert_eq!(m.vertices[2].pos.x, i32::MIN as i64 + i32::MAX as i64);
}

#[test]
fn triangle_vertices_exact() {
    let m = triangle(-250, -200, 50, 50);
    assert_eq!(m.vertices.len(), 3);
    assert_eq!(m.vertices[0], vert(-300, -250, 0, 0));
    assert_eq!(m.vertices[1], vert(-200, -250, UNIT, 0));
    assert_eq!(m.vertices[2], vert(-250, -150, UNIT, UNIT));
    assert_eq!(m.indices, vec![0, 1, 2]);
}

#[test]
fn triangle_apex_centered() {
    let m = triangle(10, 20, 4, 6);
    assert_eq!(m.vertices[2].pos, Vec2 { x: 10, y: 26 });
    assert_eq!(m.vertices[0].pos, Vec2 { x: 6, y: 14 });
    assert_eq!(m.vertices[1].pos, Vec2 { x: 14, y: 14 });
}
