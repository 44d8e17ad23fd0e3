//! The startup composition: the meshes and the scene the stage shows at
//! launch — one cream-colored background, one green triangle, one green
//! square, in that paint order. The host uploads the meshes, compiles the
//! pipelines, and hands the resulting handles to [`default_scene`].

use vstd::prelude::*;

use crate::background::Background;
use crate::color::ColorView;
use crate::context::{Bindings, Pipeline};
use crate::geometry::{quad, triangle, Mesh, Vec2, UNIT};
use crate::input::KeyCode;
use crate::scene::{Scene, SceneShape};
use crate::shape::{ShapeKindView, ShapeView};
use crate::square::Square;
use crate::triangle::{Triangle, TriangleModelView};

verus! {

/// The target frame rate of the stage.
pub const DEFAULT_FPS: u8 = 60;

/// The background mesh: a quad over the whole viewport, centered at the
/// origin with half extents of one unit.
pub fn background_mesh() -> (m: Mesh)
    ensures
        m.vertices@.len() == 4,
        m.vertices@[0].pos == (Vec2 { x: -1000i64, y: -1000i64 }),
        m.vertices@[1].pos == (Vec2 { x: 1000i64, y: -1000i64 }),
        m.vertices@[2].pos == (Vec2 { x: 1000i64, y: 1000i64 }),
        m.vertices@[3].pos == (Vec2 { x: -1000i64, y: 1000i64 }),
        m.vertices@[0].uv == (Vec2 { x: 0i64, y: 0i64 }),
        m.vertices@[1].uv == (Vec2 { x: UNIT, y: 0i64 }),
        m.vertices@[2].uv == (Vec2 { x: UNIT, y: UNIT }),
        m.vertices@[3].uv == (Vec2 { x: 0i64, y: UNIT }),
        m.indices@ == seq![0u16, 1u16, 2u16, 0u16, 2u16, 3u16],
{
    quad(0, 0, 1000, 1000)
}

/// The green triangle's mesh: centered at `(-0.25, -0.2)` with half extents
/// of `0.05`, in fixed-point thousandths.
pub fn triangle_mesh() -> (m: Mesh)
    ensures
        m.vertices@.len() == 3,
        m.vertices@[0].pos == (Vec2 { x: -300i64, y: -250i64 }),
        m.vertices@[1].pos == (Vec2 { x: -200i64, y: -250i64 }),
        m.vertices@[2].pos == (Vec2 { x: -250i64, y: -150i64 }),
        m.vertices@[0].uv == (Vec2 { x: 0i64, y: 0i64 }),
        m.vertices@[1].uv == (Vec2 { x: UNIT, y: 0i64 }),
        m.vertices@[2].uv == (Vec2 { x: UNIT, y: UNIT }),
        m.indices@ == seq![0u16, 1u16, 2u16],
{
    triangle(-250, -200, 50, 50)
}

/// The green square's mesh: centered at `(-0.4, -0.2)` with half extents of
/// `0.05`, in fixed-point thousandths.
pub fn square_mesh() -> (m: Mesh)
    ensures
        m.vertices@.len() == 4,
        m.vertices@[0].pos == (Vec2 { x: -450i64, y: -250i64 }),
        m.vertices@[1].pos == (Vec2 { x: -350i64, y: -250i64 }),
        m.vertices@[2].pos == (Vec2 { x: -350i64, y: -150i64 }),
        m.vertices@[3].pos == (Vec2 { x: -450i64, y: -150i64 }),
        m.vertices@[0].uv == (Vec2 { x: 0i64, y: 0i64 }),
        m.vertices@[1].uv == (Vec2 { x: UNIT, y: 0i64 }),
        m.vertices@[2].uv == (Vec2 { x: UNIT, y: UNIT }),
        m.vertices@[3].uv == (Vec2 { x: 0i64, y: UNIT }),
        m.indices@ == seq![0u16, 1u16, 2u16, 0u16, 2u16, 3u16],
{
    quad(-400, -200, 50, 50)
}

/// The scene the stage shows at launch, given the uploaded handles for its
/// three shapes: the cream background first, then the green triangle, then
/// the green square — order is the paint order.
pub fn default_scene(
    background_bindings: Bindings,
    background_pipeline: Pipeline,
    triangle_bindings: Bindings,
    triangle_pipeline: Pipeline,
    square_bindings: Bindings,
    square_pipeline: Pipeline,
) -> (s: Scene)
    ensures
        s@.len() == 3,
        s@[0] == (ShapeView {
            bindings: background_bindings@,
            pipeline: background_pipeline,
            segments: 6,
            kind: ShapeKindView::Background {
                square_color: ColorView { red: 1000, green: 937, blue: 835 },
                color: ColorView { red: 1000, green: 937, blue: 835 },
            },
        }),
        s@[1] == (ShapeView {
            bindings: triangle_bindings@,
            pipeline: triangle_pipeline,
            segments: 3,
            kind: ShapeKindView::Triangle {
                model: TriangleModelView {
                    red: 0,
                    green: 1000,
                    blue: 0,
                    offset_x: 0,
                    offset_y: 0,
                    keys: Seq::<KeyCode>::empty(),
                },
            },
        }),
        s@[2] == (ShapeView {
            bindings: square_bindings@,
            pipeline: square_pipeline,
            segments: 6,
            kind: ShapeKindView::Square {
                color: ColorView { red: 0, green: 1000, blue: 0 },
            },
        }),
{
    let background = Background::new(background_bindings, background_pipeline, 1000, 937, 835);
    let green_triangle = Triangle::new(triangle_bindings, triangle_pipeline, 0, 1000, 0);
    let green_square = Square::new(square_bindings, square_pipeline, 0, 1000, 0);

    let mut s = Scene::new();
    s.push(SceneShape::Background(background));
    s.push(SceneShape::Triangle(green_triangle));
    s.push(SceneShape::Square(green_square));
    s
}

} // verus!
