//! The key-controlled triangle: the one shape with per-frame animation.
//!
//! Each `draw` call advances the model before pushing uniforms: every held
//! directional key adds one `ACCEL` to the offset on its axis (up and right
//! positive, down and left negative; a diagonal is the plain vector sum, not
//! normalized), and the red channel fades by `FADE` — unbounded, it may go
//! negative; the backend clamps on output, not this layer.

use vstd::prelude::*;

use crate::context::{Bindings, DrawContext, Pipeline, UniformPayload};
use crate::geometry::Vec2;
use crate::input::{InputModel, KeyCode};
use crate::shape::{
    draw_commands, shape_can_step, shape_key_down, shape_key_up, shape_step, uniforms_of,
    BaseShape, Shape, ShapeKindView, ShapeView,
};

verus! {

/// Per-frame acceleration in fixed-point thousandths: `0.009` units per held
/// directional key per frame.
pub const ACCEL: i64 = 9;

/// Per-frame fade of the red channel in fixed-point thousandths: `0.1` per
/// frame, whatever the key state.
pub const FADE: i64 = 100;

/// The mathematical model of a [`TriangleModel`]: color channels, offset,
/// and the held-key sequence.
#[verifier::ext_equal]
pub ghost struct TriangleModelView {
    pub red: int,
    pub green: int,
    pub blue: int,
    pub offset_x: int,
    pub offset_y: int,
    pub keys: Seq<KeyCode>,
}

/// The per-frame change of the x offset: `ACCEL` to the right if Right is
/// held, `ACCEL` to the left if Left is held, independently.
pub open spec fn step_dx(keys: Seq<KeyCode>) -> int {
    (if keys.contains(KeyCode::Left) {
        -(ACCEL as int)
    } else {
        0
    }) + (if keys.contains(KeyCode::Right) {
        ACCEL as int
    } else {
        0
    })
}

/// The per-frame change of the y offset: `ACCEL` up if Up is held, `ACCEL`
/// down if Down is held, independently.
pub open spec fn step_dy(keys: Seq<KeyCode>) -> int {
    (if keys.contains(KeyCode::Down) {
        -(ACCEL as int)
    } else {
        0
    }) + (if keys.contains(KeyCode::Up) {
        ACCEL as int
    } else {
        0
    })
}

/// One per-frame step of the triangle model: move by the held keys, fade the
/// red channel; everything else is untouched.
pub open spec fn triangle_step(m: TriangleModelView) -> TriangleModelView {
    TriangleModelView {
        red: m.red - FADE,
        offset_x: m.offset_x + step_dx(m.keys),
        offset_y: m.offset_y + step_dy(m.keys),
        ..m
    }
}

/// Whether one step stays inside the machine integers the model is stored
/// in. Every intermediate value of the step must have room.
pub open spec fn triangle_can_step(m: TriangleModelView) -> bool {
    &&& i64::MIN + ACCEL <= m.offset_x <= i64::MAX - ACCEL
    &&& i64::MIN + ACCEL <= m.offset_y <= i64::MAX - ACCEL
    &&& i64::MIN + FADE <= m.red
}

/// `n` consecutive per-frame steps of the triangle model.
pub open spec fn triangle_step_n(m: TriangleModelView, n: nat) -> TriangleModelView
    decreases n,
{
    if n == 0 {
        m
    } else {
        triangle_step(triangle_step_n(m, (n - 1) as nat))
    }
}

/// What `n` consecutive draw calls do to the triangle model, exactly: the
/// held keys never change, each axis accumulates `n` times its per-frame
/// change, and red fades by `n * FADE` whatever the keys are.
pub proof fn lemma_triangle_step_n(m: TriangleModelView, n: nat)
    ensures
        triangle_step_n(m, n).keys == m.keys,
        triangle_step_n(m, n).green == m.green,
        triangle_step_n(m, n).blue == m.blue,
        triangle_step_n(m, n).red == m.red - n * (FADE as int),
        triangle_step_n(m, n).offset_x == m.offset_x + n * step_dx(m.keys),
        triangle_step_n(m, n).offset_y == m.offset_y + n * step_dy(m.keys),
    decreases n,
{
    if n > 0 {
        lemma_triangle_step_n(m, (n - 1) as nat);
        assert((n - 1) * (FADE as int) + FADE == n * (FADE as int)) by (nonlinear_arith);
        assert((n - 1) * step_dx(m.keys) + step_dx(m.keys) == n * step_dx(m.keys))
            by (nonlinear_arith);
        assert((n - 1) * step_dy(m.keys) + step_dy(m.keys) == n * step_dy(m.keys))
            by (nonlinear_arith);
    }
}

/// Movement accumulation: holding Right (and not Left) for `n` consecutive
/// draw calls moves the x offset by exactly `n * ACCEL`.
pub proof fn lemma_movement_accumulation(m: TriangleModelView, n: nat)
    requires
        m.keys.contains(KeyCode::Right),
        !m.keys.contains(KeyCode::Left),
    ensures
        triangle_step_n(m, n).offset_x == m.offset_x + n * (ACCEL as int),
{
    lemma_triangle_step_n(m, n);
}

/// Diagonal movement is the plain vector sum: holding Right and Up (and not
/// their opposites) for `n` draw calls moves x by `n * ACCEL` and y by
/// `n * ACCEL`, each axis independently and unnormalized.
pub proof fn lemma_movement_diagonal(m: TriangleModelView, n: nat)
    requires
        m.keys.contains(KeyCode::Right),
        !m.keys.contains(KeyCode::Left),
        m.keys.contains(KeyCode::Up),
        !m.keys.contains(KeyCode::Down),
    ensures
        triangle_step_n(m, n).offset_x == m.offset_x + n * (ACCEL as int),
        triangle_step_n(m, n).offset_y == m.offset_y + n * (ACCEL as int),
{
    lemma_triangle_step_n(m, n);
}

/// Fade: the red channel decreases by exactly `FADE` per draw call,
/// whatever the key state, without any lower bound.
pub proof fn lemma_fade(m: TriangleModelView, n: nat)
    ensures
        triangle_step_n(m, n).red == m.red - n * (FADE as int),
{
    lemma_triangle_step_n(m, n);
}

/// The triangle's uniform payload and input state: a color, the accumulated
/// offset, and the currently-held keys.
#[derive(Debug)]
pub struct TriangleModel {
    red: i64,
    green: i64,
    blue: i64,
    offset: Vec2,
    input: InputModel,
}

impl View for TriangleModel {
    type V = TriangleModelView;

    closed spec fn view(&self) -> TriangleModelView {
        TriangleModelView {
            red: self.red as int,
            green: self.green as int,
            blue: self.blue as int,
            offset_x: self.offset.x as int,
            offset_y: self.offset.y as int,
            keys: self.input@,
        }
    }
}

impl TriangleModel {
    pub fn get_red(&self) -> (r: i64)
        ensures
            r == self@.red,
    {
        self.red
    }

    pub fn get_green(&self) -> (r: i64)
        ensures
            r == self@.green,
    {
        self.green
    }

    pub fn get_blue(&self) -> (r: i64)
        ensures
            r == self@.blue,
    {
        self.blue
    }

    pub fn get_offset_x(&self) -> (r: i64)
        ensures
            r == self@.offset_x,
    {
        self.offset.x
    }

    pub fn get_offset_y(&self) -> (r: i64)
        ensures
            r == self@.offset_y,
    {
        self.offset.y
    }

    /// The currently-held keys.
    pub fn get_input(&self) -> (r: &InputModel)
        ensures
            r@ == self@.keys,
    {
        &self.input
    }
}

/// The key-controlled triangle shape.
#[derive(Debug)]
pub struct Triangle {
    base_details: BaseShape,
    uniforms: TriangleModel,
}

impl Triangle {
    /// A triangle drawing `3` indices with the given handles, at offset
    /// `(0, 0)`, with no key held. The host uploads the mesh from
    /// [`crate::geometry::triangle`] and compiles the pipeline for the
    /// layout of [`crate::shader::offset_shader_meta`].
    pub fn new(bindings: Bindings, pipeline: Pipeline, red: i64, green: i64, blue: i64) -> (t:
        Triangle)
        ensures
            t.shape_view() == (ShapeView {
                bindings: bindings@,
                pipeline,
                segments: 3,
                kind: ShapeKindView::Triangle {
                    model: TriangleModelView {
                        red: red as int,
                        green: green as int,
                        blue: blue as int,
                        offset_x: 0,
                        offset_y: 0,
                        keys: Seq::<KeyCode>::empty(),
                    },
                },
            }),
    {
        Triangle {
            base_details: BaseShape::new(bindings, pipeline, 3),
            uniforms: TriangleModel {
                red,
                green,
                blue,
                offset: Vec2 { x: 0, y: 0 },
                input: InputModel::new(),
            },
        }
    }

    /// A triangle's model always has the [`ShapeKindView::Triangle`] kind.
    pub proof fn lemma_view_kind(&self)
        ensures
            self.shape_view().kind is Triangle,
    {
    }

    /// Whether one more `draw` has room in the machine integers the model
    /// is stored in. True for about thirty billion years of frames from the
    /// startup state; a host can guard its frame loop with it.
    pub fn can_step(&self) -> (r: bool)
        ensures
            r == shape_can_step(self.shape_view()),
    {
        let x: i64 = self.uniforms.offset.x;
        let y: i64 = self.uniforms.offset.y;
        let red: i64 = self.uniforms.red;
        i64::MIN + ACCEL <= x && x <= i64::MAX - ACCEL && i64::MIN + ACCEL <= y && y <= i64::MAX
            - ACCEL && i64::MIN + FADE <= red
    }

    /// The triangle's uniform state, for reading its animation values.
    pub fn get_uniform(&self) -> (r: &TriangleModel)
        ensures
            (match self.shape_view().kind {
                ShapeKindView::Triangle { model } => r@ == model,
                _ => false,
            }),
    {
        &self.uniforms
    }
}

impl Shape for Triangle {
    closed spec fn shape_view(&self) -> ShapeView {
        ShapeView {
            bindings: self.base_details.shape_view().bindings,
            pipeline: self.base_details.shape_view().pipeline,
            segments: self.base_details.shape_view().segments,
            kind: ShapeKindView::Triangle { model: self.uniforms@ },
        }
    }

    fn get_bindings(&self) -> (r: &Bindings) {
        self.base_details.get_bindings()
    }

    fn get_pipeline(&self) -> (r: &Pipeline) {
        self.base_details.get_pipeline()
    }

    fn get_segments(&self) -> (r: i32) {
        self.base_details.get_segments()
    }

    fn set_binding(&mut self, bindings: Bindings) {
        self.base_details.set_binding(bindings);
    }

    fn set_pipeline(&mut self, pipeline: Pipeline) {
        self.base_details.set_pipeline(pipeline);
    }

    fn set_segments(&mut self, segments: i32) {
        self.base_details.set_segments(segments);
    }

    fn draw(&mut self, drawing_context: &mut DrawContext, draw: bool) {
        let ghost s = self.shape_view();
        let ghost prev = drawing_context@;
        proof {
            self.base_details.lemma_view_kind();
        }
        self.base_details.draw(drawing_context, false);

        if self.uniforms.input.holds(KeyCode::Down) {
            self.uniforms.offset.y = self.uniforms.offset.y - ACCEL;
        }
        if self.uniforms.input.holds(KeyCode::Up) {
            self.uniforms.offset.y = self.uniforms.offset.y + ACCEL;
        }
        if self.uniforms.input.holds(KeyCode::Left) {
            self.uniforms.offset.x = self.uniforms.offset.x - ACCEL;
        }
        if self.uniforms.input.holds(KeyCode::Right) {
            self.uniforms.offset.x = self.uniforms.offset.x + ACCEL;
        }

        self.uniforms.red = self.uniforms.red - FADE;

        let payload = UniformPayload::Offset {
            red: self.uniforms.red,
            green: self.uniforms.green,
            blue: self.uniforms.blue,
            offset_x: self.uniforms.offset.x,
            offset_y: self.uniforms.offset.y,
        };
        proof {
            let model = self.uniforms@;
            let ghost sm = (match s.kind {
                ShapeKindView::Triangle { model: m0 } => m0,
                _ => model,
            });
            assert(model.keys == sm.keys);
            assert(model.red == sm.red - FADE);
            assert(model.green == sm.green);
            assert(model.blue == sm.blue);
            assert(model.offset_x == sm.offset_x + step_dx(sm.keys));
            assert(model.offset_y == sm.offset_y + step_dy(sm.keys));
            assert(model =~= triangle_step(sm));
            assert(payload@ == uniforms_of(s));
        }
        drawing_context.apply_uniforms(payload);

        if draw {
            drawing_context.draw(0, self.base_details.get_segments(), 1);
        }

        proof {
            assert(self.shape_view() =~= shape_step(s));
            assert(drawing_context@ =~= prev + draw_commands(s, draw));
        }
    }

    fn input_down(&mut self, key_code: KeyCode) {
        let ghost s = self.shape_view();
        self.uniforms.input.key_down(key_code);
        proof {
            assert(self.shape_view() =~= shape_key_down(s, key_code));
        }
    }

    fn input_up(&mut self, key_code: KeyCode) {
        let ghost s = self.shape_view();
        self.uniforms.input.key_up(key_code);
        proof {
            assert(self.shape_view() =~= shape_key_up(s, key_code));
        }
    }
}

} // verus!
