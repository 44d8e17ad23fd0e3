//! The shape capability interface and its mathematical model.
//!
//! Every shape owns a draw-call descriptor (bindings, a pipeline, a segment
//! count) and a uniform payload. Its `draw` records, into a
//! [`DrawContext`], the commands one frame submits for it — and, for the
//! moving triangle, also advances the animation state. The model of a shape
//! is a [`ShapeView`]; what `draw` records and how the state steps are the
//! spec functions below, shared by every implementer and by the scene.

use vstd::prelude::*;

use crate::color::ColorView;
use crate::context::{Bindings, BindingsView, CommandView, DrawContext, Pipeline, UniformPayloadView};
use crate::input::{pressed, released, KeyCode};
use crate::triangle::{triangle_can_step, triangle_step, TriangleModelView};

verus! {

/// The mathematical model of one shape: its draw-call descriptor and its
/// variant-specific uniform state.
#[verifier::ext_equal]
pub ghost struct ShapeView {
    pub bindings: BindingsView,
    pub pipeline: Pipeline,
    pub segments: i32,
    pub kind: ShapeKindView,
}

/// The variant-specific part of a shape's model.
#[verifier::ext_equal]
pub ghost enum ShapeKindView {
    /// A bare descriptor with no uniform payload.
    Base,
    /// The full-window background; it draws with the color of the square it
    /// wraps and also keeps a color of its own.
    Background { square_color: ColorView, color: ColorView },
    /// A flat-colored square.
    Square { color: ColorView },
    /// The key-controlled triangle.
    Triangle { model: TriangleModelView },
}

/// Whether one `draw` call may run: the triangle's arithmetic must have room
/// in its machine integers; every other shape steps freely.
pub open spec fn shape_can_step(s: ShapeView) -> bool {
    match s.kind {
        ShapeKindView::Triangle { model } => triangle_can_step(model),
        _ => true,
    }
}

/// How one `draw` call changes a shape: only the triangle's model advances
/// (movement from held keys, red fade); every other shape is unchanged.
pub open spec fn shape_step(s: ShapeView) -> ShapeView {
    match s.kind {
        ShapeKindView::Triangle { model } => ShapeView {
            kind: ShapeKindView::Triangle { model: triangle_step(model) },
            ..s
        },
        _ => s,
    }
}

/// How a key-down event changes a shape: only the triangle listens.
pub open spec fn shape_key_down(s: ShapeView, key: KeyCode) -> ShapeView {
    match s.kind {
        ShapeKindView::Triangle { model } => ShapeView {
            kind: ShapeKindView::Triangle {
                model: TriangleModelView { keys: pressed(model.keys, key), ..model },
            },
            ..s
        },
        _ => s,
    }
}

/// How a key-up event changes a shape: only the triangle listens.
pub open spec fn shape_key_up(s: ShapeView, key: KeyCode) -> ShapeView {
    match s.kind {
        ShapeKindView::Triangle { model } => ShapeView {
            kind: ShapeKindView::Triangle {
                model: TriangleModelView { keys: released(model.keys, key), ..model },
            },
            ..s
        },
        _ => s,
    }
}

/// The uniform block a shape pushes for one frame; the bare descriptor
/// pushes none, so its value here goes unused. The triangle pushes the
/// values *after* its per-frame step.
pub open spec fn uniforms_of(s: ShapeView) -> UniformPayloadView {
    match s.kind {
        ShapeKindView::Base => UniformPayloadView::Flat { red: 0, green: 0, blue: 0 },
        ShapeKindView::Background { square_color, .. } => UniformPayloadView::Flat {
            red: square_color.red,
            green: square_color.green,
            blue: square_color.blue,
        },
        ShapeKindView::Square { color } => UniformPayloadView::Flat {
            red: color.red,
            green: color.green,
            blue: color.blue,
        },
        ShapeKindView::Triangle { model } => {
            let stepped = triangle_step(model);
            UniformPayloadView::Offset {
                red: stepped.red,
                green: stepped.green,
                blue: stepped.blue,
                offset_x: stepped.offset_x,
                offset_y: stepped.offset_y,
            }
        },
    }
}

/// Exactly what one `draw` call records for a shape, in order: pipeline,
/// bindings, then — except for the bare descriptor — the uniform block, then
/// the indexed draw call only if `submit` asks for it, so a caller can bind
/// without drawing.
pub open spec fn draw_commands(s: ShapeView, submit: bool) -> Seq<CommandView> {
    let bind = seq![
        CommandView::ApplyPipeline { pipeline: s.pipeline },
        CommandView::ApplyBindings { bindings: s.bindings },
    ];
    let draw = CommandView::Draw { base: 0, elements: s.segments, instances: 1 };
    match s.kind {
        ShapeKindView::Base => if submit {
            bind.push(draw)
        } else {
            bind
        },
        _ => {
            let bound = bind.push(CommandView::ApplyUniforms { uniforms: uniforms_of(s) });
            if submit {
                bound.push(draw)
            } else {
                bound
            }
        },
    }
}

/// The capability interface shared by every shape: expose and replace the
/// draw-call descriptor, record one frame's commands, and react to key
/// events. Contracts are uniform over [`ShapeView`].
pub trait Shape: Sized {
    /// The mathematical model of this shape.
    spec fn shape_view(&self) -> ShapeView;

    fn get_bindings(&self) -> (r: &Bindings)
        ensures
            r@ == self.shape_view().bindings,
    ;

    fn get_pipeline(&self) -> (r: &Pipeline)
        ensures
            *r == self.shape_view().pipeline,
    ;

    fn get_segments(&self) -> (r: i32)
        ensures
            r == self.shape_view().segments,
    ;

    fn set_binding(&mut self, bindings: Bindings)
        ensures
            final(self).shape_view() == (ShapeView {
                bindings: bindings@,
                ..old(self).shape_view()
            }),
    ;

    fn set_pipeline(&mut self, pipeline: Pipeline)
        ensures
            final(self).shape_view() == (ShapeView { pipeline, ..old(self).shape_view() }),
    ;

    fn set_segments(&mut self, segments: i32)
        ensures
            final(self).shape_view() == (ShapeView { segments, ..old(self).shape_view() }),
    ;

    /// Record this shape's commands for one frame into `drawing_context`,
    /// advancing per-frame state, and submit the draw call only if `draw`
    /// asks for it.
    fn draw(&mut self, drawing_context: &mut DrawContext, draw: bool)
        requires
            shape_can_step(old(self).shape_view()),
        ensures
            final(self).shape_view() == shape_step(old(self).shape_view()),
            final(drawing_context)@ == old(drawing_context)@ + draw_commands(
                old(self).shape_view(),
                draw,
            ),
    ;

    fn input_down(&mut self, key_code: KeyCode)
        ensures
            final(self).shape_view() == shape_key_down(old(self).shape_view(), key_code),
    ;

    fn input_up(&mut self, key_code: KeyCode)
        ensures
            final(self).shape_view() == shape_key_up(old(self).shape_view(), key_code),
    ;
}

/// The draw-call descriptor every concrete shape owns: buffer and texture
/// bindings, a compiled pipeline, and how many indices one draw submits.
#[derive(Debug)]
pub struct BaseShape {
    bindings: Bindings,
    pipeline: Pipeline,
    segments: i32,
}

impl BaseShape {
    pub fn new(bindings: Bindings, pipeline: Pipeline, segments: i32) -> (s: BaseShape)
        ensures
            s.shape_view() == (ShapeView {
                bindings: bindings@,
                pipeline,
                segments,
                kind: ShapeKindView::Base,
            }),
    {
        BaseShape { bindings, pipeline, segments }
    }

    /// A bare descriptor's model always has the [`ShapeKindView::Base`]
    /// kind, so its `draw` may always run.
    pub proof fn lemma_view_kind(&self)
        ensures
            self.shape_view().kind == ShapeKindView::Base,
    {
    }
}

impl Shape for BaseShape {
    closed spec fn shape_view(&self) -> ShapeView {
        ShapeView {
            bindings: self.bindings@,
            pipeline: self.pipeline,
            segments: self.segments,
            kind: ShapeKindView::Base,
        }
    }

    fn get_bindings(&self) -> (r: &Bindings) {
        &self.bindings
    }

    fn get_pipeline(&self) -> (r: &Pipeline) {
        &self.pipeline
    }

    fn get_segments(&self) -> (r: i32) {
        self.segments
    }

    fn set_binding(&mut self, bindings: Bindings) {
        self.bindings = bindings;
    }

    fn set_pipeline(&mut self, pipeline: Pipeline) {
        self.pipeline = pipeline;
    }

    fn set_segments(&mut self, segments: i32) {
        self.segments = segments;
    }

    fn draw(&mut self, drawing_context: &mut DrawContext, draw: bool) {
        let ghost s = self.shape_view();
        let ghost prev = drawing_context@;
        drawing_context.apply_pipeline(&self.pipeline);
        drawing_context.apply_bindings(&self.bindings);
        if draw {
            drawing_context.draw(0, self.segments, 1);
        }
        proof {
            assert(drawing_context@ =~= prev + draw_commands(s, draw));
        }
    }

    fn input_down(&mut self, key_code: KeyCode) {
    }

    fn input_up(&mut self, key_code: KeyCode) {
    }
}

} // verus!
