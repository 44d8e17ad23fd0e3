//! The flat-colored square: a quad drawn with a plain color uniform and no
//! per-frame state.

use vstd::prelude::*;

use crate::color::{Color, ColorView};
use crate::context::{Bindings, DrawContext, Pipeline, UniformPayload};
use crate::input::KeyCode;
use crate::shape::{draw_commands, BaseShape, Shape, ShapeKindView, ShapeView};

verus! {

/// A flat-colored square shape.
#[derive(Debug)]
pub struct Square {
    base_details: BaseShape,
    uniforms: Color,
}

impl Square {
    /// A square drawing `6` indices (two triangles) with the given handles
    /// and color. The host uploads the mesh from [`crate::geometry::quad`]
    /// and compiles the pipeline for the layout of
    /// [`crate::shader::shader_meta`].
    pub fn new(bindings: Bindings, pipeline: Pipeline, red: i64, green: i64, blue: i64) -> (sq:
        Square)
        ensures
            sq.shape_view() == (ShapeView {
                bindings: bindings@,
                pipeline,
                segments: 6,
                kind: ShapeKindView::Square {
                    color: ColorView { red: red as int, green: green as int, blue: blue as int },
                },
            }),
    {
        Square {
            base_details: BaseShape::new(bindings, pipeline, 6),
            uniforms: Color::new(red, green, blue),
        }
    }

    /// A square's model always has the [`ShapeKindView::Square`] kind, so
    /// its `draw` may always run.
    pub proof fn lemma_view_kind(&self)
        ensures
            self.shape_view().kind is Square,
    {
    }

    /// The square's color, for reading its uniform state.
    pub fn get_color(&self) -> (r: &Color)
        ensures
            (match self.shape_view().kind {
                ShapeKindView::Square { color } => r@ == color,
                _ => false,
            }),
    {
        &self.uniforms
    }
}

impl Shape for Square {
    closed spec fn shape_view(&self) -> ShapeView {
        ShapeView {
            bindings: self.base_details.shape_view().bindings,
            pipeline: self.base_details.shape_view().pipeline,
            segments: self.base_details.shape_view().segments,
            kind: ShapeKindView::Square { color: self.uniforms@ },
        }
    }

    fn get_bindings(&self) -> (r: &Bindings) {
        self.base_details.get_bindings()
    }

    fn get_pipeline(&self) -> (r: &Pipeline) {
        self.base_details.get_pipeline()
    }

    fn get_segments(&self) -> (r: i32) {
        self.base_details.get_segments()
    }

    fn set_binding(&mut self, bindings: Bindings) {
        self.base_details.set_binding(bindings);
    }

    fn set_pipeline(&mut self, pipeline: Pipeline) {
        self.base_details.set_pipeline(pipeline);
    }

    fn set_segments(&mut self, segments: i32) {
        self.base_details.set_segments(segments);
    }

    fn draw(&mut self, drawing_context: &mut DrawContext, draw: bool) {
        let ghost s = self.shape_view();
        let ghost prev = drawing_context@;
        proof {
            self.base_details.lemma_view_kind();
        }
        self.base_details.draw(drawing_context, false);

        drawing_context.apply_uniforms(
            UniformPayload::Flat {
                red: self.uniforms.get_red(),
                green: self.uniforms.get_green(),
                blue: self.uniforms.get_blue(),
            },
        );

        if draw {
            drawing_context.draw(0, self.base_details.get_segments(), 1);
        }

        proof {
            assert(drawing_context@ =~= prev + draw_commands(s, draw));
        }
    }

    fn input_down(&mut self, key_code: KeyCode) {
    }

    fn input_up(&mut self, key_code: KeyCode) {
    }
}

} // verus!
