//! The full-window background: a flat-colored quad that tiles the viewport
//! and takes no per-frame input. It wraps a [`Square`] carrying the same
//! color and delegates every draw to it, forwarding the caller's submit
//! flag.

use vstd::prelude::*;

use crate::color::{Color, ColorView};
use crate::context::{Bindings, DrawContext, Pipeline};
use crate::input::KeyCode;
use crate::shape::{draw_commands, Shape, ShapeKindView, ShapeView};
use crate::square::Square;

verus! {

/// The full-window background shape.
#[derive(Debug)]
pub struct Background {
    base_details: Square,
    uniforms: Color,
}

impl Background {
    /// A background with the given color: a square over the whole viewport.
    /// The host uploads the mesh from [`crate::stage::background_mesh`] and
    /// compiles the pipeline for the layout of
    /// [`crate::shader::shader_meta`].
    pub fn new(bindings: Bindings, pipeline: Pipeline, red: i64, green: i64, blue: i64) -> (b:
        Background)
        ensures
            b.shape_view() == (ShapeView {
                bindings: bindings@,
                pipeline,
                segments: 6,
                kind: ShapeKindView::Background {
                    square_color: ColorView {
                        red: red as int,
                        green: green as int,
                        blue: blue as int,
                    },
                    color: ColorView { red: red as int, green: green as int, blue: blue as int },
                },
            }),
    {
        Background {
            base_details: Square::new(bindings, pipeline, red, green, blue),
            uniforms: Color::new(red, green, blue),
        }
    }

    /// A background's model always has the [`ShapeKindView::Background`]
    /// kind, so its `draw` may always run.
    pub proof fn lemma_view_kind(&self)
        ensures
            self.shape_view().kind is Background,
    {
    }

    /// The background's own color, for reading its uniform state.
    pub fn get_color(&self) -> (r: &Color)
        ensures
            (match self.shape_view().kind {
                ShapeKindView::Background { color, .. } => r@ == color,
                _ => false,
            }),
    {
        &self.uniforms
    }
}

impl Shape for Background {
    closed spec fn shape_view(&self) -> ShapeView {
        let sv = self.base_details.shape_view();
        ShapeView {
            bindings: sv.bindings,
            pipeline: sv.pipeline,
            segments: sv.segments,
            kind: ShapeKindView::Background {
                square_color: (match sv.kind {
                    ShapeKindView::Square { color } => color,
                    _ => self.uniforms@,
                }),
                color: self.uniforms@,
            },
        }
    }

    fn get_bindings(&self) -> (r: &Bindings) {
        self.base_details.get_bindings()
    }

    fn get_pipeline(&self) -> (r: &Pipeline) {
        self.base_details.get_pipeline()
    }

    fn get_segments(&self) -> (r: i32) {
        self.base_details.get_segments()
    }

    fn set_binding(&mut self, bindings: Bindings) {
        self.base_details.set_binding(bindings);
    }

    fn set_pipeline(&mut self, pipeline: Pipeline) {
        self.base_details.set_pipeline(pipeline);
    }

    fn set_segments(&mut self, segments: i32) {
        self.base_details.set_segments(segments);
    }

    fn draw(&mut self, drawing_context: &mut DrawContext, draw: bool) {
        let ghost s = self.shape_view();
        let ghost prev = drawing_context@;
        proof {
            self.base_details.lemma_view_kind();
        }
        self.base_details.draw(drawing_context, draw);
        proof {
            assert(drawing_context@ =~= prev + draw_commands(s, draw));
        }
    }

    fn input_down(&mut self, key_code: KeyCode) {
    }

    fn input_up(&mut self, key_code: KeyCode) {
    }
}

} // verus!
