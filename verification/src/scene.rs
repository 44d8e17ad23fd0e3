//! The scene: the ordered collection of shapes. Order is the paint order —
//! back to front, exactly as constructed — and is never reordered at
//! runtime. `draw_all` records every shape's commands once, in order, and
//! the dispatch functions forward a key event to every shape.

use vstd::prelude::*;

use crate::background::Background;
use crate::context::{CommandView, DrawContext};
use crate::input::KeyCode;
use crate::shape::{
    draw_commands, shape_can_step, shape_key_down, shape_key_up, shape_step, Shape, ShapeView,
};
use crate::square::Square;
use crate::triangle::Triangle;

verus! {

/// The closed set of shapes a scene can hold.
#[derive(Debug)]
pub enum SceneShape {
    Background(Background),
    Square(Square),
    Triangle(Triangle),
}

impl Shape for SceneShape {
    open spec fn shape_view(&self) -> ShapeView {
        match self {
            SceneShape::Background(b) => b.shape_view(),
            SceneShape::Square(sq) => sq.shape_view(),
            SceneShape::Triangle(t) => t.shape_view(),
        }
    }

    fn get_bindings(&self) -> (r: &crate::context::Bindings) {
        match self {
            SceneShape::Background(b) => b.get_bindings(),
            SceneShape::Square(sq) => sq.get_bindings(),
            SceneShape::Triangle(t) => t.get_bindings(),
        }
    }

    fn get_pipeline(&self) -> (r: &crate::context::Pipeline) {
        match self {
            SceneShape::Background(b) => b.get_pipeline(),
            SceneShape::Square(sq) => sq.get_pipeline(),
            SceneShape::Triangle(t) => t.get_pipeline(),
        }
    }

    fn get_segments(&self) -> (r: i32) {
        match self {
            SceneShape::Background(b) => b.get_segments(),
            SceneShape::Square(sq) => sq.get_segments(),
            SceneShape::Triangle(t) => t.get_segments(),
        }
    }

    fn set_binding(&mut self, bindings: crate::context::Bindings) {
        match self {
            SceneShape::Background(b) => b.set_binding(bindings),
            SceneShape::Square(sq) => sq.set_binding(bindings),
            SceneShape::Triangle(t) => t.set_binding(bindings),
        }
    }

    fn set_pipeline(&mut self, pipeline: crate::context::Pipeline) {
        match self {
            SceneShape::Background(b) => b.set_pipeline(pipeline),
            SceneShape::Square(sq) => sq.set_pipeline(pipeline),
            SceneShape::Triangle(t) => t.set_pipeline(pipeline),
        }
    }

    fn set_segments(&mut self, segments: i32) {
        match self {
            SceneShape::Background(b) => b.set_segments(segments),
            SceneShape::Square(sq) => sq.set_segments(segments),
            SceneShape::Triangle(t) => t.set_segments(segments),
        }
    }

    fn draw(&mut self, drawing_context: &mut DrawContext, draw: bool) {
        match self {
            SceneShape::Background(b) => b.draw(drawing_context, draw),
            SceneShape::Square(sq) => sq.draw(drawing_context, draw),
            SceneShape::Triangle(t) => t.draw(drawing_context, draw),
        }
    }

    fn input_down(&mut self, key_code: KeyCode) {
        match self {
            SceneShape::Background(b) => b.input_down(key_code),
            SceneShape::Square(sq) => sq.input_down(key_code),
            SceneShape::Triangle(t) => t.input_down(key_code),
        }
    }

    fn input_up(&mut self, key_code: KeyCode) {
        match self {
            SceneShape::Background(b) => b.input_up(key_code),
            SceneShape::Square(sq) => sq.input_up(key_code),
            SceneShape::Triangle(t) => t.input_up(key_code),
        }
    }
}

impl SceneShape {
    /// Whether one more `draw` has room: only the triangle's arithmetic can
    /// run out of room, and only after billions of years of frames.
    pub fn can_step(&self) -> (r: bool)
        ensures
            r == shape_can_step(self.shape_view()),
    {
        match self {
            SceneShape::Background(b) => {
                proof {
                    b.lemma_view_kind();
                }
                true
            },
            SceneShape::Square(sq) => {
                proof {
                    sq.lemma_view_kind();
                }
                true
            },
            SceneShape::Triangle(t) => t.can_step(),
        }
    }
}

/// Everything one frame records when a sequence of shape models draws in
/// order, each submitting its geometry.
pub open spec fn scene_commands(shapes: Seq<ShapeView>) -> Seq<CommandView>
    decreases shapes.len(),
{
    if shapes.len() == 0 {
        Seq::empty()
    } else {
        scene_commands(shapes.drop_last()) + draw_commands(shapes.last(), true)
    }
}

/// An ordered scene of shapes. Its view is the sequence of its shapes'
/// models, in paint order.
#[derive(Debug)]
pub struct Scene {
    shapes: Vec<SceneShape>,
}

impl View for Scene {
    type V = Seq<ShapeView>;

    closed spec fn view(&self) -> Seq<ShapeView> {
        self.shapes@.map_values(|s: SceneShape| s.shape_view())
    }
}

impl Scene {
    /// An empty scene.
    pub fn new() -> (s: Scene)
        ensures
            s@ == Seq::<ShapeView>::empty(),
    {
        let s = Scene { shapes: Vec::new() };
        proof {
            assert(s@ =~= Seq::<ShapeView>::empty());
        }
        s
    }

    /// Append one shape; later entries draw on top of earlier ones.
    pub fn push(&mut self, shape: SceneShape)
        ensures
            final(self)@ == old(self)@.push(shape.shape_view()),
    {
        let ghost prev = self@;
        let ghost sv = shape.shape_view();
        self.shapes.push(shape);
        proof {
            assert(self@ =~= prev.push(sv));
        }
    }

    /// How many shapes the scene holds.
    pub fn len(&self) -> (n: usize)
        ensures
            n == self@.len(),
    {
        self.shapes.len()
    }

    /// The shape at the given paint position, front of the list first.
    pub fn shape_at(&self, i: usize) -> (r: &SceneShape)
        requires
            i < self@.len(),
        ensures
            r.shape_view() == self@[i as int],
    {
        &self.shapes[i]
    }

    /// Whether every shape in the scene has room for one more `draw`; a
    /// host can guard its frame loop with it.
    pub fn can_step_all(&self) -> (r: bool)
        ensures
            r == (forall|j: int| 0 <= j < self@.len() ==> shape_can_step(#[trigger] self@[j])),
    {
        let n: usize = self.shapes.len();
        let mut i: usize = 0;
        while i < n
            invariant
                n == self.shapes.len(),
                i <= n,
                forall|j: int| 0 <= j < i ==> shape_can_step(#[trigger] self@[j]),
            decreases n - i,
        {
            proof {
                assert(self@[i as int] == self.shapes@[i as int].shape_view());
            }
            if !self.shapes[i].can_step() {
                return false;
            }
            i = i + 1;
        }
        true
    }

    /// Record one frame: every shape's commands, exactly once each, in
    /// paint order, each submitting its geometry; each shape's state steps
    /// once.
    pub fn draw_all(&mut self, drawing_context: &mut DrawContext)
        requires
            forall|j: int| 0 <= j < old(self)@.len() ==> shape_can_step(#[trigger] old(self)@[j]),
        ensures
            final(self)@.len() == old(self)@.len(),
            forall|j: int|
                0 <= j < old(self)@.len() ==> final(self)@[j] == shape_step(
                    #[trigger] old(self)@[j],
                ),
            final(drawing_context)@ == old(drawing_context)@ + scene_commands(old(self)@),
    {
        let ghost orig = self@;
        let ghost ctx0 = drawing_context@;
        let n: usize = self.shapes.len();
        let mut i: usize = 0;
        while i < n
            invariant
                n == self.shapes.len(),
                i <= n,
                n == orig.len(),
                forall|j: int| i <= j < n ==> self@[j] == orig[j],
                forall|j: int| 0 <= j < i ==> self@[j] == shape_step(#[trigger] orig[j]),
                forall|j: int| 0 <= j < n ==> shape_can_step(#[trigger] orig[j]),
                drawing_context@ == ctx0 + scene_commands(orig.take(i as int)),
            decreases n - i,
        {
            proof {
                assert(self@[i as int] == self.shapes@[i as int].shape_view());
                assert(self@[i as int] == orig[i as int]);
                assert(shape_can_step(orig[i as int]));
            }
            let ghost cur = self.shapes@;
            let shape = &mut self.shapes[i];
            proof {
                assert(*shape == cur[i as int]);
            }
            shape.draw(drawing_context, true);
            proof {
                assert(orig.take(i + 1).drop_last() =~= orig.take(i as int));
                assert(orig.take(i + 1).last() == orig[i as int]);
                assert(scene_commands(orig.take(i + 1)) == scene_commands(orig.take(i as int))
                    + draw_commands(orig[i as int], true));
                assert(drawing_context@ =~= ctx0 + scene_commands(orig.take(i + 1)));
            }
            i = i + 1;
        }
        proof {
            assert(orig.take(n as int) =~= orig);
        }
    }

    /// Forward a key-down event to every shape, in order.
    pub fn dispatch_key_down(&mut self, key: KeyCode)
        ensures
            final(self)@.len() == old(self)@.len(),
            forall|j: int|
                0 <= j < old(self)@.len() ==> final(self)@[j] == shape_key_down(
                    #[trigger] old(self)@[j],
                    key,
                ),
    {
        let ghost orig = self@;
        let n: usize = self.shapes.len();
        let mut i: usize = 0;
        while i < n
            invariant
                n == self.shapes.len(),
                i <= n,
                n == orig.len(),
                forall|j: int| i <= j < n ==> self@[j] == orig[j],
                forall|j: int| 0 <= j < i ==> self@[j] == shape_key_down(#[trigger] orig[j], key),
            decreases n - i,
        {
            let shape = &mut self.shapes[i];
            shape.input_down(key);
            i = i + 1;
        }
    }

    /// Forward a key-up event to every shape, in order.
    pub fn dispatch_key_up(&mut self, key: KeyCode)
        ensures
            final(self)@.len() == old(self)@.len(),
            forall|j: int|
                0 <= j < old(self)@.len() ==> final(self)@[j] == shape_key_up(
                    #[trigger] old(self)@[j],
                    key,
                ),
    {
        let ghost orig = self@;
        let n: usize = self.shapes.len();
        let mut i: usize = 0;
        while i < n
            invariant
                n == self.shapes.len(),
                i <= n,
                n == orig.len(),
                forall|j: int| i <= j < n ==> self@[j] == orig[j],
                forall|j: int| 0 <= j < i ==> self@[j] == shape_key_up(#[trigger] orig[j], key),
            decreases n - i,
        {
            let shape = &mut self.shapes[i];
            shape.input_up(key);
            i = i + 1;
        }
    }
}

/// Paint order: a scene holding shapes `[a, b, c]` records, in one
/// `draw_all`, exactly `a`'s commands, then `b`'s, then `c`'s — each shape
/// drawn exactly once, in construction order.
pub proof fn lemma_paint_order(a: ShapeView, b: ShapeView, c: ShapeView)
    ensures
        scene_commands(seq![a, b, c]) == draw_commands(a, true) + draw_commands(b, true)
            + draw_commands(c, true),
{
    let s3 = seq![a, b, c];
    let s2 = seq![a, b];
    let s1 = seq![a];
    let s0 = Seq::<ShapeView>::empty();
    assert(s3.drop_last() =~= s2);
    assert(s2.drop_last() =~= s1);
    assert(s1.drop_last() =~= s0);
    assert(s3.last() == c);
    assert(s2.last() == b);
    assert(s1.last() == a);
    assert(scene_commands(s0) == Seq::<CommandView>::empty());
    assert(scene_commands(s1) == scene_commands(s0) + draw_commands(a, true));
    assert(scene_commands(s2) == scene_commands(s1) + draw_commands(b, true));
    assert(scene_commands(s3) == scene_commands(s2) + draw_commands(c, true));
    assert(scene_commands(s3) =~= draw_commands(a, true) + draw_commands(b, true)
        + draw_commands(c, true));
}

} // verus!
