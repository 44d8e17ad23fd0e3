//! The draw context: a recorder for the commands a frame submits to the GPU
//! backend, in submission order.
//!
//! The library never talks to a GPU itself. A shape's `draw` records, into a
//! [`DrawContext`], exactly the commands the backend must perform — apply a
//! pipeline, apply bindings, push a uniform block, issue an indexed draw —
//! and a host front end replays them against its real rendering backend.

use vstd::prelude::*;

verus! {

/// A handle for a compiled pipeline (program + vertex layout), issued by the
/// host when it compiles the shaders for a shape.
#[derive(Clone, Copy, PartialEq, Eq, Structural, Debug)]
pub struct Pipeline {
    pub id: usize,
}

/// The buffer and texture handles one draw call reads from: handles issued by
/// the host when it uploads a [`crate::geometry::Mesh`] and texture data.
#[derive(Debug)]
pub struct Bindings {
    pub vertex_buffers: Vec<usize>,
    pub index_buffer: usize,
    pub images: Vec<usize>,
}

/// The mathematical model of [`Bindings`]: its handles as sequences.
#[verifier::ext_equal]
pub ghost struct BindingsView {
    pub vertex_buffers: Seq<usize>,
    pub index_buffer: usize,
    pub images: Seq<usize>,
}

impl View for Bindings {
    type V = BindingsView;

    open spec fn view(&self) -> BindingsView {
        BindingsView {
            vertex_buffers: self.vertex_buffers@,
            index_buffer: self.index_buffer,
            images: self.images@,
        }
    }
}

impl Bindings {
    /// An identical copy, used when a recorded command must own the handles
    /// while the shape keeps its own.
    pub fn duplicate(&self) -> (r: Bindings)
        ensures
            r@ == self@,
    {
        let mut vertex_buffers: Vec<usize> = Vec::new();
        let mut i: usize = 0;
        while i < self.vertex_buffers.len()
            invariant
                i <= self.vertex_buffers.len(),
                vertex_buffers@ == self.vertex_buffers@.take(i as int),
            decreases self.vertex_buffers.len() - i,
        {
            vertex_buffers.push(self.vertex_buffers[i]);
            proof {
                assert(vertex_buffers@ =~= self.vertex_buffers@.take(i as int + 1));
            }
            i = i + 1;
        }
        let mut images: Vec<usize> = Vec::new();
        let mut j: usize = 0;
        while j < self.images.len()
            invariant
                j <= self.images.len(),
                images@ == self.images@.take(j as int),
            decreases self.images.len() - j,
        {
            images.push(self.images[j]);
            proof {
                assert(images@ =~= self.images@.take(j as int + 1));
            }
            j = j + 1;
        }
        let r = Bindings { vertex_buffers, index_buffer: self.index_buffer, images };
        proof {
            assert(r@.vertex_buffers =~= self@.vertex_buffers);
            assert(r@.images =~= self@.images);
            assert(r@ =~= self@);
        }
        r
    }
}

/// A per-draw-call uniform block. The variant must match the uniform layout
/// of the pipeline it is applied with: `Flat` for the flat-color layout,
/// `Offset` for the layout that adds a positional offset. Values are fixed
/// point, in thousandths.
#[derive(Clone, Copy, PartialEq, Eq, Structural, Debug)]
pub enum UniformPayload {
    Flat { red: i64, green: i64, blue: i64 },
    Offset { red: i64, green: i64, blue: i64, offset_x: i64, offset_y: i64 },
}

/// The mathematical model of a [`UniformPayload`]: the same block with
/// unbounded integer values.
#[verifier::ext_equal]
pub ghost enum UniformPayloadView {
    Flat { red: int, green: int, blue: int },
    Offset { red: int, green: int, blue: int, offset_x: int, offset_y: int },
}

impl View for UniformPayload {
    type V = UniformPayloadView;

    open spec fn view(&self) -> UniformPayloadView {
        match self {
            UniformPayload::Flat { red, green, blue } => UniformPayloadView::Flat {
                red: *red as int,
                green: *green as int,
                blue: *blue as int,
            },
            UniformPayload::Offset { red, green, blue, offset_x, offset_y } =>
                UniformPayloadView::Offset {
                red: *red as int,
                green: *green as int,
                blue: *blue as int,
                offset_x: *offset_x as int,
                offset_y: *offset_y as int,
            },
        }
    }
}

/// One recorded backend command.
#[derive(Debug)]
pub enum Command {
    ApplyPipeline { pipeline: Pipeline },
    ApplyBindings { bindings: Bindings },
    ApplyUniforms { uniforms: UniformPayload },
    Draw { base: i32, elements: i32, instances: i32 },
}

/// The mathematical model of one recorded command.
#[verifier::ext_equal]
pub ghost enum CommandView {
    ApplyPipeline { pipeline: Pipeline },
    ApplyBindings { bindings: BindingsView },
    ApplyUniforms { uniforms: UniformPayloadView },
    Draw { base: i32, elements: i32, instances: i32 },
}

impl View for Command {
    type V = CommandView;

    open spec fn view(&self) -> CommandView {
        match self {
            Command::ApplyPipeline { pipeline } => CommandView::ApplyPipeline {
                pipeline: *pipeline,
            },
            Command::ApplyBindings { bindings } => CommandView::ApplyBindings {
                bindings: bindings@,
            },
            Command::ApplyUniforms { uniforms } => CommandView::ApplyUniforms {
                uniforms: uniforms@,
            },
            Command::Draw { base, elements, instances } => CommandView::Draw {
                base: *base,
                elements: *elements,
                instances: *instances,
            },
        }
    }
}

/// Records the commands of one frame, in submission order. Its view is the
/// sequence of recorded commands.
pub struct DrawContext {
    commands: Vec<Command>,
}

impl View for DrawContext {
    type V = Seq<CommandView>;

    closed spec fn view(&self) -> Seq<CommandView> {
        self.commands@.map_values(|c: Command| c@)
    }
}

impl DrawContext {
    /// An empty recording, made by the host at the start of each frame's
    /// render pass.
    pub fn new() -> (ctx: DrawContext)
        ensures
            ctx@ == Seq::<CommandView>::empty(),
    {
        let ctx = DrawContext { commands: Vec::new() };
        proof {
            assert(ctx@ =~= Seq::<CommandView>::empty());
        }
        ctx
    }

    /// Record that the given compiled pipeline becomes current.
    pub fn apply_pipeline(&mut self, pipeline: &Pipeline)
        ensures
            final(self)@ == old(self)@.push(CommandView::ApplyPipeline { pipeline: *pipeline }),
    {
        let ghost prev = self@;
        self.commands.push(Command::ApplyPipeline { pipeline: *pipeline });
        proof {
            assert(self@ =~= prev.push(CommandView::ApplyPipeline { pipeline: *pipeline }));
        }
    }

    /// Record that the given buffers and textures become current.
    pub fn apply_bindings(&mut self, bindings: &Bindings)
        ensures
            final(self)@ == old(self)@.push(CommandView::ApplyBindings { bindings: bindings@ }),
    {
        let ghost prev = self@;
        let copy = bindings.duplicate();
        self.commands.push(Command::ApplyBindings { bindings: copy });
        proof {
            assert(self@ =~= prev.push(CommandView::ApplyBindings { bindings: bindings@ }));
        }
    }

    /// Record that the given uniform block is pushed for the next draw.
    pub fn apply_uniforms(&mut self, uniforms: UniformPayload)
        ensures
            final(self)@ == old(self)@.push(CommandView::ApplyUniforms { uniforms: uniforms@ }),
    {
        let ghost prev = self@;
        let ghost uv = uniforms@;
        self.commands.push(Command::ApplyUniforms { uniforms });
        proof {
            assert(self@ =~= prev.push(CommandView::ApplyUniforms { uniforms: uv }));
        }
    }

    /// Record an indexed draw call: `elements` indices starting at `base`,
    /// `instances` instances.
    pub fn draw(&mut self, base: i32, elements: i32, instances: i32)
        ensures
            final(self)@ == old(self)@.push(CommandView::Draw { base, elements, instances }),
    {
        let ghost prev = self@;
        self.commands.push(Command::Draw { base, elements, instances });
        proof {
            assert(self@ =~= prev.push(CommandView::Draw { base, elements, instances }));
        }
    }

    /// The recorded commands, for the host to replay in order.
    pub fn commands(&self) -> (r: &Vec<Command>)
        ensures
            r@.map_values(|c: Command| c@) == self@,
    {
        &self.commands
    }
}

} // verus!
