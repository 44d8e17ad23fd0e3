//! Shader layout descriptors: which uniforms, in which order and of which
//! scalar shape, and which image slots a pipeline binds. A host front end
//! pairs a layout with the matching shader source text for its backend and
//! compiles the two into a pipeline.
//!
//! The uniform payload a shape pushes each frame must match the layout of the
//! pipeline it draws with, field for field: [`shader_meta`] describes the
//! flat-color block of [`crate::context::UniformPayload::Flat`], and the
//! layout of [`crate::context::UniformPayload::Offset`] adds the positional
//! offset.

use vstd::prelude::*;

verus! {

/// The portable vertex shader source shared by every shape: it offsets each
/// vertex by the `offset` uniform and passes the texture coordinate through.
pub const VERTEX: &'static str = r#"#version 100
    attribute vec2 in_pos;
    attribute vec2 in_uv;

    uniform vec2 offset;

    varying lowp vec2 texcoord;

    void main() {
        gl_Position = vec4(in_pos + offset, 0, 1);
        texcoord = in_uv;
    }
"#;

/// The portable fragment shader source shared by every shape: a flat color
/// from the three scalar color uniforms.
pub const FRAGMENT: &'static str = r#"#version 100
    varying lowp vec2 texcoord;

    uniform sampler2D tex;
    uniform highp float red;
    uniform highp float green;
    uniform highp float blue;

    void main() {
        gl_FragColor = vec4( red, green, blue, 0.0);
    }
"#;

/// The scalar shape of one uniform entry.
#[derive(Clone, Copy, PartialEq, Eq, Structural, Debug)]
pub enum UniformKind {
    Float1,
    Float2,
}

/// The name of one uniform entry, as the shader source declares it.
#[derive(Clone, Copy, PartialEq, Eq, Structural, Debug)]
pub enum UniformName {
    Red,
    Green,
    Blue,
    Offset,
}

/// One entry of a uniform block layout.
#[derive(Clone, Copy, PartialEq, Eq, Structural, Debug)]
pub struct UniformDesc {
    pub name: UniformName,
    pub kind: UniformKind,
}

/// The name of one image (texture sampler) slot.
#[derive(Clone, Copy, PartialEq, Eq, Structural, Debug)]
pub enum ImageSlot {
    Tex,
}

/// The uniform-layout descriptor of one shader program: its image slots and
/// its uniform entries, both in declaration order.
#[derive(Debug)]
pub struct ShaderLayout {
    pub images: Vec<ImageSlot>,
    pub uniforms: Vec<UniformDesc>,
}

/// The layout of the basic textured shader: one `tex` sampler and a single
/// two-component `offset` uniform.
pub fn meta() -> (m: ShaderLayout)
    ensures
        m.images@ == seq![ImageSlot::Tex],
        m.uniforms@ == seq![UniformDesc { name: UniformName::Offset, kind: UniformKind::Float2 }],
{
    let mut images: Vec<ImageSlot> = Vec::new();
    images.push(ImageSlot::Tex);
    let mut uniforms: Vec<UniformDesc> = Vec::new();
    uniforms.push(UniformDesc { name: UniformName::Offset, kind: UniformKind::Float2 });
    proof {
        assert(images@ =~= seq![ImageSlot::Tex]);
        assert(uniforms@ =~= seq![
            UniformDesc { name: UniformName::Offset, kind: UniformKind::Float2 },
        ]);
    }
    ShaderLayout { images, uniforms }
}

/// The layout of the flat-color shader used by the square and the
/// background: no image slot, three scalar color uniforms.
pub fn shader_meta() -> (m: ShaderLayout)
    ensures
        m.images@ == Seq::<ImageSlot>::empty(),
        m.uniforms@ == seq![
            UniformDesc { name: UniformName::Red, kind: UniformKind::Float1 },
            UniformDesc { name: UniformName::Green, kind: UniformKind::Float1 },
            UniformDesc { name: UniformName::Blue, kind: UniformKind::Float1 },
        ],
{
    let images: Vec<ImageSlot> = Vec::new();
    let mut uniforms: Vec<UniformDesc> = Vec::new();
    uniforms.push(UniformDesc { name: UniformName::Red, kind: UniformKind::Float1 });
    uniforms.push(UniformDesc { name: UniformName::Green, kind: UniformKind::Float1 });
    uniforms.push(UniformDesc { name: UniformName::Blue, kind: UniformKind::Float1 });
    proof {
        assert(images@ =~= Seq::<ImageSlot>::empty());
        assert(uniforms@ =~= seq![
            UniformDesc { name: UniformName::Red, kind: UniformKind::Float1 },
            UniformDesc { name: UniformName::Green, kind: UniformKind::Float1 },
            UniformDesc { name: UniformName::Blue, kind: UniformKind::Float1 },
        ]);
    }
    ShaderLayout { images, uniforms }
}

/// The layout of the moving-color shader used by the triangle: one `tex`
/// sampler, three scalar color uniforms and a two-component `offset`.
pub fn offset_shader_meta() -> (m: ShaderLayout)
    ensures
        m.images@ == seq![ImageSlot::Tex],
        m.uniforms@ == seq![
            UniformDesc { name: UniformName::Red, kind: UniformKind::Float1 },
            UniformDesc { name: UniformName::Green, kind: UniformKind::Float1 },
            UniformDesc { name: UniformName::Blue, kind: UniformKind::Float1 },
            UniformDesc { name: UniformName::Offset, kind: UniformKind::Float2 },
        ],
{
    let mut images: Vec<ImageSlot> = Vec::new();
    images.push(ImageSlot::Tex);
    let mut uniforms: Vec<UniformDesc> = Vec::new();
    uniforms.push(UniformDesc { name: UniformName::Red, kind: UniformKind::Float1 });
    uniforms.push(UniformDesc { name: UniformName::Green, kind: UniformKind::Float1 });
    uniforms.push(UniformDesc { name: UniformName::Blue, kind: UniformKind::Float1 });
    uniforms.push(UniformDesc { name: UniformName::Offset, kind: UniformKind::Float2 });
    proof {
        assert(images@ =~= seq![ImageSlot::Tex]);
        assert(uniforms@ =~= seq![
            UniformDesc { name: UniformName::Red, kind: UniformKind::Float1 },
            UniformDesc { name: UniformName::Green, kind: UniformKind::Float1 },
            UniformDesc { name: UniformName::Blue, kind: UniformKind::Float1 },
            UniformDesc { name: UniformName::Offset, kind: UniformKind::Float2 },
        ]);
    }
    ShaderLayout { images, uniforms }
}

/// The uniform block that matches [`meta`]: a two-component offset, fixed
/// point in thousandths.
#[derive(Clone, Copy, Debug)]
pub struct Uniforms {
    pub offset: (i64, i64),
}

} // verus!
