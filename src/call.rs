//! Driver calls as values.
use vstd::prelude::*;

verus! {

/// One call into the OpenGL driver with its scalar arguments. Pointers to
/// buffer or pixel data are not part of it: whoever runs the call supplies them.
#[derive(Clone, Copy, Debug, PartialEq, Eq, Structural)]
pub enum GlCall {
    BindBuffer { target: u32, name: u32 },
    BufferData { target: u32, size: isize, usage: u32 },
    DeleteBuffer { name: u32 },
    AttachShader { program: u32, shader: u32 },
    LinkProgram { program: u32 },
    UseProgram { program: u32 },
    DeleteShader { shader: u32 },
    DeleteProgram { program: u32 },
    BindTexture { target: u32, name: u32 },
    TexParameter { target: u32, pname: u32, param: i32 },
    GenerateMipmap { target: u32 },
    TexImage1D { target: u32, level: i32, internal_format: i32, width: i32, format: u32, ptype: u32 },
    TexImage2D {
        target: u32,
        level: i32,
        internal_format: i32,
        width: i32,
        height: i32,
        format: u32,
        ptype: u32,
    },
    TexImage3D {
        target: u32,
        level: i32,
        internal_format: i32,
        width: i32,
        height: i32,
        depth: i32,
        format: u32,
        ptype: u32,
    },
    TexSubImage1D { target: u32, level: i32, xoffset: i32, width: i32, format: u32, ptype: u32 },
    TexSubImage2D {
        target: u32,
        level: i32,
        xoffset: i32,
        yoffset: i32,
        width: i32,
        height: i32,
        format: u32,
        ptype: u32,
    },
    TexSubImage3D {
        target: u32,
        level: i32,
        xoffset: i32,
        yoffset: i32,
        zoffset: i32,
        width: i32,
        height: i32,
        depth: i32,
        format: u32,
        ptype: u32,
    },
    ActiveTexture { unit: u32 },
    DeleteTexture { name: u32 },
}

impl GlCall {
    /// The dimensionality of an image upload call: 1, 2 or 3, and 0 for any
    /// call that uploads no image.
    pub open spec fn image_dims(self) -> int {
        match self {
            GlCall::TexImage1D { .. } | GlCall::TexSubImage1D { .. } => 1,
            GlCall::TexImage2D { .. } | GlCall::TexSubImage2D { .. } => 2,
            GlCall::TexImage3D { .. } | GlCall::TexSubImage3D { .. } => 3,
            _ => 0,
        }
    }

    /// The driver resource that this call releases, if it releases one.
    pub open spec fn released(self) -> Option<u32> {
        match self {
            GlCall::DeleteBuffer { name } => Some(name),
            GlCall::DeleteShader { shader } => Some(shader),
            GlCall::DeleteProgram { program } => Some(program),
            GlCall::DeleteTexture { name } => Some(name),
            _ => None,
        }
    }
}

} // verus!
