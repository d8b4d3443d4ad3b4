//! Owned handles for OpenGL shaders, programs, buffers and textures.
//!
//! Every operation is described as the exact sequence of driver calls that it
//! makes, as values of [`GlCall`]; the contracts state that sequence. Running
//! the calls against a live context is left to the caller.
pub mod buffer;
pub mod call;
pub mod glconst;
pub mod pixel;
pub mod program;
pub mod texture;

pub use buffer::{Ebo, Vbo, VboUsage};
pub use call::GlCall;
pub use program::{Program, Shader, ShaderType};
pub use texture::{FilterMethod, ImageInfo, SubImageInfo, Texture, TextureTarget, WrapMode};
