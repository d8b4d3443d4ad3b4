//! Pixel data layouts for texture uploads.
use vstd::prelude::*;
use crate::glconst;

verus! {

/// The components that each pixel of uploaded data holds, and their order.
#[derive(Clone, Copy, Debug, PartialEq, Eq, Structural)]
pub enum PixelFormat {
    Red,
    Rg,
    Rgb,
    Bgr,
    Rgba,
    Bgra,
    DepthComponent,
    StencilIndex,
    DepthStencil,
}

/// The scalar type of each component of uploaded pixel data.
#[derive(Clone, Copy, Debug, PartialEq, Eq, Structural)]
pub enum PixelType {
    Byte,
    UnsignedByte,
    Short,
    UnsignedShort,
    Int,
    UnsignedInt,
    Float,
}

impl PixelFormat {
    pub open spec fn spec_glenum(self) -> u32 {
        match self {
            PixelFormat::Red => glconst::RED,
            PixelFormat::Rg => glconst::RG,
            PixelFormat::Rgb => glconst::RGB,
            PixelFormat::Bgr => glconst::BGR,
            PixelFormat::Rgba => glconst::RGBA,
            PixelFormat::Bgra => glconst::BGRA,
            PixelFormat::DepthComponent => glconst::DEPTH_COMPONENT,
            PixelFormat::StencilIndex => glconst::STENCIL_INDEX,
            PixelFormat::DepthStencil => glconst::DEPTH_STENCIL,
        }
    }

    /// The GL enumerant of this format.
    pub fn to_glenum(&self) -> (r: u32)
        ensures
            r == self.spec_glenum(),
    {
        match *self {
            PixelFormat::Red => glconst::RED,
            PixelFormat::Rg => glconst::RG,
            PixelFormat::Rgb => glconst::RGB,
            PixelFormat::Bgr => glconst::BGR,
            PixelFormat::Rgba => glconst::RGBA,
            PixelFormat::Bgra => glconst::BGRA,
            PixelFormat::DepthComponent => glconst::DEPTH_COMPONENT,
            PixelFormat::StencilIndex => glconst::STENCIL_INDEX,
            PixelFormat::DepthStencil => glconst::DEPTH_STENCIL,
        }
    }
}

impl PixelType {
    pub open spec fn spec_glenum(self) -> u32 {
        match self {
            PixelType::Byte => glconst::BYTE,
            PixelType::UnsignedByte => glconst::UNSIGNED_BYTE,
            PixelType::Short => glconst::SHORT,
            PixelType::UnsignedShort => glconst::UNSIGNED_SHORT,
            PixelType::Int => glconst::INT,
            PixelType::UnsignedInt => glconst::UNSIGNED_INT,
            PixelType::Float => glconst::FLOAT,
        }
    }

    /// The GL enumerant of this type.
    pub fn to_glenum(&self) -> (r: u32)
        ensures
            r == self.spec_glenum(),
    {
        match *self {
            PixelType::Byte => glconst::BYTE,
            PixelType::UnsignedByte => glconst::UNSIGNED_BYTE,
            PixelType::Short => glconst::SHORT,
            PixelType::UnsignedShort => glconst::UNSIGNED_SHORT,
            PixelType::Int => glconst::INT,
            PixelType::UnsignedInt => glconst::UNSIGNED_INT,
            PixelType::Float => glconst::FLOAT,
        }
    }
}

} // verus!
