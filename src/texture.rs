//! Texture objects and the parameters of image uploads.
use vstd::prelude::*;
use crate::call::GlCall;
use crate::glconst;
use crate::pixel::{PixelFormat, PixelType};

verus! {

/// The kind of a texture, which fixes the binding point it is bound to.
#[derive(Clone, Copy, Debug, PartialEq, Eq, Structural)]
pub enum TextureTarget {
    Texture1D,
    Texture2D,
    Texture3D,
    Texture1DArray,
    Texture2DArray,
    TextureRectangle,
    /// Cube maps are not fully supported: an image upload cannot address a face.
    TextureCubeMap,
    TextureBuffer,
}

impl TextureTarget {
    pub open spec fn spec_glenum(self) -> u32 {
        match self {
            TextureTarget::Texture1D => glconst::TEXTURE_1D,
            TextureTarget::Texture2D => glconst::TEXTURE_2D,
            TextureTarget::Texture3D => glconst::TEXTURE_3D,
            TextureTarget::Texture1DArray => glconst::TEXTURE_1D_ARRAY,
            TextureTarget::Texture2DArray => glconst::TEXTURE_2D_ARRAY,
            TextureTarget::TextureRectangle => glconst::TEXTURE_RECTANGLE,
            TextureTarget::TextureCubeMap => glconst::TEXTURE_CUBE_MAP,
            TextureTarget::TextureBuffer => glconst::TEXTURE_BUFFER,
        }
    }

    /// The GL enumerant of this target.
    pub fn to_glenum(&self) -> (r: u32)
        ensures
            r == self.spec_glenum(),
    {
        match *self {
            TextureTarget::Texture1D => glconst::TEXTURE_1D,
            TextureTarget::Texture2D => glconst::TEXTURE_2D,
            TextureTarget::Texture3D => glconst::TEXTURE_3D,
            TextureTarget::Texture1DArray => glconst::TEXTURE_1D_ARRAY,
            TextureTarget::Texture2DArray => glconst::TEXTURE_2D_ARRAY,
            TextureTarget::TextureRectangle => glconst::TEXTURE_RECTANGLE,
            TextureTarget::TextureCubeMap => glconst::TEXTURE_CUBE_MAP,
            TextureTarget::TextureBuffer => glconst::TEXTURE_BUFFER,
        }
    }
}

/// How texture coordinates outside [0, 1] are resolved.
#[derive(Clone, Copy, Debug, PartialEq, Eq, Structural)]
pub enum WrapMode {
    ClampToEdge,
    ClampToBorder,
    Repeat,
    MirroredRepeat,
}

impl WrapMode {
    pub open spec fn spec_glenum(self) -> u32 {
        match self {
            WrapMode::ClampToEdge => glconst::CLAMP_TO_EDGE,
            WrapMode::ClampToBorder => glconst::CLAMP_TO_BORDER,
            WrapMode::Repeat => glconst::REPEAT,
            WrapMode::MirroredRepeat => glconst::MIRRORED_REPEAT,
        }
    }

    /// The GL enumerant of this wrap mode.
    pub fn to_glenum(&self) -> (r: u32)
        ensures
            r == self.spec_glenum(),
    {
        match *self {
            WrapMode::ClampToEdge => glconst::CLAMP_TO_EDGE,
            WrapMode::ClampToBorder => glconst::CLAMP_TO_BORDER,
            WrapMode::Repeat => glconst::REPEAT,
            WrapMode::MirroredRepeat => glconst::MIRRORED_REPEAT,
        }
    }
}

/// How texels are sampled when a texture is minified or magnified.
#[derive(Clone, Copy, Debug, PartialEq, Eq, Structural)]
pub enum FilterMethod {
    Nearest,
    Linear,
    NearestMipmapNearest,
    LinearMipmapNearest,
    NearestMipmapLinear,
    LinearMipmapLinear,
}

impl FilterMethod {
    pub open spec fn spec_glenum(self) -> u32 {
        match self {
            FilterMethod::Nearest => glconst::NEAREST,
            FilterMethod::Linear => glconst::LINEAR,
            FilterMethod::NearestMipmapNearest => glconst::NEAREST_MIPMAP_NEAREST,
            FilterMethod::LinearMipmapNearest => glconst::LINEAR_MIPMAP_NEAREST,
            FilterMethod::NearestMipmapLinear => glconst::NEAREST_MIPMAP_LINEAR,
            FilterMethod::LinearMipmapLinear => glconst::LINEAR_MIPMAP_LINEAR,
        }
    }

    /// The GL enumerant of this filter.
    pub fn to_glenum(&self) -> (r: u32)
        ensures
            r == self.spec_glenum(),
    {
        match *self {
            FilterMethod::Nearest => glconst::NEAREST,
            FilterMethod::Linear => glconst::LINEAR,
            FilterMethod::NearestMipmapNearest => glconst::NEAREST_MIPMAP_NEAREST,
            FilterMethod::LinearMipmapNearest => glconst::LINEAR_MIPMAP_NEAREST,
            FilterMethod::NearestMipmapLinear => glconst::NEAREST_MIPMAP_LINEAR,
            FilterMethod::LinearMipmapLinear => glconst::LINEAR_MIPMAP_LINEAR,
        }
    }
}

/// The non-data parameters of a full image upload. The dimensionality of
/// the upload follows from which of `width`, `height` and `depth` are set.
#[derive(Clone, Copy, Debug, PartialEq, Eq, Structural)]
pub struct ImageInfo {
    pub level: i32,
    pub internal_format: i32,
    pub width: Option<i32>,
    pub height: Option<i32>,
    pub depth: Option<i32>,
    pub format: PixelFormat,
    pub ptype: PixelType,
}

impl ImageInfo {
    /// The dimensionality of the upload: 3 with a depth, else 2 with a
    /// height, else 1.
    pub open spec fn spec_dims(self) -> int {
        if self.depth is Some {
            3
        } else if self.height is Some {
            2
        } else {
            1
        }
    }

    /// Every dimension that the upload's dimensionality needs is set.
    pub open spec fn spec_complete(self) -> bool {
        &&& self.width is Some
        &&& self.depth is Some ==> self.height is Some
    }

    /// The upload call for a texture bound at `target`.
    pub open spec fn spec_upload(self, target: u32) -> GlCall {
        let (level, internal_format) = (self.level, self.internal_format);
        let (format, ptype) = (self.format.spec_glenum(), self.ptype.spec_glenum());
        if self.spec_dims() == 1 {
            GlCall::TexImage1D {
                target,
                level,
                internal_format,
                width: self.width->0,
                format,
                ptype,
            }
        } else if self.spec_dims() == 2 {
            GlCall::TexImage2D {
                target,
                level,
                internal_format,
                width: self.width->0,
                height: self.height->0,
                format,
                ptype,
            }
        } else {
            GlCall::TexImage3D {
                target,
                level,
                internal_format,
                width: self.width->0,
                height: self.height->0,
                depth: self.depth->0,
                format,
                ptype,
            }
        }
    }

    /// Level 0, RGBA internal format, RGBA float pixels, no dimension set.
    pub fn new() -> (r: ImageInfo)
        ensures
            r == (ImageInfo {
                level: 0,
                internal_format: glconst::RGBA as i32,
                width: None,
                height: None,
                depth: None,
                format: PixelFormat::Rgba,
                ptype: PixelType::Float,
            }),
    {
        ImageInfo {
            level: 0,
            internal_format: glconst::RGBA as i32,
            width: None,
            height: None,
            depth: None,
            format: PixelFormat::Rgba,
            ptype: PixelType::Float,
        }
    }

    /// Sets the mipmap level.
    pub fn level(self, level: i32) -> (r: ImageInfo)
        ensures
            r == (ImageInfo { level, ..self }),
    {
        ImageInfo { level, ..self }
    }

    /// Sets the width. 1D images have only a width.
    pub fn width(self, s: i32) -> (r: ImageInfo)
        ensures
            r == (ImageInfo { width: Some(s), ..self }),
    {
        ImageInfo { width: Some(s), ..self }
    }

    /// Sets the height, which 2D and 3D images need.
    pub fn height(self, s: i32) -> (r: ImageInfo)
        ensures
            r == (ImageInfo { height: Some(s), ..self }),
    {
        ImageInfo { height: Some(s), ..self }
    }

    /// Sets the depth. Only 3D images have one.
    pub fn depth(self, s: i32) -> (r: ImageInfo)
        ensures
            r == (ImageInfo { depth: Some(s), ..self }),
    {
        ImageInfo { depth: Some(s), ..self }
    }

    /// Sets the pixel data format.
    pub fn pixel_format(self, format: PixelFormat) -> (r: ImageInfo)
        ensures
            r == (ImageInfo { format, ..self }),
    {
        ImageInfo { format, ..self }
    }

    /// Sets the pixel data type.
    pub fn pixel_type(self, ptype: PixelType) -> (r: ImageInfo)
        ensures
            r == (ImageInfo { ptype, ..self }),
    {
        ImageInfo { ptype, ..self }
    }

    /// Sets the internal format.
    pub fn internal_format(self, ifmt: i32) -> (r: ImageInfo)
        ensures
            r == (ImageInfo { internal_format: ifmt, ..self }),
    {
        ImageInfo { internal_format: ifmt, ..self }
    }

    /// Whether every dimension that the upload needs is set.
    pub fn is_complete(&self) -> (r: bool)
        ensures
            r == self.spec_complete(),
    {
        self.width.is_some() && (self.depth.is_none() || self.height.is_some())
    }
}

/// An image upload dispatches on the dimensions that are set: a width alone
/// selects the 1D entry point, a width and a height the 2D one, and a
/// width, a height and a depth the 3D one.
pub proof fn lemma_image_dispatch(info: ImageInfo, target: u32)
    requires
        info.width is Some,
    ensures
        info.height is None && info.depth is None ==> info.spec_upload(target).image_dims() == 1,
        info.height is Some && info.depth is None ==> info.spec_upload(target).image_dims() == 2,
        info.height is Some && info.depth is Some ==> info.spec_upload(target).image_dims() == 3,
{
}

/// What a [`SubImageInfo`] holds.
pub struct SubImageParams {
    pub level: i32,
    pub width: Option<i32>,
    pub height: Option<i32>,
    pub depth: Option<i32>,
    pub xoffset: Option<i32>,
    pub yoffset: Option<i32>,
    pub zoffset: Option<i32>,
    pub format: PixelFormat,
    pub ptype: PixelType,
}

impl SubImageParams {
    /// The dimensionality of the upload: 3 with a depth or a z offset, else
    /// 2 with a height or a y offset, else 1.
    pub open spec fn spec_dims(self) -> int {
        if self.depth is Some || self.zoffset is Some {
            3
        } else if self.height is Some || self.yoffset is Some {
            2
        } else {
            1
        }
    }

    /// Every offset and dimension that the upload's dimensionality needs is set.
    pub open spec fn spec_complete(self) -> bool {
        &&& self.xoffset is Some
        &&& self.width is Some
        &&& self.spec_dims() >= 2 ==> self.yoffset is Some && self.height is Some
        &&& self.spec_dims() == 3 ==> self.zoffset is Some && self.depth is Some
    }

    /// The upload call for a texture bound at `target`.
    pub open spec fn spec_upload(self, target: u32) -> GlCall {
        let level = self.level;
        let (format, ptype) = (self.format.spec_glenum(), self.ptype.spec_glenum());
        if self.spec_dims() == 1 {
            GlCall::TexSubImage1D {
                target,
                level,
                xoffset: self.xoffset->0,
                width: self.width->0,
                format,
                ptype,
            }
        } else if self.spec_dims() == 2 {
            GlCall::TexSubImage2D {
                target,
                level,
                xoffset: self.xoffset->0,
                yoffset: self.yoffset->0,
                width: self.width->0,
                height: self.height->0,
                format,
                ptype,
            }
        } else {
            GlCall::TexSubImage3D {
                target,
                level,
                xoffset: self.xoffset->0,
                yoffset: self.yoffset->0,
                zoffset: self.zoffset->0,
                width: self.width->0,
                height: self.height->0,
                depth: self.depth->0,
                format,
                ptype,
            }
        }
    }
}

/// The non-data parameters of an upload into part of a texture. The
/// dimensionality follows from which offsets and dimensions are set.
#[derive(Clone, Copy, Debug, PartialEq, Eq, Structural)]
pub struct SubImageInfo {
    level: i32,
    width: Option<i32>,
    height: Option<i32>,
    depth: Option<i32>,
    xoffset: Option<i32>,
    yoffset: Option<i32>,
    zoffset: Option<i32>,
    format: PixelFormat,
    ptype: PixelType,
}

impl View for SubImageInfo {
    type V = SubImageParams;

    closed spec fn view(&self) -> SubImageParams {
        SubImageParams {
            level: self.level,
            width: self.width,
            height: self.height,
            depth: self.depth,
            xoffset: self.xoffset,
            yoffset: self.yoffset,
            zoffset: self.zoffset,
            format: self.format,
            ptype: self.ptype,
        }
    }
}

impl SubImageInfo {
    /// Level 0, RGBA float pixels, no offset or dimension set.
    pub fn new() -> (r: SubImageInfo)
        ensures
            r@ == (SubImageParams {
                level: 0,
                width: None,
                height: None,
                depth: None,
                xoffset: None,
                yoffset: None,
                zoffset: None,
                format: PixelFormat::Rgba,
                ptype: PixelType::Float,
            }),
    {
        SubImageInfo {
            level: 0,
            width: None,
            height: None,
            depth: None,
            xoffset: None,
            yoffset: None,
            zoffset: None,
            format: PixelFormat::Rgba,
            ptype: PixelType::Float,
        }
    }

    /// Sets the mipmap level.
    pub fn level(self, level: i32) -> (r: SubImageInfo)
        ensures
            r@ == (SubImageParams { level, ..self@ }),
    {
        SubImageInfo { level, ..self }
    }

    /// Sets the width. 1D uploads have only a width.
    pub fn width(self, s: i32) -> (r: SubImageInfo)
        ensures
            r@ == (SubImageParams { width: Some(s), ..self@ }),
    {
        SubImageInfo { width: Some(s), ..self }
    }

    /// Sets the height, which 2D and 3D uploads need.
    pub fn height(self, s: i32) -> (r: SubImageInfo)
        ensures
            r@ == (SubImageParams { height: Some(s), ..self@ }),
    {
        SubImageInfo { height: Some(s), ..self }
    }

    /// Sets the depth. Only 3D uploads have one.
    pub fn depth(self, s: i32) -> (r: SubImageInfo)
        ensures
            r@ == (SubImageParams { depth: Some(s), ..self@ }),
    {
        SubImageInfo { depth: Some(s), ..self }
    }

    /// Sets the x offset into the texture. 1D uploads have only an x offset.
    pub fn xoffset(self, s: i32) -> (r: SubImageInfo)
        ensures
            r@ == (SubImageParams { xoffset: Some(s), ..self@ }),
    {
        SubImageInfo { xoffset: Some(s), ..self }
    }

    /// Sets the y offset into the texture, which 2D and 3D uploads need.
    pub fn yoffset(self, s: i32) -> (r: SubImageInfo)
        ensures
            r@ == (SubImageParams { yoffset: Some(s), ..self@ }),
    {
        SubImageInfo { yoffset: Some(s), ..self }
    }

    /// Sets the z offset into the texture. Only 3D uploads have one.
    pub fn zoffset(self, s: i32) -> (r: SubImageInfo)
        ensures
            r@ == (SubImageParams { zoffset: Some(s), ..self@ }),
    {
        SubImageInfo { zoffset: Some(s), ..self }
    }

    /// Sets the pixel data format.
    pub fn pixel_format(self, format: PixelFormat) -> (r: SubImageInfo)
        ensures
            r@ == (SubImageParams { format, ..self@ }),
    {
        SubImageInfo { format, ..self }
    }

    /// Sets the pixel data type.
    pub fn pixel_type(self, ptype: PixelType) -> (r: SubImageInfo)
        ensures
            r@ == (SubImageParams { ptype, ..self@ }),
    {
        SubImageInfo { ptype, ..self }
    }

    /// Whether every offset and dimension that the upload needs is set.
    pub fn is_complete(&self) -> (r: bool)
        ensures
            r == self@.spec_complete(),
    {
        let three = self.depth.is_some() || self.zoffset.is_some();
        let two = self.height.is_some() || self.yoffset.is_some();
        self.xoffset.is_some() && self.width.is_some() && (!(three || two) || (
        self.yoffset.is_some() && self.height.is_some())) && (!three || (self.zoffset.is_some()
            && self.depth.is_some()))
    }
}

/// A sub-image upload dispatches on the offsets and dimensions that are set,
/// in the way a full image upload does on its dimensions.
pub proof fn lemma_subimage_dispatch(info: SubImageParams, target: u32)
    ensures
        info.height is None && info.yoffset is None && info.depth is None && info.zoffset is None
            ==> info.spec_upload(target).image_dims() == 1,
        (info.height is Some || info.yoffset is Some) && info.depth is None && info.zoffset is None
            ==> info.spec_upload(target).image_dims() == 2,
        info.depth is Some || info.zoffset is Some ==> info.spec_upload(target).image_dims() == 3,
{
}

/// The calls that bind a texture at `target` and set parameter `pname` to `param`.
pub open spec fn parameter_calls(target: u32, name: u32, pname: u32, param: u32) -> Seq<GlCall> {
    seq![
        GlCall::BindTexture { target, name },
        GlCall::TexParameter { target, pname, param: param as i32 },
    ]
}

/// A texture object. It owns one driver texture name, which is never zero,
/// and remembers the target it binds to.
#[derive(Debug)]
pub struct Texture {
    name: u32,
    target: u32,
}

impl Texture {
    #[verifier::type_invariant]
    spec fn inv(self) -> bool {
        self.name != 0
    }

    pub closed spec fn spec_name(&self) -> u32 {
        self.name
    }

    pub closed spec fn spec_target(&self) -> u32 {
        self.target
    }

    /// The call that binds the texture to its target.
    pub open spec fn bind_spec(&self) -> GlCall {
        GlCall::BindTexture { target: self.spec_target(), name: self.spec_name() }
    }

    /// Takes ownership of texture `name` and loads an image into it. The
    /// calls bind the texture, upload the full image and then generate its
    /// mipmaps, in that order.
    pub fn new(name: u32, target: TextureTarget, info: ImageInfo) -> (r: (Texture, Vec<GlCall>))
        requires
            name != 0,
            info.spec_complete(),
        ensures
            r.0.spec_name() == name,
            r.0.spec_target() == target.spec_glenum(),
            r.1@ == seq![
                GlCall::BindTexture { target: target.spec_glenum(), name },
                GlCall::BindTexture { target: target.spec_glenum(), name },
                info.spec_upload(target.spec_glenum()),
                GlCall::GenerateMipmap { target: target.spec_glenum() },
            ],
    {
        let t = Texture::new_raw(name, target);
        let mut calls = vec![t.bind()];
        let mut load = t.load_image(info);
        calls.append(&mut load);
        calls.push(t.gen_mipmaps());
        (t, calls)
    }

    /// Takes ownership of texture `name` without binding it.
    pub fn new_raw(name: u32, target: TextureTarget) -> (r: Texture)
        requires
            name != 0,
        ensures
            r.spec_name() == name,
            r.spec_target() == target.spec_glenum(),
    {
        Texture { name, target: target.to_glenum() }
    }

    /// The name (id) of the texture.
    pub fn name(&self) -> (r: u32)
        ensures
            r == self.spec_name(),
            r != 0,
    {
        proof {
            use_type_invariant(self);
        }
        self.name
    }

    /// The GL enumerant of the texture's target.
    pub fn target(&self) -> (r: u32)
        ensures
            r == self.spec_target(),
    {
        self.target
    }

    /// Binds the texture to its target.
    pub fn bind(&self) -> (r: GlCall)
        ensures
            r == (GlCall::BindTexture { target: self.spec_target(), name: self.spec_name() }),
    {
        GlCall::BindTexture { target: self.target, name: self.name }
    }

    /// Sets the wrap mode of all three axes, S, T and R, in that order.
    pub fn wrap(&self, w: WrapMode) -> (r: Vec<GlCall>)
        ensures
            r@ == parameter_calls(
                self.spec_target(),
                self.spec_name(),
                glconst::TEXTURE_WRAP_S,
                w.spec_glenum(),
            ) + parameter_calls(
                self.spec_target(),
                self.spec_name(),
                glconst::TEXTURE_WRAP_T,
                w.spec_glenum(),
            ) + parameter_calls(
                self.spec_target(),
                self.spec_name(),
                glconst::TEXTURE_WRAP_R,
                w.spec_glenum(),
            ),
    {
        let mut calls = self.wrap_s(w);
        let mut t = self.wrap_t(w);
        let mut r = self.wrap_r(w);
        calls.append(&mut t);
        calls.append(&mut r);
        calls
    }

    fn parameter(&self, pname: u32, param: u32) -> (r: Vec<GlCall>)
        ensures
            r@ == parameter_calls(self.spec_target(), self.spec_name(), pname, param),
    {
        vec![
            self.bind(),
            GlCall::TexParameter { target: self.target, pname, param: param as i32 },
        ]
    }

    /// Sets the wrap mode of the S axis.
    pub fn wrap_s(&self, w: WrapMode) -> (r: Vec<GlCall>)
        ensures
            r@ == parameter_calls(
                self.spec_target(),
                self.spec_name(),
                glconst::TEXTURE_WRAP_S,
                w.spec_glenum(),
            ),
    {
        self.parameter(glconst::TEXTURE_WRAP_S, w.to_glenum())
    }

    /// Sets the wrap mode of the T axis.
    pub fn wrap_t(&self, w: WrapMode) -> (r: Vec<GlCall>)
        ensures
            r@ == parameter_calls(
                self.spec_target(),
                self.spec_name(),
                glconst::TEXTURE_WRAP_T,
                w.spec_glenum(),
            ),
    {
        self.parameter(glconst::TEXTURE_WRAP_T, w.to_glenum())
    }

    /// Sets the wrap mode of the R axis.
    pub fn wrap_r(&self, w: WrapMode) -> (r: Vec<GlCall>)
        ensures
            r@ == parameter_calls(
                self.spec_target(),
                self.spec_name(),
                glconst::TEXTURE_WRAP_R,
                w.spec_glenum(),
            ),
    {
        self.parameter(glconst::TEXTURE_WRAP_R, w.to_glenum())
    }

    /// Sets the minifying and then the magnifying filter.
    pub fn filter(&self, fm: FilterMethod) -> (r: Vec<GlCall>)
        ensures
            r@ == parameter_calls(
                self.spec_target(),
                self.spec_name(),
                glconst::TEXTURE_MIN_FILTER,
                fm.spec_glenum(),
            ) + parameter_calls(
                self.spec_target(),
                self.spec_name(),
                glconst::TEXTURE_MAG_FILTER,
                fm.spec_glenum(),
            ),
    {
        let mut calls = self.min_filter(fm);
        let mut mag = self.mag_filter(fm);
        calls.append(&mut mag);
        calls
    }

    /// Sets the minifying filter.
    pub fn min_filter(&self, fm: FilterMethod) -> (r: Vec<GlCall>)
        ensures
            r@ == parameter_calls(
                self.spec_target(),
                self.spec_name(),
                glconst::TEXTURE_MIN_FILTER,
                fm.spec_glenum(),
            ),
    {
        self.parameter(glconst::TEXTURE_MIN_FILTER, fm.to_glenum())
    }

    /// Sets the magnifying filter.
    pub fn mag_filter(&self, fm: FilterMethod) -> (r: Vec<GlCall>)
        ensures
            r@ == parameter_calls(
                self.spec_target(),
                self.spec_name(),
                glconst::TEXTURE_MAG_FILTER,
                fm.spec_glenum(),
            ),
    {
        self.parameter(glconst::TEXTURE_MAG_FILTER, fm.to_glenum())
    }

    /// Generates the mipmaps of the bound texture. An image must have been
    /// loaded into the texture first.
    pub fn gen_mipmaps(&self) -> (r: GlCall)
        ensures
            r == (GlCall::GenerateMipmap { target: self.spec_target() }),
    {
        GlCall::GenerateMipmap { target: self.target }
    }

    /// Binds the texture and uploads a full image into it, through the 1D,
    /// 2D or 3D entry point that the dimensions set in `info` select.
    pub fn load_image(&self, info: ImageInfo) -> (r: Vec<GlCall>)
        requires
            info.spec_complete(),
        ensures
            r@ == seq![self.bind_spec(), info.spec_upload(self.spec_target())],
            r@[1].image_dims() == info.spec_dims(),
    {
        let ImageInfo { level, internal_format, width, height, depth, format, ptype } = info;
        let format = format.to_glenum();
        let ptype = ptype.to_glenum();
        let target = self.target;
        let upload = match (width, height, depth) {
            (Some(width), None, None) => GlCall::TexImage1D {
                target,
                level,
                internal_format,
                width,
                format,
                ptype,
            },
            (Some(width), Some(height), None) => GlCall::TexImage2D {
                target,
                level,
                internal_format,
                width,
                height,
                format,
                ptype,
            },
            (Some(width), Some(height), Some(depth)) => GlCall::TexImage3D {
                target,
                level,
                internal_format,
                width,
                height,
                depth,
                format,
                ptype,
            },
            _ => {
                proof {
                    assert(false);
                }
                GlCall::GenerateMipmap { target }
            },
        };
        vec![self.bind(), upload]
    }

    /// Binds the texture and uploads an image into part of it, through the
    /// 1D, 2D or 3D entry point that the offsets and dimensions set in
    /// `info` select.
    pub fn load_subimage(&self, info: SubImageInfo) -> (r: Vec<GlCall>)
        requires
            info@.spec_complete(),
        ensures
            r@ == seq![self.bind_spec(), info@.spec_upload(self.spec_target())],
            r@[1].image_dims() == info@.spec_dims(),
    {
        let SubImageInfo { level, width, height, depth, xoffset, yoffset, zoffset, format, ptype } =
            info;
        let format = format.to_glenum();
        let ptype = ptype.to_glenum();
        let target = self.target;
        let upload = if depth.is_none() && zoffset.is_none() {
            if height.is_none() && yoffset.is_none() {
                match (xoffset, width) {
                    (Some(xoffset), Some(width)) => GlCall::TexSubImage1D {
                        target,
                        level,
                        xoffset,
                        width,
                        format,
                        ptype,
                    },
                    _ => {
                        proof {
                            assert(false);
                        }
                        GlCall::GenerateMipmap { target }
                    },
                }
            } else {
                match (xoffset, yoffset, width, height) {
                    (Some(xoffset), Some(yoffset), Some(width), Some(height)) => {
                        GlCall::TexSubImage2D {
                            target,
                            level,
                            xoffset,
                            yoffset,
                            width,
                            height,
                            format,
                            ptype,
                        }
                    },
                    _ => {
                        proof {
                            assert(false);
                        }
                        GlCall::GenerateMipmap { target }
                    },
                }
            }
        } else {
            match (xoffset, yoffset, zoffset, width, height, depth) {
                (Some(xoffset), Some(yoffset), Some(zoffset), Some(width), Some(height), Some(depth)) => {
                    GlCall::TexSubImage3D {
                        target,
                        level,
                        xoffset,
                        yoffset,
                        zoffset,
                        width,
                        height,
                        depth,
                        format,
                        ptype,
                    }
                },
                _ => {
                    proof {
                        assert(false);
                    }
                    GlCall::GenerateMipmap { target }
                },
            }
        };
        vec![self.bind(), upload]
    }

    /// Makes texture unit `num` active and binds the texture to it.
    pub fn activate(&self, num: u32) -> (r: Vec<GlCall>)
        requires
            num <= u32::MAX - glconst::TEXTURE0,
        ensures
            r@ == seq![GlCall::ActiveTexture { unit: (glconst::TEXTURE0 + num) as u32 }, self.bind_spec()],
    {
        vec![GlCall::ActiveTexture { unit: glconst::TEXTURE0 + num }, self.bind()]
    }

    /// Gives up the handle; the call deletes its texture.
    pub fn release(self) -> (r: GlCall)
        ensures
            r == (GlCall::DeleteTexture { name: self.spec_name() }),
            r.released() == Some(self.spec_name()),
    {
        GlCall::DeleteTexture { name: self.name }
    }
}

} // verus!
