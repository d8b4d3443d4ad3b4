use hgl::pixel::{PixelFormat, PixelType};
use hgl::{FilterMethod, GlCall, ImageInfo, SubImageInfo, Texture, TextureTarget, WrapMode};

fn texture_2d() -> Texture {
    Texture::new_raw(5, TextureTarget::Texture2D)
}

#[test]
fn image_info_defaults() {
    let ii = ImageInfo::new();
    assert_eq!(ii.level, 0);
    assert_eq!(ii.internal_format, gl::RGBA as i32);
    assert_eq!((ii.width, ii.height, ii.depth), (None, None, None));
    assert_eq!(ii.format, PixelFormat::Rgba);
    assert_eq!(ii.ptype, PixelType::Float);
}

#[test]
fn image_info_builder_sets_one_field() {
    let ii = ImageInfo::new().width(4).level(3).pixel_type(PixelType::Byte);
    assert_eq!(ii.width, Some(4));
    assert_eq!(ii.level, 3);
    assert_eq!(ii.ptype, PixelType::Byte);
    assert_eq!(ii.height, None);
    let ii = ii.internal_format(gl::RGB8 as i32).pixel_format(PixelFormat::Bgr).height(2).depth(9);
    assert_eq!((ii.internal_format, ii.format, ii.height, ii.depth), (gl::RGB8 as i32, PixelFormat::Bgr, Some(2), Some(9)));
}

#[test]
fn width_only_selects_1d_upload() {
    let calls = texture_2d().load_image(ImageInfo::new().width(16));
    assert_eq!(
        calls,
        vec![
            GlCall::BindTexture { target: gl::TEXTURE_2D, name: 5 },
            GlCall::TexImage1D {
                target: gl::TEXTURE_2D,
                level: 0,
                internal_format: gl::RGBA as i32,
                width: 16,
                format: gl::RGBA,
                ptype: gl::FLOAT,
            },
        ]
    );
}

#[test]
fn width_and_height_select_2d_upload() {
    let info = ImageInfo::new().width(2).height(3).level(1).pixel_type(PixelType::UnsignedByte);
    let calls = texture_2d().load_image(info);
    assert_eq!(
        calls[1],
        GlCall::TexImage2D {
            target: gl::TEXTURE_2D,
            level: 1,
            internal_format: gl::RGBA as i32,
            width: 2,
            height: 3,
            format: gl::RGBA,
            ptype: gl::UNSIGNED_BYTE,
        }
    );
}

#[test]
fn three_dimensions_select_3d_upload() {
    let tex = Texture::new_raw(6, TextureTarget::Texture3D);
    let calls = tex.load_image(ImageInfo::new().width(2).height(3).depth(4));
    assert_eq!(
        calls[1],
        GlCall::TexImage3D {
            target: gl::TEXTURE_3D,
            level: 0,
            internal_format: gl::RGBA as i32,
            width: 2,
            height: 3,
            depth: 4,
            format: gl::RGBA,
            ptype: gl::FLOAT,
        }
    );
}

#[test]
fn subimage_dispatch() {
    let tex = texture_2d();
    let one = tex.load_subimage(SubImageInfo::new().xoffset(1).width(4));
    assert_eq!(
        one[1],
        GlCall::TexSubImage1D { target: gl::TEXTURE_2D, level: 0, xoffset: 1, width: 4, format: gl::RGBA, ptype: gl::FLOAT }
    );
    let two = tex.load_subimage(SubImageInfo::new().xoffset(1).yoffset(2).width(4).height(5).level(2));
    assert_eq!(
        two[1],
        GlCall::TexSubImage2D {
            target: gl::TEXTURE_2D,
            level: 2,
            xoffset: 1,
            yoffset: 2,
            width: 4,
            height: 5,
            format: gl::RGBA,
            ptype: gl::FLOAT,
        }
    );
    let info = SubImageInfo::new().xoffset(1).yoffset(2).zoffset(3).width(4).height(5).depth(6);
    let three = tex.load_subimage(info.pixel_format(PixelFormat::Red).pixel_type(PixelType::Short));
    assert_eq!(
        three[1],
        GlCall::TexSubImage3D {
            target: gl::TEXTURE_2D,
            level: 0,
            xoffset: 1,
            yoffset: 2,
            zoffset: 3,
            width: 4,
            height: 5,
            depth: 6,
            format: gl::RED,
            ptype: gl::SHORT,
        }
    );
    assert_eq!(three[0], GlCall::BindTexture { target: gl::TEXTURE_2D, name: 5 });
}

#[test]
fn subimage_completeness() {
    assert!(!SubImageInfo::new().width(4).is_complete());
    assert!(SubImageInfo::new().xoffset(0).width(4).is_complete());
    assert!(!SubImageInfo::new().xoffset(0).width(4).yoffset(1).is_complete());
    assert!(!SubImageInfo::new().xoffset(0).yoffset(0).width(4).height(4).depth(1).is_complete());
    assert!(SubImageInfo::new().xoffset(0).yoffset(0).zoffset(0).width(4).height(4).depth(1).is_complete());
}

#[test]
fn new_texture_binds_uploads_then_builds_mipmaps() {
    let (tex, calls) = Texture::new(11, TextureTarget::Texture2D, ImageInfo::new().width(2).height(2));
    assert_eq!(tex.name(), 11);
    assert_eq!(tex.target(), gl::TEXTURE_2D);
    assert_eq!(calls.len(), 4);
    assert_eq!(calls[0], GlCall::BindTexture { target: gl::TEXTURE_2D, name: 11 });
    assert_eq!(calls[1], GlCall::BindTexture { target: gl::TEXTURE_2D, name: 11 });
    assert!(matches!(calls[2], GlCall::TexImage2D { width: 2, height: 2, .. }));
    assert_eq!(calls[3], GlCall::GenerateMipmap { target: gl::TEXTURE_2D });
    assert_eq!(tex.release(), GlCall::DeleteTexture { name: 11 });
}

#[test]
fn wrap_sets_all_three_axes() {
    let calls = texture_2d().wrap(WrapMode::Repeat);
    let bind = GlCall::BindTexture { target: gl::TEXTURE_2D, name: 5 };
    let set = |pname| GlCall::TexParameter { target: gl::TEXTURE_2D, pname, param: gl::REPEAT as i32 };
    assert_eq!(
        calls,
        vec![bind, set(gl::TEXTURE_WRAP_S), bind, set(gl::TEXTURE_WRAP_T), bind, set(gl::TEXTURE_WRAP_R)]
    );
    assert_eq!(texture_2d().wrap_t(WrapMode::ClampToEdge)[1], GlCall::TexParameter {
        target: gl::TEXTURE_2D,
        pname: gl::TEXTURE_WRAP_T,
        param: gl::CLAMP_TO_EDGE as i32,
    });
}

#[test]
fn filter_sets_min_then_mag() {
    let calls = texture_2d().filter(FilterMethod::LinearMipmapLinear);
    let bind = GlCall::BindTexture { target: gl::TEXTURE_2D, name: 5 };
    let param = gl::LINEAR_MIPMAP_LINEAR as i32;
    assert_eq!(
        calls,
        vec![
            bind,
            GlCall::TexParameter { target: gl::TEXTURE_2D, pname: gl::TEXTURE_MIN_FILTER, param },
            bind,
            GlCall::TexParameter { target: gl::TEXTURE_2D, pname: gl::TEXTURE_MAG_FILTER, param },
        ]
    );
}

#[test]
fn activate_selects_unit_then_binds() {
    let calls = texture_2d().activate(3);
    assert_eq!(
        calls,
        vec![GlCall::ActiveTexture { unit: gl::TEXTURE3 }, GlCall::BindTexture { target: gl::TEXTURE_2D, name: 5 }]
    );
}
