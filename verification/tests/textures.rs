use game_gl::context::RawGraphicsContext;
use game_gl::gl::{
    GlCall, CLAMP_TO_EDGE, LINEAR, R8, RED, RGB, RGB8, RGBA, RGBA16F, RGBA8, TEXTURE0,
    TEXTURE_2D_ARRAY, TEXTURE_MAG_FILTER, TEXTURE_MIN_FILTER, TEXTURE_WRAP_S, TEXTURE_WRAP_T,
    UNSIGNED_BYTE, UNSIGNED_SHORT,
};
use game_gl::opengl::{Gl, GlResource};
use game_gl::texture::{images_uniform, mip_levels, ColorType, GlTexture, Image, PixelFormats};

fn image(width: u32, height: u32, color: ColorType) -> Image {
    let len = width as usize
        * height as usize
        * color.channels() as usize
        * color.bytes_per_channel() as usize;
    Image::new(width, height, color, vec![0; len]).unwrap()
}

fn png(width: u32, height: u32) -> Vec<u8> {
    let mut pixels = image::RgbImage::new(width, height);
    for (x, y, pixel) in pixels.enumerate_pixels_mut() {
        *pixel = image::Rgb([x as u8, y as u8, 7]);
    }
    let mut bytes = std::io::Cursor::new(Vec::new());
    pixels.write_to(&mut bytes, image::ImageFormat::Png).unwrap();
    bytes.into_inner()
}

#[test]
fn three_images_make_three_layers_and_seven_levels() {
    let mut gl = Gl::new();
    let images = [
        image(64, 64, ColorType::Rgba8),
        image(64, 64, ColorType::Rgba8),
        image(64, 64, ColorType::Rgba8),
    ];
    let (texture, calls) = GlTexture::new(&mut gl, 5, &images);
    assert_eq!(texture.id(), 5);
    assert_eq!(gl.strong_count(), 2);
    let upload = |layer: usize| GlCall::TexSubImage3D {
        target: TEXTURE_2D_ARRAY,
        layer,
        width: 64,
        height: 64,
        format: RGBA,
        type_: UNSIGNED_BYTE,
    };
    assert_eq!(
        calls,
        vec![
            GlCall::BindTexture { target: TEXTURE_2D_ARRAY, texture: 5 },
            GlCall::TexStorage3D {
                target: TEXTURE_2D_ARRAY,
                levels: 7,
                internal_format: RGBA8,
                width: 64,
                height: 64,
                depth: 3
            },
            upload(0),
            upload(1),
            upload(2),
            GlCall::TexParameteri {
                target: TEXTURE_2D_ARRAY,
                pname: TEXTURE_MAG_FILTER,
                param: LINEAR
            },
            GlCall::TexParameteri {
                target: TEXTURE_2D_ARRAY,
                pname: TEXTURE_MIN_FILTER,
                param: LINEAR
            },
            GlCall::TexParameteri {
                target: TEXTURE_2D_ARRAY,
                pname: TEXTURE_WRAP_S,
                param: CLAMP_TO_EDGE
            },
            GlCall::TexParameteri {
                target: TEXTURE_2D_ARRAY,
                pname: TEXTURE_WRAP_T,
                param: CLAMP_TO_EDGE
            },
            GlCall::GenerateMipmap { target: TEXTURE_2D_ARRAY },
            GlCall::BindTexture { target: TEXTURE_2D_ARRAY, texture: 0 },
        ]
    );
    let native_objects = calls
        .iter()
        .filter(|call| matches!(call, GlCall::TexStorage3D { .. }))
        .count();
    assert_eq!(native_objects, 1);
}

#[test]
fn mip_level_counts() {
    assert_eq!(mip_levels(64, 64), 7);
    assert_eq!(mip_levels(1, 1), 1);
    assert_eq!(mip_levels(2, 2), 2);
    assert_eq!(mip_levels(3, 3), 2);
    assert_eq!(mip_levels(4, 4), 3);
    assert_eq!(mip_levels(640, 480), 9);
    assert_eq!(mip_levels(480, 640), 9);
    assert_eq!(mip_levels(512, 1), 1);
    assert_eq!(mip_levels(255, 256), 8);
    assert_eq!(mip_levels(256, 256), 9);
    assert_eq!(mip_levels(u32::MAX, u32::MAX), 32);
    assert_eq!(mip_levels(0, 16), 1);
}

#[test]
fn mip_levels_agree_with_the_logarithm() {
    for side in 1u32..=4096 {
        let expected = 1 + (side as f32).log2().floor() as u32;
        assert_eq!(mip_levels(side, side + 1), expected);
    }
}

#[test]
fn formats_of_the_layouts() {
    assert_eq!(
        ColorType::L8.formats(),
        Some(PixelFormats { format: RED, internal_format: R8 })
    );
    assert_eq!(
        ColorType::Rgb8.formats(),
        Some(PixelFormats { format: RGB, internal_format: RGB8 })
    );
    assert_eq!(
        ColorType::Rgb16.formats(),
        Some(PixelFormats { format: RGB, internal_format: RGBA16F })
    );
    assert_eq!(
        ColorType::Rgba8.formats(),
        Some(PixelFormats { format: RGBA, internal_format: RGBA8 })
    );
    assert_eq!(
        ColorType::Rgba16.formats(),
        Some(PixelFormats { format: RGBA, internal_format: RGBA16F })
    );
    assert_eq!(ColorType::La8.formats(), None);
    assert_eq!(ColorType::L16.formats(), None);
    assert_eq!(ColorType::La16.formats(), None);
    assert_eq!(ColorType::Rgb32F.formats(), None);
    assert_eq!(ColorType::Rgba32F.formats(), None);
}

#[test]
fn pixel_types_of_the_layouts() {
    assert_eq!(ColorType::L8.pixel_type(), UNSIGNED_BYTE);
    assert_eq!(ColorType::Rgb8.pixel_type(), UNSIGNED_BYTE);
    assert_eq!(ColorType::Rgba8.pixel_type(), UNSIGNED_BYTE);
    assert_eq!(ColorType::Rgb16.pixel_type(), UNSIGNED_SHORT);
    assert_eq!(ColorType::Rgba16.pixel_type(), UNSIGNED_SHORT);
    assert_eq!(ColorType::Rgba32F.pixel_type(), UNSIGNED_SHORT);
}

#[test]
fn sixteen_bit_texture() {
    let mut gl = Gl::new();
    let images = [image(8, 4, ColorType::Rgb16)];
    let (_, calls) = GlTexture::new(&mut gl, 6, &images);
    assert_eq!(
        calls[1],
        GlCall::TexStorage3D {
            target: TEXTURE_2D_ARRAY,
            levels: 3,
            internal_format: RGBA16F,
            width: 8,
            height: 4,
            depth: 1
        }
    );
    assert_eq!(
        calls[2],
        GlCall::TexSubImage3D {
            target: TEXTURE_2D_ARRAY,
            layer: 0,
            width: 8,
            height: 4,
            format: RGB,
            type_: UNSIGNED_SHORT
        }
    );
}

#[test]
fn gray_texture() {
    let mut gl = Gl::new();
    let images = [image(16, 16, ColorType::L8), image(16, 16, ColorType::L8)];
    let (_, calls) = GlTexture::new(&mut gl, 6, &images);
    assert_eq!(
        calls[1],
        GlCall::TexStorage3D {
            target: TEXTURE_2D_ARRAY,
            levels: 5,
            internal_format: R8,
            width: 16,
            height: 16,
            depth: 2
        }
    );
    assert_eq!(
        calls[3],
        GlCall::TexSubImage3D {
            target: TEXTURE_2D_ARRAY,
            layer: 1,
            width: 16,
            height: 16,
            format: RED,
            type_: UNSIGNED_BYTE
        }
    );
}

#[test]
fn images_must_agree() {
    assert!(!images_uniform(&[]));
    assert!(images_uniform(&[image(4, 4, ColorType::Rgba8)]));
    assert!(images_uniform(&[image(4, 4, ColorType::Rgba8), image(4, 4, ColorType::Rgba8)]));
    assert!(!images_uniform(&[image(4, 4, ColorType::Rgba8), image(4, 8, ColorType::Rgba8)]));
    assert!(!images_uniform(&[image(4, 4, ColorType::Rgba8), image(8, 4, ColorType::Rgba8)]));
    assert!(!images_uniform(&[
        image(4, 4, ColorType::Rgba8),
        image(4, 4, ColorType::Rgba8),
        image(2, 2, ColorType::Rgba8)
    ]));
    assert!(!images_uniform(&[image(4, 4, ColorType::Rgba8), image(4, 4, ColorType::Rgb8)]));
    assert!(!images_uniform(&[image(4, 4, ColorType::La8)]));
}

#[test]
fn image_needs_enough_pixels() {
    assert!(Image::new(2, 2, ColorType::Rgba8, vec![0; 16]).is_some());
    assert!(Image::new(2, 2, ColorType::Rgba8, vec![0; 17]).is_some());
    assert!(Image::new(2, 2, ColorType::Rgba8, vec![0; 15]).is_none());
    assert!(Image::new(2, 2, ColorType::Rgb16, vec![0; 24]).is_some());
    assert!(Image::new(2, 2, ColorType::Rgb16, vec![0; 23]).is_none());
    assert!(Image::new(0, 5, ColorType::L8, vec![]).is_some());
    assert!(Image::new(u32::MAX, u32::MAX, ColorType::Rgba32F, vec![0; 64]).is_none());
    let made = Image::new(3, 2, ColorType::L8, vec![1, 2, 3, 4, 5, 6]).unwrap();
    assert_eq!(made.width(), 3);
    assert_eq!(made.height(), 2);
    assert_eq!(made.dimensions(), (3, 2));
    assert_eq!(made.color(), ColorType::L8);
    assert_eq!(made.data(), &vec![1, 2, 3, 4, 5, 6]);
}

#[test]
fn texture_units() {
    let mut gl = Gl::new();
    let images = [image(4, 4, ColorType::Rgba8)];
    let (mut texture, _) = GlTexture::new(&mut gl, 9, &images);
    assert_eq!(texture.unbind(), vec![]);
    assert_eq!(
        texture.bind(1),
        vec![
            GlCall::ActiveTexture { unit: TEXTURE0 + 1 },
            GlCall::BindTexture { target: TEXTURE_2D_ARRAY, texture: 9 },
        ]
    );
    texture.bind(31);
    texture.bind(0);
    assert_eq!(
        texture.unbind(),
        vec![
            GlCall::ActiveTexture { unit: TEXTURE0 },
            GlCall::BindTexture { target: TEXTURE_2D_ARRAY, texture: 0 },
            GlCall::ActiveTexture { unit: TEXTURE0 + 1 },
            GlCall::BindTexture { target: TEXTURE_2D_ARRAY, texture: 0 },
            GlCall::ActiveTexture { unit: TEXTURE0 + 31 },
            GlCall::BindTexture { target: TEXTURE_2D_ARRAY, texture: 0 },
        ]
    );
    assert_eq!(texture.unbind(), vec![]);
    assert_eq!(texture.release(&mut gl), vec![GlCall::DeleteTextures { texture: 9 }]);
    assert_eq!(texture.release(&mut gl), vec![]);
    assert_eq!(gl.strong_count(), 1);
}

#[test]
fn default_texture_is_not_alive() {
    let mut gl = Gl::new();
    let mut texture = GlTexture::default();
    assert_eq!(texture.id(), 0);
    assert_eq!(texture.release(&mut gl), vec![]);
    assert_eq!(gl.strong_count(), 1);
}

#[test]
fn texture_from_encoded_images() {
    let mut gl = Gl::new();
    let graphics = RawGraphicsContext::default();
    let encoded = [png(64, 64), png(64, 64), png(64, 64)];
    let buffers: Vec<&[u8]> = encoded.iter().map(|bytes| bytes.as_slice()).collect();
    let build = graphics.create_texture(&mut gl, 3, &buffers).unwrap();
    assert_eq!(build.images.len(), 3);
    for decoded in &build.images {
        assert_eq!(decoded.dimensions(), (64, 64));
        assert_eq!(decoded.color(), ColorType::Rgba8);
        assert_eq!(decoded.data().len(), 64 * 64 * 4);
        // pixel (x, y) = (2, 1) holds red 2, green 1, blue 7 and full alpha
        let at = (64 + 2) * 4;
        assert_eq!(&decoded.data()[at..at + 4], &[2, 1, 7, 255]);
    }
    assert_eq!(
        build.calls[1],
        GlCall::TexStorage3D {
            target: TEXTURE_2D_ARRAY,
            levels: 7,
            internal_format: RGBA8,
            width: 64,
            height: 64,
            depth: 3
        }
    );
    assert_eq!(build.calls.len(), 11);
    assert_eq!(build.texture.id(), 3);
    assert_eq!(gl.strong_count(), 2);
}

#[test]
fn texture_from_bytes_that_are_no_image() {
    let mut gl = Gl::new();
    let graphics = RawGraphicsContext::default();
    let good = png(8, 8);
    let bad: &[u8] = b"this is not an image";
    assert!(graphics.create_texture(&mut gl, 3, &[good.as_slice(), bad]).is_none());
    assert!(graphics.create_texture(&mut gl, 3, &[bad]).is_none());
    assert_eq!(gl.strong_count(), 1);
}

#[test]
fn texture_from_images_of_two_sizes() {
    let mut gl = Gl::new();
    let graphics = RawGraphicsContext::default();
    let small = png(8, 8);
    let large = png(16, 16);
    assert!(graphics.create_texture(&mut gl, 3, &[small.as_slice(), large.as_slice()]).is_none());
    assert_eq!(gl.strong_count(), 1);
}

#[test]
fn texture_from_no_image() {
    let mut gl = Gl::new();
    let graphics = RawGraphicsContext::default();
    assert!(graphics.create_texture(&mut gl, 3, &[]).is_none());
    assert!(graphics.texture_from_images(&mut gl, 3, vec![]).is_none());
    assert_eq!(gl.strong_count(), 1);
}

#[test]
fn texture_from_decoded_images() {
    let mut gl = Gl::new();
    let graphics = RawGraphicsContext::default();
    let images = vec![image(32, 16, ColorType::Rgb8), image(32, 16, ColorType::Rgb8)];
    let build = graphics.texture_from_images(&mut gl, 4, images).unwrap();
    assert_eq!(build.images.len(), 2);
    assert_eq!(
        build.calls[1],
        GlCall::TexStorage3D {
            target: TEXTURE_2D_ARRAY,
            levels: 5,
            internal_format: RGB8,
            width: 32,
            height: 16,
            depth: 2
        }
    );
    assert_eq!(gl.strong_count(), 2);
}
