use image::DynamicImage;
use image::ImageOutputFormat;
use image::RgbaImage;
use rhino2d::io::Texture;
use rhino2d::io::TextureEncoding;
use rhino2d::texture::TextureError;
use rhino2d::texture::TextureFormat;
use rhino2d::texture::TextureInfo;
use std::io::Cursor;

fn pixels() -> Vec<u8> {
    vec![
        255, 0, 0, 255, 0, 255, 0, 255, 0, 0, 255, 255, //
        10, 20, 30, 40, 50, 60, 70, 80, 90, 100, 110, 120,
    ]
}

fn encoded(format: ImageOutputFormat) -> Vec<u8> {
    let image = DynamicImage::ImageRgba8(RgbaImage::from_raw(3, 2, pixels()).unwrap());
    let mut bytes = Vec::new();
    image.write_to(&mut Cursor::new(&mut bytes), format).unwrap();
    bytes
}

#[test]
fn png_texture_is_decoded_to_rgba() {
    let bytes = encoded(ImageOutputFormat::Png);
    assert_ne!(bytes, pixels());
    let info = TextureInfo::new(&Texture::new(TextureEncoding::Png, bytes)).ok().unwrap();
    assert_eq!(info.width(), 3);
    assert_eq!(info.height(), 2);
    assert_eq!(info.texture_format(), TextureFormat::Rgba8UnormSrgb);
    assert_eq!(info.data(), pixels().as_slice());
}

#[test]
fn tga_texture_is_decoded_to_rgba() {
    let bytes = encoded(ImageOutputFormat::Tga);
    assert_ne!(bytes, pixels());
    let info = TextureInfo::new(&Texture::new(TextureEncoding::Tga, bytes)).ok().unwrap();
    assert_eq!(info.width(), 3);
    assert_eq!(info.height(), 2);
    assert_eq!(info.texture_format(), TextureFormat::Rgba8UnormSrgb);
    assert_eq!(info.data(), pixels().as_slice());
}

#[test]
fn data_of_another_encoding_does_not_decode() {
    let png = encoded(ImageOutputFormat::Png);
    assert_eq!(
        TextureInfo::new(&Texture::new(TextureEncoding::Tga, png)).err(),
        Some(TextureError::Decode)
    );
    assert_eq!(
        TextureInfo::new(&Texture::new(TextureEncoding::Png, vec![1, 2, 3])).err(),
        Some(TextureError::Decode)
    );
    assert_eq!(
        TextureInfo::new(&Texture::new(TextureEncoding::Png, Vec::new())).err(),
        Some(TextureError::Decode)
    );
}

#[test]
fn bc7_texture_is_unsupported() {
    let png = encoded(ImageOutputFormat::Png);
    assert_eq!(
        TextureInfo::new(&Texture::new(TextureEncoding::Bc7, png)).err(),
        Some(TextureError::Unsupported(TextureEncoding::Bc7))
    );
}

#[test]
fn texture_from_what_decoding_gave() {
    let info = TextureInfo::from_decoded(TextureEncoding::Png, Some((2, 1, vec![1; 8]))).ok().unwrap();
    assert_eq!((info.width(), info.height()), (2, 1));
    assert_eq!(info.data(), &[1u8; 8]);
    assert_eq!(info.texture_format(), TextureFormat::Rgba8UnormSrgb);
    assert!(TextureInfo::from_decoded(TextureEncoding::Tga, Some((0, 0, vec![]))).is_ok());
    assert_eq!(
        TextureInfo::from_decoded(TextureEncoding::Tga, None).err(),
        Some(TextureError::Decode)
    );
    assert_eq!(
        TextureInfo::from_decoded(TextureEncoding::Bc7, Some((2, 1, vec![1; 8]))).err(),
        Some(TextureError::Unsupported(TextureEncoding::Bc7))
    );
    assert_eq!(
        TextureInfo::from_decoded(TextureEncoding::Bc7, None).err(),
        Some(TextureError::Unsupported(TextureEncoding::Bc7))
    );
}
