use bevy_pieces::loader::{
    choose_image_type, converted_format, converts_16bit, max_base_size, reduced_size,
    CompressedImageFormats, EightBitRgba, ImageCrateFormat, ImageFormat, ImageFormatSetting,
    ImageLoader, ImageType, TextureError,
};

const PNG_HEADER: &[u8] = b"\x89PNG\r\n\x1a\n\0\0\0\rIHDR";

#[test]
fn loader_keeps_its_compressed_formats() {
    let loader = ImageLoader::new(CompressedImageFormats { bits: 0b101 });
    assert_eq!(loader.supported_compressed_formats(), CompressedImageFormats { bits: 0b101 });
}

#[test]
fn format_setting_defaults_to_guess() {
    assert_eq!(ImageFormatSetting::default(), ImageFormatSetting::Guess);
}

#[test]
fn extensions_of_formats() {
    assert_eq!(ImageFormat::Jpeg.to_file_extensions(), vec!["jpg", "jpeg"]);
    assert_eq!(
        ImageLoader::supported_file_extensions(&vec![ImageFormat::Png, ImageFormat::Tiff, ImageFormat::Ktx2]),
        vec!["png", "tif", "tiff", "ktx2"]
    );
    assert!(ImageLoader::supported_file_extensions(&vec![]).is_empty());
}

#[test]
fn image_type_from_setting() {
    let path = "textures/a.png".to_string();
    match choose_image_type(ImageFormatSetting::FromExtension, Some("png"), b"", &path) {
        Ok(ImageType::Extension(e)) => assert_eq!(e, "png"),
        other => panic!("unexpected {other:?}"),
    }
    match choose_image_type(ImageFormatSetting::Format(ImageFormat::Bmp), None, PNG_HEADER, &path) {
        Ok(ImageType::Format(f)) => assert_eq!(f, ImageFormat::Bmp),
        other => panic!("unexpected {other:?}"),
    }
}

#[test]
fn image_type_guessed_from_bytes() {
    let path = "a".to_string();
    match choose_image_type(ImageFormatSetting::Guess, None, PNG_HEADER, &path) {
        Ok(ImageType::Format(f)) => assert_eq!(f, ImageFormat::Png),
        other => panic!("unexpected {other:?}"),
    }
    match choose_image_type(ImageFormatSetting::Guess, None, b"GIF89a......", &path) {
        Ok(ImageType::Format(f)) => assert_eq!(f, ImageFormat::Gif),
        other => panic!("unexpected {other:?}"),
    }
}

#[test]
fn unsupported_guess_names_the_format() {
    let path = "sky.hdr".to_string();
    match choose_image_type(ImageFormatSetting::Guess, None, b"#?RADIANCE\n", &path) {
        Err(e) => {
            assert_eq!(e.path, "sky.hdr");
            match e.error {
                TextureError::UnsupportedTextureFormat(name) => assert_eq!(name, "Hdr"),
                other => panic!("unexpected {other:?}"),
            }
        }
        other => panic!("unexpected {other:?}"),
    }
}

#[test]
fn unrecognized_bytes_fail_to_read() {
    let path = "junk".to_string();
    match choose_image_type(ImageFormatSetting::Guess, None, b"not an image", &path) {
        Err(e) => {
            assert_eq!(e.path, "junk");
            assert!(matches!(e.error, TextureError::ImageReadError(_)));
        }
        other => panic!("unexpected {other:?}"),
    }
}

#[test]
fn crate_format_mapping() {
    assert_eq!(ImageFormat::from_image_crate_format(ImageCrateFormat::Qoi), Some(ImageFormat::Qoi));
    assert_eq!(ImageFormat::from_image_crate_format(ImageCrateFormat::Avif), None);
    assert_eq!(ImageCrateFormat::OpenExr.name(), "OpenExr");
}

#[test]
fn sixteen_bit_conversion_decisions() {
    assert!(converts_16bit(true, true, false));
    assert!(converts_16bit(true, false, true));
    assert!(!converts_16bit(true, false, false));
    assert!(!converts_16bit(false, true, true));
    assert_eq!(converted_format(true), EightBitRgba::Rgba8UnormSrgb);
    assert_eq!(converted_format(false), EightBitRgba::Rgba8Unorm);
}

#[test]
fn size_reduction() {
    assert_eq!(max_base_size(true), 1024);
    assert_eq!(max_base_size(false), 8192);
    assert_eq!(reduced_size(8192, 100, 8192, 4), None);
    assert_eq!(reduced_size(8193, 100, 8192, 4), Some(8192));
    assert_eq!(reduced_size(10, 4096, 1024, 8), Some(512));
}
