use std::io::{Cursor, ErrorKind};

use voxel_renderer::resources::Extent3d;
use voxel_renderer::texture::{
    decode_texture, load_texture, texture_data, CreateShaderError, CreateTextureError,
};

fn png(width: u32, height: u32) -> (Vec<u8>, Vec<u8>) {
    let pixels: Vec<u8> = (0..width * height * 4).map(|i| (i * 7 % 251) as u8).collect();
    let image = image::RgbaImage::from_raw(width, height, pixels.clone()).unwrap();
    let mut bytes = Vec::new();
    image.write_to(&mut Cursor::new(&mut bytes), image::ImageFormat::Png).unwrap();
    (bytes, pixels)
}

#[test]
fn missing_texture_file_is_an_io_error() {
    let read = Err(std::io::Error::from(ErrorKind::NotFound));
    match load_texture(read) {
        Err(CreateTextureError::IoError(e)) => assert_eq!(e.kind(), ErrorKind::NotFound),
        other => panic!("expected an I/O error, got {:?}", other),
    }
}

#[test]
fn garbage_bytes_are_a_decode_error() {
    let r = load_texture(Ok(vec![1, 2, 3, 4, 5]));
    assert!(matches!(r, Err(CreateTextureError::DecodeError(_))));
    assert!(matches!(decode_texture(&[]), Err(CreateTextureError::DecodeError(_))));
}

#[test]
fn decoded_png_is_laid_out_in_rgba_rows() {
    let (bytes, pixels) = png(3, 2);
    let data = decode_texture(&bytes).unwrap();
    assert_eq!(data.size, Extent3d { width: 3, height: 2, depth_or_array_layers: 1 });
    assert_eq!(data.bytes_per_row, 12);
    assert_eq!(data.rows_per_image, 2);
    assert_eq!(data.pixels, pixels);

    let loaded = load_texture(Ok(bytes)).unwrap();
    assert_eq!(loaded.pixels, pixels);
}

#[test]
fn texture_layout_of_pixels() {
    let data = texture_data(5, 4, vec![0; 80]).unwrap();
    assert_eq!(data.size, Extent3d { width: 5, height: 4, depth_or_array_layers: 1 });
    assert_eq!(data.bytes_per_row, 20);
    assert_eq!(data.rows_per_image, 4);
    assert_eq!(data.pixels.len(), 80);
}

#[test]
fn widest_describable_row() {
    let data = texture_data(u32::MAX / 4, 0, vec![]).unwrap();
    assert_eq!(data.bytes_per_row, u32::MAX / 4 * 4);
    let r = texture_data(u32::MAX / 4 + 1, 0, vec![]);
    assert!(matches!(
        r,
        Err(CreateTextureError::TooLarge { width, height: 0 }) if width == u32::MAX / 4 + 1
    ));
}

#[test]
fn io_errors_convert_into_load_errors() {
    let shader_error = CreateShaderError::from(std::io::Error::from(ErrorKind::PermissionDenied));
    let CreateShaderError::IoError(e) = shader_error;
    assert_eq!(e.kind(), ErrorKind::PermissionDenied);
    let texture_error = CreateTextureError::from(std::io::Error::from(ErrorKind::NotFound));
    assert!(matches!(texture_error, CreateTextureError::IoError(_)));
}
