use png_to_pal::convert::{convert_info, convert_png_to_pal};
use png_to_pal::decode::{decoded, frame_buffer, load_png};
use png_to_pal::error::ConvertError;
use png_to_pal::image::{ColorMode, ImageInfo};

fn encode(color: png::ColorType, palette: Option<Vec<u8>>, pixels: &[u8]) -> Vec<u8> {
    let mut out: Vec<u8> = Vec::new();
    {
        let mut encoder = png::Encoder::new(&mut out, 2, 2);
        encoder.set_color(color);
        encoder.set_depth(png::BitDepth::Eight);
        if let Some(table) = palette {
            encoder.set_palette(table);
        }
        let mut writer = encoder.write_header().unwrap();
        writer.write_image_data(pixels).unwrap();
        writer.finish().unwrap();
    }
    out
}

fn four_colors() -> Vec<u8> {
    let table = vec![10, 20, 30, 40, 50, 60, 70, 80, 90, 0, 0, 0];
    encode(png::ColorType::Indexed, Some(table), &[0, 1, 2, 3])
}

#[test]
fn load_reads_metadata_and_pixels() {
    let (info, pixels) = load_png(&four_colors()).unwrap();
    assert_eq!(info.width, 2);
    assert_eq!(info.height, 2);
    assert_eq!(info.color_mode, ColorMode::Indexed);
    assert_eq!(info.palette, Some(vec![10, 20, 30, 40, 50, 60, 70, 80, 90, 0, 0, 0]));
    assert_eq!(pixels, vec![0, 1, 2, 3]);
}

#[test]
fn load_tells_the_color_modes_apart() {
    let (info, pixels) = load_png(&encode(png::ColorType::Grayscale, None, &[1, 2, 3, 4])).unwrap();
    assert_eq!(info.color_mode, ColorMode::Grayscale);
    assert_eq!(info.palette, None);
    assert_eq!(pixels, vec![1, 2, 3, 4]);
    let (info, _) = load_png(&encode(png::ColorType::Rgb, None, &[0; 12])).unwrap();
    assert_eq!(info.color_mode, ColorMode::Rgb);
    let (info, _) = load_png(&encode(png::ColorType::GrayscaleAlpha, None, &[0; 8])).unwrap();
    assert_eq!(info.color_mode, ColorMode::GrayscaleAlpha);
    let (info, _) = load_png(&encode(png::ColorType::Rgba, None, &[0; 16])).unwrap();
    assert_eq!(info.color_mode, ColorMode::Rgba);
}

#[test]
fn load_refuses_what_is_no_png() {
    assert_eq!(load_png(b"not a png at all").err(), Some(ConvertError::Decode));
    assert_eq!(load_png(&[]).err(), Some(ConvertError::Decode));
}

#[test]
fn load_refuses_a_truncated_stream() {
    let data = four_colors();
    assert_eq!(load_png(&data[..20]).err(), Some(ConvertError::Decode));
}

#[test]
fn conversion_of_a_four_color_image() {
    let file = convert_png_to_pal("sprite.png", &four_colors()).unwrap();
    assert_eq!(file.path, "sprite.pal");
    assert_eq!(file.colors, 4);
    assert_eq!(
        String::from_utf8(file.contents).unwrap(),
        "JASC-PAL\n0100\n4\n10 20 30\n40 50 60\n70 80 90\n0 0 0\n"
    );
}

#[test]
fn conversion_of_a_true_color_image_fails() {
    let data = encode(png::ColorType::Rgb, None, &[0; 12]);
    assert_eq!(convert_png_to_pal("photo.png", &data).err(), Some(ConvertError::NotIndexed));
}

#[test]
fn conversion_of_garbage_fails() {
    assert_eq!(convert_png_to_pal("x.png", &[1, 2, 3]).err(), Some(ConvertError::Decode));
}

#[test]
fn conversion_with_seven_palette_bytes_fails() {
    let info = ImageInfo {
        width: 1,
        height: 1,
        color_mode: ColorMode::Indexed,
        palette: Some(vec![1, 2, 3, 4, 5, 6, 7]),
    };
    assert_eq!(convert_info("a.png", &info).err(), Some(ConvertError::InvalidPaletteLength));
}

#[test]
fn conversion_checks_the_mode_before_the_palette() {
    let info = ImageInfo { width: 1, height: 1, color_mode: ColorMode::Rgb, palette: None };
    assert_eq!(convert_info("a.png", &info).err(), Some(ConvertError::NotIndexed));
    let info = ImageInfo { width: 1, height: 1, color_mode: ColorMode::Indexed, palette: None };
    assert_eq!(convert_info("a.png", &info).err(), Some(ConvertError::NoPalette));
}

#[test]
fn conversion_of_metadata_builds_the_file() {
    let info = ImageInfo {
        width: 1,
        height: 1,
        color_mode: ColorMode::Indexed,
        palette: Some(vec![255, 0, 7]),
    };
    let file = convert_info("/a/b/tile.PNG", &info).unwrap();
    assert_eq!(file.path, "/a/b/tile.pal");
    assert_eq!(String::from_utf8(file.contents).unwrap(), "JASC-PAL\n0100\n1\n255 0 7\n");
}

fn crc32(bytes: &[u8]) -> u32 {
    let mut crc: u32 = 0xffff_ffff;
    for byte in bytes {
        crc ^= u32::from(*byte);
        for _ in 0..8 {
            crc = if crc & 1 == 1 { (crc >> 1) ^ 0xedb8_8320 } else { crc >> 1 };
        }
    }
    !crc
}

fn chunk(kind: &[u8; 4], body: &[u8]) -> Vec<u8> {
    let mut out = (body.len() as u32).to_be_bytes().to_vec();
    let mut checked = kind.to_vec();
    checked.extend_from_slice(body);
    out.extend_from_slice(&checked);
    out.extend_from_slice(&crc32(&checked).to_be_bytes());
    out
}

#[test]
fn load_refuses_a_frame_too_large_to_address() {
    let mut data = vec![0x89, b'P', b'N', b'G', 0x0d, 0x0a, 0x1a, 0x0a];
    let mut header = Vec::new();
    header.extend_from_slice(&0x7fff_ffffu32.to_be_bytes());
    header.extend_from_slice(&0x7fff_ffffu32.to_be_bytes());
    header.extend_from_slice(&[16, 6, 0, 0, 0]);
    data.extend_from_slice(&chunk(b"IHDR", &header));
    data.extend_from_slice(&chunk(b"IDAT", &[0x78, 0x9c, 0x03, 0x00, 0x00, 0x00, 0x00, 0x01]));
    data.extend_from_slice(&chunk(b"IEND", &[]));
    let error = load_png(&data).err();
    assert!(error == Some(ConvertError::Decode) || error == Some(ConvertError::SizeUnknown));
}

#[test]
fn answer_of_the_decoder_passes_through() {
    assert_eq!(decoded(Ok(5u32)), Ok(5u32));
    assert_eq!(decoded(Ok(vec![1u8, 2])), Ok(vec![1u8, 2]));
}

#[test]
fn error_of_the_decoder_becomes_decode() {
    assert_eq!(decoded::<u32>(Err(png::DecodingError::LimitsExceeded)), Err(ConvertError::Decode));
    let io = std::io::Error::new(std::io::ErrorKind::UnexpectedEof, "short");
    assert_eq!(decoded::<()>(Err(png::DecodingError::IoError(io))), Err(ConvertError::Decode));
}

#[test]
fn frame_buffer_is_zero_filled() {
    assert_eq!(frame_buffer(Some(3)), Ok(vec![0u8, 0, 0]));
    assert_eq!(frame_buffer(Some(0)), Ok(vec![]));
}

#[test]
fn frame_buffer_without_a_size_fails() {
    assert_eq!(frame_buffer(None), Err(ConvertError::SizeUnknown));
}
