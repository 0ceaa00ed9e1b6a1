use nano_upload::encode::{
    buffer_matches, extension_or_default, file_extension, image_to_png_bytes, EncodeError,
};
use nano_upload::snapshot::RawImage;

fn decode(file: &[u8]) -> (u32, u32, png::ColorType, png::BitDepth, Vec<u8>) {
    let decoder = png::Decoder::new(file);
    let mut reader = decoder.read_info().unwrap();
    let mut pixels = vec![0; reader.output_buffer_size()];
    let info = reader.next_frame(&mut pixels).unwrap();
    pixels.truncate(info.buffer_size());
    (info.width, info.height, info.color_type, info.bit_depth, pixels)
}

fn synthetic(width: usize, height: usize) -> RawImage {
    let mut bytes = Vec::with_capacity(width * height * 4);
    for y in 0..height {
        for x in 0..width {
            bytes.push((x % 256) as u8);
            bytes.push((y % 256) as u8);
            bytes.push(((x + y) % 256) as u8);
            bytes.push(((x * 7 + y * 3) % 256) as u8);
        }
    }
    RawImage { width, height, bytes }
}

fn assert_round_trip(image: &RawImage) {
    let file = image_to_png_bytes(image).unwrap();
    assert_eq!(&file[..8], &[137, 80, 78, 71, 13, 10, 26, 10]);
    let (width, height, color, depth, pixels) = decode(&file);
    assert_eq!(width as usize, image.width);
    assert_eq!(height as usize, image.height);
    assert_eq!(color, png::ColorType::Rgba);
    assert_eq!(depth, png::BitDepth::Eight);
    assert_eq!(pixels, image.bytes);
}

#[test]
fn round_trip_single_pixel() {
    assert_round_trip(&RawImage { width: 1, height: 1, bytes: vec![1, 2, 3, 4] });
}

#[test]
fn round_trip_transparent_pixels() {
    let image = RawImage {
        width: 2,
        height: 2,
        bytes: vec![255, 0, 0, 0, 0, 255, 0, 128, 0, 0, 255, 255, 9, 9, 9, 1],
    };
    assert_round_trip(&image);
}

#[test]
fn round_trip_large_square() {
    assert_round_trip(&synthetic(1024, 1024));
}

#[test]
fn round_trip_single_row_and_single_column() {
    assert_round_trip(&synthetic(1024, 1));
    assert_round_trip(&synthetic(1, 1024));
}

#[test]
fn encoding_differs_from_its_input() {
    let image = RawImage { width: 1, height: 1, bytes: vec![1, 2, 3, 4] };
    assert_ne!(image_to_png_bytes(&image).unwrap(), image.bytes);
}

#[test]
fn short_buffer_is_rejected() {
    let image = RawImage { width: 2, height: 2, bytes: vec![0; 15] };
    assert_eq!(image_to_png_bytes(&image), Err(EncodeError::BufferSize));
}

#[test]
fn long_buffer_is_rejected() {
    let image = RawImage { width: 1, height: 1, bytes: vec![0; 5] };
    assert_eq!(image_to_png_bytes(&image), Err(EncodeError::BufferSize));
}

#[test]
fn overflowing_dimensions_are_a_buffer_mismatch() {
    let image = RawImage { width: usize::MAX, height: 2, bytes: vec![0; 8] };
    assert_eq!(image_to_png_bytes(&image), Err(EncodeError::BufferSize));
}

#[test]
fn dimension_beyond_32_bits_is_rejected() {
    let image = RawImage { width: (u32::MAX as usize) + 1, height: 0, bytes: vec![] };
    assert_eq!(image_to_png_bytes(&image), Err(EncodeError::Dimensions));
}

#[test]
fn empty_image_is_refused_by_the_encoder() {
    let image = RawImage { width: 0, height: 0, bytes: vec![] };
    assert_eq!(image_to_png_bytes(&image), Err(EncodeError::Rejected));
    let flat = RawImage { width: 3, height: 0, bytes: vec![] };
    assert_eq!(image_to_png_bytes(&flat), Err(EncodeError::Rejected));
}

#[test]
fn buffer_length_formula() {
    assert!(buffer_matches(1, 1, 4));
    assert!(buffer_matches(1024, 1024, 4_194_304));
    assert!(buffer_matches(3, 5, 60));
    assert!(buffer_matches(0, 7, 0));
    assert!(!buffer_matches(3, 5, 59));
    assert!(!buffer_matches(3, 5, 15));
    assert!(!buffer_matches(usize::MAX, usize::MAX, 4));
    assert!(!buffer_matches(usize::MAX / 2, 1, usize::MAX - 3));
}

#[test]
fn extension_is_taken_from_the_file_name() {
    assert_eq!(file_extension("/tmp/report.pdf"), "pdf");
    assert_eq!(file_extension("archive.tar.gz"), "gz");
    assert_eq!(file_extension("dir.d/notes.md"), "md");
}

#[test]
fn missing_extension_defaults_to_txt() {
    assert_eq!(file_extension("/tmp/report"), "txt");
    assert_eq!(file_extension(".hidden"), "txt");
    assert_eq!(file_extension("dir.d/notes"), "txt");
    assert_eq!(file_extension(""), "txt");
}

#[test]
fn trailing_dot_gives_an_empty_extension() {
    assert_eq!(file_extension("report."), "");
}

#[test]
fn default_applies_only_when_nothing_was_found() {
    assert_eq!(extension_or_default(Some("pdf".to_string())), "pdf");
    assert_eq!(extension_or_default(Some(String::new())), "");
    assert_eq!(extension_or_default(None), "txt");
}

#[test]
fn extension_belongs_to_the_final_component() {
    assert_eq!(file_extension("a.b"), "b");
    assert_eq!(file_extension("dir.d/"), "d");
    assert_eq!(file_extension("notes.md/.//"), "md");
    assert_eq!(file_extension("a/./b.c"), "c");
    assert_eq!(file_extension("./a.rs"), "rs");
    assert_eq!(file_extension(".a.b"), "b");
    assert_eq!(file_extension("..a"), "a");
    assert_eq!(file_extension("/a.b/c"), "txt");
    assert_eq!(file_extension("x/.h/"), "txt");
}

#[test]
fn dots_alone_carry_no_extension_but_the_empty_one() {
    assert_eq!(file_extension("."), "txt");
    assert_eq!(file_extension("./"), "txt");
    assert_eq!(file_extension("/."), "txt");
    assert_eq!(file_extension(".."), "txt");
    assert_eq!(file_extension("b/.."), "txt");
    assert_eq!(file_extension("b.c/../"), "txt");
    assert_eq!(file_extension("/"), "txt");
    assert_eq!(file_extension("..."), "");
    assert_eq!(file_extension("a./."), "");
}
