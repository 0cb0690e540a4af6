use imagecodes::gen_jpeg;
use imagecodes::gen_png_buf;
use imagecodes::gen_svg;
use imagecodes::matrix::encode_matrix;
use imagecodes::raster::rasterize_matrix;
use imagecodes::render_linear_raster;
use imagecodes::render_matrix_raster;
use imagecodes::render_matrix_svg;
use imagecodes::EncodeError;
use imagecodes::Error;
use imagecodes::RasterFormat;
use imagecodes::RenderError;

fn be32(b: &[u8]) -> u32 {
    ((b[0] as u32) << 24) | ((b[1] as u32) << 16) | ((b[2] as u32) << 8) | (b[3] as u32)
}

fn golden_foo_png() -> Vec<u8> {
    vec![
        137, 80, 78, 71, 13, 10, 26, 10, 0, 0, 0, 13, 73, 72, 68, 82, 0, 0, 0, 21, 0, 0, 0, 21, 8,
        0, 0, 0, 0, 140, 124, 250, 74, 0, 0, 0, 141, 73, 68, 65, 84, 120, 156, 77, 205, 1, 22, 2,
        49, 12, 2, 209, 246, 254, 135, 94, 63, 160, 251, 36, 53, 133, 73, 182, 222, 51, 61, 231,
        62, 247, 56, 21, 167, 127, 81, 70, 194, 185, 9, 54, 75, 49, 149, 36, 244, 30, 74, 75, 122,
        41, 20, 182, 132, 122, 168, 57, 255, 161, 19, 58, 201, 45, 150, 54, 164, 230, 191, 96,
        197, 101, 13, 107, 116, 82, 179, 118, 250, 169, 232, 210, 59, 138, 11, 116, 51, 104, 154,
        128, 133, 42, 41, 6, 15, 78, 249, 68, 155, 24, 7, 193, 189, 48, 197, 135, 107, 233, 121,
        33, 198, 22, 201, 128, 221, 26, 244, 55, 74, 126, 169, 110, 139, 98, 94, 90, 7, 247, 199,
        155, 241, 53, 26, 151, 141, 105, 190, 3, 225, 3, 10, 41, 110, 16, 248, 95, 17, 190, 0, 0,
        0, 0, 73, 69, 78, 68, 174, 66, 96, 130,
    ]
}

#[test]
fn gen_png_buf_test() {
    let expected = golden_foo_png();
    assert_eq!(gen_png_buf("foo".to_string(), 5), expected);
}

#[test]
fn gen_svg_test() {
    // The reference markup is what the qrcode renderer produces for the
    // same payload, size, palette and quiet-zone policy.
    let code = qrcode::QrCode::with_error_correction_level("f", qrcode::EcLevel::L).unwrap();
    let expected = code
        .render()
        .min_dimensions(2, 2)
        .quiet_zone(false)
        .dark_color(qrcode::render::svg::Color("#000000"))
        .light_color(qrcode::render::svg::Color("#ffffff"))
        .build();
    assert_eq!(gen_svg("f".to_string(), 2), expected);
}

#[test]
fn long_data_test() {
    let url = "aaaaaaaaaaaaaaaaaaaaaaaaaaaaaaaaaaaaaaaaaaaaaaaaaaaaaaaaaaaaaaaaaaaaaaaaaaaaaaaaaaaaaaaaaaaaaaaaaaaa";
    gen_png_buf(url.to_string(), 5);
}

#[test]
fn render_matrix_raster_matches_golden() {
    let got = render_matrix_raster("foo", 5, RasterFormat::Png).unwrap();
    assert_eq!(got, golden_foo_png());
}

#[test]
fn svg_deterministic() {
    let a = render_matrix_svg("f", 2).unwrap();
    let b = render_matrix_svg("f", 2).unwrap();
    assert_eq!(a, b);
    assert_eq!(a, gen_svg("f".to_string(), 2));
}

#[test]
fn svg_structure() {
    let a = render_matrix_svg("f", 2).unwrap();
    // version 1 symbol at scale 1: 21 pixels a side
    assert!(a.starts_with(
        "<?xml version=\"1.0\" standalone=\"yes\"?><svg xmlns=\"http://www.w3.org/2000/svg\" version=\"1.1\" width=\"21\" height=\"21\""
    ));
    assert!(a.ends_with("\"/></svg>"));
    assert!(a.contains("fill=\"#ffffff\""));
    assert!(a.contains("fill=\"#000000\""));
}

#[test]
fn raster_deterministic() {
    let a = render_matrix_raster("foo", 31, RasterFormat::Png).unwrap();
    let b = render_matrix_raster("foo", 31, RasterFormat::Png).unwrap();
    assert_eq!(a, b);
    let c = render_linear_raster("123456789012", 31, RasterFormat::Jpeg).unwrap();
    let d = render_linear_raster("123456789012", 31, RasterFormat::Jpeg).unwrap();
    assert_eq!(c, d);
}

#[test]
fn raster_covers_requested_size() {
    // "foo" encodes as a 21-module symbol; size 50 needs scale 3, so 63x63
    let png = render_matrix_raster("foo", 50, RasterFormat::Png).unwrap();
    assert_eq!(be32(&png[16..20]), 63);
    assert_eq!(be32(&png[20..24]), 63);
    assert!(be32(&png[16..20]) >= 50);
    // exact multiple: size 42 is hit exactly
    let png = render_matrix_raster("foo", 42, RasterFormat::Png).unwrap();
    assert_eq!(be32(&png[16..20]), 42);
    // size 1 still yields the full symbol
    let png = render_matrix_raster("foo", 1, RasterFormat::Png).unwrap();
    assert_eq!(be32(&png[16..20]), 21);
    assert!(be32(&png[16..20]) >= 1);
}

#[test]
fn capacity_exceeded_reported() {
    let long: String = std::iter::repeat('a').take(3000).collect();
    assert_eq!(
        encode_matrix(&long).err().unwrap(),
        EncodeError::CapacityExceeded
    );
    assert_eq!(
        render_matrix_svg(&long, 200),
        Err(Error::Encode(EncodeError::CapacityExceeded))
    );
    assert_eq!(
        render_matrix_raster(&long, 200, RasterFormat::Png),
        Err(Error::Encode(EncodeError::CapacityExceeded))
    );
}

#[test]
fn capacity_boundary_still_encodes() {
    // near the low-error-correction byte capacity, well past small versions
    let big: String = std::iter::repeat('a').take(2900).collect();
    let png = render_matrix_raster(&big, 5, RasterFormat::Png).unwrap();
    assert_eq!(&png[0..8], &[137, 80, 78, 71, 13, 10, 26, 10]);
}

#[test]
fn jpeg_markers_present() {
    let jpeg = render_matrix_raster("foo", 5, RasterFormat::Jpeg).unwrap();
    assert_eq!(&jpeg[0..2], &[0xFF, 0xD8]);
    assert_eq!(&jpeg[jpeg.len() - 2..], &[0xFF, 0xD9]);
    assert_eq!(jpeg, gen_jpeg("foo".to_string(), 5));
}

#[test]
fn linear_render_errors() {
    assert_eq!(
        render_linear_raster("12345678901", 100, RasterFormat::Png),
        Err(Error::Encode(EncodeError::InvalidInput))
    );
    assert_eq!(
        render_linear_raster("1234567890123", 100, RasterFormat::Png),
        Err(Error::Encode(EncodeError::ChecksumMismatch))
    );
}

#[test]
fn jpeg_dimension_limit_is_encode_failure() {
    // scale for size 70000 over 21 modules overshoots JPEG's 16-bit limit
    assert_eq!(
        render_matrix_raster("foo", 70000, RasterFormat::Jpeg),
        Err(Error::Render(RenderError::EncodeFailure))
    );
    assert_eq!(
        render_linear_raster("123456789012", 70000, RasterFormat::Jpeg),
        Err(Error::Render(RenderError::EncodeFailure))
    );
}

#[test]
fn raster_round_trip_decodes_payload() {
    let m = encode_matrix("hello").unwrap();
    let buf = rasterize_matrix(&m, 210).unwrap();
    let w = buf.width as usize;
    let h = buf.height as usize;
    // a scanner needs a quiet zone around the symbol; the renderer omits
    // it on purpose, so pad with white before handing it to the decoder
    let margin = 40usize;
    let pw = w + 2 * margin;
    let ph = h + 2 * margin;
    let mut img = vec![255u8; pw * ph];
    for y in 0..h {
        for x in 0..w {
            img[(y + margin) * pw + (x + margin)] = buf.data[y * w + x];
        }
    }
    let mut prepared = rqrr::PreparedImage::prepare_from_greyscale(pw, ph, |x, y| img[y * pw + x]);
    let grids = prepared.detect_grids();
    assert_eq!(grids.len(), 1);
    let (_meta, content) = grids[0].decode().unwrap();
    assert_eq!(content, "hello");
}

#[test]
fn pixel_buffer_is_black_on_white() {
    let m = encode_matrix("foo").unwrap();
    let buf = rasterize_matrix(&m, 5).unwrap();
    assert_eq!(buf.width, 21);
    assert_eq!(buf.height, 21);
    assert_eq!(buf.data.len(), 21 * 21);
    let mut blacks = 0usize;
    let mut whites = 0usize;
    for p in &buf.data {
        if *p == 0 {
            blacks += 1;
        } else if *p == 255 {
            whites += 1;
        }
    }
    assert_eq!(blacks + whites, buf.data.len());
    // a finder pattern alone guarantees both colors appear
    assert!(blacks > 0 && whites > 0);
}
