use oli_style::filter::apply_mode_filter;
use oli_style::get_oli_style;
use oli_style::grid::Grid;
use oli_style::mode::get_dominant_color_in_window;
use oli_style::mode::mode_color;
use oli_style::pixel::Pixel;
use oli_style::window::window_pixels;
use oli_style::OliError;

fn px(r: u8, g: u8, b: u8, a: u8) -> Pixel {
    Pixel::new(r, g, b, a)
}

fn grid_of(width: u32, height: u32, pixels: Vec<Pixel>) -> Grid {
    Grid::new(width, height, pixels).expect("dimensions must match the buffer")
}

fn png_bytes(width: u32, height: u32, pixels: &[Pixel]) -> Vec<u8> {
    let mut raw: Vec<u8> = Vec::new();
    for p in pixels {
        let q = *p;
        raw.push(q.r);
        raw.push(q.g);
        raw.push(q.b);
        raw.push(q.a);
    }
    let buf = image::RgbaImage::from_raw(width, height, raw).expect("buffer size");
    let mut cur = std::io::Cursor::new(Vec::new());
    buf.write_to(&mut cur, image::ImageFormat::Png).expect("png encode");
    cur.into_inner()
}

fn decode_pixels(data: &[u8]) -> (u32, u32, Vec<Pixel>) {
    let img = image::load_from_memory(data).expect("png decode").to_rgba8();
    let (w, h) = (img.width(), img.height());
    let pixels = img
        .pixels()
        .map(|p| Pixel::new(p.0[0], p.0[1], p.0[2], p.0[3]))
        .collect();
    (w, h, pixels)
}

#[test]
fn window_one_is_identity() {
    let pixels = vec![
        px(1, 2, 3, 255),
        px(4, 5, 6, 255),
        px(7, 8, 9, 255),
        px(10, 11, 12, 255),
        px(13, 14, 15, 255),
        px(16, 17, 18, 255),
        px(19, 20, 21, 255),
        px(22, 23, 24, 255),
        px(25, 26, 27, 255),
    ];
    let g = grid_of(3, 3, pixels.clone());
    let out = apply_mode_filter(&g, 1);
    assert_eq!(out.pixels, pixels);
}

#[test]
fn output_dimensions_match_input() {
    let pixels: Vec<Pixel> = (0..15u8).map(|i| px(i, i, i, 255)).collect();
    let g = grid_of(5, 3, pixels);
    let out = apply_mode_filter(&g, 4);
    assert_eq!(out.width, 5);
    assert_eq!(out.height, 3);
    assert_eq!(out.pixels.len(), 15);
}

#[test]
fn uniform_region_keeps_its_color() {
    let c = px(40, 80, 120, 200);
    let g = grid_of(4, 4, vec![c; 16]);
    let out = apply_mode_filter(&g, 3);
    assert_eq!(out.pixels, vec![c; 16]);
}

#[test]
fn single_pixel_with_large_window() {
    let c = px(9, 9, 9, 9);
    let g = grid_of(1, 1, vec![c]);
    let out = apply_mode_filter(&g, 5);
    assert_eq!(out.pixels, vec![c]);
}

#[test]
fn single_pixel_png_with_large_window() {
    let c = px(200, 100, 50, 255);
    let data = png_bytes(1, 1, &[c]);
    let out = get_oli_style(&data, 5).expect("stylize");
    let (w, h, pixels) = decode_pixels(&out);
    assert_eq!((w, h), (1, 1));
    assert_eq!(pixels, vec![c]);
}

#[test]
fn four_by_four_red_and_blue_blocks() {
    let red = px(255, 0, 0, 255);
    let blue = px(0, 0, 255, 255);
    let mut pixels = Vec::new();
    for y in 0..4u32 {
        for x in 0..4u32 {
            pixels.push(if x < 2 && y < 2 { red } else { blue });
        }
    }
    let data = png_bytes(4, 4, &pixels);
    let out = get_oli_style(&data, 2).expect("stylize");
    let (w, h, result) = decode_pixels(&out);
    assert_eq!((w, h), (4, 4));
    // (0, 0): the whole window is red.
    assert_eq!(result[0], red);
    // (3, 3): the clipped window holds only the one blue pixel.
    assert_eq!(result[15], blue);
    // (1, 1): one red sample against three blue ones.
    assert_eq!(result[5], blue);
}

#[test]
fn png_round_trip_is_exact_for_window_one() {
    let pixels = vec![
        px(0, 0, 0, 255),
        px(255, 255, 255, 255),
        px(12, 34, 56, 78),
        px(90, 12, 34, 255),
        px(5, 6, 7, 8),
        px(250, 240, 230, 220),
    ];
    let data = png_bytes(3, 2, &pixels);
    let out = get_oli_style(&data, 1).expect("stylize");
    let (w, h, result) = decode_pixels(&out);
    assert_eq!((w, h), (3, 2));
    assert_eq!(result, pixels);
}

#[test]
fn window_zero_is_a_config_error() {
    let data = png_bytes(1, 1, &[px(1, 2, 3, 4)]);
    assert_eq!(get_oli_style(&data, 0), Err(OliError::Config));
}

#[test]
fn unrecognized_bytes_are_a_decode_error() {
    let data = b"this is not an image at all";
    assert_eq!(get_oli_style(data, 5), Err(OliError::Decode));
}

#[test]
fn truncated_png_is_a_decode_error() {
    let mut data = png_bytes(2, 2, &[px(1, 1, 1, 255); 4]);
    data.truncate(data.len() / 2);
    assert_eq!(get_oli_style(&data, 3), Err(OliError::Decode));
}

#[test]
fn mode_prefers_the_more_frequent_color() {
    let a = px(10, 0, 0, 255);
    let b = px(0, 10, 0, 255);
    assert_eq!(mode_color(&vec![a, b, b]), b);
    assert_eq!(mode_color(&vec![b, a, a, b, a]), a);
}

#[test]
fn mode_tie_breaks_to_the_first_occurrence() {
    let a = px(10, 0, 0, 255);
    let b = px(0, 10, 0, 255);
    assert_eq!(mode_color(&vec![a, b]), a);
    assert_eq!(mode_color(&vec![b, a, b, a]), b);
}

#[test]
fn mode_of_nothing_is_opaque_black() {
    assert_eq!(mode_color(&Vec::new()), px(0, 0, 0, 255));
}

#[test]
fn window_is_clipped_at_the_edges() {
    let pixels = vec![
        px(1, 0, 0, 255),
        px(2, 0, 0, 255),
        px(3, 0, 0, 255),
        px(4, 0, 0, 255),
    ];
    let g = grid_of(2, 2, pixels.clone());
    // Anchored at the bottom-right corner, only that pixel is in bounds.
    assert_eq!(window_pixels(&g, 1, 1, 3), vec![pixels[3]]);
    // Anchored at the origin, the full grid in row-major order.
    assert_eq!(window_pixels(&g, 0, 0, 2), pixels);
    // Anchored mid-row, the right column is clipped away.
    assert_eq!(window_pixels(&g, 1, 0, 2), vec![pixels[1], pixels[3]]);
}

#[test]
fn dominant_color_of_a_mixed_window() {
    let a = px(1, 1, 1, 255);
    let b = px(2, 2, 2, 255);
    let g = grid_of(2, 2, vec![a, b, b, b]);
    assert_eq!(get_dominant_color_in_window(&g, 0, 0, 2), b);
    assert_eq!(get_dominant_color_in_window(&g, 1, 1, 2), b);
}
