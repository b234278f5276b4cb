use ascii_art::grid::RgbGrid;
use ascii_art::pixel::{get_luminosity, invert};
use ascii_art::ramp::{map_to_text, ramp_index, BRIGHTNESS, RAMP_LEN};
use ascii_art::render::{ascii_art, render};

fn solid(width: u32, height: u32, value: u8) -> RgbGrid {
    let data = vec![value; (3 * width * height) as usize];
    RgbGrid::from_raw(width, height, data).unwrap()
}

#[test]
fn ramp_has_declared_length() {
    assert_eq!(BRIGHTNESS.chars().count(), RAMP_LEN);
}

#[test]
fn glyph_lookup_exact_values() {
    assert_eq!(map_to_text(0), '`');
    assert_eq!(map_to_text(1), '`');
    assert_eq!(map_to_text(4), '^');
    assert_eq!(map_to_text(100), 't');
    assert_eq!(map_to_text(128), 'v');
    assert_eq!(map_to_text(200), 'b');
    assert_eq!(map_to_text(254), '@');
    assert_eq!(map_to_text(255), '$');
}

#[test]
fn glyph_lookup_is_monotonic() {
    for v in 0u8..255 {
        assert!(ramp_index(v) <= ramp_index(v + 1));
    }
}

#[test]
fn glyph_lookup_boundaries() {
    assert_eq!(ramp_index(0), 0);
    assert_eq!(ramp_index(255), RAMP_LEN - 1);
}

#[test]
fn inversion_is_involution() {
    assert_eq!(invert(0), 255);
    assert_eq!(invert(255), 0);
    assert_eq!(invert(100), 155);
    for v in 0u8..=255 {
        assert_eq!(invert(invert(v)), v);
    }
}

#[test]
fn luminosity_is_truncated_average() {
    assert_eq!(get_luminosity(&[10, 20, 31]), 20);
    assert_eq!(get_luminosity(&[0, 0, 2]), 0);
    assert_eq!(get_luminosity(&[255, 255, 255]), 255);
    assert_eq!(get_luminosity(&[255, 255, 254]), 254);
    assert_eq!(get_luminosity(&[0, 0, 0]), 0);
}

#[test]
fn from_raw_checks_length() {
    assert!(RgbGrid::from_raw(2, 2, vec![0; 11]).is_none());
    assert!(RgbGrid::from_raw(2, 2, vec![0; 13]).is_none());
    let g = RgbGrid::from_raw(2, 2, vec![0; 12]).unwrap();
    assert_eq!(g.width(), 2);
    assert_eq!(g.height(), 2);
}

#[test]
fn pixel_reads_row_major() {
    let data: Vec<u8> = (0u8..18).collect();
    let g = RgbGrid::from_raw(3, 2, data).unwrap();
    assert_eq!(g.pixel(0, 0), [0, 1, 2]);
    assert_eq!(g.pixel(0, 2), [6, 7, 8]);
    assert_eq!(g.pixel(1, 0), [9, 10, 11]);
    assert_eq!(g.pixel(1, 2), [15, 16, 17]);
}

#[test]
fn resize_gives_requested_shape() {
    let g = solid(10, 10, 40);
    let r = g.resize(5, 5);
    assert_eq!(r.width(), 5);
    assert_eq!(r.height(), 5);
    assert_eq!(r.as_bytes().len(), 75);
    assert!(r.as_bytes().iter().all(|&b| b == 40));

    let r = solid(4, 2, 0).resize(7, 3);
    assert_eq!((r.width(), r.height()), (7, 3));
    assert_eq!(r.as_bytes().len(), 63);
}

#[test]
fn render_draws_each_pixel_three_times() {
    let g = RgbGrid::from_raw(2, 2, vec![0, 0, 0, 255, 255, 255, 100, 100, 100, 128, 128, 128]).unwrap();
    assert_eq!(render(&g, false), "```$$$\ntttvvv\n");
    assert_eq!(render(&g, true), "$$$```\nJJJuuu\n");
}

#[test]
fn render_of_empty_grid_is_empty() {
    let g = RgbGrid::from_raw(0, 0, vec![]).unwrap();
    assert_eq!(render(&g, false), "");
}

#[test]
fn black_image_renders_darkest_glyph() {
    let out = ascii_art(&solid(10, 10, 0), 5, 5, false);
    let line = "`".repeat(15);
    let lines: Vec<&str> = out.lines().collect();
    assert_eq!(lines.len(), 5);
    assert!(lines.iter().all(|l| *l == line));
    assert_eq!(out, format!("{}\n", line).repeat(5));
}

#[test]
fn white_image_inverted_renders_darkest_glyph() {
    let out = ascii_art(&solid(10, 10, 255), 5, 5, true);
    let line = "`".repeat(15);
    let lines: Vec<&str> = out.lines().collect();
    assert_eq!(lines.len(), 5);
    assert!(lines.iter().all(|l| *l == line));
}

#[test]
fn white_image_renders_brightest_glyph() {
    let out = ascii_art(&solid(10, 10, 255), 3, 2, false);
    assert_eq!(out, "$$$$$$$$$\n$$$$$$$$$\n");
}
