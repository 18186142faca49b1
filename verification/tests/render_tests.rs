use fractal::render::{fill, fill_buffer, pixel_coords, FRACTAL_DEPTH};

/// A point that escapes after exactly one quadratic step is drawn at
/// intensity 32: at angle 0 the pixel at the top-left corner starts at
/// (-2.0, -2.0), one step takes it to (1.0, 8.0), and |1 + 8| = 9 exceeds
/// the escape threshold 4, so its count is 1 and its value 1 * 32 = 32.
#[test]
fn fill_first_step_escape_is_32() {
    assert_eq!(fill(1), 32);
}

/// A pixel whose iteration ran to the depth cap is drawn black.
#[test]
fn fill_depth_cap_is_zero() {
    assert_eq!(fill(FRACTAL_DEPTH), 0);
    assert_eq!(fill(32), 0);
}

/// The spread formula `(n * 32) % 255` wraps past 255 rather than clamping.
#[test]
fn fill_formula_exact_values() {
    assert_eq!(fill(0), 0);
    assert_eq!(fill(2), 64);
    assert_eq!(fill(7), 224);
    assert_eq!(fill(8), 1); // 256 % 255
    assert_eq!(fill(16), 2); // 512 % 255
    assert_eq!(fill(31), 227); // 992 % 255
}

/// Every reachable count maps either to exactly zero or into [1, 255).
#[test]
fn fill_output_range_over_all_counts() {
    for n in 0..=FRACTAL_DEPTH {
        let v: u32 = fill(n);
        let expected: u32 = if n == FRACTAL_DEPTH { 0 } else { (n * 32) % 255 };
        assert_eq!(v, expected);
        assert!(v == 0 || v < 255);
    }
}

/// On a square grid the column/row split is the ordinary row-major one.
#[test]
fn pixel_coords_square_grid() {
    assert_eq!(pixel_coords(0, 256, 256), (0, 0));
    assert_eq!(pixel_coords(255, 256, 256), (255, 0));
    assert_eq!(pixel_coords(256, 256, 256), (0, 1));
    assert_eq!(pixel_coords(511, 256, 256), (255, 1));
    assert_eq!(pixel_coords(256 * 256 - 1, 256, 256), (255, 255));
}

/// On a non-square grid the row divides by the height, not the width, so
/// the mapping is systematically distorted: in a 4-wide, 2-high grid the
/// index 4 (row-major row 1) lands on "row" 2, and the last index on
/// "row" 3, both outside the 2-row image. The quirk is deliberate; the
/// viewer only ever uses square grids.
#[test]
fn pixel_coords_row_divides_by_height() {
    assert_eq!(pixel_coords(4, 4, 2), (0, 2));
    assert_eq!(pixel_coords(7, 4, 2), (3, 3));
    // The ordinary row-major row would have been i / width:
    assert_ne!(pixel_coords(4, 4, 2).1, 4 / 4usize);
}

/// Filling a buffer writes exactly `fill` of each count, in place.
#[test]
fn fill_buffer_matches_fill() {
    let counts: Vec<u32> = vec![0, 1, 8, 31, 32];
    let mut buffer: Vec<u32> = vec![99; 5];
    fill_buffer(&mut buffer, &counts);
    assert_eq!(buffer, vec![0, 32, 1, 227, 0]);
}

/// Rendering the same counts twice gives bit-identical buffers.
#[test]
fn fill_buffer_deterministic() {
    let counts: Vec<u32> = (0..=32).collect();
    let mut first: Vec<u32> = vec![0; counts.len()];
    let mut second: Vec<u32> = vec![7; counts.len()];
    fill_buffer(&mut first, &counts);
    fill_buffer(&mut second, &counts);
    assert_eq!(first, second);
}
