use escape_time::grid::pixel_index;
use escape_time::normalize::intensity_to_channel;
use escape_time::{EscapeCounter, FractalError, PixelGrid};
use num::complex::{Complex, Complex64};

/// Drive one orbit of the Mandelbrot rule (`z' = z^2 + c`, starting at 0)
/// against the library's verified counter.
fn mandelbrot_count(c: Complex64, escape_limit: f64, iter_limit: u32) -> u32 {
    let mut z = Complex64::new(0.0, 0.0);
    let mut counter = EscapeCounter::new(iter_limit);
    while !counter.is_done() {
        counter.record(z.norm_sqr() >= escape_limit);
        if !counter.is_done() {
            z = z.powf(2.0) + c;
        }
    }
    counter.count()
}

/// The burning-ship rule: absolute values of both components before squaring.
fn burning_ship_count(c: Complex64, escape_limit: f64, iter_limit: u32) -> u32 {
    let mut z = Complex64::new(0.0, 0.0);
    let mut counter = EscapeCounter::new(iter_limit);
    while !counter.is_done() {
        counter.record(z.norm_sqr() >= escape_limit);
        if !counter.is_done() {
            z = Complex {
                re: z.re.abs(),
                im: z.im.abs(),
            }
            .powf(2.0)
                + c;
        }
    }
    counter.count()
}

/// The fixed-parameter Julia rule: `z' = z^2 + k`, starting at the sample.
fn julia_count(z0: Complex64, k: Complex64, escape_limit: f64, iter_limit: u32) -> u32 {
    let mut z = z0;
    let mut counter = EscapeCounter::new(iter_limit);
    while !counter.is_done() {
        counter.record(z.norm_sqr() >= escape_limit);
        if !counter.is_done() {
            z = z.powf(2.0) + k;
        }
    }
    counter.count()
}

#[test]
fn origin_never_escapes() {
    let c = Complex64::new(0.0, 0.0);
    assert_eq!(mandelbrot_count(c, 1000000.0, 200), 200);
}

#[test]
fn far_point_escapes_on_first_iteration() {
    let c = Complex64::new(10.0, 10.0);
    assert_eq!(mandelbrot_count(c, 4.0, 200), 1);
}

#[test]
fn count_never_exceeds_cap() {
    let limit: u32 = 50;
    for re in -3..4 {
        for im in -3..4 {
            let c = Complex64::new(re as f64 * 0.7, im as f64 * 0.7);
            assert!(mandelbrot_count(c, 1000000.0, limit) <= limit);
            assert!(burning_ship_count(c, 1000000.0, limit) <= limit);
        }
    }
}

#[test]
fn zero_iteration_cap_returns_zero() {
    let c = Complex64::new(0.3, 0.1);
    assert_eq!(mandelbrot_count(c, 1000000.0, 0), 0);
}

#[test]
fn julia_sample_already_escaped_counts_zero() {
    let z0 = Complex64::new(2.0, 0.0);
    let k = Complex64::new(0.0, 0.0);
    assert_eq!(julia_count(z0, k, 4.0, 200), 0);
}

#[test]
fn julia_bounded_orbit_saturates() {
    let z0 = Complex64::new(0.0, 0.0);
    let k = Complex64::new(0.0, 0.0);
    assert_eq!(julia_count(z0, k, 1000000.0, 100), 100);
}

#[test]
fn burning_ship_matches_mandelbrot_in_first_quadrant() {
    let c = Complex64::new(0.3, 0.4);
    assert_eq!(
        burning_ship_count(c, 1000000.0, 100),
        mandelbrot_count(c, 1000000.0, 100)
    );
}

#[test]
fn evaluation_is_deterministic() {
    let c = Complex64::new(-0.1011, 0.9563);
    let first = mandelbrot_count(c, 1000000.0, 200);
    let second = mandelbrot_count(c, 1000000.0, 200);
    assert_eq!(first, second);
}

#[test]
fn new_grid_is_zero_filled() {
    let g = PixelGrid::new(3);
    assert_eq!(g.size(), 3);
    for x in 0..3 {
        for y in 0..3 {
            assert_eq!(g.count_at(x, y), 0);
        }
    }
}

#[test]
fn set_count_round_trips() {
    let mut g = PixelGrid::new(4);
    g.set_count(2, 3, 77);
    g.set_count(3, 0, 11);
    assert_eq!(g.count_at(2, 3), 77);
    assert_eq!(g.count_at(3, 0), 11);
    assert_eq!(g.count_at(0, 0), 0);
}

#[test]
fn pixel_index_is_row_major_and_injective() {
    let size: u32 = 4;
    let mut seen: Vec<usize> = Vec::new();
    for x in 0..size {
        for y in 0..size {
            let i = pixel_index(size, x, y);
            assert_eq!(i, (size * x + y) as usize);
            assert!(!seen.contains(&i));
            seen.push(i);
        }
    }
    assert_eq!(seen.len(), (size * size) as usize);
}

#[test]
fn max_escaped_ignores_saturated_cells() {
    let mut g = PixelGrid::new(2);
    g.set_count(0, 0, 5);
    g.set_count(0, 1, 200);
    g.set_count(1, 0, 7);
    g.set_count(1, 1, 200);
    assert_eq!(g.max_escaped(200), Some(7));
}

#[test]
fn max_escaped_of_saturated_grid_is_none() {
    let mut g = PixelGrid::new(2);
    for x in 0..2 {
        for y in 0..2 {
            g.set_count(x, y, 200);
        }
    }
    assert_eq!(g.max_escaped(200), None);
}

#[test]
fn max_escaped_can_be_zero() {
    let mut g = PixelGrid::new(1);
    g.set_count(0, 0, 0);
    assert_eq!(g.max_escaped(200), Some(0));
}

#[test]
fn normalization_exact_values() {
    let mut g = PixelGrid::new(2);
    g.set_count(0, 0, 3);
    g.set_count(0, 1, 5);
    g.set_count(1, 0, 10);
    g.set_count(1, 1, 200);
    let r = g.normalize(200);
    assert_eq!(r, Ok(10));
    assert_eq!(g.count_at(0, 0), 76); // floor(3 * 256 / 10)
    assert_eq!(g.count_at(0, 1), 128); // floor(5 * 256 / 10)
    assert_eq!(g.count_at(1, 0), 256); // the maximal escaped count
    assert_eq!(g.count_at(1, 1), 256); // saturated
}

#[test]
fn normalization_is_monotonic() {
    let size: u32 = 4;
    let mut g = PixelGrid::new(size);
    let mut c: u32 = 0;
    for x in 0..size {
        for y in 0..size {
            g.set_count(x, y, c);
            c += 1;
        }
    }
    assert_eq!(g.normalize(200), Ok(15));
    let mut previous: u32 = 0;
    for x in 0..size {
        for y in 0..size {
            let v = g.count_at(x, y);
            assert!(previous <= v);
            assert!(v <= 256);
            previous = v;
        }
    }
}

#[test]
fn only_max_and_saturated_reach_full_intensity() {
    let mut g = PixelGrid::new(2);
    g.set_count(0, 0, 9);
    g.set_count(0, 1, 10);
    g.set_count(1, 0, 200);
    g.set_count(1, 1, 200);
    assert_eq!(g.normalize(200), Ok(10));
    assert_eq!(g.count_at(0, 0), 230); // floor(9 * 256 / 10), strictly below 256
    assert_eq!(g.count_at(0, 1), 256);
    assert_eq!(g.count_at(1, 0), 256);
    assert_eq!(g.count_at(1, 1), 256);
}

#[test]
fn all_saturated_grid_is_an_error() {
    let count = mandelbrot_count(Complex64::new(0.0, 0.0), 1000000.0, 200);
    let mut g = PixelGrid::new(1);
    g.set_count(0, 0, count);
    assert_eq!(g.normalize(200), Err(FractalError::AllPixelsSaturated));
    // the grid is left unchanged
    assert_eq!(g.count_at(0, 0), 200);
}

#[test]
fn empty_grid_is_all_saturated() {
    let mut g = PixelGrid::new(0);
    assert_eq!(g.max_escaped(200), None);
    assert_eq!(g.normalize(200), Err(FractalError::AllPixelsSaturated));
}

#[test]
fn error_variants_are_distinct() {
    assert_ne!(
        FractalError::AllPixelsSaturated,
        FractalError::SinkWriteFailure
    );
    assert!(matches!(
        FractalError::AllPixelsSaturated,
        FractalError::AllPixelsSaturated
    ));
}

#[test]
fn intensity_channel_clamps_only_the_top_value() {
    assert_eq!(intensity_to_channel(0), 0);
    assert_eq!(intensity_to_channel(76), 76);
    assert_eq!(intensity_to_channel(255), 255);
    assert_eq!(intensity_to_channel(256), 255);
}
