use image_sharpen_rs::cache::KernelCache;
use image_sharpen_rs::conv::convolve;
use image_sharpen_rs::filter::{normalize, scan_min_max, sharpen, ImageBuf, Sharpener};
use image_sharpen_rs::kernel::gen_kernel;

/// The kernel weight formula, replicated in native `f32`: the library
/// computes the same operations on bit patterns in software, so the
/// results must agree bit for bit.
fn expected_weight(dx: i32, dy: i32, radius: u32) -> f32 {
    let rsq = (dx * dx + dy * dy) as f32;
    let s14 = 14.0f32 / 10.0f32;
    let sd4_sq = s14 * s14;
    let sigma_sq = sd4_sq * ((radius * radius) as f32 / 16.0f32);
    let delta = rsq / (2.0f32 * sigma_sq);
    let mut term = 1.0f32;
    let mut sum = 1.0f32;
    for n in 1..=40u32 {
        term = term * delta / (n as f32);
        sum = sum + term;
    }
    let exp_neg = 1.0f32 / sum;
    (-40.0f32) * (1.0f32 - delta) * exp_neg
}

fn bits_of(v: &[f32]) -> Vec<u32> {
    v.iter().map(|x| x.to_bits()).collect()
}

fn floats_of(v: &[u32]) -> Vec<f32> {
    v.iter().map(|x| f32::from_bits(*x)).collect()
}

fn const_image(width: usize, height: usize, value: f32) -> ImageBuf {
    let samples = vec![value.to_bits(); width * height * 4];
    ImageBuf::new(width, height, samples).unwrap()
}

#[test]
fn kernel_center_weight_is_minus_forty() {
    let k = gen_kernel(8);
    assert_eq!(k.len(), 17 * 17);
    let center = f32::from_bits(k[8 * 17 + 8]);
    assert_eq!(center, -40.0f32);
}

#[test]
fn kernel_matches_formula_bitwise() {
    for radius in [1usize, 2, 8] {
        let k = gen_kernel(radius);
        let side = 2 * radius + 1;
        assert_eq!(k.len(), side * side);
        for i in 0..side {
            for j in 0..side {
                let w = expected_weight(
                    j as i32 - radius as i32,
                    i as i32 - radius as i32,
                    radius as u32,
                );
                assert_eq!(
                    k[i * side + j],
                    w.to_bits(),
                    "radius {radius} entry ({i},{j})"
                );
            }
        }
    }
}

#[test]
fn kernel_symmetric_under_rotation() {
    let radius = 8usize;
    let k = gen_kernel(radius);
    let side = 2 * radius + 1;
    for i in 0..side {
        for j in 0..side {
            assert_eq!(k[i * side + j], k[(side - 1 - i) * side + (side - 1 - j)]);
        }
    }
}

#[test]
fn kernel_generation_is_idempotent() {
    let a = gen_kernel(8);
    let b = gen_kernel(8);
    assert_eq!(a, b);
}

#[test]
fn convolve_all_zero_image_stays_zero() {
    let width = 9usize;
    let height = 7usize;
    let image = vec![0.0f32.to_bits(); width * height * 4];
    let kernel = gen_kernel(1);
    let out = convolve(&image, &kernel, width, height, 3);
    assert_eq!(out.len(), width * height * 4);
    for s in floats_of(&out) {
        assert_eq!(s, 0.0f32);
    }
}

#[test]
fn convolve_impulse_reproduces_weights() {
    let width = 9usize;
    let height = 9usize;
    let radius = 2usize;
    let side = 2 * radius + 1;
    let value = 0.75f32;
    let mut samples = vec![0.0f32; width * height * 4];
    let (px, py) = (4usize, 4usize);
    for c in 0..4 {
        samples[(py * width + px) * 4 + c] = value;
    }
    let image = bits_of(&samples);
    let kernel = gen_kernel(radius);
    let out = convolve(&image, &kernel, width, height, side);
    for y in 0..height {
        for x in 0..width {
            let dx = px as i32 - x as i32;
            let dy = py as i32 - y as i32;
            let expected = if dx.abs() <= radius as i32 && dy.abs() <= radius as i32 {
                value * expected_weight(dx, dy, radius as u32)
            } else {
                0.0f32
            };
            for c in 0..4 {
                let got = f32::from_bits(out[(y * width + x) * 4 + c]);
                assert_eq!(got, expected, "pixel ({x},{y}) channel {c}");
            }
        }
    }
}

#[test]
fn convolve_corner_impulse_center_weight() {
    // A 17x17 image covers one full kernel footprint at radius 8: a lone
    // corner sample lands on the corner kernel weight when read at the
    // center pixel.
    let width = 17usize;
    let height = 17usize;
    let mut samples = vec![0.0f32; width * height * 4];
    for c in 0..4 {
        samples[c] = 1.0f32;
    }
    let image = bits_of(&samples);
    let kernel = gen_kernel(8);
    let out = convolve(&image, &kernel, width, height, 17);
    for c in 0..4 {
        let got = out[(8 * width + 8) * 4 + c];
        assert_eq!(got, kernel[0]);
        assert_eq!(f32::from_bits(got), 1.0f32 * expected_weight(-8, -8, 8));
    }
}

#[test]
fn normalize_hits_one_at_min_and_zero_at_max() {
    let raw = bits_of(&[0.25f32, 0.5, 0.75, 1.0, -3.5, 0.25]);
    let mn = (-3.5f32).to_bits();
    let mx = 1.0f32.to_bits();
    let out = floats_of(&normalize(&raw, mn, mx));
    assert_eq!(out[4], 1.0f32);
    assert_eq!(out[3], 0.0f32);
    for (i, raw_v) in [0.25f32, 0.5, 0.75, 1.0, -3.5, 0.25].iter().enumerate() {
        let expected = 1.0f32 - (raw_v - (-3.5f32)) / (1.0f32 - (-3.5f32));
        assert_eq!(out[i], expected);
    }
}

#[test]
fn scan_finds_interior_extremes() {
    let width = 4usize;
    let height = 4usize;
    let mut samples = vec![0.5f32; width * height * 4];
    // Extreme values on the border must be ignored by the scan.
    samples[0] = 100.0;
    samples[1] = -100.0;
    // Interior pixels are (1,1), (2,1), (1,2), (2,2).
    samples[(1 * width + 1) * 4 + 2] = 0.9;
    samples[(2 * width + 2) * 4 + 3] = -0.4;
    let raw = bits_of(&samples);
    let (mn, mx) = scan_min_max(&raw, width, height, 1).unwrap();
    assert_eq!(f32::from_bits(mn), -0.4f32);
    assert_eq!(f32::from_bits(mx), 0.9f32);
}

#[test]
fn scan_empty_interior_is_none() {
    let width = 2usize;
    let height = 2usize;
    let raw = vec![0.5f32.to_bits(); width * height * 4];
    assert!(scan_min_max(&raw, width, height, 1).is_none());
}

#[test]
fn sharpen_constant_gray_returns_input() {
    // A flat image makes min == max in the interior scan; the guard
    // returns the input unchanged instead of dividing by zero.
    let img = const_image(32, 32, 0.5);
    let out = sharpen(&img);
    assert_eq!(out.width, 32);
    assert_eq!(out.height, 32);
    assert_eq!(out.samples.len(), 32 * 32 * 4);
    for s in floats_of(&out.samples) {
        assert!(!s.is_nan());
        assert_eq!(s, 0.5f32);
    }
}

#[test]
fn sharpen_repeated_calls_are_identical() {
    let width = 20usize;
    let height = 20usize;
    let mut samples = vec![0.0f32; width * height * 4];
    for y in 0..height {
        for x in 0..width {
            for c in 0..4 {
                samples[(y * width + x) * 4 + c] = (x + y) as f32 / 40.0;
            }
        }
    }
    let img = ImageBuf::new(width, height, bits_of(&samples)).unwrap();
    let a = sharpen(&img);
    let b = sharpen(&img);
    let c = sharpen(&img);
    assert_eq!(a.samples, b.samples);
    assert_eq!(b.samples, c.samples);
    // The output differs from the input: this is not the degenerate path.
    assert_ne!(a.samples, img.samples);
}

#[test]
fn sharpen_pipeline_reuses_kernel() {
    let img = const_image(20, 20, 0.25);
    let pipeline = Sharpener::new();
    let a = pipeline.sharpen(&img);
    let b = sharpen(&img);
    assert_eq!(a.samples, b.samples);
}

#[test]
fn sharpen_output_is_defined_and_in_range_inside() {
    let width = 24usize;
    let height = 24usize;
    let mut samples = vec![0.1f32; width * height * 4];
    for c in 0..4 {
        samples[(12 * width + 12) * 4 + c] = 0.9;
    }
    let img = ImageBuf::new(width, height, bits_of(&samples)).unwrap();
    let out = sharpen(&img);
    let vals = floats_of(&out.samples);
    for s in &vals {
        assert!(!s.is_nan());
    }
    // Interior samples were part of the min/max scan, so they land in [0, 1].
    for y in 8..height - 8 {
        for x in 8..width - 8 {
            for c in 0..4 {
                let s = vals[(y * width + x) * 4 + c];
                assert!((0.0..=1.0).contains(&s));
            }
        }
    }
}

#[test]
fn apply_conv_matches_reference_sum() {
    let radius = 8usize;
    let side = 2 * radius + 1;
    let mut window = vec![0.5f32; side * side * 4];
    for c in 0..4 {
        window[((radius * side) + radius) * 4 + c] = 0.8;
    }
    let pipeline = Sharpener::new();
    let got = pipeline.apply_conv(&bits_of(&window));
    assert_eq!(got.len(), 4);
    for c in 0..4 {
        let mut acc = 0.0f32;
        for t in 0..side * side {
            let i = t / side;
            let j = t % side;
            let w = expected_weight(i as i32 - radius as i32, j as i32 - radius as i32, 8);
            acc = acc + window[(i * side + j) * 4 + c] * w;
        }
        let center = window[((radius * side) + radius) * 4 + c];
        let expected = center - 2.0f32 / 225.0f32 * acc;
        assert_eq!(f32::from_bits(got[c]), expected, "channel {c}");
    }
}

#[test]
fn image_buf_rejects_bad_shapes() {
    assert!(ImageBuf::new(0, 4, vec![]).is_none());
    assert!(ImageBuf::new(4, 0, vec![]).is_none());
    assert!(ImageBuf::new(2, 2, vec![0u32; 15]).is_none());
    let img = ImageBuf::new(2, 2, vec![0u32; 16]).unwrap();
    assert_eq!(img.width, 2);
    assert_eq!(img.height, 2);
}

#[test]
fn kernel_cache_compiles_once() {
    let mut cache = KernelCache::new();
    assert!(cache.needs_compile(7));
    cache.mark_loaded(7);
    assert!(!cache.needs_compile(7));
    assert!(cache.needs_compile(9));
    cache.mark_loaded(7);
    assert!(!cache.needs_compile(7));
    cache.mark_loaded(9);
    assert!(!cache.needs_compile(9));
}
