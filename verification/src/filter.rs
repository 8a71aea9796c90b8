//! The sharpen orchestrator.
//!
//! `sharpen` flattens an RGBA image, convolves it against the generated
//! high-pass kernel, scans the interior of the raw result for its
//! minimum and maximum sample, and remaps every sample — border pixels
//! included — through `1 - (raw - min) / (max - min)`.  Border pixels
//! are excluded from the scan because their convolution sums saw the
//! zero padding.  When the interior is empty or `min` equals `max`
//! (a flat image), the input is returned unchanged instead of dividing
//! by zero.

use vstd::prelude::*;

use crate::conv::{conv_seq, convolve, flat_idx, lemma_grid_index};
use crate::fbits::{
    add_bits, div_bits, eq_bits, f32_add, f32_div, f32_eq, f32_from_i64, f32_lt, f32_mul, f32_of_int,
    f32_sub, lt_bits, mul_bits, sub_bits,
};
use crate::kernel::{gen_kernel, kernel_seq, RADIUS};

verus! {

/// A floating-point RGBA image: a flat, row-major buffer of binary32
/// bit patterns, four interleaved channels per pixel.
pub struct ImageBuf {
    pub width: usize,
    pub height: usize,
    pub samples: Vec<u32>,
}

impl ImageBuf {
    /// Both dimensions are positive and the buffer length matches them.
    pub open spec fn wf(&self) -> bool {
        1 <= self.width && 1 <= self.height && self.samples.len() == self.width * self.height * 4
    }

    /// Build an image buffer, rejecting mismatched dimensions.
    pub fn new(width: usize, height: usize, samples: Vec<u32>) -> (r: Option<ImageBuf>)
        ensures
            match r {
                Some(img) => img.wf() && img.width == width && img.height == height
                    && img.samples@ == samples@,
                None => !(1 <= width && 1 <= height && samples.len() == width * height * 4),
            },
    {
        if width == 0 || height == 0 {
            return None;
        }
        match width.checked_mul(height) {
            None => None,
            Some(px) => match px.checked_mul(4) {
                None => None,
                Some(n) => {
                    if samples.len() == n {
                        Some(ImageBuf { width, height, samples })
                    } else {
                        None
                    }
                },
            },
        }
    }
}

/// Number of samples in the interior region: the image minus a border
/// strip of width `r` on every side, four channels per pixel.
pub open spec fn interior_len(w: int, h: int, r: int) -> int {
    if w > 2 * r && h > 2 * r {
        (w - 2 * r) * (h - 2 * r) * 4
    } else {
        0
    }
}

/// The interior samples in row-major scan order.
pub open spec fn interior_seq(img: Seq<u32>, w: int, h: int, r: int) -> Seq<u32> {
    Seq::new(
        interior_len(w, h, r) as nat,
        |i: int| img[flat_idx(w, (i / 4) % (w - 2 * r) + r, i / (4 * (w - 2 * r)) + r, i % 4)],
    )
}

/// One step of the running minimum, by IEEE less-than.
pub open spec fn min_step(m: u32, v: u32) -> u32 {
    if lt_bits(v, m) {
        v
    } else {
        m
    }
}

/// One step of the running maximum, by IEEE less-than.
pub open spec fn max_step(m: u32, v: u32) -> u32 {
    if lt_bits(m, v) {
        v
    } else {
        m
    }
}

/// The running minimum of a sequence of samples, folded left to right.
pub open spec fn min_fold(s: Seq<u32>) -> u32
    decreases s.len(),
{
    if s.len() <= 1 {
        s[0]
    } else {
        min_step(min_fold(s.drop_last()), s.last())
    }
}

/// The running maximum of a sequence of samples, folded left to right.
pub open spec fn max_fold(s: Seq<u32>) -> u32
    decreases s.len(),
{
    if s.len() <= 1 {
        s[0]
    } else {
        max_step(max_fold(s.drop_last()), s.last())
    }
}

/// Scan the interior region of a raw convolution image for the global
/// minimum and maximum sample across all channels; `None` exactly when
/// the interior is empty.
#[verifier::loop_isolation(false)]
pub fn scan_min_max(img: &Vec<u32>, width: usize, height: usize, radius: usize) -> (r: Option<
    (u32, u32),
>)
    requires
        1 <= radius <= 1000,
        img.len() == width * height * 4,
    ensures
        ({
            let iseq = interior_seq(img@, width as int, height as int, radius as int);
            match r {
                Some(p) => interior_len(width as int, height as int, radius as int) > 0 && p.0
                    == min_fold(iseq) && p.1 == max_fold(iseq),
                None => interior_len(width as int, height as int, radius as int) == 0,
            }
        }),
{
    if width <= 2 * radius || height <= 2 * radius {
        return None;
    }
    let cols: usize = width - 2 * radius;
    let rows: usize = height - 2 * radius;
    proof {
        assert(0 < cols * rows * 4 <= width * height * 4 && cols * 4 <= cols * rows * 4)
            by (nonlinear_arith)
            requires
                1 <= cols <= width,
                1 <= rows <= height,
        ;
    }
    let n: usize = cols * rows * 4;
    let ghost iseq = interior_seq(img@, width as int, height as int, radius as int);
    proof {
        lemma_grid_index(width as int, height as int, radius as int, radius as int, 0);
        vstd::arithmetic::div_mod::lemma_fundamental_div_mod_converse(0, 4, 0, 0);
        vstd::arithmetic::div_mod::lemma_fundamental_div_mod_converse(0, cols as int, 0, 0);
        vstd::arithmetic::div_mod::lemma_fundamental_div_mod_converse(0, 4 * cols as int, 0, 0);
    }
    let mut mn: u32 = img[(radius * width + radius) * 4];
    let mut mx: u32 = mn;
    proof {
        assert(mn == iseq[0]);
    }
    let mut cnt: usize = 0;
    while cnt < n
        invariant
            cnt <= n,
            cnt == 0 ==> mn == iseq[0] && mx == iseq[0],
            cnt >= 1 ==> mn == min_fold(iseq.take(cnt as int)) && mx == max_fold(
                iseq.take(cnt as int),
            ),
        decreases n - cnt,
    {
        proof {
            vstd::arithmetic::div_mod::lemma_mod_bound(cnt as int, 4);
            vstd::arithmetic::div_mod::lemma_mod_bound(cnt as int / 4, cols as int);
            vstd::arithmetic::div_mod::lemma_fundamental_div_mod(cnt as int, 4 * cols as int);
            vstd::arithmetic::div_mod::lemma_mod_bound(cnt as int, 4 * cols as int);
            assert(cnt as int / (4 * cols as int) < rows) by (nonlinear_arith)
                requires
                    cnt < cols * rows * 4,
                    1 <= cols,
                    1 <= rows,
                    cnt as int == 4 * cols as int * (cnt as int / (4 * cols as int)) + cnt as int
                        % (4 * cols as int),
                    0 <= cnt as int % (4 * cols as int),
            ;
        }
        let c: usize = cnt % 4;
        let gx: usize = (cnt / 4) % cols;
        let gy: usize = cnt / (4 * cols);
        let x: usize = gx + radius;
        let y: usize = gy + radius;
        proof {
            lemma_grid_index(width as int, height as int, x as int, y as int, c as int);
            assert(iseq[cnt as int] == img@[flat_idx(width as int, x as int, y as int, c as int)]);
        }
        let s: u32 = img[(y * width + x) * 4 + c];
        proof {
            assert(iseq.take(cnt as int + 1).drop_last() =~= iseq.take(cnt as int));
            assert(iseq.take(cnt as int + 1).last() == iseq[cnt as int]);
        }
        if f32_lt(s, mn) {
            mn = s;
        }
        if f32_lt(mx, s) {
            mx = s;
        }
        cnt = cnt + 1;
    }
    proof {
        assert(iseq.take(n as int) =~= iseq);
    }
    Some((mn, mx))
}

/// The normalized value of one raw sample for an interior minimum and
/// maximum: `1 - (raw - min) / (max - min)` in binary32.
pub open spec fn norm_bits(v: u32, mn: u32, mx: u32) -> u32 {
    sub_bits(f32_of_int(1), div_bits(sub_bits(v, mn), sub_bits(mx, mn)))
}

/// Remap every sample of a raw convolution image through
/// `1 - (raw - min) / (max - min)`.
#[verifier::loop_isolation(false)]
pub fn normalize(img: &Vec<u32>, mn: u32, mx: u32) -> (out: Vec<u32>)
    ensures
        out.len() == img.len(),
        forall|i: int| 0 <= i < img.len() ==> out@[i] == norm_bits(img@[i], mn, mx),
{
    let one: u32 = f32_from_i64(1);
    let range: u32 = f32_sub(mx, mn);
    let mut out: Vec<u32> = Vec::new();
    let mut i: usize = 0;
    while i < img.len()
        invariant
            i <= img.len(),
            out.len() == i,
            forall|j: int| 0 <= j < i ==> out@[j] == norm_bits(img@[j], mn, mx),
        decreases img.len() - i,
    {
        out.push(f32_sub(one, f32_div(f32_sub(img[i], mn), range)));
        i = i + 1;
    }
    out
}

/// The final image for a given input and raw convolution output: the
/// input unchanged when the interior is empty or flat (`min == max`),
/// otherwise every raw sample normalized by the interior minimum and
/// maximum.
pub open spec fn finalize_spec(orig: Seq<u32>, raw: Seq<u32>, w: int, h: int, r: int) -> Seq<u32> {
    if interior_len(w, h, r) == 0 {
        orig
    } else {
        let mn = min_fold(interior_seq(raw, w, h, r));
        let mx = max_fold(interior_seq(raw, w, h, r));
        if eq_bits(mn, mx) {
            orig
        } else {
            Seq::new(raw.len() as nat, |i: int| norm_bits(raw[i], mn, mx))
        }
    }
}

/// An exact copy of a sample buffer.
fn clone_samples(v: &Vec<u32>) -> (r: Vec<u32>)
    ensures
        r@ == v@,
{
    let mut r: Vec<u32> = Vec::new();
    let mut i: usize = 0;
    while i < v.len()
        invariant
            i <= v.len(),
            r@ == v@.take(i as int),
        decreases v.len() - i,
    {
        let s = v[i];
        proof {
            assert(r@.push(s) =~= v@.take(i as int + 1));
        }
        r.push(s);
        i = i + 1;
    }
    proof {
        assert(r@ =~= v@);
    }
    r
}

/// The normalization pass over a raw convolution output: scan the
/// interior, guard the degenerate cases, and remap the whole image.
/// This is the stage every compute backend's raw output goes through.
pub fn finalize(input: &ImageBuf, raw: &Vec<u32>, radius: usize) -> (out: ImageBuf)
    requires
        input.wf(),
        raw.len() == input.samples.len(),
        1 <= radius <= 1000,
    ensures
        out.wf(),
        out.width == input.width,
        out.height == input.height,
        out.samples@ == finalize_spec(
            input.samples@,
            raw@,
            input.width as int,
            input.height as int,
            radius as int,
        ),
{
    match scan_min_max(raw, input.width, input.height, radius) {
        None => ImageBuf {
            width: input.width,
            height: input.height,
            samples: clone_samples(&input.samples),
        },
        Some((mn, mx)) => {
            if f32_eq(mn, mx) {
                ImageBuf {
                    width: input.width,
                    height: input.height,
                    samples: clone_samples(&input.samples),
                }
            } else {
                let ns = normalize(raw, mn, mx);
                proof {
                    assert(ns@ =~= finalize_spec(
                        input.samples@,
                        raw@,
                        input.width as int,
                        input.height as int,
                        radius as int,
                    ));
                }
                ImageBuf { width: input.width, height: input.height, samples: ns }
            }
        },
    }
}

/// The sharpened image for a given input: the raw convolution against
/// the generated kernel, passed through the normalization stage.
pub open spec fn sharpen_spec(img: Seq<u32>, w: int, h: int, r: int) -> Seq<u32> {
    finalize_spec(img, conv_seq(img, kernel_seq(r), w, h, 2 * r + 1), w, h, r)
}

/// A sharpening pipeline: holds the kernel, generated once at
/// construction and reused by every call.
pub struct Sharpener {
    radius: usize,
    kernel: Vec<u32>,
}

impl Sharpener {
    /// The kernel matches the generator's output for the radius.
    pub closed spec fn wf(&self) -> bool {
        1 <= self.radius <= 1000 && self.kernel@ == kernel_seq(self.radius as int)
    }

    /// The radius this pipeline was built for.
    pub closed spec fn spec_radius(&self) -> int {
        self.radius as int
    }

    /// Build a pipeline for an arbitrary radius.
    pub fn with_radius(radius: usize) -> (s: Sharpener)
        requires
            1 <= radius <= 1000,
        ensures
            s.wf(),
            s.spec_radius() == radius,
    {
        Sharpener { radius, kernel: gen_kernel(radius) }
    }

    /// Build the default pipeline.
    pub fn new() -> (s: Sharpener)
        ensures
            s.wf(),
            s.spec_radius() == RADIUS as int,
    {
        Sharpener::with_radius(RADIUS)
    }

    /// Sharpen an image: convolve it against the kernel, then normalize
    /// the raw result by its interior minimum and maximum.
    pub fn sharpen(&self, image: &ImageBuf) -> (out: ImageBuf)
        requires
            self.wf(),
            image.wf(),
        ensures
            out.wf(),
            out.width == image.width,
            out.height == image.height,
            out.samples@ == sharpen_spec(
                image.samples@,
                image.width as int,
                image.height as int,
                self.spec_radius(),
            ),
    {
        let ksize: usize = 2 * self.radius + 1;
        let raw = convolve(&image.samples, &self.kernel, image.width, image.height, ksize);
        finalize(image, &raw, self.radius)
    }
}

/// The accumulator of the single-pixel convolution after the first
/// `taps` window positions, column-major over the kernel: the window
/// sample at `(j, i)` is weighed by the kernel entry at row `j`,
/// column `i`.
pub open spec fn unsharp_acc(window: Seq<u32>, r: int, c: int, taps: int) -> u32
    decreases taps,
{
    let k = 2 * r + 1;
    if taps <= 0 {
        f32_of_int(0)
    } else {
        let t = taps - 1;
        let i = t / k;
        let j = t % k;
        add_bits(
            unsharp_acc(window, r, c, taps - 1),
            mul_bits(window[flat_idx(k, j, i, c)], kernel_seq(r)[j * k + i]),
        )
    }
}

/// The single-pixel convolution result: for each channel, the center
/// sample minus `2 / (2r - 1)^2` times the convolution sum over the
/// window.
pub open spec fn apply_conv_spec(window: Seq<u32>, r: int) -> Seq<u32> {
    let k = 2 * r + 1;
    Seq::new(
        4,
        |c: int|
            sub_bits(
                window[flat_idx(k, r, r, c)],
                mul_bits(
                    div_bits(f32_of_int(2), f32_of_int((2 * r - 1) * (2 * r - 1))),
                    unsharp_acc(window, r, c, k * k),
                ),
            ),
    )
}

impl Sharpener {
    /// Convolve one pixel against the kernel and blend the result with
    /// the pixel itself.  The window must be a square of side
    /// `2 * radius + 1` centered on the target pixel, flat and
    /// row-major with four channels per sample; the returned four
    /// samples are the filtered channels of the center pixel.
    #[verifier::loop_isolation(false)]
    pub fn apply_conv(&self, window: &Vec<u32>) -> (r: Vec<u32>)
        requires
            self.wf(),
            window.len() == (2 * self.spec_radius() + 1) * (2 * self.spec_radius() + 1) * 4,
        ensures
            r.len() == 4,
            r@ == apply_conv_spec(window@, self.spec_radius()),
    {
        let k: usize = 2 * self.radius + 1;
        proof {
            assert(k * 4 <= k * k * 4 && k * k <= k * k * 4) by (nonlinear_arith)
                requires
                    1 <= k,
            ;
        }
        let taps: usize = k * k;
        proof {
            assert((2 * self.radius - 1) * (2 * self.radius - 1) <= 4000000) by (nonlinear_arith)
                requires
                    1 <= self.radius <= 1000,
            ;
        }
        let scale: u32 = f32_div(
            f32_from_i64(2),
            f32_from_i64(((2 * self.radius - 1) * (2 * self.radius - 1)) as i64),
        );
        let mut out: Vec<u32> = Vec::new();
        let mut c: usize = 0;
        while c < 4
            invariant
                c <= 4,
                out.len() == c,
                out@ == apply_conv_spec(window@, self.spec_radius()).take(c as int),
            decreases 4 - c,
        {
            let mut acc: u32 = f32_from_i64(0);
            let mut t: usize = 0;
            while t < taps
                invariant
                    t <= taps,
                    c < 4,
                    acc == unsharp_acc(window@, self.spec_radius(), c as int, t as int),
                decreases taps - t,
            {
                proof {
                    vstd::arithmetic::div_mod::lemma_fundamental_div_mod(t as int, k as int);
                    vstd::arithmetic::div_mod::lemma_mod_bound(t as int, k as int);
                    assert(t / k < k) by (nonlinear_arith)
                        requires
                            t < k * k,
                            1 <= k,
                            t as int == k as int * (t as int / k as int) + t as int % k as int,
                            0 <= t as int % k as int,
                    ;
                }
                let i: usize = t / k;
                let j: usize = t % k;
                proof {
                    lemma_grid_index(k as int, k as int, j as int, i as int, c as int);
                    assert(j * k + i < k * k) by (nonlinear_arith)
                        requires
                            0 <= j < k,
                            0 <= i < k,
                    ;
                }
                let widx: usize = (i * k + j) * 4 + c;
                let kidx: usize = j * k + i;
                acc = f32_add(acc, f32_mul(window[widx], self.kernel[kidx]));
                t = t + 1;
            }
            proof {
                lemma_grid_index(k as int, k as int, self.radius as int, self.radius as int, c as int);
            }
            let center: u32 = window[(self.radius * k + self.radius) * 4 + c];
            let v: u32 = f32_sub(center, f32_mul(scale, acc));
            proof {
                assert(apply_conv_spec(window@, self.spec_radius())[c as int] == v);
                assert(out@.push(v) =~= apply_conv_spec(window@, self.spec_radius()).take(
                    c as int + 1,
                ));
            }
            out.push(v);
            c = c + 1;
        }
        proof {
            assert(out@ =~= apply_conv_spec(window@, self.spec_radius()));
        }
        out
    }
}

/// Sharpen an image with the default radius.
pub fn sharpen(image: &ImageBuf) -> (out: ImageBuf)
    requires
        image.wf(),
    ensures
        out.wf(),
        out.width == image.width,
        out.height == image.height,
        out.samples@ == sharpen_spec(
            image.samples@,
            image.width as int,
            image.height as int,
            RADIUS as int,
        ),
{
    let s = Sharpener::new();
    s.sharpen(image)
}

/// Sharpening is a function of the input image alone: two outputs of
/// the sharpen operation for the same input, dimensions and radius are
/// identical, so repeated calls on one input never accumulate.
pub proof fn lemma_sharpen_deterministic(
    a: Seq<u32>,
    b: Seq<u32>,
    img: Seq<u32>,
    w: int,
    h: int,
    r: int,
)
    requires
        a == sharpen_spec(img, w, h, r),
        b == sharpen_spec(img, w, h, r),
    ensures
        a == b,
{
}

} // verus!
