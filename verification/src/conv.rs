//! The convolution compute backend.
//!
//! `convolve` is the reference implementation of the backend contract:
//! for every destination pixel `(x, y)` and channel `c` it accumulates,
//! in binary32, `source(x + kx, y + ky) * kernel(kx + half, ky + half)`
//! over the kernel footprint, skipping every source coordinate that
//! falls outside the image (zero-padding at the borders).  No
//! normalization happens at this layer; raw sums may leave `[0, 1]`.

use vstd::prelude::*;

use crate::fbits::{add_bits, f32_add, f32_from_i64, f32_mul, f32_of_int, mul_bits};

verus! {

/// Flat, row-major index of channel `c` of pixel `(x, y)` in an image
/// of the given width with four interleaved channels per pixel.
pub open spec fn flat_idx(width: int, x: int, y: int, c: int) -> int {
    (y * width + x) * 4 + c
}

/// The sample of channel `c` of pixel `(x, y)`.
pub open spec fn px_at(img: Seq<u32>, width: int, x: int, y: int, c: int) -> u32 {
    img[flat_idx(width, x, y, c)]
}

/// The convolution accumulator for channel `c` of destination pixel
/// `(x, y)` after the first `taps` kernel taps, taken row-major over
/// the kernel.  A tap whose source coordinate falls outside the image
/// leaves the accumulator unchanged (zero-padding); an in-range tap
/// adds `source * weight` in binary32.
pub open spec fn conv_acc(
    img: Seq<u32>,
    kern: Seq<u32>,
    width: int,
    height: int,
    ksize: int,
    x: int,
    y: int,
    c: int,
    taps: int,
) -> u32
    decreases taps,
{
    if taps <= 0 {
        f32_of_int(0)
    } else {
        let prev = conv_acc(img, kern, width, height, ksize, x, y, c, taps - 1);
        let t = taps - 1;
        let half = ksize / 2;
        let sx = x + t % ksize - half;
        let sy = y + t / ksize - half;
        if 0 <= sx && sx < width && 0 <= sy && sy < height {
            add_bits(prev, mul_bits(px_at(img, width, sx, sy, c), kern[t]))
        } else {
            prev
        }
    }
}

/// The raw convolution output for channel `c` of destination pixel `(x, y)`.
pub open spec fn conv_at(
    img: Seq<u32>,
    kern: Seq<u32>,
    width: int,
    height: int,
    ksize: int,
    x: int,
    y: int,
    c: int,
) -> u32 {
    conv_acc(img, kern, width, height, ksize, x, y, c, ksize * ksize)
}

/// The whole raw convolution image, flat and row-major.
pub open spec fn conv_seq(
    img: Seq<u32>,
    kern: Seq<u32>,
    width: int,
    height: int,
    ksize: int,
) -> Seq<u32> {
    Seq::new(
        (width * height * 4) as nat,
        |i: int| conv_at(img, kern, width, height, ksize, (i / 4) % width, i / (4 * width), i % 4),
    )
}

/// Round trip between a grid coordinate and its flat index: for a grid
/// of `cols` columns and `rows` rows with four channels, the flat index
/// `(gy * cols + gx) * 4 + c` lies inside the buffer and decodes back
/// to `gx`, `gy` and `c`.
pub proof fn lemma_grid_index(cols: int, rows: int, gx: int, gy: int, c: int)
    requires
        1 <= cols,
        0 <= gx < cols,
        0 <= gy < rows,
        0 <= c < 4,
    ensures
        ({
            let i = (gy * cols + gx) * 4 + c;
            0 <= i && i < cols * rows * 4 && i % 4 == c && (i / 4) % cols == gx && i / (4 * cols)
                == gy
        }),
{
    let i = (gy * cols + gx) * 4 + c;
    assert(0 <= gy * cols + gx && gy * cols + gx < cols * rows) by (nonlinear_arith)
        requires
            0 <= gx < cols,
            0 <= gy < rows,
    ;
    vstd::arithmetic::div_mod::lemma_fundamental_div_mod_converse(i, 4, gy * cols + gx, c);
    vstd::arithmetic::div_mod::lemma_fundamental_div_mod_converse(gy * cols + gx, cols, gy, gx);
    assert((gy * cols + gx) * 4 + c == gy * (4 * cols) + (gx * 4 + c)) by (nonlinear_arith);
    assert(gx * 4 + c < 4 * cols) by (nonlinear_arith)
        requires
            gx < cols,
            c < 4,
    ;
    vstd::arithmetic::div_mod::lemma_fundamental_div_mod_converse(i, 4 * cols, gy, gx * 4 + c);
    assert((gy * cols + gx) * 4 + c < cols * rows * 4) by (nonlinear_arith)
        requires
            gy * cols + gx < cols * rows,
            0 <= c < 4,
    ;
}

/// Convolve a flat RGBA image against a flat square kernel of odd side
/// length.  The output has the shape of the input; entry by entry it is
/// exactly the zero-padded convolution sum of `conv_at`.
#[verifier::loop_isolation(false)]
pub fn convolve(
    image: &Vec<u32>,
    kernel: &Vec<u32>,
    width: usize,
    height: usize,
    kernel_size: usize,
) -> (out: Vec<u32>)
    requires
        1 <= width,
        1 <= height,
        image.len() == width * height * 4,
        kernel_size % 2 == 1,
        kernel.len() == kernel_size * kernel_size,
    ensures
        out.len() == width * height * 4,
        out@ == conv_seq(image@, kernel@, width as int, height as int, kernel_size as int),
        forall|x: int, y: int, c: int|
            0 <= x < width && 0 <= y < height && 0 <= c < 4 ==> out@[flat_idx(
                width as int,
                x,
                y,
                c,
            )] == conv_at(
                image@,
                kernel@,
                width as int,
                height as int,
                kernel_size as int,
                x,
                y,
                c,
            ),
{
    let ghost gw = width as int;
    let ghost gh = height as int;
    let ghost gk = kernel_size as int;
    let ghost cseq = conv_seq(image@, kernel@, gw, gh, gk);
    proof {
        assert(width * 4 <= width * height * 4 && height * 4 <= width * height * 4)
            by (nonlinear_arith)
            requires
                1 <= width,
                1 <= height,
        ;
        assert(kernel_size <= 0x1_0000_0000) by (nonlinear_arith)
            requires
                kernel_size * kernel_size <= usize::MAX,
        ;
    }
    let taps: usize = kernel.len();
    let half: usize = kernel_size / 2;
    let mut out: Vec<u32> = Vec::new();
    let mut y: usize = 0;
    while y < height
        invariant
            y <= height,
            out.len() == y * width * 4,
            out@ == cseq.take(out.len() as int),
        decreases height - y,
    {
        let mut x: usize = 0;
        while x < width
            invariant
                y < height,
                x <= width,
                out.len() == (y * width + x) * 4,
                out@ == cseq.take(out.len() as int),
            decreases width - x,
        {
            let mut c: usize = 0;
            while c < 4
                invariant
                    y < height,
                    x < width,
                    c <= 4,
                    out.len() == (y * width + x) * 4 + c,
                    out@ == cseq.take(out.len() as int),
                decreases 4 - c,
            {
                let mut acc: u32 = f32_from_i64(0);
                let mut t: usize = 0;
                while t < taps
                    invariant
                        t <= taps,
                        acc == conv_acc(
                            image@,
                            kernel@,
                            gw,
                            gh,
                            gk,
                            x as int,
                            y as int,
                            c as int,
                            t as int,
                        ),
                    decreases taps - t,
                {
                    proof {
                        vstd::arithmetic::div_mod::lemma_fundamental_div_mod(
                            t as int,
                            kernel_size as int,
                        );
                        vstd::arithmetic::div_mod::lemma_mod_bound(t as int, kernel_size as int);
                        assert(t / kernel_size < kernel_size) by (nonlinear_arith)
                            requires
                                t < kernel_size * kernel_size,
                                1 <= kernel_size,
                                t as int == kernel_size as int * (t as int / kernel_size as int) + t
                                    as int % kernel_size as int,
                                0 <= t as int % kernel_size as int,
                        ;
                    }
                    let ky: usize = t / kernel_size;
                    let kx: usize = t % kernel_size;
                    let sx_i: i64 = x as i64 + kx as i64 - half as i64;
                    let sy_i: i64 = y as i64 + ky as i64 - half as i64;
                    if 0 <= sx_i && sx_i < width as i64 && 0 <= sy_i && sy_i < height as i64 {
                        let sx: usize = sx_i as usize;
                        let sy: usize = sy_i as usize;
                        proof {
                            lemma_grid_index(gw, gh, sx as int, sy as int, c as int);
                        }
                        let idx: usize = (sy * width + sx) * 4 + c;
                        acc = f32_add(acc, f32_mul(image[idx], kernel[t]));
                    }
                    t = t + 1;
                }
                proof {
                    lemma_grid_index(gw, gh, x as int, y as int, c as int);
                    assert(cseq[out.len() as int] == acc);
                    assert(out@.push(acc) =~= cseq.take((out.len() + 1) as int));
                }
                out.push(acc);
                c = c + 1;
            }
            x = x + 1;
            proof {
                assert((y * width + x) * 4 == (y * width + (x - 1)) * 4 + 4) by (nonlinear_arith);
            }
        }
        y = y + 1;
        proof {
            assert(y * width * 4 == ((y - 1) * width + width) * 4) by (nonlinear_arith);
        }
    }
    proof {
        assert(height * width * 4 == width * height * 4) by (nonlinear_arith);
        assert(out@ =~= cseq);
        assert forall|x: int, yy: int, c: int|
            0 <= x < width && 0 <= yy < height && 0 <= c < 4 implies out@[flat_idx(gw, x, yy, c)]
            == conv_at(image@, kernel@, gw, gh, gk, x, yy, c) by {
            lemma_grid_index(gw, gh, x, yy, c);
        }
    }
    out
}

} // verus!
