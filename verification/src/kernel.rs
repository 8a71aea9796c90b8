//! Generation of the high-pass convolution kernel.
//!
//! For a radius `R` the kernel is the `(2R+1) x (2R+1)` matrix, flat and
//! row-major, whose weight at spatial offset `(dx, dy)` is
//! `-40 * (1 - delta) * exp(-delta)` with `delta = rsq / (2 * sigma_sq)`,
//! `rsq = dx*dx + dy*dy` and `sigma_sq = 1.4^2 * (R^2 / 4^2)`, every step
//! taken in binary32 arithmetic.  The exponential is computed as the
//! reciprocal of a truncated Maclaurin series of `exp(delta)`; with the
//! fixed term count below the series is fully converged in binary32 for
//! every offset the kernel can ask for (`delta <= 16 / 1.96`).

use vstd::prelude::*;

use crate::fbits::{
    add_bits, div_bits, f32_add, f32_div, f32_from_i64, f32_mul, f32_of_int, f32_sub, mul_bits,
    sub_bits,
};

verus! {

/// Radius of the sharpening kernel used by the orchestrator.
pub const RADIUS: usize = 8;

/// Number of Maclaurin terms summed for the exponential.
pub const EXP_TERMS: usize = 40;

/// Side length of the square kernel for a radius.
pub open spec fn kernel_size_of(radius: int) -> int {
    2 * radius + 1
}

/// Term `d^n / n!` of the Maclaurin series of `exp(d)`, accumulated in
/// binary32: each term is the previous term times `d`, divided by `n`.
pub open spec fn exp_term_bits(d: u32, n: nat) -> u32
    decreases n,
{
    if n == 0 {
        f32_of_int(1)
    } else {
        div_bits(mul_bits(exp_term_bits(d, (n - 1) as nat), d), f32_of_int(n as int))
    }
}

/// Partial Maclaurin sum `1 + d + d^2/2! + ... + d^n/n!` in binary32.
pub open spec fn exp_sum_bits(d: u32, n: nat) -> u32
    decreases n,
{
    if n == 0 {
        f32_of_int(1)
    } else {
        add_bits(exp_sum_bits(d, (n - 1) as nat), exp_term_bits(d, n))
    }
}

/// `exp(-d)` in binary32, as the reciprocal of the truncated series for `exp(d)`.
pub open spec fn exp_neg_bits(d: u32) -> u32 {
    div_bits(f32_of_int(1), exp_sum_bits(d, EXP_TERMS as nat))
}

/// `sigma_sq = 1.4^2 * (radius^2 / 4^2)` in binary32.  `1.4` is obtained
/// as the rounded quotient `14 / 10`, which is the binary32 value
/// nearest to `1.4`.
pub open spec fn sigma_sq_bits(radius: int) -> u32 {
    mul_bits(
        mul_bits(div_bits(f32_of_int(14), f32_of_int(10)), div_bits(f32_of_int(14), f32_of_int(10))),
        div_bits(f32_of_int(radius * radius), f32_of_int(16)),
    )
}

/// The kernel weight at spatial offset `(dx, dy)` for a radius, in binary32:
/// `-40 * (1 - delta) * exp(-delta)` with `delta = rsq / (2 * sigma_sq)`.
/// `rsq = dx*dx + dy*dy` is exact in binary32 for every offset admitted
/// by the generator, so it is converted from the integer directly.
pub open spec fn weight_bits(dx: int, dy: int, radius: int) -> u32 {
    let rsq = f32_of_int(dx * dx + dy * dy);
    let delta = div_bits(rsq, mul_bits(f32_of_int(2), sigma_sq_bits(radius)));
    mul_bits(mul_bits(f32_of_int(-40), sub_bits(f32_of_int(1), delta)), exp_neg_bits(delta))
}

/// The generated kernel for a radius: flat, row-major, entry at row `i`
/// and column `j` holding the weight at offset `(j - radius, i - radius)`.
pub open spec fn kernel_seq(radius: int) -> Seq<u32> {
    let k = kernel_size_of(radius);
    Seq::new(
        (k * k) as nat,
        |idx: int| weight_bits(idx % k - radius, idx / k - radius, radius),
    )
}

/// `exp(-d)` in binary32, by the truncated series of `exp_neg_bits`.
pub fn exp_neg(d: u32) -> (r: u32)
    ensures
        r == exp_neg_bits(d),
{
    let mut term: u32 = f32_from_i64(1);
    let mut sum: u32 = term;
    let mut n: usize = 1;
    while n <= EXP_TERMS
        invariant
            1 <= n <= EXP_TERMS + 1,
            term == exp_term_bits(d, (n - 1) as nat),
            sum == exp_sum_bits(d, (n - 1) as nat),
        decreases EXP_TERMS + 1 - n,
    {
        term = f32_div(f32_mul(term, d), f32_from_i64(n as i64));
        sum = f32_add(sum, term);
        n = n + 1;
    }
    f32_div(f32_from_i64(1), sum)
}

/// The kernel weight at offset `(dx, dy)` for a radius.
pub fn weight(dx: i64, dy: i64, radius: usize) -> (r: u32)
    requires
        1 <= radius <= 1000,
        -1000 <= dx <= 1000,
        -1000 <= dy <= 1000,
    ensures
        r == weight_bits(dx as int, dy as int, radius as int),
{
    proof {
        assert(0 <= dx * dx <= 1000000 && 0 <= dy * dy <= 1000000) by (nonlinear_arith)
            requires
                -1000 <= dx <= 1000,
                -1000 <= dy <= 1000,
        ;
        assert(radius * radius <= 1000000) by (nonlinear_arith)
            requires
                1 <= radius <= 1000,
        ;
    }
    let rsq = f32_from_i64(dx * dx + dy * dy);
    let s14 = f32_div(f32_from_i64(14), f32_from_i64(10));
    let sd4_sq = f32_mul(s14, s14);
    let sigma_sq = f32_mul(sd4_sq, f32_div(f32_from_i64((radius * radius) as i64), f32_from_i64(16)));
    let delta = f32_div(rsq, f32_mul(f32_from_i64(2), sigma_sq));
    let one = f32_from_i64(1);
    f32_mul(f32_mul(f32_from_i64(-40), f32_sub(one, delta)), exp_neg(delta))
}

/// Decomposition of a row-major index: for a column count `k`, the flat
/// index `i * k + j` decodes back to row `i` and column `j`.
pub proof fn lemma_row_major(i: int, j: int, k: int)
    requires
        0 <= i,
        0 <= j < k,
    ensures
        (i * k + j) / k == i,
        (i * k + j) % k == j,
{
    vstd::arithmetic::div_mod::lemma_fundamental_div_mod_converse(i * k + j, k, i, j);
}

/// Generate the convolution kernel for a radius: the `(2*radius + 1)`
/// by `(2*radius + 1)` weight matrix, flattened row-major.
pub fn gen_kernel(radius: usize) -> (r: Vec<u32>)
    requires
        1 <= radius <= 1000,
    ensures
        r@ == kernel_seq(radius as int),
        r.len() == (2 * radius + 1) * (2 * radius + 1),
{
    let k: usize = 2 * radius + 1;
    let mut data: Vec<u32> = Vec::new();
    let mut i: usize = 0;
    while i < k
        invariant
            1 <= radius <= 1000,
            k == 2 * radius + 1,
            i <= k,
            data.len() == i * k,
            data@ == kernel_seq(radius as int).take((i * k) as int),
        decreases k - i,
    {
        let mut j: usize = 0;
        while j < k
            invariant
                1 <= radius <= 1000,
                k == 2 * radius + 1,
                i < k,
                j <= k,
                data.len() == i * k + j,
                data@ == kernel_seq(radius as int).take((i * k + j) as int),
            decreases k - j,
        {
            proof {
                lemma_row_major(i as int, j as int, k as int);
                vstd::arithmetic::mul::lemma_mul_inequality(i as int + 1, k as int, k as int);
                assert((i * k + j) < k * k) by (nonlinear_arith)
                    requires
                        0 <= i < k,
                        0 <= j < k,
                ;
            }
            let dx: i64 = j as i64 - radius as i64;
            let dy: i64 = i as i64 - radius as i64;
            let w = weight(dx, dy, radius);
            proof {
                assert(w == kernel_seq(radius as int)[(i * k + j) as int]);
                assert(data@.push(w) =~= kernel_seq(radius as int).take((i * k + j + 1) as int));
            }
            data.push(w);
            j = j + 1;
        }
        i = i + 1;
        proof {
            assert(i * k == (i - 1) * k + k) by (nonlinear_arith);
        }
    }
    proof {
        assert(data.len() == k * k) by (nonlinear_arith)
            requires
                data.len() == i * k,
                i == k,
        ;
        assert(data@ =~= kernel_seq(radius as int));
    }
    data
}

/// The kernel is symmetric under 180-degree rotation: the weight at
/// offset `(dx, dy)` equals the weight at `(-dx, -dy)`, because the
/// formula depends on the offset only through `dx*dx + dy*dy`.
pub proof fn lemma_weight_rotation_symmetric(dx: int, dy: int, radius: int)
    ensures
        weight_bits(dx, dy, radius) == weight_bits(-dx, -dy, radius),
{
    assert((-dx) * (-dx) + (-dy) * (-dy) == dx * dx + dy * dy) by (nonlinear_arith);
}

/// The generated kernel, read as a matrix, equals its own 180-degree
/// rotation: the entry at row `i`, column `j` equals the entry at row
/// `k - 1 - i`, column `k - 1 - j`, where `k` is the side length.
pub proof fn lemma_kernel_rotation_symmetric(radius: int, i: int, j: int)
    requires
        1 <= radius,
        0 <= i < kernel_size_of(radius),
        0 <= j < kernel_size_of(radius),
    ensures
        kernel_seq(radius)[i * kernel_size_of(radius) + j] == kernel_seq(radius)[(kernel_size_of(
            radius,
        ) - 1 - i) * kernel_size_of(radius) + (kernel_size_of(radius) - 1 - j)],
{
    let k = kernel_size_of(radius);
    lemma_row_major(i, j, k);
    lemma_row_major(k - 1 - i, k - 1 - j, k);
    assert(i * k + j < k * k) by (nonlinear_arith)
        requires
            0 <= i < k,
            0 <= j < k,
    ;
    assert((k - 1 - i) * k + (k - 1 - j) < k * k) by (nonlinear_arith)
        requires
            0 <= k - 1 - i < k,
            0 <= k - 1 - j < k,
    ;
    lemma_weight_rotation_symmetric(j - radius, i - radius, radius);
}

/// Kernel generation is deterministic: two kernels generated for the
/// same radius are identical, coefficient for coefficient.
pub proof fn lemma_gen_kernel_deterministic(a: Seq<u32>, b: Seq<u32>, radius: int)
    requires
        a == kernel_seq(radius),
        b == kernel_seq(radius),
    ensures
        a == b,
{
}

} // verus!
