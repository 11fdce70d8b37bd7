//! The benchmark's statistics: per-frame draw times, the warm-up discard,
//! and the sizes of the benchmark meshes.
//!
//! The GPU timer reports one integer nanosecond count per frame.  The first
//! frames of a run are warm-up outliers and are discarded; of the kept
//! frames the harness reports the sample mean and the population standard
//! deviation.  The exact content of both - the count, the sum and the sum
//! of squares of the kept samples - is computed and stated here; the host
//! program only performs the final floating-point divisions and square root
//! when printing.

use vstd::prelude::*;
use vstd::arithmetic::div_mod::lemma_div_is_ordered;
use vstd::arithmetic::div_mod::lemma_div_multiples_vanish;
use vstd::arithmetic::mul::lemma_mul_inequality;
use vstd::arithmetic::mul::lemma_mul_upper_bound;

verus! {

/// How many leading frames of a run are warm-up and are discarded.
pub const WARMUP_FRAMES: usize = 5;

/// The largest frame time the statistics accept, in nanoseconds.  The sums
/// of squares of a run must fit 128 bits; a frame longer than this -
/// about three days - cannot be a draw time.
pub const MAX_FRAME_NANOS: u64 = 0xffff_ffff_ffff;

/// How many frames one run may time, so that its sums fit 128 bits.
pub const MAX_FRAMES: usize = 0xffff_ffff;

/// The sum of a sample sequence.
pub open spec fn seq_sum(s: Seq<u64>) -> int
    decreases s.len(),
{
    if s.len() == 0 {
        0
    } else {
        seq_sum(s.drop_last()) + s.last()
    }
}

/// The sum of the squares of a sample sequence.
pub open spec fn seq_sum_squares(s: Seq<u64>) -> int
    decreases s.len(),
{
    if s.len() == 0 {
        0
    } else {
        seq_sum_squares(s.drop_last()) + s.last() * s.last()
    }
}

/// The exact content of one run's timing statistics: the kept samples'
/// count, sum and sum of squares.  The mean is `sum / count`; the
/// population variance is `variance_num(self) / count^2`.
#[derive(Clone, Copy, Debug, PartialEq, Eq, Structural)]
pub struct DrawStats {
    pub count: u64,
    pub sum: u128,
    pub sum_squares: u128,
}

impl DrawStats {
    /// The numerator of the population variance over `count^2`:
    /// `count * sum_squares - sum^2`.
    pub open spec fn variance_num(self) -> int {
        self.count * self.sum_squares - self.sum * self.sum
    }
}

/// Computes the timing statistics of one run: discards the warm-up prefix
/// and sums the rest.  `None` exactly when no sample remains.
#[verifier::loop_isolation(false)]
pub fn draw_time_stats(samples: &Vec<u64>, warmup: usize) -> (r: Option<DrawStats>)
    requires
        samples@.len() <= MAX_FRAMES,
        forall|i: int| 0 <= i < samples@.len() ==> samples@[i] <= MAX_FRAME_NANOS,
    ensures
        r is Some <==> samples@.len() > warmup,
        r matches Some(s) ==> {
            &&& s.count == samples@.len() - warmup
            &&& s.sum == seq_sum(samples@.skip(warmup as int))
            &&& s.sum_squares == seq_sum_squares(samples@.skip(warmup as int))
        },
{
    let n = samples.len();
    if n <= warmup {
        return None;
    }
    let mut sum: u128 = 0;
    let mut sum_squares: u128 = 0;
    let mut i: usize = warmup;
    while i < n
        invariant
            warmup <= i <= n,
            sum == seq_sum(samples@.subrange(warmup as int, i as int)),
            sum_squares == seq_sum_squares(samples@.subrange(warmup as int, i as int)),
            sum <= (i - warmup) * (MAX_FRAME_NANOS as int),
            sum_squares <= (i - warmup) * ((MAX_FRAME_NANOS as int) * (MAX_FRAME_NANOS as int)),
        decreases n - i,
    {
        let x = samples[i];
        proof {
            assert(samples@.subrange(warmup as int, i + 1).drop_last() =~= samples@.subrange(
                warmup as int,
                i as int,
            ));
            assert(samples@.subrange(warmup as int, i + 1).last() == samples@[i as int]);
            lemma_mul_upper_bound(
                x as int,
                MAX_FRAME_NANOS as int,
                x as int,
                MAX_FRAME_NANOS as int,
            );
            lemma_mul_inequality(
                i + 1 - warmup,
                MAX_FRAMES as int,
                MAX_FRAME_NANOS as int,
            );
            lemma_mul_inequality(
                i + 1 - warmup,
                MAX_FRAMES as int,
                (MAX_FRAME_NANOS as int) * (MAX_FRAME_NANOS as int),
            );
        }
        sum = sum + x as u128;
        sum_squares = sum_squares + (x as u128) * (x as u128);
        i = i + 1;
    }
    proof {
        assert(samples@.subrange(warmup as int, n as int) =~= samples@.skip(warmup as int));
    }
    Some(DrawStats { count: (n - warmup) as u64, sum, sum_squares })
}

/// The sums of a constant sequence.
proof fn lemma_constant_sums(s: Seq<u64>, c: u64)
    requires
        forall|i: int| 0 <= i < s.len() ==> s[i] == c,
    ensures
        seq_sum(s) == s.len() * c,
        seq_sum_squares(s) == s.len() * (c * c),
    decreases s.len(),
{
    if s.len() > 0 {
        lemma_constant_sums(s.drop_last(), c);
        assert((s.len() - 1) * c + c == s.len() * c) by (nonlinear_arith);
        assert((s.len() - 1) * (c * c) + c * c == s.len() * (c * c)) by (nonlinear_arith);
    }
}

/// Law: a run whose frames after the warm-up prefix all took the same time
/// `c` has mean exactly `c` - the sum of the kept samples is their count
/// times `c` - and population standard deviation exactly zero - the
/// variance numerator vanishes.
pub proof fn lemma_constant_tail_stats(samples: Seq<u64>, warmup: int, c: u64)
    requires
        0 <= warmup <= samples.len(),
        forall|i: int| warmup <= i < samples.len() ==> samples[i] == c,
    ensures
        seq_sum(samples.skip(warmup)) == (samples.len() - warmup) * c,
        seq_sum_squares(samples.skip(warmup)) == (samples.len() - warmup) * (c * c),
        (samples.len() - warmup) * seq_sum_squares(samples.skip(warmup)) - seq_sum(
            samples.skip(warmup),
        ) * seq_sum(samples.skip(warmup)) == 0,
{
    let tail = samples.skip(warmup);
    assert(forall|i: int| 0 <= i < tail.len() ==> tail[i] == c);
    lemma_constant_sums(tail, c);
    let n = tail.len() as int;
    assert(n * (n * (c * c)) - (n * c) * (n * c) == 0) by (nonlinear_arith);
}

// ---------------------------------------------------------------------------
// Benchmark mesh sizes.
// ---------------------------------------------------------------------------

/// The integer square root: the largest `r` with `r * r <= n`.
pub fn isqrt(n: u64) -> (r: u64)
    ensures
        r * r <= n,
        n < (r + 1) * (r + 1),
{
    let mut lo: u64 = 0;
    let mut hi: u64 = 0x1_0000_0000;
    while lo + 1 < hi
        invariant
            lo < hi <= 0x1_0000_0000,
            lo * lo <= n,
            n < hi * hi,
        decreases hi - lo,
    {
        let mid = lo + (hi - lo) / 2;
        proof {
            lemma_mul_upper_bound(mid as int, 0xffff_ffff, mid as int, 0xffff_ffff);
        }
        if mid * mid <= n {
            lo = mid;
        } else {
            hi = mid;
        }
    }
    lo
}

/// The two benchmark mesh sizes for a framebuffer: the side lengths of the
/// grids whose squared sizes are four fifths and two fifths of the fragment
/// count, so that the two meshes target a high and a low
/// fragment-to-vertex density ratio.
pub fn bench_grid_sizes(width: u32, height: u32) -> (r: (u64, u64))
    ensures
        r.0 * r.0 <= (width * height * 4) / 5 < (r.0 + 1) * (r.0 + 1),
        r.1 * r.1 <= (width * height * 2) / 5 < (r.1 + 1) * (r.1 + 1),
{
    proof {
        lemma_mul_upper_bound(width as int, u32::MAX as int, height as int, u32::MAX as int);
    }
    let n_fragments: u64 = (width as u64) * (height as u64);
    let nf = n_fragments as u128;
    proof {
        let n = width as int * height as int;
        lemma_div_is_ordered(n * 4, n * 5, 5);
        lemma_div_multiples_vanish(n, 5);
        assert(n * 5 == 5 * n) by (nonlinear_arith);
        lemma_div_is_ordered(n * 2, n * 5, 5);
    }
    let hi_target = (nf * 4 / 5) as u64;
    let lo_target = (nf * 2 / 5) as u64;
    (isqrt(hi_target), isqrt(lo_target))
}

} // verus!
