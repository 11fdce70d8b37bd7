use pthesis::bench::DrawStats;
use pthesis::bench::MAX_FRAME_NANOS;
use pthesis::bench::WARMUP_FRAMES;
use pthesis::bench::bench_grid_sizes;
use pthesis::bench::draw_time_stats;
use pthesis::bench::isqrt;

/// A run with a warm-up outlier prefix and a constant tail: the mean of the
/// kept samples is exactly the constant and the standard deviation exactly
/// zero.
#[test]
fn constant_tail_after_warmup_has_exact_mean_and_zero_std() {
    let mut samples: Vec<u64> = vec![900_000, 850_000, 800_000, 750_000, 700_000];
    assert_eq!(samples.len(), WARMUP_FRAMES);
    for _ in 0..20 {
        samples.push(125_000);
    }
    let stats = draw_time_stats(&samples, WARMUP_FRAMES).unwrap();
    assert_eq!(stats.count, 20);
    assert_eq!(stats.sum, 20 * 125_000);
    assert_eq!(stats.sum_squares, 20 * 125_000u128 * 125_000u128);
    // mean == sum / count == the constant
    assert_eq!(stats.sum / stats.count as u128, 125_000);
    // population variance numerator == count * sum_squares - sum^2 == 0
    let num = stats.count as u128 * stats.sum_squares - stats.sum * stats.sum;
    assert_eq!(num, 0);
}

#[test]
fn stats_sum_exact_values() {
    let samples: Vec<u64> = vec![1, 2, 3, 4, 5, 10, 20, 30];
    let stats = draw_time_stats(&samples, 5).unwrap();
    assert_eq!(stats.count, 3);
    assert_eq!(stats.sum, 60);
    assert_eq!(stats.sum_squares, 100 + 400 + 900);
    // mean 20, population variance (3*1400 - 3600) / 9 = 600 / 9
    let num = stats.count as u128 * stats.sum_squares - stats.sum * stats.sum;
    assert_eq!(num, 600);
}

#[test]
fn stats_need_more_frames_than_the_warmup() {
    let samples: Vec<u64> = vec![1, 2, 3, 4, 5];
    assert!(draw_time_stats(&samples, WARMUP_FRAMES).is_none());
    let empty: Vec<u64> = Vec::new();
    assert!(draw_time_stats(&empty, WARMUP_FRAMES).is_none());
    let six: Vec<u64> = vec![9, 9, 9, 9, 9, 7];
    let stats = draw_time_stats(&six, WARMUP_FRAMES).unwrap();
    assert_eq!(
        stats,
        DrawStats { count: 1, sum: 7, sum_squares: 49 }
    );
}

#[test]
fn stats_accept_the_largest_frame() {
    let samples: Vec<u64> = vec![0, 0, 0, 0, 0, MAX_FRAME_NANOS, MAX_FRAME_NANOS];
    let stats = draw_time_stats(&samples, WARMUP_FRAMES).unwrap();
    assert_eq!(stats.count, 2);
    assert_eq!(stats.sum, 2 * MAX_FRAME_NANOS as u128);
}

#[test]
fn isqrt_exact_values() {
    assert_eq!(isqrt(0), 0);
    assert_eq!(isqrt(1), 1);
    assert_eq!(isqrt(3), 1);
    assert_eq!(isqrt(4), 2);
    assert_eq!(isqrt(2_047_999), 1431);
    assert_eq!(isqrt(2_048_000), 1431);
    assert_eq!(isqrt(u64::MAX), 0xffff_ffff);
}

#[test]
fn grid_sizes_target_the_two_densities() {
    // 1600 x 1600 framebuffer: 2_560_000 fragments.
    let (hi, lo) = bench_grid_sizes(1600, 1600);
    // floor(sqrt(0.8 * 2_560_000)) and floor(sqrt(0.4 * 2_560_000))
    assert_eq!(hi, 1431);
    assert_eq!(lo, 1011);
    assert!(hi * hi <= 2_048_000 && 2_048_000 < (hi + 1) * (hi + 1));
    assert!(lo * lo <= 1_024_000 && 1_024_000 < (lo + 1) * (lo + 1));
    let (h0, l0) = bench_grid_sizes(0, 0);
    assert_eq!((h0, l0), (0, 0));
}

#[test]
fn a_zero_warmup_keeps_every_sample() {
    let samples: Vec<u64> = vec![3, 5];
    let stats = draw_time_stats(&samples, 0).unwrap();
    assert_eq!(stats.count, 2);
    assert_eq!(stats.sum, 8);
    assert_eq!(stats.sum_squares, 34);
}
