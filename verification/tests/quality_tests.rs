use std::collections::VecDeque;
use termplay::quality::{adjust_factor, sorted_frame_times, QualityController};

#[test]
fn quality_factor_stays_in_range_for_any_feed() {
    let mut controller = QualityController::new();
    let mut seed: u64 = 0x9e3779b97f4a7c15;
    for _ in 0..5000 {
        seed = seed.wrapping_mul(6364136223846793005).wrapping_add(1442695040888963407);
        let frame_time = (seed >> 33) % 2_000_000;
        controller.record_frame(frame_time, true, 30_000);
        let q = controller.quality_factor();
        assert!((200..=1000).contains(&q));
    }
}

#[test]
fn slow_frames_lower_the_factor_step_by_step() {
    let mut controller = QualityController::new();
    // 100 ms a frame is 10 fps, below 0.4 * 30
    for _ in 0..14 {
        controller.record_frame(100_000, true, 30_000);
        assert_eq!(controller.quality_factor(), 1000);
    }
    controller.record_frame(100_000, true, 30_000);
    assert_eq!(controller.quality_factor(), 700);
    for _ in 0..15 {
        controller.record_frame(100_000, true, 30_000);
    }
    assert_eq!(controller.quality_factor(), 490);
    for _ in 0..15 * 5 {
        controller.record_frame(100_000, true, 30_000);
    }
    assert_eq!(controller.quality_factor(), 200);
}

#[test]
fn fast_frames_raise_the_factor_again() {
    let mut controller = QualityController::new();
    for _ in 0..30 {
        controller.record_frame(100_000, true, 30_000);
    }
    assert_eq!(controller.quality_factor(), 490);
    // 10 ms a frame is 100 fps, above 1.7 * 30
    for _ in 0..15 {
        controller.record_frame(10_000, true, 30_000);
    }
    assert_eq!(controller.quality_factor(), 588);
    for _ in 0..15 * 4 {
        controller.record_frame(10_000, true, 30_000);
    }
    assert_eq!(controller.quality_factor(), 1000);
}

#[test]
fn adjust_factor_uses_the_four_thresholds() {
    // target 30 fps: 0.4 -> 12 fps, 0.7 -> 21 fps, 1.3 -> 39 fps, 1.7 -> 51 fps
    assert_eq!(adjust_factor(1000, 100_000, 30_000), 700); // 10 fps
    assert_eq!(adjust_factor(1000, 62_500, 30_000), 850); // 16 fps
    assert_eq!(adjust_factor(1000, 40_000, 30_000), 1000); // 25 fps
    assert_eq!(adjust_factor(500, 40_000, 30_000), 500);
    assert_eq!(adjust_factor(500, 25_000, 30_000), 535); // 40 fps
    assert_eq!(adjust_factor(500, 10_000, 30_000), 600); // 100 fps
    assert_eq!(adjust_factor(1000, 10_000, 30_000), 1000);
    assert_eq!(adjust_factor(900, 10_000, 30_000), 1000);
    assert_eq!(adjust_factor(250, 100_000, 30_000), 200);
    assert_eq!(adjust_factor(220, 62_500, 30_000), 200);
    // exactly on a threshold nothing happens: 12 fps is not below 12 fps
    assert_eq!(adjust_factor(1000, 83_333, 30_000), 850);
    assert_eq!(adjust_factor(1000, 47_619, 30_000), 1000);
}

#[test]
fn only_representative_frame_times_count() {
    let mut controller = QualityController::new();
    controller.record_frame(1_000, true, 30_000);
    controller.record_frame(1_000_000, true, 30_000);
    controller.record_frame(0, true, 30_000);
    assert_eq!(controller.median_frame_time(), 33_000);
    controller.record_frame(1_001, true, 30_000);
    assert_eq!(controller.median_frame_time(), 1_001);
    controller.record_frame(999_999, true, 30_000);
    assert_eq!(controller.median_frame_time(), (1_001 + 999_999) / 2);
}

#[test]
fn median_is_the_middle_of_the_sorted_window() {
    let mut controller = QualityController::new();
    for t in [50_000u64, 10_000, 40_000, 20_000, 30_000] {
        controller.record_frame(t, false, 30_000);
    }
    assert_eq!(controller.median_frame_time(), 30_000);
    controller.record_frame(60_000, false, 30_000);
    assert_eq!(controller.median_frame_time(), 35_000);
    // the window keeps the fifteen newest
    for _ in 0..15 {
        controller.record_frame(5_000, false, 30_000);
    }
    assert_eq!(controller.median_frame_time(), 5_000);
}

#[test]
fn without_adaptive_resolution_the_factor_stays() {
    let mut controller = QualityController::new();
    for _ in 0..100 {
        controller.record_frame(500_000, false, 30_000);
    }
    assert_eq!(controller.quality_factor(), 1000);
}

#[test]
fn effective_quality_is_clamped() {
    let controller = QualityController::new();
    assert_eq!(controller.effective_quality(800, true), 800);
    assert_eq!(controller.effective_quality(800, false), 800);
    assert_eq!(controller.effective_quality(100, true), 200);
    assert_eq!(controller.effective_quality(100, false), 400);
    assert_eq!(controller.effective_quality(300, false), 400);
    assert_eq!(controller.effective_quality(300, true), 300);
    assert_eq!(controller.effective_quality(5000, true), 1000);
    let mut slow = QualityController::new();
    for _ in 0..15 {
        slow.record_frame(100_000, true, 30_000);
    }
    assert_eq!(slow.effective_quality(800, true), 560);
}

#[test]
fn sorting_orders_the_window() {
    let times: VecDeque<u64> = [5u64, 3, 9, 3, 1, 7].into_iter().collect();
    assert_eq!(sorted_frame_times(&times), vec![1, 3, 3, 5, 7, 9]);
    assert_eq!(sorted_frame_times(&VecDeque::new()), Vec::<u64>::new());
}
