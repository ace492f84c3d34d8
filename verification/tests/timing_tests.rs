use dual_recorder::frame::{
    side_by_side, CameraRead, CaptureConfig, FrameShape, FRAME_HEIGHT, FRAME_WIDTH, REQUESTED_FPS,
};
use dual_recorder::timing::{
    elapsed_between, observed_rate, remaining_pause, FrameRate, NANOS_PER_SECOND,
    RETRY_PAUSE_NANOS, SETTLE_NANOS,
};

#[test]
fn timing_and_frame_constants() {
    assert_eq!(NANOS_PER_SECOND, 1_000_000_000);
    assert_eq!(RETRY_PAUSE_NANOS, 50_000_000);
    assert_eq!(SETTLE_NANOS, 1_000_000_000);
    assert_eq!(FRAME_WIDTH, 1280);
    assert_eq!(FRAME_HEIGHT, 720);
    assert_eq!(REQUESTED_FPS, 24);
}

#[test]
fn per_second_is_frames_over_one_second() {
    let rate = FrameRate::per_second(24);
    assert_eq!(rate, FrameRate { frames: 24, nanos: 1_000_000_000 });
}

#[test]
fn interval_of_24_fps_rounds_to_nearest_nanosecond() {
    // 1e9 / 24 = 41_666_666.67
    assert_eq!(FrameRate::per_second(24).interval_nanos(), 41_666_667);
}

#[test]
fn interval_rounds_down_below_half() {
    // 1e9 / 30 = 33_333_333.33
    assert_eq!(FrameRate::per_second(30).interval_nanos(), 33_333_333);
    // 10 / 4 = 2.5 rounds up, 9 / 4 = 2.25 rounds down
    assert_eq!(FrameRate { frames: 4, nanos: 10 }.interval_nanos(), 3);
    assert_eq!(FrameRate { frames: 4, nanos: 9 }.interval_nanos(), 2);
}

#[test]
fn interval_of_exact_divisors_is_exact() {
    assert_eq!(FrameRate::per_second(25).interval_nanos(), 40_000_000);
    assert_eq!(FrameRate::per_second(1).interval_nanos(), 1_000_000_000);
    assert_eq!(FrameRate { frames: 1, nanos: u64::MAX }.interval_nanos(), u64::MAX);
    assert_eq!(FrameRate { frames: u64::MAX, nanos: u64::MAX }.interval_nanos(), 1);
    assert_eq!(FrameRate { frames: 7, nanos: 0 }.interval_nanos(), 0);
}

#[test]
fn observed_rate_is_frames_over_elapsed() {
    let requested = FrameRate::per_second(24);
    let rate = observed_rate(50, 2_500_000_000, requested);
    assert_eq!(rate, FrameRate { frames: 50, nanos: 2_500_000_000 });
    let fps = rate.frames as f64 / (rate.nanos as f64 / 1e9);
    assert!((fps - 20.0).abs() < 1e-9);
}

#[test]
fn observed_rate_falls_back_to_requested() {
    let requested = FrameRate::per_second(24);
    assert_eq!(observed_rate(0, 2_500_000_000, requested), requested);
    assert_eq!(observed_rate(50, 0, requested), requested);
    assert_eq!(observed_rate(0, 0, requested), requested);
}

#[test]
fn remaining_pause_is_what_is_left_of_the_interval() {
    assert_eq!(remaining_pause(41_666_667, 10_000_000), Some(31_666_667));
    assert_eq!(remaining_pause(41_666_667, 0), Some(41_666_667));
    assert_eq!(remaining_pause(41_666_667, 41_666_666), Some(1));
}

#[test]
fn no_pause_after_an_overrun() {
    assert_eq!(remaining_pause(41_666_667, 41_666_667), None);
    assert_eq!(remaining_pause(41_666_667, 90_000_000), None);
    assert_eq!(remaining_pause(0, 0), None);
}

#[test]
fn elapsed_between_saturates_at_zero() {
    assert_eq!(elapsed_between(100, 350), 250);
    assert_eq!(elapsed_between(350, 350), 0);
    assert_eq!(elapsed_between(350, 100), 0);
    assert_eq!(elapsed_between(0, u64::MAX), u64::MAX);
}

#[test]
fn standard_config_is_1280_by_720_at_24() {
    let config = CaptureConfig::standard();
    assert_eq!(config, CaptureConfig { cols: 1280, rows: 720, fps: 24 });
    assert_eq!(config.target(), FrameShape { cols: 1280, rows: 720 });
    assert_eq!(config.composite(), FrameShape { cols: 2560, rows: 720 });
    assert_eq!(config.requested_rate(), FrameRate { frames: 24, nanos: 1_000_000_000 });
    assert_eq!(config.frame_interval(), 41_666_667);
}

#[test]
fn config_new_accepts_only_well_formed_values() {
    assert_eq!(CaptureConfig::new(640, 480, 30), Some(CaptureConfig { cols: 640, rows: 480, fps: 30 }));
    assert_eq!(CaptureConfig::new(0, 480, 30), None);
    assert_eq!(CaptureConfig::new(-1, 480, 30), None);
    assert_eq!(CaptureConfig::new(640, 0, 30), None);
    assert_eq!(CaptureConfig::new(640, 480, 0), None);
    assert_eq!(CaptureConfig::new(i32::MAX / 2 + 1, 480, 30), None);
    assert!(CaptureConfig::new(i32::MAX / 2, 480, 30).is_some());
    assert!(CaptureConfig::standard().is_valid());
    assert!(!CaptureConfig { cols: 1280, rows: 720, fps: 0 }.is_valid());
    assert!(!CaptureConfig { cols: i32::MAX, rows: 720, fps: 24 }.is_valid());
    assert!(!CaptureConfig { cols: 1280, rows: -720, fps: 24 }.is_valid());
}

#[test]
fn composite_is_twice_as_wide() {
    let config = CaptureConfig::new(640, 480, 30).unwrap();
    assert_eq!(config.composite(), FrameShape { cols: 1280, rows: 480 });
    let widest = CaptureConfig::new(i32::MAX / 2, 1, 1).unwrap();
    assert_eq!(widest.composite(), FrameShape { cols: i32::MAX - 1, rows: 1 });
}

#[test]
fn resize_is_needed_unless_both_frames_match() {
    let config = CaptureConfig::standard();
    let good = FrameShape { cols: 1280, rows: 720 };
    let narrow = FrameShape { cols: 640, rows: 720 };
    let low = FrameShape { cols: 1280, rows: 480 };
    assert!(!config.needs_resize(good, good));
    assert!(config.needs_resize(narrow, good));
    assert!(config.needs_resize(good, narrow));
    assert!(config.needs_resize(low, good));
    assert!(config.needs_resize(good, low));
    assert!(config.needs_resize(narrow, low));
}

#[test]
fn side_by_side_adds_widths() {
    let left = FrameShape { cols: 1280, rows: 720 };
    let right = FrameShape { cols: 640, rows: 720 };
    assert_eq!(side_by_side(left, right), Some(FrameShape { cols: 1920, rows: 720 }));
    assert_eq!(side_by_side(right, left), Some(FrameShape { cols: 1920, rows: 720 }));
}

#[test]
fn side_by_side_rejects_unequal_heights_and_overflow() {
    let a = FrameShape { cols: 1280, rows: 720 };
    let b = FrameShape { cols: 1280, rows: 480 };
    assert_eq!(side_by_side(a, b), None);
    let wide = FrameShape { cols: i32::MAX, rows: 720 };
    let one = FrameShape { cols: 1, rows: 720 };
    assert_eq!(side_by_side(wide, one), None);
    let negative = FrameShape { cols: -4, rows: 720 };
    assert_eq!(side_by_side(negative, a), None);
    assert_eq!(side_by_side(a, negative), None);
    let zero = FrameShape { cols: 0, rows: 720 };
    assert_eq!(side_by_side(wide, zero), Some(wide));
}

#[test]
fn camera_reads_are_usable_only_with_pixels() {
    assert!(CameraRead::frame(1280, 720).usable());
    assert!(!CameraRead::dropped().usable());
    let empty = CameraRead { delivered: true, empty: true, shape: FrameShape { cols: 0, rows: 0 } };
    assert!(!empty.usable());
    let undelivered =
        CameraRead { delivered: false, empty: false, shape: FrameShape { cols: 1280, rows: 720 } };
    assert!(!undelivered.usable());
}
