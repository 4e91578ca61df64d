use fps_core::ui::{
    color_channel, cycle_color, cycle_phase, format_fps_hundredths, format_fps_tenths,
    BLUE_PERIOD_MS, GREEN_PERIOD_MS, RED_PERIOD_MS,
};

#[test]
fn channel_maps_sine_range_to_unit_range() {
    // sin = -1, 0, 1 (in milli) map to 0, 1/2, 1.
    assert_eq!(color_channel(-1_000), 0);
    assert_eq!(color_channel(0), 500);
    assert_eq!(color_channel(1_000), 1_000);
}

#[test]
fn channel_clamps_out_of_range_samples() {
    assert_eq!(color_channel(5_000), 1_000);
    assert_eq!(color_channel(-5_000), 0);
    assert_eq!(color_channel(i64::MAX), 1_000);
    assert_eq!(color_channel(i64::MIN), 0);
}

#[test]
fn cycle_color_stays_within_unit_range() {
    let samples: [i64; 7] = [-1_000, -999, -1, 0, 1, 999, 1_000];
    for &sr in samples.iter() {
        for &sg in samples.iter() {
            for &sb in samples.iter() {
                let c = cycle_color(sr, sg, sb);
                assert!(0 <= c.red && c.red <= 1_000);
                assert!(0 <= c.green && c.green <= 1_000);
                assert!(0 <= c.blue && c.blue <= 1_000);
            }
        }
    }
}

#[test]
fn cycle_color_mixes_per_channel() {
    let c = cycle_color(-1_000, 0, 1_000);
    assert_eq!(c.red, 0);
    assert_eq!(c.green, 500);
    assert_eq!(c.blue, 1_000);
}

#[test]
fn phase_repeats_each_period() {
    assert_eq!(cycle_phase(123, RED_PERIOD_MS), 123);
    assert_eq!(cycle_phase(123 + RED_PERIOD_MS, RED_PERIOD_MS), 123);
    assert_eq!(cycle_phase(123 + 3 * GREEN_PERIOD_MS, GREEN_PERIOD_MS), 123);
    assert_eq!(cycle_phase(BLUE_PERIOD_MS, BLUE_PERIOD_MS), 0);
}

#[test]
fn phase_stays_below_period() {
    for t in 0..30_000u64 {
        assert!(cycle_phase(t, RED_PERIOD_MS) < RED_PERIOD_MS);
    }
}

#[test]
fn fps_text_has_two_decimals() {
    assert_eq!(format_fps_hundredths(6_137), b"61.37".to_vec());
    assert_eq!(format_fps_hundredths(0), b"0.00".to_vec());
    assert_eq!(format_fps_hundredths(99), b"0.99".to_vec());
    assert_eq!(format_fps_hundredths(12_345), b"123.45".to_vec());
    assert_eq!(format_fps_hundredths(6_000), b"60.00".to_vec());
}

#[test]
fn fps_average_text_has_one_decimal() {
    assert_eq!(format_fps_tenths(599), b"59.9".to_vec());
    assert_eq!(format_fps_tenths(3), b"0.3".to_vec());
    assert_eq!(format_fps_tenths(1_200), b"120.0".to_vec());
}
