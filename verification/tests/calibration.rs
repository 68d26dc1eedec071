use rc_usb_controller::inputs::{LinearInput, RESOLUTION};

fn calibrated(start: u16, mid: u16, end: u16) -> LinearInput {
    LinearInput::Calibrated { start, mid, end }
}

#[test]
fn default_is_without_calibration() {
    assert_eq!(LinearInput::default(), LinearInput::NoCalibration);
    assert_eq!(RESOLUTION, 1000);
}

#[test]
fn first_sample_starts_the_range_and_gives_the_middle() {
    for v in [0u16, 1, 500, 1500, 4095, 32768, 65535] {
        let mut input = LinearInput::default();
        assert_eq!(input.get(v), 500);
        assert_eq!(input, LinearInput::OngoingCalibration { start: v, end: v });
    }
}

#[test]
fn range_widens_downwards() {
    let mut input = LinearInput::default();
    input.get(400);
    input.get(300);
    assert_eq!(input, LinearInput::OngoingCalibration { start: 300, end: 400 });
}

#[test]
fn range_widens_upwards() {
    let mut input = LinearInput::default();
    input.get(400);
    input.get(700);
    assert_eq!(input, LinearInput::OngoingCalibration { start: 400, end: 700 });
}

#[test]
fn range_keeps_what_it_held() {
    let mut input = LinearInput::OngoingCalibration { start: 100, end: 900 };
    for v in [100u16, 101, 500, 899, 900] {
        input.get(v);
        assert_eq!(input, LinearInput::OngoingCalibration { start: 100, end: 900 });
    }
    input.get(99);
    assert_eq!(input, LinearInput::OngoingCalibration { start: 99, end: 900 });
    input.get(901);
    assert_eq!(input, LinearInput::OngoingCalibration { start: 99, end: 901 });
}

#[test]
fn ongoing_calibration_scales_around_the_middle_of_its_range() {
    let mut input = LinearInput::OngoingCalibration { start: 100, end: 900 };
    assert_eq!(input.get(100), 0);
    assert_eq!(input.get(300), 250);
    assert_eq!(input.get(500), 500);
    assert_eq!(input.get(700), 750);
    assert_eq!(input.get(900), 1000);
    // the middle moves with the range
    assert_eq!(input.get(1100), 1000);
    assert_eq!(input, LinearInput::OngoingCalibration { start: 100, end: 1100 });
    assert_eq!(input.get(600), 500);
}

#[test]
fn ongoing_calibration_over_the_whole_sample_range() {
    let mut input = LinearInput::default();
    assert_eq!(input.get(65535), 500);
    assert_eq!(input.get(0), 0);
    assert_eq!(input, LinearInput::OngoingCalibration { start: 0, end: 65535 });
    assert_eq!(input.get(65535), 1000);
    assert_eq!(input.get(32767), 500);
    assert_eq!(input.get(40000), 610);
    assert_eq!(input.get(16000), 244);
}

#[test]
fn set_center_without_calibration_changes_nothing() {
    let mut input = LinearInput::default();
    input.set_center(500);
    assert_eq!(input, LinearInput::NoCalibration);
    assert_eq!(input.get(300), 500);
    assert_eq!(input, LinearInput::OngoingCalibration { start: 300, end: 300 });
}

#[test]
fn set_center_fixes_the_range() {
    let mut input = LinearInput::OngoingCalibration { start: 100, end: 900 };
    input.set_center(450);
    assert_eq!(input, calibrated(100, 450, 900));
    // from now on samples outside the range do not widen it
    assert_eq!(input.get(50), 0);
    assert_eq!(input.get(2000), 1000);
    assert_eq!(input, calibrated(100, 450, 900));
}

#[test]
fn set_center_moves_the_centre_of_a_fixed_range() {
    let mut input = calibrated(100, 500, 900);
    input.set_center(300);
    assert_eq!(input, calibrated(100, 300, 900));
    assert_eq!(input.get(300), 500);
    assert_eq!(input.get(200), 250);
    assert_eq!(input.get(600), 750);
}

#[test]
fn reset_forgets_the_calibration() {
    let mut input = calibrated(100, 500, 900);
    input.reset_calibration();
    assert_eq!(input, LinearInput::NoCalibration);
    let mut input = LinearInput::OngoingCalibration { start: 1, end: 2 };
    input.reset_calibration();
    assert_eq!(input, LinearInput::NoCalibration);
    let mut input = LinearInput::NoCalibration;
    input.reset_calibration();
    assert_eq!(input, LinearInput::NoCalibration);
}

#[test]
fn calibrated_example() {
    let mut input = calibrated(100, 500, 900);
    assert_eq!(input.get(100), 0);
    assert_eq!(input.get(500), 500);
    assert_eq!(input.get(900), 1000);
    assert_eq!(input.get(50), 0);
    assert_eq!(input.get(950), 1000);
    assert_eq!(input, calibrated(100, 500, 900));
}

#[test]
fn calibrated_values_between() {
    let mut input = calibrated(100, 500, 900);
    assert_eq!(input.get(101), 1);
    assert_eq!(input.get(300), 250);
    assert_eq!(input.get(499), 498);
    assert_eq!(input.get(501), 501);
    assert_eq!(input.get(700), 750);
    assert_eq!(input.get(899), 998);
}

#[test]
fn rounding_correction_on_a_wide_span() {
    // spans of a thousand and more are raised by a thousandth before dividing
    let mut input = calibrated(0, 2000, 4095);
    assert_eq!(input.get(0), 0);
    assert_eq!(input.get(1), 0);
    assert_eq!(input.get(1000), 250);
    assert_eq!(input.get(1999), 500);
    assert_eq!(input.get(2000), 500);
    assert_eq!(input.get(2001), 500);
    assert_eq!(input.get(3000), 739);
    assert_eq!(input.get(4094), 1000);
    assert_eq!(input.get(4095), 1000);
    assert_eq!(input.get(5000), 1000);
}

#[test]
fn small_range_is_spread_evenly() {
    let mut input = calibrated(10, 15, 20);
    let expected = [0u16, 100, 200, 300, 400, 500, 600, 700, 800, 900, 1000];
    for (i, want) in expected.iter().enumerate() {
        assert_eq!(input.get(10 + i as u16), *want);
    }
}

#[test]
fn degenerate_range_gives_the_middle() {
    let mut input = calibrated(500, 500, 500);
    for v in [0u16, 1, 499, 500, 501, 1000, 65535] {
        assert_eq!(input.get(v), 500);
    }
    assert_eq!(input, calibrated(500, 500, 500));
}

#[test]
fn empty_lower_half() {
    let mut input = calibrated(500, 500, 900);
    assert_eq!(input.get(400), 500);
    assert_eq!(input.get(500), 500);
    assert_eq!(input.get(700), 750);
    assert_eq!(input.get(900), 1000);
}

#[test]
fn empty_upper_half() {
    let mut input = calibrated(100, 500, 500);
    assert_eq!(input.get(100), 0);
    assert_eq!(input.get(300), 250);
    assert_eq!(input.get(500), 500);
    assert_eq!(input.get(600), 500);
}

#[test]
fn centre_outside_the_range() {
    let mut above = calibrated(100, 950, 900);
    assert_eq!(above.get(100), 0);
    assert_eq!(above.get(900), 470);
    assert_eq!(above.get(1000), 470);
    let mut below = calibrated(100, 50, 900);
    assert_eq!(below.get(0), 529);
    assert_eq!(below.get(100), 529);
    assert_eq!(below.get(900), 1000);
}

#[test]
fn calibrated_output_is_monotonic() {
    let calibrations = [
        calibrated(100, 500, 900),
        calibrated(0, 2000, 4095),
        calibrated(0, 3, 4095),
        calibrated(0, 0, 65535),
        calibrated(0, 65535, 65535),
        calibrated(7, 7, 7),
        calibrated(100, 950, 900),
        calibrated(100, 50, 900),
    ];
    for calibration in calibrations {
        let mut input = calibration;
        let mut last = 0u16;
        let mut v = 0u32;
        while v <= 65535 {
            let out = input.get(v as u16);
            assert!(out >= last, "{:?} falls at {}", calibration, v);
            assert!(out <= RESOLUTION);
            assert_eq!(input, calibration);
            last = out;
            v += 1;
        }
    }
}

#[test]
fn samples_beyond_the_range_are_limited_to_it() {
    // the limits are those of the range, not of the sample
    let mut input = calibrated(1000, 2000, 3000);
    assert_eq!(input.get(0), input.get(1000));
    assert_eq!(input.get(999), 0);
    assert_eq!(input.get(3001), 1000);
    assert_eq!(input.get(65535), input.get(3000));
}

#[test]
fn ranges_that_end_before_they_start_are_told_apart() {
    assert!(LinearInput::NoCalibration.is_wf());
    assert!(LinearInput::OngoingCalibration { start: 3, end: 3 }.is_wf());
    assert!(LinearInput::OngoingCalibration { start: 3, end: 4 }.is_wf());
    assert!(!LinearInput::OngoingCalibration { start: 4, end: 3 }.is_wf());
    assert!(calibrated(100, 500, 900).is_wf());
    assert!(calibrated(100, 950, 900).is_wf());
    assert!(calibrated(100, 50, 900).is_wf());
    assert!(!calibrated(900, 500, 100).is_wf());
}

#[test]
fn calibration_stays_well_formed() {
    let mut input = LinearInput::default();
    for (step, v) in [700u16, 300, 65535, 0, 5, 40000].iter().enumerate() {
        if step == 4 {
            input.set_center(*v);
        }
        input.get(*v);
        assert!(input.is_wf());
    }
    assert_eq!(input, calibrated(0, 5, 65535));
}
