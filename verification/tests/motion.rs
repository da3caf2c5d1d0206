use gyro_mouse::motion::{map_motion, CursorPosition, Motion, OrientationSample, THRESHOLD};

fn sample(x: f64, z: f64) -> OrientationSample {
    OrientationSample { x: x.to_bits(), y: 0, z: z.to_bits() }
}

fn at(x: i32, y: i32) -> CursorPosition {
    CursorPosition { x, y }
}

#[test]
fn unit_rate_on_x_moves_the_cursor_up_by_the_sensitivity() {
    assert_eq!(map_motion(at(100, 100), &sample(1.0, 0.0)), Motion::MoveTo(at(100, 80)));
}

#[test]
fn axes_are_swapped_and_signs_reversed() {
    assert_eq!(map_motion(at(500, 300), &sample(0.0, 1.0)), Motion::MoveTo(at(480, 300)));
    assert_eq!(map_motion(at(500, 300), &sample(0.0, -1.0)), Motion::MoveTo(at(520, 300)));
    assert_eq!(map_motion(at(500, 300), &sample(-2.0, 0.0)), Motion::MoveTo(at(500, 340)));
    assert_eq!(map_motion(at(500, 300), &sample(0.5, -0.25)), Motion::MoveTo(at(505, 290)));
}

#[test]
fn the_y_rate_is_not_consumed() {
    let quiet = OrientationSample { x: 0, y: 1000.0f64.to_bits(), z: 0 };
    assert_eq!(map_motion(at(10, 10), &quiet), Motion::Hold);
    let moving = OrientationSample { x: 1.0f64.to_bits(), y: (-55.5f64).to_bits(), z: 0 };
    assert_eq!(map_motion(at(10, 10), &moving), Motion::MoveTo(at(10, -10)));
}

#[test]
fn steps_within_the_threshold_hold_the_cursor() {
    assert_eq!(THRESHOLD, 1);
    assert_eq!(map_motion(at(100, 100), &sample(0.0, 0.0)), Motion::Hold);
    assert_eq!(map_motion(at(100, 100), &sample(0.049, -0.049)), Motion::Hold);
    assert_eq!(map_motion(at(100, 100), &sample(0.03, 0.03)), Motion::Hold);
    assert_eq!(map_motion(at(100, 100), &sample(-0.01, 0.04)), Motion::Hold);
    // a step of exactly one pixel is not more than the threshold
    assert_eq!(map_motion(at(100, 100), &sample(0.05, 0.05)), Motion::Hold);
    assert_eq!(map_motion(at(100, 100), &sample(-0.07, 0.07)), Motion::Hold);
}

#[test]
fn a_step_of_two_pixels_moves_the_cursor() {
    assert_eq!(map_motion(at(100, 100), &sample(0.075, 0.0)), Motion::MoveTo(at(100, 98)));
    assert_eq!(map_motion(at(100, 100), &sample(0.0, -0.1)), Motion::MoveTo(at(102, 100)));
}

#[test]
fn one_axis_beyond_the_threshold_moves_both() {
    assert_eq!(map_motion(at(100, 100), &sample(0.05, 0.5)), Motion::MoveTo(at(90, 99)));
    assert_eq!(map_motion(at(100, 100), &sample(-0.5, -0.05)), Motion::MoveTo(at(101, 110)));
}

#[test]
fn quiet_samples_hold_the_cursor_anywhere() {
    let rates = [0.0, 1.0e-9, 0.01, 0.024, 0.025, 0.04, 0.0499, 0.049999999999];
    let places = [at(0, 0), at(i32::MIN, i32::MAX), at(i32::MAX, i32::MIN), at(-5, 77)];
    for place in places {
        for x in rates {
            for z in rates {
                assert_eq!(map_motion(place, &sample(x, z)), Motion::Hold);
                assert_eq!(map_motion(place, &sample(-x, z)), Motion::Hold);
                assert_eq!(map_motion(place, &sample(x, -z)), Motion::Hold);
            }
        }
    }
}

#[test]
fn a_target_beyond_the_coordinates_is_off_range() {
    assert_eq!(map_motion(at(i32::MIN, 0), &sample(0.0, 1.0)), Motion::OffRange);
    assert_eq!(map_motion(at(0, i32::MAX), &sample(-1.0, 0.0)), Motion::OffRange);
    assert_eq!(map_motion(at(i32::MAX - 19, 0), &sample(0.0, -1.0)), Motion::OffRange);
    assert_eq!(
        map_motion(at(i32::MAX - 20, 0), &sample(0.0, -1.0)),
        Motion::MoveTo(at(i32::MAX, 0))
    );
    assert_eq!(
        map_motion(at(i32::MIN + 20, 5), &sample(0.0, 1.0)),
        Motion::MoveTo(at(i32::MIN, 5))
    );
    assert_eq!(map_motion(at(-2, 0), &sample(0.0, 1.0e300)), Motion::OffRange);
    assert_eq!(
        map_motion(at(-1, 0), &sample(0.0, 1.0e300)),
        Motion::MoveTo(at(i32::MIN, 0))
    );
    assert_eq!(
        map_motion(at(0, 0), &sample(1.0e300, 0.0)),
        Motion::MoveTo(at(0, -i32::MAX))
    );
    assert_eq!(map_motion(at(0, 0), &sample(0.0, -1.0e300)), Motion::OffRange);
    assert_eq!(
        map_motion(at(-1, -1), &sample(0.0, -1.0e300)),
        Motion::MoveTo(at(i32::MAX, -1))
    );
}

#[test]
fn rates_that_are_no_numbers_hold_the_cursor() {
    assert_eq!(map_motion(at(3, 4), &sample(f64::NAN, f64::NAN)), Motion::Hold);
    assert_eq!(map_motion(at(3, 4), &sample(f64::NAN, 1.0)), Motion::MoveTo(at(-17, 4)));
}

#[test]
fn moved_cursor_is_old_position_less_scaled_rates() {
    let rates = [0.1, 0.33, 1.0, 2.49, 7.77, 100.0, 12345.678];
    for x in rates {
        for z in rates {
            let dx = (z * 20.0f64).round() as i32;
            let dy = (x * 20.0f64).round() as i32;
            assert_eq!(
                map_motion(at(1000, -1000), &sample(x, z)),
                Motion::MoveTo(at(1000 - dx, -1000 - dy))
            );
            assert_eq!(
                map_motion(at(1000, -1000), &sample(-x, -z)),
                Motion::MoveTo(at(1000 + dx, -1000 + dy))
            );
        }
    }
}
