use flightctl::orientation::{Orientation, ANGLE_LIMIT, TELEMETRY_SIZE};
use flightctl::vec3::{div_trunc, Vec3};

fn v(x: i64, y: i64, z: i64) -> Vec3 {
    Vec3::new(x, y, z)
}

#[test]
fn pure_integration_adds_the_rate() {
    let mut o = Orientation::new(v(100, 200, 300), 0);
    o.adjust(v(1, 2, 3), v(999, 999, 999));
    assert_eq!(o.angles, v(101, 202, 303));
}

#[test]
fn accelerometer_correction_pulls_toward_the_reading() {
    // With divisor 2, the estimate moves halfway toward the
    // accelerometer angle after integrating the rate.
    let mut o = Orientation::new(v(0, 0, 0), 2);
    o.adjust(v(10, 10, 10), v(30, 10, -10));
    // g = 10; correction = (a - g) / 2.
    assert_eq!(o.angles, v(20, 10, 0));
}

#[test]
fn axes_saturate_at_the_limit() {
    let mut o = Orientation::new(v(ANGLE_LIMIT, -ANGLE_LIMIT, 0), 0);
    o.adjust(v(1, -1, 0), v(0, 0, 0));
    assert_eq!(o.angles, v(ANGLE_LIMIT, -ANGLE_LIMIT, 0));
}

#[test]
fn frame_is_offset_little_endian_axes() {
    let o = Orientation::new(v(1, 0, -1), 0);
    let frame = o.to_frame();
    assert_eq!(frame.len(), TELEMETRY_SIZE);
    let mut expected = Vec::new();
    for axis in [1i64, 0, -1] {
        expected.extend_from_slice(&((axis + ANGLE_LIMIT) as u64).to_le_bytes());
    }
    assert_eq!(frame, expected);

    // The frame is decodable back to the axes.
    let x = u64::from_le_bytes(frame[0..8].try_into().unwrap());
    assert_eq!(x as i64 - ANGLE_LIMIT, 1);
    let z = u64::from_le_bytes(frame[16..24].try_into().unwrap());
    assert_eq!(z as i64 - ANGLE_LIMIT, -1);
}

#[test]
fn blend_and_division_truncate_toward_zero() {
    assert_eq!(div_trunc(7, 2), 3);
    assert_eq!(div_trunc(-7, 2), -3);
    assert_eq!(v(1, 1, 1).blend(v(2, 2, 2)), v(1, 1, 1));
    assert_eq!(v(-1, -1, -1).blend(v(-2, -2, -2)), v(-1, -1, -1));
    assert_eq!(v(6, -6, 0).blend(v(1, -1, 0)), v(3, -3, 0));
}

#[test]
fn sub_axes_matches_componentwise_difference() {
    assert_eq!(v(10, 20, 30).sub_axes(v(1, 2, 3)), v(9, 18, 27));
    assert_eq!(v(0, 0, 0).sub_axes(v(1, -2, 3)), v(-1, 2, -3));
}
