use flightctl::command::{decode_command, Command, MotorState, COMMAND_SIZE, EOT, THROTTLE_SCALE};

fn frame(enable: u8, throttle: u32) -> Vec<u8> {
    let t = throttle.to_le_bytes();
    vec![enable, t[0], t[1], t[2], t[3]]
}

#[test]
fn constants_match_wire_format() {
    assert_eq!(COMMAND_SIZE, 5);
    assert_eq!(EOT, 4);
    assert_eq!(THROTTLE_SCALE, 1_000_000);
}

#[test]
fn decode_reads_enable_and_throttle() {
    let f = frame(1, 1_000_000);
    let c = decode_command(&f).unwrap();
    assert!(c.enable);
    assert_eq!(c.throttle, 1_000_000);

    let f = frame(0, 250_000);
    let c = decode_command(&f).unwrap();
    assert!(!c.enable);
    assert_eq!(c.throttle, 250_000);
}

#[test]
fn decode_rejects_wrong_length() {
    assert!(decode_command(&[1, 2, 3]).is_none());
    assert!(decode_command(&[]).is_none());
    assert!(decode_command(&[1, 2, 3, 4, 5, 6]).is_none());
}

#[test]
fn enable_one_arms_enable_zero_disarms() {
    let mut m = MotorState::boot();
    assert!(!m.enabled);

    let c = decode_command(&frame(1, 0)).unwrap();
    m.apply_command(c, 1000);
    assert!(m.enabled);

    let c = decode_command(&frame(0, 0)).unwrap();
    m.apply_command(c, 1000);
    assert!(!m.enabled);
}

#[test]
fn enable_applies_even_with_invalid_throttle() {
    let mut m = MotorState::boot();
    let c = decode_command(&frame(7, 3_000_000)).unwrap();
    m.apply_command(c, 1000);
    assert!(m.enabled);
    assert_eq!(m.duty, 0);
}

#[test]
fn duty_is_rounded_fraction_of_max() {
    let mut m = MotorState::boot();

    m.apply_command(Command { enable: true, throttle: 0 }, 1000);
    assert_eq!(m.duty, 0);

    m.apply_command(Command { enable: true, throttle: 1_000_000 }, 1000);
    assert_eq!(m.duty, 1000);

    m.apply_command(Command { enable: true, throttle: 500_000 }, 1000);
    assert_eq!(m.duty, 500);

    // 1000 * 500 / 1_000_000 = 0.5 rounds up to 1.
    m.apply_command(Command { enable: true, throttle: 500 }, 1000);
    assert_eq!(m.duty, 1);

    // 1000 * 499 / 1_000_000 = 0.499 rounds down to 0.
    m.apply_command(Command { enable: true, throttle: 499 }, 1000);
    assert_eq!(m.duty, 0);

    // Full throttle at the largest PWM period.
    m.apply_command(Command { enable: true, throttle: 1_000_000 }, u16::MAX);
    assert_eq!(m.duty, u16::MAX);
}

#[test]
fn out_of_range_throttle_keeps_prior_duty() {
    let mut m = MotorState::boot();
    m.apply_command(Command { enable: true, throttle: 750_000 }, 1000);
    assert_eq!(m.duty, 750);

    m.apply_command(Command { enable: true, throttle: 1_000_001 }, 1000);
    assert_eq!(m.duty, 750);

    m.apply_command(Command { enable: false, throttle: -1 }, 1000);
    assert_eq!(m.duty, 750);

    m.apply_command(Command { enable: false, throttle: i64::MIN + 1 }, 1000);
    assert_eq!(m.duty, 750);
}
