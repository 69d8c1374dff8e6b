use flightctl::command::{MotorState, COMMAND_SIZE};
use flightctl::rx::Receiver;

fn fill(rx: &mut Receiver, bytes: &[u8]) {
    for &b in bytes {
        rx.engine_write(b);
    }
}

#[test]
fn full_slot_reports_full_capacity() {
    let mut rx = Receiver::new(COMMAND_SIZE);
    let mut motor = MotorState::boot();
    fill(&mut rx, &[1, 0x40, 0x42, 0x0f, 0x00]);
    let len = rx.handle_idle(&mut motor, 1000);
    assert_eq!(len, COMMAND_SIZE);
}

#[test]
fn partial_fill_reports_actual_length_and_leaves_other_slot() {
    let mut rx = Receiver::new(COMMAND_SIZE);
    let mut motor = MotorState::boot();
    let before_slot1 = rx.slot1_bytes().clone();
    fill(&mut rx, &[9, 8, 7]);
    let len = rx.handle_idle(&mut motor, 1000);
    assert_eq!(len, 3);
    assert_eq!(rx.slot1_bytes(), &before_slot1);
    // The received bytes sit at the front of slot 0; the tail is
    // whatever the slot held before.
    assert_eq!(&rx.slot0_bytes()[..3], &[9, 8, 7]);
}

#[test]
fn handler_rearms_for_the_next_frame() {
    let mut rx = Receiver::new(COMMAND_SIZE);
    let mut motor = MotorState::boot();
    fill(&mut rx, &[1, 0, 0, 0, 0]);
    let len = rx.handle_idle(&mut motor, 1000);
    assert_eq!(len, COMMAND_SIZE);

    // Immediately usable again: a second frame goes through the
    // same slots from a fresh write position.
    fill(&mut rx, &[0, 0, 0, 0, 0]);
    let len = rx.handle_idle(&mut motor, 1000);
    assert_eq!(len, COMMAND_SIZE);
    assert!(!motor.enabled);
}

#[test]
fn handler_decodes_slot0_and_drives_the_motor() {
    let mut rx = Receiver::new(COMMAND_SIZE);
    let mut motor = MotorState::boot();
    let throttle: u32 = 500_000;
    let t = throttle.to_le_bytes();
    fill(&mut rx, &[1, t[0], t[1], t[2], t[3]]);
    rx.handle_idle(&mut motor, 1000);
    assert!(motor.enabled);
    assert_eq!(motor.duty, 500);
}

#[test]
fn received_count_is_double_length_minus_remaining() {
    assert_eq!(Receiver::received_count(COMMAND_SIZE, 2 * COMMAND_SIZE), 0);
    assert_eq!(Receiver::received_count(COMMAND_SIZE, COMMAND_SIZE), COMMAND_SIZE);
    assert_eq!(Receiver::received_count(COMMAND_SIZE, 0), 2 * COMMAND_SIZE);
    assert_eq!(Receiver::received_count(5, 7), 3);
}

#[test]
fn rollover_counts_both_slots() {
    let mut rx = Receiver::new(COMMAND_SIZE);
    let mut motor = MotorState::boot();
    // The engine runs into the second slot before the line idles.
    fill(&mut rx, &[1, 0, 0, 0, 0, 0xaa, 0xbb]);
    assert_eq!(rx.remaining(), 2 * COMMAND_SIZE - 7);
    let len = rx.handle_idle(&mut motor, 1000);
    assert_eq!(len, 7);
    assert_eq!(&rx.slot1_bytes()[..2], &[0xaa, 0xbb]);
}
