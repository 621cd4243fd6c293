use usb_midi::class::{MidiClass, MidiError};
use usb_midi::mapper::{app_enabled, average, to_msb, ControlMapper, DeviceState};

fn state(previous_msb: u8, sending: bool) -> ControlMapper {
    ControlMapper { previous_msb, sending }
}

#[test]
fn average_of_samples() {
    assert_eq!(average(&[100, 102, 98, 100]), 100);
    assert_eq!(average(&[1, 2, 2, 2]), 1);
    assert_eq!(average(&[4095, 4095, 4095, 4095]), 4095);
    assert_eq!(average(&[65535; 4]), 65535);
    assert_eq!(average(&[7]), 7);
}

#[test]
fn msb_drops_five_bits() {
    assert_eq!(to_msb(100), 3);
    assert_eq!(to_msb(4095), 127);
    assert_eq!(to_msb(31), 0);
    assert_eq!(to_msb(32), 1);
    assert_eq!(to_msb(65535), 255);
}

#[test]
fn only_configured_device_runs_app() {
    assert!(app_enabled(DeviceState::Configured));
    assert!(!app_enabled(DeviceState::Default));
    assert!(!app_enabled(DeviceState::Addressed));
    assert!(!app_enabled(DeviceState::Suspend));
}

#[test]
fn round_trip_first_pass() {
    let mut m = ControlMapper::new();
    assert_eq!(m, state(0, false));
    let v = m.plan(DeviceState::Configured, &[100, 102, 98, 100]);
    assert_eq!(v, Some(3));
    let class = MidiClass::new(0, 1, 0x01, 0x81);
    assert_eq!(m.packet(&class, 3), [0x0b, 0xb0, 1, 3]);
    m.finish_pass(3, Ok(4));
    assert_eq!(m, state(3, true));
}

#[test]
fn nothing_planned_before_configuration() {
    let m = ControlMapper::new();
    assert_eq!(m.plan(DeviceState::Addressed, &[100, 102, 98, 100]), None);
    assert_eq!(m.plan(DeviceState::Default, &[4095; 4]), None);
}

#[test]
fn dead_band_emits_nothing() {
    let m = state(10, false);
    for v in [9u8, 10, 11, 10, 9] {
        assert!(!m.should_send(v));
        let samples = [v as u16 * 32; 4];
        assert_eq!(m.plan(DeviceState::Configured, &samples), None);
    }
    let mut n = m;
    n.finish_pass(11, Ok(4));
    assert_eq!(n, m);
}

#[test]
fn latch_follows_moving_value_then_clears() {
    let mut m = state(10, false);
    assert!(m.should_send(12));
    m.finish_pass(12, Ok(4));
    assert_eq!(m, state(12, true));
    assert!(m.should_send(13));
    m.finish_pass(13, Ok(4));
    assert_eq!(m, state(13, true));
    assert!(m.should_send(14));
    m.finish_pass(14, Ok(4));
    assert_eq!(m, state(14, true));
    assert!(m.should_send(14));
    m.finish_pass(14, Ok(4));
    assert_eq!(m, state(14, false));
    assert!(!m.should_send(15));
    assert!(!m.should_send(14));
}

#[test]
fn would_block_keeps_state() {
    let mut m = state(0, false);
    assert!(m.should_send(3));
    m.finish_pass(3, Err(MidiError::WouldBlock));
    assert_eq!(m, state(0, false));
    let mut s = state(20, true);
    s.finish_pass(21, Err(MidiError::WouldBlock));
    assert_eq!(s, state(20, true));
}

#[test]
fn other_errors_drop_the_write() {
    let mut m = state(0, false);
    m.finish_pass(3, Err(MidiError::BufferOverflow));
    assert_eq!(m, state(3, true));
    let mut n = state(0, false);
    n.finish_pass(5, Err(MidiError::Transport));
    assert_eq!(n, state(5, true));
    let mut r = state(9, true);
    r.finish_pass(9, Err(MidiError::ResourceExhausted));
    assert_eq!(r, state(9, false));
}
