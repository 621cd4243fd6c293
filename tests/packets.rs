use usb_midi::class::MidiClass;

fn class() -> MidiClass {
    MidiClass::new(0, 1, 0x01, 0x81)
}

#[test]
fn note_on_packet_bytes() {
    assert_eq!(class().note_on(3, 60, 100), [0x09, 0x93, 60, 100]);
}

#[test]
fn note_off_packet_bytes() {
    assert_eq!(class().note_off(15, 127, 0), [0x08, 0x8f, 127, 0]);
}

#[test]
fn control_change_packet_bytes() {
    assert_eq!(class().ctrl(0, 1, 3), [0x0b, 0xb0, 1, 3]);
}

#[test]
fn packets_mask_out_of_range_inputs() {
    assert_eq!(class().note_on(0x13, 0xbc, 0xff), [0x09, 0x93, 0x3c, 0x7f]);
    assert_eq!(class().ctrl(0xff, 0x80, 0x81), [0x0b, 0xbf, 0x00, 0x01]);
}

#[test]
fn packets_for_all_channels_and_values() {
    let c = class();
    for chan in 0u8..16 {
        for v in 0u8..128 {
            assert_eq!(c.note_on(chan, v, 127 - v), [0x09, 0x90 | chan, v, 127 - v]);
            assert_eq!(c.note_off(chan, v, v), [0x08, 0x80 | chan, v, v]);
            assert_eq!(c.ctrl(chan, 127 - v, v), [0x0b, 0xb0 | chan, 127 - v, v]);
        }
    }
}
