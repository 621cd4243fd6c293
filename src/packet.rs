use vstd::prelude::*;

verus! {

/// Code-index byte of a note-off event on virtual cable 0.
pub const CIN_NOTE_OFF: u8 = 0x08;

/// Code-index byte of a note-on event on virtual cable 0.
pub const CIN_NOTE_ON: u8 = 0x09;

/// Code-index byte of a control-change event on virtual cable 0.
pub const CIN_CONTROL_CHANGE: u8 = 0x0b;

/// MIDI status nibble of a note-off message.
pub const STATUS_NOTE_OFF: u8 = 0x80;

/// MIDI status nibble of a note-on message.
pub const STATUS_NOTE_ON: u8 = 0x90;

/// MIDI status nibble of a control-change message.
pub const STATUS_CONTROL_CHANGE: u8 = 0xb0;

/// The 4-byte USB-MIDI event packet for a channel message: the code index,
/// the status with the channel in its low nibble, and two 7-bit data bytes.
pub open spec fn event_packet(cin: u8, status: u8, chan: u8, d1: u8, d2: u8) -> Seq<u8> {
    seq![cin, (status + chan % 16) as u8, d1 % 128, d2 % 128]
}

/// Builds the event packet of a channel message.
pub fn encode_event(cin: u8, status: u8, chan: u8, d1: u8, d2: u8) -> (r: [u8; 4])
    requires
        status % 16 == 0,
    ensures
        r@ == event_packet(cin, status, chan, d1, d2),
{
    let s: u8 = status | (chan & 0x0f);
    let a: u8 = d1 & 0x7f;
    let b: u8 = d2 & 0x7f;
    assert((status | (chan & 0x0f)) == (status + chan % 16) as u8) by (bit_vector)
        requires
            status % 16 == 0,
    ;
    assert((d1 & 0x7f) == d1 % 128) by (bit_vector);
    assert((d2 & 0x7f) == d2 % 128) by (bit_vector);
    let r: [u8; 4] = [cin, s, a, b];
    assert(r@ =~= event_packet(cin, status, chan, d1, d2));
    r
}

/// The note-off packet: code index 0x08, status 0x80 with the channel.
pub open spec fn note_off_packet(chan: u8, key: u8, vel: u8) -> Seq<u8> {
    event_packet(CIN_NOTE_OFF, STATUS_NOTE_OFF, chan, key, vel)
}

/// The note-on packet: code index 0x09, status 0x90 with the channel.
pub open spec fn note_on_packet(chan: u8, key: u8, vel: u8) -> Seq<u8> {
    event_packet(CIN_NOTE_ON, STATUS_NOTE_ON, chan, key, vel)
}

/// The control-change packet: code index 0x0b, status 0xb0 with the channel.
pub open spec fn control_change_packet(chan: u8, ctrl_nr: u8, value: u8) -> Seq<u8> {
    event_packet(CIN_CONTROL_CHANGE, STATUS_CONTROL_CHANGE, chan, ctrl_nr, value)
}

} // verus!
