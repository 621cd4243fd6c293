use vstd::prelude::*;
use crate::class::{chunks_view, configuration_model, DescriptorChunk, MidiClass, MidiError};
use crate::mapper::{distance, emitted, run, ControlMapper};
use crate::packet::{control_change_packet, note_off_packet, note_on_packet};

verus! {

/// For a channel below 16 and data bytes below 128, each event packet is four bytes:
/// the code index, the status code with the channel in its low nibble, and the two
/// data bytes unchanged.
pub proof fn lemma_event_packet_fields(chan: u8, d1: u8, d2: u8)
    requires
        chan < 16,
        d1 < 128,
        d2 < 128,
    ensures
        note_on_packet(chan, d1, d2) == seq![0x09u8, (0x90 + chan) as u8, d1, d2],
        note_off_packet(chan, d1, d2) == seq![0x08u8, (0x80 + chan) as u8, d1, d2],
        control_change_packet(chan, d1, d2) == seq![0x0bu8, (0xb0 + chan) as u8, d1, d2],
        note_on_packet(chan, d1, d2)[1] / 16 == 0x9 && note_on_packet(chan, d1, d2)[1] % 16 == chan,
        note_off_packet(chan, d1, d2)[1] / 16 == 0x8 && note_off_packet(chan, d1, d2)[1] % 16 == chan,
        control_change_packet(chan, d1, d2)[1] / 16 == 0xb && control_change_packet(chan, d1, d2)[1] % 16 == chan,
{
    assert(note_on_packet(chan, d1, d2) =~= seq![0x09u8, (0x90 + chan) as u8, d1, d2]);
    assert(note_off_packet(chan, d1, d2) =~= seq![0x08u8, (0x80 + chan) as u8, d1, d2]);
    assert(control_change_packet(chan, d1, d2) =~= seq![0x0bu8, (0xb0 + chan) as u8, d1, d2]);
}

/// Describing one class twice gives the same chunks in the same order.
pub proof fn lemma_descriptors_deterministic(
    a: MidiClass,
    b: MidiClass,
    ra: Seq<DescriptorChunk>,
    rb: Seq<DescriptorChunk>,
)
    requires
        a == b,
        chunks_view(ra) == configuration_model(a),
        chunks_view(rb) == configuration_model(b),
    ensures
        chunks_view(ra) == chunks_view(rb),
{
}

/// With the latch clear, passes whose values all lie within 1 of the last emitted
/// value emit nothing and leave the state as it was.
pub proof fn lemma_dead_band_emits_nothing(s: ControlMapper, msbs: Seq<u8>)
    requires
        !s.sending,
        forall|i: int| 0 <= i < msbs.len() ==> distance(s.previous_msb, #[trigger] msbs[i]) <= 1,
    ensures
        emitted(s, msbs) == Seq::<u8>::empty(),
        run(s, msbs) == s,
    decreases msbs.len(),
{
    if msbs.len() > 0 {
        let p = msbs.drop_last();
        assert forall|i: int| 0 <= i < p.len() implies distance(s.previous_msb, #[trigger] p[i]) <= 1 by {
            assert(p[i] == msbs[i]);
        }
        lemma_dead_band_emits_nothing(s, p);
        assert(distance(s.previous_msb, msbs[msbs.len() - 1]) <= 1);
    }
}

/// With the latch set, passes whose values each differ from the value emitted just
/// before them all emit, in order, and the latch stays set.
pub proof fn lemma_latch_tracks_moving_value(s: ControlMapper, msbs: Seq<u8>)
    requires
        s.sending,
        forall|i: int|
            0 <= i < msbs.len() ==> #[trigger] msbs[i] != (if i == 0 {
                s.previous_msb
            } else {
                msbs[i - 1]
            }),
    ensures
        emitted(s, msbs) == msbs,
        run(s, msbs).sending,
        msbs.len() > 0 ==> run(s, msbs).previous_msb == msbs.last(),
    decreases msbs.len(),
{
    if msbs.len() > 0 {
        let p = msbs.drop_last();
        assert forall|i: int|
            0 <= i < p.len() implies #[trigger] p[i] != (if i == 0 {
                s.previous_msb
            } else {
                p[i - 1]
            }) by {
            assert(p[i] == msbs[i]);
            if i > 0 {
                assert(p[i - 1] == msbs[i - 1]);
            }
        }
        lemma_latch_tracks_moving_value(s, p);
        let k = msbs.len() - 1;
        assert(msbs[k] != (if k == 0 { s.previous_msb } else { msbs[k - 1] }));
        if k > 0 {
            assert(p.last() == msbs[k - 1]);
        }
        assert(emitted(s, msbs) =~= msbs);
    }
}

/// With the latch set, the first pass whose value equals the last emitted value
/// still emits it and clears the latch; from then on, values within 1 of it emit
/// nothing.
pub proof fn lemma_latch_clears_on_equal_value(s: ControlMapper, msbs: Seq<u8>)
    requires
        s.sending,
        forall|i: int| 0 <= i < msbs.len() ==> distance(s.previous_msb, #[trigger] msbs[i]) <= 1,
    ensures
        s.triggers(s.previous_msb),
        s.step(s.previous_msb) == (ControlMapper { previous_msb: s.previous_msb, sending: false }),
        emitted(s.step(s.previous_msb), msbs) == Seq::<u8>::empty(),
{
    lemma_dead_band_emits_nothing(s.step(s.previous_msb), msbs);
}

/// A write that would block leaves the last emitted value and the latch unchanged.
pub proof fn lemma_would_block_keeps_state(s: ControlMapper, msb: u8)
    ensures
        s.after(msb, Err(MidiError::WouldBlock)) == s,
{
}

} // verus!
