use vstd::prelude::*;

verus! {

/// Number of notes in the sequencer's scale.
pub const SCALE_LEN: usize = 8;

/// Tick on which a note starts.
pub const NOTE_ON_TICK: u32 = 200;

/// Tick on which the sounding note stops.
pub const NOTE_OFF_TICK: u32 = 400;

/// Velocity of a note-on.
pub const NOTE_ON_VELOCITY: u8 = 64;

/// Velocity of a note-off.
pub const NOTE_OFF_VELOCITY: u8 = 0;

/// The C major scale from middle C, one octave.
pub open spec fn scale_note(i: int) -> u8 {
    if i == 0 {
        60
    } else if i == 1 {
        62
    } else if i == 2 {
        64
    } else if i == 3 {
        65
    } else if i == 4 {
        67
    } else if i == 5 {
        69
    } else if i == 6 {
        71
    } else {
        72
    }
}

/// The key of the `i`-th note of the scale.
pub fn note_at(i: usize) -> (r: u8)
    requires
        i < SCALE_LEN,
    ensures
        r == scale_note(i as int),
{
    match i {
        0 => 60,
        1 => 62,
        2 => 64,
        3 => 65,
        4 => 67,
        5 => 69,
        6 => 71,
        _ => 72,
    }
}

/// What the sequencer asks for on a tick.
#[derive(Clone, Copy, Debug, PartialEq, Eq, Structural)]
pub enum SeqAction {
    NoteOn { key: u8, velocity: u8 },
    NoteOff { key: u8, velocity: u8 },
    Wait,
}

/// A sequencer that walks the scale in a cycle: every note starts on one tick,
/// stops on a later one, and the next note follows.
#[derive(Clone, Copy, Debug, PartialEq, Eq, Structural)]
pub struct Sequencer {
    pub tick: u32,
    pub index: usize,
}

impl Sequencer {
    pub open spec fn wf(self) -> bool {
        self.tick <= NOTE_OFF_TICK && self.index < SCALE_LEN
    }

    /// The action that the current tick asks for.
    pub open spec fn action_spec(self) -> SeqAction {
        if self.tick == NOTE_ON_TICK {
            SeqAction::NoteOn { key: scale_note(self.index as int), velocity: NOTE_ON_VELOCITY }
        } else if self.tick == NOTE_OFF_TICK {
            SeqAction::NoteOff { key: scale_note(self.index as int), velocity: NOTE_OFF_VELOCITY }
        } else {
            SeqAction::Wait
        }
    }

    /// The state after a tick. A note event that did not go out holds the tick,
    /// so it is tried again; a note-off that went out moves to the next note.
    pub open spec fn next(self, sent: bool) -> Sequencer {
        if self.tick == NOTE_ON_TICK {
            if sent {
                Sequencer { tick: (self.tick + 1) as u32, index: self.index }
            } else {
                self
            }
        } else if self.tick == NOTE_OFF_TICK {
            if sent {
                Sequencer { tick: 0, index: ((self.index + 1) % (SCALE_LEN as int)) as usize }
            } else {
                self
            }
        } else {
            Sequencer { tick: (self.tick + 1) as u32, index: self.index }
        }
    }

    /// A sequencer at the first tick of the first note.
    pub fn new() -> (r: Sequencer)
        ensures
            r.wf(),
            r.tick == 0,
            r.index == 0,
    {
        Sequencer { tick: 0, index: 0 }
    }

    /// The action that the current tick asks for.
    pub fn action(&self) -> (r: SeqAction)
        requires
            self.wf(),
        ensures
            r == self.action_spec(),
    {
        if self.tick == NOTE_ON_TICK {
            SeqAction::NoteOn { key: note_at(self.index), velocity: NOTE_ON_VELOCITY }
        } else if self.tick == NOTE_OFF_TICK {
            SeqAction::NoteOff { key: note_at(self.index), velocity: NOTE_OFF_VELOCITY }
        } else {
            SeqAction::Wait
        }
    }

    /// Ends a tick; `sent` tells whether the note event of this tick went out.
    pub fn advance(&mut self, sent: bool)
        requires
            old(self).wf(),
        ensures
            final(self).wf(),
            *final(self) == old(self).next(sent),
    {
        if self.tick == NOTE_ON_TICK {
            if sent {
                self.tick = self.tick + 1;
            }
        } else if self.tick == NOTE_OFF_TICK {
            if sent {
                self.tick = 0;
                self.index = (self.index + 1) % SCALE_LEN;
            }
        } else {
            self.tick = self.tick + 1;
        }
    }
}

} // verus!
