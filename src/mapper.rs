use vstd::prelude::*;
use crate::class::{MidiClass, MidiError};
use crate::packet::control_change_packet;

verus! {

/// Number of raw samples averaged on each pass.
pub const NR_SAMPLES: usize = 4;

/// MIDI channel of the controller stream.
pub const CC_CHANNEL: u8 = 0;

/// Controller number of the controller stream.
pub const CC_CONTROLLER: u8 = 1;

/// Enumeration state of the USB device, as the transport reports it.
#[derive(Clone, Copy, Debug, PartialEq, Eq, Structural)]
pub enum DeviceState {
    Default,
    Addressed,
    Configured,
    Suspend,
}

/// Sum of a sequence of samples.
pub open spec fn sum_of(s: Seq<u16>) -> int
    decreases s.len(),
{
    if s.len() == 0 {
        0
    } else {
        sum_of(s.drop_last()) + s.last()
    }
}

proof fn lemma_sum_bounds(s: Seq<u16>)
    ensures
        0 <= sum_of(s) <= s.len() * 65535,
    decreases s.len(),
{
    if s.len() > 0 {
        lemma_sum_bounds(s.drop_last());
    }
}

/// Integer mean of the samples.
pub fn average(samples: &[u16]) -> (r: u32)
    requires
        0 < samples@.len() <= 65536,
    ensures
        r == sum_of(samples@) / (samples@.len() as int),
{
    let n: usize = samples.len();
    let mut acc: u32 = 0;
    let mut i: usize = 0;
    while i < n
        invariant
            n == samples@.len(),
            n <= 65536,
            i <= n,
            acc == sum_of(samples@.subrange(0, i as int)),
        decreases n - i,
    {
        proof {
            let s = samples@.subrange(0, i as int + 1);
            assert(s.drop_last() =~= samples@.subrange(0, i as int));
            lemma_sum_bounds(s);
            assert(s.len() * 65535 <= 65536 * 65535) by (nonlinear_arith)
                requires
                    s.len() <= 65536,
            ;
        }
        acc = acc + samples[i] as u32;
        i = i + 1;
    }
    assert(samples@.subrange(0, n as int) =~= samples@);
    acc / (n as u32)
}

/// The 7-bit value carried by an averaged 12-bit sample: its top bits, as a byte.
pub open spec fn msb_of(avg: u32) -> u8 {
    ((avg / 32) % 256) as u8
}

/// Drops the five low bits of an averaged sample.
pub fn to_msb(avg: u32) -> (r: u8)
    ensures
        r == msb_of(avg),
{
    let r: u8 = (avg >> 5) as u8;
    assert(((avg >> 5) as u8) == ((avg / 32) % 256) as u8) by (bit_vector);
    r
}

/// The controller value that a pass over these samples carries.
pub open spec fn sample_value(s: Seq<u16>) -> u8 {
    msb_of((sum_of(s) / (s.len() as int)) as u32)
}

/// Whether the application may emit: only once the host has configured the device.
pub fn app_enabled(state: DeviceState) -> (r: bool)
    ensures
        r == (state == DeviceState::Configured),
{
    match state {
        DeviceState::Configured => true,
        _ => false,
    }
}

/// Signed distance between the last emitted value and a new one.
pub open spec fn distance(prev: u8, msb: u8) -> int {
    if prev >= msb {
        prev - msb
    } else {
        msb - prev
    }
}

/// State of the controller stream between passes: the last emitted value and the
/// latch that keeps emission going while the value moves.
#[derive(Clone, Copy, Debug, PartialEq, Eq, Structural)]
pub struct ControlMapper {
    pub previous_msb: u8,
    pub sending: bool,
}

impl ControlMapper {
    /// Whether a pass with value `msb` emits from this state.
    pub open spec fn triggers(self, msb: u8) -> bool {
        distance(self.previous_msb, msb) > 1 || self.sending
    }

    /// The state after a pass whose emission went out or was dropped for good.
    pub open spec fn step(self, msb: u8) -> ControlMapper {
        if self.triggers(msb) {
            ControlMapper { previous_msb: msb, sending: self.previous_msb != msb }
        } else {
            self
        }
    }

    /// The state after a pass whose write ended with `res`.
    pub open spec fn after(self, msb: u8, res: Result<usize, MidiError>) -> ControlMapper {
        if res == Err::<usize, MidiError>(MidiError::WouldBlock) {
            self
        } else {
            self.step(msb)
        }
    }

    /// The stream before any pass: value 0, latch clear.
    pub fn new() -> (r: ControlMapper)
        ensures
            r.previous_msb == 0,
            !r.sending,
    {
        ControlMapper { previous_msb: 0, sending: false }
    }

    /// Whether a pass with value `msb` emits.
    pub fn should_send(&self, msb: u8) -> (r: bool)
        ensures
            r == self.triggers(msb),
    {
        let diff: i16 = self.previous_msb as i16 - msb as i16;
        diff > 1 || diff < -1 || self.sending
    }

    /// The value to emit on a pass over `samples` in device state `state`, if any:
    /// nothing unless the device is configured and the averaged value triggers.
    pub fn plan(&self, state: DeviceState, samples: &[u16]) -> (r: Option<u8>)
        requires
            0 < samples@.len() <= 65536,
        ensures
            r == (if state == DeviceState::Configured && self.triggers(sample_value(samples@)) {
                Some(sample_value(samples@))
            } else {
                None::<u8>
            }),
    {
        if !app_enabled(state) {
            return None;
        }
        let msb = to_msb(average(samples));
        if self.should_send(msb) {
            Some(msb)
        } else {
            None
        }
    }

    /// The control-change packet for a value on the stream's channel and controller.
    pub fn packet(&self, class: &MidiClass, msb: u8) -> (r: [u8; 4])
        ensures
            r@ == control_change_packet(CC_CHANNEL, CC_CONTROLLER, msb),
    {
        class.ctrl(CC_CHANNEL, CC_CONTROLLER, msb)
    }

    /// Records the outcome of a pass with value `msb`. A write that would block
    /// leaves the state as it was, so the value is tried again on the next pass;
    /// any other outcome commits the value and sets the latch while it moves.
    pub fn finish_pass(&mut self, msb: u8, res: Result<usize, MidiError>)
        ensures
            *final(self) == old(self).after(msb, res),
    {
        if self.should_send(msb) {
            match res {
                Err(MidiError::WouldBlock) => {},
                _ => {
                    self.sending = self.previous_msb != msb;
                    self.previous_msb = msb;
                },
            }
        }
    }
}

/// The state after passes with the values `msbs`, each of whose writes went out.
pub open spec fn run(s: ControlMapper, msbs: Seq<u8>) -> ControlMapper
    decreases msbs.len(),
{
    if msbs.len() == 0 {
        s
    } else {
        run(s, msbs.drop_last()).step(msbs.last())
    }
}

/// The values emitted over passes with the values `msbs`, each of whose writes went out.
pub open spec fn emitted(s: ControlMapper, msbs: Seq<u8>) -> Seq<u8>
    decreases msbs.len(),
{
    if msbs.len() == 0 {
        Seq::empty()
    } else if run(s, msbs.drop_last()).triggers(msbs.last()) {
        emitted(s, msbs.drop_last()).push(msbs.last())
    } else {
        emitted(s, msbs.drop_last())
    }
}

} // verus!
