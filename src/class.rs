use vstd::prelude::*;
use crate::packet::{
    encode_event, note_off_packet, note_on_packet, control_change_packet, CIN_NOTE_OFF,
    CIN_NOTE_ON, CIN_CONTROL_CHANGE, STATUS_NOTE_OFF, STATUS_NOTE_ON, STATUS_CONTROL_CHANGE,
};

verus! {

/// USB class code of the Audio class.
pub const USB_CLASS_AUDIO: u8 = 0x01;

/// Audio subclass code of the Audio-Control interface.
pub const SUBCLASS_AUDIO_CONTROL: u8 = 0x01;

/// Audio subclass code of the MIDI-Streaming interface.
pub const SUBCLASS_MIDI_STREAMING: u8 = 0x03;

/// Descriptor type of a class-specific interface descriptor.
pub const CS_INTERFACE: u8 = 0x24;

/// Descriptor type of a class-specific endpoint descriptor.
pub const CS_ENDPOINT: u8 = 0x25;

/// Maximum packet size of each of the two bulk endpoints.
pub const MAX_PACKET_SIZE: u16 = 64;

/// Jack type byte of an embedded jack.
pub const JACK_EMBEDDED: u8 = 0x01;

/// Jack id of the embedded MIDI-IN jack.
pub const JACK_IN_ID: u8 = 1;

/// Jack id of the embedded MIDI-OUT jack.
pub const JACK_OUT_ID: u8 = 2;

/// Errors of the MIDI class and of a write to its bulk endpoint.
#[derive(Clone, Copy, Debug, PartialEq, Eq, Structural)]
pub enum MidiError {
    /// The bus allocator had no interface or endpoint left.
    ResourceExhausted,
    /// The endpoint's buffer is still held by the host.
    WouldBlock,
    /// The write did not fit the endpoint's buffer.
    BufferOverflow,
    /// Any other transport error.
    Transport,
}

/// Direction of a bulk endpoint, seen from the host.
#[derive(Clone, Copy, Debug, PartialEq, Eq, Structural)]
pub enum EndpointDir {
    Out,
    In,
}

/// One step of the configuration descriptor set, in the order the writer takes them.
/// Standard interface and endpoint descriptors are framed by the USB stack; the
/// class-specific ones carry their body bytes here.
#[derive(Clone, Debug)]
pub enum DescriptorChunk {
    Interface { number: u8, class: u8, subclass: u8, protocol: u8 },
    ClassSpecific { descriptor_type: u8, body: Vec<u8> },
    Endpoint { dir: EndpointDir, address: u8 },
}

/// What a descriptor chunk stands for, with its body as a sequence.
pub enum ChunkModel {
    Interface { number: u8, class: u8, subclass: u8, protocol: u8 },
    ClassSpecific { descriptor_type: u8, body: Seq<u8> },
    Endpoint { dir: EndpointDir, address: u8 },
}

impl View for DescriptorChunk {
    type V = ChunkModel;

    open spec fn view(&self) -> ChunkModel {
        match self {
            DescriptorChunk::Interface { number, class, subclass, protocol } => ChunkModel::Interface {
                number: *number,
                class: *class,
                subclass: *subclass,
                protocol: *protocol,
            },
            DescriptorChunk::ClassSpecific { descriptor_type, body } => ChunkModel::ClassSpecific {
                descriptor_type: *descriptor_type,
                body: body@,
            },
            DescriptorChunk::Endpoint { dir, address } => ChunkModel::Endpoint {
                dir: *dir,
                address: *address,
            },
        }
    }
}

/// The models of a list of chunks, in order.
pub open spec fn chunks_view(v: Seq<DescriptorChunk>) -> Seq<ChunkModel> {
    v.map_values(|c: DescriptorChunk| c@)
}

/// A USB MIDI function: an Audio-Control interface, a MIDI-Streaming interface and
/// one bulk endpoint in each direction, as the bus allocator assigned them.
#[derive(Clone, Copy, Debug, PartialEq, Eq, Structural)]
pub struct MidiClass {
    pub audio_if: u8,
    pub midi_if: u8,
    pub out_ep: u8,
    pub in_ep: u8,
}

/// The configuration descriptor set of a MIDI class, in its mandated order.
pub open spec fn configuration_model(c: MidiClass) -> Seq<ChunkModel> {
    seq![
        ChunkModel::Interface {
            number: c.audio_if,
            class: USB_CLASS_AUDIO,
            subclass: SUBCLASS_AUDIO_CONTROL,
            protocol: 0x00,
        },
        ChunkModel::ClassSpecific {
            descriptor_type: CS_INTERFACE,
            body: seq![0x01u8, 0x00, 0x01, 0x09, 0x00, 0x01, 0x01],
        },
        ChunkModel::Interface {
            number: c.midi_if,
            class: USB_CLASS_AUDIO,
            subclass: SUBCLASS_MIDI_STREAMING,
            protocol: 0x00,
        },
        ChunkModel::ClassSpecific {
            descriptor_type: CS_INTERFACE,
            body: seq![0x01u8, 0x00, 0x01, 0x2e, 0x00],
        },
        ChunkModel::ClassSpecific {
            descriptor_type: CS_INTERFACE,
            body: seq![0x02u8, JACK_EMBEDDED, JACK_IN_ID, 0x00],
        },
        ChunkModel::ClassSpecific {
            descriptor_type: CS_INTERFACE,
            body: seq![0x03u8, JACK_EMBEDDED, JACK_OUT_ID, 0x00, 0x00],
        },
        ChunkModel::Endpoint { dir: EndpointDir::Out, address: c.out_ep },
        ChunkModel::ClassSpecific {
            descriptor_type: CS_ENDPOINT,
            body: seq![0x01u8, 0x01, JACK_IN_ID],
        },
        ChunkModel::Endpoint { dir: EndpointDir::In, address: c.in_ep },
        ChunkModel::ClassSpecific {
            descriptor_type: CS_ENDPOINT,
            body: seq![0x01u8, 0x01, JACK_OUT_ID],
        },
    ]
}

/// A class-specific chunk with the given body.
fn class_specific(descriptor_type: u8, body: Vec<u8>) -> (r: DescriptorChunk)
    ensures
        r@ == (ChunkModel::ClassSpecific { descriptor_type, body: body@ }),
{
    DescriptorChunk::ClassSpecific { descriptor_type, body }
}

impl MidiClass {
    /// A class over the interface numbers and endpoint addresses it was given.
    pub fn new(audio_if: u8, midi_if: u8, out_ep: u8, in_ep: u8) -> (r: MidiClass)
        ensures
            r.audio_if == audio_if,
            r.midi_if == midi_if,
            r.out_ep == out_ep,
            r.in_ep == in_ep,
    {
        MidiClass { audio_if, midi_if, out_ep, in_ep }
    }

    /// The note-off event packet for the IN endpoint.
    pub fn note_off(&self, chan: u8, key: u8, vel: u8) -> (r: [u8; 4])
        ensures
            r@ == note_off_packet(chan, key, vel),
    {
        encode_event(CIN_NOTE_OFF, STATUS_NOTE_OFF, chan, key, vel)
    }

    /// The note-on event packet for the IN endpoint.
    pub fn note_on(&self, chan: u8, key: u8, vel: u8) -> (r: [u8; 4])
        ensures
            r@ == note_on_packet(chan, key, vel),
    {
        encode_event(CIN_NOTE_ON, STATUS_NOTE_ON, chan, key, vel)
    }

    /// The control-change event packet for the IN endpoint.
    pub fn ctrl(&self, chan: u8, ctrl_nr: u8, ctrl_data: u8) -> (r: [u8; 4])
        ensures
            r@ == control_change_packet(chan, ctrl_nr, ctrl_data),
    {
        encode_event(CIN_CONTROL_CHANGE, STATUS_CONTROL_CHANGE, chan, ctrl_nr, ctrl_data)
    }

    /// The configuration descriptor set, chunk by chunk, in the order it is written.
    pub fn get_configuration_descriptors(&self) -> (r: Vec<DescriptorChunk>)
        ensures
            chunks_view(r@) == configuration_model(*self),
    {
        let mut v: Vec<DescriptorChunk> = Vec::new();
        v.push(
            DescriptorChunk::Interface {
                number: self.audio_if,
                class: USB_CLASS_AUDIO,
                subclass: SUBCLASS_AUDIO_CONTROL,
                protocol: 0x00,
            },
        );
        v.push(class_specific(CS_INTERFACE, vec![0x01u8, 0x00, 0x01, 0x09, 0x00, 0x01, 0x01]));
        v.push(
            DescriptorChunk::Interface {
                number: self.midi_if,
                class: USB_CLASS_AUDIO,
                subclass: SUBCLASS_MIDI_STREAMING,
                protocol: 0x00,
            },
        );
        v.push(class_specific(CS_INTERFACE, vec![0x01u8, 0x00, 0x01, 0x2e, 0x00]));
        v.push(class_specific(CS_INTERFACE, vec![0x02u8, JACK_EMBEDDED, JACK_IN_ID, 0x00]));
        v.push(class_specific(CS_INTERFACE, vec![0x03u8, JACK_EMBEDDED, JACK_OUT_ID, 0x00, 0x00]));
        v.push(DescriptorChunk::Endpoint { dir: EndpointDir::Out, address: self.out_ep });
        v.push(class_specific(CS_ENDPOINT, vec![0x01u8, 0x01, JACK_IN_ID]));
        v.push(DescriptorChunk::Endpoint { dir: EndpointDir::In, address: self.in_ep });
        v.push(class_specific(CS_ENDPOINT, vec![0x01u8, 0x01, JACK_OUT_ID]));
        assert(chunks_view(v@) =~= configuration_model(*self));
        v
    }
}

} // verus!
