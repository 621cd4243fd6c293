use usb_midi::class::{DescriptorChunk, EndpointDir, MidiClass};

fn body(c: &DescriptorChunk) -> (u8, Vec<u8>) {
    match c {
        DescriptorChunk::ClassSpecific { descriptor_type, body } => (*descriptor_type, body.clone()),
        other => panic!("expected a class-specific chunk, got {:?}", other),
    }
}

#[test]
fn descriptor_layout_in_order() {
    let class = MidiClass::new(2, 3, 0x04, 0x85);
    let d = class.get_configuration_descriptors();
    assert_eq!(d.len(), 10);
    assert!(matches!(
        d[0],
        DescriptorChunk::Interface { number: 2, class: 0x01, subclass: 0x01, protocol: 0x00 }
    ));
    assert_eq!(body(&d[1]), (0x24, vec![0x01, 0x00, 0x01, 0x09, 0x00, 0x01, 0x01]));
    assert!(matches!(
        d[2],
        DescriptorChunk::Interface { number: 3, class: 0x01, subclass: 0x03, protocol: 0x00 }
    ));
    assert_eq!(body(&d[3]), (0x24, vec![0x01, 0x00, 0x01, 0x2e, 0x00]));
    assert_eq!(body(&d[4]), (0x24, vec![0x02, 0x01, 0x01, 0x00]));
    assert_eq!(body(&d[5]), (0x24, vec![0x03, 0x01, 0x02, 0x00, 0x00]));
    assert!(matches!(d[6], DescriptorChunk::Endpoint { dir: EndpointDir::Out, address: 0x04 }));
    assert_eq!(body(&d[7]), (0x25, vec![0x01, 0x01, 0x01]));
    assert!(matches!(d[8], DescriptorChunk::Endpoint { dir: EndpointDir::In, address: 0x85 }));
    assert_eq!(body(&d[9]), (0x25, vec![0x01, 0x01, 0x02]));
}

#[test]
fn endpoint_associations_reference_jacks_one_then_two() {
    let class = MidiClass::new(0, 1, 0x01, 0x81);
    let d = class.get_configuration_descriptors();
    let out_pos = d
        .iter()
        .position(|c| matches!(c, DescriptorChunk::Endpoint { dir: EndpointDir::Out, address: 0x01 }))
        .unwrap();
    let in_pos = d
        .iter()
        .position(|c| matches!(c, DescriptorChunk::Endpoint { dir: EndpointDir::In, address: 0x81 }))
        .unwrap();
    assert!(out_pos < in_pos);
    assert_eq!(body(&d[out_pos + 1]), (0x25, vec![0x01, 0x01, 0x01]));
    assert_eq!(body(&d[in_pos + 1]), (0x25, vec![0x01, 0x01, 0x02]));
}

#[test]
fn descriptors_repeat_identically() {
    let class = MidiClass::new(0, 1, 0x01, 0x81);
    let a = format!("{:?}", class.get_configuration_descriptors());
    let b = format!("{:?}", class.get_configuration_descriptors());
    assert_eq!(a, b);
}

#[test]
fn out_jack_is_embedded_with_no_input_pins() {
    let d = MidiClass::new(0, 1, 0x01, 0x81).get_configuration_descriptors();
    assert_eq!(body(&d[4]), (0x24, vec![0x02, 0x01, 0x01, 0x00]));
    assert_eq!(body(&d[5]), (0x24, vec![0x03, 0x01, 0x02, 0x00, 0x00]));
}
