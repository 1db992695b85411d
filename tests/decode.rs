use tiny_artnet::{from_slice, parse_port_address, Art, Error, PortAddress};

fn envelope(op_code: u16, version: u16) -> Vec<u8> {
    let mut v = b"Art-Net\0".to_vec();
    v.extend_from_slice(&op_code.to_le_bytes());
    v.extend_from_slice(&version.to_be_bytes());
    v
}

#[test]
fn short_or_untagged_input_fails_to_parse() {
    for len in 0..8 {
        let s = &b"Art-Net\0"[..len];
        assert_eq!(from_slice(s).unwrap_err(), Error::ParserError);
    }
    let mut wrong = envelope(0x2000, 14);
    wrong[0] = b'a';
    wrong.extend_from_slice(&[1, 2]);
    assert_eq!(from_slice(&wrong).unwrap_err(), Error::ParserError);
    let mut no_nul = envelope(0x2000, 14);
    no_nul[7] = b' ';
    no_nul.extend_from_slice(&[1, 2]);
    assert_eq!(from_slice(&no_nul).unwrap_err(), Error::ParserError);
}

#[test]
fn truncated_envelope_fails_to_parse() {
    let v = envelope(0x2000, 14);
    assert_eq!(from_slice(&v[..11]).unwrap_err(), Error::ParserError);
}

#[test]
fn newer_protocol_versions_are_refused() {
    for version in [15u16, 16, 0x0100, 0xFFFF] {
        let mut v = envelope(0x2000, version);
        v.extend_from_slice(&[1, 2]);
        assert_eq!(
            from_slice(&v).unwrap_err(),
            Error::UnsupportedProtocolVersion(version)
        );
    }
}

#[test]
fn unknown_opcodes_are_refused() {
    for op_code in [0x2100u16, 0x0000, 0x2001, 0xFFFF] {
        let mut v = envelope(op_code, 14);
        v.extend_from_slice(&[0; 8]);
        assert_eq!(from_slice(&v).unwrap_err(), Error::UnsupportedOpCode(op_code));
    }
}

#[test]
fn version_is_checked_before_opcode() {
    let v = envelope(0x1234, 15);
    assert_eq!(from_slice(&v).unwrap_err(), Error::UnsupportedProtocolVersion(15));
}

#[test]
fn poll_without_range_targets_every_address() {
    let mut v = b"Art-Net\0".to_vec();
    v.extend_from_slice(&[0x00, 0x20, 0x00, 0x0E, 0x01, 0x02]);
    match from_slice(&v).unwrap() {
        Art::Poll(p) => {
            assert_eq!(p.flags, 1);
            assert_eq!(p.min_diagnostic_priority, 2);
            assert_eq!(p.target_port_addresses, 0..=65535);
        }
        other => panic!("expected a poll, got {:?}", other),
    }
}

#[test]
fn poll_with_range() {
    let mut v = envelope(0x2000, 14);
    v.extend_from_slice(&[0x06, 0x10, 0x00, 0x05, 0x01, 0x02]);
    match from_slice(&v).unwrap() {
        Art::Poll(p) => {
            assert_eq!(p.flags, 6);
            assert_eq!(p.min_diagnostic_priority, 0x10);
            assert_eq!(p.target_port_addresses, 5..=0x0102);
        }
        other => panic!("expected a poll, got {:?}", other),
    }
}

#[test]
fn poll_with_partial_range_takes_the_default() {
    let mut v = envelope(0x2000, 14);
    v.extend_from_slice(&[0x01, 0x02, 0x00, 0x05]);
    match from_slice(&v).unwrap() {
        Art::Poll(p) => assert_eq!(p.target_port_addresses, 0..=65535),
        other => panic!("expected a poll, got {:?}", other),
    }
}

#[test]
fn poll_too_short_fails_to_parse() {
    let mut v = envelope(0x2000, 14);
    v.push(1);
    assert_eq!(from_slice(&v).unwrap_err(), Error::ParserError);
}

#[test]
fn dmx_frame_decodes() {
    let mut v = envelope(0x5000, 14);
    v.extend_from_slice(&[5, 0, 0x00, 0x00, 0x00, 0x02, 0xFF, 0x00]);
    match from_slice(&v).unwrap() {
        Art::Dmx(d) => {
            assert_eq!(d.sequence, 5);
            assert_eq!(d.physical, 0);
            assert_eq!(
                d.port_address,
                PortAddress { net: 0, sub_net: 0, universe: 0 }
            );
            assert_eq!(d.data, &[0xFF, 0x00]);
        }
        other => panic!("expected a dmx frame, got {:?}", other),
    }
}

#[test]
fn dmx_payload_stops_at_declared_length() {
    let mut v = envelope(0x5000, 14);
    v.extend_from_slice(&[1, 2, 0x34, 0x92, 0x00, 0x03, 10, 20, 30, 40, 50]);
    match from_slice(&v).unwrap() {
        Art::Dmx(d) => {
            assert_eq!(d.sequence, 1);
            assert_eq!(d.physical, 2);
            assert_eq!(
                d.port_address,
                PortAddress { net: 0x12, sub_net: 4, universe: 3 }
            );
            assert_eq!(d.data, &[10, 20, 30]);
        }
        other => panic!("expected a dmx frame, got {:?}", other),
    }
}

#[test]
fn dmx_length_beyond_buffer_fails_to_parse() {
    let mut v = envelope(0x5000, 14);
    v.extend_from_slice(&[5, 0, 0x00, 0x00, 0x00, 0x03, 0xFF, 0x00]);
    assert_eq!(from_slice(&v).unwrap_err(), Error::ParserError);
    let mut short = envelope(0x5000, 14);
    short.extend_from_slice(&[5, 0, 0x00, 0x00, 0x00]);
    assert_eq!(from_slice(&short).unwrap_err(), Error::ParserError);
}

#[test]
fn command_decodes() {
    let mut v = envelope(0x2400, 14);
    v.extend_from_slice(&[b'Z', b'q', 0x03, 0x00, b'a', b'b', b'c', b'd']);
    match from_slice(&v).unwrap() {
        Art::Command(c) => {
            assert_eq!(c.esta_manufacturer_code, ('Z', 'q'));
            assert_eq!(c.data, b"abc");
        }
        other => panic!("expected a command, got {:?}", other),
    }
}

#[test]
fn command_length_is_little_endian() {
    let mut v = envelope(0x2400, 14);
    v.extend_from_slice(&[0, 0, 0x00, 0x01]);
    v.extend_from_slice(&[7u8; 256]);
    match from_slice(&v).unwrap() {
        Art::Command(c) => assert_eq!(c.data.len(), 256),
        other => panic!("expected a command, got {:?}", other),
    }
}

#[test]
fn command_length_beyond_buffer_fails_to_parse() {
    let mut v = envelope(0x2400, 14);
    v.extend_from_slice(&[b'Z', b'q', 0x05, 0x00, b'a']);
    assert_eq!(from_slice(&v).unwrap_err(), Error::ParserError);
}

#[test]
fn sync_decodes_whatever_its_bytes() {
    let mut v = envelope(0x5200, 14);
    v.extend_from_slice(&[0xAB, 0xCD]);
    assert!(matches!(from_slice(&v).unwrap(), Art::Sync));
    let mut short = envelope(0x5200, 14);
    short.push(0);
    assert_eq!(from_slice(&short).unwrap_err(), Error::ParserError);
}

#[test]
fn port_address_bit_fields() {
    assert_eq!(
        parse_port_address(&[0x34, 0x12]).unwrap(),
        PortAddress { net: 18, sub_net: 4, universe: 3 }
    );
    assert_eq!(
        parse_port_address(&[0x00, 0x00]).unwrap(),
        PortAddress { net: 0, sub_net: 0, universe: 0 }
    );
    assert_eq!(
        parse_port_address(&[0xFF, 0xFF]).unwrap(),
        PortAddress { net: 127, sub_net: 15, universe: 15 }
    );
    assert_eq!(parse_port_address(&[0x34]).unwrap_err(), Error::ParserError);
}

#[test]
fn as_index_shifts_each_field() {
    let a = PortAddress { net: 5, sub_net: 3, universe: 9 };
    assert_eq!(a.as_index(), 9);
    let b = PortAddress { net: 255, sub_net: 200, universe: 2 };
    assert_eq!(b.as_index(), 3);
}
