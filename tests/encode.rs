use tiny_artnet::{put_esta_manufacturer_code, put_padded_str, Error, PollReply};

#[test]
fn padded_string_widths() {
    let input = "abcdefghijklmnopqrstuvw";
    for len in [0usize, 17, 18, 23] {
        let text = &input[..len];
        let mut buf = [0xAAu8; 20];
        put_padded_str(&mut buf, 1, 18, text);
        assert_eq!(buf[0], 0xAA);
        assert_eq!(buf[19], 0xAA);
        let slot = &buf[1..19];
        assert_eq!(slot.len(), 18);
        let kept = len.min(17);
        assert_eq!(&slot[..kept], &text.as_bytes()[..kept]);
        assert!(slot[kept..].iter().all(|b| *b == 0));
        assert_eq!(slot[17], 0);
    }
}

#[test]
fn empty_text_gives_only_nuls() {
    let mut buf = [0xFFu8; 64];
    put_padded_str(&mut buf, 0, 64, "");
    assert_eq!(buf, [0u8; 64]);
}

#[test]
fn manufacturer_code_is_written_low_byte_first() {
    let mut buf = [0u8; 4];
    put_esta_manufacturer_code(&mut buf, 1, &('Z', 'q'));
    assert_eq!(buf, [0, b'Z', b'q', 0]);
}

#[test]
fn default_reply_is_zero_but_status() {
    let r = PollReply::default();
    assert_eq!(r.status1, 0b1100_0000);
    assert_eq!(r.port, 0);
    assert_eq!(r.ip_address, &[0; 4]);
    assert_eq!(r.short_name, "");
    let mut buf = [0x55u8; 300];
    assert_eq!(r.serialize(&mut buf), Ok(239));
    assert_eq!(&buf[..8], b"Art-Net\0");
    assert_eq!(&buf[8..10], &[0x00, 0x21]);
    assert_eq!(buf[23], 0xC0);
    assert!(buf[10..23].iter().all(|b| *b == 0));
    assert!(buf[24..239].iter().all(|b| *b == 0));
    assert!(buf[239..].iter().all(|b| *b == 0x55));
}

#[test]
fn reply_fields_sit_at_fixed_offsets() {
    let r = PollReply {
        ip_address: &[192, 168, 1, 20],
        port: 0x1936,
        firmware_version: 0x0102,
        net_switch: 3,
        sub_switch: 4,
        oem: 0xABCD,
        ubea_version: 7,
        status1: 0x11,
        esta_manufacturer_code: ('Z', 'q'),
        short_name: "a very long short name",
        long_name: "long",
        node_report: "#0001 [0000] ok",
        num_ports: 0x0203,
        port_types: &[0x80, 0x81, 0x82, 0x83],
        good_input: &[1, 2, 3, 4],
        good_output_a: &[5, 6, 7, 8],
        swin: &[9, 10, 11, 12],
        swout: &[13, 14, 15, 16],
        acn_priority: 100,
        sw_macro: 17,
        sw_remote: 18,
        style: 19,
        mac_address: &[0xDE, 0xAD, 0xBE, 0xEF, 0x00, 0x01],
        bind_ip_address: &[10, 0, 0, 1],
        bind_index: 20,
        status2: 21,
        good_output_b: &[22, 23, 24, 25],
        status3: 26,
        default_responder_uid: &[27, 28, 29, 30, 31, 32],
    };
    let mut buf = [0xEEu8; 512];
    assert_eq!(r.serialize(&mut buf), Ok(239));
    assert_eq!(&buf[0..8], b"Art-Net\0");
    assert_eq!(u16::from_le_bytes([buf[8], buf[9]]), 0x2100);
    assert_eq!(&buf[10..14], &[192, 168, 1, 20]);
    assert_eq!(u16::from_le_bytes([buf[14], buf[15]]), 0x1936);
    assert_eq!(u16::from_be_bytes([buf[16], buf[17]]), 0x0102);
    assert_eq!(buf[18], 3);
    assert_eq!(buf[19], 4);
    assert_eq!(u16::from_be_bytes([buf[20], buf[21]]), 0xABCD);
    assert_eq!(buf[22], 7);
    assert_eq!(buf[23], 0x11);
    assert_eq!(&buf[24..26], b"Zq");
    assert_eq!(&buf[26..43], b"a very long short");
    assert_eq!(buf[43], 0);
    assert_eq!(&buf[44..48], b"long");
    assert!(buf[48..108].iter().all(|b| *b == 0));
    assert_eq!(&buf[108..123], b"#0001 [0000] ok");
    assert!(buf[123..172].iter().all(|b| *b == 0));
    assert_eq!(u16::from_be_bytes([buf[172], buf[173]]), 0x0203);
    assert_eq!(&buf[174..178], &[0x80, 0x81, 0x82, 0x83]);
    assert_eq!(&buf[178..182], &[1, 2, 3, 4]);
    assert_eq!(&buf[182..186], &[5, 6, 7, 8]);
    assert_eq!(&buf[186..190], &[9, 10, 11, 12]);
    assert_eq!(&buf[190..194], &[13, 14, 15, 16]);
    assert_eq!(buf[194], 100);
    assert_eq!(buf[195], 17);
    assert_eq!(buf[196], 18);
    assert_eq!(&buf[197..200], &[0, 0, 0]);
    assert_eq!(buf[200], 19);
    assert_eq!(&buf[201..207], &[0xDE, 0xAD, 0xBE, 0xEF, 0x00, 0x01]);
    assert_eq!(&buf[207..211], &[10, 0, 0, 1]);
    assert_eq!(buf[211], 20);
    assert_eq!(buf[212], 21);
    assert_eq!(&buf[213..217], &[22, 23, 24, 25]);
    assert_eq!(buf[217], 26);
    assert_eq!(&buf[218..224], &[27, 28, 29, 30, 31, 32]);
    assert!(buf[224..239].iter().all(|b| *b == 0));
    assert!(buf[239..].iter().all(|b| *b == 0xEE));
}

#[test]
fn reply_into_small_buffer_is_refused() {
    let r = PollReply::default();
    let mut buf = [0x77u8; 238];
    assert_eq!(r.serialize(&mut buf), Err(Error::BufferTooSmall));
    assert!(buf.iter().all(|b| *b == 0x77));
    let mut exact = [0x77u8; 239];
    assert_eq!(r.serialize(&mut exact), Ok(239));
}
