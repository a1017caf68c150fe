use omnikey_rs::reader_data::ReaderData;

fn frame_with_length(length: u32) -> [u8; 17] {
    let mut frame = [0u8; 17];
    frame[1..5].copy_from_slice(&length.to_le_bytes());
    frame
}

#[test]
fn card_frame_yields_identifier_and_status() {
    let frame: [u8; 17] = [
        0x80, 0x07, 0, 0, 0, 0, 0, 0, 0, 0, 0x01, 0x02, 0x03, 0x04, 0x05, 0x90, 0x00,
    ];
    let data = ReaderData::new(&frame);
    assert_eq!(data.message_type, 0x80);
    assert_eq!(data.length, 7);
    assert!(data.valid);
    assert_eq!(data.id, 0x0102030405);
    assert_eq!(data.adpu_status, 0x9000);
}

#[test]
fn header_fields_are_copied() {
    let frame: [u8; 17] = [
        0x80, 0x07, 0, 0, 0, 0x11, 0x22, 0x33, 0x44, 0x55, 0, 0, 0, 0, 0, 0, 0,
    ];
    let data = ReaderData::new(&frame);
    assert_eq!(data.message_type, 0x80);
    assert_eq!(data.slot, 0x11);
    assert_eq!(data.seq, 0x22);
    assert_eq!(data.status, 0x33);
    assert_eq!(data.error, 0x44);
    assert_eq!(data.chain_parameter, 0x55);
}

#[test]
fn length_is_little_endian() {
    let mut frame = [0u8; 17];
    frame[1] = 0x78;
    frame[2] = 0x56;
    frame[3] = 0x34;
    frame[4] = 0x12;
    let data = ReaderData::new(&frame);
    assert_eq!(data.length, 0x12345678);
    assert!(!data.valid);
    assert_eq!(data.id, 0);
    assert_eq!(data.adpu_status, 0);
}

#[test]
fn identifier_takes_offset_ten_as_most_significant() {
    let mut frame = frame_with_length(7);
    frame[10] = 0xAB;
    let data = ReaderData::new(&frame);
    assert_eq!(data.id, 0xAB_0000_0000);
    let mut frame = frame_with_length(7);
    frame[14] = 0xCD;
    let data = ReaderData::new(&frame);
    assert_eq!(data.id, 0xCD);
}

#[test]
fn identifier_fills_forty_bits() {
    let mut frame = frame_with_length(7);
    for i in 10..15 {
        frame[i] = 0xFF;
    }
    frame[15] = 0xFF;
    frame[16] = 0xFF;
    let data = ReaderData::new(&frame);
    assert!(data.valid);
    assert_eq!(data.id, 0xFF_FFFF_FFFF);
    assert_eq!(data.adpu_status, 0xFFFF);
}

#[test]
fn length_two_takes_status_from_the_first_two_bytes() {
    let mut frame = frame_with_length(2);
    frame[0] = 0x63;
    let data = ReaderData::new(&frame);
    assert_eq!(data.length, 2);
    assert!(!data.valid);
    assert_eq!(data.id, 0);
    assert_eq!(data.adpu_status, 0x6302);
}

#[test]
fn status_stands_at_the_end_of_the_declared_length() {
    for length in (2u32..=17).filter(|n| *n != 7) {
        let mut frame = frame_with_length(length);
        let high = length as usize - 2;
        let low = length as usize - 1;
        if high >= 5 {
            frame[high] = 0x6A;
        }
        if low >= 5 {
            frame[low] = 0x82;
        }
        let expected = u16::from(frame[high]) << 8 | u16::from(frame[low]);
        for i in 10..15 {
            if i != high && i != low {
                frame[i] = 0x77;
            }
        }
        let data = ReaderData::new(&frame);
        assert_eq!(data.length, length);
        assert!(!data.valid, "length {}", length);
        assert_eq!(data.id, 0, "length {}", length);
        assert_eq!(data.adpu_status, expected, "length {}", length);
    }
}

#[test]
fn length_eight_reads_offsets_six_and_seven() {
    let mut frame = frame_with_length(8);
    frame[6] = 0x69;
    frame[7] = 0x85;
    frame[15] = 0x90;
    let data = ReaderData::new(&frame);
    assert!(!data.valid);
    assert_eq!(data.adpu_status, 0x6985);
}

#[test]
fn length_seventeen_reads_the_last_two_bytes() {
    let mut frame = frame_with_length(17);
    frame[15] = 0x90;
    frame[16] = 0x01;
    let data = ReaderData::new(&frame);
    assert!(!data.valid);
    assert_eq!(data.id, 0);
    assert_eq!(data.adpu_status, 0x9001);
}

#[test]
fn status_is_high_byte_then_low_byte() {
    let mut frame = frame_with_length(12);
    frame[10] = 0x01;
    frame[11] = 0x09;
    let data = ReaderData::new(&frame);
    assert_eq!(data.adpu_status, 0x0109);
}

#[test]
fn length_below_two_yields_nothing() {
    for length in 0u32..2 {
        let mut frame = [0xEEu8; 17];
        frame[1..5].copy_from_slice(&length.to_le_bytes());
        let data = ReaderData::new(&frame);
        assert_eq!(data.length, length);
        assert!(!data.valid);
        assert_eq!(data.id, 0);
        assert_eq!(data.adpu_status, 0);
        assert_eq!(data.message_type, 0xEE);
    }
}

#[test]
fn length_beyond_the_frame_yields_nothing() {
    for length in [18u32, 19, 255, 256, 0x0100_0007, u32::MAX] {
        let mut frame = [0xEEu8; 17];
        frame[1..5].copy_from_slice(&length.to_le_bytes());
        let data = ReaderData::new(&frame);
        assert_eq!(data.length, length);
        assert!(!data.valid);
        assert_eq!(data.id, 0);
        assert_eq!(data.adpu_status, 0);
    }
}

#[test]
fn decoding_is_repeatable() {
    let frame: [u8; 17] = [
        0x80, 0x07, 0, 0, 0, 1, 2, 3, 4, 5, 0xDE, 0xAD, 0xBE, 0xEF, 0x42, 0x90, 0x00,
    ];
    let first = ReaderData::new(&frame);
    let second = ReaderData::new(&frame);
    assert_eq!(first, second);
    assert_eq!(first.id, 0xDEADBEEF42);
}

#[test]
fn all_zero_frame_is_invalid() {
    let data = ReaderData::new(&[0u8; 17]);
    assert_eq!(
        data,
        ReaderData {
            message_type: 0,
            length: 0,
            slot: 0,
            seq: 0,
            status: 0,
            error: 0,
            chain_parameter: 0,
            valid: false,
            id: 0,
            adpu_status: 0,
        }
    );
}

#[test]
fn frame_that_starts_with_63_00_declares_no_length() {
    let mut frame = [0u8; 17];
    frame[0] = 0x63;
    frame[1] = 0x00;
    let data = ReaderData::new(&frame);
    assert_eq!(data.message_type, 0x63);
    assert_eq!(data.length, 0);
    assert!(!data.valid);
    assert_eq!(data.id, 0);
    assert_eq!(data.adpu_status, 0);
}
