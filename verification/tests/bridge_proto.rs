use rp2040_fred::bridge_proto::{
    crc32_ieee, DecodeError, MsgType, Packet, PACKET_MAGIC, PACKET_SIZE, PAYLOAD_SIZE,
    PROTOCOL_VERSION,
};

#[test]
fn crc32_golden_vector() {
    assert_eq!(crc32_ieee(b"123456789"), 0xCBF4_3926);
}

#[test]
fn ping_roundtrip() {
    let pkt = Packet::ping(0x1234);
    let raw = pkt.encode();
    let got = Packet::decode(&raw).expect("decode");
    assert_eq!(got.msg_type, MsgType::Ping);
    assert_eq!(got.seq, 0x1234);
    assert_eq!(got.payload_len, 0);
}

#[test]
fn telemetry_roundtrip() {
    let pkt = Packet::telemetry(5, 0x1122_3344, -12345, 54321, 1800, 0x03);
    let raw = pkt.encode();
    let got = Packet::decode(&raw).expect("decode");
    assert_eq!(got.msg_type, MsgType::Telemetry);
    assert_eq!(got.seq, 5);
    assert_eq!(got.payload_len, 16);

    let p = got.payload_used();
    assert_eq!(u32::from_le_bytes([p[0], p[1], p[2], p[3]]), 0x1122_3344);
    assert_eq!(i32::from_le_bytes([p[4], p[5], p[6], p[7]]), -12345);
    assert_eq!(i32::from_le_bytes([p[8], p[9], p[10], p[11]]), 54321);
    assert_eq!(u16::from_le_bytes([p[12], p[13]]), 1800);
    assert_eq!(p[14], 0x03);
}

#[test]
fn capture_and_trace_roundtrip() {
    let capture = Packet::capture_set(0x22, true);
    let capture_raw = capture.encode();
    let capture_got = Packet::decode(&capture_raw).expect("decode capture");
    assert_eq!(capture_got.msg_type, MsgType::CaptureSet);
    assert_eq!(capture_got.seq, 0x22);
    assert_eq!(capture_got.payload_used(), &[1]);

    let trace = Packet::trace_sample(0x33, 0x0102_0304, 0xA5A5_5A5A);
    let trace_raw = trace.encode();
    let trace_got = Packet::decode(&trace_raw).expect("decode trace");
    assert_eq!(trace_got.msg_type, MsgType::TraceSample);
    assert_eq!(trace_got.seq, 0x33);
    assert_eq!(trace_got.payload_len, 8);
    let p = trace_got.payload_used();
    assert_eq!(u32::from_le_bytes([p[0], p[1], p[2], p[3]]), 0x0102_0304);
    assert_eq!(u32::from_le_bytes([p[4], p[5], p[6], p[7]]), 0xA5A5_5A5A);
}

#[test]
fn decode_rejects_bad_crc() {
    let pkt = Packet::ack(7, MsgType::Ping, 0);
    let mut raw = pkt.encode();
    raw[10] ^= 0x55;
    assert_eq!(Packet::decode(&raw), Err(DecodeError::BadCrc));
}

#[test]
fn decode_rejects_bad_header() {
    let mut raw = [0u8; PACKET_SIZE];
    raw[0] = PACKET_MAGIC;
    raw[1] = PROTOCOL_VERSION;
    raw[2] = 0x01;
    raw[3] = 0;
    let crc = crc32_ieee(&raw[..28]);
    raw[28..32].copy_from_slice(&crc.to_le_bytes());

    raw[0] = 0x00;
    assert_eq!(Packet::decode(&raw), Err(DecodeError::BadMagic));
}

fn valid_frame(msg_type: u8, payload_len: u8) -> [u8; PACKET_SIZE] {
    let mut raw = [0u8; PACKET_SIZE];
    raw[0] = PACKET_MAGIC;
    raw[1] = PROTOCOL_VERSION;
    raw[2] = msg_type;
    raw[3] = payload_len;
    let crc = crc32_ieee(&raw[..28]);
    raw[28..32].copy_from_slice(&crc.to_le_bytes());
    raw
}

#[test]
fn crc32_of_short_inputs() {
    assert_eq!(crc32_ieee(b""), 0x0000_0000);
    assert_eq!(crc32_ieee(&[0x00]), 0xD202_EF8D);
    assert_eq!(crc32_ieee(b"a"), 0xE8B7_BE43);
}

#[test]
fn msg_type_codes_are_stable() {
    let table: [(MsgType, u8); 10] = [
        (MsgType::Ping, 0x01),
        (MsgType::TelemetrySet, 0x10),
        (MsgType::UnitCfg, 0x11),
        (MsgType::SnapshotReq, 0x12),
        (MsgType::CaptureSet, 0x13),
        (MsgType::Ack, 0x80),
        (MsgType::Nack, 0x81),
        (MsgType::Telemetry, 0x90),
        (MsgType::Health, 0x91),
        (MsgType::TraceSample, 0x92),
    ];
    for (t, code) in table {
        assert_eq!(t.to_u8(), code);
        assert_eq!(MsgType::from_u8(code), Some(t));
    }
    let mut known = 0usize;
    for v in 0..=255u8 {
        if let Some(t) = MsgType::from_u8(v) {
            assert_eq!(t.to_u8(), v);
            known += 1;
        }
    }
    assert_eq!(known, 10);
    assert_eq!(MsgType::from_u8(0x00), None);
    assert_eq!(MsgType::from_u8(0x14), None);
    assert_eq!(MsgType::from_u8(0xFF), None);
}

#[test]
fn ping_frame_has_the_documented_layout() {
    let raw = Packet::ping(0x1234).encode();
    let expected: [u8; 32] = [
        165, 1, 1, 0, 52, 18, 0, 0, 0, 0, 0, 0, 0, 0, 0, 0, 0, 0, 0, 0, 0, 0, 0, 0, 0, 0, 0, 0,
        203, 164, 157, 230,
    ];
    assert_eq!(raw, expected);
}

#[test]
fn ack_frame_has_the_documented_layout() {
    let raw = Packet::ack(7, MsgType::Ping, 0).encode();
    let expected: [u8; 32] = [
        165, 1, 128, 2, 7, 0, 0, 0, 1, 0, 0, 0, 0, 0, 0, 0, 0, 0, 0, 0, 0, 0, 0, 0, 0, 0, 0, 0,
        138, 170, 3, 147,
    ];
    assert_eq!(raw, expected);
}

#[test]
fn telemetry_frame_has_the_documented_layout() {
    let raw = Packet::telemetry(5, 0x1122_3344, -12345, 54321, 1800, 0x03).encode();
    let expected: [u8; 32] = [
        165, 1, 144, 16, 5, 0, 0, 0, 68, 51, 34, 17, 199, 207, 255, 255, 49, 212, 0, 0, 8, 7, 3,
        0, 0, 0, 0, 0, 237, 127, 168, 149,
    ];
    assert_eq!(raw, expected);
}

#[test]
fn factories_fill_the_payload_as_documented() {
    let p = Packet::ping(9);
    assert_eq!((p.msg_type, p.seq, p.payload_len), (MsgType::Ping, 9, 0));
    assert_eq!(p.payload, [0u8; PAYLOAD_SIZE]);

    let p = Packet::telemetry_set(1, true, 0x1234);
    assert_eq!((p.msg_type, p.seq, p.payload_len), (MsgType::TelemetrySet, 1, 3));
    assert_eq!(p.payload_used(), &[1, 0x34, 0x12]);
    let p = Packet::telemetry_set(1, false, 25);
    assert_eq!(p.payload_used(), &[0, 25, 0]);

    let p = Packet::capture_set(2, false);
    assert_eq!((p.msg_type, p.seq, p.payload_len), (MsgType::CaptureSet, 2, 1));
    assert_eq!(p.payload_used(), &[0]);

    let p = Packet::ack(3, MsgType::SnapshotReq, 4);
    assert_eq!((p.msg_type, p.seq, p.payload_len), (MsgType::Ack, 3, 2));
    assert_eq!(p.payload_used(), &[0x12, 4]);

    let p = Packet::nack(4, 0xFF, 0x02);
    assert_eq!((p.msg_type, p.seq, p.payload_len), (MsgType::Nack, 4, 2));
    assert_eq!(p.payload_used(), &[0xFF, 0x02]);

    let p = Packet::telemetry(5, 1, -1, i32::MIN, 0xABCD, 0x80);
    assert_eq!((p.msg_type, p.seq, p.payload_len), (MsgType::Telemetry, 5, 16));
    assert_eq!(
        p.payload_used(),
        &[1, 0, 0, 0, 0xFF, 0xFF, 0xFF, 0xFF, 0, 0, 0, 0x80, 0xCD, 0xAB, 0x80, 0]
    );

    let p = Packet::health(6, 1, 0x0102_0304, u32::MAX);
    assert_eq!((p.msg_type, p.seq, p.payload_len), (MsgType::Health, 6, 12));
    assert_eq!(p.payload_used(), &[1, 0, 0, 0, 4, 3, 2, 1, 0xFF, 0xFF, 0xFF, 0xFF]);

    let p = Packet::trace_sample(7, 0x0A0B_0C0D, 0x0010_F0A5);
    assert_eq!((p.msg_type, p.seq, p.payload_len), (MsgType::TraceSample, 7, 8));
    assert_eq!(p.payload_used(), &[0x0D, 0x0C, 0x0B, 0x0A, 0xA5, 0xF0, 0x10, 0x00]);
    for b in &p.payload[8..] {
        assert_eq!(*b, 0);
    }
}

#[test]
fn new_accepts_up_to_twenty_bytes_and_zero_fills() {
    let full: Vec<u8> = (1..=20).collect();
    let p = Packet::new(MsgType::UnitCfg, 0xFFFF, &full).expect("twenty bytes fit");
    assert_eq!(p.payload_len, 20);
    assert_eq!(&p.payload[..], &full[..]);

    let p = Packet::new(MsgType::UnitCfg, 0, &[7, 8]).expect("two bytes fit");
    assert_eq!(p.payload_len, 2);
    assert_eq!(&p.payload[..2], &[7, 8]);
    assert!(p.payload[2..].iter().all(|b| *b == 0));

    let p = Packet::new(MsgType::SnapshotReq, 7, &[]).expect("empty payload fits");
    assert_eq!(p.payload_len, 0);
    assert_eq!(p.payload, [0u8; PAYLOAD_SIZE]);
}

#[test]
fn new_refuses_more_than_twenty_bytes() {
    let too_long = [0u8; 21];
    assert_eq!(Packet::new(MsgType::Ping, 1, &too_long), None);
    let far_too_long = vec![1u8; 300];
    assert_eq!(Packet::new(MsgType::Telemetry, 1, &far_too_long), None);
}

#[test]
fn every_packet_survives_the_wire() {
    let mut packets = vec![
        Packet::ping(0),
        Packet::ping(0xFFFF),
        Packet::telemetry_set(1, true, 25),
        Packet::telemetry_set(2, false, 0xFFFF),
        Packet::capture_set(3, true),
        Packet::ack(4, MsgType::TraceSample, 0xFF),
        Packet::nack(5, 0x00, 0xFE),
        Packet::telemetry(6, u32::MAX, i32::MIN, i32::MAX, u16::MAX, 0xFF),
        Packet::health(7, 0, 1, 2),
        Packet::trace_sample(8, 0xDEAD_BEEF, 0x001F_FFFF),
    ];
    let full: Vec<u8> = (100..120).collect();
    packets.push(Packet::new(MsgType::UnitCfg, 9, &full).expect("fits"));
    // A length in use of zero with bytes behind it: the whole area travels.
    let mut odd = Packet::ping(10);
    odd.payload[19] = 0xEE;
    odd.payload[0] = 0x11;
    packets.push(odd);
    for pkt in packets {
        assert_eq!(Packet::decode(&pkt.encode()), Ok(pkt));
    }
}

#[test]
fn single_bit_flips_never_decode() {
    let packets = [
        Packet::ping(42),
        Packet::telemetry(6, 0x0102_0304, -100, 200, 2000, 1),
        Packet::nack(0, 0xFF, 0x02),
    ];
    for pkt in packets {
        let good = pkt.encode();
        for at in 0..28usize {
            for bit in 0..8u8 {
                let mut raw = good;
                raw[at] ^= 1 << bit;
                let got = Packet::decode(&raw);
                assert!(got.is_err(), "flip of bit {} in byte {} went unnoticed", bit, at);
                if at >= 4 {
                    assert_eq!(got, Err(DecodeError::BadCrc));
                }
            }
        }
    }
}

#[test]
fn flips_in_the_header_fail_the_first_check_they_break() {
    let good = Packet::ping(42).encode();

    let mut raw = good;
    raw[0] ^= 0x01;
    assert_eq!(Packet::decode(&raw), Err(DecodeError::BadMagic));

    let mut raw = good;
    raw[1] ^= 0x80;
    assert_eq!(Packet::decode(&raw), Err(DecodeError::BadVersion));

    // Payload length 0 becomes 32: beyond the payload area.
    let mut raw = good;
    raw[3] ^= 0x20;
    assert_eq!(Packet::decode(&raw), Err(DecodeError::PayloadLen));

    // Payload length 0 becomes 16: the header still passes.
    let mut raw = good;
    raw[3] ^= 0x10;
    assert_eq!(Packet::decode(&raw), Err(DecodeError::BadCrc));

    // Type 0x01 becomes 0x03, which no message has.
    let mut raw = good;
    raw[2] ^= 0x02;
    assert_eq!(Packet::decode(&raw), Err(DecodeError::UnknownMsgType));

    // Type 0x01 becomes 0x11, which is a message type.
    let mut raw = good;
    raw[2] ^= 0x10;
    assert_eq!(Packet::decode(&raw), Err(DecodeError::BadCrc));
}

#[test]
fn damage_to_the_crc_field_is_bad_crc() {
    let good = Packet::capture_set(1, true).encode();
    for at in 28..32usize {
        let mut raw = good;
        raw[at] ^= 0x01;
        assert_eq!(Packet::decode(&raw), Err(DecodeError::BadCrc));
    }
}

#[test]
fn each_decode_error_has_an_input() {
    let mut raw = valid_frame(0x01, 0);
    raw[0] = 0x5A;
    assert_eq!(Packet::decode(&raw), Err(DecodeError::BadMagic));

    let mut raw = valid_frame(0x01, 0);
    raw[1] = 2;
    assert_eq!(Packet::decode(&raw), Err(DecodeError::BadVersion));

    assert_eq!(Packet::decode(&valid_frame(0x01, 21)), Err(DecodeError::PayloadLen));
    assert_eq!(Packet::decode(&valid_frame(0x77, 0)), Err(DecodeError::UnknownMsgType));

    let mut raw = valid_frame(0x01, 0);
    raw[31] ^= 0xFF;
    assert_eq!(Packet::decode(&raw), Err(DecodeError::BadCrc));
}

#[test]
fn header_checks_run_in_order() {
    // Everything is wrong: the magic is reported.
    let mut raw = [0xFFu8; PACKET_SIZE];
    assert_eq!(Packet::decode(&raw), Err(DecodeError::BadMagic));
    raw[0] = PACKET_MAGIC;
    assert_eq!(Packet::decode(&raw), Err(DecodeError::BadVersion));
    raw[1] = PROTOCOL_VERSION;
    assert_eq!(Packet::decode(&raw), Err(DecodeError::PayloadLen));
    raw[3] = 20;
    assert_eq!(Packet::decode(&raw), Err(DecodeError::UnknownMsgType));
    raw[2] = 0x92;
    assert_eq!(Packet::decode(&raw), Err(DecodeError::BadCrc));
    let crc = crc32_ieee(&raw[..28]);
    raw[28..32].copy_from_slice(&crc.to_le_bytes());
    let pkt = Packet::decode(&raw).expect("now valid");
    assert_eq!(pkt.msg_type, MsgType::TraceSample);
    assert_eq!(pkt.seq, 0xFFFF);
    assert_eq!(pkt.payload_len, 20);
    assert_eq!(pkt.payload, [0xFFu8; PAYLOAD_SIZE]);
}

#[test]
fn reserved_bytes_are_covered_by_the_crc_only() {
    let mut raw = valid_frame(0x01, 0);
    raw[6] = 0xAB;
    raw[7] = 0xCD;
    assert_eq!(Packet::decode(&raw), Err(DecodeError::BadCrc));
    let crc = crc32_ieee(&raw[..28]);
    raw[28..32].copy_from_slice(&crc.to_le_bytes());
    assert_eq!(Packet::decode(&raw), Ok(Packet::ping(0)));
}

#[test]
fn payload_length_twenty_is_accepted() {
    let pkt = Packet::decode(&valid_frame(0x11, 20)).expect("twenty is allowed");
    assert_eq!(pkt.payload_len, 20);
    assert_eq!(pkt.payload_used().len(), 20);
}
