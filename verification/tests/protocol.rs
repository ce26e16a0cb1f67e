use rp2040_fred::dro_decode::DroAssembler;
use rp2040_fred::mock_bus::DRO_CADENCE;
use rp2040_fred::protocol::{
    abs24, byte0, byte1, byte2, sign_byte, DroProtocolEngine, DroTelemetry, FredReply,
};

fn stepped(n: u32) -> DroProtocolEngine {
    let mut e = DroProtocolEngine::new();
    for _ in 0..n {
        e.step_telemetry();
    }
    e
}

#[test]
fn new_engine_holds_the_start_values() {
    let e = DroProtocolEngine::new();
    assert_eq!(e.telemetry(), DroTelemetry { x_counts: 0, z_counts: 0, rpm: 1200 });
    assert_eq!(DroTelemetry::default(), DroTelemetry { x_counts: 0, z_counts: 0, rpm: 1200 });
}

#[test]
fn telemetry_follows_the_tick() {
    // phase = tick >> 4; x = (phase & 0x3FF) - 0x200;
    // z = ((3 * phase) & 0x3FF) - 0x200; rpm = 800 + (phase & 0xFF) * 5.
    assert_eq!(stepped(1).telemetry(), DroTelemetry { x_counts: -512, z_counts: -512, rpm: 800 });
    assert_eq!(stepped(15).telemetry(), DroTelemetry { x_counts: -512, z_counts: -512, rpm: 800 });
    assert_eq!(stepped(16).telemetry(), DroTelemetry { x_counts: -511, z_counts: -509, rpm: 805 });
    assert_eq!(stepped(32).telemetry(), DroTelemetry { x_counts: -510, z_counts: -506, rpm: 810 });
    // phase 255: the speed is at its top.
    assert_eq!(
        stepped(255 * 16).telemetry(),
        DroTelemetry { x_counts: -257, z_counts: 253, rpm: 2075 }
    );
    // phase 256: the speed starts again.
    assert_eq!(
        stepped(256 * 16).telemetry(),
        DroTelemetry { x_counts: -256, z_counts: 256, rpm: 800 }
    );
    // phase 342: three times the phase has passed 1024 and wrapped.
    assert_eq!(
        stepped(342 * 16).telemetry(),
        DroTelemetry { x_counts: -170, z_counts: -510, rpm: 1230 }
    );
    // phase 1023: X is at its top.
    assert_eq!(
        stepped(1023 * 16).telemetry(),
        DroTelemetry { x_counts: 511, z_counts: 509, rpm: 2075 }
    );
    // phase 1024: X starts again.
    assert_eq!(
        stepped(1024 * 16).telemetry(),
        DroTelemetry { x_counts: -512, z_counts: -512, rpm: 800 }
    );
}

#[test]
fn engine_answers_each_sub_query_from_its_telemetry() {
    // Tick 16: x = -511 = -(0x0001FF), z = -509 = -(0x0001FD), rpm = 805 = 0x0325.
    let mut e = stepped(16);
    let expected: [(u8, u8); 10] = [
        (0x03, 0x01),
        (0x02, 0x00),
        (0x01, 0x01),
        (0x00, 0xFF),
        (0x07, 0x01),
        (0x06, 0x00),
        (0x05, 0x01),
        (0x04, 0xFD),
        (0x0D, 0x03),
        (0x0C, 0x25),
    ];
    for (cmd, response) in expected {
        assert_eq!(
            e.on_command(cmd),
            FredReply { status_fcf0: 0x00, response_fcf1: response },
            "sub-query {:#04x}",
            cmd
        );
    }
    // Positive values: phase 1023.
    let mut e = stepped(1023 * 16);
    assert_eq!(e.on_command(0x03).response_fcf1, 0x00);
    assert_eq!(e.on_command(0x01).response_fcf1, 0x01);
    assert_eq!(e.on_command(0x00).response_fcf1, 0xFF);
    assert_eq!(e.on_command(0x07).response_fcf1, 0x00);
    assert_eq!(e.on_command(0x0D).response_fcf1, 0x08);
    assert_eq!(e.on_command(0x0C).response_fcf1, 0x1B);
}

#[test]
fn unknown_sub_queries_read_zero_and_status_is_ready() {
    let mut e = stepped(16);
    for cmd in [0x08u8, 0x0B, 0x0E, 0x42, 0xFF] {
        assert_eq!(e.on_command(cmd), FredReply { status_fcf0: 0x00, response_fcf1: 0x00 });
    }
}

#[test]
fn on_command_leaves_the_engine_alone() {
    let mut e = stepped(100);
    let before = e.telemetry();
    for cmd in 0..=255u8 {
        let _ = e.on_command(cmd);
    }
    assert_eq!(e.telemetry(), before);
}

#[test]
fn full_cadence_rebuilds_the_engines_telemetry() {
    for ticks in [0u32, 1, 16, 17, 500, 4080, 4096, 5472, 16368, 16384, 20000] {
        let mut e = stepped(ticks);
        let mut a = DroAssembler::new();
        // Leave something behind that the cadence has to overwrite.
        a.on_fc80_fcf1(0x02, 0xEE);
        a.on_fc80_fcf1(0x07, 0x01);
        for cmd in DRO_CADENCE {
            let reply = e.on_command(cmd);
            a.on_fc80_fcf1(cmd, reply.response_fcf1);
        }
        let s = a.snapshot();
        let t = e.telemetry();
        assert_eq!((s.x_counts, s.z_counts, s.rpm), (t.x_counts, t.z_counts, t.rpm));
    }
}

#[test]
fn abs24_keeps_the_low_24_bits_of_the_magnitude() {
    assert_eq!(abs24(0), 0);
    assert_eq!(abs24(1), 1);
    assert_eq!(abs24(-1), 1);
    assert_eq!(abs24(-512), 512);
    assert_eq!(abs24(0x00FF_FFFF), 0x00FF_FFFF);
    assert_eq!(abs24(-0x00FF_FFFF), 0x00FF_FFFF);
    assert_eq!(abs24(0x0100_0000), 0);
    assert_eq!(abs24(0x0123_4567), 0x0023_4567);
    assert_eq!(abs24(-0x0123_4567), 0x0023_4567);
    assert_eq!(abs24(i32::MAX), 0x00FF_FFFF);
    assert_eq!(abs24(i32::MIN), 0);
}

#[test]
fn sign_and_byte_helpers() {
    assert_eq!(sign_byte(-1), 0x01);
    assert_eq!(sign_byte(i32::MIN), 0x01);
    assert_eq!(sign_byte(0), 0x00);
    assert_eq!(sign_byte(i32::MAX), 0x00);
    assert_eq!(byte2(0x1234_5678), 0x34);
    assert_eq!(byte1(0x1234_5678), 0x56);
    assert_eq!(byte0(0x1234_5678), 0x78);
    assert_eq!(byte2(u32::MAX), 0xFF);
    assert_eq!(byte2(0xFFFF), 0x00);
}
