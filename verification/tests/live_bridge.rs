use rp2040_fred::bridge_proto::{MsgType, Packet};
use rp2040_fred::live_bridge::LiveBridge;
use rp2040_fred::mock_bus::DRO_CADENCE;
use rp2040_fred::transport::{ReadCycle, Rp2040FredTransport};

fn enabled_bridge() -> LiveBridge {
    let mut bridge = LiveBridge::new();
    let mut out = [Packet::ping(0), Packet::ping(0)];
    assert_eq!(bridge.handle_request(Packet::telemetry_set(1, true, 40), &mut out), 1);
    assert_eq!(out[0], Packet::ack(1, MsgType::TelemetrySet, 0));
    bridge
}

/// Answers of a bus on which X = -100, Z = 200 and the speed is 2000.
fn bus_answer(cmd: u8) -> u32 {
    match cmd {
        0x03 => 0x01,
        0x00 => 0x64,
        0x04 => 0xC8,
        0x0D => 0x07,
        0x0C => 0xD0,
        _ => 0x00,
    }
}

#[test]
fn live_bridge_defaults() {
    let bridge = LiveBridge::new();
    assert_eq!(bridge.telemetry_period_ms(), 100);
    assert_eq!(bridge.flags(), 0);
    assert_eq!(bridge.pending_command(), None);
}

#[test]
fn live_bridge_does_nothing_while_telemetry_is_off() {
    let mut bridge = LiveBridge::new();
    let mut transport = Rp2040FredTransport::new();
    for _ in 0..20 {
        let event = bridge.poll_telemetry_event(
            &mut transport,
            false,
            ReadCycle::TxTimeout,
            ReadCycle::RxTimeout,
        );
        assert_eq!(event, None);
    }
    assert_eq!(transport.last_write_word(), 0);
    assert_eq!(transport.last_read_word(), 0);
    assert_eq!((transport.tx_timeout_count(), transport.rx_timeout_count()), (0, 0));
    // The cadence did not move either.
    let mut out = [Packet::ping(0), Packet::ping(0)];
    let _ = bridge.handle_request(Packet::telemetry_set(1, true, 40), &mut out);
    assert_eq!(bridge.pending_command(), Some(0x03));
}

#[test]
fn live_bridge_rebuilds_the_bus_values_once_per_cadence() {
    let mut bridge = enabled_bridge();
    let mut transport = Rp2040FredTransport::new();
    for round in 1..=3u16 {
        for i in 0..10usize {
            let cmd = bridge.pending_command().expect("telemetry is on");
            assert_eq!(cmd, DRO_CADENCE[i]);
            let event = bridge.poll_telemetry_event(
                &mut transport,
                true,
                ReadCycle::Data(0x00),
                ReadCycle::Data(bus_answer(cmd)),
            );
            assert_eq!(transport.last_write_word(), 0x8000 | cmd as u16);
            assert_eq!(transport.last_read_word(), 0xF100);
            if i < 9 {
                assert_eq!(event, None);
            } else {
                let tick = 10 * round as u32;
                assert_eq!(event, Some(Packet::telemetry(round, tick, -100, 200, 2000, 1)));
            }
        }
    }
    assert_eq!((transport.tx_timeout_count(), transport.rx_timeout_count()), (0, 0));
}

#[test]
fn live_bridge_snapshot_reply_shows_the_last_full_cadence() {
    let mut bridge = enabled_bridge();
    let mut transport = Rp2040FredTransport::new();
    let mut out = [Packet::ping(0), Packet::ping(0)];
    let snapshot_req = Packet::new(MsgType::SnapshotReq, 7, &[]).expect("fits");

    // Nine dialogues in: the cadence is not closed, the snapshot is still zero.
    for _ in 0..9 {
        let cmd = bridge.pending_command().expect("telemetry is on");
        let _ = bridge.poll_telemetry_event(
            &mut transport,
            true,
            ReadCycle::Data(0),
            ReadCycle::Data(bus_answer(cmd)),
        );
    }
    assert_eq!(bridge.handle_request(snapshot_req, &mut out), 2);
    assert_eq!(out[0], Packet::telemetry(7, 9, 0, 0, 0, 1));
    assert_eq!(out[1], Packet::ack(7, MsgType::SnapshotReq, 0));

    let cmd = bridge.pending_command().expect("telemetry is on");
    let event = bridge.poll_telemetry_event(
        &mut transport,
        true,
        ReadCycle::Data(0),
        ReadCycle::Data(bus_answer(cmd)),
    );
    assert!(event.is_some());
    assert_eq!(bridge.handle_request(snapshot_req, &mut out), 2);
    assert_eq!(out[0], Packet::telemetry(7, 10, -100, 200, 2000, 1));
}

#[test]
fn live_bridge_reads_timeouts_as_out_of_range_values() {
    let mut bridge = enabled_bridge();
    let mut transport = Rp2040FredTransport::new();
    let mut event = None;
    for _ in 0..10 {
        event = bridge.poll_telemetry_event(
            &mut transport,
            false,
            ReadCycle::TxTimeout,
            ReadCycle::RxTimeout,
        );
    }
    // Every byte read as 0xFF: both signs set, magnitudes and speed all ones.
    assert_eq!(
        event,
        Some(Packet::telemetry(1, 10, -0x00FF_FFFF, -0x00FF_FFFF, 0xFFFF, 1))
    );
    // Per dialogue: one failed write, one failed status push, one failed pull.
    assert_eq!((transport.tx_timeout_count(), transport.rx_timeout_count()), (20, 10));
}

#[test]
fn live_bridge_answers_requests_like_the_service() {
    let mut bridge = LiveBridge::new();
    let mut out = [Packet::ping(0), Packet::ping(0)];
    assert_eq!(bridge.handle_request(Packet::ping(42), &mut out), 1);
    assert_eq!(out[0], Packet::ack(42, MsgType::Ping, 0));

    let empty_set = Packet::new(MsgType::TelemetrySet, 5, &[]).expect("fits");
    assert_eq!(bridge.handle_request(empty_set, &mut out), 1);
    assert_eq!(out[0], Packet::nack(5, 0x10, 0x01));
    assert_eq!(bridge.flags(), 0);

    assert_eq!(bridge.handle_request(Packet::telemetry_set(6, true, 0x0102), &mut out), 1);
    assert_eq!(out[0], Packet::ack(6, MsgType::TelemetrySet, 0));
    assert_eq!(bridge.flags(), 1);
    assert_eq!(bridge.telemetry_period_ms(), 0x0102);

    assert_eq!(bridge.handle_request(Packet::capture_set(8, true), &mut out), 1);
    assert_eq!(out[0], Packet::nack(8, 0x13, 0xFE));

    let health = Packet::health(9, 0, 0, 0);
    assert_eq!(bridge.handle_request(health, &mut out), 1);
    assert_eq!(out[0], Packet::nack(9, 0x91, 0xFE));
}
