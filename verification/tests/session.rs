use ds_bridge::message::{ControllerSample, DsMessage, Hand, RobotMessage};
use ds_bridge::server::{control_addr, telemetry_peer, ConnectionState, PeerAddr, ServerHandle};

fn sample_with_pos_x(value: f64) -> ControllerSample {
    ControllerSample {
        pos_x: value.to_bits(),
        pos_y: 0,
        pos_z: 0,
        quat_w: 0,
        quat_i: 0,
        quat_j: 0,
        quat_k: 0,
        joystick_x: 0,
        joystick_y: 0,
        trigger: 0,
    }
}

fn gyro_datagram(value: f64) -> Vec<u8> {
    let mut datagram = vec![0u8];
    datagram.extend_from_slice(&value.to_be_bytes());
    datagram
}

#[test]
fn fresh_session_is_disconnected() {
    let handle = ServerHandle::new();
    assert!(!handle.connected);
    assert!(matches!(handle.server.state, ConnectionState::Disconnected));
    assert_eq!(handle.server.connect_attempts, 0);
    assert_eq!(handle.server.udp_messages.len(), 0);
}

#[test]
fn configured_addresses() {
    let control = control_addr();
    assert_eq!(control, PeerAddr { a: 10, b: 36, c: 36, d: 21, port: 1234 });
    let telemetry = telemetry_peer();
    assert_eq!(telemetry, PeerAddr { a: 10, b: 36, c: 36, d: 21, port: 1235 });
}

#[test]
fn never_connecting_stays_disconnected_with_one_attempt_per_firing() {
    let mut handle = ServerHandle::new();
    for firing in 1..=5u64 {
        let target = handle.server.timeout();
        assert_eq!(target, Some(control_addr()), "firing {}", firing);
        // The connect attempt fails: no success is reported back.
        assert!(matches!(handle.server.state, ConnectionState::Disconnected));
        assert_eq!(handle.server.connect_attempts, firing);
    }
    handle.tick();
    assert!(!handle.connected);
}

#[test]
fn timer_does_nothing_while_connected() {
    let mut handle = ServerHandle::new();
    assert_eq!(handle.server.timeout(), Some(control_addr()));
    handle.server.connect_succeeded();
    assert_eq!(handle.server.timeout(), None);
    assert_eq!(handle.server.connect_attempts, 1);
}

#[test]
fn successful_connect_publishes_flag_and_derives_peer() {
    let mut handle = ServerHandle::new();
    handle.server.timeout();
    handle.server.connect_succeeded();
    match handle.server.state {
        ConnectionState::Connected { peer } => assert_eq!(peer, telemetry_peer()),
        ConnectionState::Disconnected => panic!("still disconnected"),
    }
    assert!(!handle.connected, "flag is cached only by tick");
    handle.tick();
    assert!(handle.connected);
}

#[test]
fn tick_caches_the_most_recent_flag_update() {
    let mut handle = ServerHandle::new();
    handle.server.connected_updates.push(true);
    handle.server.connected_updates.push(false);
    handle.tick();
    assert!(!handle.connected);
    assert_eq!(handle.server.connected_updates.len(), 0);
    handle.server.connected_updates.push(false);
    handle.server.connected_updates.push(true);
    handle.tick();
    assert!(handle.connected);
    handle.tick();
    assert!(handle.connected, "no update keeps the cached value");
}

#[test]
fn outbound_queue_drains_last_in_first_out() {
    let mut handle = ServerHandle::new();
    let a = DsMessage::Sixense(sample_with_pos_x(1.0), Hand::Left);
    let b = DsMessage::Sixense(sample_with_pos_x(2.0), Hand::Right);
    handle.send_udp(a);
    handle.send_udp(b);
    handle.server.connect_succeeded();

    let (first, peer1) = handle.server.ready_udp_writable().expect("a buffer to send");
    assert_eq!(first, b.encode(), "most recently pushed goes first");
    assert_eq!(peer1, telemetry_peer());
    assert!(handle.server.write_interest);

    let (second, _) = handle.server.ready_udp_writable().expect("a buffer to send");
    assert_eq!(second, a.encode());
    assert!(!handle.server.write_interest, "queue empty: write interest dropped");
    assert_eq!(handle.server.udp_messages.len(), 0);
}

#[test]
fn writable_while_disconnected_is_skipped() {
    let mut handle = ServerHandle::new();
    handle.send_udp(DsMessage::Sixense(sample_with_pos_x(1.0), Hand::Left));
    assert_eq!(handle.server.ready_udp_writable(), None);
    assert_eq!(handle.server.udp_messages.len(), 1, "nothing was popped");
}

#[test]
fn inbound_messages_are_received_first_in_first_out() {
    let mut handle = ServerHandle::new();
    handle.server.ready_udp_readable(&gyro_datagram(1.0));
    handle.server.ready_udp_readable(&gyro_datagram(2.0));
    assert_eq!(handle.recv(), Some(RobotMessage::Gyro(1.0f64.to_bits())));
    assert_eq!(handle.recv(), Some(RobotMessage::Gyro(2.0f64.to_bits())));
    assert_eq!(handle.recv(), None);
}

#[test]
fn send_then_one_writable_drain_yields_one_wire_image() {
    let mut handle = ServerHandle::new();
    let sample = sample_with_pos_x(4.5);
    handle.send_udp(DsMessage::Sixense(sample, Hand::Left));
    handle.server.timeout();
    handle.server.connect_succeeded();

    let (wire, peer) = handle.server.ready_udp_writable().expect("a buffer to send");
    assert_eq!(peer, telemetry_peer());
    assert_eq!(wire.len(), 82);
    assert_eq!(wire[0], 0, "telemetry tag");
    assert_eq!(&wire[1..9], &4.5f64.to_be_bytes());
    assert!(wire[9..81].iter().all(|&b| b == 0), "zero fields");
    assert_eq!(wire[81], 0, "hand byte for Left");
    assert_eq!(handle.server.udp_messages.len(), 0);
}

#[test]
fn outbound_queue_grows_without_flow_control() {
    // Telemetry carries latest sensor state: a producer far faster than the
    // one-buffer-per-writable-event consumer grows the queue without bound,
    // an accepted risk rather than a mitigated one.
    let mut handle = ServerHandle::new();
    handle.server.connect_succeeded();
    for i in 0..1000u32 {
        handle.send_udp(DsMessage::Sixense(sample_with_pos_x(f64::from(i)), Hand::Left));
    }
    assert_eq!(handle.server.udp_messages.len(), 1000);
    let (newest, _) = handle.server.ready_udp_writable().expect("a buffer to send");
    assert_eq!(&newest[1..9], &999f64.to_be_bytes(), "one writable event takes the newest");
    assert_eq!(handle.server.udp_messages.len(), 999);
}

#[test]
fn bad_datagram_leaves_the_reactor_able_to_process_the_next() {
    let mut handle = ServerHandle::new();
    handle.server.ready_udp_readable(&[0x05]);
    assert_eq!(handle.recv(), None, "unknown tag is dropped");
    handle.server.ready_udp_readable(&gyro_datagram(6.25));
    assert_eq!(handle.recv(), Some(RobotMessage::Gyro(6.25f64.to_bits())));
    assert_eq!(handle.recv(), None);
}
