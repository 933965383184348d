use steam_controller_dsu::dsu::{self, DSUFrame};
use steam_controller_dsu::protocol;
use steam_controller_dsu::server::{
    broadcast, event_type_str, parse_request, prune_clients, register_data_request, Client,
    ClientAddr, Request,
};

fn request(event_type: u32, client_id: u32, extra: &[u8]) -> ([u8; 256], usize) {
    let mut buf = [0u8; 256];
    buf[0..4].copy_from_slice(b"DSUC");
    buf[4..6].copy_from_slice(&1001u16.to_le_bytes());
    buf[12..16].copy_from_slice(&client_id.to_le_bytes());
    buf[16..20].copy_from_slice(&event_type.to_le_bytes());
    buf[20..20 + extra.len()].copy_from_slice(extra);
    (buf, 20 + extra.len())
}

#[test]
fn parse_requests() {
    let (buf, _) = request(0x100000, 5, &[]);
    assert!(matches!(parse_request(&buf, 19), Request::TooShort));
    assert!(matches!(parse_request(&buf, 20), Request::Version { client_id: 5 }));
    let mut other = buf;
    other[3] = b'S';
    assert!(matches!(parse_request(&other, 20), Request::NotClient));

    let (buf, len) = request(0x100001, 6, &[2, 0, 0, 0, 3, 1, 9, 9]);
    match parse_request(&buf, len) {
        Request::Info { client_id, slots } => {
            assert_eq!(client_id, 6);
            assert_eq!(slots, vec![3, 1]);
        }
        r => panic!("unexpected {r:?}"),
    }
    // A negative port count asks for four slots.
    let (buf, len) = request(0x100001, 6, &[0xFF, 0xFF, 0xFF, 0xFF, 0, 1, 2, 3, 4]);
    match parse_request(&buf, len) {
        Request::Info { slots, .. } => assert_eq!(slots, vec![0, 1, 2, 3]),
        r => panic!("unexpected {r:?}"),
    }

    let (buf, len) = request(0x100002, 7, &[1, 2]);
    assert!(matches!(parse_request(&buf, len), Request::Data { client_id: 7, slot: 2 }));
    assert!(matches!(parse_request(&buf, 21), Request::Data { client_id: 7, slot: 0 }));
    let (buf, len) = request(0x100003, 8, &[]);
    assert!(matches!(
        parse_request(&buf, len),
        Request::Unhandled { client_id: 8, event_type: 0x100003 }
    ));
}

#[test]
fn event_type_names() {
    assert_eq!(event_type_str(0x100000), "VERSION");
    assert_eq!(event_type_str(0x100001), "INFO");
    assert_eq!(event_type_str(0x100002), "DATA");
    assert_eq!(event_type_str(1), "UNKNOWN");
}

fn addr(port: u16) -> ClientAddr {
    ClientAddr::V4 { ip: 0x7F00_0001, port }
}

#[test]
fn data_requests_register_each_address_once() {
    let mut clients: Vec<Client> = Vec::new();
    register_data_request(&mut clients, addr(1), 10, 0, 100);
    register_data_request(&mut clients, addr(2), 20, 1, 200);
    register_data_request(&mut clients, addr(1), 11, 3, 300);
    assert_eq!(clients.len(), 2);
    assert_eq!(clients[0].addr, addr(1));
    assert_eq!((clients[0].id, clients[0].slot, clients[0].last_seen_ms), (11, 3, 300));
    assert_eq!(clients[1].addr, addr(2));
    assert_eq!(clients[1].packet_counter, 0);
    let v6 = ClientAddr::V6 { ip: 1, port: 1, flowinfo: 0, scope_id: 0 };
    register_data_request(&mut clients, v6, 30, 0, 400);
    assert_eq!(clients.len(), 3);
}

#[test]
fn prune_drops_stale_clients_in_order() {
    let mut clients: Vec<Client> = Vec::new();
    register_data_request(&mut clients, addr(1), 1, 0, 0);
    register_data_request(&mut clients, addr(2), 2, 0, 3000);
    register_data_request(&mut clients, addr(3), 3, 0, 6000);
    prune_clients(&mut clients, 7999);
    assert_eq!(clients.iter().map(|c| c.id).collect::<Vec<_>>(), vec![2, 3]);
    prune_clients(&mut clients, 8000);
    assert_eq!(clients.iter().map(|c| c.id).collect::<Vec<_>>(), vec![3]);
}

fn zero_frame() -> DSUFrame {
    DSUFrame {
        dpad_left: false,
        dpad_down: false,
        dpad_right: false,
        dpad_up: false,
        options: false,
        r3: false,
        l3: false,
        share: false,
        y: false,
        b: false,
        a: false,
        x: false,
        r1: false,
        l1: false,
        r2: false,
        l2: false,
        home: false,
        touch: false,
        left_stick_x: 128,
        left_stick_y: 128,
        right_stick_x: 128,
        right_stick_y: 128,
        analog_r2: 0,
        analog_l2: 0,
        accel_x: 0,
        accel_y: 0,
        accel_z: 0,
        gyro_x: 0,
        gyro_y: 0,
        gyro_z: 0,
    }
}

#[test]
fn broadcast_sends_one_packet_per_client() {
    let mut clients: Vec<Client> = Vec::new();
    let mut ts: u64 = 0;
    assert!(broadcast(&mut clients, &zero_frame(), &mut ts, false).is_empty());
    assert_eq!(ts, 0);
    register_data_request(&mut clients, addr(1), 10, 2, 0);
    register_data_request(&mut clients, addr(2), 20, 3, 0);
    clients[1].packet_counter = u32::MAX;
    let out = broadcast(&mut clients, &zero_frame(), &mut ts, true);
    assert_eq!(out.len(), 2);
    assert_eq!(ts, 4000);
    assert_eq!(clients[0].packet_counter, 1);
    assert_eq!(clients[1].packet_counter, 0);
    let mut expected = [0u8; 100];
    dsu::write_data_event(&mut expected, &zero_frame(), 1, 10, 2, 0, true);
    assert_eq!(out[0].addr, addr(1));
    assert_eq!(out[0].bytes, expected);
    assert_eq!(&out[1].bytes[12..16], &20u32.to_le_bytes());
    assert_eq!(out[1].bytes[20], 3);
    assert_eq!(&out[1].bytes[32..36], &0u32.to_le_bytes());
    let mut ts2 = u64::MAX - 1000;
    broadcast(&mut clients, &zero_frame(), &mut ts2, false);
    assert_eq!(ts2, 2999);
}

#[test]
fn version_response_echoes_request_client_id() {
    let (buf, len) = request(0x100000, 0xCAFEBABE, &[]);
    if let Request::Version { client_id } = parse_request(&buf, len) {
        let mut out = [0u8; 22];
        protocol::write_version_response(&mut out, client_id);
        assert_eq!(&out[12..16], &buf[12..16]);
    } else {
        panic!("not a version request");
    }
}
