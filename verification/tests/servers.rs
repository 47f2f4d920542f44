use era_launcher::servers::{
    add_server, encode_vi, encode_with_length, json_start, list_servers, parse_address, read_vi,
    read_status_header, remove_server, status_request_packets, update_server, PingFrameError,
    ServerEntry, VarIntError,
};

#[test]
fn test_parse_address_simple() {
    let (h, p) = parse_address("play.example.com:25565").ok().unwrap();
    assert_eq!(h, "play.example.com");
    assert_eq!(p, 25565);
}

#[test]
fn test_parse_address_trims_whitespace() {
    let (h, p) = parse_address("  minecraft.net  :19132  ").ok().unwrap();
    assert_eq!(h, "minecraft.net");
    assert_eq!(p, 19132);
}

#[test]
fn test_parse_address_ipv6_brackets() {
    let (h, p) = parse_address("[::1]:25565").ok().unwrap();
    assert_eq!(h, "::1");
    assert_eq!(p, 25565);
}

#[test]
fn test_parse_address_missing_port() {
    assert!(parse_address("no-port").is_err());
}

#[test]
fn test_parse_address_bad_port() {
    assert!(parse_address("host:not-a-port").is_err());
}

#[test]
fn test_parse_address_missing_host() {
    assert!(parse_address(":1234").is_err());
}

#[test]
fn test_parse_address_error_messages() {
    match parse_address("no-port") {
        Err(e) => assert!(e.message().contains("no-port")),
        Ok(_) => panic!("accepted an address without a port"),
    }
    assert!(parse_address("host:70000").is_err());
}

#[test]
fn test_encode_vi_small() {
    assert_eq!(encode_vi(0), vec![0x00]);
    assert_eq!(encode_vi(1), vec![0x01]);
    assert_eq!(encode_vi(127), vec![0x7f]);
    assert_eq!(encode_vi(128), vec![0x80, 0x01]);
    assert_eq!(encode_vi(25565), vec![0xdd, 0xc7, 0x01]);
}

#[test]
fn test_encode_vi_largest() {
    assert_eq!(encode_vi(i32::MAX), vec![0xff, 0xff, 0xff, 0xff, 0x07]);
}

#[test]
fn test_varint_round_trip() {
    for v in [0, 1, 127, 128, 255, 25565, 2097151, i32::MAX] {
        let mut bytes = encode_vi(v);
        let n = bytes.len();
        bytes.push(0x42);
        match read_vi(&bytes) {
            Ok((back, used)) => {
                assert_eq!(back, v);
                assert_eq!(used, n);
            }
            Err(_) => panic!("could not read back {}", v),
        }
    }
}

#[test]
fn test_read_vi_errors() {
    assert!(matches!(read_vi(&[]), Err(VarIntError::UnexpectedEof)));
    assert!(matches!(read_vi(&[0x80, 0x80]), Err(VarIntError::UnexpectedEof)));
    assert!(matches!(read_vi(&[0x80, 0x80, 0x80, 0x80, 0x80, 0x01]), Err(VarIntError::TooLong)));
}

#[test]
fn test_encode_with_length() {
    assert_eq!(encode_with_length(&[0x00]), vec![0x01, 0x00]);
    assert_eq!(encode_with_length(&[]), vec![0x00]);
}

#[test]
fn test_status_request_packets() {
    let bytes = status_request_packets("ab", 25565);
    assert_eq!(
        bytes,
        vec![0x08, 0x00, 0x00, 0x02, b'a', b'b', 0x63, 0xdd, 0x01, 0x01, 0x00]
    );
}

#[test]
fn test_read_status_header() {
    assert!(matches!(read_status_header(&[]), Err(PingFrameError::UnexpectedEof)));
    assert!(matches!(read_status_header(&[0x05, 0x01]), Err(PingFrameError::UnexpectedPacketId(5))));
    match read_status_header(&[0x00, 0x80, 0x01, 0x7b]) {
        Ok((len, used)) => {
            assert_eq!(len, 128);
            assert_eq!(used, 3);
        }
        Err(_) => panic!("valid header refused"),
    }
}

#[test]
fn test_json_start() {
    assert_eq!(json_start(b"\x00{\"a\":1}"), 1);
    assert_eq!(json_start(b"{}"), 0);
    assert_eq!(json_start(b"none"), 0);
}

#[test]
fn test_add_list_remove_server() {
    let entry = ServerEntry::new("test".into(), "localhost:25565".into());
    assert_eq!(entry.name, "test");
    assert!(!entry.id.is_empty());
}

#[test]
fn test_server_store_round_trip() {
    let mut store: Vec<ServerEntry> = Vec::new();
    let a = ServerEntry::new("a".into(), "a.example:25565".into());
    let b = ServerEntry::new("b".into(), "b.example:25565".into());
    let a_id = a.id.clone();
    add_server(&mut store, a);
    add_server(&mut store, b);
    assert_eq!(list_servers(&store).len(), 2);
    let mut renamed = store[0].clone();
    renamed.name = "renamed".into();
    assert!(update_server(&mut store, renamed));
    assert_eq!(store[0].name, "renamed");
    assert!(remove_server(&mut store, &a_id));
    assert!(!remove_server(&mut store, &a_id));
    assert_eq!(store.len(), 1);
    assert_eq!(store[0].name, "b");
}
