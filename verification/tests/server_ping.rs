use era_launcher::servers::parse_address;

#[test]
fn test_parse_address_basic() {
    let (h, p) = parse_address("play.example.com:25565").ok().unwrap();
    assert_eq!(h, "play.example.com");
    assert_eq!(p, 25565);
}

#[test]
fn test_parse_address_trims() {
    let (h, p) = parse_address("  minecraft.net  :19132  ").ok().unwrap();
    assert_eq!(h, "minecraft.net");
    assert_eq!(p, 19132);
}

#[test]
fn test_parse_address_ipv6() {
    let (h, p) = parse_address("[::1]:25565").ok().unwrap();
    assert_eq!(h, "::1");
    assert_eq!(p, 25565);
}

#[test]
fn test_parse_address_invalid() {
    assert!(parse_address("no-port").is_err());
    assert!(parse_address(":1234").is_err());
    assert!(parse_address("host:not-a-port").is_err());
}
