use fake::faker::{internet::en::IPv4, lorem::en::Word};
use fake::Fake;
use poll_api::errors::InternalError;
use poll_api::helpers::{client_ip_from_parsed, parse_client_ip, IpNetwork};

#[test]
fn parsed_ip_address_correctly() {
    let fake_ip: String = IPv4().fake();
    let remote_addr = Some(fake_ip.as_str());
    let parsed = parse_client_ip(&remote_addr);

    assert!(parsed.is_ok());
}

#[test]
fn fails_to_parse_malformed_ip_address() {
    let malformed_ip: &str = Word().fake();
    let remote_addr = Some(malformed_ip);
    let parsed = parse_client_ip(&remote_addr);

    assert!(parsed.is_err());
}

#[test]
fn fails_to_parse_ip_address_if_remote_addr_is_none() {
    let remote_addr = None;
    let parsed = parse_client_ip(&remote_addr);

    assert!(parsed.is_err());
}

#[test]
fn missing_address_gives_its_own_message() {
    let parsed = parse_client_ip(&None);
    assert_eq!(
        parsed,
        Err(InternalError::ParseIpError("Failed to retrieve remote address."))
    );
    assert_eq!(parsed.unwrap_err().to_message(), "Failed to retrieve remote address.");
}

#[test]
fn malformed_address_gives_its_own_message() {
    let parsed = parse_client_ip(&Some("not-an-address"));
    assert_eq!(
        parsed,
        Err(InternalError::ParseIpError("Failed to parse valid remote address."))
    );
}

#[test]
fn ipv4_address_is_a_full_length_network() {
    let parsed = parse_client_ip(&Some("192.168.1.20"));
    assert_eq!(parsed, Ok(IpNetwork::V4 { addr: 0xC0A8_0114, prefix: 32 }));
}

#[test]
fn ipv4_network_keeps_its_prefix() {
    let parsed = parse_client_ip(&Some("10.0.0.0/8"));
    assert_eq!(parsed, Ok(IpNetwork::V4 { addr: 0x0A00_0000, prefix: 8 }));
}

#[test]
fn ipv6_address_is_parsed() {
    let parsed = parse_client_ip(&Some("::1"));
    assert_eq!(parsed, Ok(IpNetwork::V6 { addr: 1, prefix: 128 }));
}

#[test]
fn address_with_port_is_refused() {
    assert!(parse_client_ip(&Some("127.0.0.1:8080")).is_err());
}

#[test]
fn prefix_beyond_address_width_is_refused() {
    assert!(parse_client_ip(&Some("10.0.0.0/33")).is_err());
    assert!(parse_client_ip(&Some("")).is_err());
}

#[test]
fn parsed_network_passes_through() {
    let net = IpNetwork::V4 { addr: 7, prefix: 32 };
    assert_eq!(client_ip_from_parsed(Some(net)), Ok(net));
    assert_eq!(
        client_ip_from_parsed(None),
        Err(InternalError::ParseIpError("Failed to parse valid remote address."))
    );
}
