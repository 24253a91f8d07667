use tow::handshake::{
    is_header_text, network_type_from_header, network_type_from_value, HandshakeRejection, NetworkType,
    NETWORK_TYPE_HEADER,
};

#[test]
fn header_name_is_network_type() {
    assert_eq!(NETWORK_TYPE_HEADER, "network-type");
}

#[test]
fn client_header_values() {
    assert_eq!(NetworkType::Tcp.header_value(), "tcp");
    assert_eq!(NetworkType::Udp.header_value(), "udp");
}

#[test]
fn header_values_round_trip() {
    for nt in [NetworkType::Tcp, NetworkType::Udp] {
        let value = http::HeaderValue::from_static(nt.header_value());
        assert_eq!(network_type_from_header(Some(&value)), Ok(nt));
    }
}

#[test]
fn missing_header_is_refused() {
    assert_eq!(network_type_from_header(None), Err(HandshakeRejection::MissingHeader));
}

#[test]
fn unknown_value_is_refused() {
    let value = http::HeaderValue::from_static("sctp");
    assert_eq!(network_type_from_header(Some(&value)), Err(HandshakeRejection::InvalidValue));
    let upper = http::HeaderValue::from_static("TCP");
    assert_eq!(network_type_from_header(Some(&upper)), Err(HandshakeRejection::InvalidValue));
    let empty = http::HeaderValue::from_static("");
    assert_eq!(network_type_from_header(Some(&empty)), Err(HandshakeRejection::InvalidValue));
}

#[test]
fn opaque_bytes_are_refused() {
    let value = http::HeaderValue::from_bytes(&[0x74, 0xff, 0x70]).unwrap();
    assert_eq!(network_type_from_header(Some(&value)), Err(HandshakeRejection::InvalidValue));
}

#[test]
fn value_bytes_are_classified() {
    assert_eq!(network_type_from_value(b"tcp"), Ok(NetworkType::Tcp));
    assert_eq!(network_type_from_value(b"udp"), Ok(NetworkType::Udp));
    assert_eq!(network_type_from_value(b"tcp "), Err(HandshakeRejection::InvalidValue));
    assert_eq!(network_type_from_value(b"ud"), Err(HandshakeRejection::InvalidValue));
    assert_eq!(network_type_from_value(&[0x80, 0x81, 0x82]), Err(HandshakeRejection::InvalidValue));
}

#[test]
fn header_text_test_matches_http() {
    assert!(is_header_text(b"hello world"));
    assert!(is_header_text(b"a\tb"));
    assert!(!is_header_text(b"a\x7fb"));
    assert!(!is_header_text(&[0xc3, 0xa9]));
    assert!(is_header_text(b""));
}

#[test]
fn rejection_messages() {
    assert_eq!(
        HandshakeRejection::MissingHeader.message(),
        "No network-type header was present in the request."
    );
    assert_eq!(
        HandshakeRejection::InvalidValue.message(),
        "The network-type header contained an invalid value."
    );
}
