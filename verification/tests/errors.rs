use netlink_errors::errors::{DecodeError, EncodeError, NlaError};

fn assert_send_sync<T: Send + Sync>(value: T) -> T {
    value
}

#[test]
fn mac_address_message_embeds_counts() {
    let e = DecodeError::InvalidMACAddress { received: 3 };
    let m = e.message();
    assert_eq!(m, "Invalid MAC address. Expected 6 bytes, received 3 bytes");
    assert!(m.contains('6'));
    assert!(m.contains('3'));
}

#[test]
fn mac_address_message_with_zero_bytes() {
    let e = DecodeError::InvalidMACAddress { received: 0 };
    assert_eq!(
        e.message(),
        "Invalid MAC address. Expected 6 bytes, received 0 bytes"
    );
}

#[test]
fn mac_address_message_with_largest_count() {
    let e = DecodeError::InvalidMACAddress { received: usize::MAX };
    let m = e.message();
    assert!(m.contains("18446744073709551615"));
}

#[test]
fn ip_address_message_embeds_counts() {
    let e = DecodeError::InvalidIPAddress { received: 5 };
    let m = e.message();
    assert_eq!(m, "Invalid IP address. Expected 4 or 16 bytes, received 5 bytes");
    assert!(m.contains("4 or 16"));
    assert!(m.contains('5'));
}

#[test]
fn ip_address_message_with_multi_digit_count() {
    let e = DecodeError::InvalidIPAddress { received: 1234567890 };
    assert_eq!(
        e.message(),
        "Invalid IP address. Expected 4 or 16 bytes, received 1234567890 bytes"
    );
}

#[test]
fn number_message_embeds_both_counts() {
    let e = DecodeError::InvalidNumber { expected: 4, received: 2 };
    let m = e.message();
    assert_eq!(m, "Invalid number. Expected 4 bytes, received 2 bytes");
    assert!(m.contains('4'));
    assert!(m.contains('2'));
}

#[test]
fn number_message_with_round_counts() {
    let e = DecodeError::InvalidNumber { expected: 100, received: 10 };
    assert_eq!(e.message(), "Invalid number. Expected 100 bytes, received 10 bytes");
}

#[test]
fn buffer_message_embeds_name_and_counts() {
    let e = DecodeError::InvalidBuffer { name: "header", received: 2, minimum_length: 16 };
    let m = e.message();
    assert_eq!(
        m,
        "Invalid buffer header. Expected at least 16 bytes, received 2 bytes"
    );
    assert!(m.contains("header"));
    assert!(m.contains("16"));
    assert!(m.contains('2'));
}

#[test]
fn utf8_message_is_fixed_text() {
    let failure = String::from_utf8(vec![0xff, 0xfe]).unwrap_err();
    let e = DecodeError::from_utf8(failure);
    let m = e.message();
    assert_eq!(m, "Invalid string");
    assert!(!m.contains("255"));
    assert!(!m.contains("254"));
}

#[test]
fn nla_message_is_transparent() {
    let nested = NlaError::new(String::from("nested attribute failed"));
    let e = DecodeError::from_nla(nested);
    assert_eq!(e.message(), "nested attribute failed");
}

#[test]
fn nla_error_keeps_its_message() {
    let nested = NlaError::new(String::from("length mismatch in attribute"));
    assert_eq!(nested.message(), "length mismatch in attribute");
}

#[test]
fn decode_text_message_is_reproduced_unmodified() {
    let e = DecodeError::from_message("bad header");
    assert_eq!(e.message(), "bad header");
}

#[test]
fn decode_owned_text_message_is_reproduced_unmodified() {
    let e = DecodeError::from_owned_message(String::from("bad header"));
    assert_eq!(e.message(), "bad header");
}

#[test]
fn encode_text_message_gets_fixed_prefix() {
    let e = EncodeError::from_message("bad header");
    assert_eq!(e.message(), "Encode error occurred: bad header");
}

#[test]
fn encode_owned_text_message_gets_fixed_prefix() {
    let e = EncodeError::from_owned_message(String::from("value does not fit in field"));
    assert_eq!(
        e.message(),
        "Encode error occurred: value does not fit in field"
    );
}

#[test]
fn encode_empty_message_is_just_the_prefix() {
    let e = EncodeError::from_message("");
    assert_eq!(e.message(), "Encode error occurred: ");
}

#[test]
fn decode_error_crosses_a_send_sync_boundary() {
    let e = DecodeError::from_message("produced elsewhere");
    let e = assert_send_sync(e);
    let boxed: Box<dyn FnOnce() -> String + Send> = Box::new(move || e.message());
    assert_eq!(boxed(), "produced elsewhere");
}

#[test]
fn structured_variants_round_trip_their_fields() {
    let e = DecodeError::InvalidMACAddress { received: 7 };
    match e {
        DecodeError::InvalidMACAddress { received } => assert_eq!(received, 7),
        _ => panic!("wrong variant"),
    }
    let e = DecodeError::InvalidIPAddress { received: 17 };
    match e {
        DecodeError::InvalidIPAddress { received } => assert_eq!(received, 17),
        _ => panic!("wrong variant"),
    }
    let e = DecodeError::InvalidNumber { expected: 8, received: 3 };
    match e {
        DecodeError::InvalidNumber { expected, received } => {
            assert_eq!(expected, 8);
            assert_eq!(received, 3);
        }
        _ => panic!("wrong variant"),
    }
    let e = DecodeError::InvalidBuffer { name: "payload", received: 1, minimum_length: 4 };
    match e {
        DecodeError::InvalidBuffer { name, received, minimum_length } => {
            assert_eq!(name, "payload");
            assert_eq!(received, 1);
            assert_eq!(minimum_length, 4);
        }
        _ => panic!("wrong variant"),
    }
}

#[test]
fn utf8_cause_stays_reachable() {
    let failure = String::from_utf8(vec![0xc3, 0x28]).unwrap_err();
    let bytes = failure.as_bytes().to_vec();
    let e = DecodeError::from_utf8(failure);
    match e {
        DecodeError::Utf8Error(cause) => assert_eq!(cause.into_bytes(), bytes),
        _ => panic!("wrong variant"),
    }
}
