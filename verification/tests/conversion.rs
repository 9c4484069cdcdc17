use bus_events::BusProperties;
use bus_events::CaretMoved;
use bus_events::Error;
use bus_events::EventBodyBorrowed;
use bus_events::EventBodyOwned;
use bus_events::Message;
use bus_events::MessageConversion;
use bus_events::WireContext;

fn little_endian() -> WireContext {
    WireContext {
        little_endian: true,
        position: 0,
    }
}

#[test]
fn test() {
    // Mock a message

    let body = EventBodyOwned {
        kind: "CaretMoved".to_owned(),
        detail1: 200,
        detail2: 300,
    };

    let ctxt = little_endian();
    let serialized_body = body.encode(&ctxt).unwrap();

    let msg = Message {
        member: "CaretMoved".to_owned(),
        body: serialized_body,
    };

    let moved = CaretMoved::from_message_unchecked(&msg).unwrap();

    assert_eq!(moved.x, 200);
    assert_eq!(moved.y, 300);
}

#[test]
fn registered_tag() {
    assert_eq!(CaretMoved::dbus_member(), "CaretMoved");
}

#[test]
fn tag_mismatch_fails() {
    let body = EventBodyOwned {
        kind: "CaretMoved".to_owned(),
        detail1: 200,
        detail2: 300,
    };
    let ctxt = little_endian();
    let serialized_body = body.encode(&ctxt).unwrap();

    // The payload would decode, but the envelope's tag is wrong.
    let msg = Message {
        member: "SomethingElse".to_owned(),
        body: serialized_body,
    };

    assert!(CaretMoved::from_message_unchecked(&msg).is_err());
}

#[test]
fn encoded_bytes_exact() {
    let body = EventBodyOwned {
        kind: "CaretMoved".to_owned(),
        detail1: 200,
        detail2: 300,
    };
    let serialized = body.encode(&little_endian()).unwrap();

    // D-Bus marshalling of ("CaretMoved", 200, 300) at position 0,
    // little-endian: a 32-bit length prefix, the string bytes, a trailing
    // nul, one padding byte to align the integers, then the two integers.
    let expected: Vec<u8> = vec![
        0x0A, 0x00, 0x00, 0x00, // string length 10
        b'C', b'a', b'r', b'e', b't', b'M', b'o', b'v', b'e', b'd',
        0x00, // trailing nul
        0x00, // padding to a 4-byte boundary
        0xC8, 0x00, 0x00, 0x00, // 200
        0x2C, 0x01, 0x00, 0x00, // 300
    ];
    assert_eq!(serialized.bytes(), &expected[..]);
}

#[test]
fn owned_decode_fields() {
    let body = EventBodyOwned {
        kind: "CaretMoved".to_owned(),
        detail1: 200,
        detail2: 300,
    };
    let serialized = body.encode(&little_endian()).unwrap();

    let decoded = EventBodyOwned::decode(&serialized).unwrap();
    assert_eq!(decoded.kind, "CaretMoved");
    assert_eq!(decoded.detail1, 200);
    assert_eq!(decoded.detail2, 300);
}

#[test]
fn representation_equivalence() {
    let body = EventBodyOwned {
        kind: "CaretMoved".to_owned(),
        detail1: -7,
        detail2: 2_000_000_000,
    };
    let serialized = body.encode(&little_endian()).unwrap();

    let owned = EventBodyOwned::decode(&serialized).unwrap();
    let borrowed = EventBodyBorrowed::decode(&serialized).unwrap();

    assert_eq!(owned.kind.as_str(), borrowed.kind);
    assert_eq!(owned.detail1, borrowed.detail1);
    assert_eq!(owned.detail2, borrowed.detail2);
}

#[test]
fn truncated_payload_fails() {
    let body = EventBodyOwned {
        kind: "CaretMoved".to_owned(),
        detail1: 200,
        detail2: 300,
    };
    let serialized = body.encode(&little_endian()).unwrap();
    let truncated = serialized.slice(0..10);

    assert!(EventBodyOwned::decode(&truncated).is_err());
    assert!(EventBodyBorrowed::decode(&truncated).is_err());

    // The tag matches, and conversion still fails.
    let msg = Message {
        member: "CaretMoved".to_owned(),
        body: truncated,
    };
    assert!(CaretMoved::from_message_unchecked(&msg).is_err());
}

#[test]
fn empty_payload_fails() {
    let ctxt = zvariant::serialized::Context::new_dbus(zvariant::Endian::Little, 0);
    let empty = zvariant::serialized::Data::new(Vec::<u8>::new(), ctxt);

    let msg = Message {
        member: "CaretMoved".to_owned(),
        body: empty,
    };
    assert!(CaretMoved::from_message_unchecked(&msg).is_err());
}

#[test]
fn mismatched_field_encoding_fails() {
    // A payload of two integers only: under the expected shape its first
    // bytes read as an oversized string length.
    let ctxt = zvariant::serialized::Context::new_dbus(zvariant::Endian::Little, 0);
    let wrong_shape = zvariant::to_bytes(ctxt, &(200i32, 300i32)).unwrap();

    let msg = Message {
        member: "CaretMoved".to_owned(),
        body: wrong_shape,
    };
    assert!(CaretMoved::from_message_unchecked(&msg).is_err());
}

#[test]
fn big_endian_round_trip() {
    let body = EventBodyOwned {
        kind: "CaretMoved".to_owned(),
        detail1: 200,
        detail2: 300,
    };
    let ctxt = WireContext {
        little_endian: false,
        position: 0,
    };
    let serialized = body.encode(&ctxt).unwrap();
    assert_eq!(&serialized.bytes()[0..4], &[0x00, 0x00, 0x00, 0x0A]);

    let msg = Message {
        member: "CaretMoved".to_owned(),
        body: serialized,
    };
    let moved = CaretMoved::from_message_unchecked(&msg).unwrap();
    assert_eq!(moved.x, 200);
    assert_eq!(moved.y, 300);
}

#[test]
fn wrong_byte_order_fails() {
    let body = EventBodyOwned {
        kind: "CaretMoved".to_owned(),
        detail1: 200,
        detail2: 300,
    };
    let serialized = body.encode(&little_endian()).unwrap();

    // The same bytes under the opposite byte order: the length prefix reads
    // far past the end of the buffer.
    let ctxt = zvariant::serialized::Context::new_dbus(zvariant::Endian::Big, 0);
    let reread = zvariant::serialized::Data::new(serialized.bytes().to_vec(), ctxt);
    assert!(EventBodyOwned::decode(&reread).is_err());
}

#[test]
fn error_message() {
    let e = Error;
    assert_eq!(e.message(), "Devastated");
}
