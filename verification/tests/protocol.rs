use bytes::BytesMut;
use serde::de::{Error as DeError, MapAccess, Visitor};
use serde::ser::SerializeMap;
use serde::{Deserialize, Deserializer, Serialize, Serializer};
use waterdrop::protocol::{
    encode_frame, encode_frame_to_bytes, encode_payload_frame, try_decode_frame, FrameError,
    HelloPayload, Message, MessageType, TransferOfferPayload, HEADER_LEN, MAX_PAYLOAD_LEN, VERSION,
};

// ── The two payloads on the wire ────────────────────────────────────

#[derive(Debug)]
struct WireHello(HelloPayload);

#[derive(Debug)]
struct WireOffer(TransferOfferPayload);

impl Serialize for WireHello {
    fn serialize<S: Serializer>(&self, s: S) -> Result<S::Ok, S::Error> {
        let mut map = s.serialize_map(Some(1))?;
        map.serialize_entry("device_name", &self.0.device_name)?;
        map.end()
    }
}

impl Serialize for WireOffer {
    fn serialize<S: Serializer>(&self, s: S) -> Result<S::Ok, S::Error> {
        let mut map = s.serialize_map(Some(4))?;
        map.serialize_entry("transfer_id", &self.0.transfer_id)?;
        map.serialize_entry("filename", &self.0.filename)?;
        map.serialize_entry("size_bytes", &self.0.size_bytes)?;
        map.serialize_entry("sha256_hex", &self.0.sha256_hex)?;
        map.end()
    }
}

struct HelloVisitor;

impl<'de> Visitor<'de> for HelloVisitor {
    type Value = WireHello;

    fn expecting(&self, f: &mut std::fmt::Formatter<'_>) -> std::fmt::Result {
        f.write_str("a HELLO payload")
    }

    fn visit_map<A: MapAccess<'de>>(self, mut map: A) -> Result<WireHello, A::Error> {
        let mut device_name: Option<String> = None;
        while let Some(key) = map.next_key::<String>()? {
            if key == "device_name" {
                device_name = Some(map.next_value()?);
            } else {
                map.next_value::<serde::de::IgnoredAny>()?;
            }
        }
        let device_name = device_name.ok_or_else(|| A::Error::missing_field("device_name"))?;
        Ok(WireHello(HelloPayload { device_name }))
    }
}

impl<'de> Deserialize<'de> for WireHello {
    fn deserialize<D: Deserializer<'de>>(d: D) -> Result<Self, D::Error> {
        d.deserialize_map(HelloVisitor)
    }
}

struct OfferVisitor;

impl<'de> Visitor<'de> for OfferVisitor {
    type Value = WireOffer;

    fn expecting(&self, f: &mut std::fmt::Formatter<'_>) -> std::fmt::Result {
        f.write_str("a TRANSFER_OFFER payload")
    }

    fn visit_map<A: MapAccess<'de>>(self, mut map: A) -> Result<WireOffer, A::Error> {
        let mut transfer_id: Option<String> = None;
        let mut filename: Option<String> = None;
        let mut size_bytes: Option<u64> = None;
        let mut sha256_hex: Option<String> = None;
        while let Some(key) = map.next_key::<String>()? {
            match key.as_str() {
                "transfer_id" => transfer_id = Some(map.next_value()?),
                "filename" => filename = Some(map.next_value()?),
                "size_bytes" => size_bytes = Some(map.next_value()?),
                "sha256_hex" => sha256_hex = Some(map.next_value()?),
                _ => {
                    map.next_value::<serde::de::IgnoredAny>()?;
                }
            }
        }
        Ok(WireOffer(TransferOfferPayload {
            transfer_id: transfer_id.ok_or_else(|| A::Error::missing_field("transfer_id"))?,
            filename: filename.ok_or_else(|| A::Error::missing_field("filename"))?,
            size_bytes: size_bytes.ok_or_else(|| A::Error::missing_field("size_bytes"))?,
            sha256_hex: sha256_hex.ok_or_else(|| A::Error::missing_field("sha256_hex"))?,
        }))
    }
}

impl<'de> Deserialize<'de> for WireOffer {
    fn deserialize<D: Deserializer<'de>>(d: D) -> Result<Self, D::Error> {
        d.deserialize_map(OfferVisitor)
    }
}

fn decode_payload<T: for<'de> Deserialize<'de>>(payload: &[u8]) -> Result<T, serde_json::Error> {
    serde_json::from_slice(payload)
}

// ── Frames ──────────────────────────────────────────────────────────

#[test]
fn given_empty_payload_when_round_tripped_then_frame_matches() {
    let encoded = encode_frame_to_bytes(MessageType::Hello, &[]);
    let mut buf = encoded;
    let frame = try_decode_frame(&mut buf).unwrap().unwrap();
    assert_eq!(frame.header.msg_type, MessageType::Hello);
    assert_eq!(frame.header.version, VERSION);
    assert_eq!(frame.header.flags, 0);
    assert_eq!(frame.header.payload_length, 0);
    assert!(frame.payload.is_empty());
    assert!(buf.is_empty());
}

#[test]
fn given_json_payload_when_round_tripped_then_frame_matches() {
    let json = br#"{"device_id":"abc"}"#;
    let encoded = encode_frame_to_bytes(MessageType::TransferOffer, json);
    let mut buf = encoded;
    let frame = try_decode_frame(&mut buf).unwrap().unwrap();
    assert_eq!(frame.header.msg_type, MessageType::TransferOffer);
    let expected_len = json.len() as u32;
    assert_eq!(frame.header.payload_length, expected_len);
    assert_eq!(frame.payload, json);
    assert!(buf.is_empty());
}

#[test]
fn given_partial_header_when_decoded_then_returns_none() {
    let full = encode_frame_to_bytes(MessageType::Hello, b"{}");
    let mut buf = BytesMut::from(&full[..7]);
    assert!(try_decode_frame(&mut buf).unwrap().is_none());
    assert_eq!(&buf[..], &full[..7]);
}

#[test]
fn given_truncated_payload_when_decoded_then_returns_none() {
    let payload = b"hello world";
    let full = encode_frame_to_bytes(MessageType::HelloAck, payload);
    let partial_len = HEADER_LEN + payload.len() / 2;
    let mut buf = BytesMut::from(&full[..partial_len]);
    assert!(try_decode_frame(&mut buf).unwrap().is_none());
    assert_eq!(buf.len(), partial_len);
}

#[test]
fn given_bad_magic_when_decoded_then_returns_error() {
    let mut buf = BytesMut::from(&b"XXXXX\x01\x01\x00\x00\x00\x00\x00\x00"[..]);
    let err = try_decode_frame(&mut buf).unwrap_err();
    assert!(err.to_string().contains("bad magic"));
}

#[test]
fn given_unsupported_version_when_decoded_then_returns_error() {
    let mut buf = BytesMut::from(&b"WDROP\xFF\x01\x00\x00\x00\x00\x00\x00"[..]);
    let err = try_decode_frame(&mut buf).unwrap_err();
    assert!(err.to_string().contains("unsupported version"));
}

#[test]
fn given_unknown_message_type_when_decoded_then_returns_error() {
    let mut buf = BytesMut::from(&b"WDROP\x01\xFE\x00\x00\x00\x00\x00\x00"[..]);
    let err = try_decode_frame(&mut buf).unwrap_err();
    assert!(err.to_string().contains("unknown message type"));
}

#[test]
fn given_all_message_types_when_converted_to_u8_and_back_then_match() {
    let types = [
        (0x01, MessageType::Hello),
        (0x02, MessageType::HelloAck),
        (0x10, MessageType::PairWithCode),
        (0x11, MessageType::PairWithPassword),
        (0x12, MessageType::PairResult),
        (0x20, MessageType::TransferOffer),
        (0x21, MessageType::TransferDecision),
        (0x30, MessageType::TransferDone),
        (0x7F, MessageType::Error),
    ];
    for (code, expected) in types {
        let parsed = MessageType::try_from(code).unwrap();
        assert_eq!(parsed, expected);
        assert_eq!(u8::from(parsed), code);
    }
}

#[test]
fn given_hello_payload_when_encoded_as_frame_then_frame_round_trips() {
    let payload = HelloPayload {
        device_name: "TestDevice".into(),
    };
    let wire = WireHello(payload.clone());
    let frame_bytes = encode_payload_frame(MessageType::Hello, serde_json::to_vec(&wire)).unwrap();
    let mut buf = frame_bytes;
    let frame = try_decode_frame(&mut buf).unwrap().unwrap();
    assert_eq!(frame.header.msg_type, MessageType::Hello);
    let decoded: WireHello = decode_payload(&frame.payload).unwrap();
    assert_eq!(decoded.0, payload);
}

#[test]
fn given_transfer_offer_when_encoded_as_frame_then_frame_round_trips() {
    let payload = TransferOfferPayload {
        transfer_id: "id-42".into(),
        filename: "report.pdf".into(),
        size_bytes: 999_999,
        sha256_hex: "deadbeef".into(),
    };
    let wire = WireOffer(payload.clone());
    let frame_bytes =
        encode_payload_frame(MessageType::TransferOffer, serde_json::to_vec(&wire)).unwrap();
    let mut buf = frame_bytes;
    let frame = try_decode_frame(&mut buf).unwrap().unwrap();
    assert_eq!(frame.header.msg_type, MessageType::TransferOffer);
    let decoded: WireOffer = decode_payload(&frame.payload).unwrap();
    assert_eq!(decoded.0, payload);
}

#[test]
fn given_invalid_json_when_decoded_then_returns_error() {
    let bad_json = b"not json at all";
    let result = decode_payload::<WireHello>(bad_json);
    assert!(result.is_err());
}

#[test]
fn given_wrong_shape_json_when_decoded_then_returns_error() {
    let json = br#"{"device_name":"oops"}"#;
    let result = decode_payload::<WireOffer>(json);
    assert!(result.is_err());
}

#[test]
fn frame_bytes_are_the_documented_ones() {
    let buf = encode_frame_to_bytes(MessageType::TransferDone, b"{}");
    assert_eq!(&buf[..], b"WDROP\x01\x30\x00\x00\x00\x00\x00\x02{}");
}

#[test]
fn length_field_is_big_endian() {
    let payload = vec![7u8; 0x0102];
    let buf = encode_frame_to_bytes(MessageType::Error, &payload);
    assert_eq!(&buf[9..13], &[0, 0, 1, 2]);
}

#[test]
fn flags_are_read_and_handed_on() {
    let mut buf = BytesMut::from(&b"WDROP\x01\x01\x12\x34\x00\x00\x00\x00"[..]);
    let frame = try_decode_frame(&mut buf).unwrap().unwrap();
    assert_eq!(frame.header.flags, 0x1234);
}

#[test]
fn frame_errors_say_what_is_wrong() {
    assert_eq!(FrameError::BadMagic.to_string(), "bad magic: expected WDROP");
    assert_eq!(FrameError::UnsupportedVersion(0xFF).to_string(), "unsupported version: 0xFF");
    assert_eq!(FrameError::UnsupportedVersion(0x0A).to_string(), "unsupported version: 0x0A");
    assert_eq!(FrameError::UnknownMessageType(0xFE).to_string(), "unknown message type: 0xFE");
    assert_eq!(
        FrameError::PayloadTooLarge(65537).to_string(),
        "payload too large: 65537 bytes (max 65536)"
    );
}

#[test]
fn header_fields_are_judged_in_order() {
    let mut both = BytesMut::from(&b"XXXXX\xFF\xFE\x00\x00\xFF\xFF\xFF\xFF"[..]);
    assert_eq!(try_decode_frame(&mut both).unwrap_err(), FrameError::BadMagic);
    let mut version = BytesMut::from(&b"WDROP\x02\xFE\x00\x00\xFF\xFF\xFF\xFF"[..]);
    assert_eq!(try_decode_frame(&mut version).unwrap_err(), FrameError::UnsupportedVersion(2));
    let mut kind = BytesMut::from(&b"WDROP\x01\xFE\x00\x00\xFF\xFF\xFF\xFF"[..]);
    assert_eq!(try_decode_frame(&mut kind).unwrap_err(), FrameError::UnknownMessageType(0xFE));
    let mut size = BytesMut::from(&b"WDROP\x01\x01\x00\x00\xFF\xFF\xFF\xFF"[..]);
    assert_eq!(try_decode_frame(&mut size).unwrap_err(), FrameError::PayloadTooLarge(u32::MAX));
    assert_eq!(size.len(), 13);
}

#[test]
fn largest_payload_passes_and_one_more_byte_is_refused() {
    let mut fits = encode_frame_to_bytes(MessageType::Error, &vec![1u8; MAX_PAYLOAD_LEN]);
    assert_eq!(
        try_decode_frame(&mut fits).unwrap().unwrap().payload.len(),
        MAX_PAYLOAD_LEN
    );
    let mut over = encode_frame_to_bytes(MessageType::Error, &vec![1u8; MAX_PAYLOAD_LEN + 1]);
    assert_eq!(
        try_decode_frame(&mut over).unwrap_err(),
        FrameError::PayloadTooLarge(65537)
    );
}

#[test]
fn frames_come_out_in_order_byte_by_byte() {
    let mut stream = BytesMut::new();
    encode_frame(MessageType::Hello, b"one", &mut stream);
    encode_frame(MessageType::HelloAck, b"", &mut stream);
    encode_frame(MessageType::TransferDone, b"three", &mut stream);
    let mut buf = BytesMut::new();
    let mut seen = Vec::new();
    for byte in stream.iter() {
        buf.extend_from_slice(&[*byte]);
        while let Some(frame) = try_decode_frame(&mut buf).unwrap() {
            seen.push((frame.header.msg_type, frame.payload));
        }
    }
    assert!(buf.is_empty());
    assert_eq!(
        seen,
        vec![
            (MessageType::Hello, b"one".to_vec()),
            (MessageType::HelloAck, Vec::new()),
            (MessageType::TransferDone, b"three".to_vec()),
        ]
    );
}

#[test]
fn bytes_behind_a_frame_are_left_in_the_buffer() {
    let mut buf = encode_frame_to_bytes(MessageType::Hello, b"{}");
    buf.extend_from_slice(b"WDR");
    try_decode_frame(&mut buf).unwrap().unwrap();
    assert_eq!(&buf[..], b"WDR");
}

#[test]
fn failed_serialisation_gives_no_frame() {
    let error = serde_json::from_slice::<serde_json::Value>(b"nonsense").unwrap_err();
    let text = error.to_string();
    let failed = encode_payload_frame(MessageType::Hello, Err(error)).unwrap_err();
    assert_eq!(failed.to_string(), text);
}

#[test]
fn message_types_have_names_and_codes() {
    let hello = Message::Hello(HelloPayload { device_name: "d".into() });
    assert_eq!(hello.msg_type(), MessageType::Hello);
    assert_eq!(MessageType::TransferOffer.name(), "TransferOffer");
    assert_eq!(MessageType::try_from(0x00).unwrap_err(), FrameError::UnknownMessageType(0));
}
