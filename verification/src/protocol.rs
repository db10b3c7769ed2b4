//! The framed control protocol: one frame is a 13-byte header and a payload.
//!
//! | bytes  | field                                   |
//! |--------|-----------------------------------------|
//! | 0..5   | the magic `WDROP`                       |
//! | 5      | version, `0x01`                         |
//! | 6      | message type                            |
//! | 7..9   | flags, big-endian                       |
//! | 9..13  | payload length, big-endian              |
//! | 13..   | payload                                 |
use crate::buffer;
use crate::text;
use bytes::BytesMut;
use vstd::prelude::*;
use vstd::slice::slice_to_vec;
use vstd::std_specs::convert::{FromSpecImpl, TryFromSpecImpl};

verus! {

/// ASCII magic bytes that open every WaterDrop frame.
pub const MAGIC: [u8; 5] = [0x57, 0x44, 0x52, 0x4F, 0x50];

/// Protocol version understood by this build.
pub const VERSION: u8 = 0x01;

/// Total header size: magic(5) + version(1) + type(1) + flags(2) + length(4).
pub const HEADER_LEN: usize = 13;

/// Upper bound on a single frame payload.
pub const MAX_PAYLOAD_LEN: usize = 65536;

/// Protocol-level message types.
#[derive(Debug, Clone, Copy, PartialEq, Eq, Structural)]
pub enum MessageType {
    Hello,
    HelloAck,
    PairWithCode,
    PairWithPassword,
    PairResult,
    TransferOffer,
    TransferDecision,
    TransferDone,
    Error,
}

/// Why a run of bytes is not a frame.
#[derive(Debug, Clone, Copy, PartialEq, Eq, Structural)]
pub enum FrameError {
    /// The bytes do not open with the magic.
    BadMagic,
    /// The version byte is not the one this build understands.
    UnsupportedVersion(u8),
    /// No message type has this code.
    UnknownMessageType(u8),
    /// The header announces a payload of this many bytes, over [`MAX_PAYLOAD_LEN`].
    PayloadTooLarge(u32),
}

impl MessageType {
    /// The code of a message type on the wire.
    pub open spec fn code(self) -> u8 {
        match self {
            MessageType::Hello => 0x01,
            MessageType::HelloAck => 0x02,
            MessageType::PairWithCode => 0x10,
            MessageType::PairWithPassword => 0x11,
            MessageType::PairResult => 0x12,
            MessageType::TransferOffer => 0x20,
            MessageType::TransferDecision => 0x21,
            MessageType::TransferDone => 0x30,
            MessageType::Error => 0x7F,
        }
    }

    /// The message type that a code stands for, if any.
    pub open spec fn of_code(code: u8) -> Option<MessageType> {
        if exists|t: MessageType| t.code() == code {
            Some(choose|t: MessageType| t.code() == code)
        } else {
            None
        }
    }
}

impl FromSpecImpl<MessageType> for u8 {
    open spec fn obeys_from_spec() -> bool {
        true
    }

    open spec fn from_spec(mt: MessageType) -> u8 {
        mt.code()
    }
}

impl From<MessageType> for u8 {
    fn from(mt: MessageType) -> (code: u8) {
        match mt {
            MessageType::Hello => 0x01,
            MessageType::HelloAck => 0x02,
            MessageType::PairWithCode => 0x10,
            MessageType::PairWithPassword => 0x11,
            MessageType::PairResult => 0x12,
            MessageType::TransferOffer => 0x20,
            MessageType::TransferDecision => 0x21,
            MessageType::TransferDone => 0x30,
            MessageType::Error => 0x7F,
        }
    }
}

impl TryFromSpecImpl<u8> for MessageType {
    open spec fn obeys_try_from_spec() -> bool {
        true
    }

    open spec fn try_from_spec(value: u8) -> Result<Self, FrameError> {
        match MessageType::of_code(value) {
            Some(t) => Ok(t),
            None => Err(FrameError::UnknownMessageType(value)),
        }
    }
}

impl TryFrom<u8> for MessageType {
    type Error = FrameError;

    fn try_from(value: u8) -> (r: Result<Self, FrameError>) {
        proof {
            lemma_codes_differ();
        }
        let known = match value {
            0x01 => MessageType::Hello,
            0x02 => MessageType::HelloAck,
            0x10 => MessageType::PairWithCode,
            0x11 => MessageType::PairWithPassword,
            0x12 => MessageType::PairResult,
            0x20 => MessageType::TransferOffer,
            0x21 => MessageType::TransferDecision,
            0x30 => MessageType::TransferDone,
            0x7F => MessageType::Error,
            other => {
                return Err(FrameError::UnknownMessageType(other));
            },
        };
        assert(known.code() == value);
        Ok(known)
    }
}

/// No two message types share a code.
pub proof fn lemma_codes_differ()
    ensures
        forall|a: MessageType, b: MessageType| #![trigger a.code(), b.code()] a.code() == b.code() ==> a == b,
{
}

impl MessageType {
    /// The name of a message type, as diagnostics show it.
    pub open spec fn name_spec(self) -> Seq<char> {
        match self {
            MessageType::Hello => "Hello"@,
            MessageType::HelloAck => "HelloAck"@,
            MessageType::PairWithCode => "PairWithCode"@,
            MessageType::PairWithPassword => "PairWithPassword"@,
            MessageType::PairResult => "PairResult"@,
            MessageType::TransferOffer => "TransferOffer"@,
            MessageType::TransferDecision => "TransferDecision"@,
            MessageType::TransferDone => "TransferDone"@,
            MessageType::Error => "Error"@,
        }
    }

    /// The name of the message type, as diagnostics show it.
    pub fn name(self) -> (name: &'static str)
        ensures
            name@ == self.name_spec(),
    {
        match self {
            MessageType::Hello => "Hello",
            MessageType::HelloAck => "HelloAck",
            MessageType::PairWithCode => "PairWithCode",
            MessageType::PairWithPassword => "PairWithPassword",
            MessageType::PairResult => "PairResult",
            MessageType::TransferOffer => "TransferOffer",
            MessageType::TransferDecision => "TransferDecision",
            MessageType::TransferDone => "TransferDone",
            MessageType::Error => "Error",
        }
    }
}

impl FrameError {
    /// The violation in words.
    pub open spec fn message(self) -> Seq<char> {
        match self {
            FrameError::BadMagic => "bad magic: expected WDROP"@,
            FrameError::UnsupportedVersion(v) => "unsupported version: "@ + text::hex_byte(v),
            FrameError::UnknownMessageType(t) => "unknown message type: "@ + text::hex_byte(t),
            FrameError::PayloadTooLarge(n) => "payload too large: "@ + text::decimal(n as nat)
                + " bytes (max "@ + text::decimal(MAX_PAYLOAD_LEN as nat) + ")"@,
        }
    }

    /// The violation in words.
    pub fn to_string(&self) -> (s: String)
        ensures
            s@ == self.message(),
    {
        match self {
            FrameError::BadMagic => String::from_str("bad magic: expected WDROP"),
            FrameError::UnsupportedVersion(v) => String::from_str("unsupported version: ").concat(
                text::hex_byte_string(*v).as_str(),
            ),
            FrameError::UnknownMessageType(t) => String::from_str("unknown message type: ").concat(
                text::hex_byte_string(*t).as_str(),
            ),
            FrameError::PayloadTooLarge(n) => {
                let mut s = String::from_str("payload too large: ");
                text::push_decimal(&mut s, *n as u64);
                s.append(" bytes (max ");
                text::push_decimal(&mut s, MAX_PAYLOAD_LEN as u64);
                s.append(")");
                s
            },
        }
    }
}

/// Decoded frame header.
#[derive(Debug, Clone, Copy, PartialEq, Eq, Structural)]
pub struct Header {
    pub version: u8,
    pub msg_type: MessageType,
    /// Reserved flags.
    pub flags: u16,
    pub payload_length: u32,
}

/// A fully decoded control frame (header + payload).
#[derive(Debug, Clone)]
pub struct Frame {
    pub header: Header,
    pub payload: Vec<u8>,
}

/// A frame as a mathematical value.
pub struct FrameView {
    pub header: Header,
    pub payload: Seq<u8>,
}

impl View for Frame {
    type V = FrameView;

    open spec fn view(&self) -> FrameView {
        FrameView { header: self.header, payload: self.payload@ }
    }
}

/// What the front of a run of bytes amounts to.
pub enum Front {
    /// A frame may start here, and more bytes are needed to tell.
    Incomplete,
    /// No frame starts here.
    Violation(FrameError),
    /// A whole frame, and the number of bytes it takes.
    Complete(FrameView, nat),
}

/// The number that two bytes stand for, the more significant one first.
pub open spec fn be_u16(hi: u8, lo: u8) -> u16 {
    (hi * 0x100 + lo) as u16
}

/// The number that four bytes stand for, the most significant one first.
pub open spec fn be_u32(b3: u8, b2: u8, b1: u8, b0: u8) -> u32 {
    (b3 * 0x100_0000 + b2 * 0x1_0000 + b1 * 0x100 + b0) as u32
}

/// Reads the front of `s` as a frame. A header that is not whole is never judged;
/// of a whole header the fields are judged in the order in which they stand.
pub open spec fn front(s: Seq<u8>) -> Front {
    if s.len() < HEADER_LEN {
        Front::Incomplete
    } else if s.take(5) != MAGIC@ {
        Front::Violation(FrameError::BadMagic)
    } else if s[5] != VERSION {
        Front::Violation(FrameError::UnsupportedVersion(s[5]))
    } else {
        match MessageType::of_code(s[6]) {
            None => Front::Violation(FrameError::UnknownMessageType(s[6])),
            Some(msg_type) => {
                let len = be_u32(s[9], s[10], s[11], s[12]);
                if len > MAX_PAYLOAD_LEN {
                    Front::Violation(FrameError::PayloadTooLarge(len))
                } else if s.len() < HEADER_LEN + len {
                    Front::Incomplete
                } else {
                    Front::Complete(
                        FrameView {
                            header: Header {
                                version: VERSION,
                                msg_type,
                                flags: be_u16(s[7], s[8]),
                                payload_length: len,
                            },
                            payload: s.subrange(HEADER_LEN as int, HEADER_LEN + len),
                        },
                        (HEADER_LEN + len) as nat,
                    )
                }
            },
        }
    }
}

/// The bytes of the frame that carries `payload`. The length field keeps the low
/// 32 bits of the payload's length.
pub open spec fn frame_bytes(msg_type: MessageType, payload: Seq<u8>) -> Seq<u8> {
    MAGIC@ + seq![VERSION, msg_type.code()] + buffer::be_bytes_u16(0) + buffer::be_bytes_u32(
        (payload.len() % 0x1_0000_0000) as u32,
    ) + payload
}

/// Attempts to decode one complete frame from the front of `buf`.
///
/// * `Ok(Some(frame))`: a full frame was present, and its bytes have been taken out
///   of `buf`.
/// * `Ok(None)`: not enough bytes yet, and `buf` is left untouched.
/// * `Err(..)`: a protocol violation, and `buf` is left untouched. The caller should
///   close the connection.
pub fn try_decode_frame(buf: &mut BytesMut) -> (r: Result<Option<Frame>, FrameError>)
    ensures
        match front(buffer::buffered(*old(buf))) {
            Front::Incomplete => r == Ok::<Option<Frame>, FrameError>(None) && buffer::buffered(*final(buf))
                == buffer::buffered(*old(buf)),
            Front::Violation(e) => r == Err::<Option<Frame>, FrameError>(e) && buffer::buffered(*final(buf))
                == buffer::buffered(*old(buf)),
            Front::Complete(frame, len) => {
                &&& r matches Ok(Some(f)) && f@ == frame
                &&& buffer::buffered(*final(buf)) == buffer::buffered(*old(buf)).skip(len as int)
            },
        },
{
    let ghost start = buffer::buffered(*buf);
    if buf.len() < HEADER_LEN {
        return Ok(None);
    }
    let head = buffer::as_slice(buf);
    let magic_ok = head[0] == MAGIC[0] && head[1] == MAGIC[1] && head[2] == MAGIC[2] && head[3]
        == MAGIC[3] && head[4] == MAGIC[4];
    assert(magic_ok <==> start.take(5) == MAGIC@) by {
        assert forall|i: int| 0 <= i < 5 implies start.take(5)[i] == start[i] by {}
        if magic_ok {
            assert(start.take(5) =~= MAGIC@);
        } else if start.take(5) == MAGIC@ {
            assert(start.take(5)[0] == MAGIC@[0]);
            assert(start.take(5)[1] == MAGIC@[1]);
            assert(start.take(5)[2] == MAGIC@[2]);
            assert(start.take(5)[3] == MAGIC@[3]);
            assert(start.take(5)[4] == MAGIC@[4]);
        }
    }
    if !magic_ok {
        return Err(FrameError::BadMagic);
    }
    let version: u8 = head[5];
    if version != VERSION {
        return Err(FrameError::UnsupportedVersion(version));
    }
    let msg_type = match MessageType::try_from(head[6]) {
        Ok(t) => t,
        Err(e) => {
            return Err(e);
        },
    };
    let flags: u16 = head[7] as u16 * 0x100 + head[8] as u16;
    let payload_len: u32 = head[9] as u32 * 0x100_0000 + head[10] as u32 * 0x1_0000 + head[11] as u32
        * 0x100 + head[12] as u32;
    if payload_len as usize > MAX_PAYLOAD_LEN {
        return Err(FrameError::PayloadTooLarge(payload_len));
    }
    if buf.len() < HEADER_LEN + payload_len as usize {
        return Ok(None);
    }
    buffer::advance(buf, HEADER_LEN);
    let taken = buf.split_to(payload_len as usize);
    let payload = slice_to_vec(buffer::as_slice(&taken));
    proof {
        assert(start.skip(HEADER_LEN as int).take(payload_len as int) =~= start.subrange(
            HEADER_LEN as int,
            HEADER_LEN + payload_len,
        ));
        assert(start.skip(HEADER_LEN as int).skip(payload_len as int) =~= start.skip(
            HEADER_LEN + payload_len,
        ));
    }
    Ok(Some(Frame { header: Header { version, msg_type, flags, payload_length: payload_len }, payload }))
}

/// Appends the frame that carries `payload` to `buf`.
pub fn encode_frame(msg_type: MessageType, payload: &[u8], buf: &mut BytesMut)
    requires
        buffer::buffered(*old(buf)).len() + HEADER_LEN + payload@.len() <= isize::MAX,
    ensures
        buffer::buffered(*final(buf)) == buffer::buffered(*old(buf)) + frame_bytes(msg_type, payload@),
{
    let ghost start = buffer::buffered(*buf);
    buf.reserve(HEADER_LEN + payload.len());
    buffer::put_slice(buf, &MAGIC);
    buffer::put_u8(buf, VERSION);
    buffer::put_u8(buf, u8::from(msg_type));
    buffer::put_u16(buf, 0x0000);
    let len: u32 = (payload.len() as u64 % 0x1_0000_0000) as u32;
    buffer::put_u32(buf, len);
    buffer::put_slice(buf, payload);
    assert(buffer::buffered(*buf) =~= start + frame_bytes(msg_type, payload@));
}

/// Returns the frame that carries `payload` in a new buffer.
#[must_use]
pub fn encode_frame_to_bytes(msg_type: MessageType, payload: &[u8]) -> (buf: BytesMut)
    requires
        HEADER_LEN + payload@.len() <= isize::MAX,
    ensures
        buffer::buffered(buf) == frame_bytes(msg_type, payload@),
{
    let mut buf = BytesMut::with_capacity(HEADER_LEN + payload.len());
    encode_frame(msg_type, payload, &mut buf);
    buf
}

// ── Payloads ─────────────────────────────────────────────────────────

/// Payload of [`MessageType::Hello`] (sender to receiver): who is calling.
#[derive(Debug, Clone, PartialEq, Eq)]
pub struct HelloPayload {
    pub device_name: String,
}

/// Payload of [`MessageType::HelloAck`] (receiver to sender).
#[derive(Debug, Clone, PartialEq, Eq)]
pub struct HelloAckPayload {
    pub ok: bool,
    pub device_name: String,
}

/// Payload of [`MessageType::TransferOffer`] (sender to receiver).
#[derive(Debug, PartialEq, Eq)]
pub struct TransferOfferPayload {
    pub transfer_id: String,
    pub filename: String,
    pub size_bytes: u64,
    pub sha256_hex: String,
}

/// Payload of [`MessageType::TransferDecision`] (receiver to sender).
#[derive(Debug, Clone, PartialEq, Eq)]
pub struct TransferDecisionPayload {
    pub transfer_id: String,
    pub accept: bool,
}

/// Payload of [`MessageType::TransferDone`] (receiver to sender).
#[derive(Debug, Clone, PartialEq, Eq)]
pub struct TransferDonePayload {
    pub transfer_id: String,
    pub ok: bool,
    /// The name that the file was stored under.
    pub stored_filename: Option<String>,
    /// Why the transfer failed.
    pub reason: Option<String>,
}

/// Payload of [`MessageType::Error`] (either direction).
#[derive(Debug, Clone, PartialEq, Eq)]
pub struct ErrorPayload {
    pub code: String,
    pub message: String,
}

impl Clone for TransferOfferPayload {
    fn clone(&self) -> (r: Self)
        ensures
            r == *self,
    {
        TransferOfferPayload {
            transfer_id: self.transfer_id.clone(),
            filename: self.filename.clone(),
            size_bytes: self.size_bytes,
            sha256_hex: self.sha256_hex.clone(),
        }
    }
}

/// A [`TransferOfferPayload`] as a mathematical value.
#[verifier::ext_equal]
pub struct OfferView {
    pub transfer_id: Seq<char>,
    pub filename: Seq<char>,
    pub size_bytes: u64,
    pub sha256_hex: Seq<char>,
}

/// The text in an optional string.
pub open spec fn opt_view(s: Option<String>) -> Option<Seq<char>> {
    match s {
        Some(s) => Some(s@),
        None => None,
    }
}

impl View for TransferOfferPayload {
    type V = OfferView;

    open spec fn view(&self) -> OfferView {
        OfferView {
            transfer_id: self.transfer_id@,
            filename: self.filename@,
            size_bytes: self.size_bytes,
            sha256_hex: self.sha256_hex@,
        }
    }
}

/// A control message: the payload of a frame, by message type.
#[derive(Debug, Clone)]
pub enum Message {
    Hello(HelloPayload),
    HelloAck(HelloAckPayload),
    TransferOffer(TransferOfferPayload),
    TransferDecision(TransferDecisionPayload),
    TransferDone(TransferDonePayload),
    Error(ErrorPayload),
}

/// A [`Message`] as a mathematical value.
#[verifier::ext_equal]
pub enum MessageView {
    Hello { device_name: Seq<char> },
    HelloAck { ok: bool, device_name: Seq<char> },
    TransferOffer { offer: OfferView },
    TransferDecision { transfer_id: Seq<char>, accept: bool },
    TransferDone {
        transfer_id: Seq<char>,
        ok: bool,
        stored_filename: Option<Seq<char>>,
        reason: Option<Seq<char>>,
    },
    Error { code: Seq<char>, message: Seq<char> },
}

impl View for Message {
    type V = MessageView;

    open spec fn view(&self) -> MessageView {
        match self {
            Message::Hello(p) => MessageView::Hello { device_name: p.device_name@ },
            Message::HelloAck(p) => MessageView::HelloAck {
                ok: p.ok,
                device_name: p.device_name@,
            },
            Message::TransferOffer(p) => MessageView::TransferOffer { offer: p@ },
            Message::TransferDecision(p) => MessageView::TransferDecision {
                transfer_id: p.transfer_id@,
                accept: p.accept,
            },
            Message::TransferDone(p) => MessageView::TransferDone {
                transfer_id: p.transfer_id@,
                ok: p.ok,
                stored_filename: opt_view(p.stored_filename),
                reason: opt_view(p.reason),
            },
            Message::Error(p) => MessageView::Error { code: p.code@, message: p.message@ },
        }
    }
}

impl MessageView {
    /// The message type of the frame that carries the message.
    pub open spec fn msg_type(self) -> MessageType {
        match self {
            MessageView::Hello { .. } => MessageType::Hello,
            MessageView::HelloAck { .. } => MessageType::HelloAck,
            MessageView::TransferOffer { .. } => MessageType::TransferOffer,
            MessageView::TransferDecision { .. } => MessageType::TransferDecision,
            MessageView::TransferDone { .. } => MessageType::TransferDone,
            MessageView::Error { .. } => MessageType::Error,
        }
    }
}

impl Message {
    /// The message type of the frame that carries the message.
    pub fn msg_type(&self) -> (t: MessageType)
        ensures
            t == self@.msg_type(),
    {
        match self {
            Message::Hello(_) => MessageType::Hello,
            Message::HelloAck(_) => MessageType::HelloAck,
            Message::TransferOffer(_) => MessageType::TransferOffer,
            Message::TransferDecision(_) => MessageType::TransferDecision,
            Message::TransferDone(_) => MessageType::TransferDone,
            Message::Error(_) => MessageType::Error,
        }
    }
}

/// A JSON error of the `serde_json` crate, carried through as it is.
#[verifier::external_type_specification]
#[verifier::external_body]
pub struct ExJsonError(serde_json::Error);

/// Puts a payload that was serialised to JSON into a frame. Where serialising failed,
/// that error is handed on and there is no frame.
pub fn encode_payload_frame(
    msg_type: MessageType,
    json: Result<Vec<u8>, serde_json::Error>,
) -> (r: Result<BytesMut, serde_json::Error>)
    requires
        json matches Ok(bytes) ==> HEADER_LEN + bytes@.len() <= isize::MAX,
    ensures
        match json {
            Ok(bytes) => r matches Ok(buf) && buffer::buffered(buf) == frame_bytes(msg_type, bytes@),
            Err(e) => r == Err::<BytesMut, serde_json::Error>(e),
        },
{
    match json {
        Ok(bytes) => Ok(encode_frame_to_bytes(msg_type, bytes.as_slice())),
        Err(e) => Err(e),
    }
}

/// A code and its message type determine each other: every type is found again by
/// its code, and a code that is found belongs to the type found.
pub proof fn law_type_codes_round_trip(t: MessageType, code: u8)
    ensures
        MessageType::of_code(t.code()) == Some(t),
        MessageType::of_code(code) matches Some(found) ==> found.code() == code,
{
    lemma_codes_differ();
}

/// The fields of an encoded frame, read back one by one.
proof fn lemma_frame_fields(msg_type: MessageType, payload: Seq<u8>, rest: Seq<u8>)
    ensures
        ({
            let s = frame_bytes(msg_type, payload) + rest;
            &&& s.len() == HEADER_LEN + payload.len() + rest.len()
            &&& s.take(5) == MAGIC@
            &&& s[5] == VERSION
            &&& s[6] == msg_type.code()
            &&& be_u16(s[7], s[8]) == 0
            &&& be_u32(s[9], s[10], s[11], s[12]) == payload.len() % 0x1_0000_0000
        }),
{
    let s = frame_bytes(msg_type, payload) + rest;
    assert(s.take(5) =~= MAGIC@);
}

/// Whatever follows it, an encoded frame is decoded to the message type and payload
/// that it was made of, and exactly its own bytes are consumed.
pub proof fn law_decode_inverts_encode(msg_type: MessageType, payload: Seq<u8>, rest: Seq<u8>)
    requires
        payload.len() <= MAX_PAYLOAD_LEN,
    ensures
        front(frame_bytes(msg_type, payload) + rest) == Front::Complete(
            FrameView {
                header: Header {
                    version: VERSION,
                    msg_type,
                    flags: 0,
                    payload_length: payload.len() as u32,
                },
                payload,
            },
            (HEADER_LEN + payload.len()) as nat,
        ),
        (frame_bytes(msg_type, payload) + rest).skip((HEADER_LEN + payload.len()) as int) == rest,
{
    let s = frame_bytes(msg_type, payload) + rest;
    lemma_frame_fields(msg_type, payload, rest);
    law_type_codes_round_trip(msg_type, 0);
    assert(s.subrange(HEADER_LEN as int, HEADER_LEN + payload.len()) =~= payload);
    assert(s.skip((HEADER_LEN + payload.len()) as int) =~= rest);
}

/// A frame that has not wholly arrived is waited for: no proper prefix of an encoded
/// frame is decoded or refused.
pub proof fn law_prefix_of_frame_is_incomplete(msg_type: MessageType, payload: Seq<u8>, n: int)
    requires
        payload.len() <= MAX_PAYLOAD_LEN,
        0 <= n < frame_bytes(msg_type, payload).len(),
    ensures
        front(frame_bytes(msg_type, payload).take(n)) == Front::Incomplete,
{
    let whole = frame_bytes(msg_type, payload);
    lemma_frame_fields(msg_type, payload, Seq::empty());
    law_type_codes_round_trip(msg_type, 0);
    assert(whole + Seq::<u8>::empty() =~= whole);
    if n >= HEADER_LEN {
        assert(whole.take(n).take(5) =~= whole.take(5));
    }
}

/// A payload over the limit is refused by the receiving side as soon as the header is
/// there.
pub proof fn law_oversized_payload_is_refused(msg_type: MessageType, payload: Seq<u8>, n: int)
    requires
        MAX_PAYLOAD_LEN < payload.len() < 0x1_0000_0000,
        HEADER_LEN <= n <= frame_bytes(msg_type, payload).len(),
    ensures
        front(frame_bytes(msg_type, payload).take(n)) == Front::Violation(
            FrameError::PayloadTooLarge(payload.len() as u32),
        ),
{
    let whole = frame_bytes(msg_type, payload);
    lemma_frame_fields(msg_type, payload, Seq::empty());
    law_type_codes_round_trip(msg_type, 0);
    assert(whole + Seq::<u8>::empty() =~= whole);
    assert(whole.take(n).take(5) =~= whole.take(5));
}

/// Once the front of a stream is a frame or a violation, bytes that arrive later
/// change nothing about it.
pub proof fn law_later_bytes_change_nothing(s: Seq<u8>, later: Seq<u8>)
    requires
        front(s) != Front::Incomplete,
    ensures
        front(s + later) == front(s),
{
    let t = s + later;
    assert(t.take(5) =~= s.take(5));
    let len = be_u32(s[9], s[10], s[11], s[12]);
    if s.len() >= HEADER_LEN + len {
        assert(t.subrange(HEADER_LEN as int, HEADER_LEN + len) =~= s.subrange(
            HEADER_LEN as int,
            HEADER_LEN + len,
        ));
    }
}

/// Four bytes, read as a number and written again, are themselves.
proof fn lemma_be_u32_round_trip(b3: u8, b2: u8, b1: u8, b0: u8)
    ensures
        buffer::be_bytes_u32(be_u32(b3, b2, b1, b0)) == seq![b3, b2, b1, b0],
{
    let n = be_u32(b3, b2, b1, b0);
    assert(n == b3 * 0x100_0000 + b2 * 0x1_0000 + b1 * 0x100 + b0);
    assert(n / 0x100 == b3 * 0x1_0000 + b2 * 0x100 + b1);
    assert(n / 0x1_0000 == b3 * 0x100 + b2);
    assert(n / 0x100_0000 == b3);
    assert(buffer::be_bytes_u32(n) =~= seq![b3, b2, b1, b0]);
}

/// What is consumed for a decoded frame without flags is that frame, encoded.
pub proof fn law_encode_inverts_decode(s: Seq<u8>)
    requires
        front(s) matches Front::Complete(frame, _) && frame.header.flags == 0,
    ensures
        front(s) matches Front::Complete(frame, len) && s.take(len as int) == frame_bytes(
            frame.header.msg_type,
            frame.payload,
        ),
{
    let frame = front(s)->Complete_0;
    let len = front(s)->Complete_1;
    law_type_codes_round_trip(frame.header.msg_type, s[6]);
    lemma_be_u32_round_trip(s[9], s[10], s[11], s[12]);
    let length_field = seq![s[9], s[10], s[11], s[12]];
    assert(frame.payload.len() == be_u32(s[9], s[10], s[11], s[12]));
    assert(frame_bytes(frame.header.msg_type, frame.payload) == s.take(5) + seq![s[5], s[6]]
        + buffer::be_bytes_u16(0) + length_field + frame.payload);
    assert(buffer::be_bytes_u16(0) =~= seq![s[7], s[8]]);
    assert(s.take(len as int) =~= s.take(5) + seq![s[5], s[6]] + seq![s[7], s[8]] + length_field
        + frame.payload);
}

/// The bytes of several frames, one after the other.
pub open spec fn stream_bytes(frames: Seq<(MessageType, Seq<u8>)>) -> Seq<u8>
    decreases frames.len(),
{
    if frames.len() == 0 {
        Seq::empty()
    } else {
        frame_bytes(frames[0].0, frames[0].1) + stream_bytes(frames.skip(1))
    }
}

/// The frames that decoding over and over takes off the front of a stream, until the
/// front is no whole frame.
pub open spec fn decoded_frames(s: Seq<u8>) -> Seq<(MessageType, Seq<u8>)>
    decreases s.len(),
{
    match front(s) {
        Front::Complete(frame, len) => seq![(frame.header.msg_type, frame.payload)]
            + decoded_frames(s.skip(len as int)),
        _ => Seq::empty(),
    }
}

/// Frames come out of a stream as they went in: all of them, in order, however many
/// were sent back to back.
pub proof fn law_stream_of_frames_decodes_in_order(frames: Seq<(MessageType, Seq<u8>)>)
    requires
        forall|i: int| 0 <= i < frames.len() ==> (#[trigger] frames[i]).1.len() <= MAX_PAYLOAD_LEN,
    ensures
        decoded_frames(stream_bytes(frames)) == frames,
    decreases frames.len(),
{
    if frames.len() > 0 {
        let rest = frames.skip(1);
        law_decode_inverts_encode(frames[0].0, frames[0].1, stream_bytes(rest));
        law_stream_of_frames_decodes_in_order(rest);
        assert(seq![frames[0]] + rest =~= frames);
    }
}

/// What is left of a stream when all whole frames have been taken off its front.
pub open spec fn remainder(s: Seq<u8>) -> Seq<u8>
    decreases s.len(),
{
    match front(s) {
        Front::Complete(_, len) => remainder(s.skip(len as int)),
        _ => s,
    }
}

/// It does not matter in which pieces a stream arrives: taking the frames off the first
/// part, and then off what is left of it with the second part behind, gives the frames of
/// the whole.
pub proof fn law_pieces_do_not_matter(first: Seq<u8>, second: Seq<u8>)
    ensures
        decoded_frames(first + second) == decoded_frames(first) + decoded_frames(
            remainder(first) + second,
        ),
        remainder(first + second) == remainder(remainder(first) + second),
    decreases first.len(),
{
    match front(first) {
        Front::Complete(frame, len) => {
            let rest = first.skip(len as int);
            law_later_bytes_change_nothing(first, second);
            assert((first + second).skip(len as int) =~= rest + second);
            law_pieces_do_not_matter(rest, second);
            let head = seq![(frame.header.msg_type, frame.payload)];
            assert(head + (decoded_frames(rest) + decoded_frames(remainder(rest) + second))
                =~= (head + decoded_frames(rest)) + decoded_frames(remainder(rest) + second));
        },
        _ => {
            assert(decoded_frames(first) =~= Seq::empty());
            assert(Seq::<(MessageType, Seq<u8>)>::empty() + decoded_frames(first + second)
                =~= decoded_frames(first + second));
        },
    }
}

// ── What is on the wire ─────────────────────────────────────────────

/// The codes of the message types, as every peer knows them.
pub proof fn law_codes_are_those_of_the_wire(t: MessageType)
    ensures
        t is Hello <==> t.code() == 0x01,
        t is HelloAck <==> t.code() == 0x02,
        t is PairWithCode <==> t.code() == 0x10,
        t is PairWithPassword <==> t.code() == 0x11,
        t is PairResult <==> t.code() == 0x12,
        t is TransferOffer <==> t.code() == 0x20,
        t is TransferDecision <==> t.code() == 0x21,
        t is TransferDone <==> t.code() == 0x30,
        t is Error <==> t.code() == 0x7F,
{
}

/// The names of the message types, as diagnostics show them.
pub proof fn law_types_are_called_by_their_names(t: MessageType)
    ensures
        t is Hello ==> t.name_spec() == "Hello"@,
        t is HelloAck ==> t.name_spec() == "HelloAck"@,
        t is PairWithCode ==> t.name_spec() == "PairWithCode"@,
        t is PairWithPassword ==> t.name_spec() == "PairWithPassword"@,
        t is PairResult ==> t.name_spec() == "PairResult"@,
        t is TransferOffer ==> t.name_spec() == "TransferOffer"@,
        t is TransferDecision ==> t.name_spec() == "TransferDecision"@,
        t is TransferDone ==> t.name_spec() == "TransferDone"@,
        t is Error ==> t.name_spec() == "Error"@,
{
}

/// The layout of a frame: five letters, the version, the type, two zeros, the length of the
/// payload in four bytes with the most significant one first, and the payload.
pub proof fn law_frame_is_laid_out(msg_type: MessageType, payload: Seq<u8>)
    requires
        payload.len() < 0x1_0000_0000,
    ensures
        ({
            let s = frame_bytes(msg_type, payload);
            &&& s.len() == 13 + payload.len()
            &&& s[0] == 0x57 && s[1] == 0x44 && s[2] == 0x52 && s[3] == 0x4F && s[4] == 0x50
            &&& s[5] == 0x01
            &&& s[6] == msg_type.code()
            &&& s[7] == 0 && s[8] == 0
            &&& s[9] * 0x100_0000 + s[10] * 0x1_0000 + s[11] * 0x100 + s[12] == payload.len()
            &&& s.skip(13) == payload
        }),
{
    let s = frame_bytes(msg_type, payload);
    let none = Seq::<u8>::empty();
    lemma_frame_fields(msg_type, payload, none);
    assert(s + none =~= s);
    assert(s.skip(13) =~= payload);
}

/// How the front of a stream is read, field by field. Nothing is judged before the header is
/// whole; then the first field that is wrong decides, and a frame whose payload is not all
/// there is waited for. What is read of a whole frame is what its bytes say.
pub proof fn law_fields_are_judged_in_order(s: Seq<u8>)
    ensures
        s.len() < 13 ==> front(s) is Incomplete,
        s.len() >= 13 ==> {
            let magic = s[0] == 0x57 && s[1] == 0x44 && s[2] == 0x52 && s[3] == 0x4F && s[4]
                == 0x50;
            let known = exists|t: MessageType| t.code() == s[6];
            let len = s[9] * 0x100_0000 + s[10] * 0x1_0000 + s[11] * 0x100 + s[12];
            if !magic {
                front(s) == Front::Violation(FrameError::BadMagic)
            } else if s[5] != 0x01 {
                front(s) == Front::Violation(FrameError::UnsupportedVersion(s[5]))
            } else if !known {
                front(s) == Front::Violation(FrameError::UnknownMessageType(s[6]))
            } else if len > 65536 {
                front(s) == Front::Violation(FrameError::PayloadTooLarge(len as u32))
            } else if s.len() < 13 + len {
                front(s) is Incomplete
            } else {
                &&& front(s) matches Front::Complete(frame, taken)
                &&& taken == 13 + len
                &&& frame.header.version == 0x01
                &&& frame.header.msg_type.code() == s[6]
                &&& frame.header.flags == s[7] * 0x100 + s[8]
                &&& frame.header.payload_length == len
                &&& frame.payload == s.subrange(13, 13 + len)
            }
        },
{
    if s.len() >= 13 {
        let magic = s[0] == 0x57 && s[1] == 0x44 && s[2] == 0x52 && s[3] == 0x4F && s[4] == 0x50;
        assert(magic <==> s.take(5) == MAGIC@) by {
            if magic {
                assert(s.take(5) =~= MAGIC@);
            } else if s.take(5) == MAGIC@ {
                assert(s.take(5)[0] == MAGIC@[0]);
                assert(s.take(5)[1] == MAGIC@[1]);
                assert(s.take(5)[2] == MAGIC@[2]);
                assert(s.take(5)[3] == MAGIC@[3]);
                assert(s.take(5)[4] == MAGIC@[4]);
            }
        }
    }
}

/// A violation in words: it names the byte that is wrong, or how long the payload would be.
pub proof fn law_violations_are_told(b: u8, len: u32)
    ensures
        FrameError::BadMagic.message() == "bad magic: expected WDROP"@,
        FrameError::UnsupportedVersion(b).message() == "unsupported version: "@ + text::hex_byte(b),
        FrameError::UnknownMessageType(b).message() == "unknown message type: "@ + text::hex_byte(
            b,
        ),
        FrameError::PayloadTooLarge(len).message() == "payload too large: "@ + text::decimal(
            len as nat,
        ) + " bytes (max "@ + text::decimal(65536) + ")"@,
{
}

/// A message travels in a frame of its own type.
pub proof fn law_messages_travel_under_their_type(m: MessageView)
    ensures
        m is Hello <==> m.msg_type() is Hello,
        m is HelloAck <==> m.msg_type() is HelloAck,
        m is TransferOffer <==> m.msg_type() is TransferOffer,
        m is TransferDecision <==> m.msg_type() is TransferDecision,
        m is TransferDone <==> m.msg_type() is TransferDone,
        m is Error <==> m.msg_type() is Error,
{
}

} // verus!
