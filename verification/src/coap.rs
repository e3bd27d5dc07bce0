//! The CoAP client core: request construction and response
//! classification.
//!
//! The transport itself (a UDP socket, timeouts, the retry loop) lives
//! outside the verified library; what is verified here is everything
//! the exchange decides on plain values: the token and message-id
//! bookkeeping, which packet of a noisy socket is the acknowledgement
//! or the response of the pending request, and what to answer.  The
//! wire format is `coap_lite`'s business, reached through three trusted
//! wrappers whose results are named, never restated.

use vstd::prelude::*;

use crate::command::{spec_command_request_payload, spec_sensor_data_payload, DataPoint};
use crate::lighttracking::MotorAngles;

verus! {

/// What can go wrong in a request/response exchange.
#[derive(Clone, Copy, Debug, PartialEq, Eq, Structural)]
pub enum CoapError {
    /// The socket failed.
    ConnectionError,
    /// No response arrived in time.
    TimedOut,
    /// A packet arrived that does not parse, or the request itself
    /// could not be encoded.
    InvalidResponse,
}

/// The message type of a parsed packet.
#[derive(Clone, Copy, Debug, PartialEq, Eq, Structural)]
pub enum MessageKind {
    Confirmable,
    NonConfirmable,
    Acknowledgement,
    Reset,
}

/// The fields of a parsed packet that the exchange logic reads.
#[derive(Clone, Debug)]
pub struct PacketFields {
    pub kind: MessageKind,
    pub message_id: u16,
    pub token: Vec<u8>,
    pub payload: Vec<u8>,
}

/// The serialized confirmable request that `coap_lite` builds from a
/// method, a path, a two-byte little-endian token, a message id and a
/// payload: a function of these arguments alone.
pub uninterp spec fn coap_request_bytes(
    post: bool,
    path: Seq<char>,
    token: u16,
    message_id: u16,
    payload: Seq<u8>,
) -> Seq<u8>;

/// The serialized bare acknowledgement that `coap_lite` builds for a
/// message id: a function of the id alone.
pub uninterp spec fn coap_ack_bytes(message_id: u16) -> Seq<u8>;

/// What `coap_lite` parses a byte string into — `None` where it is
/// rejected: a function of the bytes alone.
pub uninterp spec fn coap_parse(bytes: Seq<u8>) -> Option<PacketFields>;

/// Relies on coap_lite: `CoapRequest` construction and
/// `Packet::to_bytes` are deterministic in the method, path, token,
/// message id and payload, so the serialized confirmable request is a
/// function of these arguments alone.  Serialization fails only when
/// the packet would exceed the 1280-byte transport size limit; the
/// packet holds a 4-byte header, the 2-byte token, at most one marker
/// byte, the payload, and per path segment at most three framing bytes
/// plus its UTF-8 content (at most four bytes per character), so the
/// stated bound guarantees success conservatively.
#[verifier::external_body]
fn encode_con_request(post: bool, path: &str, token: u16, message_id: u16, payload: Vec<u8>) -> (r:
    Option<Vec<u8>>)
    ensures
        r matches Some(v) ==> v@ == coap_request_bytes(post, path@, token, message_id, payload@),
        payload@.len() + 16 * path@.len() + 10 <= 1280 ==> r is Some,
{
    let mut request: coap_lite::CoapRequest<()> = coap_lite::CoapRequest::new();
    request.set_method(
        if post {
            coap_lite::RequestType::Post
        } else {
            coap_lite::RequestType::Get
        },
    );
    request.set_path(path);
    request.message.set_token(token.to_le_bytes().to_vec());
    request.message.header.message_id = message_id;
    request.message.header.set_type(coap_lite::MessageType::Confirmable);
    request.message.payload = payload;
    request.message.to_bytes().ok()
}

/// Relies on coap_lite: serializing a bare acknowledgement packet is
/// deterministic in the message id, and always succeeds — the packet
/// is four header bytes, far under the transport size limit, and the
/// size check is the serializer's only failure.
#[verifier::external_body]
fn encode_ack_packet(message_id: u16) -> (r: Option<Vec<u8>>)
    ensures
        r matches Some(v) ==> v@ == coap_ack_bytes(message_id),
        r is Some,
{
    let mut packet = coap_lite::Packet::new();
    packet.header.set_type(coap_lite::MessageType::Acknowledgement);
    packet.header.message_id = message_id;
    packet.to_bytes().ok()
}

/// Relies on coap_lite: `Packet::from_bytes` is deterministic in the
/// bytes, so whether they parse, and the parsed type, message id,
/// token and payload, are a function of the bytes alone.
#[verifier::external_body]
fn parse_packet_bytes(bytes: &Vec<u8>) -> (r: Option<PacketFields>)
    ensures
        r == coap_parse(bytes@),
{
    match coap_lite::Packet::from_bytes(bytes.as_slice()) {
        Ok(p) => {
            let kind = match p.header.get_type() {
                coap_lite::MessageType::Confirmable => MessageKind::Confirmable,
                coap_lite::MessageType::NonConfirmable => MessageKind::NonConfirmable,
                coap_lite::MessageType::Acknowledgement => MessageKind::Acknowledgement,
                coap_lite::MessageType::Reset => MessageKind::Reset,
            };
            let token = p.get_token().to_vec();
            Some(PacketFields { kind, message_id: p.header.message_id, token, payload: p.payload })
        },
        Err(_) => None,
    }
}

/// The two little-endian bytes a request carries as its token.
pub open spec fn spec_token_bytes(token: u16) -> Seq<u8> {
    seq![(token % 256) as u8, (token / 256) as u8]
}

/// What a received packet means for the pending request with the given
/// token and message id.
#[derive(Clone, Copy, Debug, PartialEq, Eq, Structural)]
pub enum PacketClass {
    /// The acknowledgement of the pending request.
    MatchingAck,
    /// The confirmable response carrying the request's token.
    MatchingResponse,
    /// Someone else's traffic.
    Other,
}

/// The classification rule of the exchange: a confirmable packet
/// bearing the request's token is the response; an acknowledgement
/// bearing the request's message id is the ack; anything else is
/// ignored.
pub open spec fn spec_classify(req_token: u16, req_mid: u16, p: PacketFields) -> PacketClass {
    if p.kind == MessageKind::Confirmable && p.token@ == spec_token_bytes(req_token) {
        PacketClass::MatchingResponse
    } else if p.kind == MessageKind::Acknowledgement && p.message_id == req_mid {
        PacketClass::MatchingAck
    } else {
        PacketClass::Other
    }
}

/// Classifies a parsed packet against the pending request.
pub fn classify_packet(req_token: u16, req_mid: u16, p: &PacketFields) -> (r: PacketClass)
    ensures
        r == spec_classify(req_token, req_mid, *p),
{
    let lo = (req_token % 256) as u8;
    let hi = (req_token / 256) as u8;
    let token_matches = p.token.len() == 2 && p.token[0] == lo && p.token[1] == hi;
    proof {
        if token_matches {
            assert(p.token@ =~= spec_token_bytes(req_token));
        } else {
            assert(p.token@ != spec_token_bytes(req_token)) by {
                if p.token@ == spec_token_bytes(req_token) {
                    assert(p.token@.len() == 2);
                    assert(p.token@[0] == lo && p.token@[1] == hi);
                }
            }
        }
    }
    if p.kind == MessageKind::Confirmable && token_matches {
        PacketClass::MatchingResponse
    } else if p.kind == MessageKind::Acknowledgement && p.message_id == req_mid {
        PacketClass::MatchingAck
    } else {
        PacketClass::Other
    }
}

/// What the transport should do with one received datagram.
#[derive(Clone, Debug)]
pub enum RecvAction {
    /// The bytes do not parse as a packet: keep waiting.
    Invalid,
    /// The request's acknowledgement: note it and keep waiting.
    AckOnly,
    /// The response: deliver the payload and send the acknowledgement
    /// bytes back.
    Response { payload: Vec<u8>, ack: Vec<u8> },
    /// Unrelated traffic: keep waiting.
    Ignored,
}

/// Decides what one received datagram means for the pending request
/// and, for a response, prepares the acknowledgement to send back.
pub fn handle_packet(req_token: u16, req_mid: u16, bytes: &Vec<u8>) -> (r: RecvAction)
    ensures
        coap_parse(bytes@) is None ==> r is Invalid,
        coap_parse(bytes@) matches Some(p) ==> {
            &&& spec_classify(req_token, req_mid, p) == PacketClass::MatchingAck ==> r is AckOnly
            &&& spec_classify(req_token, req_mid, p) == PacketClass::Other ==> r is Ignored
            &&& spec_classify(req_token, req_mid, p) == PacketClass::MatchingResponse ==> {
                &&& r matches RecvAction::Response { payload, ack } ==> {
                    &&& payload == p.payload
                    &&& ack@ == coap_ack_bytes(p.message_id)
                }
                &&& r is Response
            }
        },
{
    let parsed = match parse_packet_bytes(bytes) {
        Some(p) => p,
        None => {
            return RecvAction::Invalid;
        },
    };
    match classify_packet(req_token, req_mid, &parsed) {
        PacketClass::MatchingAck => RecvAction::AckOnly,
        PacketClass::Other => RecvAction::Ignored,
        PacketClass::MatchingResponse => {
            let ack = encode_ack_packet(parsed.message_id).unwrap();
            RecvAction::Response { payload: parsed.payload, ack }
        },
    }
}

/// The client-side request bookkeeping: a fresh token and message id
/// per request, both wrapping.
pub struct CoapClient {
    pub token: u16,
    pub message_id: u16,
}

/// A 16-bit counter advanced by one, wrapping at the top.
pub open spec fn spec_wrapping_next(v: int) -> int {
    if v == 0xffff {
        0
    } else {
        v + 1
    }
}

impl CoapClient {
    pub fn new() -> (r: CoapClient)
        ensures
            r.token == 0,
            r.message_id == 0,
    {
        CoapClient { token: 0, message_id: 0 }
    }

    /// Takes fresh identifiers and builds the serialized confirmable
    /// request around the payload.  `None` only where the serializer
    /// refuses an oversized packet, which the stated size bound rules
    /// out; the identifiers advance either way, so they are never
    /// reused.
    pub fn build_request(&mut self, post: bool, path: &str, payload: Vec<u8>) -> (r: Option<
        Vec<u8>,
    >)
        ensures
            final(self).token == spec_wrapping_next(old(self).token as int),
            final(self).message_id == spec_wrapping_next(old(self).message_id as int),
            r matches Some(v) ==> v@ == coap_request_bytes(
                post,
                path@,
                final(self).token,
                final(self).message_id,
                payload@,
            ),
            payload@.len() + 16 * path@.len() + 10 <= 1280 ==> r is Some,
    {
        self.token = if self.token == 0xffff {
            0
        } else {
            self.token + 1
        };
        self.message_id = if self.message_id == 0xffff {
            0
        } else {
            self.message_id + 1
        };
        encode_con_request(post, path, self.token, self.message_id, payload)
    }

    /// Builds one command poll: a confirmable GET of `/command` whose
    /// payload names the device and its current session-relative pose.
    /// The twelve-byte payload always fits the transport, so this
    /// always yields the request bytes.
    pub fn build_command_request(&mut self, device_id: u32, offset: &MotorAngles) -> (r: Option<
        Vec<u8>,
    >)
        ensures
            final(self).token == spec_wrapping_next(old(self).token as int),
            final(self).message_id == spec_wrapping_next(old(self).message_id as int),
            r matches Some(v) ==> v@ == coap_request_bytes(
                false,
                "/command"@,
                final(self).token,
                final(self).message_id,
                spec_command_request_payload(
                    device_id as int,
                    offset.motor_hor as int,
                    offset.motor_ver as int,
                ),
            ),
            r is Some,
    {
        proof {
            reveal_strlit("/command");
        }
        let payload = crate::command::encode_command_request_payload(device_id, offset);
        self.build_request(false, "/command", payload)
    }

    /// Builds one telemetry upload: a confirmable POST of
    /// `/sensor/data` carrying the encoded batch.  Up to 29 records
    /// the packet provably fits the transport and the request bytes
    /// are always yielded.
    pub fn build_sensor_data_request(
        &mut self,
        datapoints: &Vec<DataPoint>,
        device_id: u32,
        now_unix: u64,
    ) -> (r: Option<Vec<u8>>)
        requires
            datapoints.len() <= 1000000,
        ensures
            final(self).token == spec_wrapping_next(old(self).token as int),
            final(self).message_id == spec_wrapping_next(old(self).message_id as int),
            r matches Some(v) ==> v@ == coap_request_bytes(
                true,
                "/sensor/data"@,
                final(self).token,
                final(self).message_id,
                spec_sensor_data_payload(datapoints@, device_id as int, now_unix as int),
            ),
            datapoints@.len() <= 29 ==> r is Some,
    {
        proof {
            reveal_strlit("/sensor/data");
        }
        let payload = crate::command::encode_sensor_data_payload(datapoints, device_id, now_unix);
        self.build_request(true, "/sensor/data", payload)
    }
}

} // verus!
