//! Client-side codec for an SSRP-style instance-discovery protocol.
//!
//! The codec turns protocol intents into datagram bytes and datagram bytes
//! back into protocol data. It builds the two outbound request messages
//! (browse all instances, resolve one named instance) and parses the inbound
//! server response message (tag byte, 16-bit little-endian payload length,
//! UTF-8 text payload). All transport concerns (sockets, timeouts, retries)
//! live outside this crate: every function here is a pure transformation
//! over in-memory byte sequences.

use vstd::prelude::*;
use vstd::slice::slice_subrange;
use vstd::utf8::decode_utf8;
use vstd::utf8::encode_utf8;
use vstd::utf8::valid_utf8;

verus! {

/// Terminator byte that ends the instance name in an instance request.
pub const NUL: u8 = 0x00;

/// Tag of an outbound request listing all instances on the target host.
pub const CLNT_UCAST_EX: u8 = 0x03;

/// Tag of an outbound request resolving one named instance.
pub const CLNT_UCAST_INST: u8 = 0x04;

/// Tag of an inbound server response.
pub const SVR_RESP: u8 = 0x05;

/// Builds the browse-all request: the single tag byte `CLNT_UCAST_EX`,
/// with no body. A server answers it with the instance details of every
/// instance it hosts.
pub fn get_unicast_browse_request() -> (r: [u8; 1])
    ensures
        r@ == seq![CLNT_UCAST_EX],
{
    let r: [u8; 1] = [CLNT_UCAST_EX];
    proof {
        assert(r@ =~= seq![CLNT_UCAST_EX]);
    }
    r
}

/// Builds the instance request for `instance_name`: the tag byte
/// `CLNT_UCAST_INST`, then the UTF-8 bytes of the name, then one `NUL`
/// terminator. The caller is responsible for choosing a name without an
/// embedded NUL byte; the encoder itself succeeds on every name and copies
/// its bytes verbatim.
pub fn get_instance_request(instance_name: &str) -> (r: Vec<u8>)
    ensures
        r@ == seq![CLNT_UCAST_INST] + encode_utf8(instance_name@) + seq![NUL],
        r@.len() == encode_utf8(instance_name@).len() + 2,
{
    let bytes: &[u8] = instance_name.as_bytes();
    let mut buffer: Vec<u8> = Vec::new();
    buffer.push(CLNT_UCAST_INST);

    let mut i: usize = 0;
    while i < bytes.len()
        invariant
            i <= bytes@.len(),
            bytes@ == encode_utf8(instance_name@),
            buffer@ == seq![CLNT_UCAST_INST] + bytes@.subrange(0, i as int),
        decreases bytes@.len() - i,
    {
        buffer.push(bytes[i]);
        i = i + 1;
    }

    buffer.push(NUL);
    proof {
        assert(buffer@ =~= seq![CLNT_UCAST_INST] + encode_utf8(instance_name@) + seq![NUL]);
    }
    buffer
}

/// Why a received datagram was rejected by [`parse_server_response`].
#[derive(Debug, Clone, Copy, PartialEq, Eq)]
pub enum ParseError {
    /// The buffer is shorter than the 3-byte header, or its declared payload
    /// length exceeds the bytes actually present after the header.
    MalformedResponse,
    /// The first byte is not the `SVR_RESP` tag.
    UnexpectedMessageTag,
    /// The payload bytes are not valid UTF-8 text.
    InvalidEncoding,
}

/// The parsed result of a server response: the payload text, exposed
/// verbatim. The text is a semicolon-delimited sequence of alternating
/// key/value tokens ending in two consecutive semicolons; this codec does
/// not tokenize it further. The text is an owned copy of the payload, so a
/// `ServerResponse` stays valid after the receive buffer is reused.
#[derive(Debug)]
pub struct ServerResponse {
    /// The decoded payload text.
    pub data: String,
}

impl View for ServerResponse {
    type V = Seq<char>;

    open spec fn view(&self) -> Seq<char> {
        self.data@
    }
}

/// The 16-bit unsigned integer stored little-endian in the bytes `lo`, `hi`.
pub open spec fn le16(lo: u8, hi: u8) -> int {
    lo as int + 256 * (hi as int)
}

/// What parsing a response datagram yields, as a function of its raw bytes:
/// the decoded payload text on success, and otherwise which check failed
/// first. The checks run in this order: a complete 3-byte header, the
/// `SVR_RESP` tag, the declared payload length within bounds, valid UTF-8.
pub open spec fn spec_parse(bytes: Seq<u8>) -> Result<Seq<char>, ParseError> {
    if bytes.len() < 3 {
        Err(ParseError::MalformedResponse)
    } else if bytes[0] != SVR_RESP {
        Err(ParseError::UnexpectedMessageTag)
    } else if bytes.len() < 3 + le16(bytes[1], bytes[2]) {
        Err(ParseError::MalformedResponse)
    } else if !valid_utf8(bytes.subrange(3, 3 + le16(bytes[1], bytes[2]))) {
        Err(ParseError::InvalidEncoding)
    } else {
        Ok(decode_utf8(bytes.subrange(3, 3 + le16(bytes[1], bytes[2]))))
    }
}

/// Relies on `core::str::from_utf8`: it returns `Ok` exactly when the bytes
/// are a valid UTF-8 encoding, and then the returned text is their decoding.
/// The result is copied into an owned `String`.
#[verifier::external_body]
fn utf8_to_string(bytes: &[u8]) -> (r: Option<String>)
    ensures
        r is Some <==> valid_utf8(bytes@),
        r matches Some(text) ==> text@ == decode_utf8(bytes@),
{
    match core::str::from_utf8(bytes) {
        Ok(text) => Some(text.to_string()),
        Err(_) => None,
    }
}

/// Parses one received response datagram.
///
/// The buffer must hold a complete 3-byte header (else
/// `MalformedResponse`), its first byte must be the `SVR_RESP` tag (else
/// `UnexpectedMessageTag`), the payload length declared little-endian in
/// bytes 1-2 must not exceed the bytes present after the header (else
/// `MalformedResponse`), and the declared payload bytes must be valid UTF-8
/// (else `InvalidEncoding`). On success the payload text is returned
/// verbatim; bytes beyond the declared length are ignored.
pub fn parse_server_response(data: &[u8]) -> (r: Result<ServerResponse, ParseError>)
    ensures
        match r {
            Ok(resp) => spec_parse(data@) == Ok::<Seq<char>, ParseError>(resp@),
            Err(e) => spec_parse(data@) == Err::<Seq<char>, ParseError>(e),
        },
{
    if data.len() < 3 {
        return Err(ParseError::MalformedResponse);
    }
    if data[0] != SVR_RESP {
        return Err(ParseError::UnexpectedMessageTag);
    }

    let declared_len: usize = (data[1] as usize) + 256 * (data[2] as usize);
    if data.len() - 3 < declared_len {
        return Err(ParseError::MalformedResponse);
    }

    let payload: &[u8] = slice_subrange(data, 3, 3 + declared_len);
    match utf8_to_string(payload) {
        Some(text) => Ok(ServerResponse { data: text }),
        None => Err(ParseError::InvalidEncoding),
    }
}

/// Law: well-formed responses round-trip. For every payload that is valid
/// UTF-8 and whose length is the one declared little-endian by `lo`, `hi`,
/// parsing the buffer `[SVR_RESP, lo, hi] ++ payload` succeeds and returns
/// exactly the payload's text.
pub proof fn lemma_parse_round_trip(lo: u8, hi: u8, payload: Seq<u8>)
    requires
        payload.len() == le16(lo, hi),
        valid_utf8(payload),
    ensures
        spec_parse(seq![SVR_RESP, lo, hi] + payload) == Ok::<Seq<char>, ParseError>(
            decode_utf8(payload),
        ),
{
    let bytes = seq![SVR_RESP, lo, hi] + payload;
    assert(bytes.subrange(3, 3 + le16(bytes[1], bytes[2])) =~= payload);
}

/// Law: a buffer shorter than the 3-byte header is rejected as
/// `MalformedResponse`, whatever its bytes hold.
pub proof fn lemma_truncated_header_rejected(bytes: Seq<u8>)
    requires
        bytes.len() < 3,
    ensures
        spec_parse(bytes) == Err::<Seq<char>, ParseError>(ParseError::MalformedResponse),
{
}

/// Law: with a complete header, a first byte other than the `SVR_RESP` tag
/// is rejected as `UnexpectedMessageTag` before anything further is parsed,
/// whatever the rest of the buffer holds. (A buffer shorter than the header
/// is rejected as `MalformedResponse` first, even when its tag is wrong.)
pub proof fn lemma_wrong_tag_rejected(bytes: Seq<u8>)
    requires
        bytes.len() >= 3,
        bytes[0] != SVR_RESP,
    ensures
        spec_parse(bytes) == Err::<Seq<char>, ParseError>(ParseError::UnexpectedMessageTag),
{
}

/// Law: a declared payload length that exceeds the bytes actually present
/// after the header is rejected as `MalformedResponse`; no truncated or
/// out-of-bounds payload is ever returned.
pub proof fn lemma_truncated_payload_rejected(bytes: Seq<u8>)
    requires
        bytes.len() >= 3,
        bytes[0] == SVR_RESP,
        bytes.len() < 3 + le16(bytes[1], bytes[2]),
    ensures
        spec_parse(bytes) == Err::<Seq<char>, ParseError>(ParseError::MalformedResponse),
{
}

} // verus!
