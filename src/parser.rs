//! Frame decoder: the length prefix and the fixed-layout request header.
use vstd::prelude::*;

use crate::wire::{get_i16, get_i32, i16_at, i32_at};

verus! {

/// Bytes a request occupies on the wire up to the end of its header: the
/// size field (4), `api_key` (2), `api_version` (2) and `correlation_id` (4).
pub const REQUEST_HEADER_END: usize = 12;

/// Offset of the `api_key` field within a request frame.
pub const API_KEY_OFFSET: usize = 4;

/// Offset of the `api_version` field within a request frame.
pub const API_VERSION_OFFSET: usize = 6;

/// Offset of the `correlation_id` field within a request frame.
pub const CORRELATION_ID_OFFSET: usize = 8;

/// The request header, as the client sent it.
#[derive(Debug, Clone, Copy, PartialEq, Eq, Structural)]
pub struct Header {
    pub req_api_key: i16,
    pub req_api_ver: i16,
    pub corr_id: i32,
}

/// A decoded request: the frame's declared size and its header.
#[derive(Debug, Clone, Copy, PartialEq, Eq, Structural)]
pub struct Message {
    pub size: i32,
    pub header: Header,
}

/// Why a frame could not be decoded.
#[derive(Debug, Clone, Copy, PartialEq, Eq, Structural)]
pub enum DecodeError {
    /// The stream ended cleanly, before the first byte of a frame.
    EndOfStream,
    /// The stream ended inside a fixed-width field: the field starts at
    /// `field_offset` within the frame and only `available` of its bytes came.
    TruncatedFrame { field_offset: usize, available: usize },
}

/// The header held in bytes 4 to 12 of a request frame.
pub open spec fn header_of(b: Seq<u8>) -> Header {
    Header {
        req_api_key: i16_at(b, API_KEY_OFFSET as int),
        req_api_ver: i16_at(b, API_VERSION_OFFSET as int),
        corr_id: i32_at(b, CORRELATION_ID_OFFSET as int),
    }
}

/// The request message held in the first 12 bytes of a frame.
pub open spec fn message_of(b: Seq<u8>) -> Message {
    Message { size: i32_at(b, 0), header: header_of(b) }
}

/// Offset of the field in which a frame that stops after `n` bytes is cut.
pub open spec fn cut_field_start(n: int) -> int {
    if n < API_KEY_OFFSET {
        0
    } else if n < API_VERSION_OFFSET {
        API_KEY_OFFSET as int
    } else if n < CORRELATION_ID_OFFSET {
        API_VERSION_OFFSET as int
    } else {
        CORRELATION_ID_OFFSET as int
    }
}

/// The outcome of decoding a frame from the bytes `b` that the stream
/// delivered before it ended (or the first 12 of them).
pub open spec fn decode_spec(b: Seq<u8>) -> Result<Message, DecodeError> {
    if b.len() == 0 {
        Err(DecodeError::EndOfStream)
    } else if b.len() < REQUEST_HEADER_END {
        Err(
            DecodeError::TruncatedFrame {
                field_offset: cut_field_start(b.len() as int) as usize,
                available: (b.len() - cut_field_start(b.len() as int)) as usize,
            },
        )
    } else {
        Ok(message_of(b))
    }
}

impl Header {
    pub fn new(req_api_key: i16, req_api_ver: i16, corr_id: i32) -> (r: Header)
        ensures
            r.req_api_key == req_api_key,
            r.req_api_ver == req_api_ver,
            r.corr_id == corr_id,
    {
        Header { req_api_key, req_api_ver, corr_id }
    }
}

impl Message {
    pub fn new(size: i32, header: Header) -> (r: Message)
        ensures
            r.size == size,
            r.header == header,
    {
        Message { size, header }
    }
}

/// Reads the 32-bit field at `pos`, or reports how much of it is missing.
fn read_int32(b: &[u8], pos: usize) -> (r: Result<i32, DecodeError>)
    requires
        pos <= b@.len(),
    ensures
        pos + 4 <= b@.len() ==> r == Ok::<i32, DecodeError>(i32_at(b@, pos as int)),
        pos + 4 > b@.len() ==> r == Err::<i32, DecodeError>(
            DecodeError::TruncatedFrame { field_offset: pos, available: (b@.len() - pos) as usize },
        ),
{
    if b.len() - pos >= 4 {
        Ok(get_i32(b, pos))
    } else {
        Err(DecodeError::TruncatedFrame { field_offset: pos, available: b.len() - pos })
    }
}

/// Reads the 16-bit field at `pos`, or reports how much of it is missing.
fn read_int16(b: &[u8], pos: usize) -> (r: Result<i16, DecodeError>)
    requires
        pos <= b@.len(),
    ensures
        pos + 2 <= b@.len() ==> r == Ok::<i16, DecodeError>(i16_at(b@, pos as int)),
        pos + 2 > b@.len() ==> r == Err::<i16, DecodeError>(
            DecodeError::TruncatedFrame { field_offset: pos, available: (b@.len() - pos) as usize },
        ),
{
    if b.len() - pos >= 2 {
        Ok(get_i16(b, pos))
    } else {
        Err(DecodeError::TruncatedFrame { field_offset: pos, available: b.len() - pos })
    }
}

/// Reads the header fields that follow the size field.
fn read_header(b: &[u8]) -> (r: Result<Header, DecodeError>)
    requires
        API_KEY_OFFSET <= b@.len(),
    ensures
        b@.len() >= REQUEST_HEADER_END ==> r == Ok::<Header, DecodeError>(header_of(b@)),
        b@.len() < REQUEST_HEADER_END ==> r is Err && r->Err_0 == decode_spec(b@)->Err_0,
{
    let req_api_key = match read_int16(b, API_KEY_OFFSET) {
        Ok(v) => v,
        Err(e) => return Err(e),
    };
    let req_api_ver = match read_int16(b, API_VERSION_OFFSET) {
        Ok(v) => v,
        Err(e) => return Err(e),
    };
    let corr_id = match read_int32(b, CORRELATION_ID_OFFSET) {
        Ok(v) => v,
        Err(e) => return Err(e),
    };
    Ok(Header::new(req_api_key, req_api_ver, corr_id))
}

/// Decodes one request frame from `b`, the bytes a stream delivered before it
/// ended. Only the first 12 bytes are read: the size field and the header.
/// The declared size is recorded as it came and is not checked against the
/// bytes that follow.
pub fn parse_message(b: &[u8]) -> (r: Result<Message, DecodeError>)
    ensures
        r == decode_spec(b@),
        r is Ok <==> b@.len() >= REQUEST_HEADER_END,
        r == Err::<Message, DecodeError>(DecodeError::EndOfStream) <==> b@.len() == 0,
{
    if b.len() == 0 {
        return Err(DecodeError::EndOfStream);
    }
    let size = match read_int32(b, 0) {
        Ok(v) => v,
        Err(e) => return Err(e),
    };
    match read_header(b) {
        Ok(header) => Ok(Message::new(size, header)),
        Err(e) => Err(e),
    }
}

} // verus!
