//! Response encoder: a size-prefixed frame that answers API-version
//! negotiation.
use vstd::prelude::*;

use crate::parser::{Header, Message};
use crate::wire::{i16_be, i32_be, push_i16, push_i32};

verus! {

/// Highest API version this server negotiates.
pub const MAX_SUPPORTED_VERSION: i16 = 4;

/// Lowest API version this server negotiates.
pub const MIN_SUPPORTED_VERSION: i16 = 0;

/// Error code of a request whose version is supported.
pub const NO_ERROR: i16 = 0;

/// Error code `UNSUPPORTED_VERSION`.
pub const UNSUPPORTED_VERSION: i16 = 35;

/// Bytes of the size field that starts every response frame.
pub const SIZE_FIELD_LEN: usize = 4;

/// The error code answered to a request of version `api_ver`.
pub open spec fn error_code_for(api_ver: i16) -> i16 {
    if api_ver <= MAX_SUPPORTED_VERSION {
        NO_ERROR
    } else {
        UNSUPPORTED_VERSION
    }
}

/// The API-versions body: error tag, the requested key, the supported version
/// range, an empty tag buffer, a zero throttle time and a closing tag buffer.
pub open spec fn api_versions_body(api_key: i16) -> Seq<u8> {
    seq![0u8] + i16_be(api_key) + i16_be(MIN_SUPPORTED_VERSION) + i16_be(MAX_SUPPORTED_VERSION)
        + seq![0u8] + i32_be(0) + seq![0u8]
}

/// Everything after the size field: correlation id, error code and body.
pub open spec fn response_payload(h: Header) -> Seq<u8> {
    i32_be(h.corr_id) + i16_be(error_code_for(h.req_api_ver)) + api_versions_body(h.req_api_key)
}

/// The whole response frame: the payload's length, then the payload.
pub open spec fn response_frame(h: Header) -> Seq<u8> {
    i32_be(response_payload(h).len() as i32) + response_payload(h)
}

/// Whether the server supports API version `api_ver`.
pub fn is_api_ver_valid(api_ver: &i16) -> (r: bool)
    ensures
        r == (*api_ver <= MAX_SUPPORTED_VERSION),
{
    *api_ver <= MAX_SUPPORTED_VERSION
}

/// Appends a zero size placeholder and the correlation id.
pub fn append_response_header(response: &mut Vec<u8>, corr_id: &i32)
    ensures
        final(response)@ == old(response)@ + i32_be(0) + i32_be(*corr_id),
{
    let msg_size: i32 = 0;
    push_i32(response, msg_size);
    push_i32(response, *corr_id);
}

/// Appends the API-versions body that echoes `api_key`.
pub fn append_response_body(response: &mut Vec<u8>, api_key: &i16)
    ensures
        final(response)@ == old(response)@ + api_versions_body(*api_key),
{
    let mut body: Vec<u8> = Vec::new();
    let tag_buffer: u8 = 0;
    let throttle_time_ms: i32 = 0;
    body.push(0u8);
    push_i16(&mut body, *api_key);
    push_i16(&mut body, MIN_SUPPORTED_VERSION);
    push_i16(&mut body, MAX_SUPPORTED_VERSION);
    body.push(tag_buffer);
    push_i32(&mut body, throttle_time_ms);
    body.push(tag_buffer);
    assert(body@ =~= api_versions_body(*api_key));
    response.append(&mut body);
}

/// Overwrites the size field at the front of `response` with the number of
/// bytes that follow it.
pub fn update_msg_size(response: &mut Vec<u8>)
    requires
        SIZE_FIELD_LEN <= old(response)@.len() <= SIZE_FIELD_LEN + i32::MAX,
    ensures
        final(response)@ == i32_be((old(response)@.len() - SIZE_FIELD_LEN) as i32) + old(
            response,
        )@.subrange(SIZE_FIELD_LEN as int, old(response)@.len() as int),
{
    let msg_size: i32 = (response.len() - SIZE_FIELD_LEN) as i32;
    let mut size_bytes: Vec<u8> = Vec::new();
    push_i32(&mut size_bytes, msg_size);
    let ghost orig = response@;
    let mut i: usize = 0;
    while i < SIZE_FIELD_LEN
        invariant
            size_bytes@ == i32_be(msg_size),
            response@.len() == orig.len(),
            orig == old(response)@,
            SIZE_FIELD_LEN <= orig.len(),
            i <= SIZE_FIELD_LEN,
            forall|j: int| 0 <= j < i ==> response@[j] == size_bytes@[j],
            forall|j: int|
                #![trigger response@[j]]
                SIZE_FIELD_LEN <= j < response@.len() ==> response@[j] == orig[j],
        decreases SIZE_FIELD_LEN - i,
    {
        response.set(i, size_bytes[i]);
        i = i + 1;
    }
    assert(response@ =~= i32_be(msg_size) + old(response)@.subrange(
        SIZE_FIELD_LEN as int,
        old(response)@.len() as int,
    ));
}

/// Builds the response frame that answers `msg`.
pub fn create_response(msg: Message) -> (r: Vec<u8>)
    ensures
        r@ == response_frame(msg.header),
{
    let mut response: Vec<u8> = Vec::with_capacity(8);
    append_response_header(&mut response, &msg.header.corr_id);
    let error_code: i16 = if is_api_ver_valid(&msg.header.req_api_ver) {
        NO_ERROR
    } else {
        UNSUPPORTED_VERSION
    };
    push_i16(&mut response, error_code);
    append_response_body(&mut response, &msg.header.req_api_key);
    let ghost before_patch = response@;
    assert(before_patch =~= i32_be(0) + response_payload(msg.header));
    update_msg_size(&mut response);
    assert(before_patch.subrange(4, before_patch.len() as int) =~= response_payload(msg.header));
    response
}

} // verus!
