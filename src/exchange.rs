//! What holds of a whole exchange: a request frame decoded, answered and the
//! answer read back.
use vstd::prelude::*;

use crate::parser::{decode_spec, parse_message, DecodeError, Header, REQUEST_HEADER_END};
use crate::response::{
    create_response, error_code_for, response_frame, response_payload, MAX_SUPPORTED_VERSION, NO_ERROR,
    SIZE_FIELD_LEN, UNSUPPORTED_VERSION,
};
use crate::wire::{i16_at, i16_be, i32_at, i32_be, lemma_i16_round_trip, lemma_i32_round_trip};

verus! {

/// Offset of the correlation id within a response frame.
pub const RESPONSE_CORRELATION_ID_OFFSET: usize = 4;

/// Offset of the error code within a response frame.
pub const RESPONSE_ERROR_CODE_OFFSET: usize = 8;

/// Offset of the echoed API key within a response frame.
pub const RESPONSE_API_KEY_OFFSET: usize = 11;

/// The fields of a response frame, read back from its bytes.
proof fn lemma_frame_fields(h: Header)
    ensures
        response_frame(h).len() == 23,
        response_frame(h).subrange(0, 4) == i32_be(19),
        response_frame(h).subrange(4, 8) == i32_be(h.corr_id),
        response_frame(h).subrange(8, 10) == i16_be(error_code_for(h.req_api_ver)),
        response_frame(h).subrange(11, 13) == i16_be(h.req_api_key),
        i32_at(response_frame(h), 0) == 19,
        i32_at(response_frame(h), RESPONSE_CORRELATION_ID_OFFSET as int) == h.corr_id,
        i16_at(response_frame(h), RESPONSE_ERROR_CODE_OFFSET as int) == error_code_for(h.req_api_ver),
        i16_at(response_frame(h), RESPONSE_API_KEY_OFFSET as int) == h.req_api_key,
{
    let f = response_frame(h);
    assert(response_payload(h).len() == 19);
    lemma_i32_round_trip(19);
    lemma_i32_round_trip(h.corr_id);
    lemma_i16_round_trip(error_code_for(h.req_api_ver));
    lemma_i16_round_trip(h.req_api_key);
    assert(f.subrange(0, 4) =~= i32_be(19));
    assert(f.subrange(4, 8) =~= i32_be(h.corr_id));
    assert(f.subrange(8, 10) =~= i16_be(error_code_for(h.req_api_ver)));
    assert(f.subrange(11, 13) =~= i16_be(h.req_api_key));
}

/// Decoding any request frame and answering it echoes the request's
/// correlation id bytes unchanged in the response.
pub proof fn lemma_correlation_id_echoed(request: Seq<u8>)
    requires
        request.len() >= REQUEST_HEADER_END,
    ensures
        decode_spec(request) is Ok,
        response_frame(decode_spec(request)->Ok_0.header).subrange(4, 8) == request.subrange(
            8,
            12,
        ),
        i32_at(response_frame(decode_spec(request)->Ok_0.header), RESPONSE_CORRELATION_ID_OFFSET as int)
            == i32_at(request, 8),
{
    let h = decode_spec(request)->Ok_0.header;
    lemma_frame_fields(h);
    crate::wire::lemma_i32_bytes_round_trip(request, 8);
}

/// The error code is zero for every supported version (at most 4, negative
/// ones included) and `UNSUPPORTED_VERSION` for every other.
pub proof fn lemma_error_code(h: Header)
    ensures
        h.req_api_ver <= MAX_SUPPORTED_VERSION ==> i16_at(
            response_frame(h),
            RESPONSE_ERROR_CODE_OFFSET as int,
        ) == NO_ERROR,
        h.req_api_ver > MAX_SUPPORTED_VERSION ==> i16_at(
            response_frame(h),
            RESPONSE_ERROR_CODE_OFFSET as int,
        ) == UNSUPPORTED_VERSION,
{
    lemma_frame_fields(h);
}

/// The size field of every response counts the bytes that follow it.
pub proof fn lemma_response_size_field(h: Header)
    ensures
        i32_at(response_frame(h), 0) == response_frame(h).len() - SIZE_FIELD_LEN,
{
    lemma_frame_fields(h);
}

/// Patching the size field of any buffer, whatever its body, makes the field
/// read back as the number of bytes after it.
pub proof fn lemma_patched_size_field(buf: Seq<u8>)
    requires
        SIZE_FIELD_LEN <= buf.len() <= SIZE_FIELD_LEN + i32::MAX,
    ensures
        ({
            let patched = i32_be((buf.len() - SIZE_FIELD_LEN) as i32) + buf.subrange(
                SIZE_FIELD_LEN as int,
                buf.len() as int,
            );
            &&& patched.len() == buf.len()
            &&& i32_at(patched, 0) == buf.len() - SIZE_FIELD_LEN
        }),
{
    let n = (buf.len() - SIZE_FIELD_LEN) as i32;
    lemma_i32_round_trip(n);
    let patched = i32_be(n) + buf.subrange(SIZE_FIELD_LEN as int, buf.len() as int);
    assert(patched.subrange(0, 4) =~= i32_be(n));
}

/// Reading back the correlation id and the error code from an encoded
/// response gives the values the encoder was handed.
pub proof fn lemma_response_header_round_trip(h: Header)
    ensures
        i32_at(response_frame(h), RESPONSE_CORRELATION_ID_OFFSET as int) == h.corr_id,
        i16_at(response_frame(h), RESPONSE_ERROR_CODE_OFFSET as int) == error_code_for(h.req_api_ver),
{
    lemma_frame_fields(h);
}

/// Every API key, the least and greatest 16-bit values included, is echoed in
/// the response body unchanged.
pub proof fn lemma_api_key_echoed(h: Header)
    ensures
        response_frame(h).subrange(11, 13) == i16_be(h.req_api_key),
        i16_at(response_frame(h), RESPONSE_API_KEY_OFFSET as int) == h.req_api_key,
{
    lemma_frame_fields(h);
}

/// Answers the request held in `request`, the bytes a connection delivered:
/// the response frame, or why the request could not be decoded.
pub fn handle_request(request: &[u8]) -> (r: Result<Vec<u8>, DecodeError>)
    ensures
        match decode_spec(request@) {
            Ok(msg) => r is Ok && r->Ok_0@ == response_frame(msg.header),
            Err(e) => r == Err::<Vec<u8>, DecodeError>(e),
        },
{
    match parse_message(request) {
        Ok(msg) => Ok(create_response(msg)),
        Err(e) => Err(e),
    }
}

} // verus!
