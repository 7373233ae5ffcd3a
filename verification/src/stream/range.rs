//! Translation of a `Range` request header into the status and the headers
//! of the response. Only the form `bytes=<digits>-` asks for a part of the
//! file; every other value is answered like a request without the header.

use vstd::prelude::*;
use vstd::string::StringExecFns;

use crate::stream::byte_stream::ByteStream;
use crate::stream::error::StreamError;
use crate::text::decimal_chars;
use crate::text::decimal_digits;
use crate::text::lemma_decimal_roundtrip;
use crate::text::parse_decimal;
use crate::text::parsed_decimal;
use crate::text::u64_to_decimal;

verus! {

/// Status of a response that carries the whole file.
pub const STATUS_OK: u16 = 200;

/// Status of a response that carries the file from an offset on.
pub const STATUS_PARTIAL_CONTENT: u16 = 206;

/// The media type of every streamed file.
pub const STREAM_CONTENT_TYPE: &'static str = "video/mkv";

/// The bytes `bytes=`, with which a range begins.
pub open spec fn range_unit() -> Seq<u8> {
    seq![98u8, 121u8, 116u8, 101u8, 115u8, 61u8]
}

/// The byte `-`, with which an open-ended range ends.
pub open spec fn range_dash() -> u8 {
    45u8
}

/// The offset that a `Range` header value asks for: the number `N` of
/// `bytes=N-`, when the value has exactly this form, `N` being one or more
/// ASCII digits that denote a number of at most 64 bits. Suffix ranges,
/// closed ranges and lists of ranges give `None`.
pub open spec fn range_start(value: Seq<u8>) -> Option<u64> {
    if value.len() >= 7 && value.subrange(0, 6) == range_unit() && value.last() == range_dash() {
        parsed_decimal(value.subrange(6, value.len() - 1))
    } else {
        None
    }
}

/// The offset that a request asks for, if it asks for one.
pub open spec fn requested_start(range: Option<Seq<u8>>) -> Option<u64> {
    match range {
        Some(value) => range_start(value),
        None => None,
    }
}

/// Reads the value of a `Range` header.
pub fn parse_range_header(value: &[u8]) -> (start: Option<u64>)
    ensures
        start == range_start(value@),
{
    let n = value.len();
    if n < 7 {
        return None;
    }
    if value[0] != 98 || value[1] != 121 || value[2] != 116 || value[3] != 101 || value[4] != 115
        || value[5] != 61 {
        proof {
            let head = value@.subrange(0, 6);
            assert(head[0] == value@[0] && head[1] == value@[1] && head[2] == value@[2] && head[3]
                == value@[3] && head[4] == value@[4] && head[5] == value@[5]);
        }
        return None;
    }
    assert(value@.subrange(0, 6) =~= range_unit());
    if value[n - 1] != 45 {
        return None;
    }
    parse_decimal(value, 6, n - 1)
}

/// Status and headers of a streamed response.
#[derive(Debug)]
pub struct StreamResponse {
    /// The HTTP status.
    pub status: u16,
    /// The offset of the first byte of the body in the file.
    pub start: u64,
    /// The `Content-Length` header: the length of the body.
    pub content_length: u64,
    /// The `Content-Range` header, when the response is partial.
    pub content_range: Option<String>,
}

/// A [`StreamResponse`] as a mathematical value.
pub struct StreamResponseView {
    pub status: u16,
    pub start: u64,
    pub content_length: u64,
    pub content_range: Option<Seq<char>>,
}

impl View for StreamResponse {
    type V = StreamResponseView;

    open spec fn view(&self) -> StreamResponseView {
        StreamResponseView {
            status: self.status,
            start: self.start,
            content_length: self.content_length,
            content_range: match self.content_range {
                Some(text) => Some(text@),
                None => None,
            },
        }
    }
}

/// The index of the last byte of a file of `length` bytes; zero for an
/// empty file.
pub open spec fn last_byte(length: u64) -> u64 {
    if length == 0 {
        0
    } else {
        (length - 1) as u64
    }
}

/// The `Content-Range` of the part of a file of `length` bytes that begins at
/// `start`: `bytes <start>-<length - 1>/<length>`.
pub open spec fn content_range_text(start: u64, length: u64) -> Seq<char> {
    "bytes "@ + decimal_chars(start as nat) + "-"@ + decimal_chars(last_byte(length) as nat) + "/"@
        + decimal_chars(length as nat)
}

/// The response that carries a whole file of `length` bytes.
pub open spec fn full_response(length: u64) -> StreamResponseView {
    StreamResponseView { status: 200, start: 0, content_length: length, content_range: None }
}

/// The response that carries a file of `length` bytes from `start` on, for
/// `start` within the file.
pub open spec fn partial_response(start: u64, length: u64) -> StreamResponseView {
    StreamResponseView {
        status: 206,
        start,
        content_length: (length - start) as u64,
        content_range: Some(content_range_text(start, length)),
    }
}

/// The response to a request for a file of `length` bytes. Without a usable
/// range the whole file is sent. With one the file is sent from the offset
/// on; an offset past the end of the file cannot be sought, which is
/// `StreamUnavailable`.
pub open spec fn response_for(range: Option<Seq<u8>>, length: u64) -> Result<
    StreamResponseView,
    StreamError,
> {
    match requested_start(range) {
        None => Ok(full_response(length)),
        Some(start) => if start <= length {
            Ok(partial_response(start, length))
        } else {
            Err(StreamError::StreamUnavailable)
        },
    }
}

/// A `Range` header as a mathematical value.
pub open spec fn range_view(range: Option<&[u8]>) -> Option<Seq<u8>> {
    match range {
        Some(value) => Some(value@),
        None => None,
    }
}

fn content_range_of(start: u64, length: u64) -> (text: String)
    ensures
        text@ == content_range_text(start, length),
{
    let last = if length == 0 {
        0
    } else {
        length - 1
    };
    let mut text = "bytes ".to_owned();
    text.append(u64_to_decimal(start).as_str());
    text.append("-");
    text.append(u64_to_decimal(last).as_str());
    text.append("/");
    text.append(u64_to_decimal(length).as_str());
    text
}

/// Decides status and headers of the response to a request for a file of
/// `length` bytes, `range` being the value of its `Range` header if it has
/// one.
pub fn plan_response(range: Option<&[u8]>, length: u64) -> (r: Result<StreamResponse, StreamError>)
    ensures
        match r {
            Ok(response) => response_for(range_view(range), length) == Ok::<
                StreamResponseView,
                StreamError,
            >(response@),
            Err(e) => response_for(range_view(range), length) == Err::<
                StreamResponseView,
                StreamError,
            >(e),
        },
{
    let start = match range {
        Some(value) => parse_range_header(value),
        None => None,
    };
    match start {
        None => Ok(
            StreamResponse {
                status: STATUS_OK,
                start: 0,
                content_length: length,
                content_range: None,
            },
        ),
        Some(start) => {
            if start <= length {
                Ok(
                    StreamResponse {
                        status: STATUS_PARTIAL_CONTENT,
                        start,
                        content_length: length - start,
                        content_range: Some(content_range_of(start, length)),
                    },
                )
            } else {
                Err(StreamError::StreamUnavailable)
            }
        },
    }
}

/// Decides the response to a request on an open stream, and moves the
/// stream to the first byte of the body. What then lies after the cursor is
/// the body, `Content-Length` bytes long.
pub fn respond(stream: &mut ByteStream, range: Option<&[u8]>) -> (r: Result<
    StreamResponse,
    StreamError,
>)
    ensures
        final(stream).spec_len() == old(stream).spec_len(),
        match r {
            Ok(response) => {
                &&& response_for(range_view(range), old(stream).spec_len()) == Ok::<
                    StreamResponseView,
                    StreamError,
                >(response@)
                &&& final(stream).spec_position() == response.start
                &&& final(stream).spec_remaining() == response.content_length
            },
            Err(e) => {
                &&& response_for(range_view(range), old(stream).spec_len()) == Err::<
                    StreamResponseView,
                    StreamError,
                >(e)
                &&& final(stream).spec_position() == old(stream).spec_position()
            },
        },
{
    match plan_response(range, stream.len()) {
        Ok(response) => match stream.seek(response.start) {
            Ok(()) => Ok(response),
            Err(e) => Err(e),
        },
        Err(e) => Err(e),
    }
}

/// The value `bytes=<start>-` of a `Range` header.
pub open spec fn open_range(start: u64) -> Seq<u8> {
    range_unit() + decimal_digits(start as nat).push(range_dash())
}

/// A request without a `Range` header is answered with status 200 and a
/// `Content-Length` equal to the length of the file.
pub proof fn lemma_no_range_is_full(length: u64)
    ensures
        response_for(None, length) == Ok::<StreamResponseView, StreamError>(full_response(length)),
        full_response(length).status == 200,
        full_response(length).content_length == length,
        full_response(length).start == 0,
{
}

/// A request with the header `Range: bytes=N-`, `N` not past the end of a
/// file of `length` bytes, is answered with status 206, the `Content-Range`
/// `bytes N-(length - 1)/length`, and a body of `length - N` bytes that
/// begins at byte `N`.
pub proof fn lemma_open_range_is_partial(start: u64, length: u64)
    requires
        start <= length,
    ensures
        range_start(open_range(start)) == Some(start),
        response_for(Some(open_range(start)), length) == Ok::<StreamResponseView, StreamError>(
            partial_response(start, length),
        ),
        partial_response(start, length).status == 206,
        partial_response(start, length).start == start,
        partial_response(start, length).content_length == length - start,
        partial_response(start, length).content_range == Some(
            "bytes "@ + decimal_chars(start as nat) + "-"@ + decimal_chars(
                last_byte(length) as nat,
            ) + "/"@ + decimal_chars(length as nat),
        ),
{
    let digits = decimal_digits(start as nat);
    let value = open_range(start);
    lemma_decimal_roundtrip(start as nat);
    assert(value.len() == 6 + digits.len() + 1);
    assert(value.subrange(0, 6) =~= range_unit());
    assert(value.last() == range_dash());
    assert(value.subrange(6, value.len() - 1) =~= digits);
}

/// A `Range` header that does not have the form `bytes=<digits>-` changes
/// nothing: the response is the one to a request without the header, with
/// status 200 and the whole file, and never a failure.
pub proof fn lemma_unparsable_range_is_ignored(value: Seq<u8>, length: u64)
    requires
        range_start(value) is None,
    ensures
        response_for(Some(value), length) == response_for(None, length),
        response_for(Some(value), length) == Ok::<StreamResponseView, StreamError>(
            full_response(length),
        ),
{
}

/// Suffix ranges are not supported: a value that begins with `bytes=-` asks
/// for no offset.
pub proof fn lemma_suffix_range_is_unparsable(value: Seq<u8>)
    requires
        value.len() >= 7,
        value.subrange(0, 6) == range_unit(),
        value[6] == range_dash(),
    ensures
        range_start(value) is None,
{
    let digits = value.subrange(6, value.len() - 1);
    if digits.len() > 0 {
        assert(digits[0] == value[6]);
    }
}

} // verus!
