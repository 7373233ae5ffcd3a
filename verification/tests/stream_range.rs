use hypertube::error::ApiError;
use hypertube::stream::byte_stream::ByteStream;
use hypertube::stream::byte_stream::CHUNK_SIZE;
use hypertube::stream::error::StreamError;
use hypertube::stream::range::parse_range_header;
use hypertube::stream::range::plan_response;
use hypertube::stream::range::respond;
use hypertube::stream::range::STREAM_CONTENT_TYPE;
use hypertube::stream::routes::acquired_stream;
use hypertube::stream::routes::stream_file;
use hypertube::text::parse_decimal;
use hypertube::text::u64_to_decimal;

#[test]
fn no_range_gives_the_whole_file() {
    let response = plan_response(None, 1000).unwrap();
    assert_eq!(response.status, 200);
    assert_eq!(response.content_length, 1000);
    assert_eq!(response.start, 0);
    assert_eq!(response.content_range, None);
}

#[test]
fn no_range_on_an_empty_file() {
    let response = plan_response(None, 0).unwrap();
    assert_eq!(response.status, 200);
    assert_eq!(response.content_length, 0);
}

#[test]
fn open_range_gives_the_rest_of_the_file() {
    let response = plan_response(Some(b"bytes=100-"), 1000).unwrap();
    assert_eq!(response.status, 206);
    assert_eq!(response.start, 100);
    assert_eq!(response.content_length, 900);
    assert_eq!(response.content_range, Some("bytes 100-999/1000".to_string()));
}

#[test]
fn open_range_from_zero_is_partial() {
    let response = plan_response(Some(b"bytes=0-"), 10).unwrap();
    assert_eq!(response.status, 206);
    assert_eq!(response.content_length, 10);
    assert_eq!(response.content_range, Some("bytes 0-9/10".to_string()));
}

#[test]
fn open_range_at_the_end_has_an_empty_body() {
    let response = plan_response(Some(b"bytes=10-"), 10).unwrap();
    assert_eq!(response.status, 206);
    assert_eq!(response.start, 10);
    assert_eq!(response.content_length, 0);
    assert_eq!(response.content_range, Some("bytes 10-9/10".to_string()));
}

#[test]
fn open_range_on_an_empty_file() {
    let response = plan_response(Some(b"bytes=0-"), 0).unwrap();
    assert_eq!(response.status, 206);
    assert_eq!(response.content_length, 0);
    assert_eq!(response.content_range, Some("bytes 0-0/0".to_string()));
}

#[test]
fn range_past_the_end_is_unavailable() {
    assert_eq!(plan_response(Some(b"bytes=11-"), 10).unwrap_err(), StreamError::StreamUnavailable);
}

#[test]
fn largest_offset_is_read() {
    assert_eq!(parse_range_header(b"bytes=18446744073709551615-"), Some(u64::MAX));
    let response = plan_response(Some(b"bytes=18446744073709551615-"), u64::MAX).unwrap();
    assert_eq!(response.content_length, 0);
    assert_eq!(
        response.content_range,
        Some("bytes 18446744073709551615-18446744073709551614/18446744073709551615".to_string())
    );
}

#[test]
fn offset_beyond_64_bits_is_unparsable() {
    assert_eq!(parse_range_header(b"bytes=18446744073709551616-"), None);
    let response = plan_response(Some(b"bytes=18446744073709551616-"), 10).unwrap();
    assert_eq!(response.status, 200);
    assert_eq!(response.content_length, 10);
}

#[test]
fn leading_zeros_are_digits() {
    assert_eq!(parse_range_header(b"bytes=0000000000000000000000007-"), Some(7));
}

#[test]
fn unparsable_ranges_fall_back_to_the_whole_file() {
    let values: Vec<&[u8]> = vec![
        b"",
        b"bytes",
        b"bytes=",
        b"bytes=-",
        b"bytes=-500",
        b"bytes=0-499",
        b"bytes=0-0,5-",
        b"bytes=5-,",
        b"bytes=abc-",
        b"bytes=+5-",
        b"bytes= 5-",
        b"bytes=5 -",
        b"bytes=5--",
        b"Bytes=5-",
        b"items=5-",
        b" bytes=5-",
        b"bytes=5-\n",
        b"bytes=\xff-",
    ];
    for value in values {
        assert_eq!(parse_range_header(value), None);
        let response = plan_response(Some(value), 1000).unwrap();
        let full = plan_response(None, 1000).unwrap();
        assert_eq!(response.status, 200);
        assert_eq!(response.status, full.status);
        assert_eq!(response.start, full.start);
        assert_eq!(response.content_length, full.content_length);
        assert_eq!(response.content_range, full.content_range);
    }
}

#[test]
fn respond_moves_the_stream_to_the_body() {
    let mut stream = ByteStream::new(1000);
    let response = respond(&mut stream, Some(b"bytes=250-")).unwrap();
    assert_eq!(response.status, 206);
    assert_eq!(stream.position(), 250);
    assert_eq!(stream.remaining(), response.content_length);
    assert_eq!(stream.len(), 1000);
}

#[test]
fn respond_leaves_the_stream_on_failure() {
    let mut stream = ByteStream::new(1000);
    stream.seek(10).unwrap();
    assert_eq!(
        respond(&mut stream, Some(b"bytes=1001-")).unwrap_err(),
        StreamError::StreamUnavailable
    );
    assert_eq!(stream.position(), 10);
}

#[test]
fn stream_file_reports_api_errors() {
    let mut stream = acquired_stream(Some(5)).unwrap();
    assert!(matches!(
        stream_file(&mut stream, Some(b"bytes=6-")),
        Err(ApiError::StreamError(StreamError::StreamUnavailable))
    ));
    let response = stream_file(&mut stream, None).unwrap();
    assert_eq!(response.status, 200);
    assert_eq!(response.content_length, 5);
    assert!(matches!(
        acquired_stream(None),
        Err(ApiError::StreamError(StreamError::StreamUnavailable))
    ));
}

#[test]
fn stream_content_type_is_a_video_type() {
    assert_eq!(STREAM_CONTENT_TYPE, "video/mkv");
}

#[test]
fn seek_within_and_past_the_file() {
    let mut stream = ByteStream::new(100);
    assert_eq!(stream.position(), 0);
    assert_eq!(stream.seek(100), Ok(()));
    assert_eq!(stream.position(), 100);
    assert!(stream.is_finished());
    assert_eq!(stream.seek(101), Err(StreamError::StreamUnavailable));
    assert_eq!(stream.position(), 100);
    assert_eq!(stream.seek(0), Ok(()));
    assert_eq!(stream.remaining(), 100);
}

#[test]
fn chunks_cover_the_body() {
    let length = 3 * CHUNK_SIZE + 17;
    let mut stream = ByteStream::new(length);
    stream.seek(5).unwrap();
    let mut sizes = Vec::new();
    while !stream.is_finished() {
        let size = stream.next_chunk_len();
        assert!(size > 0 && size <= CHUNK_SIZE);
        sizes.push(size);
        stream.advance(size);
    }
    assert_eq!(sizes, vec![65536, 65536, 65536, 12]);
    assert_eq!(sizes.iter().sum::<u64>(), length - 5);
    assert_eq!(stream.next_chunk_len(), 0);
}

#[test]
fn advance_stops_at_the_end() {
    let mut stream = ByteStream::new(10);
    stream.advance(4);
    assert_eq!(stream.position(), 4);
    stream.advance(u64::MAX);
    assert_eq!(stream.position(), 10);
    stream.advance(1);
    assert_eq!(stream.position(), 10);
}

#[test]
fn short_reads_move_the_cursor_by_what_was_read() {
    let mut stream = ByteStream::new(100_000);
    assert_eq!(stream.next_chunk_len(), 65536);
    stream.advance(1000);
    assert_eq!(stream.position(), 1000);
    assert_eq!(stream.next_chunk_len(), 65536);
    stream.advance(65536);
    assert_eq!(stream.next_chunk_len(), 100_000 - 66_536);
}

#[test]
fn decimal_writing_and_reading_agree() {
    for n in [0u64, 1, 9, 10, 11, 99, 100, 12345, 4294967296, u64::MAX - 1, u64::MAX] {
        let text = u64_to_decimal(n);
        assert_eq!(text, n.to_string());
        assert_eq!(parse_decimal(text.as_bytes(), 0, text.len()), Some(n));
        let header = format!("bytes={}-", text);
        assert_eq!(parse_range_header(header.as_bytes()), Some(n));
    }
}

#[test]
fn decimal_reading_of_a_part() {
    assert_eq!(parse_decimal(b"ab123cd", 2, 5), Some(123));
    assert_eq!(parse_decimal(b"ab123cd", 2, 6), None);
    assert_eq!(parse_decimal(b"ab123cd", 2, 2), None);
    assert_eq!(parse_decimal(b"", 0, 0), None);
    assert_eq!(parse_decimal(b"99999999999999999999", 0, 20), None);
}
