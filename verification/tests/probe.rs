use async_fetcher::error::Error;
use async_fetcher::probe::{
    content_length, head, last_modified, supports_range, timed, validate, Headers, Response,
};
use async_fetcher::text::parse_u64;
use async_fetcher::time::{if_modified_since, LAST_DATE};

fn headers(length: Option<&str>, modified: Option<&str>) -> Headers {
    Headers {
        content_length: length.map(|value| value.to_string()),
        last_modified: modified.map(|value| value.to_string()),
    }
}

fn response(status: u16) -> Response {
    Response { status, headers: headers(None, None) }
}

#[test]
fn content_length_reads_a_number() {
    assert_eq!(content_length(&headers(Some("1024"), None)), Some(1024));
    assert_eq!(content_length(&headers(Some("0"), None)), Some(0));
    assert_eq!(content_length(&headers(Some("18446744073709551615"), None)), Some(u64::MAX));
}

#[test]
fn content_length_ignores_what_is_no_number() {
    assert_eq!(content_length(&headers(None, None)), None);
    assert_eq!(content_length(&headers(Some(""), None)), None);
    assert_eq!(content_length(&headers(Some("12a"), None)), None);
    assert_eq!(content_length(&headers(Some(" 12"), None)), None);
    assert_eq!(content_length(&headers(Some("-1"), None)), None);
    assert_eq!(content_length(&headers(Some("18446744073709551616"), None)), None);
}

#[test]
fn parse_u64_agrees_with_the_standard_library() {
    for text in [
        "", "+", "-", "0", "+0", "007", "+42", "42+", "4 2", "١٢٣", "12é",
        "18446744073709551615", "18446744073709551616", "99999999999999999999999", "-0", "++1",
        "1e3", "0x10",
    ] {
        assert_eq!(parse_u64(text), text.parse::<u64>().ok(), "for {:?}", text);
    }
}

#[test]
fn last_modified_reads_an_http_date() {
    let read = last_modified(&headers(None, Some("Wed, 21 Oct 2015 07:28:00 GMT")));
    assert_eq!(read, Some(1_445_412_480));
}

#[test]
fn last_modified_is_brought_to_utc() {
    let read = last_modified(&headers(None, Some("Tue, 1 Jul 2003 10:52:37 +0200")));
    assert_eq!(read, Some(1_057_049_557));
}

#[test]
fn last_modified_ignores_what_is_no_date() {
    assert_eq!(last_modified(&headers(None, None)), None);
    assert_eq!(last_modified(&headers(None, Some("yesterday"))), None);
    assert_eq!(last_modified(&headers(None, Some("2015-10-21T07:28:00Z"))), None);
}

#[test]
fn if_modified_since_writes_an_rfc_2822_date() {
    assert_eq!(if_modified_since(0).as_deref(), Some("Thu, 1 Jan 1970 00:00:00 +0000"));
    assert_eq!(
        if_modified_since(1_445_412_480).as_deref(),
        Some("Wed, 21 Oct 2015 07:28:00 +0000")
    );
}

#[test]
fn if_modified_since_ends_with_the_year_9999() {
    assert_eq!(
        if_modified_since(LAST_DATE).as_deref(),
        Some("Fri, 31 Dec 9999 23:59:59 +0000")
    );
    assert_eq!(if_modified_since(LAST_DATE + 1), None);
    assert_eq!(if_modified_since(u64::MAX), None);
}

#[test]
fn date_written_is_read_back() {
    for seconds in [0u64, 1, 59, 86_399, 86_400, 951_782_400, 1_445_412_480, LAST_DATE] {
        let text = if_modified_since(seconds).unwrap();
        assert_eq!(last_modified(&headers(None, Some(&text))), Some(seconds as i64));
    }
}

#[test]
fn validate_accepts_what_is_below_300() {
    assert_eq!(validate(response(200)), Ok(response(200)));
    assert_eq!(validate(response(206)), Ok(response(206)));
    assert_eq!(validate(response(299)), Ok(response(299)));
}

#[test]
fn validate_refuses_from_300_on() {
    assert_eq!(validate(response(300)), Err(Error::Status(300)));
    assert_eq!(validate(response(304)), Err(Error::Status(304)));
    assert_eq!(validate(response(404)), Err(Error::Status(404)));
    assert_eq!(validate(response(501)), Err(Error::Status(501)));
}

#[test]
fn head_hands_on_a_success() {
    assert_eq!(head(Ok(response(200))), Ok(Some(response(200))));
}

#[test]
fn head_is_absent_where_not_implemented() {
    assert_eq!(head(Ok(response(501))), Ok(None));
}

#[test]
fn head_fails_with_other_statuses() {
    assert_eq!(head(Ok(response(404))), Err(Error::Status(404)));
    assert_eq!(head(Ok(response(500))), Err(Error::Status(500)));
    assert_eq!(head(Ok(response(304))), Err(Error::Status(304)));
}

#[test]
fn head_fails_with_the_client() {
    assert_eq!(head(Err("refused".to_string())), Err(Error::Client("refused".to_string())));
}

#[test]
fn range_is_supported_with_partial_content() {
    assert_eq!(supports_range(Ok(response(206))), Ok(true));
}

#[test]
fn range_is_not_supported_with_another_success() {
    assert_eq!(supports_range(Ok(response(200))), Ok(false));
    assert_eq!(supports_range(Ok(response(204))), Ok(false));
}

#[test]
fn range_probe_fails_with_other_statuses() {
    assert_eq!(supports_range(Ok(response(416))), Err(Error::Status(416)));
    assert_eq!(supports_range(Ok(response(501))), Err(Error::Status(501)));
    assert_eq!(supports_range(Err("reset".to_string())), Err(Error::Client("reset".to_string())));
}

#[test]
fn timed_turns_a_missed_deadline_into_an_error() {
    assert_eq!(timed(Some(7u8)), Ok(7u8));
    assert_eq!(timed::<u8>(None), Err(Error::TimedOut));
}
