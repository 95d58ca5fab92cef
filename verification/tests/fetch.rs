use async_fetcher::error::Error;
use async_fetcher::event::FetchEvent;
use async_fetcher::fetch::{current, Answer, Fetch, Local, Move, Point, Reply};
use async_fetcher::fetcher::Fetcher;
use async_fetcher::probe::{Headers, Response};
use async_fetcher::stream::{Arrival, Download, Order};

const DATE: &str = "Wed, 21 Oct 2015 07:28:00 GMT";
const SECONDS: i64 = 1_445_412_480;

fn text(value: &str) -> String {
    value.to_string()
}

fn response(status: u16, length: Option<&str>, modified: Option<&str>) -> Response {
    Response {
        status,
        headers: Headers {
            content_length: length.map(|value| value.to_string()),
            last_modified: modified.map(|value| value.to_string()),
        },
    }
}

fn begin() -> Fetch {
    let (fetch, first) = Fetch::new(vec![text("http://a/x"), text("http://b/x")], text("/t/x"));
    assert_eq!(first, Move::Exists);
    assert_eq!(fetch.point, Point::Probing);
    fetch
}

fn quiet(action: Move) -> Answer {
    Answer { report: None, action }
}

fn local(len: u64, seconds: u64) -> Reply {
    Reply::Metadata(Ok(Local { len, modified: Ok(seconds) }))
}

/// A fetch whose destination exists but is not what the server has.
fn stale(fetcher: &Fetcher) -> Fetch {
    let mut fetch = begin();
    assert_eq!(fetcher.request(&mut fetch, Reply::Exists(true)), quiet(Move::Head(text("http://a/x"))));
    assert_eq!(
        fetcher.request(&mut fetch, Reply::Head(Ok(response(200, Some("1024"), Some(DATE))))),
        quiet(Move::Metadata)
    );
    assert_eq!(fetch.point, Point::Inspecting(1024, SECONDS));
    fetch
}

#[test]
fn a_current_file_is_not_fetched() {
    let fetcher = Fetcher::new().events();
    let mut fetch = stale(&fetcher);
    assert_eq!(fetcher.request(&mut fetch, local(1024, 1_445_412_480)), quiet(Move::Finish(Ok(()))));
    assert!(fetch.is_done());
}

#[test]
fn a_current_file_is_not_fetched_in_parts_either() {
    let fetcher = Fetcher::new().connections_per_file(4).events();
    let mut fetch = stale(&fetcher);
    assert_eq!(fetcher.request(&mut fetch, local(1024, 1_445_412_480)), quiet(Move::Finish(Ok(()))));
}

#[test]
fn current_means_same_length_and_same_second() {
    assert!(current(1024, 1_445_412_480, 1024, SECONDS));
    assert!(!current(1023, 1_445_412_480, 1024, SECONDS));
    assert!(!current(1024, 1_445_412_481, 1024, SECONDS));
    assert!(!current(1024, 1_445_412_479, 1024, SECONDS));
    assert!(current(0, 0, 0, 0));
    assert!(!current(5, u64::MAX, 5, -1));
    assert!(!current(5, 1, 5, -1));
}

#[test]
fn a_file_of_another_length_is_fetched_on_condition() {
    let fetcher = Fetcher::new();
    let mut fetch = stale(&fetcher);
    assert_eq!(
        fetcher.request(&mut fetch, local(1000, 1_400_000_000)),
        quiet(Move::Stream(
            text("http://a/x"),
            Some(text("Tue, 13 May 2014 16:53:20 +0000")),
            Some(SECONDS)
        ))
    );
    assert_eq!(fetch.point, Point::Streaming);
    assert_eq!(fetch.length, Some(1024));
    assert_eq!(fetch.since, Some(1_400_000_000));
}

#[test]
fn a_file_too_young_for_a_date_is_fetched_without_condition() {
    let fetcher = Fetcher::new();
    let mut fetch = stale(&fetcher);
    assert_eq!(
        fetcher.request(&mut fetch, local(1024, 253_402_300_800)),
        quiet(Move::Stream(text("http://a/x"), None, Some(SECONDS)))
    );
}

#[test]
fn a_missing_file_is_fetched_in_one_stream() {
    let fetcher = Fetcher::new();
    let mut fetch = begin();
    assert_eq!(
        fetcher.request(&mut fetch, Reply::Exists(false)),
        quiet(Move::Stream(text("http://a/x"), None, None))
    );
    assert_eq!(
        fetcher.request(&mut fetch, Reply::Streamed(Ok(text("/t/x")), None)),
        quiet(Move::Finish(Ok(())))
    );
    assert!(fetch.is_done());
}

#[test]
fn a_full_fetch_without_a_file_before() {
    let fetcher = Fetcher::new().events();
    let mut fetch = begin();
    let action = fetcher.request(&mut fetch, Reply::Exists(false)).action;
    let modified = match action {
        Move::Stream(_, None, modified) => modified,
        other => panic!("unexpected move {:?}", other),
    };
    let (mut download, _) = Download::new(text("/t/x"), text("/t/x"), None, modified);
    fetcher.get(&mut download, Arrival::Created(Ok(())));
    fetcher.get(&mut download, Arrival::Responded(Some(Ok(response(200, Some("3000"), None)))));
    let mut progress = Vec::new();
    match fetcher.get(&mut download, Arrival::Read(Some(Ok(3000)))) {
        Order::Write(3000, report) => progress.extend(report),
        other => panic!("unexpected order {:?}", other),
    }
    fetcher.get(&mut download, Arrival::Written(Ok(())));
    let result = match fetcher.get(&mut download, Arrival::Read(Some(Ok(0)))) {
        Order::Finish(result) => result,
        other => panic!("unexpected order {:?}", other),
    };
    assert_eq!(progress, vec![FetchEvent::Progress(text("/t/x"), 3000)]);
    assert_eq!(
        fetcher.request(&mut fetch, Reply::Streamed(result, download.modified)),
        quiet(Move::Finish(Ok(())))
    );
}

#[test]
fn the_download_is_stamped_with_the_servers_time() {
    let fetcher = Fetcher::new();
    let mut fetch = begin();
    fetcher.request(&mut fetch, Reply::Exists(false));
    assert_eq!(
        fetcher.request(&mut fetch, Reply::Streamed(Ok(text("/t/x")), Some(SECONDS))),
        quiet(Move::Stamp(text("/t/x"), SECONDS))
    );
    assert_eq!(fetch.point, Point::Stamping);
    assert_eq!(fetcher.request(&mut fetch, Reply::Stamped(Ok(()))), quiet(Move::Finish(Ok(()))));
}

#[test]
fn a_timestamp_that_cannot_be_set_fails_the_fetch() {
    let fetcher = Fetcher::new();
    let mut fetch = begin();
    fetcher.request(&mut fetch, Reply::Exists(false));
    fetcher.request(&mut fetch, Reply::Streamed(Ok(text("/t/x")), Some(SECONDS)));
    assert_eq!(
        fetcher.request(&mut fetch, Reply::Stamped(Err(text("denied")))),
        quiet(Move::Finish(Err(Error::FileTime(text("/t/x"), text("denied")))))
    );
}

#[test]
fn a_conditional_request_that_is_not_implemented_is_repeated_without_condition() {
    let fetcher = Fetcher::new();
    let mut fetch = stale(&fetcher);
    let first = fetcher.request(&mut fetch, local(1000, 1_400_000_000));
    assert!(matches!(first.action, Move::Stream(_, Some(_), _)));
    assert_eq!(
        fetcher.request(&mut fetch, Reply::Streamed(Err(Error::Status(501)), Some(SECONDS))),
        quiet(Move::Stream(text("http://a/x"), None, Some(SECONDS)))
    );
    assert_eq!(fetch.point, Point::Retrying);
    assert_eq!(
        fetcher.request(&mut fetch, Reply::Streamed(Ok(text("/t/x")), Some(SECONDS))),
        quiet(Move::Stamp(text("/t/x"), SECONDS))
    );
    assert_eq!(fetcher.request(&mut fetch, Reply::Stamped(Ok(()))), quiet(Move::Finish(Ok(()))));
}

#[test]
fn the_request_is_repeated_once_only() {
    let fetcher = Fetcher::new();
    let mut fetch = begin();
    fetcher.request(&mut fetch, Reply::Exists(false));
    fetcher.request(&mut fetch, Reply::Streamed(Err(Error::Status(501)), None));
    assert_eq!(
        fetcher.request(&mut fetch, Reply::Streamed(Err(Error::Status(501)), None)),
        quiet(Move::Finish(Err(Error::Status(501))))
    );
    assert!(fetch.is_done());
}

#[test]
fn another_failure_of_the_download_fails_the_fetch() {
    for error in [Error::Status(404), Error::TimedOut, Error::Write(text("full"))] {
        let fetcher = Fetcher::new();
        let mut fetch = begin();
        fetcher.request(&mut fetch, Reply::Exists(false));
        let expected = quiet(Move::Finish(Err(error.clone())));
        assert_eq!(fetcher.request(&mut fetch, Reply::Streamed(Err(error), None)), expected);
    }
}

#[test]
fn not_modified_ends_well_and_sets_the_time_again() {
    let fetcher = Fetcher::new().events();
    let mut fetch = stale(&fetcher);
    let (since, modified) = match fetcher.request(&mut fetch, local(1000, 1_445_412_480)).action {
        Move::Stream(_, since, modified) => (since, modified),
        other => panic!("unexpected move {:?}", other),
    };
    assert_eq!(since, Some(text("Wed, 21 Oct 2015 07:28:00 +0000")));
    let (mut download, _) = Download::new(text("/t/x"), text("/t/x"), None, modified);
    fetcher.get(&mut download, Arrival::Created(Ok(())));
    let result = match fetcher
        .get(&mut download, Arrival::Responded(Some(Ok(response(304, None, Some(DATE))))))
    {
        Order::Finish(result) => result,
        other => panic!("unexpected order {:?}", other),
    };
    assert_eq!(result, Ok(text("/t/x")));
    assert_eq!(
        fetcher.request(&mut fetch, Reply::Streamed(result, download.modified)),
        quiet(Move::Stamp(text("/t/x"), SECONDS))
    );
    assert_eq!(fetcher.request(&mut fetch, Reply::Stamped(Ok(()))), quiet(Move::Finish(Ok(()))));
}

#[test]
fn a_file_that_cannot_be_read_is_removed() {
    let fetcher = Fetcher::new();
    let mut fetch = stale(&fetcher);
    assert_eq!(
        fetcher.request(&mut fetch, Reply::Metadata(Err(text("denied")))),
        quiet(Move::Remove)
    );
    assert_eq!(
        fetcher.request(&mut fetch, Reply::Removed(Ok(()))),
        quiet(Move::Stream(text("http://a/x"), None, Some(SECONDS)))
    );
}

#[test]
fn a_file_that_cannot_be_removed_fails_the_fetch() {
    let fetcher = Fetcher::new();
    let mut fetch = stale(&fetcher);
    fetcher.request(&mut fetch, Reply::Metadata(Err(text("denied"))));
    assert_eq!(
        fetcher.request(&mut fetch, Reply::Removed(Err(text("busy")))),
        quiet(Move::Finish(Err(Error::MetadataRemove(text("busy")))))
    );
}

#[test]
fn a_modification_time_that_cannot_be_read_fails_the_fetch() {
    let fetcher = Fetcher::new();
    let mut fetch = stale(&fetcher);
    let reply = Reply::Metadata(Ok(Local { len: 1024, modified: Err(text("unsupported")) }));
    assert_eq!(
        fetcher.request(&mut fetch, reply),
        quiet(Move::Finish(Err(Error::Write(text("unsupported")))))
    );
}

#[test]
fn a_server_without_head_is_asked_for_the_file_all_the_same() {
    let fetcher = Fetcher::new();
    let mut fetch = begin();
    fetcher.request(&mut fetch, Reply::Exists(true));
    assert_eq!(
        fetcher.request(&mut fetch, Reply::Head(Ok(response(501, None, None)))),
        quiet(Move::Stream(text("http://a/x"), None, None))
    );
}

#[test]
fn a_head_that_fails_fails_the_fetch() {
    let fetcher = Fetcher::new();
    let mut fetch = begin();
    fetcher.request(&mut fetch, Reply::Exists(true));
    assert_eq!(
        fetcher.request(&mut fetch, Reply::Head(Ok(response(404, None, None)))),
        quiet(Move::Finish(Err(Error::Status(404))))
    );
    let mut fetch = begin();
    fetcher.request(&mut fetch, Reply::Exists(true));
    assert_eq!(
        fetcher.request(&mut fetch, Reply::Head(Err(text("refused")))),
        quiet(Move::Finish(Err(Error::Client(text("refused")))))
    );
}

#[test]
fn headers_that_say_too_little_lead_to_the_download() {
    let fetcher = Fetcher::new();
    let mut fetch = begin();
    fetcher.request(&mut fetch, Reply::Exists(true));
    assert_eq!(
        fetcher.request(&mut fetch, Reply::Head(Ok(response(200, Some("many"), Some(DATE))))),
        quiet(Move::Stream(text("http://a/x"), None, Some(SECONDS)))
    );
}

#[test]
fn a_file_is_fetched_in_parts_where_the_server_serves_ranges() {
    let fetcher = Fetcher::new().connections_per_file(4).events();
    let mut fetch = begin();
    assert_eq!(fetcher.request(&mut fetch, Reply::Exists(false)), quiet(Move::Head(text("http://a/x"))));
    assert_eq!(fetch.point, Point::Sounding);
    assert_eq!(
        fetcher.request(&mut fetch, Reply::Head(Ok(response(200, Some("100"), Some(DATE))))),
        quiet(Move::Probe(text("http://a/x"), text("bytes=0-99")))
    );
    assert_eq!(
        fetcher.request(&mut fetch, Reply::Probed(Ok(response(206, None, None)))),
        Answer {
            report: Some(FetchEvent::ContentLength(text("/t/x"), 100)),
            action: Move::Assemble(100, 4, Some(SECONDS)),
        }
    );
    assert_eq!(fetch.point, Point::Assembling);
    assert_eq!(fetcher.request(&mut fetch, Reply::Assembled(Ok(()))), quiet(Move::Finish(Ok(()))));
    assert!(fetch.is_done());
}

#[test]
fn a_failed_assembly_fails_the_fetch() {
    let fetcher = Fetcher::new().connections_per_file(2);
    let mut fetch = begin();
    fetcher.request(&mut fetch, Reply::Exists(false));
    fetcher.request(&mut fetch, Reply::Head(Ok(response(200, Some("100"), None))));
    assert_eq!(
        fetcher.request(&mut fetch, Reply::Probed(Ok(response(206, None, None)))),
        quiet(Move::Assemble(100, 2, None))
    );
    assert_eq!(
        fetcher.request(&mut fetch, Reply::Assembled(Err(Error::Nameless))),
        quiet(Move::Finish(Err(Error::Nameless)))
    );
}

#[test]
fn a_server_without_ranges_is_asked_for_one_stream() {
    let fetcher = Fetcher::new().connections_per_file(4);
    let mut fetch = begin();
    fetcher.request(&mut fetch, Reply::Exists(false));
    fetcher.request(&mut fetch, Reply::Head(Ok(response(200, Some("100"), Some(DATE)))));
    assert_eq!(
        fetcher.request(&mut fetch, Reply::Probed(Ok(response(200, None, None)))),
        quiet(Move::Stream(text("http://a/x"), None, Some(SECONDS)))
    );
}

#[test]
fn a_range_probe_that_fails_fails_the_fetch() {
    let fetcher = Fetcher::new().connections_per_file(4);
    let mut fetch = begin();
    fetcher.request(&mut fetch, Reply::Exists(false));
    fetcher.request(&mut fetch, Reply::Head(Ok(response(200, Some("100"), None))));
    assert_eq!(
        fetcher.request(&mut fetch, Reply::Probed(Ok(response(416, None, None)))),
        quiet(Move::Finish(Err(Error::Status(416))))
    );
}

#[test]
fn an_unknown_or_empty_length_is_fetched_in_one_stream() {
    let fetcher = Fetcher::new().connections_per_file(4);
    for length in [None, Some("0")] {
        let mut fetch = begin();
        fetcher.request(&mut fetch, Reply::Exists(false));
        assert_eq!(
            fetcher.request(&mut fetch, Reply::Head(Ok(response(200, length, Some(DATE))))),
            quiet(Move::Stream(text("http://a/x"), None, Some(SECONDS)))
        );
    }
}

#[test]
fn the_length_of_the_first_answer_is_kept() {
    let fetcher = Fetcher::new().connections_per_file(2);
    let mut fetch = stale(&fetcher);
    assert_eq!(
        fetcher.request(&mut fetch, local(1000, 1_400_000_000)),
        quiet(Move::Head(text("http://a/x")))
    );
    assert_eq!(
        fetcher.request(&mut fetch, Reply::Head(Ok(response(200, Some("2048"), None)))),
        quiet(Move::Probe(text("http://a/x"), text("bytes=0-1023")))
    );
    assert_eq!(fetch.modified, None);
    assert_eq!(
        fetcher.request(&mut fetch, Reply::Probed(Ok(response(200, None, None)))),
        quiet(Move::Stream(
            text("http://a/x"),
            Some(text("Tue, 13 May 2014 16:53:20 +0000")),
            None
        ))
    );
}

#[test]
fn a_fetch_that_has_ended_stays_ended() {
    let fetcher = Fetcher::new();
    let mut fetch = begin();
    fetcher.request(&mut fetch, Reply::Exists(false));
    fetcher.request(&mut fetch, Reply::Streamed(Ok(text("/t/x")), None));
    assert_eq!(fetcher.request(&mut fetch, Reply::Exists(true)), quiet(Move::Wait));
    assert_eq!(fetcher.request(&mut fetch, Reply::Stamped(Ok(()))), quiet(Move::Wait));
    assert!(fetch.is_done());
}
