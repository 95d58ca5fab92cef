use async_fetcher::assembly::{concatenate, Assembly, Joined, Part, Phase, Signal, Step, Task};
use async_fetcher::error::Error;
use async_fetcher::event::FetchEvent;
use async_fetcher::fetcher::Fetcher;

fn text(value: &str) -> String {
    value.to_string()
}

fn begin(length: u64, parts: u16, urls: &[&str], modified: Option<i64>) -> Assembly {
    let urls = urls.iter().map(|url| url.to_string()).collect();
    let (assembly, task) =
        Assembly::new(length, parts, urls, text("/t/x"), Some(text("/t")), Some(text("x")), modified)
            .unwrap();
    assert_eq!(task, Task::Create);
    assert_eq!(assembly.phase, Phase::Creating);
    assembly
}

fn quiet(task: Task) -> Step {
    Step { report: None, task }
}

fn fetched(index: u16) -> Signal {
    Signal::Fetched(index, Ok(format!("/t/x.part{}", index)))
}

fn copied() -> Signal {
    Signal::Joined(Joined::Copied(Ok(())))
}

#[test]
fn a_hundred_bytes_in_four_parts() {
    let fetcher = Fetcher::new().connections_per_file(4).events();
    let mut assembly = begin(100, 4, &["http://a/x"], None);
    assert_eq!(fetcher.get_many(&mut assembly, Signal::Created(Ok(()))), quiet(Task::Dispatch));
    let jobs = assembly.jobs(&fetcher);
    let expected: Vec<Part> = (0u16..4)
        .map(|index| {
            let offset = 25 * index as u64;
            Part {
                index,
                url: text("http://a/x"),
                directory: text("/t"),
                name: format!("x.part{}", index),
                offset,
                length: 25,
                range: format!("bytes={}-{}", offset, offset + 24),
                announce: Some(FetchEvent::PartFetching(text("/t/x"), index)),
            }
        })
        .collect();
    assert_eq!(jobs, expected);
}

#[test]
fn parts_take_the_addresses_in_turn() {
    let fetcher = Fetcher::new();
    let assembly = begin(10, 5, &["http://a/x", "http://b/x"], None);
    let urls: Vec<String> = assembly.jobs(&fetcher).into_iter().map(|part| part.url).collect();
    assert_eq!(urls, ["http://a/x", "http://b/x", "http://a/x", "http://b/x", "http://a/x"]);
}

#[test]
fn parts_are_not_announced_where_nobody_listens() {
    let fetcher = Fetcher::new();
    let assembly = begin(10, 2, &["http://a/x"], None);
    assert!(assembly.jobs(&fetcher).iter().all(|part| part.announce.is_none()));
}

#[test]
fn the_first_parts_take_the_remainder() {
    let fetcher = Fetcher::new();
    let assembly = begin(10, 3, &["http://a/x"], None);
    let jobs = assembly.jobs(&fetcher);
    let ranges: Vec<(u64, u64, String)> =
        jobs.into_iter().map(|part| (part.offset, part.length, part.range)).collect();
    assert_eq!(
        ranges,
        [(0, 4, text("bytes=0-3")), (4, 3, text("bytes=4-6")), (7, 3, text("bytes=7-9"))]
    );
}

#[test]
fn part_names_count_up_to_the_last_index() {
    let fetcher = Fetcher::new();
    let assembly = begin(70_000, u16::MAX, &["http://a/x"], None);
    let jobs = assembly.jobs(&fetcher);
    assert_eq!(jobs.len(), 65_535);
    assert_eq!(jobs[0].name, "x.part0");
    assert_eq!(jobs[10].name, "x.part10");
    assert_eq!(jobs[65_534].name, "x.part65534");
    assert_eq!(jobs[65_534].offset + jobs[65_534].length, 70_000);
}

#[test]
fn parts_are_joined_in_order_whatever_the_order_they_end_in() {
    let orders: [[u16; 4]; 6] =
        [[0, 1, 2, 3], [3, 2, 1, 0], [1, 0, 3, 2], [2, 3, 0, 1], [3, 0, 2, 1], [1, 3, 2, 0]];
    for order in orders {
        let fetcher = Fetcher::new().events();
        let mut assembly = begin(100, 4, &["http://a/x"], None);
        fetcher.get_many(&mut assembly, Signal::Created(Ok(())));
        let mut joined = Vec::new();
        let mut reported = Vec::new();
        let mut finished = None;
        for index in order {
            let mut step = fetcher.get_many(&mut assembly, fetched(index));
            reported.extend(step.report.take());
            loop {
                match step.task {
                    Task::Join(path) => {
                        joined.push(path);
                        step = fetcher.get_many(&mut assembly, copied());
                    }
                    Task::Wait => break,
                    Task::Finish(result) => {
                        finished = Some(result);
                        break;
                    }
                    other => panic!("unexpected task {:?}", other),
                }
            }
        }
        assert_eq!(joined, ["/t/x.part0", "/t/x.part1", "/t/x.part2", "/t/x.part3"]);
        assert_eq!(finished, Some(Ok(())));
        let expected: Vec<FetchEvent> =
            order.iter().map(|index| FetchEvent::PartFetched(text("/t/x"), *index)).collect();
        assert_eq!(reported, expected);
        assert!(assembly.is_done());
        assert_eq!(assembly.joined, 4);
    }
}

#[test]
fn a_part_that_ends_early_waits_its_turn() {
    let fetcher = Fetcher::new();
    let mut assembly = begin(100, 3, &["http://a/x"], None);
    fetcher.get_many(&mut assembly, Signal::Created(Ok(())));
    assert_eq!(fetcher.get_many(&mut assembly, fetched(2)), quiet(Task::Wait));
    assert_eq!(fetcher.get_many(&mut assembly, fetched(1)), quiet(Task::Wait));
    assert_eq!(assembly.joined, 0);
    assert_eq!(fetcher.get_many(&mut assembly, fetched(0)), quiet(Task::Join(text("/t/x.part0"))));
    assert_eq!(fetcher.get_many(&mut assembly, copied()), quiet(Task::Join(text("/t/x.part1"))));
    assert_eq!(fetcher.get_many(&mut assembly, copied()), quiet(Task::Join(text("/t/x.part2"))));
    assert_eq!(fetcher.get_many(&mut assembly, copied()), quiet(Task::Finish(Ok(()))));
}

#[test]
fn a_part_may_end_while_another_is_joined() {
    let fetcher = Fetcher::new().events();
    let mut assembly = begin(100, 2, &["http://a/x"], None);
    fetcher.get_many(&mut assembly, Signal::Created(Ok(())));
    fetcher.get_many(&mut assembly, fetched(0));
    assert_eq!(assembly.phase, Phase::Joining);
    assert_eq!(
        fetcher.get_many(&mut assembly, fetched(1)),
        Step { report: Some(FetchEvent::PartFetched(text("/t/x"), 1)), task: Task::Wait }
    );
    assert_eq!(fetcher.get_many(&mut assembly, copied()), quiet(Task::Join(text("/t/x.part1"))));
}

#[test]
fn the_timestamp_is_set_after_the_last_part() {
    let fetcher = Fetcher::new();
    let mut assembly = begin(100, 2, &["http://a/x"], Some(1_445_412_480));
    fetcher.get_many(&mut assembly, Signal::Created(Ok(())));
    fetcher.get_many(&mut assembly, fetched(0));
    fetcher.get_many(&mut assembly, fetched(1));
    fetcher.get_many(&mut assembly, copied());
    assert_eq!(fetcher.get_many(&mut assembly, copied()), quiet(Task::Stamp(1_445_412_480)));
    assert_eq!(assembly.phase, Phase::Stamping);
    assert_eq!(fetcher.get_many(&mut assembly, Signal::Stamped(Ok(()))), quiet(Task::Finish(Ok(()))));
}

#[test]
fn a_timestamp_that_cannot_be_set_fails_the_assembly() {
    let fetcher = Fetcher::new();
    let mut assembly = begin(100, 2, &["http://a/x"], Some(5));
    fetcher.get_many(&mut assembly, Signal::Created(Ok(())));
    fetcher.get_many(&mut assembly, fetched(0));
    fetcher.get_many(&mut assembly, fetched(1));
    fetcher.get_many(&mut assembly, copied());
    fetcher.get_many(&mut assembly, copied());
    assert_eq!(
        fetcher.get_many(&mut assembly, Signal::Stamped(Err(text("denied")))),
        quiet(Task::Finish(Err(Error::FileTime(text("/t/x"), text("denied")))))
    );
}

#[test]
fn a_failed_part_fails_the_assembly_in_its_turn() {
    let fetcher = Fetcher::new();
    let mut assembly = begin(100, 3, &["http://a/x"], None);
    fetcher.get_many(&mut assembly, Signal::Created(Ok(())));
    assert_eq!(
        fetcher.get_many(&mut assembly, Signal::Fetched(1, Err(Error::Status(416)))),
        quiet(Task::Wait)
    );
    assert_eq!(fetcher.get_many(&mut assembly, fetched(0)), quiet(Task::Join(text("/t/x.part0"))));
    assert_eq!(
        fetcher.get_many(&mut assembly, copied()),
        quiet(Task::Finish(Err(Error::Status(416))))
    );
    assert!(assembly.is_done());
    assert_eq!(assembly.joined, 1);
    assert_eq!(fetcher.get_many(&mut assembly, fetched(2)), quiet(Task::Wait));
}

#[test]
fn a_part_that_cannot_be_opened_or_copied_fails_the_assembly() {
    let fetcher = Fetcher::new();
    let mut assembly = begin(100, 2, &["http://a/x"], None);
    fetcher.get_many(&mut assembly, Signal::Created(Ok(())));
    fetcher.get_many(&mut assembly, fetched(0));
    assert_eq!(
        fetcher.get_many(&mut assembly, Signal::Joined(Joined::OpenFailed(text("gone")))),
        quiet(Task::Finish(Err(Error::OpenPart(text("/t/x.part0"), text("gone")))))
    );
    let mut assembly = begin(100, 2, &["http://a/x"], None);
    fetcher.get_many(&mut assembly, Signal::Created(Ok(())));
    fetcher.get_many(&mut assembly, fetched(0));
    assert_eq!(
        fetcher.get_many(&mut assembly, Signal::Joined(Joined::CopyFailed(text("full")))),
        quiet(Task::Finish(Err(Error::Concatenate(text("full")))))
    );
}

#[test]
fn a_part_that_cannot_be_removed_is_joined_all_the_same() {
    assert_eq!(concatenate(text("/t/x.part0"), Joined::Copied(Err(text("busy")))), Ok(()));
    assert_eq!(concatenate(text("/t/x.part0"), Joined::Copied(Ok(()))), Ok(()));
    assert_eq!(
        concatenate(text("/t/x.part0"), Joined::OpenFailed(text("gone"))),
        Err(Error::OpenPart(text("/t/x.part0"), text("gone")))
    );
    assert_eq!(
        concatenate(text("/t/x.part0"), Joined::CopyFailed(text("full"))),
        Err(Error::Concatenate(text("full")))
    );
}

#[test]
fn a_destination_that_cannot_be_created_fails_the_assembly() {
    let fetcher = Fetcher::new();
    let mut assembly = begin(100, 2, &["http://a/x"], None);
    assert_eq!(
        fetcher.get_many(&mut assembly, Signal::Created(Err(text("denied")))),
        quiet(Task::Finish(Err(Error::FileCreate(text("denied")))))
    );
}

#[test]
fn a_destination_needs_a_directory_and_a_name() {
    let urls = vec![text("http://a/x")];
    let lone = Assembly::new(9, 2, urls.clone(), text("x"), None, Some(text("x")), None);
    assert_eq!(lone, Err(Error::Parentless));
    let both = Assembly::new(9, 2, urls.clone(), text("/"), None, None, None);
    assert_eq!(both, Err(Error::Parentless));
    let nameless = Assembly::new(9, 2, urls, text("/t/.."), Some(text("/t")), None, None);
    assert_eq!(nameless, Err(Error::Nameless));
}

#[test]
fn a_part_is_recorded_once() {
    let fetcher = Fetcher::new().events();
    let mut assembly = begin(100, 2, &["http://a/x"], None);
    fetcher.get_many(&mut assembly, Signal::Created(Ok(())));
    fetcher.get_many(&mut assembly, fetched(1));
    assert_eq!(
        fetcher.get_many(&mut assembly, Signal::Fetched(1, Err(Error::TimedOut))),
        quiet(Task::Wait)
    );
    assert_eq!(fetcher.get_many(&mut assembly, Signal::Fetched(2, Ok(text("?")))), quiet(Task::Wait));
    assert_eq!(assembly.outcomes[1], Some(Ok(text("/t/x.part1"))));
}
