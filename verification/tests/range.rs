use async_fetcher::range::to_string;

#[test]
fn four_parts_of_a_hundred() {
    assert_eq!(async_fetcher::range::calc(100, 4, 0), Some((0, 25)));
    assert_eq!(async_fetcher::range::calc(100, 4, 1), Some((25, 50)));
    assert_eq!(async_fetcher::range::calc(100, 4, 2), Some((50, 75)));
    assert_eq!(async_fetcher::range::calc(100, 4, 3), Some((75, 100)));
}

#[test]
fn remainder_goes_to_the_first_parts() {
    assert_eq!(async_fetcher::range::calc(10, 3, 0), Some((0, 4)));
    assert_eq!(async_fetcher::range::calc(10, 3, 1), Some((4, 7)));
    assert_eq!(async_fetcher::range::calc(10, 3, 2), Some((7, 10)));
}

#[test]
fn no_range_without_parts_or_beyond_them() {
    assert_eq!(async_fetcher::range::calc(10, 0, 0), None);
    assert_eq!(async_fetcher::range::calc(10, 3, 3), None);
    assert_eq!(async_fetcher::range::calc(10, 3, 4), None);
}

#[test]
fn parts_cover_the_length_without_gaps() {
    for length in [0u64, 1, 2, 7, 100, 1023, 65_536] {
        for parts in 1u64..9 {
            let mut next = 0;
            for index in 0..parts {
                let (offset, offset_to) = async_fetcher::range::calc(length, parts, index).unwrap();
                assert_eq!(offset, next);
                assert!(offset <= offset_to);
                next = offset_to;
            }
            assert_eq!(next, length);
        }
    }
}

#[test]
fn largest_length_does_not_overflow() {
    assert_eq!(async_fetcher::range::calc(u64::MAX, 1, 0), Some((0, u64::MAX)));
    let (_, end) = async_fetcher::range::calc(u64::MAX, u64::MAX, u64::MAX - 1).unwrap();
    assert_eq!(end, u64::MAX);
}

#[test]
fn range_header_is_inclusive() {
    assert_eq!(to_string(0, 25), "bytes=0-24");
    assert_eq!(to_string(75, 100), "bytes=75-99");
    assert_eq!(to_string(0, 1), "bytes=0-0");
    assert_eq!(to_string(0, u64::MAX), "bytes=0-18446744073709551614");
}
