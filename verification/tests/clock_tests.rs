use dipstick::TimeHandle;

#[test]
fn elapsed_us_until_counts_whole_microseconds() {
    let start = TimeHandle::now();
    let later = TimeHandle::now();
    assert!(start.nanos() <= later.nanos());
    assert_eq!(start.elapsed_us_until(&later), (later.nanos() - start.nanos()) / 1000);
}

#[test]
fn elapsed_us_until_itself_is_zero() {
    let start = TimeHandle::now();
    assert_eq!(start.elapsed_us_until(&start), 0);
}

#[test]
fn now_moves_forward_and_elapsed_is_small() {
    let first = TimeHandle::now();
    let second = TimeHandle::now();
    assert!(second.nanos() >= first.nanos());
    let us = first.elapsed_us();
    assert!(us < 60_000_000);
}

#[test]
fn elapsed_us_is_at_least_what_an_earlier_reading_gave() {
    let start = TimeHandle::now();
    let middle = TimeHandle::now();
    let before = start.elapsed_us_until(&middle);
    let us = start.elapsed_us();
    assert!(us >= before);
}
