use wamp_async::ident::{IdAllocator, MAX_ID};

#[test]
fn first_identifier_is_one() {
    let mut ids = IdAllocator::new();
    assert_eq!(ids.next(), 1);
}

#[test]
fn identifiers_rise_by_one() {
    let mut ids = IdAllocator::new();
    let issued: Vec<u64> = (0..5).map(|_| ids.next()).collect();
    assert_eq!(issued, vec![1, 2, 3, 4, 5]);
}

#[test]
fn largest_identifier_is_two_to_the_53() {
    assert_eq!(MAX_ID, 1u64 << 53);
    let mut ids = IdAllocator::starting_after(MAX_ID - 1);
    assert_eq!(ids.next(), MAX_ID);
}

#[test]
fn identifiers_wrap_to_one() {
    let mut ids = IdAllocator::starting_after(MAX_ID);
    assert_eq!(ids.next(), 1);
    assert_eq!(ids.next(), 2);
}

#[test]
fn allocator_beyond_the_range_returns_to_it() {
    let mut ids = IdAllocator::starting_after(u64::MAX);
    assert_eq!(ids.next(), 1);
}
