use coprocessor::{Deadline, Error};

// A generous bound for "immediately": the elapsed time reported right after
// construction stays far below one second.
const ONE_SECOND_NS: u64 = 1_000_000_000;

#[test]
fn zero_budget_is_outdated_immediately() {
    let d = Deadline::from_now("test", 0);
    match d.check_if_exceeded() {
        Err(Error::Outdated(elapsed_ns, tag)) => {
            assert_eq!(tag, "test");
            assert!(elapsed_ns < ONE_SECOND_NS);
        }
        other => panic!("expected an immediate Outdated error, got {:?}", other),
    }
}

#[test]
fn huge_budget_is_not_outdated() {
    let d = Deadline::from_now("test", u64::MAX);
    assert_eq!(d.check_if_exceeded(), Ok(()));
}

#[test]
fn check_succeeds_strictly_before_the_budget() {
    let d = Deadline::from_now("select", 5);
    assert_eq!(d.check_if_exceeded_at(0), Ok(()));
    assert_eq!(d.check_if_exceeded_at(4), Ok(()));
}

#[test]
fn check_fails_at_and_after_the_budget() {
    let d = Deadline::from_now("select", 5);
    assert_eq!(d.check_if_exceeded_at(5), Err(Error::Outdated(5, "select")));
    assert_eq!(d.check_if_exceeded_at(6), Err(Error::Outdated(6, "select")));
    assert_eq!(
        d.check_if_exceeded_at(u64::MAX),
        Err(Error::Outdated(u64::MAX, "select"))
    );
}

#[test]
fn reset_counts_from_the_original_start() {
    let mut d = Deadline::from_now("test", 0);
    assert!(d.check_if_exceeded().is_err());
    // Widening the budget from the original start brings the deadline back
    // into the future; the elapsed queueing time still counts against it.
    d.reset(u64::MAX);
    assert_eq!(d.check_if_exceeded(), Ok(()));
    d.reset(0);
    assert!(d.check_if_exceeded().is_err());
}

#[test]
fn reset_changes_only_the_budget() {
    let mut d = Deadline::from_now("test", 7);
    d.reset(3);
    assert_eq!(d.check_if_exceeded_at(2), Ok(()));
    assert_eq!(d.check_if_exceeded_at(3), Err(Error::Outdated(3, "test")));
}
