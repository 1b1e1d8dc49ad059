use mux::streams::Polled;
use mux::streams::SelectAll;
use mux::streams::Step;

#[test]
fn an_empty_set_is_done() {
    let mut set = SelectAll::new();
    assert!(set.is_empty());
    assert_eq!(set.len(), 0);
    assert_eq!(set.on_polled(Polled::Nothing), Step::Done);
    assert_eq!(set.len(), 0);
}

#[test]
fn a_member_that_yields_stays_and_one_that_ends_leaves() {
    let mut set = SelectAll::new();
    set.push();
    set.push();
    assert_eq!(set.len(), 2);
    assert!(!set.is_empty());
    assert_eq!(set.on_polled(Polled::Item), Step::Yield);
    assert_eq!(set.len(), 2);
    assert_eq!(set.on_polled(Polled::Pending), Step::Wait);
    assert_eq!(set.len(), 2);
    assert_eq!(set.on_polled(Polled::Ended), Step::Again);
    assert_eq!(set.len(), 1);
    assert_eq!(set.on_polled(Polled::Item), Step::Yield);
    assert_eq!(set.on_polled(Polled::Ended), Step::Again);
    assert!(set.is_empty());
    assert_eq!(set.on_polled(Polled::Nothing), Step::Done);
}
