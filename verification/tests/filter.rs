use ramifi::{FilterStatus, Status};

const STATUSES: [Status; 4] =
    [Status::Open, Status::ClosedCompleted, Status::ClosedNotPlanned, Status::ClosedForked];

#[test]
fn open_filter_shows_open_issues_only() {
    for status in STATUSES {
        assert_eq!(FilterStatus::Open.matches(&status), status == Status::Open);
    }
}

#[test]
fn completed_filter_shows_completed_and_forked_issues() {
    assert!(!FilterStatus::Completed.matches(&Status::Open));
    assert!(FilterStatus::Completed.matches(&Status::ClosedCompleted));
    assert!(!FilterStatus::Completed.matches(&Status::ClosedNotPlanned));
    assert!(FilterStatus::Completed.matches(&Status::ClosedForked));
}

#[test]
fn not_planned_filter_shows_issues_that_are_not_planned_only() {
    for status in STATUSES {
        assert_eq!(
            FilterStatus::NotPlanned.matches(&status),
            status == Status::ClosedNotPlanned
        );
    }
}

#[test]
fn all_filter_shows_every_status() {
    for status in STATUSES {
        assert!(FilterStatus::All.matches(&status));
    }
}

#[test]
fn every_status_is_shown_under_exactly_one_filter_besides_all() {
    for status in STATUSES {
        let shown = [FilterStatus::Open, FilterStatus::Completed, FilterStatus::NotPlanned]
            .iter()
            .filter(|filter| filter.matches(&status))
            .count();
        assert_eq!(shown, 1);
    }
}

#[test]
fn statuses_have_their_labels() {
    assert_eq!(Status::Open.label(), "Open");
    assert_eq!(Status::ClosedCompleted.label(), "Completed");
    assert_eq!(Status::ClosedNotPlanned.label(), "Not Planned");
    assert_eq!(Status::ClosedForked.label(), "Forked");
}
