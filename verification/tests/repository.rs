use ramifi::{Account, FilterStatus, Issue, Repository, Status, TrackerError};

fn pause() {
    let start = std::time::Instant::now();
    while start.elapsed() < std::time::Duration::from_millis(3) {}
}

fn alice() -> Account {
    Account::new("alice", "alice@example.com")
}

fn labels(names: &[&str]) -> Vec<String> {
    names.iter().map(|name| name.to_string()).collect()
}

fn seeded() -> Repository {
    let mut repository = Repository::new();
    let user = alice();
    repository.create_issue("GUI implementation", &user, &labels(&["Enhancement"])).unwrap();
    repository.create_issue("Persistence", &user, &labels(&["Feature"])).unwrap();
    repository.create_issue("UI polish", &user, &labels(&["Design"])).unwrap();
    repository
}

fn ids(listing: &[(usize, Issue)]) -> Vec<usize> {
    listing.iter().map(|(id, _)| *id).collect()
}

#[test]
fn a_new_repository_has_no_issues() {
    let repository = Repository::new();
    assert_eq!(repository.count(), 0);
    assert!(repository.get(0).is_none());
    assert!(repository.get(1).is_none());
    assert!(repository.list(FilterStatus::All, "").is_empty());
}

#[test]
fn identifiers_start_at_one_and_grow_by_one() {
    let mut repository = Repository::new();
    let user = alice();
    assert_eq!(repository.create_issue("first", &user, &labels(&[])), Ok(1));
    assert_eq!(repository.create_issue("second", &user, &labels(&[])), Ok(2));
    assert_eq!(repository.create_issue("third", &user, &labels(&[])), Ok(3));
    assert_eq!(repository.count(), 3);
}

#[test]
fn a_created_issue_is_open_and_holds_what_it_was_given() {
    let mut repository = Repository::new();
    let id = repository
        .create_issue("Crash on start", &alice(), &labels(&["Bug", "Urgent", "Bug"]))
        .unwrap();
    let issue = repository.get(id).unwrap();
    assert_eq!(issue.name(), "Crash on start");
    assert_eq!(issue.status(), Status::Open);
    assert_eq!(issue.creator().name(), "alice");
    assert_eq!(issue.labels(), &labels(&["Bug", "Urgent", "Bug"]));
    assert!(issue.comments().is_empty());
    assert_eq!(issue.parent(), None);
    assert!(issue.created_at() > 1_600_000_000_000);
    assert_eq!(issue.updated_at(), issue.created_at());
    assert_eq!(issue.creator().email(), "alice@example.com");
    assert!(issue.dates_fit());
    assert!(repository.dates_fit());
}

#[test]
fn closing_and_commenting_update_an_issue() {
    let mut repository = seeded();
    let created = repository.get(1).unwrap().created_at();
    pause();
    repository.close_as_completed(1).unwrap();
    let closed = repository.get(1).unwrap().updated_at();
    assert!(closed > created);
    pause();
    repository.reopen(1).unwrap();
    assert_eq!(repository.get(1).unwrap().updated_at(), closed);
    repository.add_comment(1, "again", &alice()).unwrap();
    let commented = repository.get(1).unwrap().updated_at();
    assert!(commented > closed);
    assert_eq!(repository.get(1).unwrap().created_at(), created);
    pause();
    let child = repository.fork(1).unwrap();
    assert_eq!(repository.get(1).unwrap().updated_at(), commented);
    assert_eq!(repository.get(child).unwrap().updated_at(), commented);
    repository.close_as_not_planned(child).unwrap();
    assert!(repository.get(child).unwrap().updated_at() > commented);
    assert_eq!(repository.get(2).unwrap().updated_at(), repository.get(2).unwrap().created_at());
}

#[test]
fn an_empty_name_is_refused() {
    let mut repository = seeded();
    assert_eq!(
        repository.create_issue("", &alice(), &labels(&["Bug"])),
        Err(TrackerError::Validation)
    );
    assert_eq!(repository.count(), 3);
}

#[test]
fn the_placeholder_of_the_store_is_no_issue() {
    let mut repository = seeded();
    assert!(repository.get(0).is_none());
    assert_eq!(repository.close_as_completed(0), Err(TrackerError::NotFound));
    assert_eq!(repository.close_as_not_planned(0), Err(TrackerError::NotFound));
    assert_eq!(repository.reopen(0), Err(TrackerError::NotFound));
    assert_eq!(repository.add_comment(0, "hello", &alice()), Err(TrackerError::NotFound));
    assert_eq!(repository.fork(0), None);
    assert_eq!(ids(&repository.list(FilterStatus::All, "")), vec![3, 2, 1]);
    assert!(repository.list(FilterStatus::All, "root").is_empty());
}

#[test]
fn comments_are_appended_in_order() {
    let mut repository = seeded();
    let bob = Account::new("bob", "bob@example.com");
    assert_eq!(repository.add_comment(2, "first", &alice()), Ok(()));
    assert_eq!(repository.add_comment(2, "second\nline", &bob), Ok(()));
    let issue = repository.get(2).unwrap();
    let comments = issue.comments();
    assert_eq!(comments.len(), 2);
    assert_eq!(comments[0].text(), "first");
    assert_eq!(comments[0].author().name(), "alice");
    assert_eq!(comments[1].text(), "second\nline");
    assert_eq!(comments[1].author().name(), "bob");
    assert_eq!(comments[1].author().email(), "bob@example.com");
    assert!(comments[0].date() > 1_600_000_000_000);
    assert!(comments[0].date() <= comments[1].date());
    assert!(repository.get(1).unwrap().comments().is_empty());
    assert!(repository.get(3).unwrap().comments().is_empty());
}

#[test]
fn an_empty_comment_is_refused() {
    let mut repository = seeded();
    assert_eq!(repository.add_comment(1, "", &alice()), Err(TrackerError::Validation));
    assert!(repository.get(1).unwrap().comments().is_empty());
}

#[test]
fn an_empty_comment_on_no_issue_is_refused_as_empty() {
    let mut repository = seeded();
    assert_eq!(repository.add_comment(9, "", &alice()), Err(TrackerError::Validation));
}

#[test]
fn a_comment_on_no_issue_is_not_found() {
    let mut repository = seeded();
    assert_eq!(repository.add_comment(4, "hello", &alice()), Err(TrackerError::NotFound));
    assert_eq!(repository.add_comment(usize::MAX, "hello", &alice()), Err(TrackerError::NotFound));
}

#[test]
fn closing_leaves_the_status_of_the_last_call() {
    let mut repository = seeded();
    assert_eq!(repository.close_as_completed(2), Ok(()));
    assert_eq!(repository.get(2).unwrap().status(), Status::ClosedCompleted);
    assert_eq!(repository.close_as_completed(2), Ok(()));
    assert_eq!(repository.get(2).unwrap().status(), Status::ClosedCompleted);
    assert_eq!(repository.close_as_not_planned(2), Ok(()));
    assert_eq!(repository.get(2).unwrap().status(), Status::ClosedNotPlanned);
    assert_eq!(repository.close_as_not_planned(2), Ok(()));
    assert_eq!(repository.get(2).unwrap().status(), Status::ClosedNotPlanned);
    assert_eq!(repository.close_as_completed(2), Ok(()));
    assert_eq!(repository.get(2).unwrap().status(), Status::ClosedCompleted);
    assert_eq!(repository.get(1).unwrap().status(), Status::Open);
    assert_eq!(repository.get(3).unwrap().status(), Status::Open);
}

#[test]
fn closing_keeps_the_rest_of_the_issue() {
    let mut repository = seeded();
    repository.add_comment(1, "a comment", &alice()).unwrap();
    let before = repository.get(1).unwrap();
    repository.close_as_not_planned(1).unwrap();
    let after = repository.get(1).unwrap();
    assert_eq!(after.name(), before.name());
    assert_eq!(after.labels(), before.labels());
    assert_eq!(after.comments().len(), 1);
    assert_eq!(after.created_at(), before.created_at());
    assert_eq!(after.parent(), None);
}

#[test]
fn reopening_opens_from_every_closed_status() {
    let mut repository = seeded();
    repository.close_as_completed(1).unwrap();
    repository.close_as_not_planned(2).unwrap();
    repository.fork(3).unwrap();
    assert_eq!(repository.reopen(1), Ok(()));
    assert_eq!(repository.reopen(2), Ok(()));
    assert_eq!(repository.reopen(3), Ok(()));
    assert_eq!(repository.reopen(4), Ok(()));
    for id in 1..=4 {
        assert_eq!(repository.get(id).unwrap().status(), Status::Open);
    }
}

#[test]
fn transitions_on_no_issue_are_not_found() {
    let mut repository = seeded();
    assert_eq!(repository.close_as_completed(4), Err(TrackerError::NotFound));
    assert_eq!(repository.close_as_not_planned(4), Err(TrackerError::NotFound));
    assert_eq!(repository.reopen(4), Err(TrackerError::NotFound));
    assert_eq!(repository.count(), 3);
}

#[test]
fn a_fork_is_a_new_open_issue_that_names_its_parent() {
    let mut repository = seeded();
    repository.add_comment(2, "why", &alice()).unwrap();
    let child = repository.fork(2);
    assert_eq!(child, Some(4));
    let parent = repository.get(2).unwrap();
    let fork = repository.get(4).unwrap();
    assert_eq!(parent.status(), Status::ClosedForked);
    assert_eq!(parent.parent(), None);
    assert_eq!(fork.status(), Status::Open);
    assert_eq!(fork.parent(), Some(2));
    assert_eq!(fork.name(), "Persistence");
    assert_eq!(fork.labels(), &labels(&["Feature"]));
    assert_eq!(fork.creator().name(), "alice");
    assert_eq!(fork.comments().len(), 1);
    assert_eq!(fork.comments()[0].text(), "why");
    assert_eq!(fork.created_at(), parent.created_at());
    assert_eq!(repository.count(), 4);
}

#[test]
fn a_fork_of_a_fork_names_its_immediate_parent() {
    let mut repository = seeded();
    let child = repository.fork(1).unwrap();
    let grandchild = repository.fork(child).unwrap();
    assert_eq!(child, 4);
    assert_eq!(grandchild, 5);
    assert_eq!(repository.get(grandchild).unwrap().parent(), Some(child));
    assert_eq!(repository.get(child).unwrap().parent(), Some(1));
    assert_eq!(repository.get(child).unwrap().status(), Status::ClosedForked);
}

#[test]
fn a_fork_of_no_issue_changes_nothing() {
    let mut repository = seeded();
    assert_eq!(repository.fork(4), None);
    assert_eq!(repository.fork(usize::MAX), None);
    assert_eq!(repository.count(), 3);
    for id in 1..=3 {
        assert_eq!(repository.get(id).unwrap().status(), Status::Open);
    }
}

#[test]
fn a_closed_issue_can_be_forked() {
    let mut repository = seeded();
    repository.close_as_completed(3).unwrap();
    assert_eq!(repository.fork(3), Some(4));
    assert_eq!(repository.get(3).unwrap().status(), Status::ClosedForked);
    assert_eq!(repository.get(4).unwrap().status(), Status::Open);
}

#[test]
fn search_finds_the_first_issue_whatever_the_case() {
    let repository = seeded();
    for query in ["gui", "GUI", "Gui", "gUI"] {
        let listing = repository.list(FilterStatus::All, query);
        assert_eq!(listing.len(), 1);
        assert_eq!(listing[0].0, 1);
        assert_eq!(listing[0].1.name(), "GUI implementation");
    }
}

#[test]
fn a_listing_is_newest_first() {
    let repository = seeded();
    let listing = repository.list(FilterStatus::All, "");
    assert_eq!(ids(&listing), vec![3, 2, 1]);
    assert_eq!(listing[0].1.name(), "UI polish");
    assert_eq!(listing[1].1.name(), "Persistence");
    assert_eq!(listing[2].1.name(), "GUI implementation");
    assert_eq!(ids(&repository.list(FilterStatus::All, "ui")), vec![3, 1]);
}

#[test]
fn a_listing_goes_by_filter_and_query() {
    let mut repository = seeded();
    repository.close_as_completed(1).unwrap();
    repository.close_as_not_planned(2).unwrap();
    repository.fork(3).unwrap();
    assert_eq!(ids(&repository.list(FilterStatus::Open, "")), vec![4]);
    assert_eq!(ids(&repository.list(FilterStatus::Completed, "")), vec![3, 1]);
    assert_eq!(ids(&repository.list(FilterStatus::NotPlanned, "")), vec![2]);
    assert_eq!(ids(&repository.list(FilterStatus::All, "")), vec![4, 3, 2, 1]);
    assert_eq!(ids(&repository.list(FilterStatus::Completed, "POLISH")), vec![3]);
    assert_eq!(ids(&repository.list(FilterStatus::All, "polish")), vec![4, 3]);
    assert!(repository.list(FilterStatus::NotPlanned, "gui").is_empty());
    assert!(repository.list(FilterStatus::All, "nothing like it").is_empty());
}

#[test]
fn a_listed_issue_is_the_issue_itself() {
    let mut repository = seeded();
    repository.add_comment(2, "note", &alice()).unwrap();
    let listing = repository.list(FilterStatus::Open, "persist");
    assert_eq!(listing.len(), 1);
    let (id, issue) = &listing[0];
    assert_eq!(*id, 2);
    assert_eq!(issue.labels(), &labels(&["Feature"]));
    assert_eq!(issue.comments()[0].text(), "note");
    assert_eq!(issue.creator().name(), "alice");
}
