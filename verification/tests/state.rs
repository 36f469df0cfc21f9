use ramifi::{Account, ApplicationState, FilterStatus, Issue, Status, TrackerError};

fn ids(listing: &[(usize, Issue)]) -> Vec<usize> {
    listing.iter().map(|(id, _)| *id).collect()
}

fn names(users: &[Account]) -> Vec<String> {
    users.iter().map(|user| user.name()).collect()
}

#[test]
fn a_new_application_starts_with_one_user_and_three_issues() {
    let state = ApplicationState::new();
    assert_eq!(names(&state.users.list_users()), vec!["coyuki"]);
    assert_eq!(state.current_user.name(), "coyuki");
    assert_eq!(state.filter, FilterStatus::Open);
    assert_eq!(state.issues.count(), 3);
    let expected = [
        ("GUI実装", "Enhancement", "eframeを使ってGUIを作る"),
        ("永続化", "Feature", "データを保存する"),
        ("UI改善", "Design", "見た目を良くする"),
    ];
    for (index, (name, label, description)) in expected.iter().enumerate() {
        let issue = state.issues.get(index + 1).unwrap();
        assert_eq!(issue.name(), *name);
        assert_eq!(issue.status(), Status::Open);
        assert_eq!(issue.creator().name(), "coyuki");
        assert_eq!(issue.labels(), &vec![label.to_string()]);
        assert_eq!(issue.parent(), None);
        assert_eq!(issue.comments().len(), 1);
        assert_eq!(issue.comments()[0].text(), *description);
        assert_eq!(issue.comments()[0].author().name(), "coyuki");
    }
    assert_eq!(ids(&state.visible("")), vec![3, 2, 1]);
    assert_eq!(ids(&state.visible("ui")), vec![3, 1]);
}

#[test]
fn a_state_with_a_user_has_no_issues() {
    let state = ApplicationState::with_user(Account::new("alice", "alice@example.com"));
    assert_eq!(state.issues.count(), 0);
    assert_eq!(names(&state.users.list_users()), vec!["alice"]);
    assert_eq!(state.current_user.name(), "alice");
    assert_eq!(state.filter, FilterStatus::Open);
    assert!(state.visible("").is_empty());
}

#[test]
fn a_submission_is_an_issue_with_its_description_as_first_comment() {
    let mut state = ApplicationState::with_user(Account::new("alice", "alice@example.com"));
    let labels = vec!["Bug".to_string()];
    assert_eq!(state.submit("Crash", &labels, "It crashes on start."), Ok(1));
    assert_eq!(state.submit("Typo", &Vec::new(), "Typo"), Ok(2));
    let issue = state.issues.get(1).unwrap();
    assert_eq!(issue.name(), "Crash");
    assert_eq!(issue.labels(), &labels);
    assert_eq!(issue.creator().name(), "alice");
    assert_eq!(issue.status(), Status::Open);
    assert_eq!(issue.comments().len(), 1);
    assert_eq!(issue.comments()[0].text(), "It crashes on start.");
    assert_eq!(issue.comments()[0].author().name(), "alice");
    assert!(state.issues.get(2).unwrap().labels().is_empty());
}

#[test]
fn a_submission_without_name_or_description_is_refused() {
    let mut state = ApplicationState::new();
    assert_eq!(state.submit("", &Vec::new(), "text"), Err(TrackerError::Validation));
    assert_eq!(state.submit("name", &Vec::new(), ""), Err(TrackerError::Validation));
    assert_eq!(state.issues.count(), 3);
}

#[test]
fn comments_are_made_in_the_name_of_the_acting_user() {
    let mut state = ApplicationState::new();
    state.register("bob", "bob@example.com").unwrap();
    assert!(state.switch_user(1));
    assert_eq!(state.comment(2, "I can take this."), Ok(()));
    let issue = state.issues.get(2).unwrap();
    assert_eq!(issue.comments().len(), 2);
    assert_eq!(issue.comments()[1].text(), "I can take this.");
    assert_eq!(issue.comments()[1].author().name(), "bob");
    assert_eq!(state.comment(2, ""), Err(TrackerError::Validation));
    assert_eq!(state.comment(7, "hello"), Err(TrackerError::NotFound));
    assert_eq!(state.issues.get(2).unwrap().comments().len(), 2);
}

#[test]
fn users_are_registered_in_order() {
    let mut state = ApplicationState::new();
    assert_eq!(state.register("bob", "bob@example.com"), Ok(()));
    assert_eq!(state.register("carol", "carol@example.com"), Ok(()));
    assert_eq!(state.register("bob", "other@example.com"), Ok(()));
    assert_eq!(names(&state.users.list_users()), vec!["coyuki", "bob", "carol", "bob"]);
    assert_eq!(state.current_user.name(), "coyuki");
}

#[test]
fn a_user_without_name_or_address_is_refused() {
    let mut state = ApplicationState::new();
    assert_eq!(state.register("", "bob@example.com"), Err(TrackerError::Validation));
    assert_eq!(state.register("bob", ""), Err(TrackerError::Validation));
    assert_eq!(state.register("", ""), Err(TrackerError::Validation));
    assert_eq!(names(&state.users.list_users()), vec!["coyuki"]);
}

#[test]
fn switching_goes_by_the_position_in_the_directory() {
    let mut state = ApplicationState::new();
    state.register("bob", "bob@example.com").unwrap();
    assert!(state.switch_user(1));
    assert_eq!(state.current_user.name(), "bob");
    assert!(state.switch_user(0));
    assert_eq!(state.current_user.name(), "coyuki");
    assert!(!state.switch_user(2));
    assert_eq!(state.current_user.name(), "coyuki");
    assert!(!state.switch_user(usize::MAX));
}

#[test]
fn the_acting_user_is_known_by_name() {
    let mut state = ApplicationState::new();
    state.register("bob", "bob@example.com").unwrap();
    assert!(state.is_current(&Account::new("coyuki", "elsewhere@example.com")));
    assert!(!state.is_current(&Account::new("bob", "bob@example.com")));
    assert!(!state.is_current(&Account::new("Coyuki", "coyuki@example.com")));
    state.switch_user(1);
    assert!(state.is_current(&Account::new("bob", "bob@example.com")));
}

#[test]
fn the_listing_goes_by_the_filter_of_the_state() {
    let mut state = ApplicationState::new();
    state.issues.close_as_completed(1).unwrap();
    state.issues.fork(2).unwrap();
    assert_eq!(ids(&state.visible("")), vec![4, 3]);
    state.filter = FilterStatus::Completed;
    assert_eq!(ids(&state.visible("")), vec![2, 1]);
    state.filter = FilterStatus::NotPlanned;
    assert!(state.visible("").is_empty());
    state.filter = FilterStatus::All;
    assert_eq!(ids(&state.visible("")), vec![4, 3, 2, 1]);
    assert_eq!(ids(&state.visible("gui")), vec![1]);
}

#[test]
fn following_a_fork_leads_to_its_parent_and_shows_all_issues() {
    let mut state = ApplicationState::new();
    let child = state.issues.fork(2).unwrap();
    assert_eq!(state.filter, FilterStatus::Open);
    assert_eq!(state.follow_parent(child), Some(2));
    assert_eq!(state.filter, FilterStatus::All);
    assert!(ids(&state.visible("")).contains(&2));
}

#[test]
fn there_is_nothing_to_follow_from_an_issue_without_parent() {
    let mut state = ApplicationState::new();
    assert_eq!(state.follow_parent(1), None);
    assert_eq!(state.follow_parent(0), None);
    assert_eq!(state.follow_parent(9), None);
    assert_eq!(state.filter, FilterStatus::Open);
}

#[test]
fn a_copy_of_a_user_has_the_same_name() {
    let user = Account::new("alice", "alice@example.com");
    let copy = user.clone();
    assert_eq!(copy.name(), "alice");
    assert!(copy.same_name(&user));
    assert!(!copy.same_name(&Account::new("bob", "alice@example.com")));
}

#[test]
fn an_application_starts_with_what_was_kept() {
    let mut state = ApplicationState::with_user(Account::new("alice", "alice@example.com"));
    state.submit("kept", &vec!["Bug".to_string()], "from the last run").unwrap();
    state.comment(1, "second").unwrap();
    state.comment(1, "third\nline").unwrap();
    state.register("bob", "bob@example.com").unwrap();
    state.filter = FilterStatus::All;
    let bytes = state.serialize().unwrap();
    let started = ApplicationState::start(Some(&bytes));
    assert!(started.same(&state));
    assert_eq!(started.issues.count(), 1);
    let comments = started.issues.get(1).unwrap();
    let comments = comments.comments();
    assert_eq!(comments.len(), 3);
    assert_eq!(comments[0].text(), "from the last run");
    assert_eq!(comments[1].text(), "second");
    assert_eq!(comments[2].text(), "third\nline");
    assert_eq!(comments[2].author().email(), "alice@example.com");
    assert_eq!(started.filter, FilterStatus::All);
}

#[test]
fn an_application_starts_anew_where_nothing_was_kept() {
    for kept in [None, Some(&b""[..]), Some(&b"ramifi-snapshot 1\n"[..]), Some(&b"{}"[..])] {
        let started = ApplicationState::start(kept);
        assert_eq!(started.issues.count(), 3);
        assert_eq!(started.current_user.name(), "coyuki");
        assert_eq!(started.current_user.email(), "coyuki@example.com");
        assert_eq!(started.filter, FilterStatus::Open);
        assert_eq!(started.issues.get(1).unwrap().name(), "GUI実装");
    }
}
