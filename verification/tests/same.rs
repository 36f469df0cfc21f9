use ramifi::{Account, ApplicationState, FilterStatus, Repository, UserDirectory};

fn alice() -> Account {
    Account::new("alice", "alice@example.com")
}

fn twice(state: &ApplicationState) -> (ApplicationState, ApplicationState) {
    let bytes = state.serialize().unwrap();
    (ApplicationState::deserialize(&bytes).unwrap(), ApplicationState::deserialize(&bytes).unwrap())
}

fn worked() -> ApplicationState {
    let mut state = ApplicationState::new();
    state.register("bob", "bob@example.com").unwrap();
    state.comment(2, "a comment").unwrap();
    state.issues.fork(2).unwrap();
    state
}

#[test]
fn a_state_is_the_same_as_itself_and_as_its_copy() {
    let state = worked();
    assert!(state.same(&state));
    let copy = state.duplicate();
    assert!(state.same(&copy));
    assert!(copy.same(&state));
    let (left, right) = twice(&state);
    assert!(left.same(&right));
    assert!(state.same(&left));
}

#[test]
fn a_copy_is_a_state_of_its_own() {
    let state = worked();
    let mut copy = state.duplicate();
    assert_eq!(copy.issues.count(), 4);
    assert_eq!(copy.users.list_users().len(), 2);
    assert_eq!(copy.current_user.name(), "coyuki");
    assert_eq!(copy.current_user.email(), "coyuki@example.com");
    assert_eq!(copy.filter, FilterStatus::Open);
    assert_eq!(copy.issues.get(4).unwrap().parent(), Some(2));
    copy.comment(1, "only in the copy").unwrap();
    copy.register("carol", "carol@example.com").unwrap();
    assert_eq!(state.issues.get(1).unwrap().comments().len(), 1);
    assert_eq!(state.users.list_users().len(), 2);
    assert!(!state.same(&copy));
}

#[test]
fn states_with_different_filters_are_not_the_same() {
    let (left, mut right) = twice(&worked());
    right.filter = FilterStatus::All;
    assert!(!left.same(&right));
}

#[test]
fn states_with_different_acting_users_are_not_the_same() {
    let (left, mut right) = twice(&worked());
    assert!(right.switch_user(1));
    assert!(!left.same(&right));
    assert!(right.switch_user(0));
    assert!(left.same(&right));
    right.current_user = Account::new("coyuki", "elsewhere@example.com");
    assert!(!left.same(&right));
}

#[test]
fn states_with_different_users_are_not_the_same() {
    let (left, mut right) = twice(&worked());
    right.register("carol", "carol@example.com").unwrap();
    assert!(!left.same(&right));
    assert!(!left.users.same(&right.users));
    assert!(left.issues.same(&right.issues));
}

#[test]
fn states_with_different_issues_are_not_the_same() {
    let (left, mut right) = twice(&worked());
    right.issues.reopen(2).unwrap();
    assert!(!left.same(&right));
    assert!(!left.issues.same(&right.issues));
    assert!(left.users.same(&right.users));
    let (left, mut right) = twice(&worked());
    right.comment(3, "one more").unwrap();
    assert!(!left.same(&right));
}

#[test]
fn users_are_compared_by_name_and_address() {
    let mut left = UserDirectory::new();
    let mut right = UserDirectory::new();
    left.add_user(&Account::new("alice", "alice@example.com"));
    right.add_user(&Account::new("alice", "alice@example.com"));
    assert!(left.same(&right));
    assert!(left.same(&left.duplicate()));
    let mut other = UserDirectory::new();
    other.add_user(&Account::new("alice", "elsewhere@example.com"));
    assert!(!left.same(&other));
    right.add_user(&Account::new("bob", "bob@example.com"));
    assert!(!left.same(&right));
    left.add_user(&Account::new("Bob", "bob@example.com"));
    assert!(!left.same(&right));
}

#[test]
fn a_user_has_a_name_and_an_address() {
    let user = Account::new("alice", "alice@example.com");
    assert_eq!(user.name(), "alice");
    assert_eq!(user.email(), "alice@example.com");
    assert_eq!(user.clone().email(), "alice@example.com");
    assert_eq!(Account::new("", "").email(), "");
    assert_eq!(Account::new("n", "a \"quoted\"\nline ✓").email(), "a \"quoted\"\nline ✓");
    assert!(user.same(&user.clone()));
    assert!(!user.same(&Account::new("alice", "Alice@example.com")));
    assert!(!user.same(&Account::new("alicia", "alice@example.com")));
    assert!(user.same_name(&Account::new("alice", "elsewhere@example.com")));
}

#[test]
fn issues_are_compared_field_by_field() {
    let (left, right) = twice(&worked());
    let mut other = twice(&worked()).0;
    other.issues.reopen(2).unwrap();
    let issue = left.issues.get(2).unwrap();
    assert!(issue.same(&right.issues.get(2).unwrap()));
    assert!(!issue.same(&right.issues.get(1).unwrap()));
    assert!(!issue.same(&right.issues.get(4).unwrap()));
    assert!(issue.comments()[0].same(&right.issues.get(2).unwrap().comments()[0]));
    assert!(!issue.comments()[0].same(&issue.comments()[1]));
    assert!(!issue.same(&other.issues.get(2).unwrap()));
}

#[test]
fn repositories_of_different_sizes_are_not_the_same() {
    let left = Repository::new();
    let mut right = left.duplicate();
    assert!(left.same(&right));
    right.create_issue("first", &alice(), &Vec::new()).unwrap();
    assert!(!left.same(&right));
    assert!(!right.same(&left));
    assert!(right.same(&right.duplicate()));
}
