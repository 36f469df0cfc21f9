//! The state of the application: the repository, the directory, the user who
//! acts, and the filter of the listing. It is what a snapshot holds.

use vstd::prelude::*;
use crate::account::Account;
use crate::directory::UserDirectory;
use crate::error::TrackerError;
use crate::issue::Issue;
use crate::model::{replace_slot, IssueView, UserView};
use crate::repository::{is_listing, Repository};
use crate::status::{FilterStatus, Status};

verus! {

/// What an application state holds.
#[verifier::ext_equal]
pub struct StateView {
    pub issues: Seq<IssueView>,
    pub users: Seq<UserView>,
    pub current_user: UserView,
    pub filter: FilterStatus,
}

/// The state of the application.
pub struct ApplicationState {
    pub issues: Repository,
    pub users: UserDirectory,
    pub current_user: Account,
    pub filter: FilterStatus,
}

impl View for ApplicationState {
    type V = StateView;

    open spec fn view(&self) -> StateView {
        StateView {
            issues: self.issues@,
            users: self.users@,
            current_user: self.current_user@,
            filter: self.filter,
        }
    }
}

/// Whether an issue is as it is once it was submitted by `creator` under
/// `labels` with the given name and description: open, without parent, with
/// the description as its only comment.
pub open spec fn is_submission(
    issue: IssueView,
    creator: UserView,
    name: Seq<char>,
    labels: Seq<Seq<char>>,
    description: Seq<char>,
) -> bool {
    &&& issue.name == name
    &&& issue.status == Status::Open
    &&& issue.creator == creator
    &&& issue.labels == labels
    &&& issue.from == 0
    &&& issue.comments.len() == 1
    &&& issue.comments[0].is_fresh(creator, description)
}

/// The user that a new application starts with.
pub open spec fn first_user() -> UserView {
    UserView { name: "coyuki"@, email: "coyuki@example.com"@ }
}

/// Whether a state is the one that a new application starts with: one user,
/// who acts, three issues submitted in that user's name, and the open issues
/// shown.
pub open spec fn is_first_state(state: StateView) -> bool {
    &&& state.users == seq![first_user()]
    &&& state.current_user == first_user()
    &&& state.filter == FilterStatus::Open
    &&& state.issues.len() == 4
    &&& is_submission(
        state.issues[1],
        first_user(),
        "GUI実装"@,
        seq!["Enhancement"@],
        "eframeを使ってGUIを作る"@,
    )
    &&& is_submission(
        state.issues[2],
        first_user(),
        "永続化"@,
        seq!["Feature"@],
        "データを保存する"@,
    )
    &&& is_submission(
        state.issues[3],
        first_user(),
        "UI改善"@,
        seq!["Design"@],
        "見た目を良くする"@,
    )
}

impl ApplicationState {
    /// The invariant of an application state.
    pub open spec fn wf(&self) -> bool {
        self.issues.wf()
    }

    /// A state of its own that holds the same, for a worker to write while
    /// this one goes on.
    pub fn duplicate(&self) -> (copy: ApplicationState)
        ensures
            copy@ == self@,
            self.wf() ==> copy.wf(),
    {
        ApplicationState {
            issues: self.issues.duplicate(),
            users: self.users.duplicate(),
            current_user: self.current_user.clone(),
            filter: self.filter,
        }
    }

    /// Whether two states hold the same: the same filter, the same acting
    /// user, the same users in the same order, and the same in every slot of
    /// the repository.
    pub fn same(&self, other: &ApplicationState) -> (same: bool)
        ensures
            same == (self@ == other@),
    {
        let same = self.filter == other.filter && self.current_user.same(&other.current_user)
            && self.users.same(&other.users) && self.issues.same(&other.issues);
        assert(same ==> self@ =~= other@);
        same
    }

    /// A state without issues, in which `user` is the only user and acts, and
    /// the open issues are shown.
    pub fn with_user(user: Account) -> (state: ApplicationState)
        ensures
            state.wf(),
            state@.issues.len() == 1,
            state@.users == seq![user@],
            state@.current_user == user@,
            state@.filter == FilterStatus::Open,
    {
        let mut users = UserDirectory::new();
        users.add_user(&user);
        assert(users@ =~= seq![user@]);
        ApplicationState {
            issues: Repository::new(),
            users,
            current_user: user,
            filter: FilterStatus::Open,
        }
    }

    /// The state that a new application starts with: one user, who acts, and
    /// three issues submitted in that user's name; the open issues are shown.
    pub fn new() -> (state: ApplicationState)
        ensures
            state.wf(),
            is_first_state(state@),
    {
        proof {
            reveal_strlit("GUI実装");
            reveal_strlit("eframeを使ってGUIを作る");
            reveal_strlit("永続化");
            reveal_strlit("データを保存する");
            reveal_strlit("UI改善");
            reveal_strlit("見た目を良くする");
        }
        let mut state = ApplicationState::with_user(Account::new("coyuki", "coyuki@example.com"));
        state.seed("GUI実装", "Enhancement", "eframeを使ってGUIを作る");
        state.seed("永続化", "Feature", "データを保存する");
        state.seed("UI改善", "Design", "見た目を良くする");
        state
    }

    /// Submits an issue with one label.
    fn seed(&mut self, name: &str, label: &str, description: &str)
        requires
            old(self).wf(),
            name@.len() > 0,
            description@.len() > 0,
        ensures
            final(self).wf(),
            final(self).users == old(self).users,
            final(self).current_user == old(self).current_user,
            final(self).filter == old(self).filter,
            final(self)@.issues == old(self)@.issues.push(final(self)@.issues.last()),
            is_submission(
                final(self)@.issues.last(),
                old(self)@.current_user,
                name@,
                seq![label@],
                description@,
            ),
    {
        let mut labels: Vec<String> = Vec::new();
        labels.push(label.to_owned());
        assert(labels.deep_view() =~= seq![label@]);
        let _ = self.submit(name, &labels, description);
    }

    /// Submits an issue in the name of the acting user: creates it under the
    /// given name and labels, and puts the description as the first comment
    /// on it. Returns its identifier. An empty name or description is refused.
    pub fn submit(&mut self, name: &str, labels: &Vec<String>, description: &str) -> (submitted:
        Result<usize, TrackerError>)
        requires
            old(self).wf(),
        ensures
            final(self).wf(),
            final(self).users == old(self).users,
            final(self).current_user == old(self).current_user,
            final(self).filter == old(self).filter,
            name@.len() == 0 || description@.len() == 0 ==> submitted == Err::<
                usize,
                TrackerError,
            >(TrackerError::Validation) && *final(self) == *old(self),
            name@.len() > 0 && description@.len() > 0 ==> {
                &&& submitted matches Ok(id)
                &&& id == old(self)@.issues.len()
                &&& final(self)@.issues == old(self)@.issues.push(final(self)@.issues[id as int])
                &&& is_submission(
                    final(self)@.issues[id as int],
                    old(self)@.current_user,
                    name@,
                    labels.deep_view(),
                    description@,
                )
            },
    {
        if name.is_empty() || description.is_empty() {
            return Err(TrackerError::Validation);
        }
        let id = match self.issues.create_issue(name, &self.current_user, labels) {
            Ok(id) => id,
            Err(e) => {
                return Err(e);
            },
        };
        let _ = self.issues.add_comment(id, description, &self.current_user);
        proof {
            let after = self.issues@;
            assert(after[id as int].comments =~= seq![after[id as int].comments.last()]);
            assert(after =~= old(self)@.issues.push(after[id as int]));
        }
        Ok(id)
    }

    /// Comments on the issue `id` in the name of the acting user.
    pub fn comment(&mut self, id: usize, text: &str) -> (added: Result<(), TrackerError>)
        requires
            old(self).wf(),
        ensures
            final(self).wf(),
            final(self).users == old(self).users,
            final(self).current_user == old(self).current_user,
            final(self).filter == old(self).filter,
            text@.len() == 0 ==> added == Err::<(), TrackerError>(TrackerError::Validation),
            text@.len() > 0 && !old(self).issues.has(id) ==> added == Err::<(), TrackerError>(
                TrackerError::NotFound,
            ),
            added is Err ==> *final(self) == *old(self),
            text@.len() > 0 && old(self).issues.has(id) ==> {
                &&& added is Ok
                &&& final(self)@.issues == replace_slot(
                    old(self)@.issues,
                    id,
                    old(self)@.issues[id as int].with_comment(
                        final(self)@.issues[id as int].comments.last(),
                    ).touched(final(self)@.issues[id as int].updated_at),
                )
                &&& final(self)@.issues[id as int].comments.last().is_fresh(
                    old(self)@.current_user,
                    text@,
                )
            },
    {
        self.issues.add_comment(id, text, &self.current_user)
    }

    /// Adds a user with the given name and email address to the directory.
    /// An empty name or address is refused.
    pub fn register(&mut self, name: &str, email: &str) -> (added: Result<(), TrackerError>)
        ensures
            final(self).issues == old(self).issues,
            final(self).current_user == old(self).current_user,
            final(self).filter == old(self).filter,
            name@.len() == 0 || email@.len() == 0 ==> added == Err::<(), TrackerError>(
                TrackerError::Validation,
            ) && *final(self) == *old(self),
            name@.len() > 0 && email@.len() > 0 ==> added is Ok && final(self)@.users == old(
                self,
            )@.users.push(UserView { name: name@, email: email@ }),
    {
        if name.is_empty() || email.is_empty() {
            return Err(TrackerError::Validation);
        }
        let user = Account::new(name, email);
        self.users.add_user(&user);
        Ok(())
    }

    /// Lets the user at position `index` of the directory act from now on.
    /// Says whether there is such a user; where there is none, nothing
    /// changes.
    pub fn switch_user(&mut self, index: usize) -> (switched: bool)
        ensures
            switched == (index < old(self)@.users.len()),
            final(self).issues == old(self).issues,
            final(self).users == old(self).users,
            final(self).filter == old(self).filter,
            switched ==> final(self)@.current_user == old(self)@.users[index as int],
            !switched ==> *final(self) == *old(self),
    {
        let list = self.users.list_users();
        if index >= list.len() {
            return false;
        }
        assert(list.deep_view()[index as int] == list@[index as int]@);
        self.current_user = list[index].clone();
        true
    }

    /// Whether a user is the one who acts: users are the same where their
    /// names are.
    pub fn is_current(&self, user: &Account) -> (current: bool)
        ensures
            current == (user@.name == self@.current_user.name),
    {
        user.same_name(&self.current_user)
    }

    /// The issues that are shown under the filter of this state and a query,
    /// newest first.
    pub fn visible(&self, query: &str) -> (listing: Vec<(usize, Issue)>)
        requires
            self.wf(),
        ensures
            is_listing(listing.deep_view(), self@.issues, self@.filter, query@),
    {
        self.issues.list(self.filter, query)
    }

    /// Follows the issue `id` to the issue it was forked from: returns the
    /// parent's identifier and shows all issues from now on, so that the
    /// parent is among them. Where `id` is no issue or has no parent, there
    /// is nothing to follow and nothing changes.
    pub fn follow_parent(&mut self, id: usize) -> (parent: Option<usize>)
        requires
            old(self).wf(),
        ensures
            final(self).issues == old(self).issues,
            final(self).users == old(self).users,
            final(self).current_user == old(self).current_user,
            old(self).issues.has(id) ==> parent == old(self)@.issues[id as int].parent(),
            !old(self).issues.has(id) ==> parent is None,
            parent is Some ==> final(self).filter == FilterStatus::All,
            parent is None ==> final(self).filter == old(self).filter,
    {
        let parent = match self.issues.get(id) {
            Some(issue) => issue.parent(),
            None => None,
        };
        if parent.is_some() {
            self.filter = FilterStatus::All;
        }
        parent
    }
}

} // verus!
