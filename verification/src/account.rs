//! Users of the tracker.

use vstd::prelude::*;
use crate::model::UserView;
use crate::json::{user_email, user_json};
use crate::store::{user_clone, user_fields, user_name, user_new};

verus! {

/// A user: a name, by which users are shown and compared, and an email
/// address. The record lives in `local_issues_lib`.
pub struct Account {
    pub(crate) inner: local_issues_lib::user::User,
}

impl View for Account {
    type V = UserView;

    closed spec fn view(&self) -> UserView {
        user_fields(self.inner)
    }
}

impl DeepView for Account {
    type V = UserView;

    open spec fn deep_view(&self) -> UserView {
        self@
    }
}

impl Clone for Account {
    fn clone(&self) -> (copy: Self)
        ensures
            copy@ == self@,
    {
        Account { inner: user_clone(&self.inner) }
    }
}

impl Account {
    /// The JSON text of the user's record, where the encoder gives one.
    pub closed spec fn encoded(&self) -> Option<Seq<u8>> {
        user_json(self.inner)
    }

    /// The user that a record of the store stands for.
    pub(crate) fn of_record(record: local_issues_lib::user::User) -> (user: Account)
        ensures
            user@ == user_fields(record),
    {
        Account { inner: record }
    }

    /// The record of the store that stands for this user.
    pub(crate) fn record(&self) -> (record: &local_issues_lib::user::User)
        ensures
            user_fields(*record) == self@,
            user_json(*record) == self.encoded(),
    {
        &self.inner
    }

    /// A user with the given name and email address.
    pub fn new(name: &str, email: &str) -> (user: Account)
        ensures
            user@ == (UserView { name: name@, email: email@ }),
    {
        Account { inner: user_new(name, email) }
    }

    /// The user's name.
    pub fn name(&self) -> (name: String)
        ensures
            name@ == self@.name,
    {
        user_name(&self.inner)
    }

    /// The user's email address.
    pub fn email(&self) -> (email: String)
        ensures
            email@ == self@.email,
    {
        user_email(&self.inner)
    }

    /// Whether two users have the same name and the same email address.
    pub fn same(&self, other: &Account) -> (same: bool)
        ensures
            same == (self@ == other@),
    {
        let same = self.name() == other.name() && self.email() == other.email();
        assert(same ==> self@ =~= other@);
        same
    }

    /// Whether two users go by the same name, which is what makes them the
    /// same user.
    pub fn same_name(&self, other: &Account) -> (same: bool)
        ensures
            same == (self@.name == other@.name),
    {
        let mine = self.name();
        let theirs = other.name();
        mine == theirs
    }
}

} // verus!
