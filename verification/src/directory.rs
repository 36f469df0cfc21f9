//! The directory: the users of a tracker, in the order in which they were
//! added. Two users may go by one name.

use vstd::prelude::*;
use crate::account::Account;
use crate::json::users_json;
use crate::model::UserView;
use crate::store::{directory_add, directory_list, directory_new, stored_users};

verus! {

/// The users of a tracker.
pub struct UserDirectory {
    users: local_issues_lib::user::Users,
}

impl View for UserDirectory {
    type V = Seq<UserView>;

    closed spec fn view(&self) -> Seq<UserView> {
        stored_users(self.users)
    }
}

impl UserDirectory {
    /// The JSON text of the directory, where the encoder gives one.
    pub closed spec fn encoded(&self) -> Option<Seq<u8>> {
        users_json(self.users)
    }

    /// A directory without users.
    pub fn new() -> (directory: UserDirectory)
        ensures
            directory@ == Seq::<UserView>::empty(),
    {
        UserDirectory { users: directory_new() }
    }

    /// Adds a user at the end of the directory.
    pub fn add_user(&mut self, user: &Account)
        ensures
            final(self)@ == old(self)@.push(user@),
    {
        directory_add(&mut self.users, user.record());
    }

    /// The users, in the order in which they were added.
    pub fn list_users(&self) -> (list: Vec<Account>)
        ensures
            list.deep_view() == self@,
    {
        directory_list(&self.users)
    }

    /// A directory of its own that holds the same users in the same order.
    pub fn duplicate(&self) -> (copy: UserDirectory)
        ensures
            copy@ == self@,
    {
        let list = self.list_users();
        let mut copy = UserDirectory::new();
        let mut k: usize = 0;
        while k < list.len()
            invariant
                list.deep_view() == self@,
                k <= list.len(),
                copy@ == self@.subrange(0, k as int),
            decreases list.len() - k,
        {
            assert(list.deep_view()[k as int] == list@[k as int]@);
            copy.add_user(&list[k]);
            k += 1;
            assert(copy@ =~= self@.subrange(0, k as int));
        }
        assert(self@.subrange(0, k as int) =~= self@);
        copy
    }

    /// Whether two directories hold the same users in the same order.
    pub fn same(&self, other: &UserDirectory) -> (same: bool)
        ensures
            same == (self@ == other@),
    {
        let mine = self.list_users();
        let theirs = other.list_users();
        if mine.len() != theirs.len() {
            assert(mine.deep_view().len() != theirs.deep_view().len());
            return false;
        }
        let mut k: usize = 0;
        while k < mine.len()
            invariant
                mine.deep_view() == self@,
                theirs.deep_view() == other@,
                mine.len() == theirs.len(),
                k <= mine.len(),
                forall|j: int| 0 <= j < k ==> self@[j] == other@[j],
            decreases mine.len() - k,
        {
            assert(mine.deep_view()[k as int] == mine@[k as int]@);
            assert(theirs.deep_view()[k as int] == theirs@[k as int]@);
            if !mine[k].same(&theirs[k]) {
                return false;
            }
            k += 1;
        }
        assert(self@ =~= other@);
        true
    }

    /// The directory over a store of users.
    pub(crate) fn adopt(users: local_issues_lib::user::Users) -> (directory: UserDirectory)
        ensures
            directory@ == stored_users(users),
    {
        UserDirectory { users }
    }

    /// The store that holds the users.
    pub(crate) fn store(&self) -> (users: &local_issues_lib::user::Users)
        ensures
            stored_users(*users) == self@,
            users_json(*users) == self.encoded(),
    {
        &self.users
    }
}

} // verus!
