//! The boundary to `local_issues_lib`, which keeps the issues and the users.
//!
//! Its three types are opaque here. What a value of each holds is given a
//! name, and each call into the crate stands in a function of its own whose
//! contract says, over those names, what the crate's source shows of the call.
//! None of these contracts is proved. The crate stamps issues and comments with
//! the time of the call; the contracts leave that time open.

use vstd::prelude::*;
use crate::account::Account;
use crate::issue::Comment;
use crate::model::{replace_slot, IssueView, UserView};
use crate::status::Status;

verus! {

#[verifier::external_type_specification]
#[verifier::external_body]
pub struct ExIssues(local_issues_lib::Issues);

#[verifier::external_type_specification]
#[verifier::external_body]
pub struct ExUsers(local_issues_lib::user::Users);

#[verifier::external_type_specification]
#[verifier::external_body]
pub struct ExUser(local_issues_lib::user::User);

/// The name and the email address that a user record holds.
pub uninterp spec fn user_fields(user: local_issues_lib::user::User) -> UserView;

/// The issues that a store holds, in the order of their slots.
pub uninterp spec fn stored_issues(store: local_issues_lib::Issues) -> Seq<IssueView>;

/// The users that a directory holds, in the order in which they were added.
pub uninterp spec fn stored_users(users: local_issues_lib::user::Users) -> Seq<UserView>;

/// Whether the store has a slot `id`.
pub open spec fn has_slot(store: local_issues_lib::Issues, id: usize) -> bool {
    id < stored_issues(store).len()
}

/// The issue in slot `id`.
pub open spec fn slot(store: local_issues_lib::Issues, id: usize) -> IssueView {
    stored_issues(store)[id as int]
}

/// The placeholder that a new store holds in its first slot.
pub open spec fn is_root(issue: IssueView) -> bool {
    issue == (IssueView {
        name: "root"@,
        status: Status::ClosedCompleted,
        creator: UserView { name: "root"@, email: "root"@ },
        labels: Seq::empty(),
        comments: Seq::empty(),
        created_at: issue.created_at,
        updated_at: issue.created_at,
        from: usize::MAX,
    })
}

/// `User::new`: a user record with the given name and email address.
#[verifier::external_body]
pub(crate) fn user_new(name: &str, email: &str) -> (user: local_issues_lib::user::User)
    ensures
        user_fields(user) == (UserView { name: name@, email: email@ }),
{
    local_issues_lib::user::User::new(name, email)
}

/// `User::name`: a copy of the record's name.
#[verifier::external_body]
pub(crate) fn user_name(user: &local_issues_lib::user::User) -> (name: String)
    ensures
        name@ == user_fields(*user).name,
{
    user.name()
}

/// `User::clone`: a record with the same name and email address.
#[verifier::external_body]
pub(crate) fn user_clone(user: &local_issues_lib::user::User) -> (copy:
    local_issues_lib::user::User)
    ensures
        user_fields(copy) == user_fields(*user),
{
    user.clone()
}

/// `Users::new`: a directory without users.
#[verifier::external_body]
pub(crate) fn directory_new() -> (users: local_issues_lib::user::Users)
    ensures
        stored_users(users) == Seq::<UserView>::empty(),
{
    local_issues_lib::user::Users::new()
}

/// `Users::add_user`: appends a copy of the record.
#[verifier::external_body]
pub(crate) fn directory_add(
    users: &mut local_issues_lib::user::Users,
    user: &local_issues_lib::user::User,
)
    ensures
        stored_users(*final(users)) == stored_users(*old(users)).push(user_fields(*user)),
{
    users.add_user(user.clone());
}

/// `Users::get_list`: the users in order, each handed out as a copy.
#[verifier::external_body]
pub(crate) fn directory_list(users: &local_issues_lib::user::Users) -> (list: Vec<Account>)
    ensures
        list.deep_view() == stored_users(*users),
{
    users.get_list().iter().map(|user| Account { inner: user.clone() }).collect()
}

/// `Issues::new`: a store whose only slot holds the closed placeholder `root`.
#[verifier::external_body]
pub(crate) fn store_new() -> (store: local_issues_lib::Issues)
    ensures
        stored_issues(store).len() == 1,
        is_root(slot(store, 0)),
{
    local_issues_lib::Issues::new()
}

/// `Issues::clone`: a store that holds the same issues.
#[verifier::external_body]
pub(crate) fn store_clone(store: &local_issues_lib::Issues) -> (copy: local_issues_lib::Issues)
    ensures
        stored_issues(copy) == stored_issues(*store),
{
    store.clone()
}

/// The length of `Issues::get_list`: the number of slots.
#[verifier::external_body]
pub(crate) fn store_len(store: &local_issues_lib::Issues) -> (len: usize)
    ensures
        len == stored_issues(*store).len(),
{
    store.get_list().len()
}

/// `Issues::add_new_issue` on the result of `Issue::new`: appends an open
/// issue without comments or parent and returns its slot.
#[verifier::external_body]
pub(crate) fn store_add(
    store: &mut local_issues_lib::Issues,
    name: &str,
    creator: &local_issues_lib::user::User,
    labels: &Vec<String>,
) -> (id: usize)
    ensures
        id == stored_issues(*old(store)).len(),
        stored_issues(*final(store)) == stored_issues(*old(store)).push(slot(*final(store), id)),
        slot(*final(store), id).is_fresh(name@, user_fields(*creator), labels.deep_view()),
{
    store.add_new_issue(local_issues_lib::Issue::new(name, creator.clone(), labels.clone()))
}

/// `Issue::comment` on the issue that `Issues::get_mut` finds, with the result
/// of `Comment::new`: appends a comment to that issue's thread, updates the
/// issue and changes nothing else.
#[verifier::external_body]
pub(crate) fn store_comment(
    store: &mut local_issues_lib::Issues,
    id: usize,
    text: &str,
    author: &local_issues_lib::user::User,
)
    requires
        has_slot(*old(store), id),
    ensures
        stored_issues(*final(store)) == replace_slot(
            stored_issues(*old(store)),
            id,
            slot(*old(store), id).with_comment(slot(*final(store), id).comments.last()).touched(
                slot(*final(store), id).updated_at,
            ),
        ),
        slot(*final(store), id).comments.last().is_fresh(user_fields(*author), text@),
{
    store.get_mut(id).unwrap().comment(local_issues_lib::Comment::new(text, author.clone()));
}

/// `Issue::close_as_cmp` on the issue that `Issues::get_mut` finds: that issue
/// becomes completed, whatever it was, and is updated.
#[verifier::external_body]
pub(crate) fn store_close_completed(store: &mut local_issues_lib::Issues, id: usize)
    requires
        has_slot(*old(store), id),
    ensures
        stored_issues(*final(store)) == replace_slot(
            stored_issues(*old(store)),
            id,
            slot(*old(store), id).with_status(Status::ClosedCompleted).touched(
                slot(*final(store), id).updated_at,
            ),
        ),
{
    store.get_mut(id).unwrap().close_as_cmp();
}

/// `Issue::close_as_not_planed` on the issue that `Issues::get_mut` finds:
/// that issue becomes not planned, whatever it was, and is updated.
#[verifier::external_body]
pub(crate) fn store_close_not_planned(store: &mut local_issues_lib::Issues, id: usize)
    requires
        has_slot(*old(store), id),
    ensures
        stored_issues(*final(store)) == replace_slot(
            stored_issues(*old(store)),
            id,
            slot(*old(store), id).with_status(Status::ClosedNotPlanned).touched(
                slot(*final(store), id).updated_at,
            ),
        ),
{
    store.get_mut(id).unwrap().close_as_not_planed();
}

/// `Issue::reopen` on the issue that `Issues::get_mut` finds: that issue
/// becomes open, whatever it was. This is no update.
#[verifier::external_body]
pub(crate) fn store_reopen(store: &mut local_issues_lib::Issues, id: usize)
    requires
        has_slot(*old(store), id),
    ensures
        stored_issues(*final(store)) == replace_slot(
            stored_issues(*old(store)),
            id,
            slot(*old(store), id).with_status(Status::Open),
        ),
{
    store.get_mut(id).unwrap().reopen();
}

/// `Issues::fork`: where slot `id` exists, that issue is closed as forked and
/// a copy of it as it was, open and with `id` as its parent, is appended; the
/// copy's slot is returned. Where it does not exist, nothing changes.
#[verifier::external_body]
pub(crate) fn store_fork(store: &mut local_issues_lib::Issues, id: usize) -> (child: Option<
    usize,
>)
    ensures
        has_slot(*old(store), id) ==> {
            &&& child matches Some(c)
            &&& c == stored_issues(*old(store)).len()
            &&& stored_issues(*final(store)) == replace_slot(
                stored_issues(*old(store)),
                id,
                slot(*old(store), id).with_status(Status::ClosedForked),
            ).push(slot(*old(store), id).forked_from(id))
        },
        !has_slot(*old(store), id) ==> child is None && *final(store) == *old(store),
{
    store.fork(id)
}

/// `Issue::name` of the issue in slot `id`.
#[verifier::external_body]
pub(crate) fn slot_name(store: &local_issues_lib::Issues, id: usize) -> (name: String)
    requires
        has_slot(*store, id),
    ensures
        name@ == slot(*store, id).name,
{
    store.get_list()[id].name().to_string()
}

/// `Issue::status` of the issue in slot `id`.
#[verifier::external_body]
pub(crate) fn slot_status(store: &local_issues_lib::Issues, id: usize) -> (status: Status)
    requires
        has_slot(*store, id),
    ensures
        status == slot(*store, id).status,
{
    match store.get_list()[id].status() {
        local_issues_lib::Status::Open => Status::Open,
        local_issues_lib::Status::CloseAsCmp => Status::ClosedCompleted,
        local_issues_lib::Status::CloseAsNotPlaned => Status::ClosedNotPlanned,
        local_issues_lib::Status::CloseAsForked => Status::ClosedForked,
    }
}

/// `Issue::created_by` of the issue in slot `id`, as a copy.
#[verifier::external_body]
pub(crate) fn slot_creator(store: &local_issues_lib::Issues, id: usize) -> (creator:
    local_issues_lib::user::User)
    requires
        has_slot(*store, id),
    ensures
        user_fields(creator) == slot(*store, id).creator,
{
    store.get_list()[id].created_by().clone()
}

/// `Issue::get_labels` of the issue in slot `id`.
#[verifier::external_body]
pub(crate) fn slot_labels(store: &local_issues_lib::Issues, id: usize) -> (labels: Vec<String>)
    requires
        has_slot(*store, id),
    ensures
        labels.deep_view() == slot(*store, id).labels,
{
    store.get_list()[id].get_labels()
}

/// `Issue::created_at` of the issue in slot `id`, in milliseconds since the
/// Unix epoch.
#[verifier::external_body]
pub(crate) fn slot_created_at(store: &local_issues_lib::Issues, id: usize) -> (millis: i64)
    requires
        has_slot(*store, id),
    ensures
        millis == slot(*store, id).created_at,
{
    store.get_list()[id].created_at().timestamp_millis()
}

/// `Issue::updated_at` of the issue in slot `id`, in milliseconds since the
/// Unix epoch.
#[verifier::external_body]
pub(crate) fn slot_updated_at(store: &local_issues_lib::Issues, id: usize) -> (millis: i64)
    requires
        has_slot(*store, id),
    ensures
        millis == slot(*store, id).updated_at,
{
    store.get_list()[id].updated_at().timestamp_millis()
}

/// `Issue::from_index` of the issue in slot `id`.
#[verifier::external_body]
pub(crate) fn slot_from(store: &local_issues_lib::Issues, id: usize) -> (from: usize)
    requires
        has_slot(*store, id),
    ensures
        from == slot(*store, id).from,
{
    store.get_list()[id].from_index()
}

/// `Issue::comments` of the issue in slot `id`, each comment handed out with
/// its author, its text and its date in milliseconds since the Unix epoch.
#[verifier::external_body]
pub(crate) fn slot_comments(store: &local_issues_lib::Issues, id: usize) -> (comments: Vec<
    Comment,
>)
    requires
        has_slot(*store, id),
    ensures
        comments.deep_view() == slot(*store, id).comments,
{
    store.get_list()[id].comments().iter().map(
        |c| Comment {
            author: Account { inner: c.author().clone() },
            text: c.text(),
            date: c.date().timestamp_millis(),
        },
    ).collect()
}

} // verus!
