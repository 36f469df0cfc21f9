//! The boundary to `serde_json`, which writes the stores and the user records
//! of `local_issues_lib` as JSON text and reads them back.
//!
//! What the encoder gives for a value, and what the decoder makes of a text,
//! takes the whole of both crates to say: each is given a name here, and the
//! contracts say no more than that a call returns what its name stands for.
//! In particular nothing here says that a text that was written is read back
//! as the value it was written from. The encoder of a store of issues asks
//! for dates that it can write; the others take every value.
//!
//! A user record has no getter for its email address, so that is read here
//! as well, from what `serde_json` makes of the record.

use vstd::prelude::*;
use crate::model::{all_dates_fit, IssueView, UserView};
use crate::store::{stored_issues, stored_users, user_fields};

verus! {

#[verifier::external_type_specification]
#[verifier::external_body]
pub struct ExJsonError(serde_json::Error);

/// The JSON text of a store of issues, where the encoder gives one.
pub uninterp spec fn issues_json(store: local_issues_lib::Issues) -> Option<Seq<u8>>;

/// The JSON text of a directory of users, where the encoder gives one.
pub uninterp spec fn users_json(users: local_issues_lib::user::Users) -> Option<Seq<u8>>;

/// The JSON text of a user record, where the encoder gives one.
pub uninterp spec fn user_json(user: local_issues_lib::user::User) -> Option<Seq<u8>>;

/// The issues that a JSON text describes, where it describes a store of
/// issues.
pub uninterp spec fn issues_of_json(text: Seq<u8>) -> Option<Seq<IssueView>>;

/// The users that a JSON text describes, where it describes a directory of
/// users.
pub uninterp spec fn users_of_json(text: Seq<u8>) -> Option<Seq<UserView>>;

/// The user that a JSON text describes, where it describes a user record.
pub uninterp spec fn user_of_json(text: Seq<u8>) -> Option<UserView>;

/// `serde_json::to_vec` on a store of issues. The encoder writes each date in
/// the time zone it carries, and gives up with a panic on a date that leaves
/// the dates of `chrono` there; a time zone is less than a day from Greenwich,
/// so this asks for dates that are a day inside.
#[verifier::external_body]
pub(crate) fn encode_issues(store: &local_issues_lib::Issues) -> (text: Result<
    Vec<u8>,
    serde_json::Error,
>)
    requires
        all_dates_fit(stored_issues(*store)),
    ensures
        text matches Ok(bytes) ==> issues_json(*store) == Some(bytes@),
        text is Err ==> issues_json(*store) is None,
{
    serde_json::to_vec(store)
}

/// `serde_json::to_vec` on a directory of users.
#[verifier::external_body]
pub(crate) fn encode_users(users: &local_issues_lib::user::Users) -> (text: Result<
    Vec<u8>,
    serde_json::Error,
>)
    ensures
        text matches Ok(bytes) ==> users_json(*users) == Some(bytes@),
        text is Err ==> users_json(*users) is None,
{
    serde_json::to_vec(users)
}

/// `serde_json::to_vec` on a user record.
#[verifier::external_body]
pub(crate) fn encode_user(user: &local_issues_lib::user::User) -> (text: Result<
    Vec<u8>,
    serde_json::Error,
>)
    ensures
        text matches Ok(bytes) ==> user_json(*user) == Some(bytes@),
        text is Err ==> user_json(*user) is None,
{
    serde_json::to_vec(user)
}

/// The member `email` of what `serde_json::to_value` makes of a user record:
/// the record's email address, for which the record has no getter.
#[verifier::external_body]
pub(crate) fn user_email(user: &local_issues_lib::user::User) -> (email: String)
    ensures
        email@ == user_fields(*user).email,
{
    match serde_json::to_value(user) {
        Ok(value) => value.get("email").and_then(|email| email.as_str()).unwrap_or("").to_owned(),
        Err(_) => String::new(),
    }
}

/// `serde_json::from_slice` for a store of issues.
#[verifier::external_body]
pub(crate) fn decode_issues(text: &[u8]) -> (store: Result<
    local_issues_lib::Issues,
    serde_json::Error,
>)
    ensures
        store matches Ok(issues) ==> issues_of_json(text@) == Some(stored_issues(issues)),
        store is Err ==> issues_of_json(text@) is None,
{
    serde_json::from_slice(text)
}

/// `serde_json::from_slice` for a directory of users.
#[verifier::external_body]
pub(crate) fn decode_users(text: &[u8]) -> (directory: Result<
    local_issues_lib::user::Users,
    serde_json::Error,
>)
    ensures
        directory matches Ok(users) ==> users_of_json(text@) == Some(stored_users(users)),
        directory is Err ==> users_of_json(text@) is None,
{
    serde_json::from_slice(text)
}

/// `serde_json::from_slice` for a user record.
#[verifier::external_body]
pub(crate) fn decode_user(text: &[u8]) -> (record: Result<
    local_issues_lib::user::User,
    serde_json::Error,
>)
    ensures
        record matches Ok(user) ==> user_of_json(text@) == Some(user_fields(user)),
        record is Err ==> user_of_json(text@) is None,
{
    serde_json::from_slice(text)
}

} // verus!
