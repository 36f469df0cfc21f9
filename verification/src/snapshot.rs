//! Snapshots: the whole application state as bytes, and back.
//!
//! A snapshot frames three JSON texts, which `serde_json` writes and reads,
//! and the filter. Reading is all or nothing: bytes that are no snapshot of a
//! well-formed state give no state at all. Writing is checked: the bytes are
//! read back and compared with the state before they are handed out, so that
//! what was written is known to read back, whatever the JSON in between.

use vstd::prelude::*;
use crate::account::Account;
use crate::directory::UserDirectory;
use crate::error::TrackerError;
use crate::json::{
    decode_issues, decode_user, decode_users, encode_issues, encode_user, encode_users,
    issues_of_json, user_of_json, users_of_json,
};
use crate::layout::{read_frame, snapshot_is_unambiguous, snapshot_of, write_frame};
use crate::model::all_dates_fit;
use crate::repository::{well_formed, Repository};
use crate::state::{is_first_state, ApplicationState, StateView};

verus! {

/// Whether the bytes are a snapshot with the given JSON texts, and these
/// describe the given state, which is well formed and holds no date that
/// could not be written again.
pub open spec fn describes(
    bytes: Seq<u8>,
    state: StateView,
    user: Seq<u8>,
    users: Seq<u8>,
    issues: Seq<u8>,
) -> bool {
    &&& bytes == snapshot_of(state.filter, user, users, issues)
    &&& user_of_json(user) == Some(state.current_user)
    &&& users_of_json(users) == Some(state.users)
    &&& issues_of_json(issues) == Some(state.issues)
    &&& well_formed(state.issues)
    &&& all_dates_fit(state.issues)
}

/// Whether the bytes are a snapshot of the given state.
pub open spec fn reads_as(bytes: Seq<u8>, state: StateView) -> bool {
    exists|user: Seq<u8>, users: Seq<u8>, issues: Seq<u8>|
        describes(bytes, state, user, users, issues)
}

/// Bytes are a snapshot of one state at most.
pub proof fn reading_is_unambiguous(bytes: Seq<u8>, state: StateView, other: StateView)
    requires
        reads_as(bytes, state),
        reads_as(bytes, other),
    ensures
        state == other,
{
    let (user, users, issues) = choose|user: Seq<u8>, users: Seq<u8>, issues: Seq<u8>|
        describes(bytes, state, user, users, issues);
    let (other_user, other_users, other_issues) = choose|
        user: Seq<u8>,
        users: Seq<u8>,
        issues: Seq<u8>,
    |
        describes(bytes, other, user, users, issues);
    snapshot_is_unambiguous(
        state.filter,
        user,
        users,
        issues,
        other.filter,
        other_user,
        other_users,
        other_issues,
    );
}

/// What was written is read back: the bytes that `serialize` gives for a state
/// are a snapshot of that state, and the state that `deserialize` makes of
/// bytes is one they are a snapshot of, so it is the state that was written,
/// field for field: every issue under its identifier, every label and comment
/// in its place, every user with name and address.
pub proof fn written_snapshot_reads_back(written: StateView, bytes: Seq<u8>, read: StateView)
    requires
        reads_as(bytes, written),
        reads_as(bytes, read),
    ensures
        read == written,
{
    reading_is_unambiguous(bytes, read, written);
}

impl ApplicationState {
    /// The bytes of the snapshot of this state, where the encoder gives a
    /// JSON text for each of its parts.
    pub open spec fn snapshot(&self) -> Option<Seq<u8>> {
        if self.current_user.encoded() is Some && self.users.encoded() is Some
            && self.issues.encoded() is Some {
            Some(
                snapshot_of(
                    self.filter,
                    self.current_user.encoded().unwrap(),
                    self.users.encoded().unwrap(),
                    self.issues.encoded().unwrap(),
                ),
            )
        } else {
            None
        }
    }

    /// Writes the snapshot of this state. The bytes are read back and
    /// compared with this state before they are handed out, so what is
    /// written can be read. This fails where the state holds a date that
    /// cannot be written, where the encoder gives no JSON text for one of the
    /// parts, and where the bytes do not read back as this state.
    pub fn serialize(&self) -> (written: Result<Vec<u8>, TrackerError>)
        ensures
            written matches Ok(bytes) ==> self.snapshot() == Some(bytes@) && reads_as(
                bytes@,
                self@,
            ),
            written matches Err(e) ==> e == TrackerError::Format && (self.snapshot() is None
                || !reads_as(self.snapshot().unwrap(), self@)),
    {
        if !self.issues.dates_fit() {
            return Err(TrackerError::Format);
        }
        let user = match encode_user(self.current_user.record()) {
            Ok(text) => text,
            Err(_) => {
                return Err(TrackerError::Format);
            },
        };
        let users = match encode_users(self.users.store()) {
            Ok(text) => text,
            Err(_) => {
                return Err(TrackerError::Format);
            },
        };
        let issues = match encode_issues(self.issues.store()) {
            Ok(text) => text,
            Err(_) => {
                return Err(TrackerError::Format);
            },
        };
        let bytes = write_frame(self.filter, user.as_slice(), users.as_slice(), issues.as_slice());
        match ApplicationState::deserialize(bytes.as_slice()) {
            Ok(read) => {
                if self.same(&read) {
                    Ok(bytes)
                } else {
                    proof {
                        if reads_as(bytes@, self@) {
                            reading_is_unambiguous(bytes@, read@, self@);
                        }
                    }
                    Err(TrackerError::Format)
                }
            },
            Err(_) => Err(TrackerError::Format),
        }
    }

    /// The state that an application starts with: where a snapshot was kept
    /// from the last run, the state it is a snapshot of, as it is; where none
    /// was kept, or what was kept is no snapshot, the state of a new
    /// application.
    pub fn start(kept: Option<&[u8]>) -> (state: ApplicationState)
        ensures
            state.wf(),
            kept matches Some(bytes) && (exists|read: StateView| reads_as(bytes@, read))
                ==> reads_as(kept.unwrap()@, state@),
            !(kept matches Some(bytes) && (exists|read: StateView| reads_as(bytes@, read)))
                ==> is_first_state(state@),
    {
        match kept {
            Some(bytes) => match ApplicationState::deserialize(bytes) {
                Ok(state) => state,
                Err(_) => ApplicationState::new(),
            },
            None => ApplicationState::new(),
        }
    }

    /// Reads a snapshot: the state that the bytes are a snapshot of. Bytes
    /// that are no snapshot of any well-formed state are refused, and so are
    /// bytes with a date that could not be written again.
    pub fn deserialize(bytes: &[u8]) -> (read: Result<ApplicationState, TrackerError>)
        ensures
            read matches Ok(state) ==> state.wf() && reads_as(bytes@, state@),
            read matches Err(e) ==> e == TrackerError::Format && forall|state: StateView|
                !reads_as(bytes@, state),
    {
        let frame = match read_frame(bytes) {
            Some(frame) => frame,
            None => {
                return Err(TrackerError::Format);
            },
        };
        let current_user = match decode_user(frame.user) {
            Ok(record) => Account::of_record(record),
            Err(_) => {
                return Err(TrackerError::Format);
            },
        };
        let users = match decode_users(frame.users) {
            Ok(users) => UserDirectory::adopt(users),
            Err(_) => {
                return Err(TrackerError::Format);
            },
        };
        let issues = match decode_issues(frame.issues) {
            Ok(store) => match Repository::adopt(store) {
                Some(issues) => issues,
                None => {
                    return Err(TrackerError::Format);
                },
            },
            Err(_) => {
                return Err(TrackerError::Format);
            },
        };
        if !issues.dates_fit() {
            return Err(TrackerError::Format);
        }
        let state = ApplicationState { issues, users, current_user, filter: frame.filter };
        assert(describes(bytes@, state@, frame.user@, frame.users@, frame.issues@));
        Ok(state)
    }
}

} // verus!
