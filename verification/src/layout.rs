//! The layout of a snapshot: the line `ramifi-snapshot 1`, then four sections
//! in this order: `filter`, whose payload is one of `open`, `completed`,
//! `not_planned` and `all`; `current_user`, `users` and `issues`, whose
//! payloads are JSON texts.

use vstd::prelude::*;
use vstd::slice::slice_subrange;
use crate::frame::{payload_is_unique, push_section, read_section, section, stands_at};
use crate::status::FilterStatus;

verus! {

/// The line `ramifi-snapshot 1`, with its line break.
pub const MAGIC: [u8; 18] = [
    114, 97, 109, 105, 102, 105, 45, 115, 110, 97, 112, 115, 104, 111, 116, 32, 49, 10,
];

/// The label `filter`.
pub const LABEL_FILTER: [u8; 6] = [102, 105, 108, 116, 101, 114];

/// The label `current_user`.
pub const LABEL_CURRENT_USER: [u8; 12] = [99, 117, 114, 114, 101, 110, 116, 95, 117, 115, 101, 114];

/// The label `users`.
pub const LABEL_USERS: [u8; 5] = [117, 115, 101, 114, 115];

/// The label `issues`.
pub const LABEL_ISSUES: [u8; 6] = [105, 115, 115, 117, 101, 115];

/// The tag `open`.
pub const TAG_OPEN: [u8; 4] = [111, 112, 101, 110];

/// The tag `completed`.
pub const TAG_COMPLETED: [u8; 9] = [99, 111, 109, 112, 108, 101, 116, 101, 100];

/// The tag `not_planned`.
pub const TAG_NOT_PLANNED: [u8; 11] = [110, 111, 116, 95, 112, 108, 97, 110, 110, 101, 100];

/// The tag `all`.
pub const TAG_ALL: [u8; 3] = [97, 108, 108];

/// The tag under which a filter is written.
pub open spec fn filter_tag(filter: FilterStatus) -> Seq<u8> {
    match filter {
        FilterStatus::Open => TAG_OPEN@,
        FilterStatus::Completed => TAG_COMPLETED@,
        FilterStatus::NotPlanned => TAG_NOT_PLANNED@,
        FilterStatus::All => TAG_ALL@,
    }
}

/// The bytes of a snapshot with the given filter and JSON texts.
pub open spec fn snapshot_of(
    filter: FilterStatus,
    user: Seq<u8>,
    users: Seq<u8>,
    issues: Seq<u8>,
) -> Seq<u8> {
    MAGIC@ + section(LABEL_FILTER@, filter_tag(filter)) + section(LABEL_CURRENT_USER@, user)
        + section(LABEL_USERS@, users) + section(LABEL_ISSUES@, issues)
}

/// The tag under which a filter is written.
pub fn tag_of_filter(filter: FilterStatus) -> (tag: &'static [u8])
    ensures
        tag@ == filter_tag(filter),
{
    match filter {
        FilterStatus::Open => TAG_OPEN.as_slice(),
        FilterStatus::Completed => TAG_COMPLETED.as_slice(),
        FilterStatus::NotPlanned => TAG_NOT_PLANNED.as_slice(),
        FilterStatus::All => TAG_ALL.as_slice(),
    }
}

/// Whether two runs of bytes are the same.
fn same_bytes(left: &[u8], right: &[u8]) -> (same: bool)
    ensures
        same == (left@ == right@),
{
    if left.len() != right.len() {
        return false;
    }
    let same = stands_at(left, 0, right);
    assert(left@.subrange(0, left@.len() as int) =~= left@);
    same
}

/// The filter that is written under a tag, or nothing where the bytes are no
/// tag.
pub fn filter_of_tag(tag: &[u8]) -> (filter: Option<FilterStatus>)
    ensures
        filter matches Some(f) ==> tag@ == filter_tag(f),
        forall|f: FilterStatus| tag@ == #[trigger] filter_tag(f) ==> filter == Some(f),
{
    if same_bytes(tag, TAG_OPEN.as_slice()) {
        Some(FilterStatus::Open)
    } else if same_bytes(tag, TAG_COMPLETED.as_slice()) {
        Some(FilterStatus::Completed)
    } else if same_bytes(tag, TAG_NOT_PLANNED.as_slice()) {
        Some(FilterStatus::NotPlanned)
    } else if same_bytes(tag, TAG_ALL.as_slice()) {
        Some(FilterStatus::All)
    } else {
        None
    }
}

/// The parts of a snapshot.
pub struct Frame<'a> {
    pub filter: FilterStatus,
    pub user: &'a [u8],
    pub users: &'a [u8],
    pub issues: &'a [u8],
}

/// Where the sections of a snapshot stand.
proof fn snapshot_layout(
    bytes: Seq<u8>,
    filter: FilterStatus,
    user: Seq<u8>,
    users: Seq<u8>,
    issues: Seq<u8>,
)
    requires
        bytes == snapshot_of(filter, user, users, issues),
    ensures
        ({
            let first = section(LABEL_FILTER@, filter_tag(filter));
            let second = section(LABEL_CURRENT_USER@, user);
            let third = section(LABEL_USERS@, users);
            let fourth = section(LABEL_ISSUES@, issues);
            let at_first = MAGIC@.len();
            let at_second = at_first + first.len();
            let at_third = at_second + second.len();
            let at_fourth = at_third + third.len();
            &&& bytes.len() == at_fourth + fourth.len()
            &&& bytes.subrange(0, at_first as int) == MAGIC@
            &&& first.is_prefix_of(bytes.skip(at_first as int))
            &&& second.is_prefix_of(bytes.skip(at_second as int))
            &&& third.is_prefix_of(bytes.skip(at_third as int))
            &&& fourth.is_prefix_of(bytes.skip(at_fourth as int))
        }),
{
    let first = section(LABEL_FILTER@, filter_tag(filter));
    let second = section(LABEL_CURRENT_USER@, user);
    let third = section(LABEL_USERS@, users);
    let fourth = section(LABEL_ISSUES@, issues);
    let at_first = MAGIC@.len() as int;
    let at_second = at_first + first.len();
    let at_third = at_second + second.len();
    let at_fourth = at_third + third.len();
    assert(bytes.subrange(0, at_first) =~= MAGIC@);
    assert(first =~= bytes.skip(at_first).subrange(0, first.len() as int));
    assert(second =~= bytes.skip(at_second).subrange(0, second.len() as int));
    assert(third =~= bytes.skip(at_third).subrange(0, third.len() as int));
    assert(fourth =~= bytes.skip(at_fourth).subrange(0, fourth.len() as int));
}

/// The bytes of a snapshot with the given filter and JSON texts.
pub fn write_frame(filter: FilterStatus, user: &[u8], users: &[u8], issues: &[u8]) -> (bytes: Vec<
    u8,
>)
    ensures
        bytes@ == snapshot_of(filter, user@, users@, issues@),
{
    let mut bytes: Vec<u8> = Vec::new();
    let mut i: usize = 0;
    while i < 18
        invariant
            i <= 18,
            bytes@ == MAGIC@.subrange(0, i as int),
        decreases 18 - i,
    {
        bytes.push(MAGIC[i]);
        i += 1;
        assert(bytes@ =~= MAGIC@.subrange(0, i as int));
    }
    assert(bytes@ =~= MAGIC@);
    push_section(&mut bytes, LABEL_FILTER.as_slice(), tag_of_filter(filter));
    push_section(&mut bytes, LABEL_CURRENT_USER.as_slice(), user);
    push_section(&mut bytes, LABEL_USERS.as_slice(), users);
    push_section(&mut bytes, LABEL_ISSUES.as_slice(), issues);
    bytes
}

/// Takes a snapshot apart. There are no parts where the bytes are not a
/// snapshot, and a snapshot has only the parts that are found.
#[verifier::rlimit(50)]
pub fn read_frame<'a>(bytes: &'a [u8]) -> (found: Option<Frame<'a>>)
    ensures
        found matches Some(frame) ==> bytes@ == snapshot_of(
            frame.filter,
            frame.user@,
            frame.users@,
            frame.issues@,
        ),
        forall|filter: FilterStatus, user: Seq<u8>, users: Seq<u8>, issues: Seq<u8>|
            bytes@ == #[trigger] snapshot_of(filter, user, users, issues) ==> (
            found matches Some(frame) && frame.filter == filter && frame.user@ == user
                && frame.users@ == users && frame.issues@ == issues),
{
    proof {
        assert forall|filter: FilterStatus, user: Seq<u8>, users: Seq<u8>, issues: Seq<u8>|
            bytes@ == #[trigger] snapshot_of(filter, user, users, issues) implies ({
            let first = section(LABEL_FILTER@, filter_tag(filter));
            let second = section(LABEL_CURRENT_USER@, user);
            let third = section(LABEL_USERS@, users);
            let fourth = section(LABEL_ISSUES@, issues);
            let at_first = MAGIC@.len();
            let at_second = at_first + first.len();
            let at_third = at_second + second.len();
            let at_fourth = at_third + third.len();
            &&& bytes@.len() == at_fourth + fourth.len()
            &&& bytes@.subrange(0, at_first as int) == MAGIC@
            &&& first.is_prefix_of(bytes@.skip(at_first as int))
            &&& second.is_prefix_of(bytes@.skip(at_second as int))
            &&& third.is_prefix_of(bytes@.skip(at_third as int))
            &&& fourth.is_prefix_of(bytes@.skip(at_fourth as int))
        }) by {
            snapshot_layout(bytes@, filter, user, users, issues);
        }
    }
    let len = bytes.len();
    if !stands_at(bytes, 0, MAGIC.as_slice()) {
        return None;
    }
    let (tag_start, tag_end) = match read_section(bytes, 18, LABEL_FILTER.as_slice()) {
        Some(range) => range,
        None => {
            return None;
        },
    };
    let tag = slice_subrange(bytes, tag_start, tag_end);
    let filter = match filter_of_tag(tag) {
        Some(filter) => filter,
        None => {
            return None;
        },
    };
    let (user_start, user_end) = match read_section(
        bytes,
        tag_end + 1,
        LABEL_CURRENT_USER.as_slice(),
    ) {
        Some(range) => range,
        None => {
            return None;
        },
    };
    let (users_start, users_end) = match read_section(
        bytes,
        user_end + 1,
        LABEL_USERS.as_slice(),
    ) {
        Some(range) => range,
        None => {
            return None;
        },
    };
    let (issues_start, issues_end) = match read_section(
        bytes,
        users_end + 1,
        LABEL_ISSUES.as_slice(),
    ) {
        Some(range) => range,
        None => {
            return None;
        },
    };
    if issues_end + 1 != len {
        return None;
    }
    let frame = Frame {
        filter,
        user: slice_subrange(bytes, user_start, user_end),
        users: slice_subrange(bytes, users_start, users_end),
        issues: slice_subrange(bytes, issues_start, issues_end),
    };
    proof {
        assert(bytes@ =~= bytes@.subrange(0, 18) + bytes@.subrange(18, tag_end + 1)
            + bytes@.subrange(tag_end + 1, user_end + 1) + bytes@.subrange(
            user_end + 1,
            users_end + 1,
        ) + bytes@.subrange(users_end + 1, issues_end + 1));
    }
    Some(frame)
}

/// A snapshot has one filter and one JSON text of each kind: two snapshots
/// with the same bytes have the same parts.
pub proof fn snapshot_is_unambiguous(
    filter: FilterStatus,
    user: Seq<u8>,
    users: Seq<u8>,
    issues: Seq<u8>,
    other_filter: FilterStatus,
    other_user: Seq<u8>,
    other_users: Seq<u8>,
    other_issues: Seq<u8>,
)
    requires
        snapshot_of(filter, user, users, issues) == snapshot_of(
            other_filter,
            other_user,
            other_users,
            other_issues,
        ),
    ensures
        filter == other_filter,
        user == other_user,
        users == other_users,
        issues == other_issues,
{
    let bytes = snapshot_of(filter, user, users, issues);
    snapshot_layout(bytes, filter, user, users, issues);
    snapshot_layout(bytes, other_filter, other_user, other_users, other_issues);
    let at_first = MAGIC@.len() as int;
    payload_is_unique(bytes, at_first, LABEL_FILTER@, filter_tag(filter), filter_tag(other_filter));
    let at_second = at_first + section(LABEL_FILTER@, filter_tag(filter)).len();
    payload_is_unique(bytes, at_second, LABEL_CURRENT_USER@, user, other_user);
    let at_third = at_second + section(LABEL_CURRENT_USER@, user).len();
    payload_is_unique(bytes, at_third, LABEL_USERS@, users, other_users);
    let at_fourth = at_third + section(LABEL_USERS@, users).len();
    payload_is_unique(bytes, at_fourth, LABEL_ISSUES@, issues, other_issues);
}

} // verus!
