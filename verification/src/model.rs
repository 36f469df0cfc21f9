//! The mathematical model of the tracker's data: what a user, a comment and an
//! issue are, as plain values.

use vstd::prelude::*;
use crate::status::Status;

verus! {

/// The first moment that can be written to a snapshot, in milliseconds since
/// the Unix epoch: the second day of the year -262143. The dates of `chrono`
/// start a day before that.
pub const FIRST_DATE: i64 = -8_334_601_142_400_000;

/// The last moment that can be written to a snapshot, in milliseconds since
/// the Unix epoch: the end of the last day but one of the year 262142. The
/// dates of `chrono` end a day after that.
pub const LAST_DATE: i64 = 8_210_266_790_399_999;

/// Whether a moment can be written to a snapshot. Such a moment is at least a
/// day inside the dates of `chrono`, so that it is inside them in every time
/// zone.
pub open spec fn date_fits(millis: i64) -> bool {
    FIRST_DATE <= millis <= LAST_DATE
}

/// A user: a display name, which is also the key users are compared by, and an
/// email address.
#[verifier::ext_equal]
pub struct UserView {
    pub name: Seq<char>,
    pub email: Seq<char>,
}

/// A comment: who wrote it, what it says, and when it was written, in
/// milliseconds since the Unix epoch.
#[verifier::ext_equal]
pub struct CommentView {
    pub author: UserView,
    pub text: Seq<char>,
    pub date: i64,
}

/// An issue. `from` is 0 for an issue that was created directly, and the
/// identifier of the issue it was forked from otherwise. `created_at` and
/// `updated_at` are in milliseconds since the Unix epoch; an issue is updated
/// when it is closed as completed or as not planned and when it is commented
/// on.
#[verifier::ext_equal]
pub struct IssueView {
    pub name: Seq<char>,
    pub status: Status,
    pub creator: UserView,
    pub labels: Seq<Seq<char>>,
    pub comments: Seq<CommentView>,
    pub created_at: i64,
    pub updated_at: i64,
    pub from: usize,
}

impl IssueView {
    /// The issue this one was forked from, if any.
    pub open spec fn parent(self) -> Option<usize> {
        if self.from == 0 {
            None
        } else {
            Some(self.from)
        }
    }

    /// The same issue in another status.
    pub open spec fn with_status(self, status: Status) -> IssueView {
        IssueView { status, ..self }
    }

    /// The same issue with one more comment at the end of its thread.
    pub open spec fn with_comment(self, comment: CommentView) -> IssueView {
        IssueView { comments: self.comments.push(comment), ..self }
    }

    /// The same issue, updated at the given moment.
    pub open spec fn touched(self, at: i64) -> IssueView {
        IssueView { updated_at: at, ..self }
    }

    /// The fork of this issue, where `id` is this issue's identifier: a copy
    /// that is open again and names `id` as its parent.
    pub open spec fn forked_from(self, id: usize) -> IssueView {
        IssueView { status: Status::Open, from: id, ..self }
    }

    /// Whether this is an issue as it is right after its creation with the
    /// given name, creator and labels: open, without comments or parent, and
    /// not updated since. Its creation time is whatever the clock said.
    pub open spec fn is_fresh(
        self,
        name: Seq<char>,
        creator: UserView,
        labels: Seq<Seq<char>>,
    ) -> bool {
        self == (IssueView {
            name,
            status: Status::Open,
            creator,
            labels,
            comments: Seq::empty(),
            created_at: self.created_at,
            updated_at: self.created_at,
            from: 0,
        })
    }

    /// Whether every date of the issue can be written to a snapshot: when it
    /// was created, when it was last updated, and the date of each comment.
    pub open spec fn dates_fit(self) -> bool {
        &&& date_fits(self.created_at)
        &&& date_fits(self.updated_at)
        &&& forall|k: int| 0 <= k < self.comments.len() ==> date_fits(#[trigger] self.comments[k].date)
    }
}

/// Whether every date in the slots can be written to a snapshot.
pub open spec fn all_dates_fit(slots: Seq<IssueView>) -> bool {
    forall|id: int| 0 <= id < slots.len() ==> (#[trigger] slots[id]).dates_fit()
}

/// The slots with slot `id` replaced.
pub open spec fn replace_slot(slots: Seq<IssueView>, id: usize, issue: IssueView) -> Seq<
    IssueView,
> {
    slots.update(id as int, issue)
}

impl CommentView {
    /// Whether this is a comment by `author` that says `text`. Its date is
    /// whatever the clock said.
    pub open spec fn is_fresh(self, author: UserView, text: Seq<char>) -> bool {
        self == (CommentView { author, text, date: self.date })
    }
}

} // verus!
