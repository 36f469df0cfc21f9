//! Issues and comments as they are handed out: copies of what the repository
//! holds.

use vstd::prelude::*;
use crate::account::Account;
use crate::model::{date_fits, CommentView, IssueView, FIRST_DATE, LAST_DATE};
use crate::status::Status;

verus! {

/// Whether a moment can be written to a snapshot.
pub fn date_is_fit(millis: i64) -> (fits: bool)
    ensures
        fits == date_fits(millis),
{
    FIRST_DATE <= millis && millis <= LAST_DATE
}

/// Whether two lists hold the same texts in the same order.
fn same_texts(left: &Vec<String>, right: &Vec<String>) -> (same: bool)
    ensures
        same == (left.deep_view() == right.deep_view()),
{
    if left.len() != right.len() {
        assert(left.deep_view().len() != right.deep_view().len());
        return false;
    }
    let mut k: usize = 0;
    while k < left.len()
        invariant
            left.len() == right.len(),
            k <= left.len(),
            forall|j: int| 0 <= j < k ==> left@[j]@ == right@[j]@,
        decreases left.len() - k,
    {
        if left[k] != right[k] {
            assert(left.deep_view()[k as int] == left@[k as int]@);
            assert(right.deep_view()[k as int] == right@[k as int]@);
            return false;
        }
        k += 1;
    }
    assert(left.deep_view() =~= right.deep_view());
    true
}

/// A comment on an issue.
pub struct Comment {
    pub(crate) author: Account,
    pub(crate) text: String,
    pub(crate) date: i64,
}

impl View for Comment {
    type V = CommentView;

    closed spec fn view(&self) -> CommentView {
        CommentView { author: self.author@, text: self.text@, date: self.date }
    }
}

impl DeepView for Comment {
    type V = CommentView;

    open spec fn deep_view(&self) -> CommentView {
        self@
    }
}

impl Comment {
    /// Whether two comments are the same: author, text and date.
    pub fn same(&self, other: &Comment) -> (same: bool)
        ensures
            same == (self@ == other@),
    {
        self.author.same(&other.author) && self.text == other.text && self.date == other.date
    }

    /// Who wrote the comment.
    pub fn author(&self) -> (author: &Account)
        ensures
            author@ == self@.author,
    {
        &self.author
    }

    /// What the comment says.
    pub fn text(&self) -> (text: &str)
        ensures
            text@ == self@.text,
    {
        self.text.as_str()
    }

    /// When the comment was written, in milliseconds since the Unix epoch.
    pub fn date(&self) -> (date: i64)
        ensures
            date == self@.date,
    {
        self.date
    }
}

/// An issue.
pub struct Issue {
    pub(crate) name: String,
    pub(crate) status: Status,
    pub(crate) creator: Account,
    pub(crate) labels: Vec<String>,
    pub(crate) comments: Vec<Comment>,
    pub(crate) created_at: i64,
    pub(crate) updated_at: i64,
    pub(crate) from: usize,
}

impl View for Issue {
    type V = IssueView;

    closed spec fn view(&self) -> IssueView {
        IssueView {
            name: self.name@,
            status: self.status,
            creator: self.creator@,
            labels: self.labels.deep_view(),
            comments: self.comments.deep_view(),
            created_at: self.created_at,
            updated_at: self.updated_at,
            from: self.from,
        }
    }
}

impl DeepView for Issue {
    type V = IssueView;

    open spec fn deep_view(&self) -> IssueView {
        self@
    }
}

impl Issue {
    /// An issue made of its parts.
    pub(crate) fn assemble(
        name: String,
        status: Status,
        creator: Account,
        labels: Vec<String>,
        comments: Vec<Comment>,
        created_at: i64,
        updated_at: i64,
        from: usize,
    ) -> (issue: Issue)
        ensures
            issue@ == (IssueView {
                name: name@,
                status,
                creator: creator@,
                labels: labels.deep_view(),
                comments: comments.deep_view(),
                created_at,
                updated_at,
                from,
            }),
    {
        Issue { name, status, creator, labels, comments, created_at, updated_at, from }
    }

    /// Whether two issues are the same, field for field and comment for
    /// comment.
    pub fn same(&self, other: &Issue) -> (same: bool)
        ensures
            same == (self@ == other@),
    {
        if self.name != other.name || self.status != other.status || !self.creator.same(
            &other.creator,
        ) || self.created_at != other.created_at || self.updated_at != other.updated_at
            || self.from != other.from || !same_texts(&self.labels, &other.labels) {
            return false;
        }
        if self.comments.len() != other.comments.len() {
            assert(self@.comments.len() != other@.comments.len());
            return false;
        }
        let mut k: usize = 0;
        while k < self.comments.len()
            invariant
                self.comments.len() == other.comments.len(),
                k <= self.comments.len(),
                forall|j: int| 0 <= j < k ==> self.comments@[j]@ == other.comments@[j]@,
            decreases self.comments.len() - k,
        {
            if !self.comments[k].same(&other.comments[k]) {
                assert(self@.comments[k as int] == self.comments@[k as int]@);
                assert(other@.comments[k as int] == other.comments@[k as int]@);
                return false;
            }
            k += 1;
        }
        assert(self@.comments =~= other@.comments);
        true
    }

    /// Whether every date of the issue can be written to a snapshot.
    pub fn dates_fit(&self) -> (fit: bool)
        ensures
            fit == self@.dates_fit(),
    {
        if !date_is_fit(self.created_at) || !date_is_fit(self.updated_at) {
            return false;
        }
        let mut k: usize = 0;
        while k < self.comments.len()
            invariant
                k <= self.comments.len(),
                forall|j: int| 0 <= j < k ==> date_fits(#[trigger] self.comments@[j]@.date),
            decreases self.comments.len() - k,
        {
            if !date_is_fit(self.comments[k].date) {
                assert(self@.comments[k as int] == self.comments@[k as int]@);
                assert(!date_fits(self@.comments[k as int].date));
                return false;
            }
            k += 1;
        }
        assert forall|j: int| 0 <= j < self@.comments.len() implies date_fits(
            #[trigger] self@.comments[j].date,
        ) by {
            assert(self@.comments[j] == self.comments@[j]@);
        }
        true
    }

    /// The issue's name.
    pub fn name(&self) -> (name: &str)
        ensures
            name@ == self@.name,
    {
        self.name.as_str()
    }

    /// The issue's status.
    pub fn status(&self) -> (status: Status)
        ensures
            status == self@.status,
    {
        self.status
    }

    /// Who created the issue.
    pub fn creator(&self) -> (creator: &Account)
        ensures
            creator@ == self@.creator,
    {
        &self.creator
    }

    /// The issue's labels, in the order in which they were given.
    pub fn labels(&self) -> (labels: &Vec<String>)
        ensures
            labels.deep_view() == self@.labels,
    {
        &self.labels
    }

    /// The issue's comments, oldest first.
    pub fn comments(&self) -> (comments: &Vec<Comment>)
        ensures
            comments.deep_view() == self@.comments,
    {
        &self.comments
    }

    /// When the issue was created, in milliseconds since the Unix epoch.
    pub fn created_at(&self) -> (millis: i64)
        ensures
            millis == self@.created_at,
    {
        self.created_at
    }

    /// When the issue was last updated, in milliseconds since the Unix epoch.
    pub fn updated_at(&self) -> (millis: i64)
        ensures
            millis == self@.updated_at,
    {
        self.updated_at
    }

    /// The issue this one was forked from, if any.
    pub fn parent(&self) -> (parent: Option<usize>)
        ensures
            parent == self@.parent(),
    {
        if self.from == 0 {
            None
        } else {
            Some(self.from)
        }
    }
}

} // verus!
