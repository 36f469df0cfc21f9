//! The repository: the issues of a tracker, each under the identifier it got
//! when it was created.
//!
//! The issues live in a store of `local_issues_lib`, slot by slot; an issue's
//! identifier is its slot. The store's own placeholder has slot 0, so the
//! identifiers start at 1, and an issue whose `from` is 0 has no parent.

use vstd::prelude::*;
use crate::account::Account;
use crate::error::TrackerError;
use crate::issue::Issue;
use crate::json::issues_json;
use crate::model::{all_dates_fit, replace_slot, CommentView, IssueView};
use crate::status::{FilterStatus, Status};
use crate::store::{
    has_slot, slot_comments, slot_created_at, slot_creator, slot_from, slot_labels,
    slot_name, slot_status, slot_updated_at, store_clone, store_add, store_close_completed, store_close_not_planned,
    store_comment, store_fork, store_len, store_new, store_reopen, stored_issues,
};
use crate::text::{found_by, name_matches};

verus! {

/// Whether the slots are those of a repository: the placeholder's slot is
/// there, and every parent is an issue that was created before its child.
pub open spec fn well_formed(slots: Seq<IssueView>) -> bool {
    &&& slots.len() >= 1
    &&& forall|id: int| 1 <= id < slots.len() ==> parent_is_older(slots, id)
}

/// Whether the issue in slot `id` has no parent or an older issue as parent.
pub open spec fn parent_is_older(slots: Seq<IssueView>, id: int) -> bool {
    slots[id].from == 0 || slots[id].from < id
}

/// Whether `id` is the identifier of an issue.
pub open spec fn is_issue(slots: Seq<IssueView>, id: usize) -> bool {
    0 < id < slots.len()
}

/// The slots after the issue `id` has moved to `status`.
pub open spec fn moved_to(slots: Seq<IssueView>, id: usize, status: Status) -> Seq<IssueView> {
    replace_slot(slots, id, slots[id as int].with_status(status))
}

/// The slots after the issue `id` was closed at the moment `at`, as completed
/// or as not planned: it has that status and was updated then.
pub open spec fn closed_at(slots: Seq<IssueView>, id: usize, status: Status, at: i64) -> Seq<
    IssueView,
> {
    replace_slot(slots, id, slots[id as int].with_status(status).touched(at))
}

/// The slots after the issue `id` was forked: it is closed as forked, and its
/// fork stands at the end.
pub open spec fn forked(slots: Seq<IssueView>, id: usize) -> Seq<IssueView> {
    moved_to(slots, id, Status::ClosedForked).push(slots[id as int].forked_from(id))
}

/// Whether an issue is shown under a filter and a query.
pub open spec fn is_shown(issue: IssueView, filter: FilterStatus, query: Seq<char>) -> bool {
    filter.spec_matches(issue.status) && found_by(issue.name, query)
}

/// Whether `listing` is the listing of the slots under a filter and a query:
/// the issues that are shown, each with its identifier, newest first.
pub open spec fn is_listing(
    listing: Seq<(usize, IssueView)>,
    slots: Seq<IssueView>,
    filter: FilterStatus,
    query: Seq<char>,
) -> bool {
    &&& forall|k: int|
        0 <= k < listing.len() ==> {
            &&& is_issue(slots, (#[trigger] listing[k]).0)
            &&& listing[k].1 == slots[listing[k].0 as int]
            &&& is_shown(listing[k].1, filter, query)
        }
    &&& forall|j: int, k: int|
        0 <= j < k < listing.len() ==> (#[trigger] listing[j]).0 > (#[trigger] listing[k]).0
    &&& forall|id: usize|
        is_issue(slots, id) && is_shown(#[trigger] slots[id as int], filter, query)
            ==> exists|k: int| 0 <= k < listing.len() && (#[trigger] listing[k]).0 == id
}

/// The slots after the issue `id` was closed once for each entry of `closes`,
/// one after the other, each time with the status and at the moment that the
/// entry gives.
pub open spec fn closed_through(slots: Seq<IssueView>, id: usize, closes: Seq<(Status, i64)>)
    -> Seq<IssueView>
    decreases closes.len(),
{
    if closes.len() == 0 {
        slots
    } else {
        closed_at(closed_through(slots, id, closes.drop_last()), id, closes.last().0, closes.last().1)
    }
}

/// However often and in whichever order an issue is closed as completed and
/// as not planned, it ends in the status of the last call, and the repository
/// is as if that call had been the only one: a close does not depend on the
/// status it finds. An issue that is opened where it is open stays as it is.
pub proof fn last_move_wins(slots: Seq<IssueView>, id: usize, closes: Seq<(Status, i64)>)
    requires
        is_issue(slots, id),
        closes.len() > 0,
    ensures
        closed_through(slots, id, closes) == closed_at(
            slots,
            id,
            closes.last().0,
            closes.last().1,
        ),
        closed_through(slots, id, closes)[id as int].status == closes.last().0,
        moved_to(slots, id, slots[id as int].status) == slots,
    decreases closes.len(),
{
    let earlier = closes.drop_last();
    let reached = closed_through(slots, id, earlier);
    let (status, at) = closes.last();
    if earlier.len() > 0 {
        last_move_wins(slots, id, earlier);
    } else {
        assert(reached == slots);
    }
    assert(reached.len() == slots.len());
    assert(reached[id as int].with_status(status).touched(at) == slots[id as int].with_status(
        status,
    ).touched(at));
    assert(closed_at(reached, id, status, at) =~= closed_at(slots, id, status, at));
    assert(moved_to(slots, id, slots[id as int].status) =~= slots);
}

/// A fork gets an identifier greater than that of every issue there was,
/// leaves the forked issue closed as forked and names it as its parent; it
/// takes the forked issue's name and labels, and is open. The other issues are
/// as they were, and the repository stays well formed.
pub proof fn fork_keeps_lineage(slots: Seq<IssueView>, id: usize)
    requires
        well_formed(slots),
        is_issue(slots, id),
        slots.len() < usize::MAX,
    ensures
        well_formed(forked(slots, id)),
        forked(slots, id).len() == slots.len() + 1,
        forall|other: usize| is_issue(slots, other) ==> other < slots.len(),
        forked(slots, id)[id as int].status == Status::ClosedForked,
        forked(slots, id)[slots.len() as int].parent() == Some(id),
        forked(slots, id)[slots.len() as int].status == Status::Open,
        forked(slots, id)[slots.len() as int].name == slots[id as int].name,
        forked(slots, id)[slots.len() as int].labels == slots[id as int].labels,
        forall|other: usize|
            is_issue(slots, other) && other != id ==> forked(slots, id)[other as int]
                == slots[other as int],
{
    let after = forked(slots, id);
    assert forall|k: int| 1 <= k < after.len() implies parent_is_older(after, k) by {
        if k < slots.len() {
            assert(parent_is_older(slots, k));
        }
    }
}

/// Whether the slots `after` continue the slots `before`: every issue is
/// still there under its identifier, with its name, creator, labels, creation
/// time and parent, and with the comments it had at the start of its thread.
pub open spec fn continues(before: Seq<IssueView>, after: Seq<IssueView>) -> bool {
    &&& before.len() <= after.len()
    &&& forall|id: int|
        0 <= id < before.len() ==> {
            &&& (#[trigger] after[id]).name == before[id].name
            &&& after[id].creator == before[id].creator
            &&& after[id].labels == before[id].labels
            &&& after[id].created_at == before[id].created_at
            &&& after[id].from == before[id].from
            &&& before[id].comments.is_prefix_of(after[id].comments)
        }
}

/// Nothing that a repository does takes an issue away, gives it another
/// identifier or parent, or touches a comment that was made: a new issue, a
/// new comment, a move to another status and a fork all continue the slots
/// they find.
pub proof fn history_is_kept(
    slots: Seq<IssueView>,
    id: usize,
    issue: IssueView,
    comment: CommentView,
    status: Status,
    at: i64,
)
    requires
        is_issue(slots, id),
    ensures
        continues(slots, slots.push(issue)),
        continues(
            slots,
            replace_slot(slots, id, slots[id as int].with_comment(comment).touched(at)),
        ),
        continues(slots, closed_at(slots, id, status, at)),
        continues(slots, moved_to(slots, id, status)),
        continues(slots, forked(slots, id)),
{
    assert(slots[id as int].comments.is_prefix_of(slots[id as int].comments.push(comment)));
    assert forall|k: int| 0 <= k < slots.len() implies slots[k].comments.is_prefix_of(
        slots[k].comments,
    ) by {}
}

/// The issues of a tracker.
pub struct Repository {
    store: local_issues_lib::Issues,
}

impl View for Repository {
    type V = Seq<IssueView>;

    /// The slots of the repository. Slot 0 is the store's placeholder; the
    /// issue with identifier `id` is in slot `id`.
    closed spec fn view(&self) -> Seq<IssueView> {
        stored_issues(self.store)
    }
}

impl Repository {
    /// The JSON text of the repository, where the encoder gives one.
    pub closed spec fn encoded(&self) -> Option<Seq<u8>> {
        issues_json(self.store)
    }

    /// The invariant of a repository.
    pub open spec fn wf(&self) -> bool {
        well_formed(self@)
    }

    /// Whether `id` is the identifier of an issue of this repository.
    pub open spec fn has(&self, id: usize) -> bool {
        is_issue(self@, id)
    }

    /// A repository without issues.
    pub fn new() -> (repository: Repository)
        ensures
            repository.wf(),
            repository@.len() == 1,
    {
        Repository { store: store_new() }
    }

    /// The number of issues.
    pub fn count(&self) -> (count: usize)
        requires
            self.wf(),
        ensures
            count == self@.len() - 1,
    {
        store_len(&self.store) - 1
    }

    /// Creates an open issue without comments and returns its identifier,
    /// which is greater than every identifier given before. An empty name is
    /// refused.
    pub fn create_issue(&mut self, name: &str, creator: &Account, labels: &Vec<String>) -> (created:
        Result<usize, TrackerError>)
        requires
            old(self).wf(),
        ensures
            final(self).wf(),
            name@.len() == 0 ==> created == Err::<usize, TrackerError>(TrackerError::Validation)
                && *final(self) == *old(self),
            name@.len() > 0 ==> {
                &&& created matches Ok(id)
                &&& id == old(self)@.len()
                &&& final(self)@ == old(self)@.push(final(self)@[id as int])
                &&& final(self)@[id as int].is_fresh(name@, creator@, labels.deep_view())
            },
    {
        if name.is_empty() {
            return Err(TrackerError::Validation);
        }
        let id = store_add(&mut self.store, name, creator.record(), labels);
        proof {
            let before = old(self)@;
            let after = self@;
            assert forall|k: int| 1 <= k < after.len() implies parent_is_older(after, k) by {
                if k < before.len() {
                    assert(parent_is_older(before, k));
                }
            }
        }
        Ok(id)
    }

    /// Appends a comment to the thread of the issue `id`, which is updated by
    /// that. An empty text is refused, and so is an identifier of no issue.
    pub fn add_comment(&mut self, id: usize, text: &str, author: &Account) -> (added: Result<
        (),
        TrackerError,
    >)
        requires
            old(self).wf(),
        ensures
            final(self).wf(),
            text@.len() == 0 ==> added == Err::<(), TrackerError>(TrackerError::Validation),
            text@.len() > 0 && !old(self).has(id) ==> added == Err::<(), TrackerError>(
                TrackerError::NotFound,
            ),
            added is Err ==> *final(self) == *old(self),
            text@.len() > 0 && old(self).has(id) ==> {
                &&& added is Ok
                &&& final(self)@ == replace_slot(
                    old(self)@,
                    id,
                    old(self)@[id as int].with_comment(
                        final(self)@[id as int].comments.last(),
                    ).touched(final(self)@[id as int].updated_at),
                )
                &&& final(self)@[id as int].comments.last().is_fresh(author@, text@)
            },
    {
        if text.is_empty() {
            return Err(TrackerError::Validation);
        }
        if id == 0 || id >= store_len(&self.store) {
            return Err(TrackerError::NotFound);
        }
        store_comment(&mut self.store, id, text, author.record());
        proof {
            self.same_parents(*old(self));
        }
        Ok(())
    }

    /// Closes the issue `id` as completed, whatever its status was, and
    /// updates it.
    pub fn close_as_completed(&mut self, id: usize) -> (closed: Result<(), TrackerError>)
        requires
            old(self).wf(),
        ensures
            final(self).wf(),
            old(self).has(id) ==> closed is Ok && final(self)@ == closed_at(
                old(self)@,
                id,
                Status::ClosedCompleted,
                final(self)@[id as int].updated_at,
            ),
            !old(self).has(id) ==> closed == Err::<(), TrackerError>(TrackerError::NotFound)
                && *final(self) == *old(self),
    {
        if id == 0 || id >= store_len(&self.store) {
            return Err(TrackerError::NotFound);
        }
        store_close_completed(&mut self.store, id);
        proof {
            self.same_parents(*old(self));
        }
        Ok(())
    }

    /// Closes the issue `id` as not planned, whatever its status was, and
    /// updates it.
    pub fn close_as_not_planned(&mut self, id: usize) -> (closed: Result<(), TrackerError>)
        requires
            old(self).wf(),
        ensures
            final(self).wf(),
            old(self).has(id) ==> closed is Ok && final(self)@ == closed_at(
                old(self)@,
                id,
                Status::ClosedNotPlanned,
                final(self)@[id as int].updated_at,
            ),
            !old(self).has(id) ==> closed == Err::<(), TrackerError>(TrackerError::NotFound)
                && *final(self) == *old(self),
    {
        if id == 0 || id >= store_len(&self.store) {
            return Err(TrackerError::NotFound);
        }
        store_close_not_planned(&mut self.store, id);
        proof {
            self.same_parents(*old(self));
        }
        Ok(())
    }

    /// Opens the issue `id` again, from whichever closed status; an open issue
    /// stays open.
    pub fn reopen(&mut self, id: usize) -> (reopened: Result<(), TrackerError>)
        requires
            old(self).wf(),
        ensures
            final(self).wf(),
            old(self).has(id) ==> reopened is Ok && final(self)@ == moved_to(
                old(self)@,
                id,
                Status::Open,
            ),
            !old(self).has(id) ==> reopened == Err::<(), TrackerError>(TrackerError::NotFound)
                && *final(self) == *old(self),
    {
        if id == 0 || id >= store_len(&self.store) {
            return Err(TrackerError::NotFound);
        }
        store_reopen(&mut self.store, id);
        proof {
            self.same_parents(*old(self));
        }
        Ok(())
    }

    /// Forks the issue `id`: closes it as forked and appends a copy of it as
    /// it was, open and with `id` as its parent. Returns the copy's
    /// identifier, which is greater than every identifier given before, or
    /// nothing where `id` is no issue.
    pub fn fork(&mut self, id: usize) -> (child: Option<usize>)
        requires
            old(self).wf(),
        ensures
            final(self).wf(),
            old(self).has(id) ==> {
                &&& child matches Some(c)
                &&& c == old(self)@.len()
                &&& final(self)@ == forked(old(self)@, id)
            },
            !old(self).has(id) ==> child is None && *final(self) == *old(self),
    {
        if id == 0 || id >= store_len(&self.store) {
            return None;
        }
        let child = store_fork(&mut self.store, id);
        proof {
            let before = old(self)@;
            let after = self@;
            assert forall|k: int| 1 <= k < after.len() implies parent_is_older(after, k) by {
                if k < before.len() {
                    assert(parent_is_older(before, k));
                }
            }
        }
        child
    }

    /// A copy of the issue `id`, or nothing where `id` is no issue.
    pub fn get(&self, id: usize) -> (found: Option<Issue>)
        requires
            self.wf(),
        ensures
            self.has(id) ==> (found matches Some(issue) && issue@ == self@[id as int]),
            !self.has(id) ==> found is None,
    {
        if id == 0 || id >= store_len(&self.store) {
            return None;
        }
        Some(self.read(id))
    }

    /// The issues that are shown under a filter and a query, newest first,
    /// each as a copy with its identifier. A query finds the issues whose
    /// name contains it, whatever the case of either; the empty query finds
    /// every issue.
    pub fn list(&self, filter: FilterStatus, query: &str) -> (listing: Vec<(usize, Issue)>)
        requires
            self.wf(),
        ensures
            is_listing(listing.deep_view(), self@, filter, query@),
    {
        let mut listing: Vec<(usize, Issue)> = Vec::new();
        let len = store_len(&self.store);
        let mut id: usize = len - 1;
        while id > 0
            invariant
                len == self@.len(),
                id < len,
                forall|k: int|
                    0 <= k < listing@.len() ==> {
                        &&& id < (#[trigger] listing@[k]).0 < len
                        &&& listing@[k].1@ == self@[listing@[k].0 as int]
                        &&& is_shown(listing@[k].1@, filter, query@)
                    },
                forall|j: int, k: int|
                    0 <= j < k < listing@.len() ==> (#[trigger] listing@[j]).0 > (
                    #[trigger] listing@[k]).0,
                forall|i: usize|
                    id < i < len && is_shown(#[trigger] self@[i as int], filter, query@)
                        ==> exists|k: int|
                        0 <= k < listing@.len() && (#[trigger] listing@[k]).0 == i,
            decreases id,
        {
            let status = slot_status(&self.store, id);
            let name = slot_name(&self.store, id);
            if filter.matches(&status) && name_matches(name.as_str(), query) {
                let issue = self.read(id);
                let ghost before = listing@;
                listing.push((id, issue));
                proof {
                    let last = before.len() as int;
                    assert(listing@[last].0 == id);
                    assert forall|i: usize|
                        id <= i < len && is_shown(
                            #[trigger] self@[i as int],
                            filter,
                            query@,
                        ) implies exists|k: int|
                        0 <= k < listing@.len() && (#[trigger] listing@[k]).0 == i by {
                        if i == id {
                            assert(listing@[last].0 == i);
                        } else {
                            let k = choose|k: int|
                                0 <= k < before.len() && (#[trigger] before[k]).0 == i;
                            assert(listing@[k].0 == i);
                        }
                    }
                }
            }
            id -= 1;
        }
        proof {
            let shown = listing.deep_view();
            assert(shown.len() == listing@.len());
            assert forall|k: int| 0 <= k < shown.len() implies (#[trigger] shown[k])
                == (listing@[k].0, listing@[k].1@) by {}
            assert forall|i: usize|
                is_issue(self@, i) && is_shown(
                    #[trigger] self@[i as int],
                    filter,
                    query@,
                ) implies exists|k: int| 0 <= k < shown.len() && (#[trigger] shown[k]).0 == i by {
                let k = choose|k: int| 0 <= k < listing@.len() && (#[trigger] listing@[k]).0 == i;
                assert(shown[k].0 == i);
            }
        }
        listing
    }

    /// A repository of its own that holds the same issues.
    pub fn duplicate(&self) -> (copy: Repository)
        ensures
            copy@ == self@,
    {
        Repository { store: store_clone(&self.store) }
    }

    /// Whether two repositories hold the same in every slot.
    pub fn same(&self, other: &Repository) -> (same: bool)
        ensures
            same == (self@ == other@),
    {
        let len = store_len(&self.store);
        if len != store_len(&other.store) {
            return false;
        }
        let mut id: usize = 0;
        while id < len
            invariant
                len == self@.len(),
                len == other@.len(),
                forall|k: int| 0 <= k < id ==> self@[k] == other@[k],
            decreases len - id,
        {
            let mine = self.read(id);
            let theirs = other.read(id);
            if !mine.same(&theirs) {
                return false;
            }
            id += 1;
        }
        assert(self@ =~= other@);
        true
    }

    /// Whether every date in the repository can be written to a snapshot.
    pub fn dates_fit(&self) -> (fit: bool)
        ensures
            fit == all_dates_fit(self@),
    {
        let len = store_len(&self.store);
        let mut id: usize = 0;
        while id < len
            invariant
                len == self@.len(),
                forall|k: int| 0 <= k < id ==> (#[trigger] self@[k]).dates_fit(),
            decreases len - id,
        {
            let issue = self.read(id);
            if !issue.dates_fit() {
                return false;
            }
            id += 1;
        }
        true
    }

    /// The store that holds the issues.
    pub(crate) fn store(&self) -> (store: &local_issues_lib::Issues)
        ensures
            stored_issues(*store) == self@,
            issues_json(*store) == self.encoded(),
    {
        &self.store
    }

    /// The repository over a store, or nothing where what the store holds is
    /// not well formed.
    pub(crate) fn adopt(store: local_issues_lib::Issues) -> (adopted: Option<Repository>)
        ensures
            well_formed(stored_issues(store)) ==> (adopted matches Some(repository)
                && repository@ == stored_issues(store) && repository.wf()),
            !well_formed(stored_issues(store)) ==> adopted is None,
    {
        let len = store_len(&store);
        if len == 0 {
            return None;
        }
        let mut id: usize = 1;
        while id < len
            invariant
                len == stored_issues(store).len(),
                1 <= id <= len,
                forall|k: int| 1 <= k < id ==> parent_is_older(stored_issues(store), k),
            decreases len - id,
        {
            let from = slot_from(&store, id);
            if from != 0 && from >= id {
                assert(!parent_is_older(stored_issues(store), id as int));
                return None;
            }
            id += 1;
        }
        Some(Repository { store })
    }

    /// A copy of what slot `id` holds.
    fn read(&self, id: usize) -> (issue: Issue)
        requires
            has_slot(self.store, id),
        ensures
            issue@ == self@[id as int],
    {
        Issue::assemble(
            slot_name(&self.store, id),
            slot_status(&self.store, id),
            Account::of_record(slot_creator(&self.store, id)),
            slot_labels(&self.store, id),
            slot_comments(&self.store, id),
            slot_created_at(&self.store, id),
            slot_updated_at(&self.store, id),
            slot_from(&self.store, id),
        )
    }

    /// A repository stays well formed when its slots change but keep their
    /// number and their parents.
    proof fn same_parents(self, before: Repository)
        requires
            before.wf(),
            self@.len() == before@.len(),
            forall|k: int| 0 <= k < self@.len() ==> self@[k].from == before@[k].from,
        ensures
            self.wf(),
    {
        assert forall|k: int| 1 <= k < self@.len() implies parent_is_older(self@, k) by {
            assert(parent_is_older(before@, k));
        }
    }
}

} // verus!
