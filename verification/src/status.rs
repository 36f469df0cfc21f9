//! The lifecycle status of an issue and the filter that selects by it.

use vstd::prelude::*;

verus! {

/// Lifecycle state of an issue. A new issue is `Open`.
#[derive(Clone, Copy, Debug, PartialEq, Eq, Structural)]
pub enum Status {
    Open,
    ClosedCompleted,
    ClosedNotPlanned,
    /// Closed because the issue was forked into a new one.
    ClosedForked,
}

/// The status filter of a listing.
#[derive(Clone, Copy, Debug, PartialEq, Eq, Structural)]
pub enum FilterStatus {
    Open,
    /// Completed issues; a forked issue counts as completed.
    Completed,
    NotPlanned,
    All,
}

impl Status {
    /// The text under which a status is shown.
    pub open spec fn spec_label(self) -> Seq<char> {
        match self {
            Status::Open => "Open"@,
            Status::ClosedCompleted => "Completed"@,
            Status::ClosedNotPlanned => "Not Planned"@,
            Status::ClosedForked => "Forked"@,
        }
    }

    /// The text under which a status is shown.
    pub fn label(&self) -> (text: &'static str)
        ensures
            text@ == self.spec_label(),
    {
        match self {
            Status::Open => "Open",
            Status::ClosedCompleted => "Completed",
            Status::ClosedNotPlanned => "Not Planned",
            Status::ClosedForked => "Forked",
        }
    }
}

impl FilterStatus {
    /// Which statuses a filter lets through.
    pub open spec fn spec_matches(self, status: Status) -> bool {
        match self {
            FilterStatus::Open => status == Status::Open,
            FilterStatus::Completed => status == Status::ClosedCompleted || status
                == Status::ClosedForked,
            FilterStatus::NotPlanned => status == Status::ClosedNotPlanned,
            FilterStatus::All => true,
        }
    }

    /// Whether an issue of the given status is shown under this filter.
    pub fn matches(&self, status: &Status) -> (shown: bool)
        ensures
            shown == self.spec_matches(*status),
    {
        match (self, status) {
            (FilterStatus::Open, Status::Open) => true,
            (FilterStatus::Open, _) => false,
            (FilterStatus::Completed, Status::ClosedCompleted) => true,
            (FilterStatus::Completed, Status::ClosedForked) => true,
            (FilterStatus::Completed, _) => false,
            (FilterStatus::NotPlanned, Status::ClosedNotPlanned) => true,
            (FilterStatus::NotPlanned, _) => false,
            (FilterStatus::All, _) => true,
        }
    }
}

/// The filters partition the statuses: `All` shows every status, and each
/// status is shown under exactly one of the other three filters, a forked
/// issue under `Completed`.
pub proof fn filters_partition_statuses(status: Status)
    ensures
        FilterStatus::All.spec_matches(status),
        FilterStatus::Open.spec_matches(status) == (status == Status::Open),
        FilterStatus::Completed.spec_matches(status) == (status == Status::ClosedCompleted
            || status == Status::ClosedForked),
        FilterStatus::NotPlanned.spec_matches(status) == (status == Status::ClosedNotPlanned),
        FilterStatus::Open.spec_matches(status) || FilterStatus::Completed.spec_matches(status)
            || FilterStatus::NotPlanned.spec_matches(status),
        !(FilterStatus::Open.spec_matches(status) && FilterStatus::Completed.spec_matches(
            status,
        )),
        !(FilterStatus::Open.spec_matches(status) && FilterStatus::NotPlanned.spec_matches(
            status,
        )),
        !(FilterStatus::Completed.spec_matches(status) && FilterStatus::NotPlanned.spec_matches(
            status,
        )),
{
}

} // verus!
