//! The handoff of an imported state to the rendering loop.
//!
//! A worker reads the bytes of a file and delivers them to the slot; the
//! rendering loop polls the slot once per frame and, where a state is
//! pending, takes it over whole. The slot holds one state at most: a later
//! delivery replaces one that was not yet polled. The worker never touches
//! the live state, and a delivery that fails leaves no trace.

use vstd::prelude::*;
use crate::error::TrackerError;
use crate::snapshot::reads_as;
use crate::state::{ApplicationState, StateView};

verus! {

/// What a slot holds after a state was deposited in it: that state, whatever
/// it held before.
pub open spec fn deposited(pending: Option<ApplicationState>, candidate: ApplicationState)
    -> Option<ApplicationState> {
    Some(candidate)
}

/// What a poll of a slot returns, and what the slot holds afterwards: the
/// pending state is handed out, and the slot is empty.
pub open spec fn polled(pending: Option<ApplicationState>) -> (
    Option<ApplicationState>,
    Option<ApplicationState>,
) {
    (pending, None)
}

/// Of two states that were deposited before a poll, the poll hands out the
/// later one, whole and as it was deposited, and a second poll hands out
/// nothing.
pub proof fn later_deposit_wins(
    pending: Option<ApplicationState>,
    first: ApplicationState,
    second: ApplicationState,
)
    ensures
        polled(deposited(deposited(pending, first), second)).0 == Some(second),
        polled(polled(deposited(deposited(pending, first), second)).1).0 is None,
{
}

/// The slot between the workers that import and the rendering loop.
pub struct ImportSlot {
    pending: Option<ApplicationState>,
}

impl View for ImportSlot {
    type V = Option<ApplicationState>;

    /// The state that waits to be polled, if any.
    closed spec fn view(&self) -> Option<ApplicationState> {
        self.pending
    }
}

impl ImportSlot {
    /// The invariant of a slot: a pending state is well formed.
    pub open spec fn wf(&self) -> bool {
        self@ matches Some(state) ==> state.wf()
    }

    /// An empty slot.
    pub fn new() -> (slot: ImportSlot)
        ensures
            slot.wf(),
            slot@ is None,
    {
        ImportSlot { pending: None }
    }

    /// Puts a state into the slot, in place of what was pending.
    pub fn deposit(&mut self, candidate: ApplicationState)
        requires
            candidate.wf(),
        ensures
            final(self).wf(),
            final(self)@ == deposited(old(self)@, candidate),
    {
        self.pending = Some(candidate);
    }

    /// Takes the pending state out of the slot, if there is one.
    pub fn poll(&mut self) -> (state: Option<ApplicationState>)
        requires
            old(self).wf(),
        ensures
            final(self).wf(),
            (state, final(self)@) == polled(old(self)@),
            state matches Some(s) ==> s.wf(),
    {
        self.pending.take()
    }

    /// The end of an import: where the bytes are a snapshot, the state they
    /// describe is deposited; where they are not, the slot stays as it is.
    pub fn deliver(&mut self, bytes: &[u8]) -> (delivered: bool)
        requires
            old(self).wf(),
        ensures
            final(self).wf(),
            delivered ==> (final(self)@ matches Some(state) && reads_as(bytes@, state@)),
            !delivered ==> *final(self) == *old(self) && forall|state: StateView|
                !reads_as(bytes@, state),
    {
        match ApplicationState::deserialize(bytes) {
            Ok(state) => {
                self.deposit(state);
                true
            },
            Err(_) => false,
        }
    }
}

impl ApplicationState {
    /// Takes over what a poll handed out: a state replaces this one whole,
    /// and where there is none nothing changes. Says whether this state was
    /// replaced.
    pub fn accept(&mut self, incoming: Option<ApplicationState>) -> (replaced: bool)
        requires
            old(self).wf(),
            incoming matches Some(state) ==> state.wf(),
        ensures
            final(self).wf(),
            replaced == incoming is Some,
            incoming matches Some(state) ==> *final(self) == state,
            incoming is None ==> *final(self) == *old(self),
    {
        match incoming {
            Some(state) => {
                *self = state;
                true
            },
            None => false,
        }
    }

    /// Replaces this state by the one that the bytes are a snapshot of. Where
    /// they are no snapshot, this state stays exactly as it is.
    pub fn import(&mut self, bytes: &[u8]) -> (imported: Result<(), TrackerError>)
        requires
            old(self).wf(),
        ensures
            final(self).wf(),
            imported is Ok ==> reads_as(bytes@, final(self)@),
            imported matches Err(e) ==> e == TrackerError::Format && *final(self) == *old(self)
                && forall|state: StateView| !reads_as(bytes@, state),
    {
        match ApplicationState::deserialize(bytes) {
            Ok(state) => {
                *self = state;
                Ok(())
            },
            Err(e) => Err(e),
        }
    }
}

} // verus!
