//! Bounded transition sequencer: an ordered path of states with a cursor that
//! advances only along transitions that the state type declares legal.
use crate::event::{listed, EventList, StateEvent};
use vstd::prelude::*;

verus! {

/// A set of states with a legality rule for moving between them and, for each
/// state, the events of which one must be observed before it is entered.
pub trait MovingState: Sized {
    /// Whether `next` may directly follow `self`.
    spec fn allows(&self, next: Self) -> bool;

    /// Events that unblock entering `self`; empty when nothing is awaited.
    spec fn required_events(&self) -> Seq<StateEvent>;

    fn get_required_events(&self) -> (r: EventList)
        ensures
            listed(r) == self.required_events(),
    ;

    fn is_transition_allowed(&self, state: Self) -> (r: bool)
        ensures
            r == self.allows(state),
    ;
}

/// Cursor value of a sequencer that has not been started.
pub const INACTIVE: usize = usize::MAX;

/// Sequencer configuration error.
#[derive(Debug, PartialEq, Eq, Structural, Clone, Copy)]
pub enum TransitionError {
    /// The path already holds as many states as the sequencer's capacity.
    CapacityExceeded,
}

/// A path of at most `N` states and a cursor into it. The cursor is
/// `INACTIVE` until the path is started; the path is finished once the
/// cursor reaches its length. Room for `N` states is taken at construction
/// and the path never grows past it.
pub struct StateTransition<S: MovingState + Copy, const N: usize> {
    current_index: usize,
    transition_path: Vec<S>,
}

impl<S: MovingState + Copy, const N: usize> StateTransition<S, N> {
    pub closed spec fn cursor(&self) -> usize {
        self.current_index
    }

    pub closed spec fn path(&self) -> Seq<S> {
        self.transition_path@
    }

    pub open spec fn is_finished(&self) -> bool {
        self.cursor() >= self.path().len()
    }

    /// The state under the cursor, while not finished.
    pub open spec fn current(&self) -> Option<S> {
        if self.is_finished() {
            None
        } else {
            Some(self.path()[self.cursor() as int])
        }
    }

    /// Whether the cursor may move on: the last state may always be left,
    /// any other one only towards a state that it allows.
    pub open spec fn can_advance(&self) -> bool {
        &&& !self.is_finished()
        &&& (self.cursor() + 1 == self.path().len() || self.path()[self.cursor() as int].allows(
            self.path()[self.cursor() + 1],
        ))
    }

    /// At most `N` states, and an active cursor never passes the path's end.
    pub open spec fn wf(&self) -> bool {
        &&& self.path().len() <= N
        &&& (self.cursor() == INACTIVE || self.cursor() <= self.path().len())
    }

    pub fn new() -> (r: Self)
        ensures
            r.wf(),
            r.cursor() == INACTIVE,
            r.path() == Seq::<S>::empty(),
    {
        StateTransition { current_index: INACTIVE, transition_path: Vec::with_capacity(N) }
    }

    /// Appends `state` to the path, unless it already holds `N` states.
    pub fn add_state(&mut self, state: S) -> (r: Result<(), TransitionError>)
        requires
            old(self).wf(),
        ensures
            final(self).wf(),
            final(self).cursor() == old(self).cursor(),
            r is Ok <==> old(self).path().len() < N,
            r is Ok ==> final(self).path() == old(self).path().push(state),
            r is Err ==> final(self).path() == old(self).path(),
            r is Err ==> r == Err::<(), TransitionError>(TransitionError::CapacityExceeded),
    {
        if self.transition_path.len() < N {
            self.transition_path.push(state);
            Ok(())
        } else {
            Err(TransitionError::CapacityExceeded)
        }
    }

    /// Moves the cursor one step on when the move is legal, and says whether
    /// it did; a refused move leaves the sequencer as it was.
    pub fn next(&mut self) -> (r: bool)
        requires
            old(self).wf(),
        ensures
            final(self).wf(),
            final(self).path() == old(self).path(),
            r == old(self).can_advance(),
            r ==> final(self).cursor() == old(self).cursor() + 1,
            !r ==> final(self).cursor() == old(self).cursor(),
    {
        if self.finished() {
            return false;
        }
        let i = self.current_index;
        if i + 1 == self.transition_path.len() {
            self.current_index = i + 1;
            return true;
        }
        let curr_state: S = self.transition_path[i];
        let next_state: S = self.transition_path[i + 1];
        if curr_state.is_transition_allowed(next_state) {
            self.current_index = i + 1;
            true
        } else {
            false
        }
    }

    pub fn finished(&self) -> (r: bool)
        ensures
            r == self.is_finished(),
    {
        self.current_index >= self.transition_path.len()
    }

    /// Puts the cursor on the first state of the path.
    pub fn start(&mut self)
        requires
            old(self).wf(),
        ensures
            final(self).wf(),
            final(self).cursor() == 0,
            final(self).path() == old(self).path(),
    {
        self.current_index = 0;
    }

    /// Makes the sequencer inactive and clears its path.
    pub fn reset(&mut self)
        requires
            old(self).wf(),
        ensures
            final(self).wf(),
            final(self).cursor() == INACTIVE,
            final(self).path() == Seq::<S>::empty(),
    {
        self.current_index = INACTIVE;
        self.transition_path.clear();
    }

    /// The state under the cursor, or `None` when finished.
    pub fn state(&self) -> (r: Option<S>)
        requires
            self.wf(),
        ensures
            r == self.current(),
    {
        if !self.finished() {
            return Some(self.transition_path[self.current_index]);
        }
        None
    }

    pub fn current_index(&self) -> (r: usize)
        ensures
            r == self.cursor(),
    {
        self.current_index
    }

    pub fn len(&self) -> (r: usize)
        ensures
            r == self.path().len(),
    {
        self.transition_path.len()
    }
}

impl<S: MovingState + Copy, const N: usize> Default for StateTransition<S, N> {
    fn default() -> (r: Self)
        ensures
            r.wf(),
            r.cursor() == INACTIVE,
            r.path() == Seq::<S>::empty(),
    {
        Self::new()
    }
}

/// Every state of `path` allows the one after it.
pub open spec fn legal_chain<S: MovingState>(path: Seq<S>) -> bool {
    forall|i: int| 0 <= i < path.len() - 1 ==> (#[trigger] path[i]).allows(path[i + 1])
}

/// A sequencer that was never started, or was reset, is finished, whatever
/// its path.
pub proof fn lemma_inactive_is_finished<S: MovingState + Copy, const N: usize>(
    t: StateTransition<S, N>,
)
    requires
        t.wf(),
        t.cursor() == INACTIVE,
    ensures
        t.is_finished(),
        t.current() is None,
{
}

/// On a path whose every step is legal, a started sequencer that is not
/// finished can always move on.
pub proof fn lemma_legal_path_advances<S: MovingState + Copy, const N: usize>(
    t: StateTransition<S, N>,
)
    requires
        t.wf(),
        legal_chain(t.path()),
        !t.is_finished(),
    ensures
        t.can_advance(),
{
    if t.cursor() + 1 < t.path().len() {
        assert(t.path()[t.cursor() as int].allows(t.path()[t.cursor() + 1]));
    }
}

} // verus!
