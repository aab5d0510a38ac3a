//! The abstraction that every machine of this crate satisfies.

use vstd::prelude::*;

verus! {

/// A state machine: from a state and a transition it computes the next state.
///
/// The step is a function and it is total. `successor` names the abstract
/// state that follows; `next_state` must return a state with that view and,
/// having no precondition here, may ask for none in any implementation.
pub trait StateMachine {
    /// The states that can be occupied by this machine.
    type State: View;

    /// The transitions that can be made between states.
    type Transition;

    /// The abstract state that results when this state undergoes `transition`.
    spec fn successor(&self, transition: &Self::Transition) -> <Self::State as View>::V;

    /// Calculates the resulting state when this state undergoes `transition`.
    fn next_state(&self, transition: &Self::Transition) -> (next: Self::State)
        ensures
            next@ == self.successor(transition),
    ;
}

} // verus!
