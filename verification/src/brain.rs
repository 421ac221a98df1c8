//! The robot brain, the project's composition root. The sandbox rover has no
//! mission policy yet: the brain keeps no state, produces no outputs, and
//! selects neither a manual nor an autonomous intent.

use vstd::prelude::*;

use crate::payload::MotionIntent;

verus! {

/// The robot brain.
#[derive(Clone, Copy, Debug, Default)]
pub struct Brain;

impl Brain {
    /// The initial state.
    pub fn init(&self) -> (state: ())
        ensures
            state == (),
    {
    }

    /// One step: the state passes through unchanged and there are no outputs.
    pub fn step(&self, state: ()) -> (r: ((), ()))
        ensures
            r == (state, ()),
    {
        (state, ())
    }

    /// The manual intent published on Motion/Manual: none is selected.
    pub fn manual(&self, state: &()) -> (intent: Option<MotionIntent>)
        ensures
            intent is None,
    {
        None
    }

    /// The autonomous intent published on Motion/Autonomous: none is selected.
    pub fn autonomous(&self, state: &()) -> (intent: Option<MotionIntent>)
        ensures
            intent is None,
    {
        None
    }
}

} // verus!
