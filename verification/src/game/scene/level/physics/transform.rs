//! The state of a transformation between two positions over a period of time
use vstd::prelude::*;

verus! {

/// Describe the state of a transformation
#[derive(Debug, Clone, Copy, PartialEq, Eq, Structural)]
pub enum TransformationState {
    Progressing,
    Complete,
}

/// The state of a transformation that is still running, or not
pub open spec fn state_of(running: bool) -> TransformationState {
    if running {
        TransformationState::Progressing
    } else {
        TransformationState::Complete
    }
}

/// Convert whether the transformation is still running into its state
impl From<bool> for TransformationState {
    fn from(running: bool) -> (state: Self) {
        if running {
            TransformationState::Progressing
        } else {
            TransformationState::Complete
        }
    }
}

impl vstd::std_specs::convert::FromSpecImpl<bool> for TransformationState {
    open spec fn obeys_from_spec() -> bool {
        true
    }

    open spec fn from_spec(running: bool) -> Self {
        state_of(running)
    }
}

} // verus!
