//! When a character is allowed to step up onto obstacles.

use vstd::prelude::*;

verus! {

/// Determines when the character should attempt to step up.
#[derive(Clone, Copy, Debug, PartialEq, Eq, Structural)]
pub enum SteppingBehaviour {
    Never,
    Grounded,
    Always,
}

impl Default for SteppingBehaviour {
    fn default() -> (b: Self)
        ensures
            b == SteppingBehaviour::Grounded,
    {
        SteppingBehaviour::Grounded
    }
}

impl SteppingBehaviour {
    /// Whether this behaviour lets a character that is (or is not) grounded step up.
    pub open spec fn permits(self, is_grounded: bool) -> bool {
        match self {
            SteppingBehaviour::Never => false,
            SteppingBehaviour::Grounded => is_grounded,
            SteppingBehaviour::Always => true,
        }
    }
}

/// Whether a move carries the automatic step offset: stepping must be
/// configured and permitted, the move must have a horizontal part, and it
/// must not go upward.
pub open spec fn auto_step(
    behaviour: Option<SteppingBehaviour>,
    is_grounded: bool,
    has_horizontal_motion: bool,
    is_moving_up: bool,
) -> bool {
    &&& match behaviour {
        Some(s) => s.permits(is_grounded),
        None => false,
    }
    &&& has_horizontal_motion
    &&& !is_moving_up
}

/// Decide whether a move should carry the automatic step offset.
pub fn should_auto_step(
    behaviour: Option<SteppingBehaviour>,
    is_grounded: bool,
    has_horizontal_motion: bool,
    is_moving_up: bool,
) -> (b: bool)
    ensures
        b == auto_step(behaviour, is_grounded, has_horizontal_motion, is_moving_up),
{
    let allowed = match behaviour {
        Some(SteppingBehaviour::Never) => false,
        Some(SteppingBehaviour::Always) => true,
        Some(SteppingBehaviour::Grounded) => is_grounded,
        None => false,
    };
    allowed && has_horizontal_motion && !is_moving_up
}

/// A jump cancels stepping, and so does a move without a horizontal part.
pub proof fn lemma_jump_cancels_step(
    behaviour: Option<SteppingBehaviour>,
    is_grounded: bool,
    has_horizontal_motion: bool,
)
    ensures
        !auto_step(behaviour, is_grounded, has_horizontal_motion, true),
        !auto_step(behaviour, is_grounded, false, false),
{
}

/// A grounded, horizontal, non-rising move steps exactly when stepping is
/// configured and not `Never`; an airborne one only with `Always`.
pub proof fn lemma_step_permission(behaviour: Option<SteppingBehaviour>)
    ensures
        auto_step(behaviour, true, true, false) <==> (behaviour is Some && behaviour
            != Some(SteppingBehaviour::Never)),
        auto_step(behaviour, false, true, false) <==> behaviour == Some(SteppingBehaviour::Always),
{
}

} // verus!
