//! Decisions of the movement forces: how the input accelerates the
//! character, and when and how it jumps.

use bevy::math::Dir3;
use vstd::prelude::*;

use crate::ground::{Ground, Grounding, GroundingView};

verus! {

/// How the movement input turns into horizontal velocity this frame.
#[derive(Clone, Copy, Debug)]
pub enum AccelerationMode {
    /// There is no input: the velocity is left as it is.
    Idle,
    /// Debug mode: the velocity becomes the input velocity as it is.
    Direct,
    /// On the ground: the input is laid onto the plane of this ground normal.
    AlongGround(Dir3),
    /// In the air: the input loses its vertical part.
    Horizontal,
}

/// How the input accelerates the character: nothing without input, the raw
/// input in debug mode, otherwise along the supporting ground (when a
/// grounding is tracked and supports the character) or horizontally.
pub open spec fn mode_for(has_input: bool, debug_mode: bool, grounding: Option<GroundingView>) -> AccelerationMode {
    if !has_input {
        AccelerationMode::Idle
    } else if debug_mode {
        AccelerationMode::Direct
    } else {
        match grounding {
            Some(g) => match g.active_ground() {
                Some(ground) => AccelerationMode::AlongGround(ground.normal),
                None => AccelerationMode::Horizontal,
            },
            None => AccelerationMode::Horizontal,
        }
    }
}

/// Choose how the input accelerates the character.
pub fn acceleration_mode(has_input: bool, debug_mode: bool, grounding: Option<Grounding>) -> (m:
    AccelerationMode)
    ensures
        m == mode_for(
            has_input,
            debug_mode,
            match grounding {
                Some(g) => Some(g@),
                None => None,
            },
        ),
{
    if !has_input {
        return AccelerationMode::Idle;
    }
    if debug_mode {
        return AccelerationMode::Direct;
    }
    let ground = match grounding {
        Some(g) => g.ground(),
        None => None,
    };
    match ground {
        Some(ground) => AccelerationMode::AlongGround(ground.normal),
        None => AccelerationMode::Horizontal,
    }
}

/// Gravity acts on a character unless it tracks a grounding and is grounded.
pub open spec fn gravity_acts(grounding: Option<GroundingView>) -> bool {
    !(match grounding {
        Some(g) => g.is_grounded(),
        None => false,
    })
}

/// Whether gravity acts on a character this frame.
pub fn gravity_applies(grounding: Option<Grounding>) -> (b: bool)
    ensures
        b == gravity_acts(
            match grounding {
                Some(g) => Some(g@),
                None => None,
            },
        ),
{
    match grounding {
        Some(g) => !g.is_grounded(),
        None => true,
    }
}

/// What a jump request does.
#[derive(Clone, Copy, Debug)]
pub enum JumpPlan {
    /// No ground has been found: there are no air jumps.
    Refused,
    /// The character jumps; when it was standing on `push_off` it also
    /// pushes away from that surface (so it does not stick to ramps).
    Launch { push_off: Option<Ground> },
}

/// Start a jump: a character that never found ground cannot jump and
/// nothing changes; otherwise it detaches from its ground.
pub fn begin_jump(grounding: &mut Grounding) -> (p: JumpPlan)
    ensures
        old(grounding)@.ground is None ==> (p is Refused && final(grounding)@ == old(grounding)@),
        old(grounding)@.ground is Some ==> (p matches JumpPlan::Launch { push_off }
            && push_off == old(grounding)@.after_detach().1 && final(grounding)@ == old(
            grounding,
        )@.after_detach().0),
{
    if grounding.inner_ground().is_none() {
        return JumpPlan::Refused;
    }
    let push_off = grounding.detach();
    JumpPlan::Launch { push_off }
}

/// Once a jump is launched the character accelerates as an airborne one:
/// the input no longer follows the ground it left.
pub proof fn lemma_jump_makes_airborne(g: GroundingView, has_input: bool)
    requires
        g.ground is Some,
    ensures
        has_input ==> mode_for(has_input, false, Some(g.after_detach().0)) is Horizontal,
        !has_input ==> mode_for(has_input, false, Some(g.after_detach().0)) is Idle,
{
}

/// A jump hands the character back to gravity: whatever grounding it
/// launched from, gravity acts after the launch; and a character standing
/// on ground it has not detached from feels no gravity.
pub proof fn lemma_jump_restores_gravity(g: GroundingView)
    ensures
        gravity_acts(Some(g.after_detach().0)),
        gravity_acts(Some(g)) <==> !g.is_grounded(),
        !gravity_acts(Some(GroundingView::attached_to(g.ground))) <==> g.ground is Some,
{
}

/// After a jump is launched the character is airborne, still remembers the
/// ground it left, and pushes off exactly the ground that supported it.
pub proof fn lemma_launch_leaves_ground(g: GroundingView)
    requires
        g.ground is Some,
    ensures
        !g.after_detach().0.is_grounded(),
        g.after_detach().0.ground == g.ground,
        g.after_detach().1 == g.active_ground(),
{
}

/// How input accelerates, over all inputs: without input nothing happens;
/// with input, debug mode uses it as is; otherwise a character standing on
/// ground it has not detached from follows that ground's plane, and any
/// other character (untracked, airborne or detached) moves horizontally.
pub proof fn lemma_acceleration_modes(has_input: bool, debug_mode: bool, g: Option<GroundingView>)
    ensures
        !has_input ==> mode_for(has_input, debug_mode, g) is Idle,
        has_input && debug_mode ==> mode_for(has_input, debug_mode, g) is Direct,
        has_input && !debug_mode && g is Some && g.unwrap().is_grounded() ==> mode_for(
            has_input,
            debug_mode,
            g,
        ) == AccelerationMode::AlongGround(g.unwrap().ground.unwrap().normal),
        has_input && !debug_mode && !(g is Some && g.unwrap().is_grounded()) ==> mode_for(
            has_input,
            debug_mode,
            g,
        ) is Horizontal,
{
}

/// Gravity acts exactly on characters that are not grounded, including
/// those that track no grounding at all.
pub proof fn lemma_gravity_acts_unless_grounded(g: Option<GroundingView>)
    ensures
        gravity_acts(None),
        gravity_acts(g) <==> !(g is Some && g.unwrap().is_grounded()),
{
}

} // verus!
