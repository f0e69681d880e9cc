//! Grounding: the surface a character stands on, and how that state evolves
//! when the character lands, leaves the ground or jumps off it.

use bevy::ecs::entity::Entity;
use bevy::math::Dir3;
use vstd::prelude::*;

verus! {

/// How the controller treats a surface that is steeper than the slope limit.
#[derive(Clone, Copy, Debug, PartialEq, Eq, Structural)]
pub enum NonWalkableMode {
    /// Prevent climbing, with the ordinary collision response.
    PreventClimbing,
    /// Prevent climbing and force sliding along the slope base.
    PreventClimbingAndForceSliding,
}

impl Default for NonWalkableMode {
    fn default() -> (m: Self)
        ensures
            m == NonWalkableMode::PreventClimbing,
    {
        NonWalkableMode::PreventClimbing
    }
}

/// A surface that a character can stand on.
#[derive(Clone, Copy, Debug, PartialEq)]
pub struct Ground {
    /// The surface normal, pointing outward from the surface.
    pub normal: Dir3,
    /// The entity that owns the surface.
    pub entity: Entity,
}

impl Ground {
    /// A ground made of the given entity and (already normalised) normal.
    pub fn new(entity: Entity, normal: Dir3) -> (g: Self)
        ensures
            g.entity == entity,
            g.normal == normal,
    {
        Ground { normal, entity }
    }
}

/// The abstract state of a [`Grounding`]: the last ground found, and whether
/// the character was told to let go of it (after a jump, say).
pub struct GroundingView {
    pub ground: Option<Ground>,
    pub detached: bool,
}

impl GroundingView {
    /// The state right after the ground was (re)established as `surface`.
    pub open spec fn attached_to(surface: Option<Ground>) -> GroundingView {
        GroundingView { ground: surface, detached: false }
    }

    /// A character is grounded when it has a ground and has not detached from it.
    pub open spec fn is_grounded(self) -> bool {
        !self.detached && self.ground is Some
    }

    /// The ground that currently supports the character, if any.
    pub open spec fn active_ground(self) -> Option<Ground> {
        if self.detached {
            None
        } else {
            self.ground
        }
    }

    /// Detaching: a grounded character lets go of its ground (which is
    /// remembered) and reports it; any other state is left as it is.
    pub open spec fn after_detach(self) -> (GroundingView, Option<Ground>) {
        if self.is_grounded() {
            (GroundingView { ground: self.ground, detached: true }, self.ground)
        } else {
            (self, None)
        }
    }
}

/// The ground state of a character.
#[derive(Clone, Copy, Debug, PartialEq)]
pub struct Grounding {
    pub(crate) inner_ground: Option<Ground>,
    /// If the character should be forced to detach from the ground, e.g., after jumping.
    should_detach: bool,
}

impl View for Grounding {
    type V = GroundingView;

    closed spec fn view(&self) -> GroundingView {
        GroundingView { ground: self.inner_ground, detached: self.should_detach }
    }
}

impl Default for Grounding {
    fn default() -> (g: Self)
        ensures
            g@ == GroundingView::attached_to(None),
    {
        Grounding { inner_ground: None, should_detach: false }
    }
}

impl Grounding {
    /// A grounding standing on `surface` (or on nothing), not detached.
    pub fn new(surface: Option<Ground>) -> (g: Self)
        ensures
            g@ == GroundingView::attached_to(surface),
    {
        Grounding { inner_ground: surface, should_detach: false }
    }

    pub fn is_grounded(&self) -> (b: bool)
        ensures
            b == self@.is_grounded(),
    {
        !self.should_detach && self.inner_ground.is_some()
    }

    /// The supporting ground, or `None` once detached.
    pub fn ground(&self) -> (g: Option<Ground>)
        ensures
            g == self@.active_ground(),
    {
        if self.should_detach {
            return None;
        }
        self.inner_ground
    }

    /// Detach from the ground without forgetting it; returns the ground that
    /// was let go of, or `None` (and changes nothing) when not grounded.
    pub fn detach(&mut self) -> (g: Option<Ground>)
        ensures
            (final(self)@, g) == old(self)@.after_detach(),
    {
        if !self.is_grounded() {
            return None;
        }
        self.should_detach = true;
        self.inner_ground
    }

    /// The normal of the supporting ground.
    pub fn normal(&self) -> (n: Option<Dir3>)
        ensures
            n == (match self@.active_ground() {
                Some(g) => Some(g.normal),
                None => None,
            }),
    {
        match self.ground() {
            Some(g) => Some(g.normal),
            None => None,
        }
    }

    /// The entity of the supporting ground.
    pub fn entity(&self) -> (e: Option<Entity>)
        ensures
            e == (match self@.active_ground() {
                Some(g) => Some(g.entity),
                None => None,
            }),
    {
        match self.ground() {
            Some(g) => Some(g.entity),
            None => None,
        }
    }

    /// The last ground found, whether or not the character detached from it.
    pub fn inner_ground(&self) -> (g: Option<Ground>)
        ensures
            g == self@.ground,
    {
        self.inner_ground
    }
}

impl From<Option<Ground>> for Grounding {
    fn from(value: Option<Ground>) -> (g: Self)
        ensures
            g@ == GroundingView::attached_to(value),
    {
        Grounding { inner_ground: value, should_detach: false }
    }
}

impl From<Ground> for Grounding {
    fn from(value: Ground) -> (g: Self)
        ensures
            g@ == GroundingView::attached_to(Some(value)),
    {
        Grounding { inner_ground: Some(value), should_detach: false }
    }
}

impl vstd::std_specs::convert::FromSpecImpl<Option<Ground>> for Grounding {
    open spec fn obeys_from_spec() -> bool {
        true
    }

    closed spec fn from_spec(v: Option<Ground>) -> Self {
        Grounding { inner_ground: v, should_detach: false }
    }
}

impl vstd::std_specs::convert::FromSpecImpl<Ground> for Grounding {
    open spec fn obeys_from_spec() -> bool {
        true
    }

    closed spec fn from_spec(v: Ground) -> Self {
        Grounding { inner_ground: Some(v), should_detach: false }
    }
}

/// What happened to the ground between two frames.
#[derive(Clone, Copy, Debug)]
pub enum GroundTransition {
    /// The character had no ground and now stands on this one.
    Entered(Ground),
    /// The character stood on this ground and now has none.
    Left(Ground),
    /// Neither of the above (still airborne, or still on some ground).
    Unchanged,
}

/// Compare the ground before and after a move: landing and leaving are
/// reported with the ground concerned; anything else is no transition.
pub fn ground_transition(before: Option<Ground>, after: Option<Ground>) -> (t: GroundTransition)
    ensures
        match (before, after) {
            (Some(b), None) => t == GroundTransition::Left(b),
            (None, Some(a)) => t == GroundTransition::Entered(a),
            _ => t == GroundTransition::Unchanged,
        },
{
    match (before, after) {
        (Some(b), None) => GroundTransition::Left(b),
        (None, Some(a)) => GroundTransition::Entered(a),
        _ => GroundTransition::Unchanged,
    }
}

/// A character is grounded exactly when it has a supporting ground.
pub proof fn lemma_grounded_iff_supported(g: GroundingView)
    ensures
        g.is_grounded() <==> g.active_ground() is Some,
{
}

/// A freshly (re)established grounding is supported by exactly the surface
/// it was given.
pub proof fn lemma_attached_supported_by_surface(surface: Option<Ground>)
    ensures
        GroundingView::attached_to(surface).active_ground() == surface,
        GroundingView::attached_to(surface).is_grounded() <==> surface is Some,
{
}

/// Detaching leaves the character ungrounded, keeps the remembered ground,
/// and reports the ground that supported it before.
pub proof fn lemma_detach_releases(g: GroundingView)
    ensures
        !g.after_detach().0.is_grounded(),
        g.after_detach().0.active_ground() is None,
        g.after_detach().0.ground == g.ground,
        g.after_detach().1 == g.active_ground(),
{
}

/// Detaching twice is detaching once: the second call reports nothing and
/// changes nothing.
pub proof fn lemma_detach_idempotent(g: GroundingView)
    ensures
        g.after_detach().0.after_detach() == (g.after_detach().0, None::<Ground>),
{
}

/// Detaching a character that is not grounded changes nothing and reports
/// nothing; detaching a grounded one reports exactly its ground.
pub proof fn lemma_detach_only_when_grounded(g: GroundingView)
    ensures
        !g.is_grounded() ==> g.after_detach() == (g, None::<Ground>),
        g.is_grounded() ==> g.after_detach().1 == g.ground && g.after_detach().1 is Some,
        g.after_detach().0.ground == g.ground,
{
}

} // verus!
