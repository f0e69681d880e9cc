//! Collision flags, and the control of one sweep pass.
//!
//! A sweep pass moves the character towards a target in a few iterations.
//! Each iteration the geometry reports one [`SweepObservation`]; the pass
//! state decides what to do with it ([`SweepAction`]) and what the
//! character learned about the surfaces it touched ([`ContactState`]).

use bevy::ecs::entity::Entity;
use bevy::math::{Dir3, Vec3};
use vstd::prelude::*;

use crate::ground::{Ground, NonWalkableMode};

verus! {

/// Which sides of the character were hit during a move.
#[derive(Clone, Copy, Debug, PartialEq, Eq, Structural)]
pub struct CharacterCollisionFlags {
    pub up: bool,
    pub sides: bool,
    pub down: bool,
}

impl CharacterCollisionFlags {
    /// No collision at all.
    pub fn new() -> (f: Self)
        ensures
            !f.up,
            !f.sides,
            !f.down,
    {
        CharacterCollisionFlags { up: false, sides: false, down: false }
    }

    pub open spec fn spec_any(self) -> bool {
        self.up || self.sides || self.down
    }

    /// Whether anything was hit.
    pub fn any(&self) -> (b: bool)
        ensures
            b == self.spec_any(),
    {
        self.up || self.sides || self.down
    }
}

/// Result of a character movement.
#[derive(Clone, Copy, Debug)]
pub struct CharacterMoveResult {
    /// The final position after movement.
    pub final_position: Vec3,
    /// Which surfaces were hit.
    pub collision_flags: CharacterCollisionFlags,
    /// The ground surface the character is standing on (if any).
    pub ground: Option<Ground>,
    /// Whether the character hit a non-walkable surface during movement.
    pub hit_non_walkable: bool,
    /// The displacement that actually occurred.
    pub actual_displacement: Vec3,
}

/// The three movement passes.
#[derive(Clone, Copy, Debug, PartialEq, Eq, Structural)]
pub enum SweepPass {
    Up,
    Side,
    Down,
}

impl SweepPass {
    /// The pass's name, for diagnostics.
    pub fn name(&self) -> (s: &'static str)
        ensures
            *self == SweepPass::Up ==> s@ == "UP"@,
            *self == SweepPass::Side ==> s@ == "SIDE"@,
            *self == SweepPass::Down ==> s@ == "DOWN"@,
    {
        match self {
            SweepPass::Up => "UP",
            SweepPass::Side => "SIDE",
            SweepPass::Down => "DOWN",
        }
    }
}

/// What the passes of one movement attempt learned about touched surfaces.
#[derive(Clone, Copy, Debug)]
pub struct ContactState {
    /// The ground the character stands on, if any.
    pub ground: Option<Ground>,
    /// The down pass touched a surface (its normal and height were recorded).
    pub validate_triangle_down: bool,
    /// The side pass touched a surface (its normal and height were recorded).
    pub validate_triangle_side: bool,
}

impl ContactState {
    /// The contacts at the start of an attempt: the current ground, nothing touched.
    pub fn new(ground: Option<Ground>) -> (c: Self)
        ensures
            c.ground == ground,
            !c.validate_triangle_down,
            !c.validate_triangle_side,
    {
        ContactState { ground, validate_triangle_down: false, validate_triangle_side: false }
    }
}

/// What the geometry reported for one iteration of a sweep pass.
#[derive(Clone, Copy, Debug)]
pub enum SweepObservation {
    /// There is (almost) no displacement left.
    NoMotion,
    /// The distance left is no larger than the pass's minimum distance.
    BelowMinDistance,
    /// The displacement left points against the pass's original direction.
    Reversed,
    /// Sweeping over the distance left hit nothing.
    Clear,
    /// Sweeping hit a surface; `walkable` says whether it is flat enough to stand on.
    Hit { entity: Entity, normal: Dir3, walkable: bool },
}

/// What the caller must do with the geometry after one iteration.
#[derive(Clone, Copy, Debug, PartialEq, Eq, Structural)]
pub enum SweepAction {
    /// Leave the character where it is; the pass is over.
    Stop,
    /// Move the character all the way to its target; the pass is over.
    MoveToTarget,
    /// Move the character up to the hit, respond to the collision by
    /// redirecting the target along the surface, and go on.
    /// `flatten_normal`: use the hit normal with its vertical part removed
    /// (so that the response cannot push the character up the surface).
    /// `record_contact`: remember the contact normal and height for slope validation.
    Slide { flatten_normal: bool, record_contact: bool },
}

/// The abstract state of a sweep pass.
pub struct SweepPassView {
    pub pass: SweepPass,
    pub max_iterations: nat,
    pub iteration: nat,
    pub walk_experiment: bool,
    pub slide_mode: NonWalkableMode,
    pub grounding: bool,
    pub had_collision: bool,
    pub finished: bool,
}

/// The contacts after a hit in `pass`: with a grounding configuration, the
/// down pass marks its contact and takes a walkable surface as the new
/// ground, and the side pass marks its contact; nothing else changes.
pub open spec fn contacts_after_hit(
    c: ContactState,
    pass: SweepPass,
    grounding: bool,
    hit_ground: Ground,
    walkable: bool,
) -> ContactState {
    if grounding && pass == SweepPass::Down {
        ContactState {
            ground: if walkable { Some(hit_ground) } else { c.ground },
            validate_triangle_down: true,
            validate_triangle_side: c.validate_triangle_side,
        }
    } else if grounding && pass == SweepPass::Side {
        ContactState { validate_triangle_side: true, ..c }
    } else {
        c
    }
}

impl SweepPassView {
    /// The iteration count never passes the budget, and a spent budget ends the pass.
    pub open spec fn wf(self) -> bool {
        &&& self.iteration <= self.max_iterations
        &&& self.iteration == self.max_iterations ==> self.finished
    }

    /// Whether hits are answered with flattened normals: in a walk
    /// experiment, always in the side pass (which must not move vertically),
    /// and in every pass unless the mode forces sliding.
    pub open spec fn flattens(self) -> bool {
        self.walk_experiment && (self.pass == SweepPass::Side || self.slide_mode
            == NonWalkableMode::PreventClimbing)
    }

    /// The same state, over.
    pub open spec fn ended(self) -> SweepPassView {
        SweepPassView { finished: true, ..self }
    }

    /// One step of the pass: the new pass state, the new contacts, and the action.
    pub open spec fn after(self, c: ContactState, obs: SweepObservation) -> (
        SweepPassView,
        ContactState,
        SweepAction,
    ) {
        if self.finished {
            (self, c, SweepAction::Stop)
        } else {
            match obs {
                SweepObservation::Clear => (
                    self.ended(),
                    if self.pass == SweepPass::Down {
                        ContactState { ground: None, ..c }
                    } else {
                        c
                    },
                    SweepAction::MoveToTarget,
                ),
                SweepObservation::Hit { entity, normal, walkable } => (
                    SweepPassView {
                        iteration: self.iteration + 1,
                        had_collision: true,
                        finished: self.iteration + 1 == self.max_iterations,
                        ..self
                    },
                    contacts_after_hit(
                        c,
                        self.pass,
                        self.grounding,
                        Ground { normal, entity },
                        walkable,
                    ),
                    SweepAction::Slide {
                        flatten_normal: self.flattens(),
                        record_contact: self.grounding && self.pass != SweepPass::Up,
                    },
                ),
                _ => (self.ended(), c, SweepAction::Stop),
            }
        }
    }

    /// How many more steps the pass can take at most.
    pub open spec fn steps_left(self) -> nat {
        if self.finished {
            0
        } else {
            (self.max_iterations - self.iteration + 1) as nat
        }
    }
}

/// One sweep pass in progress.
pub struct SweepPassState {
    pass: SweepPass,
    max_iterations: u8,
    iteration: u8,
    walk_experiment: bool,
    slide_mode: NonWalkableMode,
    grounding: bool,
    had_collision: bool,
    finished: bool,
}

impl View for SweepPassState {
    type V = SweepPassView;

    closed spec fn view(&self) -> SweepPassView {
        SweepPassView {
            pass: self.pass,
            max_iterations: self.max_iterations as nat,
            iteration: self.iteration as nat,
            walk_experiment: self.walk_experiment,
            slide_mode: self.slide_mode,
            grounding: self.grounding,
            had_collision: self.had_collision,
            finished: self.finished,
        }
    }
}

impl SweepPassState {
    /// A pass of the given kind with an iteration budget, in a walk
    /// experiment or not (with the move's slide mode), for a character with
    /// or without a grounding configuration. A zero budget makes a pass that
    /// is over at once.
    pub fn start(
        pass: SweepPass,
        max_iterations: u8,
        walk_experiment: bool,
        slide_mode: NonWalkableMode,
        grounding: bool,
    ) -> (s: Self)
        ensures
            s@ == (SweepPassView {
                pass,
                max_iterations: max_iterations as nat,
                iteration: 0,
                walk_experiment,
                slide_mode,
                grounding,
                had_collision: false,
                finished: max_iterations == 0,
            }),
            s@.wf(),
    {
        SweepPassState {
            pass,
            max_iterations,
            iteration: 0,
            walk_experiment,
            slide_mode,
            grounding,
            had_collision: false,
            finished: max_iterations == 0,
        }
    }

    /// React to what the geometry reported for the current iteration.
    pub fn step(&mut self, contacts: &mut ContactState, observation: SweepObservation) -> (action:
        SweepAction)
        requires
            old(self)@.wf(),
        ensures
            (final(self)@, *final(contacts), action) == old(self)@.after(*old(contacts), observation),
            final(self)@.wf(),
    {
        if self.finished {
            return SweepAction::Stop;
        }
        match observation {
            SweepObservation::Clear => {
                self.finished = true;
                if self.pass == SweepPass::Down {
                    // Falling: nothing below within reach.
                    contacts.ground = None;
                }
                SweepAction::MoveToTarget
            },
            SweepObservation::Hit { entity, normal, walkable } => {
                self.had_collision = true;
                self.iteration = self.iteration + 1;
                self.finished = self.iteration == self.max_iterations;
                if self.grounding {
                    match self.pass {
                        SweepPass::Down => {
                            contacts.validate_triangle_down = true;
                            if walkable {
                                contacts.ground = Some(Ground::new(entity, normal));
                            }
                        },
                        SweepPass::Side => {
                            contacts.validate_triangle_side = true;
                        },
                        SweepPass::Up => {},
                    }
                }
                SweepAction::Slide {
                    flatten_normal: self.walk_experiment && (self.pass == SweepPass::Side
                        || self.slide_mode == NonWalkableMode::PreventClimbing),
                    record_contact: self.grounding && self.pass != SweepPass::Up,
                }
            },
            _ => {
                self.finished = true;
                SweepAction::Stop
            },
        }
    }

    /// Whether the pass is over.
    pub fn is_finished(&self) -> (b: bool)
        ensures
            b == self@.finished,
    {
        self.finished
    }

    /// Whether any iteration of the pass hit something.
    pub fn had_collision(&self) -> (b: bool)
        ensures
            b == self@.had_collision,
    {
        self.had_collision
    }
}

/// Every step keeps the pass well formed.
pub proof fn lemma_step_keeps_wf(s: SweepPassView, c: ContactState, obs: SweepObservation)
    requires
        s.wf(),
    ensures
        s.after(c, obs).0.wf(),
{
}

/// A pass always ends: every step of a running pass takes one from the
/// number of steps it has left, so a pass with budget `n` takes at most
/// `n + 1` steps.
pub proof fn lemma_step_progress(s: SweepPassView, c: ContactState, obs: SweepObservation)
    requires
        s.wf(),
        !s.finished,
    ensures
        s.after(c, obs).0.steps_left() < s.steps_left(),
{
}

/// An ended pass stays ended and ignores whatever it is told.
pub proof fn lemma_finished_is_final(s: SweepPassView, c: ContactState, obs: SweepObservation)
    requires
        s.finished,
    ensures
        s.after(c, obs) == (s, c, SweepAction::Stop),
{
}

/// A pass reports a collision exactly when some iteration hit a surface.
pub proof fn lemma_collision_iff_hit(s: SweepPassView, c: ContactState, obs: SweepObservation)
    requires
        !s.finished,
    ensures
        s.after(c, obs).0.had_collision <==> (s.had_collision || obs is Hit),
{
}

/// The kind, budget and mode of a pass never change.
pub proof fn lemma_step_keeps_setup(s: SweepPassView, c: ContactState, obs: SweepObservation)
    ensures
        s.after(c, obs).0.pass == s.pass,
        s.after(c, obs).0.max_iterations == s.max_iterations,
        s.after(c, obs).0.walk_experiment == s.walk_experiment,
        s.after(c, obs).0.slide_mode == s.slide_mode,
        s.after(c, obs).0.grounding == s.grounding,
{
}

/// Normals are flattened only in a walk experiment: always in its side
/// pass, and in its other passes exactly when the mode does not force sliding.
pub proof fn lemma_flattening_only_in_walk_experiment(
    s: SweepPassView,
    c: ContactState,
    entity: Entity,
    normal: Dir3,
    walkable: bool,
)
    requires
        !s.finished,
    ensures
        s.after(c, SweepObservation::Hit { entity, normal, walkable }).2 matches SweepAction::Slide {
            flatten_normal,
            ..
        } && flatten_normal == s.flattens(),
        !s.walk_experiment ==> !s.flattens(),
        s.walk_experiment && s.pass == SweepPass::Side ==> s.flattens(),
        s.walk_experiment && s.pass == SweepPass::Down ==> (s.flattens() <==> s.slide_mode
            == NonWalkableMode::PreventClimbing),
{
}

/// Only the down pass can change the ground, and the up pass touches no
/// contact at all.
pub proof fn lemma_ground_only_from_down_pass(
    s: SweepPassView,
    c: ContactState,
    obs: SweepObservation,
)
    ensures
        s.pass != SweepPass::Down ==> s.after(c, obs).1.ground == c.ground,
        s.pass == SweepPass::Up ==> s.after(c, obs).1 == c,
{
}

/// A running down pass that finds nothing below takes the ground away
/// (the character is falling); one that lands on a walkable surface with a
/// grounding configuration stands on exactly that surface.
pub proof fn lemma_down_pass_sets_ground(
    s: SweepPassView,
    c: ContactState,
    entity: Entity,
    normal: Dir3,
)
    requires
        !s.finished,
        s.pass == SweepPass::Down,
    ensures
        s.after(c, SweepObservation::Clear).1.ground is None,
        s.grounding ==> s.after(
            c,
            SweepObservation::Hit { entity, normal, walkable: true },
        ).1.ground == Some(Ground { normal, entity }),
        s.after(c, SweepObservation::Hit { entity, normal, walkable: false }).1.ground == c.ground,
{
}

/// A running pass of any kind whose sweep hits nothing moves the character
/// all the way to its target and ends; one that is told there is nothing
/// (left) to do, too little distance, or a reversed direction stops where
/// it is, ends, and learns nothing. Neither counts as a collision.
pub proof fn lemma_clear_moves_to_target(s: SweepPassView, c: ContactState, obs: SweepObservation)
    requires
        !s.finished,
    ensures
        obs is Clear ==> s.after(c, obs).2 == SweepAction::MoveToTarget,
        (obs is NoMotion || obs is BelowMinDistance || obs is Reversed) ==> s.after(c, obs).2
            == SweepAction::Stop && s.after(c, obs).1 == c,
        !(obs is Hit) ==> s.after(c, obs).0.finished,
        !(obs is Hit) ==> s.after(c, obs).0.had_collision == s.had_collision,
        !(obs is Hit) ==> s.after(c, obs).0.iteration == s.iteration,
        obs is Clear && s.pass != SweepPass::Down ==> s.after(c, obs).1 == c,
        obs is Clear ==> s.after(c, obs).1.validate_triangle_down == c.validate_triangle_down
            && s.after(c, obs).1.validate_triangle_side == c.validate_triangle_side,
{
}

/// A hit in a running pass always slides: the character goes up to the
/// hit and is redirected; the contact is recorded exactly when the
/// character has a grounding configuration and the pass is not the up
/// pass; the hit uses one iteration, and the pass ends exactly when that
/// was its last one.
pub proof fn lemma_hit_slides(
    s: SweepPassView,
    c: ContactState,
    entity: Entity,
    normal: Dir3,
    walkable: bool,
)
    requires
        !s.finished,
        s.wf(),
    ensures
        ({
            let (n, c2, a) = s.after(c, SweepObservation::Hit { entity, normal, walkable });
            &&& a matches SweepAction::Slide { record_contact, .. } && record_contact == (
            s.grounding && s.pass != SweepPass::Up)
            &&& n.iteration == s.iteration + 1
            &&& n.had_collision
            &&& n.finished <==> s.iteration + 1 == s.max_iterations
        }),
{
}

/// What a hit teaches about the contacts: with a grounding configuration
/// the down pass marks its contact (and only a walkable surface becomes the
/// ground), the side pass marks its contact and keeps the ground; without a
/// grounding configuration nothing is learned.
pub proof fn lemma_hit_contacts(
    s: SweepPassView,
    c: ContactState,
    entity: Entity,
    normal: Dir3,
    walkable: bool,
)
    requires
        !s.finished,
    ensures
        ({
            let c2 = s.after(c, SweepObservation::Hit { entity, normal, walkable }).1;
            &&& !s.grounding ==> c2 == c
            &&& s.grounding && s.pass == SweepPass::Down ==> c2.validate_triangle_down
                && c2.validate_triangle_side == c.validate_triangle_side && (walkable ==> c2.ground
                == Some(Ground { normal, entity })) && (!walkable ==> c2.ground == c.ground)
            &&& s.grounding && s.pass == SweepPass::Side ==> c2.validate_triangle_side
                && c2.validate_triangle_down == c.validate_triangle_down && c2.ground == c.ground
        }),
{
}

} // verus!
