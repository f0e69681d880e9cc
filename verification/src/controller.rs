//! The decisions of one character move: which passes an attempt runs and
//! with which budgets, how the collision flags and the non-walkable verdict
//! of an attempt are assembled, when the "walk experiment" retry runs and
//! with which displacement, what the move reports, and how the velocity is
//! corrected afterwards.

use bevy::math::Vec3;
use vstd::prelude::*;

use crate::collision::{CharacterCollisionFlags, CharacterMoveResult, ContactState, SweepPass};
use crate::ground::{Ground, NonWalkableMode};

verus! {

/// What an attempt knows before it starts, as measured by the caller.
#[derive(Clone, Copy, Debug)]
pub struct AttemptSetup {
    /// The requested move (the original one, also in a retry) has a horizontal part.
    pub has_horizontal_motion: bool,
    /// The displacement of this attempt points upward.
    pub is_moving_up: bool,
    /// This attempt is the retry after a non-walkable surface.
    pub walk_experiment: bool,
    /// The automatic step offset of the move is positive.
    pub has_step_offset: bool,
    /// The character started the move on the ground.
    pub is_grounded: bool,
    /// The horizontal part of this attempt's displacement is shorter than a millimetre.
    pub side_nearly_zero: bool,
    /// The iteration budget of the configuration.
    pub max_iterations: u8,
    /// How non-walkable surfaces are treated.
    pub slide_mode: NonWalkableMode,
}

/// Which passes an attempt runs, what they carry, and their iteration budgets.
#[derive(Clone, Copy, Debug, PartialEq, Eq, Structural)]
pub struct PassPlan {
    /// The step offset is added on the way up and taken off again on the way down.
    pub step_offset_applied: bool,
    /// The attempt starts with upward motion, so the initial ground is forgotten.
    pub clear_initial_ground: bool,
    /// The up pass runs.
    pub up_pass: bool,
    /// The up pass carries the vertical part of the displacement.
    pub up_includes_vertical: bool,
    /// The side pass runs, over the horizontal part of the displacement.
    pub side_pass: bool,
    /// The side pass must not produce vertical motion.
    pub prevent_vertical_motion: bool,
    /// The down pass (which always runs) carries the vertical part of the displacement.
    pub down_includes_vertical: bool,
    pub max_iterations_up: u8,
    pub max_iterations_side: u8,
    pub max_iterations_down: u8,
}

impl PassPlan {
    /// The plan of an attempt.
    ///
    /// The step offset applies to a grounded move with a horizontal part and a
    /// positive offset. There is upward motion when the attempt goes up (and is
    /// not a retry) or carries the step offset; it clears the initial ground,
    /// and it is swept by the up pass except in a retry, which never climbs.
    /// The up pass gets the whole budget only when the horizontal part is
    /// negligible, one iteration otherwise; the side pass always gets the
    /// budget; the down pass gets one iteration, or ten in a retry that
    /// forces sliding.
    pub open spec fn for_setup(s: AttemptSetup) -> PassPlan {
        let step = s.has_horizontal_motion && s.has_step_offset && s.is_grounded;
        let rising = s.is_moving_up && !s.walk_experiment;
        PassPlan {
            step_offset_applied: step,
            clear_initial_ground: rising || step,
            up_pass: !s.walk_experiment && (rising || step),
            up_includes_vertical: rising,
            side_pass: s.has_horizontal_motion,
            prevent_vertical_motion: s.walk_experiment,
            down_includes_vertical: !s.is_moving_up,
            max_iterations_up: if s.has_horizontal_motion && s.side_nearly_zero {
                s.max_iterations
            } else {
                1
            },
            max_iterations_side: s.max_iterations,
            max_iterations_down: if s.walk_experiment && s.slide_mode
                == NonWalkableMode::PreventClimbingAndForceSliding {
                10
            } else {
                1
            },
        }
    }
}

/// Plan the passes of one movement attempt.
pub fn plan_attempt(setup: &AttemptSetup) -> (p: PassPlan)
    ensures
        p == PassPlan::for_setup(*setup),
{
    let step_offset_applied = setup.has_horizontal_motion && setup.has_step_offset
        && setup.is_grounded;
    let rising = setup.is_moving_up && !setup.walk_experiment;
    let has_up_vector = rising || step_offset_applied;
    let max_iterations_up = if setup.has_horizontal_motion && setup.side_nearly_zero {
        setup.max_iterations
    } else {
        1
    };
    let max_iterations_down = if setup.walk_experiment && setup.slide_mode
        == NonWalkableMode::PreventClimbingAndForceSliding {
        10
    } else {
        1
    };
    PassPlan {
        step_offset_applied,
        clear_initial_ground: has_up_vector,
        up_pass: has_up_vector && !setup.walk_experiment,
        up_includes_vertical: rising,
        side_pass: setup.has_horizontal_motion,
        prevent_vertical_motion: setup.walk_experiment,
        down_includes_vertical: !setup.is_moving_up,
        max_iterations_up,
        max_iterations_side: setup.max_iterations,
        max_iterations_down,
    }
}

/// The slope measurements of an attempt's contacts, as measured by the caller
/// against the feet height at the start of the move and the step limit.
#[derive(Clone, Copy, Debug, PartialEq, Eq, Structural)]
pub struct ContactMeasures {
    /// The side contact lies higher above the feet than a step.
    pub side_too_high: bool,
    /// The side contact is steeper than the slope limit.
    pub steep_side_contact: bool,
    /// The down contact lies higher above the feet than a step.
    pub down_too_high: bool,
    /// The down contact is steeper than the slope limit.
    pub steep_down_contact: bool,
}

/// What the passes of an attempt reported, as measured by the caller.
#[derive(Clone, Copy, Debug)]
pub struct PassReport {
    /// The up pass hit something (only read when it ran).
    pub up_hit: bool,
    /// The side pass hit something (only read when it ran).
    pub side_hit: bool,
    /// The down pass hit something.
    pub down_hit: bool,
    /// The attempt's displacement does not point upward.
    pub not_rising: bool,
    /// The slope measurements of the side and down contacts.
    pub measures: ContactMeasures,
}

/// The result of one movement attempt.
#[derive(Clone, Copy, Debug)]
pub struct AttemptOutcome {
    pub collision_flags: CharacterCollisionFlags,
    pub ground: Option<Ground>,
    /// The attempt tried to end on a surface it may not climb.
    pub hit_non_walkable: bool,
}

impl AttemptOutcome {
    /// The outcome of an attempt: each flag is set by its pass when that pass
    /// ran and hit something, the down flag only for a move that does not go
    /// up. A move that hit downward is judged non-walkable when its side pass
    /// hit a contact steeper than the slope limit and higher than a step, or
    /// when its down pass touched (and recorded) a contact steeper than the
    /// slope limit and higher than a step.
    pub open spec fn of(plan: PassPlan, r: PassReport, contacts: ContactState) -> AttemptOutcome {
        let flags = CharacterCollisionFlags {
            up: plan.up_pass && r.up_hit,
            sides: plan.side_pass && r.side_hit,
            down: r.down_hit && r.not_rising,
        };
        let m = r.measures;
        AttemptOutcome {
            collision_flags: flags,
            ground: contacts.ground,
            hit_non_walkable: flags.down && ((flags.sides && m.side_too_high
                && m.steep_side_contact) || (contacts.validate_triangle_down && m.down_too_high
                && m.steep_down_contact)),
        }
    }
}

/// Assemble the outcome of an attempt from its plan, its pass reports and its contacts.
pub fn attempt_outcome(plan: &PassPlan, report: &PassReport, contacts: &ContactState) -> (o:
    AttemptOutcome)
    ensures
        o == AttemptOutcome::of(*plan, *report, *contacts),
{
    let mut flags = CharacterCollisionFlags::new();
    if plan.up_pass {
        flags.up = report.up_hit;
    }
    if plan.side_pass {
        flags.sides = report.side_hit;
    }
    let m = report.measures;
    let mut hit_non_walkable = false;
    if report.down_hit && report.not_rising {
        flags.down = true;
        // Slope validation of the side contact: climbing a steep wall.
        if flags.sides && m.side_too_high && m.steep_side_contact {
            hit_non_walkable = true;
        }
        // Slope validation of the down contact: ending on steep ground.
        if contacts.validate_triangle_down && m.down_too_high && m.steep_down_contact {
            hit_non_walkable = true;
        }
    }
    AttemptOutcome { collision_flags: flags, ground: contacts.ground, hit_non_walkable }
}

/// The passes of an attempt, in the order they can run.
#[derive(Clone, Copy, Debug, PartialEq, Eq, Structural)]
pub enum AttemptPhase {
    Up,
    Side,
    Down,
    Done,
}

impl AttemptPhase {
    /// The position of the phase in the order up, side, down, done.
    pub open spec fn rank(self) -> nat {
        match self {
            AttemptPhase::Up => 0,
            AttemptPhase::Side => 1,
            AttemptPhase::Down => 2,
            AttemptPhase::Done => 3,
        }
    }

    /// The first pass of an attempt: the up pass if it runs, else the side
    /// pass if it runs, else the down pass (which always runs).
    pub open spec fn first(plan: PassPlan) -> AttemptPhase {
        if plan.up_pass {
            AttemptPhase::Up
        } else if plan.side_pass {
            AttemptPhase::Side
        } else {
            AttemptPhase::Down
        }
    }

    /// The phase that follows this one.
    pub open spec fn next(self, plan: PassPlan) -> AttemptPhase {
        match self {
            AttemptPhase::Up => if plan.side_pass {
                AttemptPhase::Side
            } else {
                AttemptPhase::Down
            },
            AttemptPhase::Side => AttemptPhase::Down,
            _ => AttemptPhase::Done,
        }
    }
}

/// How a pass uses the automatic step offset.
#[derive(Clone, Copy, Debug, PartialEq, Eq, Structural)]
pub enum StepMotion {
    /// Not at all.
    Zero,
    /// Add the step offset along up.
    Raise,
    /// Take the step offset off along up, but never more than the character
    /// actually rose since the start of the attempt (so nothing is undone
    /// that was not done, e.g. when the up pass was blocked or skipped).
    LowerByRise,
}

/// The motion a pass sweeps, made of parts of the attempt's displacement.
#[derive(Clone, Copy, Debug, PartialEq, Eq, Structural)]
pub struct PassMotion {
    /// The vertical part of the displacement.
    pub vertical: bool,
    /// The horizontal part of the displacement.
    pub horizontal: bool,
    /// The step offset along up.
    pub step: StepMotion,
}

/// A pass to run: its kind, its iteration budget and its motion.
#[derive(Clone, Copy, Debug, PartialEq, Eq, Structural)]
pub struct PassOrder {
    pub pass: SweepPass,
    pub max_iterations: u8,
    pub motion: PassMotion,
}

/// The abstract state of an attempt in progress.
pub struct AttemptView {
    pub plan: PassPlan,
    pub phase: AttemptPhase,
    pub up_hit: bool,
    pub side_hit: bool,
    pub down_hit: bool,
}

impl AttemptView {
    /// The pass the attempt runs now, if any.
    pub open spec fn order(self) -> Option<PassOrder> {
        match self.phase {
            AttemptPhase::Up => Some(
                PassOrder {
                    pass: SweepPass::Up,
                    max_iterations: self.plan.max_iterations_up,
                    motion: PassMotion {
                        vertical: self.plan.up_includes_vertical,
                        horizontal: false,
                        step: if self.plan.step_offset_applied {
                            StepMotion::Raise
                        } else {
                            StepMotion::Zero
                        },
                    },
                },
            ),
            AttemptPhase::Side => Some(
                PassOrder {
                    pass: SweepPass::Side,
                    max_iterations: self.plan.max_iterations_side,
                    motion: PassMotion { vertical: false, horizontal: true, step: StepMotion::Zero },
                },
            ),
            AttemptPhase::Down => Some(
                PassOrder {
                    pass: SweepPass::Down,
                    max_iterations: self.plan.max_iterations_down,
                    motion: PassMotion {
                        vertical: self.plan.down_includes_vertical,
                        horizontal: false,
                        step: if self.plan.step_offset_applied {
                            StepMotion::LowerByRise
                        } else {
                            StepMotion::Zero
                        },
                    },
                },
            ),
            AttemptPhase::Done => None,
        }
    }

    /// The attempt after the current pass reported whether it hit something.
    pub open spec fn after_pass(self, hit: bool) -> AttemptView {
        AttemptView {
            plan: self.plan,
            phase: self.phase.next(self.plan),
            up_hit: if self.phase == AttemptPhase::Up { hit } else { self.up_hit },
            side_hit: if self.phase == AttemptPhase::Side { hit } else { self.side_hit },
            down_hit: if self.phase == AttemptPhase::Down { hit } else { self.down_hit },
        }
    }
}

/// One movement attempt in progress: runs its passes in order and gathers
/// what they hit.
pub struct AttemptState {
    plan: PassPlan,
    phase: AttemptPhase,
    up_hit: bool,
    side_hit: bool,
    down_hit: bool,
}

impl View for AttemptState {
    type V = AttemptView;

    closed spec fn view(&self) -> AttemptView {
        AttemptView {
            plan: self.plan,
            phase: self.phase,
            up_hit: self.up_hit,
            side_hit: self.side_hit,
            down_hit: self.down_hit,
        }
    }
}

impl AttemptState {
    /// Plan an attempt and stand before its first pass.
    pub fn start(setup: &AttemptSetup) -> (a: Self)
        ensures
            a@ == (AttemptView {
                plan: PassPlan::for_setup(*setup),
                phase: AttemptPhase::first(PassPlan::for_setup(*setup)),
                up_hit: false,
                side_hit: false,
                down_hit: false,
            }),
    {
        let plan = plan_attempt(setup);
        let phase = if plan.up_pass {
            AttemptPhase::Up
        } else if plan.side_pass {
            AttemptPhase::Side
        } else {
            AttemptPhase::Down
        };
        AttemptState { plan, phase, up_hit: false, side_hit: false, down_hit: false }
    }

    /// The plan of the attempt.
    pub fn plan(&self) -> (p: PassPlan)
        ensures
            p == self@.plan,
    {
        self.plan
    }

    /// The pass to run now, or `None` once all passes ran.
    pub fn next_pass(&self) -> (o: Option<PassOrder>)
        ensures
            o == self@.order(),
    {
        match self.phase {
            AttemptPhase::Up => Some(
                PassOrder {
                    pass: SweepPass::Up,
                    max_iterations: self.plan.max_iterations_up,
                    motion: PassMotion {
                        vertical: self.plan.up_includes_vertical,
                        horizontal: false,
                        step: if self.plan.step_offset_applied {
                            StepMotion::Raise
                        } else {
                            StepMotion::Zero
                        },
                    },
                },
            ),
            AttemptPhase::Side => Some(
                PassOrder {
                    pass: SweepPass::Side,
                    max_iterations: self.plan.max_iterations_side,
                    motion: PassMotion { vertical: false, horizontal: true, step: StepMotion::Zero },
                },
            ),
            AttemptPhase::Down => Some(
                PassOrder {
                    pass: SweepPass::Down,
                    max_iterations: self.plan.max_iterations_down,
                    motion: PassMotion {
                        vertical: self.plan.down_includes_vertical,
                        horizontal: false,
                        step: if self.plan.step_offset_applied {
                            StepMotion::LowerByRise
                        } else {
                            StepMotion::Zero
                        },
                    },
                },
            ),
            AttemptPhase::Done => None,
        }
    }

    /// Record whether the pass that just ran hit something, and move on.
    pub fn finish_pass(&mut self, hit: bool)
        requires
            old(self)@.phase != AttemptPhase::Done,
        ensures
            final(self)@ == old(self)@.after_pass(hit),
    {
        match self.phase {
            AttemptPhase::Up => {
                self.up_hit = hit;
                self.phase = if self.plan.side_pass {
                    AttemptPhase::Side
                } else {
                    AttemptPhase::Down
                };
            },
            AttemptPhase::Side => {
                self.side_hit = hit;
                self.phase = AttemptPhase::Down;
            },
            _ => {
                self.down_hit = hit;
                self.phase = AttemptPhase::Done;
            },
        }
    }

    /// The outcome of a finished attempt, given the geometry measured after
    /// its passes: whether its displacement does not point up, and the slope
    /// measurements of its contacts.
    pub fn outcome(&self, not_rising: bool, measures: &ContactMeasures, contacts: &ContactState) -> (o:
        AttemptOutcome)
        requires
            self@.phase == AttemptPhase::Done,
        ensures
            o == AttemptOutcome::of(
                self@.plan,
                PassReport {
                    up_hit: self@.up_hit,
                    side_hit: self@.side_hit,
                    down_hit: self@.down_hit,
                    not_rising,
                    measures: *measures,
                },
                *contacts,
            ),
    {
        let report = PassReport {
            up_hit: self.up_hit,
            side_hit: self.side_hit,
            down_hit: self.down_hit,
            not_rising,
            measures: *measures,
        };
        attempt_outcome(&self.plan, &report, contacts)
    }
}

/// Passes run in the order up, side, down, each at most once: every
/// finished pass moves the attempt strictly forward, and an attempt is done
/// only after its down pass.
pub proof fn lemma_passes_run_in_order(a: AttemptView, hit: bool)
    requires
        a.phase != AttemptPhase::Done,
    ensures
        a.after_pass(hit).phase.rank() > a.phase.rank(),
        a.after_pass(hit).phase == AttemptPhase::Done <==> a.phase == AttemptPhase::Down,
        a.after_pass(hit).plan == a.plan,
{
}

/// An attempt starts with the up pass exactly when the plan has one, starts
/// with the side pass only when the plan has one, never starts finished (so
/// with the ordering law its down pass always runs), and goes from the up
/// pass to the side pass exactly when the plan has a side pass.
pub proof fn lemma_only_planned_passes_run(plan: PassPlan, phase: AttemptPhase)
    ensures
        AttemptPhase::first(plan) == AttemptPhase::Up <==> plan.up_pass,
        AttemptPhase::first(plan) == AttemptPhase::Side ==> plan.side_pass,
        AttemptPhase::first(plan) != AttemptPhase::Done,
        phase == AttemptPhase::Up ==> (phase.next(plan) == AttemptPhase::Side <==> plan.side_pass),
{
}

/// A pass reports only its own hit: the others' records are left alone.
pub proof fn lemma_pass_records_its_own_hit(a: AttemptView, hit: bool)
    requires
        a.phase != AttemptPhase::Done,
    ensures
        a.phase == AttemptPhase::Up ==> a.after_pass(hit).up_hit == hit
            && a.after_pass(hit).side_hit == a.side_hit && a.after_pass(hit).down_hit == a.down_hit,
        a.phase == AttemptPhase::Side ==> a.after_pass(hit).side_hit == hit
            && a.after_pass(hit).up_hit == a.up_hit && a.after_pass(hit).down_hit == a.down_hit,
        a.phase == AttemptPhase::Down ==> a.after_pass(hit).down_hit == hit
            && a.after_pass(hit).up_hit == a.up_hit && a.after_pass(hit).side_hit == a.side_hit,
{
}

/// The displacement of the retry that follows a non-walkable surface.
#[derive(Clone, Copy, Debug, PartialEq, Eq, Structural)]
pub enum RetryDisplacement {
    /// Only the vertical part of the requested displacement: no walking along the slope.
    VerticalOnly,
    /// The requested displacement as it was.
    Unchanged,
}

/// Whether the first attempt calls for a retry, and with which displacement.
pub fn walk_experiment(first: &AttemptOutcome, slide_mode: NonWalkableMode) -> (r: Option<
    RetryDisplacement,
>)
    ensures
        r is Some <==> first.hit_non_walkable,
        r == Some(RetryDisplacement::VerticalOnly) <==> (first.hit_non_walkable && slide_mode
            == NonWalkableMode::PreventClimbingAndForceSliding),
{
    if !first.hit_non_walkable {
        return None;
    }
    match slide_mode {
        NonWalkableMode::PreventClimbingAndForceSliding => Some(RetryDisplacement::VerticalOnly),
        NonWalkableMode::PreventClimbing => Some(RetryDisplacement::Unchanged),
    }
}

/// What a move reports: the position and displacement the caller measured,
/// the flags and ground of the last attempt, and the non-walkable verdict of
/// the first attempt.
pub fn move_result(
    first: &AttemptOutcome,
    retry: Option<AttemptOutcome>,
    final_position: Vec3,
    actual_displacement: Vec3,
) -> (r: CharacterMoveResult)
    ensures
        r.final_position == final_position,
        r.actual_displacement == actual_displacement,
        r.hit_non_walkable == first.hit_non_walkable,
        r.collision_flags == (match retry {
            Some(o) => o.collision_flags,
            None => first.collision_flags,
        }),
        r.ground == (match retry {
            Some(o) => o.ground,
            None => first.ground,
        }),
{
    let last = match retry {
        Some(o) => o,
        None => *first,
    };
    CharacterMoveResult {
        final_position,
        collision_flags: last.collision_flags,
        ground: last.ground,
        hit_non_walkable: first.hit_non_walkable,
        actual_displacement,
    }
}

/// What a move does next.
#[derive(Clone, Copy, Debug, PartialEq, Eq, Structural)]
pub enum AttemptOrder {
    /// The first attempt, with the requested displacement.
    Original,
    /// The walk-experiment retry, with this displacement.
    Retry(RetryDisplacement),
    /// The recovery sweep after a retry that still ended on a non-walkable
    /// surface: a down pass with this budget, as deep as the retry rose plus
    /// the vertical part of its displacement.
    Recovery { max_iterations: u8 },
}

/// The retry displacement for a slide mode.
pub open spec fn retry_displacement(slide_mode: NonWalkableMode) -> RetryDisplacement {
    if slide_mode == NonWalkableMode::PreventClimbingAndForceSliding {
        RetryDisplacement::VerticalOnly
    } else {
        RetryDisplacement::Unchanged
    }
}

/// The abstract state of a move in progress.
pub struct MoveView {
    pub slide_mode: NonWalkableMode,
    pub max_iterations: u8,
    pub first: Option<AttemptOutcome>,
    pub retry: Option<AttemptOutcome>,
    pub recovered: bool,
}

impl MoveView {
    /// What the move does now: the original attempt first; then a retry
    /// exactly when the first attempt hit a non-walkable surface; then a
    /// recovery sweep exactly when the retry hit one too; then nothing.
    pub open spec fn order(self) -> Option<AttemptOrder> {
        match self.first {
            None => Some(AttemptOrder::Original),
            Some(f) => match self.retry {
                None => if f.hit_non_walkable {
                    Some(AttemptOrder::Retry(retry_displacement(self.slide_mode)))
                } else {
                    None
                },
                Some(r) => if r.hit_non_walkable && !self.recovered {
                    Some(AttemptOrder::Recovery { max_iterations: self.max_iterations })
                } else {
                    None
                },
            },
        }
    }

    /// The move after an attempt finished with outcome `o`.
    pub open spec fn after_attempt(self, o: AttemptOutcome) -> MoveView {
        if self.first is None {
            MoveView { first: Some(o), ..self }
        } else {
            MoveView { retry: Some(o), ..self }
        }
    }

    /// The move after the recovery sweep left the character on `ground`:
    /// the retry's flags and verdict stay, its ground is the one found.
    pub open spec fn after_recovery(self, ground: Option<Ground>) -> MoveView {
        MoveView {
            retry: Some(AttemptOutcome { ground, ..self.retry.unwrap() }),
            recovered: true,
            ..self
        }
    }

    /// How many steps (attempts and recovery) the move can still take at most.
    pub open spec fn steps_left(self) -> nat {
        if self.first is None {
            3
        } else if self.retry is None {
            2
        } else if !self.recovered {
            1
        } else {
            0
        }
    }

    /// The last outcome of the move.
    pub open spec fn last(self) -> AttemptOutcome {
        match self.retry {
            Some(o) => o,
            None => self.first.unwrap(),
        }
    }
}

/// One character move in progress: a first attempt; a retry when that
/// attempt ended on a non-walkable surface; a recovery sweep when the retry
/// did too.
pub struct MoveState {
    slide_mode: NonWalkableMode,
    max_iterations: u8,
    first: Option<AttemptOutcome>,
    retry: Option<AttemptOutcome>,
    recovered: bool,
}

impl View for MoveState {
    type V = MoveView;

    closed spec fn view(&self) -> MoveView {
        MoveView {
            slide_mode: self.slide_mode,
            max_iterations: self.max_iterations,
            first: self.first,
            retry: self.retry,
            recovered: self.recovered,
        }
    }
}

impl MoveState {
    /// A move that has done nothing yet, with its slide mode and the
    /// iteration budget of the configuration.
    pub fn start(slide_mode: NonWalkableMode, max_iterations: u8) -> (m: Self)
        ensures
            m@ == (MoveView {
                slide_mode,
                max_iterations,
                first: None,
                retry: None,
                recovered: false,
            }),
    {
        MoveState { slide_mode, max_iterations, first: None, retry: None, recovered: false }
    }

    /// What to do now, or `None` once the move is over.
    pub fn next_attempt(&self) -> (o: Option<AttemptOrder>)
        ensures
            o == self@.order(),
    {
        match &self.first {
            None => Some(AttemptOrder::Original),
            Some(first) => match &self.retry {
                None => match walk_experiment(first, self.slide_mode) {
                    Some(kind) => Some(AttemptOrder::Retry(kind)),
                    None => None,
                },
                Some(retry) => {
                    if retry.hit_non_walkable && !self.recovered {
                        Some(AttemptOrder::Recovery { max_iterations: self.max_iterations })
                    } else {
                        None
                    }
                },
            },
        }
    }

    /// Record the outcome of the attempt just made.
    pub fn finish_attempt(&mut self, outcome: AttemptOutcome)
        requires
            old(self)@.order() matches Some(o) && !(o is Recovery),
        ensures
            final(self)@ == old(self)@.after_attempt(outcome),
    {
        if self.first.is_none() {
            self.first = Some(outcome);
        } else {
            self.retry = Some(outcome);
        }
    }

    /// Record the ground the recovery sweep left the character on.
    pub fn finish_recovery(&mut self, ground: Option<Ground>)
        requires
            old(self)@.order() matches Some(o) && o is Recovery,
        ensures
            final(self)@ == old(self)@.after_recovery(ground),
    {
        let retry = self.retry.unwrap();
        self.retry = Some(AttemptOutcome { ground, ..retry });
        self.recovered = true;
    }

    /// What the finished move reports, with the final position and the
    /// displacement the caller measured: the flags and ground of its last
    /// attempt, and the non-walkable verdict of its first attempt.
    pub fn result(&self, final_position: Vec3, actual_displacement: Vec3) -> (r: CharacterMoveResult)
        requires
            self@.order() is None,
        ensures
            self@.first is Some,
            r.final_position == final_position,
            r.actual_displacement == actual_displacement,
            r.hit_non_walkable == self@.first.unwrap().hit_non_walkable,
            r.collision_flags == self@.last().collision_flags,
            r.ground == self@.last().ground,
    {
        let first = self.first.unwrap();
        move_result(&first, self.retry, final_position, actual_displacement)
    }
}

/// A move takes at most three steps (attempt, retry, recovery): each one
/// takes one from the steps it has left, and it starts with three.
pub proof fn lemma_at_most_three_steps(m: MoveView, o: AttemptOutcome, g: Option<Ground>)
    requires
        m.order() is Some,
    ensures
        !(m.order().unwrap() is Recovery) ==> m.after_attempt(o).steps_left() < m.steps_left(),
        m.order().unwrap() is Recovery ==> m.after_recovery(g).steps_left() < m.steps_left(),
        m.steps_left() <= 3,
{
}

/// A move retries exactly when its first attempt hit a non-walkable
/// surface, and the retry is a walk experiment with the displacement the
/// slide mode asks for.
pub proof fn lemma_retry_iff_non_walkable(mode: NonWalkableMode, n: u8, first: AttemptOutcome)
    ensures
        (MoveView { slide_mode: mode, max_iterations: n, first: None, retry: None, recovered: false }).order()
            == Some(AttemptOrder::Original),
        (MoveView { slide_mode: mode, max_iterations: n, first: Some(first), retry: None, recovered: false }).order() is Some
            <==> first.hit_non_walkable,
        first.hit_non_walkable ==> (MoveView {
            slide_mode: mode,
            max_iterations: n,
            first: Some(first),
            retry: None,
            recovered: false,
        }).order() == Some(AttemptOrder::Retry(retry_displacement(mode))),
{
}

/// After a retry the move recovers exactly when the retry still hit a
/// non-walkable surface, with the configured budget; after the recovery it
/// is over, keeping the retry's flags and taking the ground it found.
pub proof fn lemma_recovery_iff_retry_non_walkable(
    m: MoveView,
    retry: AttemptOutcome,
    g: Option<Ground>,
)
    requires
        m.first is Some,
        m.retry is None,
        !m.recovered,
    ensures
        m.after_attempt(retry).order() is Some <==> retry.hit_non_walkable,
        retry.hit_non_walkable ==> m.after_attempt(retry).order() == Some(
            AttemptOrder::Recovery { max_iterations: m.max_iterations },
        ),
        m.after_attempt(retry).after_recovery(g).order() is None,
        m.after_attempt(retry).after_recovery(g).last().collision_flags == retry.collision_flags,
        m.after_attempt(retry).after_recovery(g).last().hit_non_walkable == retry.hit_non_walkable,
        m.after_attempt(retry).after_recovery(g).last().ground == g,
        m.after_attempt(retry).after_recovery(g).first == m.first,
{
}

/// How the velocity is corrected after a move.
#[derive(Clone, Copy, Debug, PartialEq, Eq, Structural)]
pub struct VelocityResponse {
    /// The vertical part of the velocity is cancelled.
    pub zero_vertical: bool,
    /// The horizontal part of the velocity is cut to a tenth.
    pub damp_horizontal: bool,
}

/// Decide the velocity correction after a move. `rising` and `settling` say
/// whether the vertical velocity points up (`> 0` along up) or not
/// (`<= 0`); `motion_blocked` says whether the horizontal displacement fell
/// short of a fifth of the horizontal speed (with a non-zero speed).
///
/// Landing cancels a downward or level vertical velocity, a ceiling hit
/// cancels an upward one, and running into a non-walkable surface with
/// blocked horizontal motion damps the horizontal velocity.
pub fn velocity_response(
    result: &CharacterMoveResult,
    rising: bool,
    settling: bool,
    motion_blocked: bool,
) -> (v: VelocityResponse)
    ensures
        v.zero_vertical == ((result.ground is Some && settling) || (result.collision_flags.up
            && rising)),
        v.damp_horizontal == (result.hit_non_walkable && motion_blocked),
{
    let mut zero_vertical = false;
    if result.ground.is_some() && settling {
        zero_vertical = true;
    } else if result.collision_flags.up && rising {
        zero_vertical = true;
    }
    VelocityResponse {
        zero_vertical,
        damp_horizontal: result.hit_non_walkable && motion_blocked,
    }
}

/// A walk experiment never climbs: its up pass never runs.
pub proof fn lemma_walk_experiment_never_climbs(s: AttemptSetup)
    requires
        s.walk_experiment,
    ensures
        !PassPlan::for_setup(s).up_pass,
        !PassPlan::for_setup(s).up_includes_vertical,
{
}

/// The step offset only applies to a grounded move with a horizontal part;
/// it clears the initial ground, and outside a retry it is swept by the up
/// pass.
pub proof fn lemma_step_offset_only_when_walking(s: AttemptSetup)
    ensures
        PassPlan::for_setup(s).step_offset_applied ==> (s.has_horizontal_motion && s.is_grounded
            && s.has_step_offset),
        PassPlan::for_setup(s).step_offset_applied ==> PassPlan::for_setup(
            s,
        ).clear_initial_ground,
        PassPlan::for_setup(s).step_offset_applied && !s.walk_experiment ==> PassPlan::for_setup(
            s,
        ).up_pass,
{
}

/// The step offset is raised only by the up pass and taken off only by the
/// down pass, and the down pass takes it off (up to the rise) exactly when
/// it applies.
pub proof fn lemma_step_raised_then_taken_off(a: AttemptView)
    ensures
        a.phase == AttemptPhase::Up && a.plan.step_offset_applied ==> a.order().unwrap().motion.step
            == StepMotion::Raise,
        a.phase == AttemptPhase::Down ==> (a.order().unwrap().motion.step
            == StepMotion::LowerByRise <==> a.plan.step_offset_applied),
        a.phase == AttemptPhase::Side ==> a.order().unwrap().motion.step == StepMotion::Zero,
        a.phase != AttemptPhase::Down ==> !(a.order() matches Some(o) && o.motion.step
            == StepMotion::LowerByRise),
{
}

/// Upward and downward motion never go to the same attempt twice: the
/// vertical part of the displacement is carried either by the up pass or by
/// the down pass.
pub proof fn lemma_vertical_carried_once(s: AttemptSetup)
    ensures
        !(PassPlan::for_setup(s).up_includes_vertical && PassPlan::for_setup(
            s,
        ).down_includes_vertical),
        !s.walk_experiment ==> (PassPlan::for_setup(s).up_includes_vertical || PassPlan::for_setup(
            s,
        ).down_includes_vertical),
{
}

/// Slope validation: a move that does not go up and whose down pass touches
/// (and records) ground steeper than the slope limit, higher than a step
/// above the feet, is non-walkable, with or without a side hit; so is one
/// that hit downward and ran sideways into a steep contact higher than a step.
pub proof fn lemma_steep_contact_is_non_walkable(plan: PassPlan, r: PassReport, c: ContactState)
    requires
        r.not_rising,
        r.down_hit,
    ensures
        c.validate_triangle_down && r.measures.down_too_high && r.measures.steep_down_contact
            ==> AttemptOutcome::of(plan, r, c).hit_non_walkable,
        plan.side_pass && r.side_hit && r.measures.side_too_high && r.measures.steep_side_contact
            ==> AttemptOutcome::of(plan, r, c).hit_non_walkable,
{
}

/// A non-walkable verdict needs a downward hit of a move that does not go
/// up, and a steep contact higher than a step, at the side or below; with
/// only gentle contacts (or only low ones) an attempt is walkable.
pub proof fn lemma_non_walkable_needs_steep_high_contact(
    plan: PassPlan,
    r: PassReport,
    c: ContactState,
)
    ensures
        AttemptOutcome::of(plan, r, c).hit_non_walkable ==> (r.not_rising && r.down_hit
            && AttemptOutcome::of(plan, r, c).collision_flags.down),
        AttemptOutcome::of(plan, r, c).hit_non_walkable ==> ((r.side_hit && plan.side_pass
            && r.measures.side_too_high && r.measures.steep_side_contact) || (
        c.validate_triangle_down && r.measures.down_too_high && r.measures.steep_down_contact)),
        !r.measures.steep_side_contact && !r.measures.steep_down_contact
            ==> !AttemptOutcome::of(plan, r, c).hit_non_walkable,
        !r.measures.side_too_high && !r.measures.down_too_high
            ==> !AttemptOutcome::of(plan, r, c).hit_non_walkable,
{
}

/// A move that goes up never sets the down flag, so it can never be judged
/// non-walkable.
pub proof fn lemma_rising_move_is_never_non_walkable(
    plan: PassPlan,
    r: PassReport,
    c: ContactState,
)
    requires
        !r.not_rising,
    ensures
        !AttemptOutcome::of(plan, r, c).collision_flags.down,
        !AttemptOutcome::of(plan, r, c).hit_non_walkable,
{
}

/// Which passes an attempt runs: the side pass exactly when the requested
/// move has a horizontal part (in a retry too); the up pass exactly outside
/// a retry, when the move goes up or carries the step offset; the step
/// offset exactly for a grounded horizontal move with a positive offset.
pub proof fn lemma_plan_passes(s: AttemptSetup)
    ensures
        PassPlan::for_setup(s).side_pass == s.has_horizontal_motion,
        PassPlan::for_setup(s).step_offset_applied == (s.has_horizontal_motion && s.has_step_offset
            && s.is_grounded),
        PassPlan::for_setup(s).up_pass == (!s.walk_experiment && (s.is_moving_up
            || PassPlan::for_setup(s).step_offset_applied)),
        PassPlan::for_setup(s).up_includes_vertical == (s.is_moving_up && !s.walk_experiment),
        PassPlan::for_setup(s).down_includes_vertical == !s.is_moving_up,
        PassPlan::for_setup(s).clear_initial_ground == ((s.is_moving_up && !s.walk_experiment)
            || PassPlan::for_setup(s).step_offset_applied),
        PassPlan::for_setup(s).prevent_vertical_motion == s.walk_experiment,
{
}

/// The iteration budgets of an attempt: the side pass always has the
/// configured budget; the up pass has it only when the horizontal part is
/// negligible and one iteration otherwise; the down pass has ten
/// iterations in a retry that forces sliding and one otherwise.
pub proof fn lemma_plan_budgets(s: AttemptSetup)
    ensures
        PassPlan::for_setup(s).max_iterations_side == s.max_iterations,
        s.has_horizontal_motion && s.side_nearly_zero ==> PassPlan::for_setup(s).max_iterations_up
            == s.max_iterations,
        !(s.has_horizontal_motion && s.side_nearly_zero) ==> PassPlan::for_setup(
            s,
        ).max_iterations_up == 1,
        s.walk_experiment && s.slide_mode == NonWalkableMode::PreventClimbingAndForceSliding
            ==> PassPlan::for_setup(s).max_iterations_down == 10,
        !(s.walk_experiment && s.slide_mode == NonWalkableMode::PreventClimbingAndForceSliding)
            ==> PassPlan::for_setup(s).max_iterations_down == 1,
{
}

/// The flags of an attempt: each pass that ran sets its flag exactly when
/// it hit, whatever the vertical direction of the move, except the down
/// flag, which a rising move never sets; the attempt keeps the ground its
/// contacts ended with.
pub proof fn lemma_outcome_flags(plan: PassPlan, r: PassReport, c: ContactState)
    ensures
        AttemptOutcome::of(plan, r, c).collision_flags.up == (plan.up_pass && r.up_hit),
        AttemptOutcome::of(plan, r, c).collision_flags.sides == (plan.side_pass && r.side_hit),
        AttemptOutcome::of(plan, r, c).collision_flags.down == (r.down_hit && r.not_rising),
        AttemptOutcome::of(plan, r, c).ground == c.ground,
{
}

/// Every planned pass runs: the attempt starts with the up pass if planned,
/// else with the side pass if planned, else with the down pass; the side
/// pass is reached (first or right after the up pass) exactly when it is
/// planned, and the down pass always follows the side pass.
pub proof fn lemma_planned_passes_are_reached(plan: PassPlan)
    ensures
        AttemptPhase::first(plan) == AttemptPhase::Side <==> (!plan.up_pass && plan.side_pass),
        AttemptPhase::first(plan) == AttemptPhase::Down <==> (!plan.up_pass && !plan.side_pass),
        plan.side_pass <==> (AttemptPhase::first(plan) == AttemptPhase::Side || (AttemptPhase::first(
            plan,
        ) == AttemptPhase::Up && AttemptPhase::Up.next(plan) == AttemptPhase::Side)),
        !plan.side_pass ==> AttemptPhase::Up.next(plan) == AttemptPhase::Down,
        AttemptPhase::Side.next(plan) == AttemptPhase::Down,
        AttemptPhase::Down.next(plan) == AttemptPhase::Done,
{
}

/// What each pass sweeps: the up pass the rising vertical part and the
/// step raise, with its budget; the side pass the horizontal part only,
/// with its budget; the down pass the falling vertical part and the step
/// taken back, with its budget; and nothing once the attempt is done.
pub proof fn lemma_pass_orders(a: AttemptView)
    ensures
        a.phase == AttemptPhase::Up ==> a.order() == Some(
            PassOrder {
                pass: SweepPass::Up,
                max_iterations: a.plan.max_iterations_up,
                motion: PassMotion {
                    vertical: a.plan.up_includes_vertical,
                    horizontal: false,
                    step: if a.plan.step_offset_applied {
                        StepMotion::Raise
                    } else {
                        StepMotion::Zero
                    },
                },
            },
        ),
        a.phase == AttemptPhase::Side ==> a.order() == Some(
            PassOrder {
                pass: SweepPass::Side,
                max_iterations: a.plan.max_iterations_side,
                motion: PassMotion { vertical: false, horizontal: true, step: StepMotion::Zero },
            },
        ),
        a.phase == AttemptPhase::Down ==> a.order() == Some(
            PassOrder {
                pass: SweepPass::Down,
                max_iterations: a.plan.max_iterations_down,
                motion: PassMotion {
                    vertical: a.plan.down_includes_vertical,
                    horizontal: false,
                    step: if a.plan.step_offset_applied {
                        StepMotion::LowerByRise
                    } else {
                        StepMotion::Zero
                    },
                },
            },
        ),
        a.phase == AttemptPhase::Done <==> a.order() is None,
        a.order() is Some && a.order().unwrap().motion.horizontal ==> a.order().unwrap().pass
            == SweepPass::Side,
{
}

/// A move reports the attempt it ended with: after a retry, the retry's
/// outcome (flags, verdict and ground), whether or not a recovery followed;
/// a recovery only replaces the ground; without a retry, the first attempt.
pub proof fn lemma_move_reports_last_attempt(
    m: MoveView,
    o: AttemptOutcome,
    g: Option<Ground>,
)
    ensures
        m.retry == Some(o) ==> m.last() == o,
        m.retry is None && m.first is Some ==> m.last() == m.first.unwrap(),
        m.first is Some ==> m.after_attempt(o).last() == o,
        m.retry == Some(o) ==> m.after_recovery(g).last() == (AttemptOutcome { ground: g, ..o }),
        m.first is Some && m.retry is None && !o.hit_non_walkable ==> m.after_attempt(o).order() is None
            && m.after_attempt(o).last().collision_flags == o.collision_flags,
{
}

/// The retry drops the horizontal part of the move exactly when the mode
/// forces sliding, and otherwise repeats the requested move.
pub proof fn lemma_retry_displacement(mode: NonWalkableMode)
    ensures
        retry_displacement(mode) == RetryDisplacement::VerticalOnly <==> mode
            == NonWalkableMode::PreventClimbingAndForceSliding,
        retry_displacement(mode) == RetryDisplacement::Unchanged <==> mode
            == NonWalkableMode::PreventClimbing,
{
}

} // verus!
