use bevy::ecs::entity::Entity;
use bevy::math::{Dir3, Vec3};
use happy_feet::collision::{
    CharacterCollisionFlags, CharacterMoveResult, ContactState, SweepAction, SweepObservation,
    SweepPass, SweepPassState,
};
use happy_feet::controller::{
    attempt_outcome, move_result, plan_attempt, velocity_response, walk_experiment, AttemptOrder,
    AttemptOutcome, AttemptSetup, AttemptState, ContactMeasures, MoveState, PassMotion,
    PassReport, RetryDisplacement, StepMotion,
};
use happy_feet::ground::{Ground, NonWalkableMode};

fn floor() -> Ground {
    Ground::new(Entity::from_raw(1), Dir3::Y)
}

fn hit(entity: u32, walkable: bool) -> SweepObservation {
    SweepObservation::Hit { entity: Entity::from_raw(entity), normal: Dir3::Y, walkable }
}

#[test]
fn flags_new_and_any() {
    let f = CharacterCollisionFlags::new();
    assert!(!f.up && !f.sides && !f.down);
    assert!(!f.any());
    assert!(CharacterCollisionFlags { up: false, sides: true, down: false }.any());
    assert!(CharacterCollisionFlags { up: true, sides: false, down: false }.any());
    assert!(CharacterCollisionFlags { up: false, sides: false, down: true }.any());
}

#[test]
fn pass_names() {
    assert_eq!(SweepPass::Up.name(), "UP");
    assert_eq!(SweepPass::Side.name(), "SIDE");
    assert_eq!(SweepPass::Down.name(), "DOWN");
}

#[test]
fn zero_budget_pass_is_over_at_once() {
    let mut s = SweepPassState::start(SweepPass::Side, 0, false, NonWalkableMode::PreventClimbingAndForceSliding, true);
    let mut c = ContactState::new(None);
    assert!(s.is_finished());
    assert_eq!(s.step(&mut c, hit(2, true)), SweepAction::Stop);
    assert!(!s.had_collision());
    assert!(!c.validate_triangle_side);
}

#[test]
fn side_pass_slides_until_budget_is_spent() {
    let mut s = SweepPassState::start(SweepPass::Side, 2, false, NonWalkableMode::PreventClimbingAndForceSliding, true);
    let mut c = ContactState::new(Some(floor()));
    assert_eq!(
        s.step(&mut c, hit(2, false)),
        SweepAction::Slide { flatten_normal: false, record_contact: true }
    );
    assert!(!s.is_finished());
    assert!(s.had_collision());
    assert!(c.validate_triangle_side);
    assert!(!c.validate_triangle_down);
    assert_eq!(c.ground.map(|g| g.entity), Some(Entity::from_raw(1)));
    assert_eq!(
        s.step(&mut c, hit(3, true)),
        SweepAction::Slide { flatten_normal: false, record_contact: true }
    );
    assert!(s.is_finished());
    assert_eq!(s.step(&mut c, SweepObservation::Clear), SweepAction::Stop);
}

#[test]
fn walk_experiment_side_pass_flattens_normals() {
    let mut s = SweepPassState::start(SweepPass::Side, 4, true, NonWalkableMode::PreventClimbingAndForceSliding, true);
    let mut c = ContactState::new(None);
    assert_eq!(
        s.step(&mut c, hit(2, false)),
        SweepAction::Slide { flatten_normal: true, record_contact: true }
    );
}

#[test]
fn side_pass_without_grounding_records_nothing() {
    let mut s = SweepPassState::start(SweepPass::Side, 4, false, NonWalkableMode::PreventClimbingAndForceSliding, false);
    let mut c = ContactState::new(None);
    assert_eq!(
        s.step(&mut c, hit(2, true)),
        SweepAction::Slide { flatten_normal: false, record_contact: false }
    );
    assert!(!c.validate_triangle_side);
    assert!(s.had_collision());
}

#[test]
fn clear_side_pass_moves_to_target() {
    let mut s = SweepPassState::start(SweepPass::Side, 4, false, NonWalkableMode::PreventClimbingAndForceSliding, true);
    let mut c = ContactState::new(Some(floor()));
    assert_eq!(s.step(&mut c, SweepObservation::Clear), SweepAction::MoveToTarget);
    assert!(s.is_finished());
    assert!(!s.had_collision());
    assert!(c.ground.is_some());
}

#[test]
fn down_pass_falling_loses_ground() {
    let mut s = SweepPassState::start(SweepPass::Down, 1, false, NonWalkableMode::PreventClimbingAndForceSliding, true);
    let mut c = ContactState::new(Some(floor()));
    assert_eq!(s.step(&mut c, SweepObservation::Clear), SweepAction::MoveToTarget);
    assert!(c.ground.is_none());
}

#[test]
fn down_pass_lands_on_walkable_surface() {
    let mut s = SweepPassState::start(SweepPass::Down, 1, false, NonWalkableMode::PreventClimbingAndForceSliding, true);
    let mut c = ContactState::new(None);
    assert_eq!(
        s.step(&mut c, hit(5, true)),
        SweepAction::Slide { flatten_normal: false, record_contact: true }
    );
    assert!(s.is_finished());
    assert!(c.validate_triangle_down);
    assert_eq!(c.ground.map(|g| g.entity), Some(Entity::from_raw(5)));
}

#[test]
fn down_pass_keeps_ground_on_steep_surface() {
    let mut s = SweepPassState::start(SweepPass::Down, 1, false, NonWalkableMode::PreventClimbingAndForceSliding, true);
    let mut c = ContactState::new(Some(floor()));
    s.step(&mut c, hit(5, false));
    assert!(c.validate_triangle_down);
    assert_eq!(c.ground.map(|g| g.entity), Some(Entity::from_raw(1)));
}

#[test]
fn up_pass_never_touches_contacts() {
    let mut s = SweepPassState::start(SweepPass::Up, 4, false, NonWalkableMode::PreventClimbingAndForceSliding, true);
    let mut c = ContactState::new(Some(floor()));
    assert_eq!(
        s.step(&mut c, hit(5, true)),
        SweepAction::Slide { flatten_normal: false, record_contact: false }
    );
    assert!(!c.validate_triangle_down && !c.validate_triangle_side);
    assert_eq!(c.ground.map(|g| g.entity), Some(Entity::from_raw(1)));
}

#[test]
fn stopping_observations_end_the_pass() {
    for obs in [
        SweepObservation::NoMotion,
        SweepObservation::BelowMinDistance,
        SweepObservation::Reversed,
    ] {
        let mut s = SweepPassState::start(SweepPass::Down, 3, false, NonWalkableMode::PreventClimbingAndForceSliding, true);
        let mut c = ContactState::new(Some(floor()));
        assert_eq!(s.step(&mut c, obs), SweepAction::Stop);
        assert!(s.is_finished());
        assert!(!s.had_collision());
        assert!(c.ground.is_some());
    }
}

fn setup() -> AttemptSetup {
    AttemptSetup {
        has_horizontal_motion: true,
        is_moving_up: false,
        walk_experiment: false,
        has_step_offset: true,
        is_grounded: true,
        side_nearly_zero: false,
        max_iterations: 4,
        slide_mode: NonWalkableMode::PreventClimbing,
    }
}

#[test]
fn grounded_walk_steps_up_side_and_down() {
    let p = plan_attempt(&setup());
    assert!(p.step_offset_applied);
    assert!(p.clear_initial_ground);
    assert!(p.up_pass);
    assert!(!p.up_includes_vertical);
    assert!(p.side_pass);
    assert!(!p.prevent_vertical_motion);
    assert!(p.down_includes_vertical);
    assert_eq!(p.max_iterations_up, 1);
    assert_eq!(p.max_iterations_side, 4);
    assert_eq!(p.max_iterations_down, 1);
}

#[test]
fn airborne_fall_only_runs_down_pass_work() {
    let s = AttemptSetup { has_horizontal_motion: false, is_grounded: false, ..setup() };
    let p = plan_attempt(&s);
    assert!(!p.step_offset_applied);
    assert!(!p.up_pass);
    assert!(!p.clear_initial_ground);
    assert!(!p.side_pass);
    assert!(p.down_includes_vertical);
}

#[test]
fn jump_goes_through_the_up_pass() {
    let s = AttemptSetup { is_moving_up: true, has_step_offset: false, ..setup() };
    let p = plan_attempt(&s);
    assert!(p.up_pass);
    assert!(p.up_includes_vertical);
    assert!(p.clear_initial_ground);
    assert!(!p.down_includes_vertical);
}

#[test]
fn up_pass_gets_full_budget_when_side_motion_is_negligible() {
    let s = AttemptSetup { side_nearly_zero: true, ..setup() };
    assert_eq!(plan_attempt(&s).max_iterations_up, 4);
}

#[test]
fn walk_experiment_never_climbs_and_forced_sliding_digs_down() {
    let s = AttemptSetup {
        walk_experiment: true,
        slide_mode: NonWalkableMode::PreventClimbingAndForceSliding,
        ..setup()
    };
    let p = plan_attempt(&s);
    assert!(!p.up_pass);
    assert!(p.clear_initial_ground);
    assert!(p.prevent_vertical_motion);
    assert_eq!(p.max_iterations_down, 10);
    let q = plan_attempt(&AttemptSetup { walk_experiment: true, ..setup() });
    assert_eq!(q.max_iterations_down, 1);
}

fn measures() -> ContactMeasures {
    ContactMeasures {
        side_too_high: true,
        steep_side_contact: true,
        down_too_high: false,
        steep_down_contact: false,
    }
}

fn gentle_measures() -> ContactMeasures {
    ContactMeasures {
        side_too_high: false,
        steep_side_contact: false,
        down_too_high: false,
        steep_down_contact: false,
    }
}

fn report() -> PassReport {
    PassReport {
        up_hit: false,
        side_hit: true,
        down_hit: true,
        not_rising: true,
        measures: measures(),
    }
}

#[test]
fn climbing_a_steep_wall_is_non_walkable() {
    let p = plan_attempt(&setup());
    let o = attempt_outcome(&p, &report(), &ContactState::new(Some(floor())));
    assert!(o.hit_non_walkable);
    assert_eq!(o.collision_flags, CharacterCollisionFlags { up: false, sides: true, down: true });
    assert!(o.ground.is_some());
}

#[test]
fn low_or_gentle_contacts_are_walkable() {
    let p = plan_attempt(&setup());
    let c = ContactState::new(None);
    let low = PassReport {
        measures: ContactMeasures { side_too_high: false, ..measures() },
        ..report()
    };
    assert!(!attempt_outcome(&p, &low, &c).hit_non_walkable);
    let gentle = PassReport {
        measures: ContactMeasures { steep_side_contact: false, ..measures() },
        ..report()
    };
    assert!(!attempt_outcome(&p, &gentle, &c).hit_non_walkable);
}

#[test]
fn rising_move_sets_no_down_flag() {
    let p = plan_attempt(&setup());
    let r = PassReport { not_rising: false, up_hit: true, ..report() };
    let o = attempt_outcome(&p, &r, &ContactState::new(None));
    assert!(!o.collision_flags.down);
    assert!(o.collision_flags.up);
    assert!(!o.hit_non_walkable);
}

#[test]
fn flags_of_passes_that_did_not_run_stay_clear() {
    let s = AttemptSetup { has_horizontal_motion: false, ..setup() };
    let p = plan_attempt(&s);
    let r = PassReport { up_hit: true, ..report() };
    let o = attempt_outcome(&p, &r, &ContactState::new(None));
    assert!(!o.collision_flags.up);
    assert!(!o.collision_flags.sides);
    assert!(o.collision_flags.down);
    assert!(!o.hit_non_walkable);
}

fn outcome(hit_non_walkable: bool, down: bool) -> AttemptOutcome {
    AttemptOutcome {
        collision_flags: CharacterCollisionFlags { up: false, sides: true, down },
        ground: None,
        hit_non_walkable,
    }
}

#[test]
fn retry_only_after_non_walkable() {
    assert_eq!(walk_experiment(&outcome(false, true), NonWalkableMode::PreventClimbing), None);
    assert_eq!(
        walk_experiment(&outcome(true, true), NonWalkableMode::PreventClimbing),
        Some(RetryDisplacement::Unchanged)
    );
    assert_eq!(
        walk_experiment(&outcome(true, true), NonWalkableMode::PreventClimbingAndForceSliding),
        Some(RetryDisplacement::VerticalOnly)
    );
}

#[test]
fn move_result_reports_first_verdict_and_last_flags() {
    let first = outcome(true, true);
    let retry = AttemptOutcome { ground: Some(floor()), ..outcome(false, false) };
    let r = move_result(&first, Some(retry), Vec3::new(1.0, 2.0, 3.0), Vec3::X);
    assert!(r.hit_non_walkable);
    assert!(!r.collision_flags.down);
    assert_eq!(r.ground.map(|g| g.entity), Some(Entity::from_raw(1)));
    assert_eq!(r.final_position, Vec3::new(1.0, 2.0, 3.0));
    assert_eq!(r.actual_displacement, Vec3::X);
    let s = move_result(&outcome(false, true), None, Vec3::ZERO, Vec3::ZERO);
    assert!(!s.hit_non_walkable);
    assert!(s.collision_flags.down);
}

fn result(ground: bool, up: bool, non_walkable: bool) -> CharacterMoveResult {
    CharacterMoveResult {
        final_position: Vec3::ZERO,
        collision_flags: CharacterCollisionFlags { up, sides: false, down: ground },
        ground: if ground { Some(floor()) } else { None },
        hit_non_walkable: non_walkable,
        actual_displacement: Vec3::ZERO,
    }
}

#[test]
fn landing_cancels_falling_velocity() {
    let v = velocity_response(&result(true, false, false), false, true, false);
    assert!(v.zero_vertical);
    assert!(!v.damp_horizontal);
    // a jump that starts on the ground keeps its upward velocity
    assert!(!velocity_response(&result(true, false, false), true, false, false).zero_vertical);
}

#[test]
fn ceiling_cancels_rising_velocity() {
    assert!(velocity_response(&result(false, true, false), true, false, false).zero_vertical);
    assert!(!velocity_response(&result(false, true, false), false, true, false).zero_vertical);
    assert!(!velocity_response(&result(false, false, false), true, false, false).zero_vertical);
}

#[test]
fn blocked_motion_on_non_walkable_surface_is_damped() {
    assert!(velocity_response(&result(false, false, true), false, true, true).damp_horizontal);
    assert!(!velocity_response(&result(false, false, true), false, true, false).damp_horizontal);
    assert!(!velocity_response(&result(false, false, false), false, true, true).damp_horizontal);
}

#[test]
fn pass_budget_bounds_the_number_of_slides() {
    let mut s = SweepPassState::start(SweepPass::Side, 3, false, NonWalkableMode::PreventClimbingAndForceSliding, true);
    let mut c = ContactState::new(None);
    let mut slides = 0;
    while !s.is_finished() {
        if let SweepAction::Slide { .. } = s.step(&mut c, hit(2, false)) {
            slides += 1;
        }
        assert!(slides <= 3);
    }
    assert_eq!(slides, 3);
}

#[test]
fn grounded_step_attempt_runs_up_side_down() {
    let mut a = AttemptState::start(&setup());
    let up = a.next_pass().unwrap();
    assert_eq!(up.pass, SweepPass::Up);
    assert_eq!(up.max_iterations, 1);
    assert_eq!(up.motion, PassMotion { vertical: false, horizontal: false, step: StepMotion::Raise });
    a.finish_pass(false);
    let side = a.next_pass().unwrap();
    assert_eq!(side.pass, SweepPass::Side);
    assert_eq!(side.max_iterations, 4);
    assert_eq!(side.motion, PassMotion { vertical: false, horizontal: true, step: StepMotion::Zero });
    a.finish_pass(true);
    let down = a.next_pass().unwrap();
    assert_eq!(down.pass, SweepPass::Down);
    assert_eq!(down.max_iterations, 1);
    assert_eq!(down.motion, PassMotion { vertical: true, horizontal: false, step: StepMotion::LowerByRise });
    a.finish_pass(true);
    assert!(a.next_pass().is_none());
    let o = a.outcome(true, &measures(), &ContactState::new(Some(floor())));
    assert!(o.hit_non_walkable);
    assert_eq!(o.collision_flags, CharacterCollisionFlags { up: false, sides: true, down: true });
}

#[test]
fn standing_still_attempt_only_runs_down_pass() {
    let s = AttemptSetup {
        has_horizontal_motion: false,
        has_step_offset: false,
        ..setup()
    };
    let mut a = AttemptState::start(&s);
    let down = a.next_pass().unwrap();
    assert_eq!(down.pass, SweepPass::Down);
    assert_eq!(down.motion, PassMotion { vertical: true, horizontal: false, step: StepMotion::Zero });
    a.finish_pass(true);
    assert!(a.next_pass().is_none());
    let o = a.outcome(true, &gentle_measures(), &ContactState::new(Some(floor())));
    assert_eq!(o.collision_flags, CharacterCollisionFlags { up: false, sides: false, down: true });
    assert!(!o.hit_non_walkable);
}

#[test]
fn jump_attempt_carries_the_vertical_part_up() {
    let s = AttemptSetup { is_moving_up: true, has_horizontal_motion: false, ..setup() };
    let mut a = AttemptState::start(&s);
    let up = a.next_pass().unwrap();
    assert_eq!(up.pass, SweepPass::Up);
    assert_eq!(up.motion, PassMotion { vertical: true, horizontal: false, step: StepMotion::Zero });
    a.finish_pass(true);
    let down = a.next_pass().unwrap();
    assert_eq!(down.pass, SweepPass::Down);
    assert_eq!(down.motion, PassMotion { vertical: false, horizontal: false, step: StepMotion::Zero });
    a.finish_pass(false);
    let o = a.outcome(false, &gentle_measures(), &ContactState::new(None));
    assert!(o.collision_flags.up);
    assert!(!o.collision_flags.down);
}

#[test]
fn move_without_trouble_makes_one_attempt() {
    let mut m = MoveState::start(NonWalkableMode::PreventClimbing, 4);
    assert_eq!(m.next_attempt(), Some(AttemptOrder::Original));
    m.finish_attempt(outcome(false, true));
    assert_eq!(m.next_attempt(), None);
    let r = m.result(Vec3::Y, Vec3::X);
    assert!(!r.hit_non_walkable);
    assert!(r.collision_flags.down);
    assert_eq!(r.final_position, Vec3::Y);
}

#[test]
fn move_onto_steep_slope_retries_then_recovers() {
    let mut m = MoveState::start(NonWalkableMode::PreventClimbingAndForceSliding, 4);
    assert_eq!(m.next_attempt(), Some(AttemptOrder::Original));
    m.finish_attempt(outcome(true, true));
    assert_eq!(
        m.next_attempt(),
        Some(AttemptOrder::Retry(RetryDisplacement::VerticalOnly))
    );
    // the retry hits a non-walkable surface again: a recovery sweep follows
    m.finish_attempt(AttemptOutcome { ground: Some(floor()), ..outcome(true, false) });
    assert_eq!(m.next_attempt(), Some(AttemptOrder::Recovery { max_iterations: 4 }));
    m.finish_recovery(Some(Ground::new(Entity::from_raw(5), Dir3::Y)));
    assert_eq!(m.next_attempt(), None);
    let r = m.result(Vec3::ZERO, Vec3::ZERO);
    assert!(r.hit_non_walkable);
    assert!(!r.collision_flags.down);
    assert_eq!(r.ground.map(|g| g.entity), Some(Entity::from_raw(5)));
}

#[test]
fn walkable_retry_needs_no_recovery() {
    let mut m = MoveState::start(NonWalkableMode::PreventClimbing, 4);
    m.finish_attempt(outcome(true, true));
    m.finish_attempt(AttemptOutcome { ground: Some(floor()), ..outcome(false, true) });
    assert_eq!(m.next_attempt(), None);
    let r = m.result(Vec3::ZERO, Vec3::ZERO);
    assert!(r.hit_non_walkable);
    assert!(r.collision_flags.down);
    assert_eq!(r.ground.map(|g| g.entity), Some(Entity::from_raw(1)));
}

#[test]
fn steep_high_ground_below_is_non_walkable_without_side_hit() {
    let p = plan_attempt(&setup());
    let r = PassReport {
        side_hit: false,
        measures: ContactMeasures {
            down_too_high: true,
            steep_down_contact: true,
            ..gentle_measures()
        },
        ..report()
    };
    let mut c = ContactState::new(None);
    c.validate_triangle_down = true;
    let o = attempt_outcome(&p, &r, &c);
    assert!(o.hit_non_walkable);
    assert_eq!(o.collision_flags, CharacterCollisionFlags { up: false, sides: false, down: true });
    // the same contact, but low or gentle, or not recorded, is walkable
    let low = PassReport {
        measures: ContactMeasures { down_too_high: false, ..r.measures },
        ..r
    };
    assert!(!attempt_outcome(&p, &low, &c).hit_non_walkable);
    let gentle = PassReport {
        measures: ContactMeasures { steep_down_contact: false, ..r.measures },
        ..r
    };
    assert!(!attempt_outcome(&p, &gentle, &c).hit_non_walkable);
    assert!(!attempt_outcome(&p, &r, &ContactState::new(None)).hit_non_walkable);
}

#[test]
fn down_pass_sweep_records_contact_that_slope_validation_reads() {
    let mut s = SweepPassState::start(SweepPass::Down, 1, false, NonWalkableMode::PreventClimbing, true);
    let mut c = ContactState::new(None);
    s.step(&mut c, hit(5, false));
    let mut a = AttemptState::start(&AttemptSetup {
        has_horizontal_motion: false,
        has_step_offset: false,
        ..setup()
    });
    a.finish_pass(true);
    let o = a.outcome(
        true,
        &ContactMeasures { down_too_high: true, steep_down_contact: true, ..gentle_measures() },
        &c,
    );
    assert!(o.hit_non_walkable);
}

#[test]
fn walk_experiment_down_pass_flattens_unless_forced_sliding() {
    let mut s = SweepPassState::start(SweepPass::Down, 4, true, NonWalkableMode::PreventClimbing, true);
    let mut c = ContactState::new(None);
    assert_eq!(
        s.step(&mut c, hit(2, false)),
        SweepAction::Slide { flatten_normal: true, record_contact: true }
    );
    let mut f = SweepPassState::start(
        SweepPass::Down,
        4,
        true,
        NonWalkableMode::PreventClimbingAndForceSliding,
        true,
    );
    assert_eq!(
        f.step(&mut c, hit(2, false)),
        SweepAction::Slide { flatten_normal: false, record_contact: true }
    );
    let mut n = SweepPassState::start(SweepPass::Down, 4, false, NonWalkableMode::PreventClimbing, true);
    assert_eq!(
        n.step(&mut c, hit(2, false)),
        SweepAction::Slide { flatten_normal: false, record_contact: true }
    );
}

#[test]
fn prevent_climbing_retries_with_the_same_displacement() {
    let mut m = MoveState::start(NonWalkableMode::PreventClimbing, 4);
    m.finish_attempt(outcome(true, true));
    assert_eq!(m.next_attempt(), Some(AttemptOrder::Retry(RetryDisplacement::Unchanged)));
}
