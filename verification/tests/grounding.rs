use bevy::ecs::entity::Entity;
use bevy::math::Dir3;
use happy_feet::ground::{ground_transition, Ground, GroundTransition, Grounding, NonWalkableMode};
use happy_feet::movement::{
    acceleration_mode, begin_jump, gravity_applies, AccelerationMode, JumpPlan,
};
use happy_feet::stepping::{should_auto_step, SteppingBehaviour};

fn floor() -> Ground {
    Ground::new(Entity::from_raw(7), Dir3::Y)
}

fn ramp() -> Ground {
    Ground::new(Entity::from_raw(9), Dir3::X)
}

#[test]
fn ground_new_keeps_entity_and_normal() {
    let g = Ground::new(Entity::from_raw(3), Dir3::Z);
    assert_eq!(g.entity, Entity::from_raw(3));
    assert_eq!(g.normal, Dir3::Z);
}

#[test]
fn new_grounding_on_a_surface_is_grounded() {
    let g = Grounding::new(Some(floor()));
    assert!(g.is_grounded());
    assert_eq!(g.ground().map(|s| s.entity), Some(Entity::from_raw(7)));
    assert_eq!(g.normal(), Some(Dir3::Y));
    assert_eq!(g.entity(), Some(Entity::from_raw(7)));
    assert_eq!(g.inner_ground().map(|s| s.entity), Some(Entity::from_raw(7)));
}

#[test]
fn new_grounding_without_surface_is_airborne() {
    let g = Grounding::new(None);
    assert!(!g.is_grounded());
    assert!(g.ground().is_none());
    assert!(g.normal().is_none());
    assert!(g.entity().is_none());
    assert!(g.inner_ground().is_none());
}

#[test]
fn default_grounding_is_airborne() {
    let g = Grounding::default();
    assert!(!g.is_grounded());
    assert!(g.inner_ground().is_none());
}

#[test]
fn detach_releases_but_remembers_the_ground() {
    let mut g = Grounding::new(Some(floor()));
    let released = g.detach();
    assert_eq!(released.map(|s| s.entity), Some(Entity::from_raw(7)));
    assert!(!g.is_grounded());
    assert!(g.ground().is_none());
    assert!(g.normal().is_none());
    assert!(g.entity().is_none());
    assert_eq!(g.inner_ground().map(|s| s.entity), Some(Entity::from_raw(7)));
}

#[test]
fn detach_twice_reports_nothing_the_second_time() {
    let mut g = Grounding::new(Some(floor()));
    assert!(g.detach().is_some());
    assert!(g.detach().is_none());
    assert!(!g.is_grounded());
    assert_eq!(g.inner_ground().map(|s| s.entity), Some(Entity::from_raw(7)));
}

#[test]
fn detach_while_airborne_does_nothing() {
    let mut g = Grounding::new(None);
    assert!(g.detach().is_none());
    assert!(!g.is_grounded());
    assert!(g.inner_ground().is_none());
}

#[test]
fn grounding_from_ground_and_option() {
    let a = Grounding::from(floor());
    assert!(a.is_grounded());
    assert_eq!(a.entity(), Some(Entity::from_raw(7)));
    let b = Grounding::from(Some(ramp()));
    assert_eq!(b.normal(), Some(Dir3::X));
    let c = Grounding::from(None::<Ground>);
    assert!(!c.is_grounded());
}

#[test]
fn transition_landing_leaving_and_staying() {
    match ground_transition(None, Some(floor())) {
        GroundTransition::Entered(g) => assert_eq!(g.entity, Entity::from_raw(7)),
        other => panic!("expected Entered, got {:?}", other),
    }
    match ground_transition(Some(ramp()), None) {
        GroundTransition::Left(g) => assert_eq!(g.entity, Entity::from_raw(9)),
        other => panic!("expected Left, got {:?}", other),
    }
    assert!(matches!(ground_transition(None, None), GroundTransition::Unchanged));
    assert!(matches!(
        ground_transition(Some(floor()), Some(ramp())),
        GroundTransition::Unchanged
    ));
}

#[test]
fn defaults_of_modes() {
    assert_eq!(NonWalkableMode::default(), NonWalkableMode::PreventClimbing);
    assert_eq!(SteppingBehaviour::default(), SteppingBehaviour::Grounded);
}

#[test]
fn auto_step_needs_permission_horizontal_motion_and_no_rise() {
    assert!(should_auto_step(Some(SteppingBehaviour::Grounded), true, true, false));
    assert!(!should_auto_step(Some(SteppingBehaviour::Grounded), false, true, false));
    assert!(should_auto_step(Some(SteppingBehaviour::Always), false, true, false));
    assert!(!should_auto_step(Some(SteppingBehaviour::Never), true, true, false));
    assert!(!should_auto_step(None, true, true, false));
    // a jump cancels stepping
    assert!(!should_auto_step(Some(SteppingBehaviour::Always), true, true, true));
    // no horizontal motion, no step
    assert!(!should_auto_step(Some(SteppingBehaviour::Always), true, false, false));
}

#[test]
fn jump_without_ground_is_refused() {
    let mut g = Grounding::new(None);
    assert!(matches!(begin_jump(&mut g), JumpPlan::Refused));
    assert!(!g.is_grounded());
    assert!(g.inner_ground().is_none());
}

#[test]
fn jump_from_ground_detaches_and_pushes_off() {
    let mut g = Grounding::new(Some(ramp()));
    match begin_jump(&mut g) {
        JumpPlan::Launch { push_off } => {
            assert_eq!(push_off.map(|s| s.entity), Some(Entity::from_raw(9)))
        }
        JumpPlan::Refused => panic!("a grounded character must be able to jump"),
    }
    assert!(!g.is_grounded());
    assert_eq!(g.inner_ground().map(|s| s.entity), Some(Entity::from_raw(9)));
}

#[test]
fn second_jump_launches_without_push_off() {
    let mut g = Grounding::new(Some(floor()));
    let _ = begin_jump(&mut g);
    match begin_jump(&mut g) {
        JumpPlan::Launch { push_off } => assert!(push_off.is_none()),
        JumpPlan::Refused => panic!("the remembered ground still allows a jump"),
    }
}

#[test]
fn acceleration_modes() {
    assert!(matches!(acceleration_mode(false, true, None), AccelerationMode::Idle));
    assert!(matches!(
        acceleration_mode(true, true, Some(Grounding::new(Some(floor())))),
        AccelerationMode::Direct
    ));
    match acceleration_mode(true, false, Some(Grounding::new(Some(ramp())))) {
        AccelerationMode::AlongGround(n) => assert_eq!(n, Dir3::X),
        other => panic!("expected AlongGround, got {:?}", other),
    }
    assert!(matches!(
        acceleration_mode(true, false, Some(Grounding::new(None))),
        AccelerationMode::Horizontal
    ));
    assert!(matches!(acceleration_mode(true, false, None), AccelerationMode::Horizontal));
    let mut detached = Grounding::new(Some(floor()));
    detached.detach();
    assert!(matches!(
        acceleration_mode(true, false, Some(detached)),
        AccelerationMode::Horizontal
    ));
}

#[test]
fn gravity_only_while_not_grounded() {
    assert!(gravity_applies(None));
    assert!(gravity_applies(Some(Grounding::new(None))));
    assert!(!gravity_applies(Some(Grounding::new(Some(floor())))));
    let mut g = Grounding::new(Some(floor()));
    let _ = begin_jump(&mut g);
    assert!(gravity_applies(Some(g)));
}

#[test]
fn ground_and_grounding_compare_by_value() {
    assert_eq!(floor(), Ground::new(Entity::from_raw(7), Dir3::Y));
    assert_ne!(floor(), ramp());
    assert_eq!(Grounding::new(Some(floor())), Grounding::from(floor()));
    let mut g = Grounding::new(Some(floor()));
    g.detach();
    assert_ne!(g, Grounding::new(Some(floor())));
}
