//! Engine types that the controller carries through its decisions without
//! looking inside them: entity handles, unit directions and vectors.

use bevy::ecs::entity::Entity;
use bevy::math::{Dir3, Vec3};
use vstd::prelude::*;

verus! {

/// An entity handle of the ECS world (a surface the character touched).
#[verifier::external_type_specification]
#[verifier::external_body]
pub struct ExEntity(Entity);

/// A unit-length direction (a surface normal).
#[verifier::external_type_specification]
#[verifier::external_body]
pub struct ExDir3(Dir3);

/// A three-component vector (a position or a displacement).
#[verifier::external_type_specification]
#[verifier::external_body]
pub struct ExVec3(Vec3);

} // verus!
