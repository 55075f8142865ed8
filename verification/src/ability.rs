use crate::ecs::{entity_eq, entity_text, entity_to_string, timer_finished, timer_is_finished};
use vstd::string::StringExecFns;
use crate::effect::{all_pass, spec_all_pass};
use crate::expression::ExpressionError;
use bevy::ecs::entity::Entity;
use bevy::time::Timer;
use vstd::prelude::*;

verus! {

/// Whom an ability is activated on.
#[derive(Debug, Clone, Copy)]
pub enum TargetData {
    SelfCast,
    Target(Entity),
}

/// The cooldown timer of an ability.
pub struct AbilityCooldown {
    pub timer: Timer,
}

/// Why an ability operation failed.
#[derive(Debug, Clone, Copy)]
pub enum AbilityError {
    GrantingAbilityToNonActor(Entity),
    AbilityDoesNotExist(Entity),
}

impl AbilityError {
    /// The message the error is displayed with.
    pub open spec fn spec_message(self) -> Seq<char> {
        match self {
            AbilityError::GrantingAbilityToNonActor(e) => entity_text(e)
                + ": Cannot grant ability to entities that are not actors. with TypeId  not present on entity."@,
            AbilityError::AbilityDoesNotExist(e) => entity_text(e)
                + ": The entity is not an ability (e.g. No Ability component)."@,
        }
    }

    /// The message the error is displayed with: the entity, then what went wrong.
    pub fn message(&self) -> (r: String)
        ensures
            r@ == self.spec_message(),
    {
        match self {
            AbilityError::GrantingAbilityToNonActor(e) => entity_to_string(e).concat(
                ": Cannot grant ability to entities that are not actors. with TypeId  not present on entity.",
            ),
            AbilityError::AbilityDoesNotExist(e) => entity_to_string(e).concat(
                ": The entity is not an ability (e.g. No Ability component).",
            ),
        }
    }
}

/// Whether an ability is off cooldown: one without a cooldown always is.
pub fn cooldown_finished(cooldown: Option<&AbilityCooldown>) -> (r: bool)
    ensures
        r == match cooldown {
            None => true,
            Some(cd) => timer_finished(cd.timer),
        },
{
    match cooldown {
        None => true,
        Some(cd) => timer_is_finished(&cd.timer),
    }
}

/// Whether an ability can be activated: its activation conditions must hold and every
/// cost condition must be met; a condition that fails to evaluate counts as not met.
pub fn can_activate_ability(
    conditions: Result<bool, ExpressionError>,
    cost_conditions: &Vec<Result<bool, ExpressionError>>,
) -> (r: bool)
    ensures
        r == (conditions == Ok::<bool, ExpressionError>(true) && spec_all_pass(
            cost_conditions@,
            false,
        )),
{
    let meet_conditions = match conditions {
        Ok(b) => b,
        Err(_) => false,
    };
    if !meet_conditions {
        return false;
    }
    all_pass(cost_conditions, false)
}

/// Whether an ability is activated when a request reaches it: off cooldown and activatable.
pub fn should_activate_ability(
    cooldown: Option<&AbilityCooldown>,
    conditions: Result<bool, ExpressionError>,
    cost_conditions: &Vec<Result<bool, ExpressionError>>,
) -> (r: bool)
    ensures
        r == (match cooldown {
            None => true,
            Some(cd) => timer_finished(cd.timer),
        } && conditions == Ok::<bool, ExpressionError>(true) && spec_all_pass(
            cost_conditions@,
            false,
        )),
{
    if !cooldown_finished(cooldown) {
        return false;
    }
    can_activate_ability(conditions, cost_conditions)
}

/// The entity an ability targets: the caster for a self cast, the given entity otherwise.
pub fn resolve_target(caster: Entity, target_data: &TargetData) -> (r: Entity)
    ensures
        r == match *target_data {
            TargetData::SelfCast => caster,
            TargetData::Target(t) => t,
        },
{
    match target_data {
        TargetData::SelfCast => caster,
        TargetData::Target(t) => *t,
    }
}

/// The separate target an activated ability writes to: none when the caster targets itself.
pub fn activation_target(source: Entity, target: Entity) -> (r: Option<Entity>)
    ensures
        r == if source == target {
            None
        } else {
            Some(target)
        },
{
    if entity_eq(&source, &target) {
        None
    } else {
        Some(target)
    }
}

/// Abilities can only be granted to actors.
pub fn check_grant_target(target_is_actor: bool, target: Entity) -> (r: Result<(), AbilityError>)
    ensures
        target_is_actor ==> r is Ok,
        !target_is_actor ==> r == Err::<(), AbilityError>(AbilityError::GrantingAbilityToNonActor(target)),
{
    if !target_is_actor {
        return Err(AbilityError::GrantingAbilityToNonActor(target));
    }
    Ok(())
}

} // verus!
