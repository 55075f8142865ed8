use bevy::ecs::entity::Entity;
use bevy::time::{Timer, TimerMode};
use root_attribute::ability::{
    activation_target, can_activate_ability, check_grant_target, cooldown_finished,
    resolve_target, should_activate_ability, AbilityCooldown, AbilityError, TargetData,
};
use root_attribute::expression::ExpressionError;
use std::time::Duration;

fn entity(row: u32) -> Entity {
    Entity::from_raw_u32(row).unwrap()
}

#[test]
fn cooldowns_gate_activation() {
    let mut cd = AbilityCooldown { timer: Timer::from_seconds(1.0, TimerMode::Once) };
    assert!(cooldown_finished(None));
    assert!(!cooldown_finished(Some(&cd)));
    assert!(!should_activate_ability(Some(&cd), Ok(true), &vec![]));
    cd.timer.tick(Duration::from_secs(1));
    assert!(cooldown_finished(Some(&cd)));
    assert!(should_activate_ability(Some(&cd), Ok(true), &vec![Ok(true)]));
}

#[test]
fn conditions_and_costs_gate_activation() {
    assert!(can_activate_ability(Ok(true), &vec![Ok(true), Ok(true)]));
    assert!(!can_activate_ability(Ok(false), &vec![]));
    assert!(!can_activate_ability(Err(ExpressionError::InvalidTypes), &vec![]));
    assert!(!can_activate_ability(Ok(true), &vec![Ok(true), Err(ExpressionError::AttributeNotFound)]));
}

#[test]
fn targets_are_resolved() {
    let (a, b) = (entity(4), entity(5));
    assert_eq!(resolve_target(a, &TargetData::SelfCast), a);
    assert_eq!(resolve_target(a, &TargetData::Target(b)), b);
    assert_eq!(activation_target(a, a), None);
    assert_eq!(activation_target(a, b), Some(b));
}

#[test]
fn abilities_are_granted_to_actors_only() {
    let a = entity(9);
    assert!(check_grant_target(true, a).is_ok());
    assert!(matches!(check_grant_target(false, a), Err(AbilityError::GrantingAbilityToNonActor(e)) if e == a));
}

#[test]
fn ability_errors_name_the_entity() {
    let e = AbilityError::GrantingAbilityToNonActor(entity(3));
    assert_eq!(
        e.message(),
        "3v0: Cannot grant ability to entities that are not actors. with TypeId  not present on entity."
    );
    let e = AbilityError::AbilityDoesNotExist(Entity::PLACEHOLDER);
    assert_eq!(e.message(), "PLACEHOLDER: The entity is not an ability (e.g. No Ability component).");
}
