use bevy::ecs::entity::Entity;
use bevy::time::{Timer, TimerMode};
use root_attribute::effect::{
    application_steps, all_pass, persistent_effect_action, tick_effect_duration,
    tick_effect_ticker, EffectApplicationPolicy, EffectDuration, EffectInactive,
    EffectStackingPolicy, EffectStatusParamItem, EffectTargeting, EffectTicker,
    PersistentEffectAction, StackingError, Stacks,
};
use root_attribute::calculator::AdditiveStage;
use root_attribute::expression::ExpressionError;
use root_attribute::modifier::ModOp;
use std::time::Duration;

fn entity(row: u32) -> Entity {
    Entity::from_raw_u32(row).unwrap()
}

#[test]
fn temporary_policy_expires_and_resets() {
    let mut policy = EffectApplicationPolicy::Temporary { duration: Timer::from_seconds(1.0, TimerMode::Once) };
    assert!(!policy.is_expired());
    assert!(!policy.is_periodic());
    assert!(!policy.should_apply_now());
    if let EffectApplicationPolicy::Temporary { duration } = &mut policy {
        duration.tick(Duration::from_secs_f32(1.5));
    }
    assert!(policy.is_expired());
    policy.reset();
    assert!(!policy.is_expired());
}

#[test]
fn instant_and_permanent_policies() {
    let mut instant = EffectApplicationPolicy::instant();
    assert!(instant.is_expired());
    assert!(instant.should_apply_now());
    instant.reset();
    assert!(instant.is_expired());
    let permanent = EffectApplicationPolicy::permanent();
    assert!(!permanent.is_expired());
    assert!(!permanent.should_apply_now());
    assert_eq!(application_steps(&instant), (true, false));
    assert_eq!(application_steps(&permanent), (false, true));
}

#[test]
fn periodic_policy_applies_on_interval() {
    let mut policy = EffectApplicationPolicy::PeriodicTemporary {
        interval: Timer::from_seconds(1.0, TimerMode::Repeating),
        duration: Timer::from_seconds(3.0, TimerMode::Once),
    };
    assert!(policy.is_periodic());
    assert!(!policy.should_apply_now());
    if let EffectApplicationPolicy::PeriodicTemporary { interval, .. } = &mut policy {
        interval.tick(Duration::from_secs_f32(1.1));
    }
    assert!(policy.should_apply_now());
    assert_eq!(application_steps(&policy), (true, true));
    let (duration, ticker) = policy.to_bundles();
    assert_eq!(duration.unwrap().0.duration(), Duration::from_secs(3));
    assert_eq!(ticker.unwrap().0.duration(), Duration::from_secs(1));
}

#[test]
fn durations_tick_and_expire() {
    let mut duration = EffectDuration::new(&Timer::from_seconds(2.0, TimerMode::Once));
    assert!(!tick_effect_duration(&mut duration, Duration::from_secs(1)));
    assert!(tick_effect_duration(&mut duration, Duration::from_secs(1)));
    let mut ticker = EffectTicker::new(&Timer::from_seconds(1.0, TimerMode::Repeating));
    tick_effect_ticker(&mut ticker, Duration::from_millis(1500));
    assert!(ticker.0.just_finished());
}

#[test]
fn add_stacking_clamps_between_one_and_maximum() {
    let policy = EffectStackingPolicy::Add { count: 2, max_stack: 4 };
    let mut stacks = Some(Stacks::default());
    let mut duration: Option<EffectDuration> = None;
    assert_eq!(Stacks::apply_stacking_policy(&policy, &mut stacks, &mut duration), Ok(()));
    assert_eq!(stacks, Some(Stacks::new(3)));
    assert_eq!(Stacks::apply_stacking_policy(&policy, &mut stacks, &mut duration), Ok(()));
    assert_eq!(stacks, Some(Stacks::new(4)));
    let mut zero = Some(Stacks::new(0));
    let none = EffectStackingPolicy::Add { count: 0, max_stack: 4 };
    assert_eq!(Stacks::apply_stacking_policy(&none, &mut zero, &mut duration), Ok(()));
    assert_eq!(zero.unwrap().current_value(), 1);
    let mut missing: Option<Stacks> = None;
    assert_eq!(
        Stacks::apply_stacking_policy(&policy, &mut missing, &mut duration),
        Err(StackingError::MissingStacks)
    );
}

#[test]
fn refresh_and_independent_policies() {
    let mut stacks = Some(Stacks::new(2));
    let mut timer = Timer::from_seconds(1.0, TimerMode::Once);
    timer.tick(Duration::from_secs(2));
    let mut duration = Some(EffectDuration(timer));
    assert!(duration.as_ref().unwrap().0.is_finished());
    let refresh = EffectStackingPolicy::RefreshDuration;
    assert_eq!(Stacks::apply_stacking_policy(&refresh, &mut stacks, &mut duration), Ok(()));
    assert!(!duration.as_ref().unwrap().0.is_finished());
    assert_eq!(stacks, Some(Stacks::new(2)));
    let mut no_duration: Option<EffectDuration> = None;
    assert_eq!(
        Stacks::apply_stacking_policy(&refresh, &mut stacks, &mut no_duration),
        Err(StackingError::MissingDuration)
    );
    assert_eq!(
        Stacks::apply_stacking_policy(&EffectStackingPolicy::Independent, &mut stacks, &mut duration),
        Err(StackingError::IncompatiblePolicy)
    );
}

#[test]
fn persistent_effects_stack_on_the_first_matching_effect() {
    let (a, b, c) = (entity(1), entity(2), entity(3));
    let on_actor = vec![(a, false), (b, true), (c, true)];
    let add = EffectStackingPolicy::Add { count: 1, max_stack: 3 };
    assert!(matches!(persistent_effect_action(&add, &on_actor), PersistentEffectAction::AddStack(e) if e == b));
    assert!(matches!(
        persistent_effect_action(&EffectStackingPolicy::Independent, &on_actor),
        PersistentEffectAction::Spawn
    ));
    assert!(matches!(
        persistent_effect_action(&EffectStackingPolicy::RefreshDuration, &vec![(a, false)]),
        PersistentEffectAction::Spawn
    ));
}

#[test]
fn condition_results_default_on_error() {
    let results = vec![Ok(true), Err(ExpressionError::AttributeNotFound)];
    assert!(!all_pass(&results, false));
    assert!(all_pass(&results, true));
    assert!(!all_pass(&vec![Ok(true), Ok(false)], true));
    assert!(all_pass(&vec![], false));
}

#[test]
fn targeting_detects_self_casts() {
    let (a, b) = (entity(1), entity(2));
    let t = EffectTargeting::new(a, a);
    assert!(matches!(t, EffectTargeting::SelfCast(_)));
    assert_eq!((t.source(), t.target()), (a, a));
    let t = EffectTargeting::new(a, b);
    assert!(matches!(t, EffectTargeting::Targeted { .. }));
    assert_eq!((t.source(), t.target()), (a, b));
    assert!(EffectTargeting::try_new(Entity::PLACEHOLDER, b).is_none());
    assert!(EffectTargeting::try_new(a, b).is_some());
}

#[test]
fn effect_status_query_items() {
    let ticker = EffectTicker(Timer::from_seconds(1.0, TimerMode::Repeating));
    let item = EffectStatusParamItem { inactive: Some(&EffectInactive), periodic: None };
    assert!(item.is_inactive());
    assert!(!item.is_periodic());
    let item = EffectStatusParamItem { inactive: None, periodic: Some(&ticker) };
    assert!(!item.is_inactive());
    assert!(item.is_periodic());
}

#[test]
fn test_instant_effect_application() {
    // The actor's integer attribute starts at 50.
    let init_value: u32 = 50;
    let modifier_value: u32 = 10;
    let policy = EffectApplicationPolicy::instant();
    // An instant effect is applied right away and spawns no persistent effect.
    assert_eq!(application_steps(&policy), (true, false));
    // It has no attach conditions, so nothing stops it.
    assert!(all_pass(&vec![], false));
    let stage = AdditiveStage::convert(ModOp::Add, modifier_value).unwrap();
    assert_eq!(stage.eval(init_value), init_value + modifier_value);
}

#[test]
fn refreshing_a_duration_restarts_it() {
    let mut timer = Timer::from_seconds(2.0, TimerMode::Once);
    timer.tick(Duration::from_secs_f32(1.5));
    let mut duration = Some(EffectDuration(timer));
    let mut stacks = Some(Stacks::new(2));
    assert!(Stacks::apply_stacking_policy(&EffectStackingPolicy::RefreshDuration, &mut stacks, &mut duration).is_ok());
    let d = duration.unwrap();
    assert_eq!(d.0.elapsed(), Duration::ZERO);
    assert_eq!(d.0.duration(), Duration::from_secs(2));
    assert_eq!(d.0.mode(), TimerMode::Once);
    assert_eq!(stacks, Some(Stacks::new(2)));
}

#[test]
fn modifiers_go_to_the_chosen_actor() {
    let targeting = EffectTargeting::new(entity(1), entity(2));
    assert_eq!(root_attribute::effect::ModTarget::Target.actor(&targeting), entity(2));
    assert_eq!(root_attribute::effect::ModTarget::Source.actor(&targeting), entity(1));
    let self_cast = EffectTargeting::new(entity(4), entity(4));
    assert_eq!(root_attribute::effect::ModTarget::Source.actor(&self_cast), entity(4));
}

#[test]
fn ticking_follows_the_timer_rules() {
    // A one-shot duration expires on the tick that reaches its length.
    let mut d = EffectDuration::new(&Timer::from_seconds(1.0, TimerMode::Once));
    assert!(!tick_effect_duration(&mut d, Duration::from_millis(400)));
    assert!(tick_effect_duration(&mut d, Duration::from_millis(600)));
    assert_eq!(d.0.elapsed(), Duration::from_secs(1));
    // Once finished it stays finished, and is no longer "just finished".
    assert!(tick_effect_duration(&mut d, Duration::from_millis(600)));
    assert!(!d.0.just_finished());
    // A repeating interval keeps the remainder and is just finished.
    let mut t = EffectTicker::new(&Timer::from_seconds(1.0, TimerMode::Repeating));
    tick_effect_ticker(&mut t, Duration::from_millis(2500));
    assert!(t.0.just_finished());
    assert_eq!(t.0.elapsed(), Duration::from_millis(500));
    tick_effect_ticker(&mut t, Duration::from_millis(100));
    assert!(!t.0.just_finished());
    assert!(!t.0.is_finished());
}
