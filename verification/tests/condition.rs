use root_attribute::attributes::{AttributeSnapshot, AttributeTypeId, AttributesRef};
use root_attribute::condition::{
    all_conditions_hold, bounds_contains, effect_status_change, AttributeCondition, Bound,
    Condition, ConditionContext, ConditionExt, HasComponent, IsAttributeWithinBounds,
    StackCondition, StatusChange, TagCondition,
};
use root_attribute::context::EffectExprContext;
use root_attribute::expression::{ExpressionError, ReflectFailure};
use root_attribute::modifier::{EffectSubject, Who};

const HEALTH: AttributeTypeId = AttributeTypeId(10);
const MANA: AttributeTypeId = AttributeTypeId(11);
const STUNNED: u64 = 77;

fn actor(health: u32, components: Vec<u64>, stacks: Option<u32>) -> AttributesRef<u32> {
    AttributesRef {
        attributes: vec![AttributeSnapshot { id: HEALTH, base_value: health, current_value: health + 5 }],
        components,
        stacks,
    }
}

#[test]
fn bounds_follow_range_semantics() {
    let range = (Bound::Included(10u32), Bound::Excluded(20u32));
    assert!(!bounds_contains(&range, 9));
    assert!(bounds_contains(&range, 10));
    assert!(bounds_contains(&range, 19));
    assert!(!bounds_contains(&range, 20));
    let from = (Bound::Excluded(-5i32), Bound::Unbounded);
    assert!(!bounds_contains(&from, -5));
    assert!(bounds_contains(&from, i32::MAX));
    let up_to = (Bound::Unbounded, Bound::Included(0i8));
    assert!(bounds_contains(&up_to, i8::MIN));
    assert!(!bounds_contains(&up_to, 1));
}

#[test]
fn attribute_condition_reads_current_value_of_chosen_entity() {
    let target = actor(100, vec![], None);
    let source = actor(10, vec![], None);
    let owner = actor(0, vec![], Some(2));
    let ctx = ConditionContext { target_actor: &target, source_actor: &source, owner: &owner };
    // Current values are 105 (target) and 15 (source).
    let c = AttributeCondition::target((Bound::Included(105), Bound::Unbounded), HEALTH);
    assert!(c.evaluate(&ctx));
    let c = AttributeCondition::source((Bound::Included(105), Bound::Unbounded), HEALTH);
    assert!(!c.evaluate(&ctx));
    let missing = AttributeCondition::target((Bound::Unbounded, Bound::Unbounded), MANA);
    assert!(!missing.evaluate(&ctx));
}

#[test]
fn stack_and_tag_conditions() {
    let target = actor(1, vec![STUNNED], None);
    let owner = actor(1, vec![], Some(3));
    let no_stacks = actor(1, vec![], None);
    let ctx = ConditionContext { target_actor: &target, source_actor: &target, owner: &owner };
    assert!(StackCondition::new((Bound::Included(2), Bound::Included(3))).evaluate(&ctx));
    assert!(!StackCondition::new((Bound::Included(4), Bound::Unbounded)).evaluate(&ctx));
    let ctx2 = ConditionContext { target_actor: &target, source_actor: &target, owner: &no_stacks };
    assert!(!StackCondition::new((Bound::Unbounded, Bound::Unbounded)).evaluate(&ctx2));
    assert!(TagCondition { target: Who::Target, component: STUNNED }.evaluate(&ctx));
    assert!(!TagCondition { target: Who::Owner, component: STUNNED }.evaluate(&ctx));
}

#[test]
fn combinators_and_lists() {
    let a = actor(50, vec![STUNNED], Some(1));
    let ctx = ConditionContext { target_actor: &a, source_actor: &a, owner: &a };
    let yes = TagCondition { target: Who::Source, component: STUNNED };
    let no = TagCondition { target: Who::Source, component: 1 };
    assert!(!ConditionExt::<u32>::and(TagCondition { target: Who::Source, component: STUNNED }, no).evaluate(&ctx));
    assert!(ConditionExt::<u32>::or(TagCondition { target: Who::Source, component: 1 }, yes).evaluate(&ctx));
    assert!(ConditionExt::<u32>::not(TagCondition { target: Who::Source, component: 1 }).evaluate(&ctx));
    let all = vec![
        TagCondition { target: Who::Source, component: STUNNED },
        TagCondition { target: Who::Target, component: STUNNED },
    ];
    assert!(all_conditions_hold(&all, &ctx));
    let some = vec![
        TagCondition { target: Who::Source, component: STUNNED },
        TagCondition { target: Who::Target, component: 2 },
    ];
    assert!(!all_conditions_hold(&some, &ctx));
    let none: Vec<TagCondition> = vec![];
    assert!(all_conditions_hold(&none, &ctx));
}

#[test]
fn effect_status_changes_settle() {
    assert_eq!(effect_status_change(true, true), StatusChange::Activate);
    assert_eq!(effect_status_change(false, false), StatusChange::Deactivate);
    assert_eq!(effect_status_change(true, false), StatusChange::Unchanged);
    assert_eq!(effect_status_change(false, true), StatusChange::Unchanged);
}

#[test]
fn within_bounds_reads_current_value_and_reports_missing_attribute() {
    // Base values 145 and 10; current values 150 and 15.
    let target = actor(145, vec![], None);
    let source = actor(10, vec![STUNNED], None);
    let ctx = EffectExprContext { source_actor: &source, target_actor: &target, effect_holder: &source };
    let c = IsAttributeWithinBounds::target((Bound::Included(150), Bound::Unbounded), HEALTH);
    assert_eq!(c.eval(&ctx), Ok(true));
    let c = IsAttributeWithinBounds::target((Bound::Unbounded, Bound::Included(145)), HEALTH);
    assert_eq!(c.eval(&ctx), Ok(false));
    let c = IsAttributeWithinBounds::source((Bound::Included(150), Bound::Unbounded), HEALTH);
    assert_eq!(c.eval(&ctx), Ok(false));
    let c = IsAttributeWithinBounds::<u32>::target((Bound::Unbounded, Bound::Unbounded), MANA);
    assert_eq!(c.eval(&ctx), Err(ExpressionError::FailedReflect(ReflectFailure::MissingComponent)));
    assert_eq!(
        ExpressionError::FailedReflect(ReflectFailure::MissingComponent).message(),
        "The entity has no component the requested type."
    );
    // HasComponent looks at the source in an effect's context.
    assert_eq!(HasComponent::target(STUNNED).eval(&ctx), Ok(true));
    assert_eq!(HasComponent::effect(3).eval(&ctx), Ok(false));
}

fn single_attribute(id: AttributeTypeId, base: i64, current: i64) -> AttributesRef<i64> {
    AttributesRef {
        attributes: vec![AttributeSnapshot { id, base_value: base, current_value: current }],
        components: vec![],
        stacks: None,
    }
}

#[test]
fn systems_test_attribute_condition() {
    // The effect is active while the source's attribute is at least 50.
    let condition = IsAttributeWithinBounds::source((Bound::Included(50i64), Bound::Unbounded), HEALTH);
    let holder = single_attribute(MANA, 0, 0);

    // A freshly spawned effect has no inactive marker; the actor starts at 0.
    let actor = single_attribute(HEALTH, 0, 0);
    let ctx = EffectExprContext { source_actor: &actor, target_actor: &actor, effect_holder: &holder };
    let should_be_active = condition.eval(&ctx).unwrap_or(false);
    assert_eq!(effect_status_change(should_be_active, false), StatusChange::Deactivate);

    // The permanent increase effect's modifier raises the current value to 100;
    // the base value stays 0.
    let actor = single_attribute(HEALTH, 0, 100);
    let ctx = EffectExprContext { source_actor: &actor, target_actor: &actor, effect_holder: &holder };
    let should_be_active = condition.eval(&ctx).unwrap_or(false);
    assert_eq!(effect_status_change(should_be_active, true), StatusChange::Activate);
}

#[test]
fn global_effect_test_attribute_condition() {
    // The effect is active while the target's attribute is at least 150.
    let condition = AttributeCondition::target((Bound::Included(150i64), Bound::Unbounded), HEALTH);
    let holder = single_attribute(MANA, 0, 0);

    let actor = single_attribute(HEALTH, 0, 0);
    let ctx = ConditionContext { target_actor: &actor, source_actor: &actor, owner: &holder };
    assert_eq!(effect_status_change(condition.evaluate(&ctx), false), StatusChange::Deactivate);

    // The permanent increase effect's modifier raises the current value to 200;
    // the base value stays 0.
    let actor = single_attribute(HEALTH, 0, 200);
    let ctx = ConditionContext { target_actor: &actor, source_actor: &actor, owner: &holder };
    assert_eq!(effect_status_change(condition.evaluate(&ctx), true), StatusChange::Activate);
}

#[test]
fn within_bounds_conditions_describe_their_range() {
    let c = IsAttributeWithinBounds::target((Bound::Included(150i32), Bound::Unbounded), HEALTH);
    assert_eq!(c.to_string("Health"), "Attribute Health on Target in range [150, \u{221e})");
    let c = IsAttributeWithinBounds::source((Bound::Unbounded, Bound::Excluded(-3i32)), MANA);
    assert_eq!(c.to_string("Mana"), "Attribute Mana on Source in range (-\u{221e}, -3[");
    let c = IsAttributeWithinBounds::new((Bound::Excluded(1u8), Bound::Included(9u8)), MANA, EffectSubject::Effect);
    assert_eq!(c.to_string("Mana"), "Attribute Mana on Effect in range ]1, 9]");
}

#[test]
fn stack_conditions_describe_their_bounds() {
    let c = StackCondition::new((Bound::Included(2), Bound::Unbounded));
    assert_eq!(c.to_string(), "StackCondition with bounds: (Included(2), Unbounded)");
    let c = StackCondition::new((Bound::Excluded(0), Bound::Included(10)));
    assert_eq!(c.to_string(), format!("StackCondition with bounds: {:?}", (std::ops::Bound::Excluded(0u32), std::ops::Bound::Included(10u32))));
}
