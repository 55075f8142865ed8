use root_attribute::attributes::{AttributeSnapshot, AttributeTypeId, AttributesRef};
use root_attribute::meta_modifiers::{EvaluateMetaMod, MetaMod, MetaModEvaluator};

const HEALTH: AttributeTypeId = AttributeTypeId(1);
const HEALTH_REGEN: AttributeTypeId = AttributeTypeId(2);

fn entity(health: i32, regen: i32) -> AttributesRef<i32> {
    AttributesRef {
        attributes: vec![
            AttributeSnapshot { id: HEALTH, base_value: health, current_value: health },
            AttributeSnapshot { id: HEALTH_REGEN, base_value: regen, current_value: regen },
        ],
        components: vec![],
        stacks: None,
    }
}

#[test]
fn test_meta_attribute_world() {
    let mut entity = entity(0, 10);
    assert_eq!(entity.get(HEALTH).unwrap().base_value, 0);
    let meta_mod = MetaMod::new(HEALTH, HEALTH_REGEN, MetaModEvaluator::new());
    meta_mod.apply(&mut entity);
    assert_eq!(entity.get(HEALTH).unwrap().base_value, 10);
    assert_eq!(entity.get(HEALTH).unwrap().current_value, 0);
    assert_eq!(entity.get(HEALTH_REGEN).unwrap().base_value, 10);
}

#[test]
fn meta_mod_scales_by_magnitude() {
    let mut entity = entity(5, 7);
    let meta_mod = MetaMod::new(HEALTH, HEALTH_REGEN, MetaModEvaluator { magnitude: -3 });
    meta_mod.apply(&mut entity);
    assert_eq!(entity.get(HEALTH).unwrap().base_value, -21);
    assert_eq!(entity.get(HEALTH).unwrap().current_value, 5);
}

#[test]
fn evaluator_sets_base_value_only() {
    let evaluator: MetaModEvaluator<u32> = MetaModEvaluator::new();
    let mut target = AttributeSnapshot { id: HEALTH, base_value: 1, current_value: 2 };
    evaluator.evaluate(&mut target, 9);
    assert_eq!(target.base_value, 9);
    assert_eq!(target.current_value, 2);
}
