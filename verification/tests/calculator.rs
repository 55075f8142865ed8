use root_attribute::attributes::{AttributeSnapshot, AttributeTypeId, AttributesRef};
use root_attribute::calculator::{AdditiveStage, AttributeModifier};
use root_attribute::expression::{src, BinaryOp, EvalContext, Expr, IntExprNode};
use root_attribute::attributes::Value;
use root_attribute::modifier::{AccessModifier, EffectSubject, ModOp};

#[test]
fn convert_covers_additive_operations() {
    let s = AdditiveStage::convert(ModOp::Add, 10i32).unwrap();
    assert_eq!((s.set, s.additive, s.subtractive), (None, 10, 0));
    let s = AdditiveStage::convert(ModOp::Sub, 4i32).unwrap();
    assert_eq!((s.set, s.additive, s.subtractive), (None, 0, 4));
    let s = AdditiveStage::convert(ModOp::Assign, 42i32).unwrap();
    assert_eq!((s.set, s.additive, s.subtractive), (Some(42), 0, 0));
    assert!(AdditiveStage::convert(ModOp::Increase, 1i32).is_none());
    assert!(AdditiveStage::convert(ModOp::More, 2i32).is_none());
}

#[test]
fn eval_adds_then_subtracts() {
    let identity = AdditiveStage::<u32>::identity();
    assert_eq!(identity.eval(10), 10);
    let add = AdditiveStage::convert(ModOp::Add, 10u32).unwrap();
    assert_eq!(add.eval(10), 20);
    let sub = AdditiveStage::convert(ModOp::Sub, 15u32).unwrap();
    let both = add.combine(sub);
    // 10 + 10 - 15: the addition comes first, so no unsigned underflow.
    assert_eq!(both.eval(10), 5);
}

#[test]
fn overriding_value_wins_and_first_one_is_kept() {
    let set_42 = AdditiveStage::convert(ModOp::Assign, 42i64).unwrap();
    let set_7 = AdditiveStage::convert(ModOp::Assign, 7i64).unwrap();
    let add = AdditiveStage::convert(ModOp::Add, 100i64).unwrap();
    assert_eq!(set_42.combine(add).eval(0), 42);
    assert_eq!(add.combine(set_42).eval(-5), 42);
    assert_eq!(set_42.combine(set_7).eval(1), 42);
    assert_eq!(set_7.combine(set_42).eval(1), 7);
}

#[test]
fn combine_in_place_sums() {
    let mut acc = AdditiveStage::<i16>::identity();
    for v in [10i16, 20, 30] {
        acc.combine_in_place(&AdditiveStage::convert(ModOp::Add, v).unwrap());
    }
    acc.combine_in_place(&AdditiveStage::convert(ModOp::Sub, 5).unwrap());
    assert_eq!((acc.set, acc.additive, acc.subtractive), (None, 60, 5));
    assert_eq!(acc.eval(10), 65);
    // Applying two stages one after the other equals applying their combination.
    let a = AdditiveStage::convert(ModOp::Add, 3i16).unwrap();
    let b = AdditiveStage::convert(ModOp::Sub, 8i16).unwrap();
    assert_eq!(b.eval(a.eval(1)), a.combine(b).eval(1));
}

const DAMAGE: AttributeTypeId = AttributeTypeId(5);
const HEALTH: AttributeTypeId = AttributeTypeId(6);

#[test]
fn modifiers_update_their_value_from_the_expression() {
    let actor = AttributesRef {
        attributes: vec![AttributeSnapshot { id: DAMAGE, base_value: 7i32, current_value: 12 }],
        components: vec![],
        stacks: None,
    };
    let ctx = EvalContext { source_actor: &actor, target_actor: &actor, owner: &actor };
    // Twice the source's current damage.
    let expr = Expr(Box::new(IntExprNode::BinaryOp {
        lhs: Expr(Box::new(IntExprNode::Attribute(src(DAMAGE)))),
        op: BinaryOp::Mul,
        rhs: Expr(Box::new(IntExprNode::Lit(2))),
    }));
    let mut modifier = AttributeModifier::new(HEALTH, String::from("Health"), 0, ModOp::Sub, EffectSubject::Target, expr);
    modifier.update_value(&ctx);
    assert_eq!(modifier.value, 24);
    let stage = modifier.stage().unwrap();
    assert_eq!(stage.eval(100), 76);

    // An expression that fails leaves the default value.
    let missing = Expr(Box::new(IntExprNode::Attribute(src(HEALTH))));
    let mut modifier = AttributeModifier::new(HEALTH, String::from("Health"), 5, ModOp::More, EffectSubject::Source, missing);
    modifier.update_value(&ctx);
    assert_eq!(modifier.value, 0);
    assert!(modifier.stage().is_none());
}

#[test]
fn modifiers_describe_themselves() {
    let expr = Expr(Box::new(IntExprNode::Lit(-15i64)));
    let modifier = AttributeModifier::new(HEALTH, String::from("Health"), -15i64, ModOp::Add, EffectSubject::Target, expr);
    assert_eq!(modifier.describe(), "Mod<Health>(+-15) Target");
    assert_eq!(modifier.name(), "Health");
    let expr = Expr(Box::new(IntExprNode::Lit(3u8)));
    let modifier = AttributeModifier::new(DAMAGE, String::from("Damage"), 3u8, ModOp::Increase, EffectSubject::Effect, expr);
    assert_eq!(modifier.describe(), "Mod<Damage>(+*3) Effect");
}

#[test]
fn values_are_written_in_decimal() {
    assert_eq!(Value::to_text(0u8), "0");
    assert_eq!(Value::to_text(10u16), "10");
    assert_eq!(Value::to_text(-7i8), "-7");
    assert_eq!(Value::to_text(i64::MIN), i64::MIN.to_string());
    assert_eq!(Value::to_text(u64::MAX), u64::MAX.to_string());
    assert_eq!(Value::to_text(1234567890u32), "1234567890");
}

#[test]
fn identity_is_neutral_and_in_place_agrees() {
    let s = AdditiveStage::convert(ModOp::Sub, 9i32).unwrap();
    let id = AdditiveStage::<i32>::identity();
    let (r, l) = (s.combine(id), id.combine(s));
    assert_eq!((r.set, r.additive, r.subtractive), (s.set, s.additive, s.subtractive));
    assert_eq!((l.set, l.additive, l.subtractive), (s.set, s.additive, s.subtractive));
    let b = AdditiveStage::convert(ModOp::Assign, 4i32).unwrap();
    let mut x = s;
    x.combine_in_place(&b);
    let c = s.combine(b);
    assert_eq!((x.set, x.additive, x.subtractive), (c.set, c.additive, c.subtractive));
}
