use root_attribute::attributes::{AttributeSnapshot, AttributeTypeId, AttributesRef};
use root_attribute::expression::{
    dst, parent, src, AttributeSource, BinaryOp, EvalContext, Expr, ExpressionError, IntExprNode,
};

const INT32_ATTR: AttributeTypeId = AttributeTypeId(1);
const UINT32_ATTR: AttributeTypeId = AttributeTypeId(2);

fn lit<P>(value: P) -> Expr<P> {
    Expr(Box::new(IntExprNode::Lit(value)))
}

fn attr<P>(source: AttributeSource) -> Expr<P> {
    Expr(Box::new(IntExprNode::Attribute(source)))
}

fn bin<P>(lhs: Expr<P>, op: BinaryOp, rhs: Expr<P>) -> Expr<P> {
    Expr(Box::new(IntExprNode::BinaryOp { lhs, op, rhs }))
}

fn actor<P: Copy>(id: AttributeTypeId, value: P) -> AttributesRef<P> {
    AttributesRef {
        attributes: vec![AttributeSnapshot { id, base_value: value, current_value: value }],
        components: vec![],
        stacks: None,
    }
}

#[test]
fn test_additions() {
    let actor_i32 = actor::<i32>(INT32_ATTR, 100);
    let context = EvalContext { target_actor: &actor_i32, source_actor: &actor_i32, owner: &actor_i32 };

    let add_expr = bin(attr(src(INT32_ATTR)), BinaryOp::Add, attr(src(INT32_ATTR)));
    assert_eq!(add_expr.eval(&context).unwrap(), 200);

    let mul_expr = bin(attr(src(INT32_ATTR)), BinaryOp::Mul, attr(src(INT32_ATTR)));
    assert_eq!(mul_expr.eval(&context).unwrap(), 10000);

    let actor_u32 = actor::<u32>(UINT32_ATTR, 100);
    let context = EvalContext { target_actor: &actor_u32, source_actor: &actor_u32, owner: &actor_u32 };
    let add_expr = bin(attr(src(UINT32_ATTR)), BinaryOp::Add, attr(dst(UINT32_ATTR)));
    assert_eq!(add_expr.eval(&context).unwrap(), 200u32);
}

#[test]
fn integer_operators_follow_rust() {
    let a = actor::<i32>(INT32_ATTR, 0);
    let ctx = EvalContext { target_actor: &a, source_actor: &a, owner: &a };
    assert_eq!(bin(lit(7i32), BinaryOp::Sub, lit(10)).eval(&ctx), Ok(-3));
    assert_eq!(bin(lit(7i32), BinaryOp::Div, lit(2)).eval(&ctx), Ok(3));
    assert_eq!(bin(lit(-7i32), BinaryOp::Div, lit(2)).eval(&ctx), Ok(-3));
    assert_eq!(bin(lit(7i32), BinaryOp::Div, lit(-2)).eval(&ctx), Ok(-3));
    assert_eq!(bin(lit(-7i32), BinaryOp::Rem, lit(2)).eval(&ctx), Ok(-1));
    assert_eq!(bin(lit(7i32), BinaryOp::Rem, lit(-2)).eval(&ctx), Ok(1));
    assert_eq!(bin(lit(i32::MIN), BinaryOp::Div, lit(i32::MIN)).eval(&ctx), Ok(1));
    assert_eq!(bin(lit(5i32), BinaryOp::Div, lit(i32::MIN)).eval(&ctx), Ok(0));
    assert_eq!(bin(lit(5i32), BinaryOp::Rem, lit(i32::MIN)).eval(&ctx), Ok(5));
    assert_eq!(bin(lit(i32::MIN), BinaryOp::Rem, lit(i32::MIN)).eval(&ctx), Ok(0));
}

#[test]
fn nested_expressions_evaluate_left_to_right() {
    let a = actor::<u8>(UINT32_ATTR, 3);
    let ctx = EvalContext { target_actor: &a, source_actor: &a, owner: &a };
    // (3 * 4) - (10 % 4) = 12 - 2 = 10
    let e = bin(
        bin(attr(parent(UINT32_ATTR)), BinaryOp::Mul, lit(4u8)),
        BinaryOp::Sub,
        bin(lit(10u8), BinaryOp::Rem, lit(4u8)),
    );
    assert_eq!(e.eval(&ctx), Ok(10u8));
}

#[test]
fn missing_attributes_and_empty_expressions_are_errors() {
    let a = actor::<i64>(INT32_ATTR, 1);
    let empty = actor::<i64>(UINT32_ATTR, 1);
    let ctx = EvalContext { target_actor: &empty, source_actor: &a, owner: &a };
    assert_eq!(attr::<i64>(dst(INT32_ATTR)).eval(&ctx), Err(ExpressionError::AttributeNotFound));
    assert_eq!(attr::<i64>(src(INT32_ATTR)).eval(&ctx), Ok(1));
    let e: Expr<i64> = Expr(Box::new(IntExprNode::Empty));
    assert_eq!(e.eval(&ctx), Err(ExpressionError::EmptyExpr));
    // The left operand's error wins.
    let e = bin(Expr(Box::new(IntExprNode::Empty)), BinaryOp::Add, attr(dst(INT32_ATTR)));
    assert_eq!(e.eval(&ctx), Err(ExpressionError::EmptyExpr));
    assert_eq!(ExpressionError::EmptyExpr.message(), "An Empty Expression was found.");
}

#[test]
fn test_math_expr() {
    const LHS_TEST: AttributeTypeId = AttributeTypeId(3);
    const RHS_TEST: AttributeTypeId = AttributeTypeId(4);
    const LHS_TEST_VAL: i32 = 100;
    const RHS_TEST_VAL: i32 = 10;
    let a = AttributesRef {
        attributes: vec![
            AttributeSnapshot { id: LHS_TEST, base_value: LHS_TEST_VAL, current_value: LHS_TEST_VAL },
            AttributeSnapshot { id: RHS_TEST, base_value: RHS_TEST_VAL, current_value: RHS_TEST_VAL },
        ],
        components: vec![],
        stacks: None,
    };
    let ctx = EvalContext { source_actor: &a, target_actor: &a, owner: &a };
    let op = |op: BinaryOp| bin(attr(src(LHS_TEST)), op, attr(src(RHS_TEST))).eval(&ctx).unwrap();
    assert_eq!(LHS_TEST_VAL + RHS_TEST_VAL, op(BinaryOp::Add));
    assert_eq!(LHS_TEST_VAL - RHS_TEST_VAL, op(BinaryOp::Sub));
    assert_eq!(LHS_TEST_VAL * RHS_TEST_VAL, op(BinaryOp::Mul));
    assert_eq!(LHS_TEST_VAL / RHS_TEST_VAL, op(BinaryOp::Div));
    assert_eq!(LHS_TEST_VAL % RHS_TEST_VAL, op(BinaryOp::Rem));
}
