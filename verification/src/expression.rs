use crate::attributes::{int_abs, spec_find, trunc_div, trunc_rem, AttributeTypeId, AttributesRef, Value};
use vstd::prelude::*;

verus! {

/// Why reading a component through reflection failed.
#[derive(Debug, Clone, Copy, PartialEq, Eq, Structural)]
pub enum ReflectFailure {
    /// The entity has no component of the requested type.
    MissingComponent,
}

impl ReflectFailure {
    pub open spec fn spec_message(&self) -> Seq<char> {
        match self {
            ReflectFailure::MissingComponent => "The entity has no component the requested type."@,
        }
    }

    /// The text the failure is reported with.
    pub fn message(&self) -> (r: &'static str)
        ensures
            r@ == self.spec_message(),
    {
        match self {
            ReflectFailure::MissingComponent => "The entity has no component the requested type.",
        }
    }
}

/// Why an expression could not be evaluated.
#[derive(Debug, Clone, Copy, PartialEq, Eq, Structural)]
pub enum ExpressionError {
    AttributeNotFound,
    EmptyExpr,
    InvalidTypes,
    /// A component could not be read through reflection.
    FailedReflect(ReflectFailure),
}

impl ExpressionError {
    /// The message the error is displayed with.
    pub fn message(&self) -> (r: &'static str)
        ensures
            r@ == self.spec_message(),
    {
        match self {
            ExpressionError::AttributeNotFound => "Attribute error: Failed to retrieve attribute from context",
            ExpressionError::EmptyExpr => "An Empty Expression was found.",
            ExpressionError::InvalidTypes => "Invalid expression type.",
            ExpressionError::FailedReflect(failure) => failure.message(),
        }
    }

    pub open spec fn spec_message(&self) -> Seq<char> {
        match self {
            ExpressionError::AttributeNotFound => "Attribute error: Failed to retrieve attribute from context"@,
            ExpressionError::EmptyExpr => "An Empty Expression was found."@,
            ExpressionError::InvalidTypes => "Invalid expression type."@,
            ExpressionError::FailedReflect(failure) => failure.spec_message(),
        }
    }
}

/// Operators of one operand.
#[derive(Debug, Clone, Copy, PartialEq, Eq, Structural)]
pub enum UnaryOp {
    Acos,
    Asin,
    Cos,
    Sin,
}

/// Operators of two operands.
#[derive(Debug, Clone, Copy, PartialEq, Eq, Structural)]
pub enum BinaryOp {
    Add,
    Sub,
    Mul,
    Div,
    Rem,
}

/// The entities an expression reads attributes from.
pub struct EvalContext<'a, P> {
    pub source_actor: &'a AttributesRef<P>,
    pub target_actor: &'a AttributesRef<P>,
    pub owner: &'a AttributesRef<P>,
}

/// Reads the current value of an attribute of the source, the target or the owner.
#[derive(Debug, Clone, Copy, PartialEq, Eq, Structural)]
pub enum AttributeSource {
    Src(AttributeTypeId),
    Dst(AttributeTypeId),
    Parent(AttributeTypeId),
}

/// Reads the current value of attribute `id` of the effect's source.
pub fn src(id: AttributeTypeId) -> (r: AttributeSource)
    ensures
        r == AttributeSource::Src(id),
{
    AttributeSource::Src(id)
}

/// Reads the current value of attribute `id` of the effect's target.
pub fn dst(id: AttributeTypeId) -> (r: AttributeSource)
    ensures
        r == AttributeSource::Dst(id),
{
    AttributeSource::Dst(id)
}

/// Reads the current value of attribute `id` of the effect itself.
pub fn parent(id: AttributeTypeId) -> (r: AttributeSource)
    ensures
        r == AttributeSource::Parent(id),
{
    AttributeSource::Parent(id)
}

/// A retriever of attribute values from an evaluation context.
pub trait RetrieveAttribute<P: Value> {
    spec fn spec_retrieve(&self, ctx: EvalContext<P>) -> Result<P, ExpressionError>;

    fn retrieve(&self, ctx: &EvalContext<P>) -> (r: Result<P, ExpressionError>)
        ensures
            r == self.spec_retrieve(*ctx),
    ;
}

/// The current value of attribute `id` on `actor`, or `AttributeNotFound`.
pub open spec fn current_of<P: Copy>(actor: AttributesRef<P>, id: AttributeTypeId) -> Result<
    P,
    ExpressionError,
> {
    match actor.attribute(id) {
        Some(a) => Ok(a.current_value),
        None => Err(ExpressionError::AttributeNotFound),
    }
}

fn read_current<P: Copy>(actor: &AttributesRef<P>, id: AttributeTypeId) -> (r: Result<
    P,
    ExpressionError,
>)
    ensures
        r == current_of(*actor, id),
{
    match actor.get(id) {
        Some(a) => Ok(a.current_value),
        None => Err(ExpressionError::AttributeNotFound),
    }
}

impl<P: Value> RetrieveAttribute<P> for AttributeSource {
    open spec fn spec_retrieve(&self, ctx: EvalContext<P>) -> Result<P, ExpressionError> {
        match self {
            AttributeSource::Src(id) => current_of(*ctx.source_actor, *id),
            AttributeSource::Dst(id) => current_of(*ctx.target_actor, *id),
            AttributeSource::Parent(id) => current_of(*ctx.owner, *id),
        }
    }

    fn retrieve(&self, ctx: &EvalContext<P>) -> (r: Result<P, ExpressionError>) {
        match self {
            AttributeSource::Src(id) => read_current(ctx.source_actor, *id),
            AttributeSource::Dst(id) => read_current(ctx.target_actor, *id),
            AttributeSource::Parent(id) => read_current(ctx.owner, *id),
        }
    }
}

/// An expression over integer attribute values.
pub struct Expr<P>(pub Box<IntExprNode<P>>);

/// A node of an integer expression.
#[allow(inconsistent_fields)]
pub enum IntExprNode<P> {
    Empty,
    Lit(P),
    Attribute(AttributeSource),
    UnaryOp { op: UnaryOp, expr: Expr<P> },
    BinaryOp { lhs: Expr<P>, op: BinaryOp, rhs: Expr<P> },
}

/// What evaluating an expression yields: a value, an error, or a panic
/// (an operator that overflows, divides by zero, or is not defined on integers).
pub enum Outcome {
    Value(int),
    Error(ExpressionError),
    Panic,
}

/// The outcome of applying a binary operator to two values of type `P`.
pub open spec fn spec_apply<P: Value>(op: BinaryOp, l: int, r: int) -> Outcome {
    let v = match op {
        BinaryOp::Add => l + r,
        BinaryOp::Sub => l - r,
        BinaryOp::Mul => l * r,
        BinaryOp::Div => trunc_div(l, r),
        BinaryOp::Rem => trunc_rem(l, r),
    };
    if (op == BinaryOp::Div || op == BinaryOp::Rem) && r == 0 {
        Outcome::Panic
    } else if (op == BinaryOp::Div || op == BinaryOp::Rem) && !P::in_range(trunc_div(l, r)) {
        Outcome::Panic
    } else if !P::in_range(v) {
        Outcome::Panic
    } else {
        Outcome::Value(v)
    }
}

/// The outcome of evaluating an expression in a context.
pub open spec fn spec_eval<P: Value>(e: Expr<P>, ctx: EvalContext<P>) -> Outcome
    decreases e,
{
    match *e.0 {
        IntExprNode::Empty => Outcome::Error(ExpressionError::EmptyExpr),
        IntExprNode::Lit(l) => Outcome::Value(l.to_int()),
        IntExprNode::Attribute(a) => match a.spec_retrieve(ctx) {
            Ok(v) => Outcome::Value(v.to_int()),
            Err(err) => Outcome::Error(err),
        },
        IntExprNode::UnaryOp { .. } => Outcome::Panic,
        IntExprNode::BinaryOp { lhs, op, rhs } => match spec_eval(lhs, ctx) {
            Outcome::Panic => Outcome::Panic,
            Outcome::Error(err) => Outcome::Error(err),
            Outcome::Value(l) => match spec_eval(rhs, ctx) {
                Outcome::Panic => Outcome::Panic,
                Outcome::Error(err) => Outcome::Error(err),
                Outcome::Value(r) => spec_apply::<P>(op, l, r),
            },
        },
    }
}

/// Whether a result is what an outcome describes.
pub open spec fn matches_outcome<P: Value>(r: Result<P, ExpressionError>, o: Outcome) -> bool {
    match o {
        Outcome::Value(v) => r is Ok && r->Ok_0.to_int() == v,
        Outcome::Error(err) => r == Err::<P, ExpressionError>(err),
        Outcome::Panic => false,
    }
}

fn apply<P: Value>(op: BinaryOp, l: P, r: P) -> (res: P)
    requires
        !(spec_apply::<P>(op, l.to_int(), r.to_int()) is Panic),
    ensures
        spec_apply::<P>(op, l.to_int(), r.to_int()) == Outcome::Value(res.to_int()),
{
    match op {
        BinaryOp::Add => l.add_value(r),
        BinaryOp::Sub => l.sub_value(r),
        BinaryOp::Mul => l.mul_value(r),
        BinaryOp::Div => l.div_value(r),
        BinaryOp::Rem => l.rem_value(r),
    }
}

impl<P: Value> Expr<P> {
    /// Evaluates the expression.
    pub fn eval(&self, ctx: &EvalContext<P>) -> (r: Result<P, ExpressionError>)
        requires
            !(spec_eval(*self, *ctx) is Panic),
        ensures
            matches_outcome(r, spec_eval(*self, *ctx)),
        decreases *self,
    {
        match &*self.0 {
            IntExprNode::Empty => Err(ExpressionError::EmptyExpr),
            IntExprNode::Lit(lit) => Ok(*lit),
            IntExprNode::Attribute(attribute) => attribute.retrieve(ctx),
            IntExprNode::UnaryOp { .. } => {
                assert(false);
                Err(ExpressionError::InvalidTypes)
            },
            IntExprNode::BinaryOp { lhs, op, rhs } => {
                let l = lhs.eval(ctx)?;
                let r = rhs.eval(ctx)?;
                Ok(apply(*op, l, r))
            },
        }
    }
}

/// What reading attribute `id` of `actor` gives: its current value, or
/// `AttributeNotFound` when the actor lacks it.
pub open spec fn read_attribute<P: Copy>(actor: AttributesRef<P>, id: AttributeTypeId) -> Result<P, ExpressionError> {
    match spec_find(actor.attributes@, id) {
        Some(a) => Ok(a.current_value),
        None => Err(ExpressionError::AttributeNotFound),
    }
}

/// Each attribute source reads its own entity of the context: `src` the source
/// actor, `dst` the target actor and `parent` the owner (the effect); the other
/// entities play no part.
pub proof fn lemma_retrieve_meaning<P: Value>(id: AttributeTypeId, ctx: EvalContext<P>)
    ensures
        AttributeSource::Src(id).spec_retrieve(ctx) == read_attribute(*ctx.source_actor, id),
        AttributeSource::Dst(id).spec_retrieve(ctx) == read_attribute(*ctx.target_actor, id),
        AttributeSource::Parent(id).spec_retrieve(ctx) == read_attribute(*ctx.owner, id),
{
}

/// Evaluating a literal gives it, an empty expression is an error, and an attribute
/// read gives the current value of its entity or `AttributeNotFound`.
pub proof fn lemma_leaf_meaning<P: Value>(e: Expr<P>, ctx: EvalContext<P>)
    ensures
        *e.0 matches IntExprNode::Lit(l) ==> spec_eval(e, ctx) == Outcome::Value(l.to_int()),
        *e.0 is Empty ==> spec_eval(e, ctx) == Outcome::Error(ExpressionError::EmptyExpr),
        *e.0 matches IntExprNode::Attribute(AttributeSource::Parent(id)) ==> spec_eval(e, ctx)
            == match read_attribute(*ctx.owner, id) {
            Ok(v) => Outcome::Value(v.to_int()),
            Err(err) => Outcome::Error(err),
        },
        *e.0 matches IntExprNode::Attribute(AttributeSource::Src(id)) ==> spec_eval(e, ctx)
            == match read_attribute(*ctx.source_actor, id) {
            Ok(v) => Outcome::Value(v.to_int()),
            Err(err) => Outcome::Error(err),
        },
        *e.0 matches IntExprNode::Attribute(AttributeSource::Dst(id)) ==> spec_eval(e, ctx)
            == match read_attribute(*ctx.target_actor, id) {
            Ok(v) => Outcome::Value(v.to_int()),
            Err(err) => Outcome::Error(err),
        },
{
}

/// A binary operation on two values gives the operator's result when it is
/// representable: the sum, the difference, the product, or a quotient `q` and
/// remainder `m` with `l == q * r + m`, `|m| < |r|`, and `m` zero or of the sign of
/// `l`; an error of the left operand wins over the right one.
pub proof fn lemma_binary_meaning<P: Value>(lhs: Expr<P>, op: BinaryOp, rhs: Expr<P>, ctx: EvalContext<P>)
    ensures
        ({
            let e = Expr(Box::new(IntExprNode::BinaryOp { lhs, op, rhs }));
            &&& spec_eval(lhs, ctx) matches Outcome::Error(err) ==> spec_eval(e, ctx) == Outcome::Error(err)
            &&& spec_eval(lhs, ctx) matches Outcome::Value(l) ==> spec_eval(rhs, ctx) matches Outcome::Error(err)
                ==> spec_eval(e, ctx) == Outcome::Error(err)
            &&& spec_eval(lhs, ctx) matches Outcome::Value(l) ==> spec_eval(rhs, ctx) matches Outcome::Value(r)
                ==> {
                &&& op == BinaryOp::Add && P::in_range(l + r) ==> spec_eval(e, ctx) == Outcome::Value(l + r)
                &&& op == BinaryOp::Sub && P::in_range(l - r) ==> spec_eval(e, ctx) == Outcome::Value(l - r)
                &&& op == BinaryOp::Mul && P::in_range(l * r) ==> spec_eval(e, ctx) == Outcome::Value(l * r)
                &&& (op == BinaryOp::Div || op == BinaryOp::Rem) && r == 0 ==> spec_eval(e, ctx) is Panic
                &&& op == BinaryOp::Div && r != 0 && P::in_range(trunc_div(l, r)) ==> spec_eval(e, ctx)
                    == Outcome::Value(trunc_div(l, r))
                &&& op == BinaryOp::Rem && r != 0 && P::in_range(trunc_div(l, r)) && P::in_range(
                    trunc_rem(l, r),
                ) ==> spec_eval(e, ctx)
                    == Outcome::Value(trunc_rem(l, r))
                &&& op == BinaryOp::Add && !P::in_range(l + r) ==> spec_eval(e, ctx) is Panic
                &&& op == BinaryOp::Sub && !P::in_range(l - r) ==> spec_eval(e, ctx) is Panic
                &&& op == BinaryOp::Mul && !P::in_range(l * r) ==> spec_eval(e, ctx) is Panic
            }
        }),
{
}

/// Rust's truncating division: for a nonzero divisor, quotient and remainder
/// recompose the dividend, the remainder is smaller than the divisor in size and
/// takes the dividend's sign.
pub proof fn lemma_trunc_div_meaning(l: int, r: int)
    requires
        r != 0,
    ensures
        l == trunc_div(l, r) * r + trunc_rem(l, r),
        int_abs(trunc_rem(l, r)) < int_abs(r),
        l >= 0 ==> trunc_rem(l, r) >= 0,
        l <= 0 ==> trunc_rem(l, r) <= 0,
{
    let a = int_abs(l);
    let b = int_abs(r);
    vstd::arithmetic::div_mod::lemma_fundamental_div_mod(a, b);
    vstd::arithmetic::div_mod::lemma_mod_bound(a, b);
    let q = a / b;
    let m = a % b;
    assert(a == b * q + m);
    if r > 0 && l >= 0 {
        assert(l == q * r + m) by (nonlinear_arith)
            requires
                a == b * q + m,
                a == l,
                b == r,
        ;
    } else if r > 0 {
        assert(l == (-q) * r + (-m)) by (nonlinear_arith)
            requires
                a == b * q + m,
                a == -l,
                b == r,
        ;
    } else if l >= 0 {
        assert(l == (-q) * r + m) by (nonlinear_arith)
            requires
                a == b * q + m,
                a == l,
                b == -r,
        ;
    } else {
        assert(l == q * r + (-m)) by (nonlinear_arith)
            requires
                a == b * q + m,
                a == -l,
                b == -r,
        ;
    }
}

} // verus!
