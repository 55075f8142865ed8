use crate::attributes::{AttributeTypeId, Value};
use crate::expression::{spec_eval, EvalContext, Expr, Outcome};
use crate::modifier::{AccessModifier, EffectSubject, ModOp};
use crate::text::int_text;
use vstd::string::StringExecFns;
use vstd::prelude::*;

verus! {

/// The part of an attribute calculation that works in the attribute's own
/// number type: an optional value that overrides everything, then the sum of
/// all additions and the sum of all subtractions.
///
/// The percentage stages of a calculation (`ModOp::Increase`, `ModOp::More`)
/// scale the result of this stage and are not held here.
#[derive(Clone, Copy)]
pub struct AdditiveStage<P> {
    pub set: Option<P>,
    pub additive: P,
    pub subtractive: P,
}

/// The overriding value of two combined stages: the first one's if it has one.
pub open spec fn first_set<P>(a: Option<P>, b: Option<P>) -> Option<P> {
    match a {
        Some(v) => Some(v),
        None => b,
    }
}

impl<P: Value> AdditiveStage<P> {
    /// Whether two stages can be combined without overflow.
    pub open spec fn combine_defined(self, other: Self) -> bool {
        &&& P::in_range(self.additive.to_int() + other.additive.to_int())
        &&& P::in_range(self.subtractive.to_int() + other.subtractive.to_int())
    }

    /// Whether `r` is what combining `self` with `other` gives: the first overriding
    /// value wins, additions and subtractions are summed.
    pub open spec fn combines_to(self, other: Self, r: Self) -> bool {
        &&& r.set == first_set(self.set, other.set)
        &&& r.additive.to_int() == self.additive.to_int() + other.additive.to_int()
        &&& r.subtractive.to_int() == self.subtractive.to_int() + other.subtractive.to_int()
    }

    /// Whether the stage can be evaluated on a base value without overflow.
    pub open spec fn eval_defined(self, base: P) -> bool {
        self.set is None ==> {
            &&& P::in_range(base.to_int() + self.additive.to_int())
            &&& P::in_range(base.to_int() + self.additive.to_int() - self.subtractive.to_int())
        }
    }

    /// The value the stage gives a base value: the overriding value if there is
    /// one, otherwise the base value plus the additions minus the subtractions.
    pub open spec fn spec_eval(self, base: P) -> int {
        match self.set {
            Some(v) => v.to_int(),
            None => base.to_int() + self.additive.to_int() - self.subtractive.to_int(),
        }
    }

    /// The stage that changes nothing.
    pub fn identity() -> (r: Self)
        ensures
            r.set is None,
            r.additive.to_int() == 0,
            r.subtractive.to_int() == 0,
    {
        AdditiveStage { set: None, additive: P::zero(), subtractive: P::zero() }
    }

    /// The stage of one modifier, for the operations this stage holds:
    /// `Assign` overrides, `Add` adds and `Sub` subtracts the value.
    /// The percentage operations give `None`.
    pub fn convert(operation: ModOp, value: P) -> (r: Option<Self>)
        ensures
            match operation {
                ModOp::Assign => r matches Some(s) && s.set == Some(value)
                    && s.additive.to_int() == 0 && s.subtractive.to_int() == 0,
                ModOp::Add => r matches Some(s) && s.set is None && s.additive == value
                    && s.subtractive.to_int() == 0,
                ModOp::Sub => r matches Some(s) && s.set is None && s.additive.to_int() == 0
                    && s.subtractive == value,
                ModOp::Increase | ModOp::More => r is None,
            },
    {
        match operation {
            ModOp::Assign => Some(AdditiveStage { set: Some(value), additive: P::zero(), subtractive: P::zero() }),
            ModOp::Add => Some(AdditiveStage { set: None, additive: value, subtractive: P::zero() }),
            ModOp::Sub => Some(AdditiveStage { set: None, additive: P::zero(), subtractive: value }),
            ModOp::Increase | ModOp::More => None,
        }
    }

    /// Combines two stages: the first overriding value wins, additions and
    /// subtractions are summed.
    pub fn combine(self, other: Self) -> (r: Self)
        requires
            self.combine_defined(other),
        ensures
            self.combines_to(other, r),
    {
        let set = match self.set {
            Some(v) => Some(v),
            None => other.set,
        };
        AdditiveStage {
            set,
            additive: self.additive.add_value(other.additive),
            subtractive: self.subtractive.add_value(other.subtractive),
        }
    }

    /// Combines another stage into this one.
    pub fn combine_in_place(&mut self, other: &Self)
        requires
            old(self).combine_defined(*other),
        ensures
            old(self).combines_to(*other, *final(self)),
    {
        if self.set.is_none() {
            self.set = other.set;
        }
        self.additive = self.additive.add_value(other.additive);
        self.subtractive = self.subtractive.add_value(other.subtractive);
    }

    /// Evaluates the stage on a base value.
    pub fn eval(&self, base: P) -> (r: P)
        requires
            self.eval_defined(base),
        ensures
            r.to_int() == self.spec_eval(base),
    {
        match self.set {
            Some(v) => v,
            None => base.add_value(self.additive).sub_value(self.subtractive),
        }
    }
}

/// A modifier of one attribute: how it changes the attribute, on which entity,
/// the expression that gives its value, and the value last computed from it.
pub struct AttributeModifier<P> {
    pub attribute: AttributeTypeId,
    pub attribute_name: String,
    pub expr: Expr<P>,
    pub value: P,
    pub who: EffectSubject,
    pub operation: ModOp,
}

/// The value a modifier takes from evaluating its expression: the result, or
/// zero (the default value) when the evaluation fails.
pub open spec fn updated_value<P: Value>(outcome: Outcome, new_value: P) -> bool {
    match outcome {
        Outcome::Value(v) => new_value.to_int() == v,
        _ => new_value.to_int() == 0,
    }
}

impl<P: Value> AttributeModifier<P> {
    pub fn new(
        attribute: AttributeTypeId,
        attribute_name: String,
        value: P,
        operation: ModOp,
        who: EffectSubject,
        expr: Expr<P>,
    ) -> (r: Self)
        ensures
            r.attribute == attribute,
            r.attribute_name == attribute_name,
            r.value == value,
            r.operation == operation,
            r.who == who,
            r.expr == expr,
    {
        AttributeModifier { attribute, attribute_name, expr, value, who, operation }
    }

    /// Re-evaluates the modifier's expression and stores the result; a failed
    /// evaluation stores zero.
    pub fn update_value(&mut self, ctx: &EvalContext<P>)
        requires
            !(spec_eval(old(self).expr, *ctx) is Panic),
        ensures
            updated_value(spec_eval(old(self).expr, *ctx), final(self).value),
            final(self).attribute == old(self).attribute,
            final(self).attribute_name == old(self).attribute_name,
            final(self).expr == old(self).expr,
            final(self).who == old(self).who,
            final(self).operation == old(self).operation,
    {
        let new_val = match self.expr.eval(ctx) {
            Ok(v) => v,
            Err(_) => P::zero(),
        };
        self.value = new_val;
    }

    /// The additive stage of this modifier, for the operations that stage holds.
    pub fn stage(&self) -> (r: Option<AdditiveStage<P>>)
        ensures
            match self.operation {
                ModOp::Assign => r matches Some(s) && s.set == Some(self.value)
                    && s.additive.to_int() == 0 && s.subtractive.to_int() == 0,
                ModOp::Add => r matches Some(s) && s.set is None && s.additive == self.value
                    && s.subtractive.to_int() == 0,
                ModOp::Sub => r matches Some(s) && s.set is None && s.additive.to_int() == 0
                    && s.subtractive == self.value,
                ModOp::Increase | ModOp::More => r is None,
            },
    {
        AdditiveStage::convert(self.operation, self.value)
    }
}

impl<P: Value> AttributeModifier<P> {
    /// The text a modifier is displayed with: `Mod<attribute>(operation value) subject`.
    pub open spec fn spec_describe(&self) -> Seq<char> {
        "Mod<"@ + self.attribute_name@ + ">("@ + self.operation.spec_symbol() + int_text(
            self.value.to_int(),
        ) + ") "@ + self.who.spec_name()
    }
}

impl<P: Value> AccessModifier for AttributeModifier<P> {
    /// The text the modifier is displayed with.
    fn describe(&self) -> (r: String)
        ensures
            r@ == self.spec_describe(),
    {
        proof {
            reveal_strlit("Mod<");
            reveal_strlit(">(");
            reveal_strlit(") ");
        }
        let mut s = String::from_str("Mod<");
        s.append(self.attribute_name.as_str());
        s.append(">(");
        s.append(self.operation.to_string().as_str());
        s.append(self.value.to_text().as_str());
        s.append(") ");
        s.append(self.who.to_string().as_str());
        s
    }

    /// The name of the attribute the modifier changes.
    fn name(&self) -> (r: String)
        ensures
            r@ == self.attribute_name@,
    {
        self.attribute_name.clone()
    }
}

/// Combining with the stage that changes nothing, on either side, gives the same stage.
pub proof fn lemma_identity_neutral<P: Value>(s: AdditiveStage<P>, id: AdditiveStage<P>)
    requires
        id.set is None,
        id.additive.to_int() == 0,
        id.subtractive.to_int() == 0,
    ensures
        first_set(s.set, id.set) == s.set,
        first_set(id.set, s.set) == s.set,
        s.additive.to_int() + id.additive.to_int() == s.additive.to_int(),
        id.subtractive.to_int() + s.subtractive.to_int() == s.subtractive.to_int(),
        forall|base: P| #[trigger] id.spec_eval(base) == base.to_int(),
{
}

/// The stage that changes nothing can be combined with any stage, on either side.
pub proof fn lemma_identity_combinable<P: Value>(s: AdditiveStage<P>, id: AdditiveStage<P>)
    requires
        id.additive.to_int() == 0,
        id.subtractive.to_int() == 0,
    ensures
        s.combine_defined(id),
        id.combine_defined(s),
{
    s.additive.lemma_range();
    s.subtractive.lemma_range();
}

/// Combining with the stage that changes nothing, on either side, gives back the stage itself.
pub proof fn lemma_combine_identity<P: Value>(
    s: AdditiveStage<P>,
    id: AdditiveStage<P>,
    right: AdditiveStage<P>,
    left: AdditiveStage<P>,
)
    requires
        id.set is None,
        id.additive.to_int() == 0,
        id.subtractive.to_int() == 0,
        s.combines_to(id, right),
        id.combines_to(s, left),
    ensures
        right == s,
        left == s,
{
    right.additive.lemma_injective(s.additive);
    right.subtractive.lemma_injective(s.subtractive);
    left.additive.lemma_injective(s.additive);
    left.subtractive.lemma_injective(s.subtractive);
}

/// Combining in place gives the same stage as combining into a new one.
pub proof fn lemma_combine_in_place_agrees<P: Value>(
    a: AdditiveStage<P>,
    b: AdditiveStage<P>,
    in_place: AdditiveStage<P>,
    combined: AdditiveStage<P>,
)
    requires
        a.combines_to(b, in_place),
        a.combines_to(b, combined),
    ensures
        in_place == combined,
{
    in_place.additive.lemma_injective(combined.additive);
    in_place.subtractive.lemma_injective(combined.subtractive);
}

/// Combining is associative: the overriding value and both sums do not depend on grouping.
pub proof fn lemma_combine_associative<P: Value>(
    a: AdditiveStage<P>,
    b: AdditiveStage<P>,
    c: AdditiveStage<P>,
)
    ensures
        first_set(first_set(a.set, b.set), c.set) == first_set(a.set, first_set(b.set, c.set)),
        (a.additive.to_int() + b.additive.to_int()) + c.additive.to_int() == a.additive.to_int() + (
        b.additive.to_int() + c.additive.to_int()),
        (a.subtractive.to_int() + b.subtractive.to_int()) + c.subtractive.to_int()
            == a.subtractive.to_int() + (b.subtractive.to_int() + c.subtractive.to_int()),
{
}

/// Without overriding values, evaluating the combination of two stages is
/// evaluating the first and then the second.
pub proof fn lemma_combine_is_sequence<P: Value>(
    a: AdditiveStage<P>,
    b: AdditiveStage<P>,
    combined: AdditiveStage<P>,
    base: P,
    mid: P,
)
    requires
        a.set is None,
        b.set is None,
        combined.set == first_set(a.set, b.set),
        combined.additive.to_int() == a.additive.to_int() + b.additive.to_int(),
        combined.subtractive.to_int() == a.subtractive.to_int() + b.subtractive.to_int(),
        mid.to_int() == a.spec_eval(base),
    ensures
        combined.spec_eval(base) == b.spec_eval(mid),
{
}

/// An overriding value wins over every addition and subtraction, whatever the base value.
pub proof fn lemma_set_overrides<P: Value>(s: AdditiveStage<P>, base1: P, base2: P)
    requires
        s.set is Some,
    ensures
        s.spec_eval(base1) == s.spec_eval(base2),
        s.spec_eval(base1) == s.set->Some_0.to_int(),
{
}


/// A stage without an overriding value adds its additions to the base value and
/// takes away its subtractions; one with an overriding value gives that value. The
/// stage of an `Add` modifier adds its value, of a `Sub` modifier subtracts it, of
/// an `Assign` modifier gives it.
pub proof fn lemma_stage_meaning<P: Value>(s: AdditiveStage<P>, base: P, v: P)
    ensures
        s.set is None ==> s.spec_eval(base) == base.to_int() + s.additive.to_int()
            - s.subtractive.to_int(),
        s.set matches Some(x) ==> s.spec_eval(base) == x.to_int(),
        (AdditiveStage { set: None, additive: v, subtractive: s.subtractive }).spec_eval(base)
            == base.to_int() + v.to_int() - s.subtractive.to_int(),
{
}

/// Combining keeps the first overriding value, or else takes the second; and it sums
/// the additions and the subtractions.
pub proof fn lemma_combines_to_meaning<P: Value>(a: AdditiveStage<P>, b: AdditiveStage<P>, r: AdditiveStage<P>)
    ensures
        a.combines_to(b, r) <==> {
            &&& (a.set is Some ==> r.set == a.set)
            &&& (a.set is None ==> r.set == b.set)
            &&& r.additive.to_int() == a.additive.to_int() + b.additive.to_int()
            &&& r.subtractive.to_int() == a.subtractive.to_int() + b.subtractive.to_int()
        },
{
}

/// A modifier takes the value its expression evaluates to, and zero when the
/// evaluation fails.
pub proof fn lemma_updated_value_meaning<P: Value>(outcome: Outcome, new_value: P)
    ensures
        outcome matches Outcome::Value(v) ==> (updated_value(outcome, new_value)
            <==> new_value.to_int() == v),
        outcome is Error ==> (updated_value(outcome, new_value) <==> new_value.to_int() == 0),
{
}

} // verus!
