use crate::attributes::{spec_find, AttributeTypeId, AttributesRef, Value};
use crate::context::EffectExprContext;
use crate::expression::{ExpressionError, ReflectFailure};
use crate::modifier::{EffectSubject, Who};
use crate::text::int_text;
use vstd::prelude::*;
use vstd::string::StringExecFns;

verus! {

/// One end of a range of values.
#[derive(Debug, Clone, Copy, PartialEq, Eq, Structural)]
pub enum Bound<T> {
    Included(T),
    Excluded(T),
    Unbounded,
}

/// Whether `v` lies on the allowed side of a lower bound.
pub open spec fn above_start<P: Value>(start: Bound<P>, v: int) -> bool {
    match start {
        Bound::Included(s) => s.to_int() <= v,
        Bound::Excluded(s) => s.to_int() < v,
        Bound::Unbounded => true,
    }
}

/// Whether `v` lies on the allowed side of an upper bound.
pub open spec fn below_end<P: Value>(end: Bound<P>, v: int) -> bool {
    match end {
        Bound::Included(e) => v <= e.to_int(),
        Bound::Excluded(e) => v < e.to_int(),
        Bound::Unbounded => true,
    }
}

/// Whether a value lies within a pair of bounds.
pub open spec fn spec_contains<P: Value>(bounds: (Bound<P>, Bound<P>), v: int) -> bool {
    above_start(bounds.0, v) && below_end(bounds.1, v)
}

/// Whether `value` lies within `bounds`, as `RangeBounds::contains` decides it.
pub fn bounds_contains<P: Value>(bounds: &(Bound<P>, Bound<P>), value: P) -> (r: bool)
    ensures
        r == spec_contains(*bounds, value.to_int()),
{
    let above = match bounds.0 {
        Bound::Included(s) => s.le_value(value),
        Bound::Excluded(s) => s.lt_value(value),
        Bound::Unbounded => true,
    };
    let below = match bounds.1 {
        Bound::Included(e) => value.le_value(e),
        Bound::Excluded(e) => value.lt_value(e),
        Bound::Unbounded => true,
    };
    above && below
}

/// The entities a condition can read.
pub struct ConditionContext<'a, P> {
    pub target_actor: &'a AttributesRef<P>,
    pub source_actor: &'a AttributesRef<P>,
    pub owner: &'a AttributesRef<P>,
}

impl Who {
    /// The entity of the context this variant designates.
    pub open spec fn spec_entity<'a, P>(self, context: ConditionContext<'a, P>) -> &'a AttributesRef<P> {
        match self {
            Who::Target => context.target_actor,
            Who::Source => context.source_actor,
            Who::Owner => context.owner,
        }
    }

    /// Resolves the variant to a specific entity of the context.
    pub fn get_entity<'a, P>(&self, context: &ConditionContext<'a, P>) -> (r: &'a AttributesRef<P>)
        ensures
            r == self.spec_entity(*context),
    {
        match self {
            Who::Target => context.target_actor,
            Who::Source => context.source_actor,
            Who::Owner => context.owner,
        }
    }
}

/// A predicate over the entities an effect relates.
pub trait Condition<P> {
    /// Whether the condition holds in a context.
    spec fn holds(&self, context: ConditionContext<P>) -> bool;

    fn evaluate(&self, context: &ConditionContext<P>) -> (r: bool)
        ensures
            r == self.holds(*context),
    ;
}

/// Holds when the current value of an attribute of `target` lies within `bounds`.
/// An entity without the attribute does not satisfy it.
pub struct AttributeCondition<P> {
    pub target: Who,
    pub attribute: AttributeTypeId,
    pub bounds: (Bound<P>, Bound<P>),
}

impl<P: Value> AttributeCondition<P> {
    pub fn new(bounds: (Bound<P>, Bound<P>), attribute: AttributeTypeId, mod_target: Who) -> (r: Self)
        ensures
            r.target == mod_target,
            r.attribute == attribute,
            r.bounds == bounds,
    {
        AttributeCondition { target: mod_target, attribute, bounds }
    }

    /// A condition on an attribute of the effect's target.
    pub fn target(bounds: (Bound<P>, Bound<P>), attribute: AttributeTypeId) -> (r: Self)
        ensures
            r.target == Who::Target,
            r.attribute == attribute,
            r.bounds == bounds,
    {
        Self::new(bounds, attribute, Who::Target)
    }

    /// A condition on an attribute of the effect's source.
    pub fn source(bounds: (Bound<P>, Bound<P>), attribute: AttributeTypeId) -> (r: Self)
        ensures
            r.target == Who::Source,
            r.attribute == attribute,
            r.bounds == bounds,
    {
        Self::new(bounds, attribute, Who::Source)
    }
}

impl<P: Value> Condition<P> for AttributeCondition<P> {
    open spec fn holds(&self, context: ConditionContext<P>) -> bool {
        match self.target.spec_entity(context).attribute(self.attribute) {
            Some(a) => spec_contains(self.bounds, a.current_value.to_int()),
            None => false,
        }
    }

    fn evaluate(&self, context: &ConditionContext<P>) -> (r: bool) {
        let entity = self.target.get_entity(context);
        match entity.get(self.attribute) {
            Some(a) => bounds_contains(&self.bounds, a.current_value),
            None => false,
        }
    }
}

/// Holds when the stack count of the effect lies within `bounds`.
/// An effect without a stack count does not satisfy it.
pub struct StackCondition {
    pub bounds: (Bound<u32>, Bound<u32>),
}

impl StackCondition {
    pub fn new(bounds: (Bound<u32>, Bound<u32>)) -> (r: Self)
        ensures
            r.bounds == bounds,
    {
        StackCondition { bounds }
    }

    /// The text the condition is displayed with: its bounds as `Debug` writes them.
    pub open spec fn spec_text(&self) -> Seq<char> {
        "StackCondition with bounds: ("@ + bound_debug_text(self.bounds.0) + ", "@
            + bound_debug_text(self.bounds.1) + ")"@
    }

    /// The text the condition is displayed with.
    pub fn to_string(&self) -> (r: String)
        ensures
            r@ == self.spec_text(),
    {
        proof {
            reveal_strlit("StackCondition with bounds: (");
            reveal_strlit(", ");
            reveal_strlit(")");
        }
        let mut s = String::from_str("StackCondition with bounds: (");
        s.append(bound_debug_string(&self.bounds.0).as_str());
        s.append(", ");
        s.append(bound_debug_string(&self.bounds.1).as_str());
        s.append(")");
        s
    }
}

/// A bound as the derived `Debug` writes it, such as `Included(3)`.
pub open spec fn bound_debug_text<P: Value>(b: Bound<P>) -> Seq<char> {
    match b {
        Bound::Included(v) => "Included("@ + int_text(v.to_int()) + ")"@,
        Bound::Excluded(v) => "Excluded("@ + int_text(v.to_int()) + ")"@,
        Bound::Unbounded => "Unbounded"@,
    }
}

fn bound_debug_string<P: Value>(b: &Bound<P>) -> (r: String)
    ensures
        r@ == bound_debug_text(*b),
{
    proof {
        reveal_strlit("Included(");
        reveal_strlit("Excluded(");
        reveal_strlit(")");
        reveal_strlit("Unbounded");
    }
    match b {
        Bound::Included(v) => String::from_str("Included(").concat(v.to_text().as_str()).concat(")"),
        Bound::Excluded(v) => String::from_str("Excluded(").concat(v.to_text().as_str()).concat(")"),
        Bound::Unbounded => String::from_str("Unbounded"),
    }
}

impl<P> Condition<P> for StackCondition {
    open spec fn holds(&self, context: ConditionContext<P>) -> bool {
        match context.owner.stacks {
            Some(v) => spec_contains(self.bounds, v as int),
            None => false,
        }
    }

    fn evaluate(&self, context: &ConditionContext<P>) -> (r: bool) {
        match context.owner.stacks {
            Some(v) => bounds_contains(&self.bounds, v),
            None => false,
        }
    }
}

/// Holds when `target` holds the component with id `component`.
pub struct TagCondition {
    pub target: Who,
    pub component: u64,
}

impl<P: Copy> Condition<P> for TagCondition {
    open spec fn holds(&self, context: ConditionContext<P>) -> bool {
        self.target.spec_entity(context).has_component(self.component)
    }

    fn evaluate(&self, context: &ConditionContext<P>) -> (r: bool) {
        self.target.get_entity(context).contains(self.component)
    }
}

/// Holds when both conditions hold.
pub struct And<C1, C2> {
    pub c1: C1,
    pub c2: C2,
}

impl<P, C1: Condition<P>, C2: Condition<P>> Condition<P> for And<C1, C2> {
    open spec fn holds(&self, context: ConditionContext<P>) -> bool {
        self.c1.holds(context) && self.c2.holds(context)
    }

    fn evaluate(&self, context: &ConditionContext<P>) -> (r: bool) {
        self.c1.evaluate(context) && self.c2.evaluate(context)
    }
}

/// Holds when either condition holds.
pub struct Or<C1, C2> {
    pub c1: C1,
    pub c2: C2,
}

impl<P, C1: Condition<P>, C2: Condition<P>> Condition<P> for Or<C1, C2> {
    open spec fn holds(&self, context: ConditionContext<P>) -> bool {
        self.c1.holds(context) || self.c2.holds(context)
    }

    fn evaluate(&self, context: &ConditionContext<P>) -> (r: bool) {
        self.c1.evaluate(context) || self.c2.evaluate(context)
    }
}

/// Holds when the inner condition does not.
pub struct Not<C>(pub C);

impl<P, C: Condition<P>> Condition<P> for Not<C> {
    open spec fn holds(&self, context: ConditionContext<P>) -> bool {
        !self.0.holds(context)
    }

    fn evaluate(&self, context: &ConditionContext<P>) -> (r: bool) {
        !self.0.evaluate(context)
    }
}

/// Combinators on conditions.
pub trait ConditionExt<P>: Condition<P> + Sized {
    fn and<C: Condition<P>>(self, other: C) -> (r: And<Self, C>)
        ensures
            r.c1 == self,
            r.c2 == other,
    {
        And { c1: self, c2: other }
    }

    fn or<C: Condition<P>>(self, other: C) -> (r: Or<Self, C>)
        ensures
            r.c1 == self,
            r.c2 == other,
    {
        Or { c1: self, c2: other }
    }

    fn not(self) -> (r: Not<Self>)
        ensures
            r.0 == self,
    {
        Not(self)
    }
}

impl<P, T: Condition<P>> ConditionExt<P> for T {}

/// Whether every condition of a list holds.
pub open spec fn all_hold<P, C: Condition<P>>(conditions: Seq<C>, context: ConditionContext<P>) -> bool {
    forall|i: int| 0 <= i < conditions.len() ==> #[trigger] conditions[i].holds(context)
}

/// Evaluates a list of conditions: true exactly when all of them hold.
pub fn all_conditions_hold<P, C: Condition<P>>(conditions: &Vec<C>, context: &ConditionContext<P>) -> (r: bool)
    ensures
        r == all_hold(conditions@, *context),
{
    let n = conditions.len();
    let mut i: usize = 0;
    while i < n
        invariant
            n == conditions@.len(),
            i <= n,
            forall|j: int| 0 <= j < i ==> #[trigger] conditions@[j].holds(*context),
        decreases n - i,
    {
        if !conditions[i].evaluate(context) {
            return false;
        }
        i = i + 1;
    }
    true
}

/// What happens to an effect's activity after its conditions were evaluated.
#[derive(Debug, Clone, Copy, PartialEq, Eq, Structural)]
pub enum StatusChange {
    /// The effect was inactive and its conditions now hold.
    Activate,
    /// The effect was active and its conditions no longer hold.
    Deactivate,
    /// Nothing changes.
    Unchanged,
}

/// Whether an effect is inactive after a status change is applied.
pub open spec fn inactive_after(is_inactive: bool, change: StatusChange) -> bool {
    match change {
        StatusChange::Activate => false,
        StatusChange::Deactivate => true,
        StatusChange::Unchanged => is_inactive,
    }
}

/// Decides whether an effect must be activated or deactivated.
pub fn effect_status_change(should_be_active: bool, is_inactive: bool) -> (r: StatusChange)
    ensures
        r == (if should_be_active && is_inactive {
            StatusChange::Activate
        } else if !should_be_active && !is_inactive {
            StatusChange::Deactivate
        } else {
            StatusChange::Unchanged
        }),
{
    if should_be_active && is_inactive {
        StatusChange::Activate
    } else if !should_be_active && !is_inactive {
        StatusChange::Deactivate
    } else {
        StatusChange::Unchanged
    }
}

/// After its conditions are evaluated, an effect is inactive exactly when they do not all hold.
pub proof fn lemma_status_change_settles(should_be_active: bool, is_inactive: bool)
    ensures
        ({
            let change = if should_be_active && is_inactive {
                StatusChange::Activate
            } else if !should_be_active && !is_inactive {
                StatusChange::Deactivate
            } else {
                StatusChange::Unchanged
            };
            inactive_after(is_inactive, change) == !should_be_active
        }),
{
}

/// Holds when an attribute's current value on `who` lies within `bounds`.
pub struct IsAttributeWithinBounds<P> {
    pub who: EffectSubject,
    pub attribute: AttributeTypeId,
    pub bounds: (Bound<P>, Bound<P>),
}

impl<P: Value> IsAttributeWithinBounds<P> {
    pub fn new(bounds: (Bound<P>, Bound<P>), attribute: AttributeTypeId, who: EffectSubject) -> (r: Self)
        ensures
            r.who == who,
            r.attribute == attribute,
            r.bounds == bounds,
    {
        IsAttributeWithinBounds { who, attribute, bounds }
    }

    pub fn target(bounds: (Bound<P>, Bound<P>), attribute: AttributeTypeId) -> (r: Self)
        ensures
            r.who == EffectSubject::Target,
            r.attribute == attribute,
            r.bounds == bounds,
    {
        Self::new(bounds, attribute, EffectSubject::Target)
    }

    pub fn source(bounds: (Bound<P>, Bound<P>), attribute: AttributeTypeId) -> (r: Self)
        ensures
            r.who == EffectSubject::Source,
            r.attribute == attribute,
            r.bounds == bounds,
    {
        Self::new(bounds, attribute, EffectSubject::Source)
    }

    /// The result of evaluating the condition in a context.
    pub open spec fn spec_eval(&self, ctx: EffectExprContext<P>) -> Result<bool, ExpressionError> {
        match ctx.spec_attribute_ref(self.who).attribute(self.attribute) {
            Some(a) => Ok(spec_contains(self.bounds, a.current_value.to_int())),
            None => Err(ExpressionError::FailedReflect(ReflectFailure::MissingComponent)),
        }
    }

    /// Evaluates the condition: a reflection error when the entity lacks the attribute.
    pub fn eval(&self, ctx: &EffectExprContext<P>) -> (r: Result<bool, ExpressionError>)
        ensures
            r == self.spec_eval(*ctx),
    {
        let actor = ctx.attribute_ref(self.who);
        match actor.get(self.attribute) {
            Some(a) => Ok(bounds_contains(&self.bounds, a.current_value)),
            None => Err(ExpressionError::FailedReflect(ReflectFailure::MissingComponent)),
        }
    }

    /// The text the condition is displayed with, given its attribute's name:
    /// `Attribute <name> on <who> in range <start>, <end>`.
    pub open spec fn spec_text(&self, attribute_name: Seq<char>) -> Seq<char> {
        "Attribute "@ + attribute_name + " on "@ + self.who.spec_name() + " in range "@
            + start_text(self.bounds.0) + ", "@ + end_text(self.bounds.1)
    }

    /// The text the condition is displayed with, given its attribute's name.
    pub fn to_string(&self, attribute_name: &str) -> (r: String)
        ensures
            r@ == self.spec_text(attribute_name@),
    {
        proof {
            reveal_strlit("Attribute ");
            reveal_strlit(" on ");
            reveal_strlit(" in range ");
            reveal_strlit(", ");
        }
        let mut s = String::from_str("Attribute ");
        s.append(attribute_name);
        s.append(" on ");
        s.append(self.who.to_string().as_str());
        s.append(" in range ");
        s.append(start_to_string(&self.bounds.0).as_str());
        s.append(", ");
        s.append(end_to_string(&self.bounds.1).as_str());
        s
    }
}

/// How the lower end of a range is written: `[v` when included, `]v` when excluded.
pub open spec fn start_text<P: Value>(start: Bound<P>) -> Seq<char> {
    match start {
        Bound::Included(v) => "["@ + int_text(v.to_int()),
        Bound::Excluded(v) => "]"@ + int_text(v.to_int()),
        Bound::Unbounded => "(-\u{221e}"@,
    }
}

/// How the upper end of a range is written: `v]` when included, `v[` when excluded.
pub open spec fn end_text<P: Value>(end: Bound<P>) -> Seq<char> {
    match end {
        Bound::Included(v) => int_text(v.to_int()) + "]"@,
        Bound::Excluded(v) => int_text(v.to_int()) + "["@,
        Bound::Unbounded => "\u{221e})"@,
    }
}

fn start_to_string<P: Value>(start: &Bound<P>) -> (r: String)
    ensures
        r@ == start_text(*start),
{
    proof {
        reveal_strlit("[");
        reveal_strlit("]");
        reveal_strlit("(-\u{221e}");
    }
    match start {
        Bound::Included(v) => String::from_str("[").concat(v.to_text().as_str()),
        Bound::Excluded(v) => String::from_str("]").concat(v.to_text().as_str()),
        Bound::Unbounded => String::from_str("(-\u{221e}"),
    }
}

fn end_to_string<P: Value>(end: &Bound<P>) -> (r: String)
    ensures
        r@ == end_text(*end),
{
    proof {
        reveal_strlit("]");
        reveal_strlit("[");
        reveal_strlit("\u{221e})");
    }
    match end {
        Bound::Included(v) => v.to_text().concat("]"),
        Bound::Excluded(v) => v.to_text().concat("["),
        Bound::Unbounded => String::from_str("\u{221e})"),
    }
}

/// Holds when an entity holds the component with id `component`.
///
/// Evaluated in an effect's context it always inspects the effect's source,
/// whatever `who` designates.
pub struct HasComponent {
    pub who: EffectSubject,
    pub component: u64,
}

impl HasComponent {
    pub fn new(target: EffectSubject, component: u64) -> (r: Self)
        ensures
            r.who == target,
            r.component == component,
    {
        HasComponent { who: target, component }
    }

    pub fn source(component: u64) -> (r: Self)
        ensures
            r.who == EffectSubject::Source,
            r.component == component,
    {
        Self::new(EffectSubject::Source, component)
    }

    pub fn target(component: u64) -> (r: Self)
        ensures
            r.who == EffectSubject::Target,
            r.component == component,
    {
        Self::new(EffectSubject::Target, component)
    }

    pub fn effect(component: u64) -> (r: Self)
        ensures
            r.who == EffectSubject::Effect,
            r.component == component,
    {
        Self::new(EffectSubject::Effect, component)
    }

    /// Evaluates the condition in an effect's context.
    pub fn eval<P: Copy>(&self, ctx: &EffectExprContext<P>) -> (r: Result<bool, ExpressionError>)
        ensures
            r == Ok::<bool, ExpressionError>(ctx.source_actor.has_component(self.component)),
    {
        Ok(ctx.source_actor.contains(self.component))
    }
}

} // verus!

verus! {

/// Negating a conjunction is the disjunction of the negations.
pub proof fn lemma_not_and<P, C1: Condition<P>, C2: Condition<P>>(
    c: And<C1, C2>,
    context: ConditionContext<P>,
)
    ensures
        Not(c).holds(context) == (Or { c1: Not(c.c1), c2: Not(c.c2) }).holds(context),
{
}

/// Negating twice gives back the condition.
pub proof fn lemma_not_not<P, C: Condition<P>>(c: C, context: ConditionContext<P>)
    ensures
        Not(Not(c)).holds(context) == c.holds(context),
{
}

/// A list of conditions holds exactly when each of them holds in turn: the first
/// together with the rest.
pub proof fn lemma_all_hold_split<P, C: Condition<P>>(conditions: Seq<C>, context: ConditionContext<P>)
    requires
        conditions.len() > 0,
    ensures
        all_hold(conditions, context) == (conditions[0].holds(context) && all_hold(
            conditions.drop_first(),
            context,
        )),
{
    if conditions[0].holds(context) && all_hold(conditions.drop_first(), context) {
        assert forall|i: int| 0 <= i < conditions.len() implies #[trigger] conditions[i].holds(
            context,
        ) by {
            if i > 0 {
                assert(conditions[i] == conditions.drop_first()[i - 1]);
            }
        }
    }
    if all_hold(conditions, context) {
        assert(conditions[0].holds(context));
        assert forall|i: int| 0 <= i < conditions.drop_first().len() implies #[trigger] conditions.drop_first()[i].holds(
            context,
        ) by {
            assert(conditions.drop_first()[i] == conditions[i + 1]);
        }
    }
}

/// The entity of a condition context that `who` designates, read from the context's fields.
pub open spec fn context_entity<'a, P>(who: Who, context: ConditionContext<'a, P>) -> &'a AttributesRef<P> {
    if who == Who::Target {
        context.target_actor
    } else if who == Who::Source {
        context.source_actor
    } else {
        context.owner
    }
}

/// Whether `v` lies in the range that `bounds` describe, as `RangeBounds::contains`
/// decides it: at or above an included start, above an excluded one, at or below an
/// included end, below an excluded one; an unbounded end admits everything.
pub open spec fn in_range_bounds<P: Value>(bounds: (Bound<P>, Bound<P>), v: int) -> bool {
    &&& (bounds.0 matches Bound::Included(s) ==> s.to_int() <= v)
    &&& (bounds.0 matches Bound::Excluded(s) ==> s.to_int() < v)
    &&& (bounds.1 matches Bound::Included(e) ==> v <= e.to_int())
    &&& (bounds.1 matches Bound::Excluded(e) ==> v < e.to_int())
}

/// A value lies within bounds exactly when it lies on the allowed side of both ends.
pub proof fn lemma_contains_both_ends<P: Value>(bounds: (Bound<P>, Bound<P>), v: int)
    ensures
        spec_contains(bounds, v) <==> in_range_bounds(bounds, v),
        bounds.1 matches Bound::Included(e) ==> v > e.to_int() ==> !spec_contains(bounds, v),
        bounds.1 matches Bound::Excluded(e) ==> v >= e.to_int() ==> !spec_contains(bounds, v),
        bounds.0 matches Bound::Included(s) ==> v < s.to_int() ==> !spec_contains(bounds, v),
        bounds.0 matches Bound::Excluded(s) ==> v <= s.to_int() ==> !spec_contains(bounds, v),
{
}

/// An attribute condition holds exactly when the designated entity has the attribute
/// and its current value lies within both bounds; a current value beyond either end,
/// or a missing attribute, makes it fail.
pub proof fn lemma_attribute_condition_meaning<P: Value>(
    c: AttributeCondition<P>,
    context: ConditionContext<P>,
)
    ensures
        c.holds(context) <==> match spec_find(context_entity(c.target, context).attributes@, c.attribute) {
            Some(a) => in_range_bounds(c.bounds, a.current_value.to_int()),
            None => false,
        },
        spec_find(context_entity(c.target, context).attributes@, c.attribute) is None
            ==> !c.holds(context),
{
}

/// A stack condition holds exactly when the effect has a stack count that lies within
/// both bounds; a count beyond either end, or no count, makes it fail.
pub proof fn lemma_stack_condition_meaning<P>(c: StackCondition, context: ConditionContext<P>)
    ensures
        c.holds(context) <==> match context.owner.stacks {
            Some(n) => in_range_bounds(c.bounds, n as int),
            None => false,
        },
{
}

/// A tag condition holds exactly when the designated entity holds the component.
pub proof fn lemma_tag_condition_meaning<P: Copy>(c: TagCondition, context: ConditionContext<P>)
    ensures
        c.holds(context) <==> context_entity(c.target, context).components@.contains(c.component),
{
}

/// A conjunction holds when both parts do, a disjunction when either does, a
/// negation when its part does not.
pub proof fn lemma_combinators_meaning<P, C1: Condition<P>, C2: Condition<P>>(
    c1: C1,
    c2: C2,
    context: ConditionContext<P>,
)
    ensures
        (And { c1, c2 }).holds(context) <==> (c1.holds(context) && c2.holds(context)),
        (Or { c1, c2 }).holds(context) <==> (c1.holds(context) || c2.holds(context)),
        Not(c1).holds(context) <==> !c1.holds(context),
{
}

/// A list of conditions holds exactly when none of its conditions fails.
pub proof fn lemma_all_hold_meaning<P, C: Condition<P>>(conditions: Seq<C>, context: ConditionContext<P>)
    ensures
        all_hold(conditions, context) <==> !exists|i: int|
            0 <= i < conditions.len() && !(#[trigger] conditions[i].holds(context)),
{
}

/// The entity of an effect's expression context that `who` designates, read from its fields.
pub open spec fn effect_context_entity<'w, P>(who: EffectSubject, ctx: EffectExprContext<'w, P>) -> &'w AttributesRef<P> {
    if who == EffectSubject::Target {
        ctx.target_actor
    } else if who == EffectSubject::Source {
        ctx.source_actor
    } else {
        ctx.effect_holder
    }
}

/// A within-bounds condition reads the current value of the attribute on the entity
/// it designates: it holds when that value lies within both bounds, and a missing
/// attribute is a reflection failure.
pub proof fn lemma_within_bounds_meaning<P: Value>(c: IsAttributeWithinBounds<P>, ctx: EffectExprContext<P>)
    ensures
        c.spec_eval(ctx) == match spec_find(effect_context_entity(c.who, ctx).attributes@, c.attribute) {
            Some(a) => Ok::<bool, ExpressionError>(in_range_bounds(c.bounds, a.current_value.to_int())),
            None => Err(ExpressionError::FailedReflect(ReflectFailure::MissingComponent)),
        },
{
}

} // verus!
