use crate::attributes::Value;
use crate::condition::{spec_contains, Bound};
use vstd::prelude::*;

verus! {

/// Limits for the base value of an attribute.
#[derive(Debug, Clone, Copy)]
pub struct Clamp<P> {
    pub min_limit: P,
    pub max_limit: P,
}

impl<P: Value> Clamp<P> {
    /// A clamp whose limits are both the default value, zero.
    pub fn new() -> (r: Self)
        ensures
            r.min_limit.to_int() == 0,
            r.max_limit.to_int() == 0,
    {
        Clamp { min_limit: P::zero(), max_limit: P::zero() }
    }
}

/// `value` raised to `min`, then lowered to `max`.
pub open spec fn spec_clamp_partial(value: int, min: int, max: int) -> int {
    let v = if value < min {
        min
    } else {
        value
    };
    if v > max {
        max
    } else {
        v
    }
}

/// Raises `value` to `min`, then lowers it to `max` (with `min > max` the result is `max`).
pub fn clamp_partial<P: Value>(value: P, min: P, max: P) -> (r: P)
    ensures
        r.to_int() == spec_clamp_partial(value.to_int(), min.to_int(), max.to_int()),
{
    let value = if value.lt_value(min) {
        min
    } else {
        value
    };
    if max.lt_value(value) {
        max
    } else {
        value
    }
}

/// The new base value of an attribute after its clamp is applied, or `None` when the
/// base value already lies within the limits (it is then left as it is).
pub open spec fn spec_apply_clamp<P: Value>(base: P, clamp: Clamp<P>) -> Option<int> {
    let c = spec_clamp_partial(base.to_int(), clamp.min_limit.to_int(), clamp.max_limit.to_int());
    if c != base.to_int() {
        Some(c)
    } else {
        None
    }
}

/// Clamps an attribute's base value: `Some(v)` is the new base value to store (the
/// current value is then recomputed), `None` means nothing changes.
pub fn apply_clamp<P: Value>(base: P, clamp: &Clamp<P>) -> (r: Option<P>)
    ensures
        match spec_apply_clamp(base, *clamp) {
            Some(v) => r is Some && r->Some_0.to_int() == v,
            None => r is None,
        },
{
    let clamped = clamp_partial(base, clamp.min_limit, clamp.max_limit);
    if !clamped.eq_value(base) {
        Some(clamped)
    } else {
        None
    }
}

/// Clamping is idempotent: a value that was clamped is not changed by clamping it again.
pub proof fn lemma_clamp_idempotent(value: int, min: int, max: int)
    ensures
        spec_clamp_partial(spec_clamp_partial(value, min, max), min, max) == spec_clamp_partial(
            value,
            min,
            max,
        ),
{
}

/// With ordered limits, a clamped value lies within them.
pub proof fn lemma_clamp_within(value: int, min: int, max: int)
    requires
        min <= max,
    ensures
        min <= spec_clamp_partial(value, min, max) <= max,
        min <= value <= max ==> spec_clamp_partial(value, min, max) == value,
{
}

/// Once a clamp has been applied, applying it again changes nothing.
pub proof fn lemma_apply_clamp_settles<P: Value>(base: P, new_base: P, clamp: Clamp<P>)
    requires
        spec_apply_clamp(base, clamp) == Some(new_base.to_int()),
    ensures
        spec_apply_clamp(new_base, clamp) is None,
{
}

/// The value after the lower bound of a range is enforced.
pub open spec fn clamp_start<P: Value>(v: int, start: Bound<P>) -> int {
    match start {
        Bound::Included(min) => if v < min.to_int() {
            min.to_int()
        } else {
            v
        },
        Bound::Excluded(min) => if v <= min.to_int() {
            min.to_int() + P::min_int()
        } else {
            v
        },
        Bound::Unbounded => v,
    }
}

/// The value after the upper bound of a range is enforced.
pub open spec fn clamp_end<P: Value>(v: int, end: Bound<P>) -> int {
    match end {
        Bound::Included(max) => if v > max.to_int() {
            max.to_int()
        } else {
            v
        },
        Bound::Excluded(max) => if v >= max.to_int() {
            max.to_int() - P::min_int()
        } else {
            v
        },
        Bound::Unbounded => v,
    }
}

/// Whether `bound_clamp` computes without overflow: an excluded bound moves the
/// value by the type's minimum value, which must stay representable.
pub open spec fn bound_clamp_defined<P: Value>(v: int, clamp: (Bound<P>, Bound<P>)) -> bool {
    P::in_range(clamp_start(v, clamp.0)) && P::in_range(clamp_end(clamp_start(v, clamp.0), clamp.1))
}

/// Moves a value into a range. An included bound replaces a value beyond it; an
/// excluded bound replaces a value at or beyond it by the bound moved by the type's
/// minimum value (`min + MIN` below, `max - MIN` above).
pub fn bound_clamp<P: Value>(value: P, clamp: &(Bound<P>, Bound<P>)) -> (r: P)
    requires
        bound_clamp_defined(value.to_int(), *clamp),
    ensures
        r.to_int() == clamp_end(clamp_start(value.to_int(), clamp.0), clamp.1),
{
    let value = match clamp.0 {
        Bound::Included(min) => if value.lt_value(min) {
            min
        } else {
            value
        },
        Bound::Excluded(min) => if value.le_value(min) {
            min.add_value(P::min_value())
        } else {
            value
        },
        Bound::Unbounded => value,
    };
    match clamp.1 {
        Bound::Included(max) => if max.lt_value(value) {
            max
        } else {
            value
        },
        Bound::Excluded(max) => if max.le_value(value) {
            max.sub_value(P::min_value())
        } else {
            value
        },
        Bound::Unbounded => value,
    }
}

} // verus!

verus! {

/// Clamping into included or unbounded ends yields a value that the same bounds contain,
/// when the lower end does not exceed the upper one.
pub proof fn lemma_bound_clamp_contained<P: Value>(v: int, clamp: (Bound<P>, Bound<P>))
    requires
        !(clamp.0 is Excluded),
        !(clamp.1 is Excluded),
        clamp.0 matches Bound::Included(lo) ==> clamp.1 matches Bound::Included(hi) ==> lo.to_int()
            <= hi.to_int(),
    ensures
        spec_contains(clamp, clamp_end(clamp_start(v, clamp.0), clamp.1)),
{
}

/// The value `bound_clamp` gives.
pub open spec fn bound_clamped<P: Value>(v: int, clamp: (Bound<P>, Bound<P>)) -> int {
    clamp_end(clamp_start(v, clamp.0), clamp.1)
}

/// With included or unbounded ends, `bound_clamp` never overflows: every value of
/// the type meets its precondition.
pub proof fn lemma_bound_clamp_defined<P: Value>(v: P, clamp: (Bound<P>, Bound<P>))
    requires
        !(clamp.0 is Excluded),
        !(clamp.1 is Excluded),
    ensures
        bound_clamp_defined(v.to_int(), clamp),
{
    v.lemma_range();
    if let Bound::Included(lo) = clamp.0 {
        lo.lemma_range();
    }
    if let Bound::Included(hi) = clamp.1 {
        hi.lemma_range();
    }
}

/// With included or unbounded, ordered ends, clamping into a range keeps a value that
/// lies in it and only such values, replaces a value below by the lower end and one
/// above by the upper end, is idempotent and preserves order.
pub proof fn lemma_bound_clamp_laws<P: Value>(v1: int, v2: int, clamp: (Bound<P>, Bound<P>))
    requires
        !(clamp.0 is Excluded),
        !(clamp.1 is Excluded),
        clamp.0 matches Bound::Included(lo) ==> clamp.1 matches Bound::Included(hi) ==> lo.to_int()
            <= hi.to_int(),
    ensures
        (bound_clamped(v1, clamp) == v1) <==> spec_contains(clamp, v1),
        clamp.0 matches Bound::Included(lo) ==> v1 < lo.to_int() ==> bound_clamped(v1, clamp)
            == lo.to_int(),
        clamp.1 matches Bound::Included(hi) ==> v1 > hi.to_int() ==> bound_clamped(v1, clamp)
            == hi.to_int(),
        bound_clamped(bound_clamped(v1, clamp), clamp) == bound_clamped(v1, clamp),
        v1 <= v2 ==> bound_clamped(v1, clamp) <= bound_clamped(v2, clamp),
{
}


/// Clamping a value raises it to the lower limit and then lowers it to the upper
/// one: a value between ordered limits is kept, one below goes to the lower limit,
/// one above to the upper; with crossed limits the upper one wins.
pub proof fn lemma_clamp_partial_meaning(value: int, min: int, max: int)
    ensures
        min <= value <= max ==> spec_clamp_partial(value, min, max) == value,
        value < min && min <= max ==> spec_clamp_partial(value, min, max) == min,
        value > max ==> spec_clamp_partial(value, min, max) == max,
        min > max ==> spec_clamp_partial(value, min, max) == max,
{
}

/// Applying a clamp gives a new base value exactly when clamping changes the base
/// value, and that new value is the clamped one.
pub proof fn lemma_apply_clamp_meaning<P: Value>(base: P, clamp: Clamp<P>)
    ensures
        ({
            let (lo, hi, b) = (clamp.min_limit.to_int(), clamp.max_limit.to_int(), base.to_int());
            &&& lo <= b <= hi ==> spec_apply_clamp(base, clamp) is None
            &&& b < lo && lo <= hi ==> spec_apply_clamp(base, clamp) == Some(lo)
            &&& b > hi ==> spec_apply_clamp(base, clamp) == Some(hi)
        }),
{
}

/// An excluded end moves a value at or beyond it by the type's minimum value: the
/// lower end to `min + MIN`, the upper end to `max - MIN`; a value strictly inside
/// an excluded end is kept.
pub proof fn lemma_excluded_ends<P: Value>(v: int, lo: P, hi: P)
    ensures
        v <= lo.to_int() ==> clamp_start(v, Bound::Excluded(lo)) == lo.to_int() + P::min_int(),
        v > lo.to_int() ==> clamp_start(v, Bound::Excluded(lo)) == v,
        v >= hi.to_int() ==> clamp_end(v, Bound::Excluded(hi)) == hi.to_int() - P::min_int(),
        v < hi.to_int() ==> clamp_end(v, Bound::Excluded(hi)) == v,
{
}

} // verus!
