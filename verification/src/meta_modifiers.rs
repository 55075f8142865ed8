use crate::attributes::{
    lemma_find_index, spec_find_index, AttributeSnapshot, AttributeTypeId, AttributesRef, Value,
};
use vstd::prelude::*;

verus! {

/// Computes a target attribute from the current value of a source attribute.
pub trait EvaluateMetaMod<V> {
    /// Whether the evaluation is defined on these inputs.
    spec fn evaluate_defined(&self, target: AttributeSnapshot<V>, source: V) -> bool;

    /// Whether `after` is what the evaluation makes of `before` given `source`.
    spec fn evaluates_to(
        &self,
        before: AttributeSnapshot<V>,
        source: V,
        after: AttributeSnapshot<V>,
    ) -> bool;

    fn evaluate(&self, target: &mut AttributeSnapshot<V>, source: V)
        requires
            self.evaluate_defined(*old(target), source),
        ensures
            self.evaluates_to(*old(target), source, *final(target)),
    ;
}

/// The standard evaluator: sets the target's base value to the source value
/// scaled by a magnitude, leaving its current value alone.
#[derive(Clone, Copy)]
pub struct MetaModEvaluator<V> {
    pub magnitude: V,
}

impl<V: Value> MetaModEvaluator<V> {
    /// An evaluator that copies the source value (magnitude one).
    pub fn new() -> (r: Self)
        ensures
            r.magnitude.to_int() == 1,
    {
        MetaModEvaluator { magnitude: V::one() }
    }
}

impl<V: Value> EvaluateMetaMod<V> for MetaModEvaluator<V> {
    open spec fn evaluate_defined(&self, target: AttributeSnapshot<V>, source: V) -> bool {
        V::in_range(source.to_int() * self.magnitude.to_int())
    }

    open spec fn evaluates_to(
        &self,
        before: AttributeSnapshot<V>,
        source: V,
        after: AttributeSnapshot<V>,
    ) -> bool {
        &&& after.id == before.id
        &&& after.current_value == before.current_value
        &&& after.base_value.to_int() == source.to_int() * self.magnitude.to_int()
    }

    fn evaluate(&self, target: &mut AttributeSnapshot<V>, source: V) {
        target.base_value = source.mul_value(self.magnitude);
    }
}

/// A modifier that derives one attribute of an entity from another.
pub struct MetaMod<C> {
    pub target_attribute: AttributeTypeId,
    pub source_attribute: AttributeTypeId,
    pub evaluator: C,
}

impl<C> MetaMod<C> {
    pub fn new(target_attribute: AttributeTypeId, source_attribute: AttributeTypeId, evaluator: C) -> (r: Self)
        ensures
            r.target_attribute == target_attribute,
            r.source_attribute == source_attribute,
            r.evaluator == evaluator,
    {
        MetaMod { target_attribute, source_attribute, evaluator }
    }

    /// Applies the modifier: the evaluator rewrites the target attribute from the
    /// source attribute's current value. The entity must hold both attributes.
    pub fn apply<V: Copy>(&self, entity_mut: &mut AttributesRef<V>)
        where
            C: EvaluateMetaMod<V>,
        requires
            old(entity_mut).attribute(self.source_attribute) is Some,
            old(entity_mut).attribute(self.target_attribute) is Some,
            self.evaluator.evaluate_defined(
                old(entity_mut).attribute(self.target_attribute)->Some_0,
                old(entity_mut).attribute(self.source_attribute)->Some_0.current_value,
            ),
        ensures
            ({
                let i = spec_find_index(old(entity_mut).attributes@, self.target_attribute)->Some_0;
                let source = old(entity_mut).attribute(self.source_attribute)->Some_0.current_value;
                &&& final(entity_mut).attributes@.len() == old(entity_mut).attributes@.len()
                &&& forall|j: int|
                    0 <= j < old(entity_mut).attributes@.len() && j != i
                        ==> #[trigger] final(entity_mut).attributes@[j] == old(entity_mut).attributes@[j]
                &&& self.evaluator.evaluates_to(
                    old(entity_mut).attributes@[i],
                    source,
                    final(entity_mut).attributes@[i],
                )
            }),
            final(entity_mut).components == old(entity_mut).components,
            final(entity_mut).stacks == old(entity_mut).stacks,
    {
        proof {
            lemma_find_index(entity_mut.attributes@, self.target_attribute);
        }
        let source = match entity_mut.get(self.source_attribute) {
            Some(a) => a.current_value,
            None => {
                assert(false);
                return;
            },
        };
        let i = match entity_mut.find_index(self.target_attribute) {
            Some(i) => i,
            None => {
                assert(false);
                return;
            },
        };
        let mut target = entity_mut.attributes[i];
        self.evaluator.evaluate(&mut target, source);
        entity_mut.attributes.set(i, target);
    }
}


/// The standard evaluator sets the target's base value to the source value times its
/// magnitude and leaves the target's id and current value as they were.
pub proof fn lemma_meta_evaluator_meaning<V: Value>(
    e: MetaModEvaluator<V>,
    before: AttributeSnapshot<V>,
    source: V,
    after: AttributeSnapshot<V>,
)
    requires
        e.evaluates_to(before, source, after),
    ensures
        after.base_value.to_int() == source.to_int() * e.magnitude.to_int(),
        after.current_value == before.current_value,
        after.id == before.id,
{
}

} // verus!
