use crate::attributes::AttributeTypeId;
use vstd::prelude::*;

verus! {

/// Why a binding was refused.
#[derive(Debug, Clone, Copy, PartialEq, Eq, Structural)]
pub enum BindingError {
    /// An attribute with the same name was bound already.
    DuplicateName,
}

/// The attribute types an application registered, by name. No name occurs twice.
pub struct AttributeBindings {
    pub type_ids: Vec<(String, AttributeTypeId)>,
}

/// Whether no name occurs twice in a list of bindings.
pub open spec fn names_unique(bindings: Seq<(String, AttributeTypeId)>) -> bool {
    forall|i: int, j: int|
        0 <= i < j < bindings.len() ==> (#[trigger] bindings[i]).0@ != (#[trigger] bindings[j]).0@
}

/// Whether a name is bound in a list of bindings.
pub open spec fn name_bound(bindings: Seq<(String, AttributeTypeId)>, name: Seq<char>) -> bool {
    exists|i: int| 0 <= i < bindings.len() && (#[trigger] bindings[i]).0@ == name
}

impl AttributeBindings {
    /// The well-formedness of the bindings: no name is bound twice.
    pub open spec fn wf(&self) -> bool {
        names_unique(self.type_ids@)
    }

    /// No bindings.
    pub fn new() -> (r: Self)
        ensures
            r.type_ids@.len() == 0,
            r.wf(),
    {
        AttributeBindings { type_ids: Vec::new() }
    }

    /// Whether an attribute with this name is bound.
    pub fn contains(&self, name: &String) -> (r: bool)
        ensures
            r == name_bound(self.type_ids@, name@),
    {
        let n = self.type_ids.len();
        let mut i: usize = 0;
        while i < n
            invariant
                n == self.type_ids@.len(),
                i <= n,
                forall|k: int| 0 <= k < i ==> (#[trigger] self.type_ids@[k]).0@ != name@,
            decreases n - i,
        {
            if self.type_ids[i].0 == *name {
                return true;
            }
            i = i + 1;
        }
        false
    }

    /// The type bound to a name, if any.
    pub fn type_id(&self, name: &String) -> (r: Option<AttributeTypeId>)
        ensures
            match r {
                Some(id) => exists|i: int|
                    0 <= i < self.type_ids@.len() && (#[trigger] self.type_ids@[i]).0@ == name@
                        && self.type_ids@[i].1 == id,
                None => !name_bound(self.type_ids@, name@),
            },
    {
        let n = self.type_ids.len();
        let mut i: usize = 0;
        while i < n
            invariant
                n == self.type_ids@.len(),
                i <= n,
                forall|k: int| 0 <= k < i ==> (#[trigger] self.type_ids@[k]).0@ != name@,
            decreases n - i,
        {
            if self.type_ids[i].0 == *name {
                return Some(self.type_ids[i].1);
            }
            i = i + 1;
        }
        None
    }

    /// Binds a name to an attribute type. Binding a name twice is a programming
    /// error that panics, so the name must be free; `try_bind_type_id` reports it instead.
    pub fn bind_type_id(&mut self, name: String, id: AttributeTypeId)
        requires
            old(self).wf(),
            !name_bound(old(self).type_ids@, name@),
        ensures
            final(self).type_ids@ == old(self).type_ids@.push((name, id)),
            final(self).wf(),
    {
        self.type_ids.push((name, id));
        assert forall|i: int, j: int|
            0 <= i < j < self.type_ids@.len() implies (#[trigger] self.type_ids@[i]).0@
            != (#[trigger] self.type_ids@[j]).0@ by {
            if j == self.type_ids@.len() - 1 {
                assert(old(self).type_ids@[i] == self.type_ids@[i]);
            } else {
                assert(old(self).type_ids@[i] == self.type_ids@[i]);
                assert(old(self).type_ids@[j] == self.type_ids@[j]);
            }
        }
    }

    /// Binds a name to an attribute type, or refuses a name that is bound already
    /// and leaves the bindings unchanged.
    pub fn try_bind_type_id(&mut self, name: String, id: AttributeTypeId) -> (r: Result<(), BindingError>)
        requires
            old(self).wf(),
        ensures
            final(self).wf(),
            name_bound(old(self).type_ids@, name@) ==> r == Err::<(), BindingError>(
                BindingError::DuplicateName,
            ) && final(self).type_ids@ == old(self).type_ids@,
            !name_bound(old(self).type_ids@, name@) ==> r is Ok && final(self).type_ids@
                == old(self).type_ids@.push((name, id)),
    {
        if self.contains(&name) {
            Err(BindingError::DuplicateName)
        } else {
            self.bind_type_id(name, id);
            Ok(())
        }
    }
}


/// A name is bound exactly when some binding carries it; binding a free name makes
/// it bound, with its type, and keeps every other binding.
pub proof fn lemma_bindings_meaning(
    bindings: Seq<(String, AttributeTypeId)>,
    name: String,
    id: AttributeTypeId,
)
    ensures
        forall|i: int| 0 <= i < bindings.len() ==> name_bound(bindings, (#[trigger] bindings[i]).0@),
        !name_bound(bindings, name@) ==> forall|i: int|
            0 <= i < bindings.len() ==> (#[trigger] bindings[i]).0@ != name@,
        name_bound(bindings.push((name, id)), name@),
{
    assert forall|i: int| 0 <= i < bindings.len() implies name_bound(bindings, (#[trigger] bindings[i]).0@) by {
        assert(bindings[i].0@ == bindings[i].0@);
    }
    assert(bindings.push((name, id))[bindings.len() as int].0@ == name@);
}

} // verus!
