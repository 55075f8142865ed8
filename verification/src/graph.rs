use bevy::ecs::entity::Entity;
use vstd::prelude::*;

verus! {

/// The kind of a node of the dependency graph.
#[derive(Debug, Clone, Copy, PartialEq, Eq, Structural)]
pub enum NodeType {
    Actor,
    Effect,
}

impl NodeType {
    pub open spec fn spec_name(self) -> Seq<char> {
        match self {
            NodeType::Actor => "Actor"@,
            NodeType::Effect => "Effect"@,
        }
    }

    /// The name the node type is displayed with.
    pub fn name(&self) -> (r: &'static str)
        ensures
            r@ == self.spec_name(),
    {
        match self {
            NodeType::Actor => "Actor",
            NodeType::Effect => "Effect",
        }
    }
}

/// The nodes a node depends on: an actor on the effects applied to it, an effect
/// on its source. Missing relations give no neighbours.
pub fn neighbors(
    node_type: NodeType,
    applied_effects: Option<&Vec<Entity>>,
    effect_source: Option<Entity>,
) -> (r: Vec<Entity>)
    ensures
        r@ == match node_type {
            NodeType::Actor => match applied_effects {
                Some(effects) => effects@,
                None => Seq::<Entity>::empty(),
            },
            NodeType::Effect => match effect_source {
                Some(source) => seq![source],
                None => Seq::<Entity>::empty(),
            },
        },
{
    match node_type {
        NodeType::Actor => match applied_effects {
            Some(effects) => {
                let mut out: Vec<Entity> = Vec::new();
                let n = effects.len();
                let mut i: usize = 0;
                while i < n
                    invariant
                        n == effects@.len(),
                        i <= n,
                        out@ =~= effects@.subrange(0, i as int),
                    decreases n - i,
                {
                    out.push(effects[i]);
                    i = i + 1;
                }
                out
            },
            None => Vec::new(),
        },
        NodeType::Effect => match effect_source {
            Some(source) => {
                let mut out: Vec<Entity> = Vec::new();
                out.push(source);
                out
            },
            None => Vec::new(),
        },
    }
}

} // verus!
