use vstd::prelude::*;
use vstd::string::StringExecFns;

verus! {

/// The entity a modifier or a condition refers to, relative to an effect.
#[derive(Debug, Clone, Copy, PartialEq, Eq, Structural)]
pub enum Who {
    Target,
    Source,
    Owner,
}

impl Who {
    /// The name the value is displayed with.
    pub open spec fn spec_name(self) -> Seq<char> {
        match self {
            Who::Target => "Target"@,
            Who::Source => "Source"@,
            Who::Owner => "Owner"@,
        }
    }

    /// The name the value is displayed with.
    pub fn to_string(&self) -> (r: String)
        ensures
            r@ == self.spec_name(),
    {
        match self {
            Who::Target => String::from_str("Target"),
            Who::Source => String::from_str("Source"),
            Who::Owner => String::from_str("Owner"),
        }
    }

    /// The scope number of this entity in expressions: its position in the declaration.
    pub open spec fn spec_scope(self) -> u8 {
        match self {
            Who::Target => 0,
            Who::Source => 1,
            Who::Owner => 2,
        }
    }

    /// The scope number of this entity in expressions.
    pub fn into_scope(self) -> (r: u8)
        ensures
            r == self.spec_scope(),
    {
        match self {
            Who::Target => 0,
            Who::Source => 1,
            Who::Owner => 2,
        }
    }
}

impl TryFrom<u8> for Who {
    type Error = ();

    /// Converts a scope number back: 0, 1 and 2 are the target, the source and the owner.
    fn try_from(value: u8) -> (r: Result<Who, ()>) {
        match value {
            0 => Ok(Who::Target),
            1 => Ok(Who::Source),
            2 => Ok(Who::Owner),
            _ => Err(()),
        }
    }
}

impl vstd::std_specs::convert::TryFromSpecImpl<u8> for Who {
    open spec fn obeys_try_from_spec() -> bool {
        true
    }

    open spec fn try_from_spec(v: u8) -> Result<Who, ()> {
        if v == 0 {
            Ok(Who::Target)
        } else if v == 1 {
            Ok(Who::Source)
        } else if v == 2 {
            Ok(Who::Owner)
        } else {
            Err(())
        }
    }
}

/// The entities an effect relates: the one it targets, the one that created it, and the effect itself.
#[derive(Debug, Clone, Copy, PartialEq, Eq, Structural)]
pub enum EffectSubject {
    Target,
    Source,
    Effect,
}

impl EffectSubject {
    /// The name the value is displayed with.
    pub open spec fn spec_name(self) -> Seq<char> {
        match self {
            EffectSubject::Target => "Target"@,
            EffectSubject::Source => "Source"@,
            EffectSubject::Effect => "Effect"@,
        }
    }

    /// The name the value is displayed with.
    pub fn to_string(&self) -> (r: String)
        ensures
            r@ == self.spec_name(),
    {
        match self {
            EffectSubject::Target => String::from_str("Target"),
            EffectSubject::Source => String::from_str("Source"),
            EffectSubject::Effect => String::from_str("Effect"),
        }
    }
}

/// Read access to a modifier for inspection: a description and the name of the
/// attribute it modifies.
pub trait AccessModifier {
    fn describe(&self) -> String;

    fn name(&self) -> String;
}

/// The entities an ability relates.
#[derive(Debug, Clone, Copy, PartialEq, Eq, Structural)]
pub enum AbilitySubject {
    Ability,
    Caster,
    Target,
}

/// How a modifier changes an attribute.
#[derive(Debug, Clone, Copy, PartialEq, Eq, Structural)]
pub enum ModOp {
    Assign,
    Add,
    Sub,
    Increase,
    More,
}

impl ModOp {
    /// The symbol the operation is displayed with.
    pub open spec fn spec_symbol(self) -> Seq<char> {
        match self {
            ModOp::Assign => "="@,
            ModOp::Add => "+"@,
            ModOp::Sub => "-"@,
            ModOp::Increase => "+*"@,
            ModOp::More => "*"@,
        }
    }

    /// The symbol the operation is displayed with.
    pub fn to_string(&self) -> (r: String)
        ensures
            r@ == self.spec_symbol(),
    {
        match self {
            ModOp::Assign => String::from_str("="),
            ModOp::Add => String::from_str("+"),
            ModOp::Sub => String::from_str("-"),
            ModOp::Increase => String::from_str("+*"),
            ModOp::More => String::from_str("*"),
        }
    }
}

} // verus!

verus! {

/// A scope number converts back to the entity it was made from.
pub proof fn lemma_scope_roundtrip(who: Who)
    ensures
        <Who as vstd::std_specs::convert::TryFromSpec<u8>>::try_from_spec(who.spec_scope())
            == Ok::<Who, ()>(who),
{
}

/// Every scope number that converts names the entity whose scope it is.
pub proof fn lemma_scope_of_converted(value: u8)
    ensures
        <Who as vstd::std_specs::convert::TryFromSpec<u8>>::try_from_spec(value) matches Ok(
            who,
        ) ==> who.spec_scope() == value,
{
}

} // verus!
