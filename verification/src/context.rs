use crate::attributes::AttributesRef;
use crate::modifier::{AbilitySubject, EffectSubject};
use vstd::prelude::*;
use vstd::string::StrSliceExecFns;

verus! {

/// The entities an effect's expressions read.
pub struct EffectExprContext<'w, P> {
    pub source_actor: &'w AttributesRef<P>,
    pub target_actor: &'w AttributesRef<P>,
    pub effect_holder: &'w AttributesRef<P>,
}

impl<'w, P> EffectExprContext<'w, P> {
    pub open spec fn spec_attribute_ref(self, who: EffectSubject) -> &'w AttributesRef<P> {
        match who {
            EffectSubject::Target => self.target_actor,
            EffectSubject::Source => self.source_actor,
            EffectSubject::Effect => self.effect_holder,
        }
    }

    /// The entity that `who` designates.
    pub fn attribute_ref(&self, who: EffectSubject) -> (r: &'w AttributesRef<P>)
        ensures
            r == self.spec_attribute_ref(who),
    {
        match who {
            EffectSubject::Target => self.target_actor,
            EffectSubject::Source => self.source_actor,
            EffectSubject::Effect => self.effect_holder,
        }
    }
}

/// The entities an ability's expressions read.
pub struct AbilityExprContext<'w, P> {
    pub caster_ref: &'w AttributesRef<P>,
    pub ability_ref: &'w AttributesRef<P>,
    pub target_ref: &'w AttributesRef<P>,
}

impl<'w, P> AbilityExprContext<'w, P> {
    pub open spec fn spec_attribute_ref(self, who: AbilitySubject) -> &'w AttributesRef<P> {
        match who {
            AbilitySubject::Ability => self.ability_ref,
            AbilitySubject::Caster => self.caster_ref,
            AbilitySubject::Target => self.target_ref,
        }
    }

    /// The entity that `who` designates.
    pub fn attribute_ref(&self, who: AbilitySubject) -> (r: &'w AttributesRef<P>)
        ensures
            r == self.spec_attribute_ref(who),
    {
        match who {
            AbilitySubject::Ability => self.ability_ref,
            AbilitySubject::Caster => self.caster_ref,
            AbilitySubject::Target => self.target_ref,
        }
    }
}

} // verus!

verus! {

/// The position of the first occurrence of `c` in `s`.
pub open spec fn first_index_of(s: Seq<char>, c: char) -> Option<int>
    decreases s.len(),
{
    if s.len() == 0 {
        None
    } else if s[0] == c {
        Some(0)
    } else {
        match first_index_of(s.drop_first(), c) {
            Some(i) => Some(i + 1),
            None => None,
        }
    }
}

proof fn lemma_first_index_found(s: Seq<char>, c: char, i: int)
    requires
        0 <= i < s.len(),
        s[i] == c,
        forall|j: int| 0 <= j < i ==> s[j] != c,
    ensures
        first_index_of(s, c) == Some(i),
    decreases i,
{
    if i > 0 {
        lemma_first_index_found(s.drop_first(), c, i - 1);
    }
}

proof fn lemma_first_index_absent(s: Seq<char>, c: char)
    requires
        forall|j: int| 0 <= j < s.len() ==> s[j] != c,
    ensures
        first_index_of(s, c) is None,
    decreases s.len(),
{
    if s.len() > 0 {
        lemma_first_index_absent(s.drop_first(), c);
    }
}

proof fn lemma_first_index_bounds(s: Seq<char>, c: char)
    ensures
        first_index_of(s, c) matches Some(i) ==> 0 <= i < s.len() && s[i] == c,
    decreases s.len(),
{
    if s.len() > 0 {
        lemma_first_index_bounds(s.drop_first(), c);
    }
}

/// Finds the first '.' of a string.
fn find_dot(s: &str) -> (r: Option<usize>)
    ensures
        match first_index_of(s@, '.') {
            Some(i) => r == Some(i as usize),
            None => r is None,
        },
{
    let n = s.unicode_len();
    let mut i: usize = 0;
    while i < n
        invariant
            n == s@.len(),
            i <= n,
            forall|j: int| 0 <= j < i ==> s@[j] != '.',
        decreases n - i,
    {
        if s.get_char(i) == '.' {
            proof {
                lemma_first_index_found(s@, '.', i as int);
            }
            return Some(i);
        }
        i = i + 1;
    }
    proof {
        lemma_first_index_absent(s@, '.');
    }
    None
}

/// What `split_path` returns for a path, by characters: the subject before the first
/// '.', then the component up to the next '.', then the rest if there is a second '.'.
pub open spec fn spec_split_path(path: Seq<char>) -> Option<(Seq<char>, Seq<char>, Option<Seq<char>>)> {
    match first_index_of(path, '.') {
        None => None,
        Some(i) => {
            let subject = path.subrange(0, i);
            let rest = path.subrange(i + 1, path.len() as int);
            match first_index_of(rest, '.') {
                None => Some((subject, rest, None)),
                Some(j) => Some(
                    (subject, rest.subrange(0, j), Some(rest.subrange(j + 1, rest.len() as int))),
                ),
            }
        },
    }
}

/// Splits a path such as `"source.Health.base_value"` into its subject, its component
/// and, when present, the field path that follows.
pub fn split_path(path: &str) -> (r: Result<(&str, &str, Option<&str>), &'static str>)
    ensures
        match spec_split_path(path@) {
            None => r is Err && r->Err_0@ == "missing . separator"@,
            Some((subject, component, value)) => r is Ok && r->Ok_0.0@ == subject
                && r->Ok_0.1@ == component && match value {
                None => r->Ok_0.2 is None,
                Some(v) => r->Ok_0.2 is Some && r->Ok_0.2->Some_0@ == v,
            },
        },
{
    proof {
        lemma_first_index_bounds(path@, '.');
    }
    let n = path.unicode_len();
    let i = match find_dot(path) {
        Some(i) => i,
        None => {
            return Err("missing . separator");
        },
    };
    let subject = path.substring_char(0, i);
    let rest = path.substring_char(i + 1, n);
    proof {
        lemma_first_index_bounds(rest@, '.');
    }
    let m = rest.unicode_len();
    match find_dot(rest) {
        None => Ok((subject, rest, None)),
        Some(j) => {
            let component = rest.substring_char(0, j);
            let value = rest.substring_char(j + 1, m);
            Ok((subject, component, Some(value)))
        },
    }
}

} // verus!

verus! {

/// The entities an effect's expressions write to. An effect applied by an entity to
/// itself has no separate target.
pub struct EffectExprContextMut {
    pub source_actor: bevy::ecs::entity::Entity,
    pub target_actor: Option<bevy::ecs::entity::Entity>,
    pub owner: bevy::ecs::entity::Entity,
}

impl EffectExprContextMut {
    pub open spec fn spec_entity(self, who: EffectSubject) -> bevy::ecs::entity::Entity {
        match who {
            EffectSubject::Target => match self.target_actor {
                None => self.source_actor,
                Some(actor) => actor,
            },
            EffectSubject::Source => self.source_actor,
            EffectSubject::Effect => self.owner,
        }
    }

    /// The entity `who` designates; the target falls back to the source.
    pub fn entity(&self, who: EffectSubject) -> (r: bevy::ecs::entity::Entity)
        ensures
            r == self.spec_entity(who),
    {
        match who {
            EffectSubject::Target => match self.target_actor {
                None => self.source_actor,
                Some(actor) => actor,
            },
            EffectSubject::Source => self.source_actor,
            EffectSubject::Effect => self.owner,
        }
    }
}

} // verus!

verus! {

/// The text a split path is made of.
pub open spec fn rejoined(
    parts: (Seq<char>, Seq<char>, Option<Seq<char>>),
) -> Seq<char> {
    let head = parts.0 + seq!['.'] + parts.1;
    match parts.2 {
        None => head,
        Some(v) => head + seq!['.'] + v,
    }
}

/// Splitting a path loses nothing: the parts joined with '.' give the path back,
/// the subject holds no '.', and a path without '.' is refused.
pub proof fn lemma_split_path_rejoins(path: Seq<char>)
    ensures
        spec_split_path(path) matches Some(parts) ==> rejoined(parts) == path && !parts.0.contains(
            '.',
        ),
        spec_split_path(path) is None ==> !path.contains('.'),
{
    lemma_first_index_bounds(path, '.');
    match first_index_of(path, '.') {
        None => {
            if path.contains('.') {
                let k = choose|k: int| 0 <= k < path.len() && path[k] == '.';
                lemma_first_index_none_absent(path, '.', k);
            }
        },
        Some(i) => {
            let subject = path.subrange(0, i);
            let rest = path.subrange(i + 1, path.len() as int);
            lemma_first_index_bounds(rest, '.');
            lemma_first_index_prefix(path, '.');
            assert forall|k: int| 0 <= k < subject.len() implies subject[k] != '.' by {
                assert(subject[k] == path[k]);
            }
            match first_index_of(rest, '.') {
                None => {
                    assert(subject + seq!['.'] + rest =~= path);
                },
                Some(j) => {
                    assert(subject + seq!['.'] + rest.subrange(0, j) + seq!['.'] + rest.subrange(
                        j + 1,
                        rest.len() as int,
                    ) =~= path);
                },
            }
        },
    }
}

proof fn lemma_first_index_none_absent(s: Seq<char>, c: char, k: int)
    requires
        0 <= k < s.len(),
        s[k] == c,
    ensures
        first_index_of(s, c) is Some,
    decreases s.len(),
{
    if s[0] != c {
        lemma_first_index_none_absent(s.drop_first(), c, k - 1);
    }
}

proof fn lemma_first_index_prefix(s: Seq<char>, c: char)
    ensures
        first_index_of(s, c) matches Some(i) ==> forall|j: int| 0 <= j < i ==> s[j] != c,
    decreases s.len(),
{
    lemma_first_index_bounds(s, c);
    if s.len() > 0 && s[0] != c {
        lemma_first_index_prefix(s.drop_first(), c);
        if let Some(i) = first_index_of(s, c) {
            assert forall|j: int| 0 <= j < i implies s[j] != c by {
                if j > 0 {
                    assert(s[j] == s.drop_first()[j - 1]);
                }
            }
        }
    }
}


/// Each subject of an effect's context is its own entity: the target actor, the
/// source actor, the effect holder.
pub proof fn lemma_effect_context_meaning<P>(ctx: EffectExprContext<P>)
    ensures
        ctx.spec_attribute_ref(EffectSubject::Target) == ctx.target_actor,
        ctx.spec_attribute_ref(EffectSubject::Source) == ctx.source_actor,
        ctx.spec_attribute_ref(EffectSubject::Effect) == ctx.effect_holder,
{
}

/// Each subject of an ability's context is its own entity: the caster, the ability,
/// the target.
pub proof fn lemma_ability_context_meaning<P>(ctx: AbilityExprContext<P>)
    ensures
        ctx.spec_attribute_ref(AbilitySubject::Caster) == ctx.caster_ref,
        ctx.spec_attribute_ref(AbilitySubject::Ability) == ctx.ability_ref,
        ctx.spec_attribute_ref(AbilitySubject::Target) == ctx.target_ref,
{
}

/// Writing to an effect's target goes to the separate target when there is one and
/// to the source otherwise; the source and the effect are their own entities.
pub proof fn lemma_write_context_meaning(ctx: EffectExprContextMut)
    ensures
        ctx.spec_entity(EffectSubject::Target) == match ctx.target_actor {
            Some(t) => t,
            None => ctx.source_actor,
        },
        ctx.spec_entity(EffectSubject::Source) == ctx.source_actor,
        ctx.spec_entity(EffectSubject::Effect) == ctx.owner,
{
}

} // verus!
