use crate::ecs::{
    entity_eq, entity_is_placeholder, is_placeholder, timer_clone, timer_duration_nanos,
    timer_elapsed_nanos, timer_finished, timer_is_finished, timer_is_just_finished,
    timer_just_finished, timer_paused, timer_repeating, timer_reset, timer_tick, timer_tick_spec,
    timer_ticked, duration_as_nanos,
};
use crate::expression::ExpressionError;
use bevy::ecs::entity::Entity;
use bevy::time::Timer;
use core::time::Duration;
use vstd::arithmetic::div_mod::lemma_basic_div;
use vstd::prelude::*;

verus! {

/// The plugin that runs effects: ticks their timers and applies stacks.
pub struct EffectsPlugin;

/// Marks an effect whose activation conditions do not hold.
#[derive(Debug, Clone, Copy, Default)]
pub struct EffectInactive;

/// The remaining lifetime of an effect.
pub struct EffectDuration(pub Timer);

impl EffectDuration {
    pub fn new(timer: &Timer) -> (r: EffectDuration)
        ensures
            r.0 == *timer,
    {
        EffectDuration(timer_clone(timer))
    }
}

/// The period of an effect that applies repeatedly.
pub struct EffectTicker(pub Timer);

impl EffectTicker {
    pub fn new(timer: &Timer) -> (r: EffectTicker)
        ensures
            r.0 == *timer,
    {
        EffectTicker(timer_clone(timer))
    }
}

/// Advances an effect's duration by the frame's elapsed time and tells whether the
/// effect has expired (its entity is then despawned).
pub fn tick_effect_duration(duration: &mut EffectDuration, delta: Duration) -> (expired: bool)
    ensures
        final(duration).0 == timer_ticked(old(duration).0, delta),
        timer_tick_spec(old(duration).0, duration_as_nanos(delta), final(duration).0),
        expired == timer_finished(final(duration).0),
{
    timer_tick(&mut duration.0, delta);
    timer_is_finished(&duration.0)
}

/// Advances the period timer of a repeating effect.
pub fn tick_effect_ticker(ticker: &mut EffectTicker, delta: Duration)
    ensures
        final(ticker).0 == timer_ticked(old(ticker).0, delta),
        timer_tick_spec(old(ticker).0, duration_as_nanos(delta), final(ticker).0),
{
    timer_tick(&mut ticker.0, delta);
}

/// Whether `after` is `before` restarted: not finished, not just finished, no time
/// elapsed, with the same duration, mode and paused state.
pub open spec fn timer_restarted(after: Timer, before: Timer) -> bool {
    &&& !timer_finished(after)
    &&& !timer_just_finished(after)
    &&& timer_elapsed_nanos(after) == 0
    &&& timer_duration_nanos(after) == timer_duration_nanos(before)
    &&& timer_repeating(after) == timer_repeating(before)
    &&& timer_paused(after) == timer_paused(before)
}

/// Describes how an effect is applied to entities.
pub enum EffectApplicationPolicy {
    /// Applied once immediately.
    Instant,
    /// Applied once and persists forever.
    Permanent,
    /// Applied once, persists for a duration, then removed.
    Temporary { duration: Timer },
    /// Applied repeatedly at intervals, forever.
    Periodic { interval: Timer },
    /// Applied repeatedly at intervals for a limited time.
    PeriodicTemporary { interval: Timer, duration: Timer },
}

impl EffectApplicationPolicy {
    pub fn instant() -> (r: Self)
        ensures
            r is Instant,
    {
        EffectApplicationPolicy::Instant
    }

    pub fn permanent() -> (r: Self)
        ensures
            r is Permanent,
    {
        EffectApplicationPolicy::Permanent
    }

    pub open spec fn spec_is_expired(&self) -> bool {
        match self {
            EffectApplicationPolicy::Instant => true,
            EffectApplicationPolicy::Permanent => false,
            EffectApplicationPolicy::Periodic { .. } => false,
            EffectApplicationPolicy::Temporary { duration } => timer_finished(*duration),
            EffectApplicationPolicy::PeriodicTemporary { duration, .. } => timer_finished(*duration),
        }
    }

    /// Whether the effect is over: instant effects always are, limited ones when their
    /// duration has finished.
    pub fn is_expired(&self) -> (r: bool)
        ensures
            r == self.spec_is_expired(),
    {
        match self {
            EffectApplicationPolicy::Instant => true,
            EffectApplicationPolicy::Permanent => false,
            EffectApplicationPolicy::Periodic { .. } => false,
            EffectApplicationPolicy::Temporary { duration } => timer_is_finished(duration),
            EffectApplicationPolicy::PeriodicTemporary { duration, .. } => timer_is_finished(duration),
        }
    }

    pub open spec fn spec_is_periodic(&self) -> bool {
        self is Periodic || self is PeriodicTemporary
    }

    /// Whether the effect applies repeatedly.
    pub fn is_periodic(&self) -> (r: bool)
        ensures
            r == self.spec_is_periodic(),
    {
        match self {
            EffectApplicationPolicy::Instant => false,
            EffectApplicationPolicy::Permanent => false,
            EffectApplicationPolicy::Temporary { .. } => false,
            EffectApplicationPolicy::Periodic { .. } => true,
            EffectApplicationPolicy::PeriodicTemporary { .. } => true,
        }
    }

    pub open spec fn spec_should_apply_now(&self) -> bool {
        match self {
            EffectApplicationPolicy::Instant => true,
            EffectApplicationPolicy::Permanent => false,
            EffectApplicationPolicy::Temporary { .. } => false,
            EffectApplicationPolicy::Periodic { interval } => timer_just_finished(*interval),
            EffectApplicationPolicy::PeriodicTemporary { interval, .. } => timer_just_finished(
                *interval,
            ),
        }
    }

    /// Whether the effect's modifiers apply at this moment: instant effects on creation,
    /// periodic ones on the tick their interval elapses.
    pub fn should_apply_now(&self) -> (r: bool)
        ensures
            r == self.spec_should_apply_now(),
    {
        match self {
            EffectApplicationPolicy::Instant => true,
            EffectApplicationPolicy::Permanent => false,
            EffectApplicationPolicy::Temporary { .. } => false,
            EffectApplicationPolicy::Periodic { interval } => timer_is_just_finished(interval),
            EffectApplicationPolicy::PeriodicTemporary { interval, .. } => timer_is_just_finished(
                interval,
            ),
        }
    }

    /// How a policy relates to itself after `reset`: a limited effect's duration is
    /// restarted (see `timer_restarted`), its interval kept; other
    /// policies are unchanged.
    pub open spec fn spec_reset_from(self, before: Self) -> bool {
        match before {
            EffectApplicationPolicy::Temporary { duration: before_duration } => match self {
                EffectApplicationPolicy::Temporary { duration } => timer_restarted(
                    duration,
                    before_duration,
                ),
                _ => false,
            },
            EffectApplicationPolicy::PeriodicTemporary {
                interval: before_interval,
                duration: before_duration,
            } => match self {
                EffectApplicationPolicy::PeriodicTemporary { interval, duration } => interval
                    == before_interval && timer_restarted(duration, before_duration),
                _ => false,
            },
            _ => self == before,
        }
    }

    /// Restarts the duration of a limited effect; other policies are left as they are.
    pub fn reset(&mut self)
        ensures
            final(self).spec_reset_from(*old(self)),
    {
        match self {
            EffectApplicationPolicy::Temporary { duration } => {
                timer_reset(duration);
            },
            EffectApplicationPolicy::PeriodicTemporary { duration, .. } => {
                timer_reset(duration);
            },
            _ => {},
        }
    }

    /// The components an applied effect carries: its duration for limited effects,
    /// its period for repeating ones.
    pub fn to_bundles(&self) -> (r: (Option<EffectDuration>, Option<EffectTicker>))
        ensures
            match self {
                EffectApplicationPolicy::Instant => r.0 is None && r.1 is None,
                EffectApplicationPolicy::Permanent => r.0 is None && r.1 is None,
                EffectApplicationPolicy::Temporary { duration } => r.0 == Some(
                    EffectDuration(*duration),
                ) && r.1 is None,
                EffectApplicationPolicy::Periodic { interval } => r.0 is None && r.1 == Some(
                    EffectTicker(*interval),
                ),
                EffectApplicationPolicy::PeriodicTemporary { interval, duration } => r.0 == Some(
                    EffectDuration(*duration),
                ) && r.1 == Some(EffectTicker(*interval)),
            },
    {
        let duration = match self {
            EffectApplicationPolicy::Temporary { duration } => Some(EffectDuration::new(duration)),
            EffectApplicationPolicy::PeriodicTemporary { duration, .. } => Some(
                EffectDuration::new(duration),
            ),
            _ => None,
        };
        let period = match self {
            EffectApplicationPolicy::Periodic { interval } => Some(EffectTicker::new(interval)),
            EffectApplicationPolicy::PeriodicTemporary { interval, .. } => Some(
                EffectTicker::new(interval),
            ),
            _ => None,
        };
        (duration, period)
    }
}

/// What applying an effect does: whether its modifiers apply at once, and whether
/// the effect is spawned as an entity that persists.
pub fn application_steps(policy: &EffectApplicationPolicy) -> (r: (bool, bool))
    ensures
        r.0 == policy.spec_should_apply_now(),
        r.1 == !(policy is Instant),
{
    let apply_now = policy.should_apply_now();
    let persists = match policy {
        EffectApplicationPolicy::Instant => false,
        _ => true,
    };
    (apply_now, persists)
}

/// Whether a list of condition results lets an effect proceed: every result must be
/// true, and a condition that failed to evaluate counts as `on_error`.
pub open spec fn spec_all_pass(results: Seq<Result<bool, ExpressionError>>, on_error: bool) -> bool {
    forall|i: int|
        0 <= i < results.len() ==> match #[trigger] results[i] {
            Ok(b) => b,
            Err(_) => on_error,
        }
}

/// Decides a list of condition results. Activation conditions count an error as
/// failing (`on_error` false); attach conditions count it as passing.
pub fn all_pass(results: &Vec<Result<bool, ExpressionError>>, on_error: bool) -> (r: bool)
    ensures
        r == spec_all_pass(results@, on_error),
{
    let n = results.len();
    let mut i: usize = 0;
    while i < n
        invariant
            n == results@.len(),
            i <= n,
            forall|j: int|
                0 <= j < i ==> match #[trigger] results@[j] {
                    Ok(b) => b,
                    Err(_) => on_error,
                },
        decreases n - i,
    {
        let pass = match &results[i] {
            Ok(b) => *b,
            Err(_) => on_error,
        };
        if !pass {
            return false;
        }
        i = i + 1;
    }
    true
}

/// Who applies an effect to whom.
pub enum EffectTargeting {
    SelfCast(Entity),
    Targeted { source: Entity, target: Entity },
}

impl EffectTargeting {
    pub open spec fn spec_source(&self) -> Entity {
        match self {
            EffectTargeting::SelfCast(e) => *e,
            EffectTargeting::Targeted { source, .. } => *source,
        }
    }

    pub open spec fn spec_target(&self) -> Entity {
        match self {
            EffectTargeting::SelfCast(e) => *e,
            EffectTargeting::Targeted { target, .. } => *target,
        }
    }

    /// Builds the targeting of an effect; an entity that targets itself is a self cast.
    pub fn new(source: Entity, target: Entity) -> (r: Self)
        requires
            !is_placeholder(source),
            !is_placeholder(target),
        ensures
            r.spec_source() == source,
            r.spec_target() == target,
            r is SelfCast <==> source == target,
    {
        if entity_eq(&source, &target) {
            EffectTargeting::SelfCast(source)
        } else {
            EffectTargeting::Targeted { source, target }
        }
    }

    /// Builds the targeting of an effect, or `None` when either entity is the placeholder.
    pub fn try_new(source: Entity, target: Entity) -> (r: Option<Self>)
        ensures
            r is Some <==> !is_placeholder(source) && !is_placeholder(target),
            r matches Some(t) ==> t.spec_source() == source && t.spec_target() == target && (
            t is SelfCast <==> source == target),
    {
        if entity_is_placeholder(&source) || entity_is_placeholder(&target) {
            None
        } else {
            Some(Self::new(source, target))
        }
    }

    pub fn source(&self) -> (r: Entity)
        ensures
            r == self.spec_source(),
    {
        match self {
            EffectTargeting::SelfCast(e) => *e,
            EffectTargeting::Targeted { source, .. } => *source,
        }
    }

    pub fn target(&self) -> (r: Entity)
        ensures
            r == self.spec_target(),
    {
        match self {
            EffectTargeting::SelfCast(e) => *e,
            EffectTargeting::Targeted { target, .. } => *target,
        }
    }
}

/// Which actor of an effect a modifier of that effect is spawned on.
#[derive(Debug, Clone, Copy, PartialEq, Eq, Structural)]
pub enum ModTarget {
    Target,
    Source,
}

impl ModTarget {
    /// The actor the modifier goes to: the effect's target or its source.
    pub fn actor(&self, targeting: &EffectTargeting) -> (r: Entity)
        ensures
            r == match *self {
                ModTarget::Target => targeting.spec_target(),
                ModTarget::Source => targeting.spec_source(),
            },
    {
        match self {
            ModTarget::Target => targeting.target(),
            ModTarget::Source => targeting.source(),
        }
    }
}

/// Whether an effect's status query found it inactive and/or repeating.
pub struct EffectStatusParamItem<'a> {
    pub inactive: Option<&'a EffectInactive>,
    pub periodic: Option<&'a EffectTicker>,
}

impl<'a> EffectStatusParamItem<'a> {
    pub fn is_inactive(&self) -> (r: bool)
        ensures
            r == self.inactive is Some,
    {
        self.inactive.is_some()
    }

    pub fn is_periodic(&self) -> (r: bool)
        ensures
            r == self.periodic is Some,
    {
        self.periodic.is_some()
    }
}

} // verus!

verus! {

/// How a new application of an effect combines with one already on the actor.
pub enum EffectStackingPolicy {
    /// Each application is an independent effect.
    Independent,
    /// Adds `count` stacks to the existing effect, up to `max_stack`.
    Add { count: u32, max_stack: u32 },
    /// Restarts the duration of the existing effect.
    RefreshDuration,
}

/// The number of stacks of an effect, as an attribute: a base and a current value.
#[derive(Debug, Clone, Copy, PartialEq, Eq, Structural)]
pub struct Stacks {
    pub base_value: u32,
    pub current_value: u32,
}

impl Stacks {
    pub open spec fn new_spec(value: u32) -> Stacks {
        Stacks { base_value: value, current_value: value }
    }

    pub fn new(value: u32) -> (r: Stacks)
        ensures
            r == Stacks::new_spec(value),
    {
        Stacks { base_value: value, current_value: value }
    }

    pub fn base_value(&self) -> (r: u32)
        ensures
            r == self.base_value,
    {
        self.base_value
    }

    pub fn set_base_value(&mut self, value: u32)
        ensures
            final(self).base_value == value,
            final(self).current_value == old(self).current_value,
    {
        self.base_value = value;
    }

    pub fn current_value(&self) -> (r: u32)
        ensures
            r == self.current_value,
    {
        self.current_value
    }

    pub fn set_current_value(&mut self, value: u32)
        ensures
            final(self).current_value == value,
            final(self).base_value == old(self).base_value,
    {
        self.current_value = value;
    }
}

impl Default for Stacks {
    /// A new effect has one stack.
    fn default() -> (r: Stacks)
        ensures
            r.base_value == 1,
            r.current_value == 1,
    {
        Stacks::new(1)
    }
}

/// Why a stacking policy could not be applied.
#[derive(Debug, Clone, Copy, PartialEq, Eq, Structural)]
pub enum StackingError {
    /// The effect has no `Stacks` component.
    MissingStacks,
    /// The effect has no duration to refresh.
    MissingDuration,
    /// The policy does not stack.
    IncompatiblePolicy,
}

/// `value` clamped to `[lo, hi]`, as `Ord::clamp` computes it.
pub open spec fn spec_clamp(value: int, lo: int, hi: int) -> int {
    if value < lo {
        lo
    } else if value > hi {
        hi
    } else {
        value
    }
}

/// Whether the policy can be applied to an effect with this stack count without panicking.
pub open spec fn stacking_defined(policy: EffectStackingPolicy, stacks: Option<Stacks>) -> bool {
    match policy {
        EffectStackingPolicy::Add { count, max_stack } => match stacks {
            Some(s) => max_stack >= 1 && s.base_value + count <= u32::MAX,
            None => true,
        },
        _ => true,
    }
}

impl Stacks {
    /// Applies a stacking policy to an effect that is applied again: adds stacks
    /// (clamped between one and the maximum) or restarts the duration.
    pub fn apply_stacking_policy(
        policy: &EffectStackingPolicy,
        stacks: &mut Option<Stacks>,
        duration: &mut Option<EffectDuration>,
    ) -> (r: Result<(), StackingError>)
        requires
            stacking_defined(*policy, *old(stacks)),
        ensures
            match *policy {
                EffectStackingPolicy::Add { count, max_stack } => match *old(stacks) {
                    Some(s) => r is Ok && *final(stacks) == Some(
                        Stacks::new_spec(
                            spec_clamp(s.base_value + count, 1, max_stack as int) as u32,
                        ),
                    ),
                    None => r == Err::<(), StackingError>(StackingError::MissingStacks)
                        && *final(stacks) == *old(stacks),
                },
                _ => *final(stacks) == *old(stacks),
            },
            match *policy {
                EffectStackingPolicy::RefreshDuration => match *final(duration) {
                    Some(d) => r is Ok && (*old(duration)) is Some && timer_restarted(
                        d.0,
                        old(duration)->Some_0.0,
                    ),
                    None => r == Err::<(), StackingError>(StackingError::MissingDuration)
                        && (*old(duration)) is None,
                },
                _ => *final(duration) == *old(duration),
            },
            *policy is Independent ==> r == Err::<(), StackingError>(
                StackingError::IncompatiblePolicy,
            ),
    {
        match policy {
            EffectStackingPolicy::Add { count, max_stack } => match stacks {
                Some(stack_count) => {
                    let base = stack_count.base_value() + *count;
                    let clamped = if base < 1 {
                        1
                    } else if base > *max_stack {
                        *max_stack
                    } else {
                        base
                    };
                    stack_count.set_base_value(clamped);
                    stack_count.set_current_value(clamped);
                    Ok(())
                },
                None => Err(StackingError::MissingStacks),
            },
            EffectStackingPolicy::RefreshDuration => match duration {
                Some(d) => {
                    timer_reset(&mut d.0);
                    Ok(())
                },
                None => Err(StackingError::MissingDuration),
            },
            EffectStackingPolicy::Independent => Err(StackingError::IncompatiblePolicy),
        }
    }
}

/// What applying a persistent effect does once the effects already on the actor are known.
pub enum PersistentEffectAction {
    /// Spawn a new effect entity.
    Spawn,
    /// Add stacks to (or refresh) this existing effect.
    AddStack(Entity),
}

/// The first candidate marked as the same effect definition, if any.
pub open spec fn spec_first_match(candidates: Seq<(Entity, bool)>) -> Option<Entity>
    decreases candidates.len(),
{
    if candidates.len() == 0 {
        None
    } else if candidates[0].1 {
        Some(candidates[0].0)
    } else {
        spec_first_match(candidates.drop_first())
    }
}

/// Decides whether a persistent effect is spawned or stacks onto an existing one.
///
/// `effects_on_actor` lists the effects on the target, each marked whether it comes
/// from the same definition as the effect being applied.
pub fn persistent_effect_action(
    policy: &EffectStackingPolicy,
    effects_on_actor: &Vec<(Entity, bool)>,
) -> (r: PersistentEffectAction)
    ensures
        match *policy {
            EffectStackingPolicy::Independent => r is Spawn,
            _ => match spec_first_match(effects_on_actor@) {
                Some(e) => r == PersistentEffectAction::AddStack(e),
                None => r is Spawn,
            },
        },
{
    match policy {
        EffectStackingPolicy::Independent => PersistentEffectAction::Spawn,
        _ => {
            let n = effects_on_actor.len();
            let mut i: usize = 0;
            assert(effects_on_actor@.subrange(0, n as int) =~= effects_on_actor@);
            while i < n
                invariant
                    n == effects_on_actor@.len(),
                    i <= n,
                    !(*policy is Independent),
                    spec_first_match(effects_on_actor@) == spec_first_match(
                        effects_on_actor@.subrange(i as int, n as int),
                    ),
                decreases n - i,
            {
                let (e, same) = effects_on_actor[i];
                assert(effects_on_actor@.subrange(i as int, n as int)[0] == (e, same));
                if same {
                    return PersistentEffectAction::AddStack(e);
                }
                assert(effects_on_actor@.subrange(i as int, n as int).drop_first()
                    =~= effects_on_actor@.subrange((i + 1) as int, n as int));
                i = i + 1;
            }
            PersistentEffectAction::Spawn
        },
    }
}

} // verus!

verus! {

/// Restarting a policy leaves only an instant effect expired.
pub proof fn lemma_reset_unexpires(before: EffectApplicationPolicy, after: EffectApplicationPolicy)
    requires
        after.spec_reset_from(before),
    ensures
        after.spec_is_expired() == (before is Instant),
        after.spec_is_periodic() == before.spec_is_periodic(),
{
}

/// Restarting a policy does not change whether it applies at this moment.
pub proof fn lemma_reset_keeps_application(
    before: EffectApplicationPolicy,
    after: EffectApplicationPolicy,
)
    requires
        after.spec_reset_from(before),
    ensures
        after.spec_should_apply_now() == before.spec_should_apply_now(),
{
}

/// A running one-shot duration expires on the tick that brings its elapsed time to
/// its length, and not before.
pub proof fn lemma_duration_expires(before: Timer, delta_nanos: nat, after: Timer)
    requires
        timer_tick_spec(before, delta_nanos, after),
        !timer_paused(before),
        !timer_repeating(before),
        !timer_finished(before),
        timer_elapsed_nanos(before) + delta_nanos <= crate::ecs::max_duration_nanos(),
    ensures
        timer_finished(after) <==> timer_elapsed_nanos(before) + delta_nanos
            >= timer_duration_nanos(before),
{
}

/// A running repeating interval makes its effect apply exactly on the ticks that
/// complete it (a number of completions that is not a multiple of 2^32).
pub proof fn lemma_interval_applies(before: Timer, delta_nanos: nat, after: Timer)
    requires
        timer_tick_spec(before, delta_nanos, after),
        !timer_paused(before),
        timer_repeating(before),
        timer_duration_nanos(before) > 0,
        timer_elapsed_nanos(before) + delta_nanos <= crate::ecs::max_duration_nanos(),
    ensures
        timer_just_finished(after) <==> ((timer_elapsed_nanos(before) + delta_nanos)
            / timer_duration_nanos(before)) % 0x1_0000_0000 != 0,
{
    let s = timer_elapsed_nanos(before) + delta_nanos;
    let d = timer_duration_nanos(before) as int;
    if s < d {
        lemma_basic_div(s as int, d);
    }
}

/// Adding stacks keeps the count between one and the maximum, and the current
/// value equal to the base value.
pub proof fn lemma_add_stacks_bounded(base: u32, count: u32, max_stack: u32)
    requires
        max_stack >= 1,
        base + count <= u32::MAX,
    ensures
        ({
            let s = Stacks::new_spec(spec_clamp(base + count, 1, max_stack as int) as u32);
            1 <= s.base_value <= max_stack && s.current_value == s.base_value
        }),
{
}

/// The effect that a new application stacks onto is the first of the effects on the
/// actor that come from the same definition.
pub proof fn lemma_first_match_is_candidate(candidates: Seq<(Entity, bool)>)
    ensures
        spec_first_match(candidates) matches Some(e) ==> exists|i: int|
            0 <= i < candidates.len() && #[trigger] candidates[i] == (e, true) && forall|j: int|
                0 <= j < i ==> !(#[trigger] candidates[j]).1,
        spec_first_match(candidates) is None ==> forall|i: int|
            0 <= i < candidates.len() ==> !(#[trigger] candidates[i]).1,
    decreases candidates.len(),
{
    if candidates.len() > 0 {
        lemma_first_match_is_candidate(candidates.drop_first());
        if let Some(e) = spec_first_match(candidates) {
            if !candidates[0].1 {
                let i = choose|i: int|
                    0 <= i < candidates.drop_first().len() && #[trigger] candidates.drop_first()[i]
                        == (e, true) && forall|j: int|
                        0 <= j < i ==> !(#[trigger] candidates.drop_first()[j]).1;
                assert(candidates[i + 1] == (e, true));
                assert forall|j: int| 0 <= j < i + 1 implies !(#[trigger] candidates[j]).1 by {
                    if j > 0 {
                        assert(candidates[j] == candidates.drop_first()[j - 1]);
                    }
                }
            } else {
                assert(candidates[0] == (e, true));
            }
        } else {
            assert forall|i: int| 0 <= i < candidates.len() implies !(#[trigger] candidates[i]).1 by {
                if i > 0 {
                    assert(candidates[i] == candidates.drop_first()[i - 1]);
                }
            }
        }
    }
}

/// What each policy reports: an instant effect is always expired, a permanent or
/// periodic one never, and one with a duration exactly when that duration has
/// finished; only the periodic policies repeat; an instant effect applies at once,
/// permanent and temporary ones never at a given moment, and a periodic one exactly
/// when its interval has just finished.
pub proof fn lemma_policy_meaning(p: EffectApplicationPolicy)
    ensures
        p is Instant ==> p.spec_is_expired() && !p.spec_is_periodic() && p.spec_should_apply_now(),
        p is Permanent ==> !p.spec_is_expired() && !p.spec_is_periodic()
            && !p.spec_should_apply_now(),
        p matches EffectApplicationPolicy::Temporary { duration } ==> p.spec_is_expired()
            == timer_finished(duration) && !p.spec_is_periodic() && !p.spec_should_apply_now(),
        p matches EffectApplicationPolicy::Periodic { interval } ==> !p.spec_is_expired()
            && p.spec_is_periodic() && p.spec_should_apply_now() == timer_just_finished(interval),
        p matches EffectApplicationPolicy::PeriodicTemporary { interval, duration }
            ==> p.spec_is_expired() == timer_finished(duration) && p.spec_is_periodic()
            && p.spec_should_apply_now() == timer_just_finished(interval),
{
}

/// Restarting a policy restarts the duration of a limited effect, keeps the interval
/// of a periodic-temporary one, and leaves every other policy as it was.
pub proof fn lemma_reset_meaning(before: EffectApplicationPolicy, after: EffectApplicationPolicy)
    requires
        after.spec_reset_from(before),
    ensures
        before matches EffectApplicationPolicy::Temporary { duration: d0 } ==> after matches EffectApplicationPolicy::Temporary { duration: d1 } && !timer_finished(d1)
            && !timer_just_finished(d1) && timer_elapsed_nanos(d1) == 0 && timer_duration_nanos(d1)
            == timer_duration_nanos(d0),
        before matches EffectApplicationPolicy::PeriodicTemporary { interval: i0, duration: d0 }
            ==> after matches EffectApplicationPolicy::PeriodicTemporary { interval: i1, duration: d1 }
            && i1 == i0 && !timer_finished(d1) && !timer_just_finished(d1) && timer_elapsed_nanos(d1)
            == 0 && timer_duration_nanos(d1) == timer_duration_nanos(d0),
        (before is Instant || before is Permanent || before is Periodic) ==> after == before,
{
}

/// A list of condition results lets an effect proceed exactly when no result is false
/// and, unless errors count as passing, no result is an error.
pub proof fn lemma_all_pass_meaning(results: Seq<Result<bool, ExpressionError>>, on_error: bool)
    ensures
        spec_all_pass(results, on_error) <==> !exists|i: int|
            0 <= i < results.len() && (#[trigger] results[i] == Ok::<bool, ExpressionError>(false)
                || (results[i] is Err && !on_error)),
{
    if spec_all_pass(results, on_error) {
        assert forall|i: int| 0 <= i < results.len() implies !(#[trigger] results[i] == Ok::<
            bool,
            ExpressionError,
        >(false) || (results[i] is Err && !on_error)) by {
            match results[i] {
                Ok(b) => {},
                Err(_) => {},
            }
        }
    }
    if !spec_all_pass(results, on_error) {
        let i = choose|i: int|
            0 <= i < results.len() && !match #[trigger] results[i] {
                Ok(b) => b,
                Err(_) => on_error,
            };
        match results[i] {
            Ok(b) => assert(results[i] == Ok::<bool, ExpressionError>(false)),
            Err(_) => {},
        }
    }
}


/// Clamping a stack count between one and the maximum keeps a count in range, raises
/// one below to the lower end and lowers one above to the upper end.
pub proof fn lemma_stack_clamp_meaning(value: int, lo: int, hi: int)
    requires
        lo <= hi,
    ensures
        lo <= value <= hi ==> spec_clamp(value, lo, hi) == value,
        value < lo ==> spec_clamp(value, lo, hi) == lo,
        value > hi ==> spec_clamp(value, lo, hi) == hi,
{
}

} // verus!
