//! The parts of Bevy that the library's logic calls.
use bevy::ecs::entity::Entity;
use bevy::time::Timer;
use core::time::Duration;
use vstd::prelude::*;

verus! {

/// Bevy's entity identifier, carried through the library's logic.
#[verifier::external_type_specification]
#[verifier::external_body]
pub struct ExEntity(Entity);

/// Bevy's timer.
#[verifier::external_type_specification]
#[verifier::external_body]
pub struct ExTimer(Timer);

/// Whether an entity is `Entity::PLACEHOLDER`; a function of the entity alone.
pub uninterp spec fn is_placeholder(e: Entity) -> bool;

/// What `Timer::is_finished` returns for a timer; a function of the timer's state.
pub uninterp spec fn timer_finished(t: Timer) -> bool;

/// What `Timer::just_finished` returns for a timer; a function of the timer's state.
pub uninterp spec fn timer_just_finished(t: Timer) -> bool;

/// What `Timer::elapsed` returns, in nanoseconds; a function of the timer's state.
pub uninterp spec fn timer_elapsed_nanos(t: Timer) -> nat;

/// What `Timer::duration` returns, in nanoseconds; a function of the timer's state.
pub uninterp spec fn timer_duration_nanos(t: Timer) -> nat;

/// Whether `Timer::mode` returns `TimerMode::Repeating`; a function of the timer's state.
pub uninterp spec fn timer_repeating(t: Timer) -> bool;

/// What `Timer::is_paused` returns; a function of the timer's state.
pub uninterp spec fn timer_paused(t: Timer) -> bool;

/// The text `Entity`'s `Display` shows; a function of the entity alone.
pub uninterp spec fn entity_text(e: Entity) -> Seq<char>;

/// What `Duration::as_nanos` returns; a function of the duration alone.
pub uninterp spec fn duration_as_nanos(d: Duration) -> nat;

/// `Duration::MAX` in nanoseconds: `u64::MAX` seconds and 999 999 999 nanoseconds.
pub open spec fn max_duration_nanos() -> int {
    18446744073709551615int * 1000000000 + 999999999
}

/// How `Timer::tick` changes a timer, as the bevy source computes it. A paused timer
/// only loses its "just finished" state (and a repeating one its "finished" state);
/// a finished one-shot timer only loses its "just finished" state. Otherwise the
/// elapsed time grows by `delta_nanos` (saturating at `Duration::MAX`) and the timer is
/// finished when it reaches the duration: a one-shot timer then stops at its
/// duration, a repeating one keeps the remainder and counts the completions,
/// truncated to `u32` (with a zero duration it restarts at zero and counts
/// `u32::MAX`). The duration, the mode and the paused state never change.
pub open spec fn timer_tick_spec(before: Timer, delta_nanos: nat, after: Timer) -> bool {
    let e = timer_elapsed_nanos(before) as int;
    let d = timer_duration_nanos(before) as int;
    let sum = e + delta_nanos;
    let s = if sum > max_duration_nanos() {
        max_duration_nanos()
    } else {
        sum
    };
    &&& timer_duration_nanos(after) == d
    &&& timer_repeating(after) == timer_repeating(before)
    &&& timer_paused(after) == timer_paused(before)
    &&& if timer_paused(before) {
        &&& !timer_just_finished(after)
        &&& timer_elapsed_nanos(after) == e
        &&& timer_finished(after) == (!timer_repeating(before) && timer_finished(before))
    } else if !timer_repeating(before) && timer_finished(before) {
        &&& !timer_just_finished(after)
        &&& timer_elapsed_nanos(after) == e
        &&& timer_finished(after)
    } else if s < d {
        &&& !timer_finished(after)
        &&& !timer_just_finished(after)
        &&& timer_elapsed_nanos(after) == s
    } else if !timer_repeating(before) {
        &&& timer_finished(after)
        &&& timer_just_finished(after)
        &&& timer_elapsed_nanos(after) == d
    } else if d == 0 {
        &&& timer_finished(after)
        &&& timer_just_finished(after)
        &&& timer_elapsed_nanos(after) == 0
    } else {
        &&& timer_finished(after)
        &&& timer_just_finished(after) == ((s / d) % 0x1_0000_0000 != 0)
        &&& timer_elapsed_nanos(after) == (s % d) % 0x1_0000_0000_0000_0000
    }
}

/// The state `Timer::tick` leaves a timer in, from its previous state and the elapsed time.
pub uninterp spec fn timer_ticked(t: Timer, delta: Duration) -> Timer;

/// Calls `Entity`'s `PartialEq::eq`, which compares the two entities' bits:
/// claims that it returns whether the two values are the same.
#[verifier::external_body]
pub(crate) fn entity_eq(a: &Entity, b: &Entity) -> (r: bool)
    ensures
        r == (*a == *b),
{
    a == b
}

/// Compares an entity with `Entity::PLACEHOLDER` through `PartialEq::eq`:
/// claims only that the answer is the name `is_placeholder` of the entity.
#[verifier::external_body]
pub(crate) fn entity_is_placeholder(e: &Entity) -> (r: bool)
    ensures
        r == is_placeholder(*e),
{
    *e == Entity::PLACEHOLDER
}

/// Formats an entity with its `Display` impl, which writes `PLACEHOLDER` for
/// `Entity::PLACEHOLDER` and the entity's index and generation otherwise: claims
/// that the text is the name `entity_text` of the entity, and `PLACEHOLDER` for the
/// placeholder. The digits of the other case are left unsaid.
#[verifier::external_body]
pub(crate) fn entity_to_string(e: &Entity) -> (r: String)
    ensures
        r@ == entity_text(*e),
        is_placeholder(*e) ==> r@ == "PLACEHOLDER"@,
{
    format!("{}", e)
}

/// Calls `Timer::is_finished`: claims that it returns the name `timer_finished` of the timer.
#[verifier::external_body]
pub(crate) fn timer_is_finished(t: &Timer) -> (r: bool)
    ensures
        r == timer_finished(*t),
{
    t.is_finished()
}

/// Calls `Timer::just_finished`: claims that it returns the name `timer_just_finished` of the timer.
#[verifier::external_body]
pub(crate) fn timer_is_just_finished(t: &Timer) -> (r: bool)
    ensures
        r == timer_just_finished(*t),
{
    t.just_finished()
}

/// Calls `Timer::reset`, which resets the stopwatch's elapsed time to zero and clears
/// the `finished` flag and the count of completions in the last tick, leaving the
/// duration, the mode and the paused state alone: claims that afterwards the timer
/// is neither finished nor just finished, its elapsed time is zero, and its
/// duration, mode and paused state are those it had.
#[verifier::external_body]
pub(crate) fn timer_reset(t: &mut Timer)
    ensures
        !timer_finished(*final(t)),
        !timer_just_finished(*final(t)),
        timer_elapsed_nanos(*final(t)) == 0,
        timer_duration_nanos(*final(t)) == timer_duration_nanos(*old(t)),
        timer_repeating(*final(t)) == timer_repeating(*old(t)),
        timer_paused(*final(t)) == timer_paused(*old(t)),
{
    t.reset();
}

/// Calls `Timer::tick`: claims that the timer ends in the state `timer_ticked` of its
/// previous state and the elapsed time, and that this state is as `timer_tick_spec`
/// describes it for the elapsed time in nanoseconds.
#[verifier::external_body]
pub(crate) fn timer_tick(t: &mut Timer, delta: Duration)
    ensures
        *final(t) == timer_ticked(*old(t), delta),
        timer_tick_spec(*old(t), duration_as_nanos(delta), *final(t)),
{
    t.tick(delta);
}

/// Calls the derived `Clone` of `Timer`, which copies every field: claims that the copy
/// equals the timer it was made from.
#[verifier::external_body]
pub(crate) fn timer_clone(t: &Timer) -> (r: Timer)
    ensures
        r == *t,
{
    t.clone()
}

} // verus!
