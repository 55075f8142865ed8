# root_attribute

Gameplay attributes for Bevy: attributes with a base and a current value,
modifiers that compute the current value, conditions, effects with durations,
periods and stacks, and abilities with cooldowns and costs.

`src/` is the library, verified with Verus. Attribute values are modelled as
integers through the `Value` trait (implemented for `u8`..`u64` and `i8`..`i64`);
an entity is seen through `AttributesRef`, the attributes and components the
logic reads.

- `attributes`: the `Value` trait and attribute snapshots.
- `expression`: integer expressions over attributes and their evaluation.
- `calculator`: the additive stage of an attribute calculation and modifiers.
- `condition`: ranges, attribute, stack and tag conditions and their combinators,
  and the activation status of effects.
- `clamp`: clamping of base values.
- `effect`: application policies, timers, stacking, targeting.
- `bindings`: the registry of attribute names, where no name is bound twice.
- `ability`: cooldowns, activation checks and targets.
- `context`, `graph`, `inspector`, `math`, `meta_modifiers`, `modifier`, `text`: the rest of the model.
- `ecs`: the Bevy items the logic calls (`Entity`, `Timer`), with their contracts,
  including what a timer tick does.

`app/` holds the Bevy side: components wrapping the library's types; systems
that tick effect and ability timers, evaluate effect conditions, apply pending
stacks, apply the modifiers of instant effects and clamp attributes; a function
that applies an effect (spawning or stacking it), one that decides an ability
activation and restarts its cooldown, and one that grants an ability; a plugin
for the effect systems; and the floating-point multiplier stages of attribute
calculation. It does not load effect, ability or actor definitions from assets,
evaluate an expression language, run an ability's execution plans or
costs, or recompute current values from persistent modifiers: callers hand it
definitions and evaluated condition results.
