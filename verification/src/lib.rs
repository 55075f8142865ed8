//! Gameplay attributes, modifiers, conditions and effects.
pub mod ability;
pub mod attributes;
pub mod bindings;
pub mod calculator;
pub mod clamp;
pub mod condition;
pub mod context;
pub mod ecs;
pub mod effect;
pub mod expression;
pub mod graph;
pub mod inspector;
pub mod math;
pub mod meta_modifiers;
pub mod modifier;
pub mod text;
