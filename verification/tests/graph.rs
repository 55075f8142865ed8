use root_attribute::inspector::pretty_type_name_str;
use bevy::ecs::entity::Entity;
use root_attribute::graph::{neighbors, NodeType};

#[test]
fn actors_depend_on_their_effects_and_effects_on_their_source() {
    let e: Vec<Entity> = (1..4).map(|i| Entity::from_raw_u32(i).unwrap()).collect();
    assert_eq!(neighbors(NodeType::Actor, Some(&e), None), e);
    assert_eq!(neighbors(NodeType::Actor, None, Some(e[0])), Vec::<Entity>::new());
    assert_eq!(neighbors(NodeType::Effect, Some(&e), Some(e[2])), vec![e[2]]);
    assert_eq!(neighbors(NodeType::Effect, None, None), Vec::<Entity>::new());
    assert_eq!(NodeType::Actor.name(), "Actor");
    assert_eq!(NodeType::Effect.name(), "Effect");
}

#[test]
fn type_paths_are_shortened() {
    assert_eq!(pretty_type_name_str("my_game::attributes::Health"), "Health");
    assert_eq!(pretty_type_name_str("core::option::Option<my_game::attributes::Health>"), "Option<Health>");
    assert_eq!(pretty_type_name_str("Mana"), "Mana");
}
