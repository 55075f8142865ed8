use root_attribute::attributes::AttributeTypeId;
use root_attribute::bindings::{AttributeBindings, BindingError};

#[test]
fn attribute_names_bind_once() {
    let mut bindings = AttributeBindings::new();
    assert!(!bindings.contains(&String::from("Health")));
    bindings.bind_type_id(String::from("Health"), AttributeTypeId(1));
    assert_eq!(bindings.try_bind_type_id(String::from("Mana"), AttributeTypeId(2)), Ok(()));
    assert_eq!(
        bindings.try_bind_type_id(String::from("Health"), AttributeTypeId(3)),
        Err(BindingError::DuplicateName)
    );
    assert_eq!(bindings.type_ids.len(), 2);
    assert_eq!(bindings.type_id(&String::from("Health")), Some(AttributeTypeId(1)));
    assert_eq!(bindings.type_id(&String::from("Mana")), Some(AttributeTypeId(2)));
    assert_eq!(bindings.type_id(&String::from("Stamina")), None);
}
