use bevy_ui_extras::widgets::debug_menu::systems::{
    component_ids, component_order, component_selection_entry, components_filtered, resource_ids, resource_order,
    resources_filtered, RegisteredType,
};
use std::any::TypeId;

fn reg<T: 'static>(short: &str, path: &str) -> RegisteredType {
    RegisteredType { type_id: TypeId::of::<T>(), short_path: short.to_owned(), path: path.to_owned() }
}

fn registry() -> Vec<RegisteredType> {
    vec![
        reg::<u8>("Transform", "bevy_transform::components::Transform"),
        reg::<u16>("Name", "bevy_ecs::name::Name"),
        reg::<u32>("GlobalTransform", "bevy_transform::components::GlobalTransform"),
        reg::<u64>("Visibility", "Visibility"),
    ]
}

#[test]
fn resources_filtered_by_prompt() {
    let r = resources_filtered(&registry(), "TRANSFORM");
    let names: Vec<&str> = r.iter().map(|e| e.name()).collect();
    assert_eq!(names, vec!["Transform", "GlobalTransform"]);
    assert_eq!(r[0].type_id(), TypeId::of::<u8>());
    assert_eq!(r[1].type_id(), TypeId::of::<u32>());
    assert_eq!(resources_filtered(&registry(), "").len(), 4);
    assert!(resources_filtered(&registry(), "camera").is_empty());
}

#[test]
fn components_filtered_carry_origin() {
    let c = components_filtered(&registry(), "");
    let origins: Vec<&str> = c.iter().map(|e| e.origin.as_str()).collect();
    assert_eq!(origins, vec!["bevy_transform", "bevy_ecs", "bevy_transform", "ERROR GETTING SOURCE"]);
    let c = components_filtered(&registry(), "name");
    assert_eq!(c.len(), 1);
    assert_eq!(c[0].name, "Name");
    assert_eq!(c[0].type_id, TypeId::of::<u16>());
}

#[test]
fn catalog_orders_are_alphabetical() {
    let r = resources_filtered(&registry(), "");
    assert_eq!(resource_order(&r), vec![2, 1, 0, 3]);
    let c = components_filtered(&registry(), "");
    assert_eq!(component_order(&c), vec![2, 1, 0, 3]);
}

#[test]
fn catalog_ids_follow_entries() {
    let r = resources_filtered(&registry(), "o");
    assert_eq!(resource_ids(&r), vec![TypeId::of::<u8>(), TypeId::of::<u32>()]);
    let c = components_filtered(&registry(), "vis");
    assert_eq!(component_ids(&c), vec![TypeId::of::<u64>()]);
    let e = component_selection_entry(&c[0]);
    assert_eq!(e.name(), "Visibility");
    assert_eq!(e.type_id(), TypeId::of::<u64>());
}
