use bevy_ui_extras::widgets::debug_menu::resources::{FilterKind, FilterResponse, TypeSelection};
use bevy_ui_extras::TypeIdNameCache;
use std::any::TypeId;

fn entry<T: 'static>(name: &str) -> TypeIdNameCache {
    TypeIdNameCache::new(TypeId::of::<T>(), name.to_owned())
}

fn selected_names(sel: &TypeSelection) -> Vec<String> {
    let mut names: Vec<String> = sel.entries().iter().map(|e| e.name().to_owned()).collect();
    names.sort();
    names
}

#[test]
fn type_id_name_cache_keeps_both() {
    let e = entry::<u8>("u8");
    assert_eq!(e.type_id(), TypeId::of::<u8>());
    assert_eq!(e.name(), "u8");
    let c = e.clone();
    assert_eq!(c, e);
}

#[test]
fn single_select_click_selects_alone() {
    let mut sel = TypeSelection::new();
    sel.click(entry::<u8>("u8"), false);
    sel.click(entry::<u16>("u16"), false);
    assert_eq!(selected_names(&sel), vec!["u16".to_owned()]);
    assert!(sel.contains_type(&TypeId::of::<u16>()));
    assert!(!sel.contains_type(&TypeId::of::<u8>()));
}

#[test]
fn single_select_click_on_selected_clears_all() {
    let mut sel = TypeSelection::new();
    sel.click(entry::<u8>("u8"), true);
    sel.click(entry::<u16>("u16"), true);
    assert_eq!(sel.len(), 2);
    sel.click(entry::<u8>("u8"), false);
    assert_eq!(sel.len(), 0);
}

#[test]
fn multi_select_click_adds_and_removes() {
    let mut sel = TypeSelection::new();
    sel.click(entry::<u8>("u8"), true);
    sel.click(entry::<u16>("u16"), true);
    sel.click(entry::<u32>("u32"), true);
    assert_eq!(selected_names(&sel), vec!["u16".to_owned(), "u32".to_owned(), "u8".to_owned()]);
    sel.click(entry::<u16>("u16"), true);
    assert_eq!(selected_names(&sel), vec!["u32".to_owned(), "u8".to_owned()]);
}

#[test]
fn multi_select_click_twice_returns() {
    let mut sel = TypeSelection::new();
    sel.click(entry::<u8>("u8"), true);
    sel.click(entry::<i8>("i8"), true);
    sel.click(entry::<i8>("i8"), true);
    assert_eq!(selected_names(&sel), vec!["u8".to_owned()]);
}

#[test]
fn selected_within_keeps_catalog_types() {
    let mut sel = TypeSelection::new();
    sel.click(entry::<u8>("u8"), true);
    sel.click(entry::<u16>("u16"), true);
    sel.click(entry::<u32>("u32"), true);
    let catalog = vec![TypeId::of::<u16>(), TypeId::of::<u64>(), TypeId::of::<u8>()];
    let mut within: Vec<String> = sel.selected_within(&catalog).iter().map(|e| e.name().to_owned()).collect();
    within.sort();
    assert_eq!(within, vec!["u16".to_owned(), "u8".to_owned()]);
    assert!(sel.selected_within(&Vec::new()).is_empty());
}

#[test]
fn remove_type_of_unselected_changes_nothing() {
    let mut sel = TypeSelection::new();
    sel.insert_new(entry::<u8>("u8"));
    sel.remove_type(&TypeId::of::<u16>());
    assert_eq!(sel.len(), 1);
    sel.remove_type(&TypeId::of::<u8>());
    assert_eq!(sel.len(), 0);
}

#[test]
fn filter_response_default_is_empty() {
    let f = FilterResponse::default();
    assert_eq!(f.filter_prompt, "");
    assert!(f.filters.is_empty());
    assert_eq!(f.selected_type.len(), 0);
}

#[test]
fn clear_button_empties_selection_and_prompt() {
    let mut f = FilterResponse::default();
    f.filter_prompt = "trans".to_owned();
    f.filters.push(FilterKind::Name("Transform".to_owned()));
    f.selected_type.click(entry::<u8>("u8"), false);
    f.clear_selection_and_prompt();
    assert_eq!(f.filter_prompt, "");
    assert_eq!(f.filters.len(), 1);
    assert_eq!(f.selected_type.len(), 0);
}

#[test]
fn filter_labels() {
    assert_eq!(FilterKind::Crate("bevy_render".to_owned()).label(), "In crate: bevy_render");
    assert_eq!(FilterKind::Name("Transform".to_owned()).label(), "has component: Transform");
}
