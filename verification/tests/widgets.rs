use bevy_input::keyboard::KeyCode;
use bevy_ui_extras::colors::{gray, selection_color, white};
use bevy_ui_extras::tables::resources::{QuickTable, TablePick};
use bevy_ui_extras::tree::Pane;
use bevy_ui_extras::widgets::app_status::resources::ShowAppStatus;
use bevy_ui_extras::widgets::components_view::resources::ComponentFilterMode;
use bevy_ui_extras::widgets::components_view::{
    component_display, component_info_for, component_info_named, component_type_to_fetch, pretty_component_name, shortening_is_safe,
    AccessErrorKind, ComponentDescription, ComponentDisplay,
};
use bevy_ui_extras::widgets::debug_menu::resources::{
    DebugMenuToggle, DebugModeFlagToggle, DebugWidgetView, FocusOnDebugFilter,
};
use bevy_ui_extras::widgets::debug_menu::DebugMenuKeybinds;
use bevy_ui_extras::{
    apply_opacity, debug_frame_fill, initial_opacity, keybinds_or_default, set_entry_to_off, set_entry_to_on, Opacity,
    Side, TypeIdNameCache, UiAlignment, GLASS_OPACITY, OPAQUE_OPACITY,
};
use egui::{Align2, Color32};
use std::any::TypeId;

#[test]
fn frame_fill_is_half_transparent_dark_gray() {
    assert_eq!(debug_frame_fill(), Color32::from_rgba_premultiplied(15, 15, 15, 128));
    assert_eq!(debug_frame_fill().a(), 128);
}

#[test]
fn opacity_comes_from_style_fill() {
    assert_eq!(initial_opacity(Some(&debug_frame_fill())).0, 128);
    assert_eq!(initial_opacity(None).0, 255);
    assert_eq!(Opacity::default().0, 0);
}

#[test]
fn opacity_buttons() {
    let mut o = Opacity(3);
    o.set_glass();
    assert_eq!(o.0, GLASS_OPACITY);
    assert_eq!(o.0, 128);
    o.set_opaque();
    assert_eq!(o.0, OPAQUE_OPACITY);
    assert_eq!(o.0, 255);
}

#[test]
fn opacity_replaces_alpha_only() {
    let mut fill = Color32::from_rgba_premultiplied(15, 15, 15, 128);
    apply_opacity(&mut fill, Some(&Opacity(40)));
    assert_eq!(fill, Color32::from_rgba_premultiplied(15, 15, 15, 40));
    apply_opacity(&mut fill, None);
    assert_eq!(fill, Color32::from_rgba_premultiplied(15, 15, 15, 40));
}

#[test]
fn selection_colors() {
    assert_eq!(selection_color(true), Color32::WHITE);
    assert_eq!(selection_color(false), Color32::GRAY);
    assert_eq!(white(), Color32::WHITE);
    assert_eq!(gray(), Color32::GRAY);
}

#[test]
fn alignment_defaults_to_left_top() {
    assert_eq!(UiAlignment::default().0, Some(Align2::LEFT_TOP));
}

#[test]
fn keybinds_override_wins() {
    let mut custom = DebugMenuKeybinds::default();
    custom.toggle_debug_menu = KeyCode::F1;
    assert_eq!(keybinds_or_default(Some(custom)).toggle_debug_menu, KeyCode::F1);
    assert_eq!(keybinds_or_default(None).toggle_debug_menu, KeyCode::Backquote);
}

#[test]
fn debug_flags_follow_toggle() {
    let mut flag = false;
    set_entry_to_on(&mut flag);
    assert!(flag);
    set_entry_to_off(&mut flag);
    assert!(!flag);
    assert_eq!(DebugModeFlagToggle::default(), DebugModeFlagToggle::Off);
    assert!(DebugModeFlagToggle::On.is_checked());
    assert!(!DebugModeFlagToggle::Off.is_checked());
    assert_eq!(DebugModeFlagToggle::from_checked(true), DebugModeFlagToggle::On);
    assert_eq!(DebugModeFlagToggle::from_checked(false), DebugModeFlagToggle::Off);
    assert!(!DebugMenuToggle::default().0);
}

#[test]
fn focus_request_is_taken_once() {
    let mut focus = FocusOnDebugFilter(true);
    assert!(focus.take_request());
    assert!(!focus.take_request());
    assert!(!FocusOnDebugFilter::default().0);
}

#[test]
fn widget_views() {
    assert_eq!(DebugWidgetView::default(), DebugWidgetView::ComponentsView);
    assert_eq!(DebugWidgetView::all(), vec![DebugWidgetView::EntitiesView, DebugWidgetView::ComponentsView]);
    assert_eq!(DebugWidgetView::EntitiesView.label(), "EntitiesView");
    assert_eq!(DebugWidgetView::ComponentsView.label(), "ComponentsView");
    assert_eq!(DebugWidgetView::EntitiesView.cycled(), DebugWidgetView::ComponentsView);
    assert_eq!(DebugWidgetView::EntitiesView.cycled().cycled(), DebugWidgetView::EntitiesView);
    assert!(DebugWidgetView::ComponentsView.shows_catalog());
    assert!(!DebugWidgetView::EntitiesView.shows_catalog());
}

#[test]
fn app_status_button() {
    let mut s = ShowAppStatus::default();
    assert!(!s.0);
    assert_eq!(s.button_label(), "open app status");
    s.toggle();
    assert!(s.0);
    assert_eq!(s.verb(), "close");
    assert_eq!(s.button_label(), "close app status");
    s.toggle();
    assert!(!s.0);
}

#[test]
fn filter_modes() {
    assert_eq!(ComponentFilterMode::default(), ComponentFilterMode::OR);
    assert_eq!(ComponentFilterMode::all(), vec![ComponentFilterMode::AND, ComponentFilterMode::OR]);
    assert_eq!(ComponentFilterMode::AND.label(), "AND");
    assert_eq!(ComponentFilterMode::OR.label(), "OR");
}

#[test]
fn table_columns_toggle() {
    let mut t: TablePick<u8> = TablePick::default();
    assert!(!t.contains_key("POSITION"));
    t.toggle("POSITION".to_owned(), 0);
    t.toggle("NORMAL".to_owned(), 1);
    assert!(t.contains_key("POSITION"));
    assert!(t.contains_key("NORMAL"));
    assert_eq!(t.len(), 2);
    t.toggle("POSITION".to_owned(), 0);
    assert!(!t.contains_key("POSITION"));
    assert_eq!(t.len(), 1);
    let q: QuickTable<u8> = QuickTable::default();
    assert_eq!(q.0.len(), 0);
}

#[test]
fn pane_title_is_its_name() {
    let p = Pane { name: "Transform".to_owned(), component_id: Some(TypeIdNameCache::new(TypeId::of::<u8>(), "u8".to_owned())) };
    assert_eq!(p.tab_title(), "Transform");
    let d = Pane::default();
    assert_eq!(d.name, "");
    assert!(d.component_id.is_none());
    assert_eq!(p.clone().tab_title(), "Transform");
}

#[test]
fn side_is_plain() {
    assert_ne!(Side::Left, Side::Right);
}

#[test]
fn pretty_names() {
    assert!(shortening_is_safe("core::option::Option<alloc::string::String>"));
    assert!(shortening_is_safe("(a::B, c::D)"));
    assert!(shortening_is_safe("(a::B,c::D)"));
    assert!(shortening_is_safe("a,b"));
    assert!(shortening_is_safe("a,,"));
    assert!(shortening_is_safe("a::B::{{closure}}"));
    assert!(shortening_is_safe(""));
    assert!(!shortening_is_safe("a;"));
    assert!(!shortening_is_safe("a,"));
    assert!(!shortening_is_safe("a,\u{e9}b"));
    assert!(!shortening_is_safe("a,::{{closure}}"));
    assert!(shortening_is_safe("x<a,>::{{closure}}::{{closure}}"));
    assert!(!shortening_is_safe("x<a,::{{closure}}::{{closure}}"));
    assert_eq!(pretty_component_name("a,b"), "a, ");
    assert_eq!(pretty_component_name("a::B::{{closure}}"), "B::{{closure}}");
    assert_eq!(pretty_component_name("bevy_transform::components::Transform"), "Transform");
    assert_eq!(pretty_component_name("core::option::Option<alloc::string::String>"), "Option<String>");
    assert_eq!(pretty_component_name("(a::B, c::D)"), "(B, D)");
}

#[test]
fn component_info() {
    let d = ComponentDescription { name: "bevy_ecs::name::Name".to_owned(), type_id: Some(TypeId::of::<u8>()), size: 24 };
    let info = component_info_for(Some(7), Some(d)).unwrap();
    assert_eq!(info.name, "Name");
    assert_eq!(info.component_id, 7);
    assert_eq!(info.type_id, Some(TypeId::of::<u8>()));
    assert_eq!(info.size, 24);
    assert_eq!(component_type_to_fetch(&Some(info)), Some(TypeId::of::<u8>()));
    assert!(component_info_for(None, None).is_none());
    let d = ComponentDescription { name: "X".to_owned(), type_id: None, size: 0 };
    assert!(component_info_for(None, Some(d)).is_none());
    assert!(component_info_for(Some(1), None).is_none());
    assert_eq!(component_type_to_fetch(&None), None);
}

#[test]
fn component_display_decisions() {
    assert_eq!(component_display(false, 8), ComponentDisplay::Skip);
    assert_eq!(component_display(true, 0), ComponentDisplay::EmptyHeader);
    assert_eq!(component_display(true, 8), ComponentDisplay::Inspector);
    assert!(AccessErrorKind::NoAccessToResource.is_reported());
    assert!(AccessErrorKind::NoAccessToComponent.is_reported());
    assert!(!AccessErrorKind::ResourceDoesNotExist.is_reported());
    assert!(!AccessErrorKind::ComponentDoesNotExist.is_reported());
    assert!(AccessErrorKind::NoComponentId.is_reported());
    assert!(AccessErrorKind::NoTypeRegistration.is_reported());
    assert!(AccessErrorKind::NoTypeData.is_reported());
}

#[test]
fn component_info_named_keeps_description() {
    let d = ComponentDescription { name: "a::B".to_owned(), type_id: None, size: 3 };
    let info = component_info_named(4, d, "B".to_owned());
    assert_eq!(info.name, "B");
    assert_eq!(info.component_id, 4);
    assert_eq!(info.type_id, None);
    assert_eq!(info.size, 3);
}

#[test]
fn table_keys_stay_labels_of_their_attributes() {
    let mut t: TablePick<u8> = TablePick::default();
    for attr in [1u8, 2, 1, 3] {
        t.toggle(attr.to_string(), attr);
    }
    assert!(!t.contains_key("1"));
    assert!(t.contains_key("2"));
    assert!(t.contains_key("3"));
    assert_eq!(t.len(), 2);
}
