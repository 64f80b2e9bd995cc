use bevy_input::keyboard::KeyCode;
use bevy_input::ButtonInput;
use bevy_ui_extras::keyboard::KeyChord;
use bevy_ui_extras::widgets::debug_menu::resources::DebugWidgetView;
use bevy_ui_extras::widgets::debug_menu::systems::{manage_debug_menu_state, menu_controls, multi_select_held, MenuKeyEvents};
use bevy_ui_extras::widgets::debug_menu::{DebugMenuKeybinds, DebugMenuState};

fn keys_down(keys: &[KeyCode]) -> ButtonInput<KeyCode> {
    let mut input = ButtonInput::default();
    for k in keys {
        input.press(*k);
    }
    input
}

fn events(toggle: bool, focus: bool, clear: bool, cycle: bool) -> MenuKeyEvents {
    MenuKeyEvents { toggle_pressed: toggle, quick_focus_held: focus, clear_held: clear, cycle_pressed: cycle }
}

#[test]
fn default_keybinds() {
    let kb = DebugMenuKeybinds::default();
    assert_eq!(kb.toggle_debug_menu, KeyCode::Backquote);
    assert_eq!(kb.cycle_views, KeyCode::AltLeft);
    assert!(kb.filter_quick_focus.contains(KeyCode::ControlLeft));
    assert!(kb.filter_quick_focus.contains(KeyCode::KeyF));
    assert_eq!(kb.filter_quick_focus.keys().len(), 2);
    assert!(kb.clear.contains(KeyCode::ControlLeft));
    assert!(kb.clear.contains(KeyCode::KeyC));
    assert!(!kb.clear.contains(KeyCode::KeyF));
}

#[test]
fn chord_insert_is_idempotent() {
    let mut chord = KeyChord::new();
    chord.insert(KeyCode::KeyA);
    chord.insert(KeyCode::KeyA);
    chord.insert(KeyCode::KeyB);
    assert_eq!(chord.keys().len(), 2);
}

#[test]
fn keys_held_from_earlier_frames_count_as_held_not_pressed() {
    let kb = DebugMenuKeybinds::default();
    let mut input = keys_down(&[KeyCode::ControlLeft, KeyCode::KeyF, KeyCode::Backquote, KeyCode::AltLeft]);
    input.clear();
    let r = manage_debug_menu_state(&kb, &input, DebugMenuState::Closed, DebugWidgetView::ComponentsView);
    assert_eq!(r.next_state, Some(DebugMenuState::Open));
    assert!(r.focus_filter);
    assert_eq!(r.next_view, None);
    let input = keys_down(&[KeyCode::ControlLeft]);
    let r = manage_debug_menu_state(&kb, &input, DebugMenuState::Open, DebugWidgetView::ComponentsView);
    assert_eq!(r.next_state, None);
    assert!(!r.focus_filter);
    assert!(!r.reset_filter);
}

#[test]
fn toggle_key_opens_and_closes() {
    let kb = DebugMenuKeybinds::default();
    let input = keys_down(&[KeyCode::Backquote]);
    let view = DebugWidgetView::ComponentsView;
    assert_eq!(manage_debug_menu_state(&kb, &input, DebugMenuState::Closed, view).next_state, Some(DebugMenuState::Open));
    assert_eq!(manage_debug_menu_state(&kb, &input, DebugMenuState::Open, view).next_state, Some(DebugMenuState::Closed));
    assert_eq!(manage_debug_menu_state(&kb, &input, DebugMenuState::Explain, view).next_state, Some(DebugMenuState::Open));
}

#[test]
fn quick_focus_opens_and_focuses() {
    let kb = DebugMenuKeybinds::default();
    let input = keys_down(&[KeyCode::ControlLeft, KeyCode::KeyF, KeyCode::Backquote]);
    let r = manage_debug_menu_state(&kb, &input, DebugMenuState::Open, DebugWidgetView::ComponentsView);
    assert_eq!(r.next_state, Some(DebugMenuState::Open));
    assert!(r.focus_filter);
    assert!(!r.reset_filter);
}

#[test]
fn clear_chord_resets_only_open_menu() {
    let kb = DebugMenuKeybinds::default();
    let input = keys_down(&[KeyCode::ControlLeft, KeyCode::KeyC]);
    let open = manage_debug_menu_state(&kb, &input, DebugMenuState::Open, DebugWidgetView::EntitiesView);
    assert!(open.reset_filter);
    assert_eq!(open.next_state, None);
    let closed = manage_debug_menu_state(&kb, &input, DebugMenuState::Closed, DebugWidgetView::EntitiesView);
    assert!(!closed.reset_filter);
}

#[test]
fn cycle_key_switches_view() {
    let kb = DebugMenuKeybinds::default();
    let input = keys_down(&[KeyCode::AltLeft]);
    let r = manage_debug_menu_state(&kb, &input, DebugMenuState::Open, DebugWidgetView::ComponentsView);
    assert_eq!(r.next_view, Some(DebugWidgetView::EntitiesView));
    let r = manage_debug_menu_state(&kb, &input, DebugMenuState::Open, DebugWidgetView::EntitiesView);
    assert_eq!(r.next_view, Some(DebugWidgetView::ComponentsView));
}

#[test]
fn no_keys_no_actions() {
    let kb = DebugMenuKeybinds::default();
    let input = keys_down(&[KeyCode::KeyZ]);
    let r = manage_debug_menu_state(&kb, &input, DebugMenuState::Open, DebugWidgetView::ComponentsView);
    assert_eq!(r.next_state, None);
    assert!(!r.focus_filter);
    assert!(!r.reset_filter);
    assert_eq!(r.next_view, None);
}

#[test]
fn toggle_twice_returns() {
    let once = menu_controls(&events(true, false, false, false), DebugMenuState::Open, DebugWidgetView::EntitiesView);
    let twice = menu_controls(&events(true, false, false, false), once.next_state.unwrap(), DebugWidgetView::EntitiesView);
    assert_eq!(twice.next_state, Some(DebugMenuState::Open));
}

#[test]
fn multi_select_is_left_shift() {
    assert!(multi_select_held(Some(&keys_down(&[KeyCode::ShiftLeft]))));
    assert!(!multi_select_held(Some(&keys_down(&[KeyCode::ShiftRight]))));
    assert!(!multi_select_held(None));
}

#[test]
fn menu_state_default_is_closed() {
    assert_eq!(DebugMenuState::default(), DebugMenuState::Closed);
    assert_eq!(bevy_ui_extras::states::DebugMenuState::default(), DebugMenuState::Closed);
}

#[test]
fn empty_quick_focus_chord_is_always_held() {
    let mut kb = DebugMenuKeybinds::default();
    kb.filter_quick_focus = KeyChord::new();
    let input = keys_down(&[]);
    let r = manage_debug_menu_state(&kb, &input, DebugMenuState::Closed, DebugWidgetView::ComponentsView);
    assert_eq!(r.next_state, Some(DebugMenuState::Open));
    assert!(r.focus_filter);
}
