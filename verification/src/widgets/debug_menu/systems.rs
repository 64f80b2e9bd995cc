//! The debug menu's decisions: what its keys do, which registered types its
//! catalog lists and in which order, and which selected types it shows.
use super::resources::DebugWidgetView;
use super::resources::cycled_view;
use super::{DebugMenuKeybinds, DebugMenuState};
use crate::keyboard::{just_pressed_keys, key_just_pressed, key_pressed, keys_all_pressed, pressed_keys};
use crate::text::{alphabetical_order, crate_of_path, is_alphabetical_order, name_matches_prompt, origin_of, prompt_matches, string_views};
use crate::TypeIdNameCache;
use bevy_input::keyboard::KeyCode;
use bevy_input::ButtonInput;
use core::any::TypeId;
use vstd::prelude::*;

verus! {

/// What the menu's keys did this frame.
pub struct MenuKeyEvents {
    /// the toggle key went down.
    pub toggle_pressed: bool,
    /// every key of the quick-focus chord is held.
    pub quick_focus_held: bool,
    /// every key of the clear chord is held.
    pub clear_held: bool,
    /// the cycle key went down.
    pub cycle_pressed: bool,
}

/// What the menu's keys ask of the application this frame.
pub struct MenuControlActions {
    /// the state to move the menu to, if any.
    pub next_state: Option<DebugMenuState>,
    /// whether the filter box is to take the focus.
    pub focus_filter: bool,
    /// whether the filter is to be reset to its default.
    pub reset_filter: bool,
    /// the view to switch to, if any.
    pub next_view: Option<DebugWidgetView>,
}

/// The state the toggle key moves the menu to: an open menu closes, a closed
/// one opens, and the explanation gives way to the open menu.
pub open spec fn toggled_menu(state: DebugMenuState) -> DebugMenuState {
    match state {
        DebugMenuState::Open => DebugMenuState::Closed,
        DebugMenuState::Closed => DebugMenuState::Open,
        DebugMenuState::Explain => DebugMenuState::Open,
    }
}

/// What the keys of a frame ask for, given the menu's state and view.
pub open spec fn menu_controls_spec(
    events: MenuKeyEvents,
    state: DebugMenuState,
    view: DebugWidgetView,
) -> MenuControlActions {
    MenuControlActions {
        next_state: if events.quick_focus_held {
            Some(DebugMenuState::Open)
        } else if events.toggle_pressed {
            Some(toggled_menu(state))
        } else {
            None
        },
        focus_filter: events.quick_focus_held,
        reset_filter: events.clear_held && state == DebugMenuState::Open,
        next_view: if events.cycle_pressed {
            Some(cycled_view(view))
        } else {
            None
        },
    }
}

/// What a keyboard resource says of the menu's keybinds.
pub open spec fn menu_key_events(
    keybinds: DebugMenuKeybinds,
    keys: ButtonInput<KeyCode>,
) -> MenuKeyEvents {
    MenuKeyEvents {
        toggle_pressed: just_pressed_keys(keys).contains(keybinds.toggle_debug_menu),
        quick_focus_held: keybinds.filter_quick_focus@.subset_of(pressed_keys(keys)),
        clear_held: keybinds.clear@.subset_of(pressed_keys(keys)),
        cycle_pressed: just_pressed_keys(keys).contains(keybinds.cycle_views),
    }
}

/// The decisions of the menu's keyboard controls, from the frame's key events.
pub fn menu_controls(events: &MenuKeyEvents, state: DebugMenuState, view: DebugWidgetView) -> (r:
    MenuControlActions)
    ensures
        r == menu_controls_spec(*events, state, view),
{
    let mut next_state: Option<DebugMenuState> = None;
    if events.toggle_pressed {
        next_state = Some(
            match state {
                DebugMenuState::Open => DebugMenuState::Closed,
                DebugMenuState::Closed => DebugMenuState::Open,
                DebugMenuState::Explain => DebugMenuState::Open,
            },
        );
    }
    let mut focus_filter = false;
    if events.quick_focus_held {
        next_state = Some(DebugMenuState::Open);
        focus_filter = true;
    }
    let reset_filter = events.clear_held && state == DebugMenuState::Open;
    let next_view = if events.cycle_pressed {
        Some(view.cycled())
    } else {
        None
    };
    MenuControlActions { next_state, focus_filter, reset_filter, next_view }
}

/// Reads the menu's keybinds off the keyboard resource.
pub fn read_menu_keys(keybinds: &DebugMenuKeybinds, keys: &ButtonInput<KeyCode>) -> (r:
    MenuKeyEvents)
    ensures
        r == menu_key_events(*keybinds, *keys),
{
    MenuKeyEvents {
        toggle_pressed: key_just_pressed(keys, keybinds.toggle_debug_menu),
        quick_focus_held: keys_all_pressed(keys, &keybinds.filter_quick_focus),
        clear_held: keys_all_pressed(keys, &keybinds.clear),
        cycle_pressed: key_just_pressed(keys, keybinds.cycle_views),
    }
}

/// The menu's keyboard controls for a frame: toggling the menu, quick focus on
/// the filter, clearing the filter, and cycling the view.
pub fn manage_debug_menu_state(
    keybinds: &DebugMenuKeybinds,
    keys: &ButtonInput<KeyCode>,
    state: DebugMenuState,
    view: DebugWidgetView,
) -> (r: MenuControlActions)
    ensures
        r == menu_controls_spec(menu_key_events(*keybinds, *keys), state, view),
{
    let events = read_menu_keys(keybinds, keys);
    menu_controls(&events, state, view)
}

/// Whether the multi-select key (left shift) is held; with no keyboard
/// resource, it is not.
pub fn multi_select_held(keys: Option<&ButtonInput<KeyCode>>) -> (r: bool)
    ensures
        r == match keys {
            Some(k) => pressed_keys(*k).contains(KeyCode::ShiftLeft),
            None => false,
        },
{
    match keys {
        Some(k) => key_pressed(k, KeyCode::ShiftLeft),
        None => false,
    }
}

/// A type as the type registry lists it.
pub struct RegisteredType {
    pub type_id: TypeId,
    /// the type's path without its modules.
    pub short_path: String,
    /// the type's full path.
    pub path: String,
}

/// A component type as the menu's catalog lists it.
pub struct ComponentEntry {
    pub type_id: TypeId,
    pub name: String,
    /// the crate the component comes from.
    pub origin: String,
}

/// The registered types whose short path passes the prompt, in registry order.
pub open spec fn kept_types(registered: Seq<RegisteredType>, prompt: Seq<char>) -> Seq<
    RegisteredType,
> {
    registered.filter(|t: RegisteredType| prompt_matches(t.short_path@, prompt))
}

proof fn lemma_kept_types_step(registered: Seq<RegisteredType>, prompt: Seq<char>, i: int)
    requires
        0 <= i < registered.len(),
    ensures
        kept_types(registered.take(i + 1), prompt) == if prompt_matches(
            registered[i].short_path@,
            prompt,
        ) {
            kept_types(registered.take(i), prompt).push(registered[i])
        } else {
            kept_types(registered.take(i), prompt)
        },
{
    reveal(Seq::filter);
    assert(registered.take(i + 1).drop_last() =~= registered.take(i));
}

/// The resource types that pass the filter prompt, as catalog entries.
pub fn resources_filtered(registered: &Vec<RegisteredType>, prompt: &str) -> (r: Vec<
    TypeIdNameCache,
>)
    ensures
        r.len() == kept_types(registered@, prompt@).len(),
        forall|k: int|
            0 <= k < r.len() ==> {
                &&& (#[trigger] r@[k]).type_id_view() == kept_types(registered@, prompt@)[k].type_id
                &&& r@[k].name_view() == kept_types(registered@, prompt@)[k].short_path@
            },
{
    let mut r: Vec<TypeIdNameCache> = Vec::new();
    let mut i: usize = 0;
    proof {
        reveal(Seq::filter);
        assert(registered@.take(0) =~= Seq::<RegisteredType>::empty());
    }
    while i < registered.len()
        invariant
            i <= registered.len(),
            r.len() == kept_types(registered@.take(i as int), prompt@).len(),
            forall|k: int|
                0 <= k < r.len() ==> {
                    &&& (#[trigger] r@[k]).type_id_view() == kept_types(
                        registered@.take(i as int),
                        prompt@,
                    )[k].type_id
                    &&& r@[k].name_view() == kept_types(registered@.take(i as int), prompt@)[k].short_path@
                },
        decreases registered.len() - i,
    {
        proof {
            lemma_kept_types_step(registered@, prompt@, i as int);
        }
        let t = &registered[i];
        if name_matches_prompt(t.short_path.as_str(), prompt) {
            r.push(TypeIdNameCache::new(t.type_id, t.short_path.clone()));
        }
        i += 1;
    }
    assert(registered@.take(registered.len() as int) =~= registered@);
    r
}

/// The component types that pass the filter prompt, as catalog entries, each
/// with the crate it comes from.
pub fn components_filtered(registered: &Vec<RegisteredType>, prompt: &str) -> (r: Vec<
    ComponentEntry,
>)
    ensures
        r.len() == kept_types(registered@, prompt@).len(),
        forall|k: int|
            0 <= k < r.len() ==> {
                &&& (#[trigger] r@[k]).type_id == kept_types(registered@, prompt@)[k].type_id
                &&& r@[k].name@ == kept_types(registered@, prompt@)[k].short_path@
                &&& r@[k].origin@ == origin_of(kept_types(registered@, prompt@)[k].path@)
            },
{
    let mut r: Vec<ComponentEntry> = Vec::new();
    let mut i: usize = 0;
    proof {
        reveal(Seq::filter);
        assert(registered@.take(0) =~= Seq::<RegisteredType>::empty());
    }
    while i < registered.len()
        invariant
            i <= registered.len(),
            r.len() == kept_types(registered@.take(i as int), prompt@).len(),
            forall|k: int|
                0 <= k < r.len() ==> {
                    &&& (#[trigger] r@[k]).type_id == kept_types(
                        registered@.take(i as int),
                        prompt@,
                    )[k].type_id
                    &&& r@[k].name@ == kept_types(registered@.take(i as int), prompt@)[k].short_path@
                    &&& r@[k].origin@ == origin_of(
                        kept_types(registered@.take(i as int), prompt@)[k].path@,
                    )
                },
        decreases registered.len() - i,
    {
        proof {
            lemma_kept_types_step(registered@, prompt@, i as int);
        }
        let t = &registered[i];
        if name_matches_prompt(t.short_path.as_str(), prompt) {
            let origin = crate_of_path(t.path.as_str());
            r.push(ComponentEntry { type_id: t.type_id, name: t.short_path.clone(), origin });
        }
        i += 1;
    }
    assert(registered@.take(registered.len() as int) =~= registered@);
    r
}

/// The order in which the resource panel lists its entries: by name.
pub fn resource_order(entries: &Vec<TypeIdNameCache>) -> (order: Vec<usize>)
    ensures
        is_alphabetical_order(entries@.map_values(|e: TypeIdNameCache| e.name_view()), order@),
{
    let mut names: Vec<String> = Vec::new();
    let mut i: usize = 0;
    while i < entries.len()
        invariant
            i <= entries.len(),
            names.len() == i,
            forall|k: int| 0 <= k < i ==> #[trigger] names@[k]@ == entries@[k].name_view(),
        decreases entries.len() - i,
    {
        names.push(entries[i].name.clone());
        i += 1;
    }
    assert(string_views(names@) =~= entries@.map_values(|e: TypeIdNameCache| e.name_view()));
    alphabetical_order(&names)
}

/// The order in which the component panel lists its entries: by name.
pub fn component_order(entries: &Vec<ComponentEntry>) -> (order: Vec<usize>)
    ensures
        is_alphabetical_order(entries@.map_values(|e: ComponentEntry| e.name@), order@),
{
    let mut names: Vec<String> = Vec::new();
    let mut i: usize = 0;
    while i < entries.len()
        invariant
            i <= entries.len(),
            names.len() == i,
            forall|k: int| 0 <= k < i ==> #[trigger] names@[k]@ == entries@[k].name@,
        decreases entries.len() - i,
    {
        names.push(entries[i].name.clone());
        i += 1;
    }
    assert(string_views(names@) =~= entries@.map_values(|e: ComponentEntry| e.name@));
    alphabetical_order(&names)
}

/// The identities of the resource types in a catalog, in catalog order.
pub fn resource_ids(entries: &Vec<TypeIdNameCache>) -> (ids: Vec<TypeId>)
    ensures
        ids@ == entries@.map_values(|e: TypeIdNameCache| e.type_id_view()),
{
    let mut ids: Vec<TypeId> = Vec::new();
    let mut i: usize = 0;
    while i < entries.len()
        invariant
            i <= entries.len(),
            ids@ == entries@.take(i as int).map_values(|e: TypeIdNameCache| e.type_id_view()),
        decreases entries.len() - i,
    {
        ids.push(entries[i].type_id);
        i += 1;
        assert(ids@ =~= entries@.take(i as int).map_values(|e: TypeIdNameCache| e.type_id_view()));
    }
    assert(entries@.take(entries.len() as int) =~= entries@);
    ids
}

/// The identities of the component types in a catalog, in catalog order.
pub fn component_ids(entries: &Vec<ComponentEntry>) -> (ids: Vec<TypeId>)
    ensures
        ids@ == entries@.map_values(|e: ComponentEntry| e.type_id),
{
    let mut ids: Vec<TypeId> = Vec::new();
    let mut i: usize = 0;
    while i < entries.len()
        invariant
            i <= entries.len(),
            ids@ == entries@.take(i as int).map_values(|e: ComponentEntry| e.type_id),
        decreases entries.len() - i,
    {
        ids.push(entries[i].type_id);
        i += 1;
        assert(ids@ =~= entries@.take(i as int).map_values(|e: ComponentEntry| e.type_id));
    }
    assert(entries@.take(entries.len() as int) =~= entries@);
    ids
}

/// The entry of a component catalog as the selection keeps it: its type and name.
pub fn component_selection_entry(entry: &ComponentEntry) -> (r: TypeIdNameCache)
    ensures
        r.type_id_view() == entry.type_id,
        r.name_view() == entry.name@,
{
    TypeIdNameCache::new(entry.type_id, entry.name.clone())
}

/// Pressing the toggle key twice brings an open or closed menu back to where it was.
pub proof fn law_toggle_twice_returns(state: DebugMenuState)
    requires
        state != DebugMenuState::Explain,
    ensures
        toggled_menu(toggled_menu(state)) == state,
{
}

/// The toggle key never leads to the explanation of the controls.
pub proof fn law_toggle_never_explains(state: DebugMenuState)
    ensures
        toggled_menu(state) != DebugMenuState::Explain,
{
}

/// While the quick-focus chord is held, the menu is opened and the filter takes
/// the focus, whatever else the keys do.
pub proof fn law_quick_focus_opens_menu(
    events: MenuKeyEvents,
    state: DebugMenuState,
    view: DebugWidgetView,
)
    requires
        events.quick_focus_held,
    ensures
        menu_controls_spec(events, state, view).next_state == Some(DebugMenuState::Open),
        menu_controls_spec(events, state, view).focus_filter,
{
}

/// The clear chord resets the filter exactly when the menu is open.
pub proof fn law_clear_resets_only_open_menu(
    events: MenuKeyEvents,
    state: DebugMenuState,
    view: DebugWidgetView,
)
    requires
        events.clear_held,
    ensures
        menu_controls_spec(events, state, view).reset_filter <==> state == DebugMenuState::Open,
{
}

/// Cycling the view twice brings back the view the menu started with.
pub proof fn law_cycle_twice_returns(view: DebugWidgetView)
    ensures
        cycled_view(cycled_view(view)) == view,
{
}

/// With no key of the menu's bindings touched, the controls ask for nothing.
pub proof fn law_idle_keys_change_nothing(
    events: MenuKeyEvents,
    state: DebugMenuState,
    view: DebugWidgetView,
)
    requires
        !events.toggle_pressed,
        !events.quick_focus_held,
        !events.clear_held,
        !events.cycle_pressed,
    ensures
        menu_controls_spec(events, state, view) == (MenuControlActions {
            next_state: None,
            focus_filter: false,
            reset_filter: false,
            next_view: None,
        }),
{
}

/// The catalog lists exactly the registered types whose short path passes the
/// prompt: each listed type is registered and passes, and each registered type
/// that passes is listed.
pub proof fn law_catalog_keeps_exactly_matching(registered: Seq<RegisteredType>, prompt: Seq<char>)
    ensures
        forall|k: int|
            0 <= k < kept_types(registered, prompt).len() ==> prompt_matches(
                (#[trigger] kept_types(registered, prompt)[k]).short_path@,
                prompt,
            ) && registered.contains(kept_types(registered, prompt)[k]),
        forall|i: int|
            0 <= i < registered.len() && prompt_matches(registered[i].short_path@, prompt)
                ==> kept_types(registered, prompt).contains(#[trigger] registered[i]),
{
    let pred = |t: RegisteredType| prompt_matches(t.short_path@, prompt);
    let kept = kept_types(registered, prompt);
    assert forall|k: int| 0 <= k < kept.len() implies prompt_matches(
        (#[trigger] kept[k]).short_path@,
        prompt,
    ) && registered.contains(kept[k]) by {
        registered.lemma_filter_pred(pred, k);
        assert(kept.contains(kept[k]));
        registered.lemma_filter_contains_rev(pred, kept[k]);
    }
    assert forall|i: int|
        0 <= i < registered.len() && prompt_matches(registered[i].short_path@, prompt) implies kept.contains(
        #[trigger] registered[i],
    ) by {
        registered.lemma_filter_contains(pred, i);
    }
}

/// With an empty prompt the catalog lists every registered type, in registry order.
pub proof fn law_empty_prompt_keeps_registry(registered: Seq<RegisteredType>)
    ensures
        kept_types(registered, Seq::<char>::empty()) == registered,
    decreases registered.len(),
{
    reveal(Seq::filter);
    if registered.len() > 0 {
        law_empty_prompt_keeps_registry(registered.drop_last());
        assert(registered.drop_last().push(registered.last()) =~= registered);
    }
}

/// Whenever every key of the quick-focus chord is held on the keyboard, the menu
/// is opened and its filter takes the focus.
pub proof fn law_held_quick_focus_chord_opens_menu(
    keybinds: DebugMenuKeybinds,
    keys: ButtonInput<KeyCode>,
    state: DebugMenuState,
    view: DebugWidgetView,
)
    requires
        keybinds.filter_quick_focus@.subset_of(pressed_keys(keys)),
    ensures
        menu_controls_spec(menu_key_events(keybinds, keys), state, view).next_state == Some(
            DebugMenuState::Open,
        ),
        menu_controls_spec(menu_key_events(keybinds, keys), state, view).focus_filter,
{
}

/// What the menu's keys decide, key by key: only the quick-focus chord and the
/// toggle key move the menu (the chord opening it, else the toggle key closing an
/// open menu and opening any other); only the chord asks for the filter's focus;
/// the clear chord resets the filter exactly on an open menu; and only the cycle
/// key switches the view, always to the other view.
pub proof fn law_each_key_does_its_own_part(
    events: MenuKeyEvents,
    state: DebugMenuState,
    view: DebugWidgetView,
)
    ensures
        events.quick_focus_held ==> menu_controls_spec(events, state, view).next_state == Some(
            DebugMenuState::Open,
        ),
        !events.quick_focus_held && events.toggle_pressed && state == DebugMenuState::Open
            ==> menu_controls_spec(events, state, view).next_state == Some(DebugMenuState::Closed),
        !events.quick_focus_held && events.toggle_pressed && state != DebugMenuState::Open
            ==> menu_controls_spec(events, state, view).next_state == Some(DebugMenuState::Open),
        !events.quick_focus_held && !events.toggle_pressed ==> menu_controls_spec(
            events,
            state,
            view,
        ).next_state is None,
        menu_controls_spec(events, state, view).focus_filter == events.quick_focus_held,
        menu_controls_spec(events, state, view).reset_filter == (events.clear_held && state
            == DebugMenuState::Open),
        events.cycle_pressed ==> (menu_controls_spec(events, state, view).next_view matches Some(v)
            && v != view),
        !events.cycle_pressed ==> menu_controls_spec(events, state, view).next_view is None,
{
}

/// The menu's next state depends on the toggle key and the quick-focus chord
/// alone: frames that agree on those two agree on where the menu goes, whatever
/// the clear and cycle keys do.
pub proof fn law_next_state_ignores_clear_and_cycle(
    a: MenuKeyEvents,
    b: MenuKeyEvents,
    state: DebugMenuState,
    view: DebugWidgetView,
)
    requires
        a.toggle_pressed == b.toggle_pressed,
        a.quick_focus_held == b.quick_focus_held,
    ensures
        menu_controls_spec(a, state, view).next_state == menu_controls_spec(b, state, view).next_state,
        menu_controls_spec(a, state, view).focus_filter == menu_controls_spec(b, state, view).focus_filter,
{
}

} // verus!
