# bevy_ui_extras

A debug menu for Bevy applications: a window that lists the registered resource
and component types, filters them by a prompt, lets the user select some and
inspect them, and is driven by configurable keybinds.

- `src/` is the verified core, written in Verus. It holds the menu's decisions
  over plain values: what the keybinds do to the menu's state, which registered
  types the catalog lists and in which order, how a click changes the selection,
  which picked table columns a header click keeps, how the window's opacity is
  set, and what the components view shows of a component.
- `tests/` exercises the core on concrete values.
- `app/` is the Bevy and egui side: plugins, systems that read the ECS world and
  the keyboard resource, and the drawing of the menus. It hands the core plain
  values and applies what the core decides.
