# last_beacon

The game logic of *Last Beacon*, a modular-robot expedition game on the
Foundation runtime, as a library whose behaviour is stated in contracts and
proved with Verus.

- `src/` — the verified library:
  - `scenes/` — stable scene keys, the `.bsn` scene catalog and preload
    groups, startup commands, Beacon page navigation, the scene drivers and
    the main-menu splash sequence (`main_menu.rs`);
  - `shared.rs` — which gameplay space (Hub, World, neither) the scene stack puts the game in;
  - `vehicle/` — a snapshot of a vehicle's entity hierarchy, module and
    socket lookup, and the per-frame connection plan: welds fuse compound
    bodies, hinges join final fusion roots;
  - `ui/` — the reusable widgets' shared state (tab selections, input values,
    dropdown states), button and tab styles, keyboard activation and focus,
    scrollbar dragging, text-input setup and grid layout;
  - `loading.rs` — the lifecycle of `.bsn` widget slots and vehicle module
    instances, and of the shared UI fonts;
  - `world/` — UI-camera layering over the World scene, cursor locking, the
    landscape parameter names and the terrain grid's triangle list;
  - `text.rs` — character-level string helpers.
- `tests/` — scenario tests of the library.
- `app/` — the game executable: Bevy systems that hand the ECS state to the
  library and apply its decisions, plus the floating-point work (terrain
  generation, camera motion, physics poses, scrollbar geometry).
