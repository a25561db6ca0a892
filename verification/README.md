# shellbar

The logic of a desktop status bar (Hyprland workspaces, a status-notifier tray with
D-Bus menus, MPRIS media players, PipeWire audio devices), written in Verus with its
behaviour stated in contracts and proved.

- `src/` is the verified library: the tray and watcher registries, menu-layout
  parsing, the reading of PipeWire node and device parameters, the requests that audio
  commands become, player and owner-change decisions, monitor ordering, and the string
  helpers these rest on.
- `tests/` runs the library on concrete values.
- `app/` is the desktop program around it: the Tauri window, the D-Bus services and
  proxies, the Hyprland and PipeWire listeners, and the serde copies of the library's
  types that the front end receives.
