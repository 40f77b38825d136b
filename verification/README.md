# hyprdock

A dock for the Hyprland compositor. The library in `src/` holds its decisions,
verified with Verus; the GTK 4 program in `app/` draws them and talks to the
system.

- `src/text.rs`: substring search, truncation of labels, decimal notation,
  lowercase (through `str::to_lowercase`).
- `src/model.rs`: pinned applications and the compositor's windows.
- `src/matching.rs`: which windows belong to which pinned application.
- `src/actions.rs`: the `hyprctl` and shell processes the dock starts.
- `src/plan.rs`: every button of the dock, with its clicks and its menu.
- `src/pins.rs`: the default pins, loading, pinning and unpinning.
- `src/autohide.rs`: when the dock slides away; the window count from
  `hyprctl activeworkspace -j` (through serde_json).
- `src/refresh.rs`: when the dock is rebuilt and the stylesheet reloaded.
- `src/icons.rs`: which icon a button shows.
- `src/laws.rs`: properties that span these functions, proved.
- `app/`: widgets, files, processes, the stylesheet, and the wave animation
  and background outline, which compute in floating point.
