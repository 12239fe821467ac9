# xframe

An application framework for [egui](https://github.com/emilk/egui) on desktop and
mobile hosts (winit for the windows, wgpu for the rendering), whose decision logic
is verified with [Verus](https://github.com/verus-lang/verus).

## Layout

- `src/` — the verified library:
  - `app_life_cycle_state`, `app_life_cycle_handler`: the host application's
    life-cycle states and the state machine that derives them from window-system
    events, with the laws that every reported sequence is a chain of single moves,
    that nothing follows an exit, and what the `was_active` flag means;
  - `life_cycle_dispatch`: what the running app is told for each new state
    (save, state change, shutdown notice), and the steps of a save;
  - `current_platform`: the platform flags of a target OS;
  - `repaint_schedule`, `event_loop`: the per-window repaint schedule of the event
    loop, how event results update it, and how the loop waits;
  - `viewport_events`: focus and resize tracking of viewports, and the results of
    window events and paint passes;
  - `paste`: the text of a clipboard paste;
  - `storage`, `render_options`: the storage interface and renderer options.
- `tests/` — tests of the library on concrete values.
- `app/` — the framework itself: it drives winit, egui and wgpu with the library's
  decisions (event loop handler, windows and viewports, rendering, the app trait).
