# hanabifx

Press keys or click anywhere and fireworks burst at the cursor: a full-screen,
click-through, transparent overlay for macOS, with a small settings panel
(`--edit`) to tune each trigger (left click, right click, double click, key).

## Layout

- `src/` — the verified library (Verus):
  - `config.rs`: per-trigger parameters and their defaults. The continuous
    values (speed, spread, gravity, lifetime, radius) are a `Motion` supplied by
    the host, so the library holds no floating point.
  - `settings_ui.rs`: tabs, labels, the selector orders, the click grammar of
    the panel's button ids and the handler that edits the configuration.
  - `button_ids.rs`: builds the button ids and proves each one is read back as
    the command its button stands for.
  - `fx_particle.rs`: the random generator, the burst planner (count, draws,
    colour and shape of every particle) and the capped particle pool.
  - `fx_input_tap.rs`: event classification, the double-click tracker and the
    label a key press spells.
  - `overlay.rs`: which parameters a burst uses, what each window shows, and
    redraw pacing.
  - `text.rs`: character-level scanning of ids.
- `app/` — the program around it: AppKit event monitors and window setup, the
  TOML file, particle physics and colours, and the sabitori views.
- `tests/` — tests of the library on concrete values.
