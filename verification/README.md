# tuix (verified core)

The window description, style defaults and window-input handling of a GUI
toolkit, written in Verus.

- `src/window_description.rs`: `Size` and `WindowDescription` with its builders.
- `src/style.rs`: `Units`, `Color`, `BoxShadow` and its default.
- `src/entity.rs`, `src/event.rs`: widget handles and the events sent to widgets.
- `src/input.rs`: `InputState::handle`, the decision made for each window event,
  specified by the spec function `step`; `src/input_laws.rs` proves properties
  of it that hold over every state and event.
- `app/`: the event loop and window on top of `glutin`, which translates window
  events for the library, performs the hit test of the cursor, and carries out
  the actions the library returns.
