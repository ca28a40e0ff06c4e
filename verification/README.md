# nook

Hides extra menu bar icons on macOS: a spacer item left of a chevron anchor
widens to about the screen's width and pushes every icon left of it off the
screen; a click on the anchor brings them back.

- `src/` is the verified library: the controller's decisions as a state
  machine (`controller.rs`: toggle with its order guard, start-up placement
  checks with retries and escalation, automatic collapse), the items'
  positions, symbols and widths (`status_bar.rs`), launching at login
  (`login.rs`), the context menu (`menu.rs`), the interface strings and the
  choice of language (`strings.rs`), and properties that span events
  (`laws.rs`).
- `app/` is the AppKit application around it: it creates the status items,
  timers and the mouse monitor, turns each callback into a call of the
  controller and performs the actions that come back.
- `tests/` runs the library on concrete events.
