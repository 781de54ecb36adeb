# defmthost

`defmthost` is a host-side GUI for `defmt` logging over USB and for probe
debugging. This crate holds the logic of its interface as a library verified
with Verus, and a thin `iced` application around it.

## Layout

- `src/` — the verified library:
  - `usb/` — USB devices as read from their descriptors, endpoint targets.
  - `gui/selector/`, `gui/usbcfg/` — the device trees, their expand/collapse
    actions and the rows they show; target selection.
  - `gui/window/binary/` — the binary window: the substring index and search
    engine over section and symbol names, the inspection view and its events.
  - `gui/views/` — the project database view (a state machine whose effects
    the application performs), the probe view and its address grammar, the
    settings and loading screens.
  - `project.rs`, `text.rs`, `seqs.rs` — projects, text helpers and shared
    sequence lemmas.
- `tests/` — tests of the library on concrete values.
- `app/` — the application: windows and widgets, USB and probe enumeration,
  ELF reading, the project database task and themes.

Each public function states its result in its contract; the laws of the
library (search exactness, input validity, round trips of project editing,
properties of the device trees) are public proof functions named `law_*`.
