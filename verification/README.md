# dash_spv_ui

The verified core of a lightweight Dash SPV wallet with a desktop UI.

- `src/` is the library, proved with Verus: amount parsing and display
  formatting (`state::view_models`), the UI state machines driven by backend
  events (`state::*`, `event_bridge`), the send, import, transaction-list and
  network-selection screen rules (`screens::*`), the configuration rules and
  directory layout (`config::*`), the mapping of the SPV client's
  notifications and wallet records into backend events (`backend::records`),
  and an in-memory wallet backend (`backend::mock`).
- `tests/` exercises the library on concrete values.
- `app/` is the program around it: command-line options, the TOML
  configuration file, the asynchronous backend runtime with its event
  channel, and the on-disk cache size.
