# clipbin

The verified core of ClipBin, a clipboard-history manager.

- `src/` is a Verus library. It holds the clip records and their conversions
  (`models`), the dedup fingerprint of clipboard contents and the change
  monitor (`clipboard`, `digest`), text rules such as file-path detection and
  ASCII case-insensitive matching (`text`), settings (`settings`), the
  decisions around the clip store and history import (`history`), the paste
  payload and self-write marker (`paste`), the panel's show/hide grace period
  (`window`), the screenshot editor hand-off (`screenshot`, `codec`) and menu
  labels (`menu`). SHA-256, hex, Base64 and PNG come from the `sha2`, `hex`,
  `base64` and `image` crates behind small trusted wrappers.
- `tests/` exercises the library on concrete values.
- `app/` is the application around it: SQLite storage through `sqlx`, the
  settings file, the system clipboard through `arboard`, and, on macOS, the
  Tauri shell (windows, tray, hotkeys, key-event paste).
