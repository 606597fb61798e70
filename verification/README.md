# codex_token_meter_lib

The logic of a macOS menu-bar meter for Codex subscription usage limits,
written in Verus and verified.

`src/` is the verified library:

- `provider` — normalising the usage document (reported errors, duplicate
  windows, unsupported windows, clamped percentages) and the Codex app-server
  rate-limit reply; the usage sources that need no I/O.
- `usage` — the refresh cycle: fresh, stale and unavailable snapshots, and the
  laws that relate successive refreshes.
- `state`, `settings`, `commands` — the shared model, persisted settings and
  what each user-interface command decides.
- `percent` — percentages are carried as the bit pattern of a single-precision
  number, so clamping to `0.0 ..= 100.0` is stated and proved exactly.
- `clock` — the system clock and RFC 3339 rendering through `chrono`.
- `refresh` — the polling loop's decisions (live, mock or stop; how long to
  wait) and the handle that wakes it.

`app/` is the Tauri shell: JSON decoding with serde, the settings file, the
Codex app-server process, windows, the tray icon and launch at login.
