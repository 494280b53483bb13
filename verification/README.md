# desktop_runtime

The verified core of a retro desktop shell that runs in the browser: the
window manager, the command shell, the apps' state and the rules that tie
them together, written in Verus with contracts that the verifier proves.

## Layout

- `src/` — the verified library.
  - `model.rs`, `reducer.rs`, `reducer_laws.rs`, `runtime.rs`: desktop state,
    the reducer that applies every window-manager action, the laws it keeps,
    and the effect queue the host drains.
  - `shell_contract.rs`, `shell_engine.rs`, `shell_commands.rs`,
    `shell_builtins.rs`: command descriptors, the registry and sessions, and
    what each built-in command answers.
  - `terminal.rs`, `terminal_console.rs`, `notepad.rs`, `calculator.rs`,
    `settings.rs`, `explorer.rs`, `paths.rs`: app state and decisions.
  - `taskbar.rs`, `window_chrome.rs`, `display_properties.rs`, `ui_tokens.rs`,
    `icons.rs`: desktop chrome.
  - `app_contract.rs`, `app_commands.rs`, `app_registry.rs`, `apps.rs`,
    `storage.rs`, `persistence.rs`, `wallpaper_host.rs`: contracts between
    apps, runtime and host storage.
  - `strings.rs`, `json.rs`: text helpers, and the JSON values carried
    through, built and parsed.
- `tests/` — tests run against the compiled library.
- `app/` — ordinary Rust around the library: the floating-point calculator
  engine and window sizing, JSON records of persisted state, boot hydration
  from stored text, the runner of the reducer's effects, shell stream events
  and the storage-backed command handlers, and the asynchronous wallpaper
  service interface.
