use desktop_runtime::shell_builtins::{open_command, resolve_open_target, OpenTarget};
use desktop_runtime::shell_builtins::builtin_command_descriptors;
use desktop_runtime::shell_builtins::{app_can_register_commands, check_app_command_registration};
use desktop_runtime::shell_contract::CommandScope;
use desktop_runtime::app_contract::{AppCapability, ApplicationId, SuspendPolicy};
use desktop_runtime::app_registry::{
    app_descriptor_by_id, app_requested_capabilities_by_id, app_suspend_policy_by_id,
    app_title_by_id, build_app_registry, desktop_icon_apps, find_app_descriptor, launcher_apps,
    AppManifestCatalog, AppManifestMetadata, WindowDefaults,
};
use desktop_runtime::model::{AppId, DesktopState, InteractionState, OpenWindowRequest, WindowId};
use desktop_runtime::reducer::{reduce_desktop, DesktopAction};
use desktop_runtime::shell_builtins::{
    apps_list_text, config_get_key, config_missing_status, config_saved_status,
    config_get_output, config_set_outcome, config_set_request, inspect_runtime_output,
    inspect_storage_output, help_command, history_command, open_completions,
    reduced_motion_command, window_command, windows_list_command, CommandOutput, WindowCommand,
};
use desktop_runtime::shell_commands::descriptor;
use desktop_runtime::shell_contract::{CommandDescriptor, CommandVisibility, ShellErrorCode};

fn argv(parts: &[&str]) -> Vec<String> {
    parts.iter().map(|p| p.to_string()).collect()
}

fn sample_descriptors() -> Vec<CommandDescriptor> {
    vec![
        descriptor("windows.list", &[], "List open windows.", "windows.list", vec![], vec![], vec![]),
        descriptor("fs.pwd", &["pwd"], "Print the logical filesystem cwd.", "fs.pwd", vec![], vec![], vec![]),
        descriptor("help", &[], "List commands or show help for one command.", "help [command]", vec![], vec![], vec![]),
    ]
}

#[test]
fn help_lists_commands_in_path_order_with_padded_paths() {
    let out = help_command(&sample_descriptors(), &argv(&["help"])).expect("listing");
    assert_eq!(out.len(), 1);
    let expected = format!(
        "Available commands:\n  {:<26} {}\n  {:<26} {}\n  {:<26} {}",
        "fs.pwd",
        "Print the logical filesystem cwd.",
        "help",
        "List commands or show help for one command.",
        "windows.list",
        "List open windows."
    );
    assert_eq!(out[0], expected);
    assert!(out[0].contains("  fs.pwd                     Print"));
}

#[test]
fn help_with_empty_registry_prints_heading_only() {
    let out = help_command(&Vec::new(), &argv(&["help"])).expect("listing");
    assert_eq!(out, vec!["Available commands:".to_string()]);
}

#[test]
fn help_for_one_command_matches_path_or_alias() {
    let by_path = help_command(&sample_descriptors(), &argv(&["help", "fs.pwd"])).expect("path");
    assert_eq!(by_path, vec!["fs.pwd\nPrint the logical filesystem cwd.\nUsage: fs.pwd\n".to_string()]);
    let by_alias = help_command(&sample_descriptors(), &argv(&["help", "pwd"])).expect("alias");
    assert_eq!(by_alias, by_path);
}

#[test]
fn help_reports_unknown_commands_and_extra_arguments() {
    let missing = help_command(&sample_descriptors(), &argv(&["help", "nope"])).unwrap_err();
    assert_eq!(missing.code, ShellErrorCode::NotFound);
    assert_eq!(missing.message, "command not found: nope");
    let usage = help_command(&sample_descriptors(), &argv(&["help", "a", "b"])).unwrap_err();
    assert_eq!(usage.code, ShellErrorCode::Usage);
    assert_eq!(usage.message, "usage: help [command]");
}

#[test]
fn history_prints_commands_or_status() {
    assert_eq!(history_command(&Vec::new()), CommandOutput::Status("no terminal history".to_string()));
    assert_eq!(
        history_command(&argv(&["ls", "help"])),
        CommandOutput::Stdout("ls\nhelp".to_string())
    );
}

#[test]
fn windows_list_prints_one_line_per_window() {
    let mut state = DesktopState::default();
    let mut interaction = InteractionState::default();
    assert_eq!(windows_list_command(&state), CommandOutput::Status("no open windows".to_string()));
    reduce_desktop(&mut state, &mut interaction, DesktopAction::OpenWindow(OpenWindowRequest::new(AppId::Explorer)))
        .expect("open");
    reduce_desktop(&mut state, &mut interaction, DesktopAction::OpenWindow(OpenWindowRequest::new(AppId::Terminal)))
        .expect("open");
    let expected = format!(
        "{}  system.explorer  Explorer\n{}  system.terminal  Terminal",
        state.windows[0].id.0, state.windows[1].id.0
    );
    assert_eq!(windows_list_command(&state), CommandOutput::Stdout(expected));
}

#[test]
fn window_commands_parse_ids_and_build_actions() {
    let (action, status) = window_command(WindowCommand::Focus, &argv(&["windows.focus", "7"])).expect("focus");
    assert_eq!(action, DesktopAction::FocusWindow { window_id: WindowId(7) });
    assert_eq!(status, "windows.focus 7");
    let (action, status) = window_command(WindowCommand::Close, &argv(&["windows.close", "12"])).expect("close");
    assert_eq!(action, DesktopAction::CloseWindow { window_id: WindowId(12) });
    assert_eq!(status, "windows.close 12");
    let usage = window_command(WindowCommand::Minimize, &argv(&["windows.minimize"])).unwrap_err();
    assert_eq!(usage.message, "usage: windows.minimize <window-id>");
    let invalid = window_command(WindowCommand::Restore, &argv(&["windows.restore", "x1"])).unwrap_err();
    assert_eq!(invalid.code, ShellErrorCode::Usage);
    assert_eq!(invalid.message, "invalid window id `x1`");
}

#[test]
fn reduced_motion_command_accepts_flags() {
    let (action, status) = reduced_motion_command(&argv(&["theme.set.reduced-motion", "on"])).expect("on");
    assert_eq!(action, DesktopAction::SetReducedMotion { enabled: true });
    assert_eq!(status, "theme.set.reduced-motion on");
    let (action, _) = reduced_motion_command(&argv(&["theme.set.reduced-motion", "0"])).expect("0");
    assert_eq!(action, DesktopAction::SetReducedMotion { enabled: false });
    let bad = reduced_motion_command(&argv(&["theme.set.reduced-motion", "maybe"])).unwrap_err();
    assert_eq!(bad.message, "expected on/off, got `maybe`");
    let usage = reduced_motion_command(&argv(&["theme.set.reduced-motion"])).unwrap_err();
    assert_eq!(usage.message, "usage: theme.set.reduced-motion <on|off>");
}

#[test]
fn config_commands_build_keys_and_json_text() {
    assert_eq!(config_get_key(&argv(&["config.get", "ui", "zoom"])).unwrap(), "ui.zoom");
    assert_eq!(
        config_get_key(&argv(&["config.get", "ui"])).unwrap_err().message,
        "usage: config.get <namespace> <key>"
    );
    let (key, value) = config_set_request(&argv(&["config.set", "ui", "zoom", "{\"a\":", "1}"])).unwrap();
    assert_eq!(key, "ui.zoom");
    assert_eq!(value, serde_json::from_str::<serde_json::Value>("{\"a\": 1}").unwrap());
    assert_eq!(value["a"], serde_json::Value::from(1));
    assert_eq!(
        config_set_request(&argv(&["config.set", "ui", "zoom"])).unwrap_err().message,
        "usage: config.set <namespace> <key> <json>"
    );
    assert_eq!(config_missing_status("ui.zoom"), "no value stored for `ui.zoom`");
    assert_eq!(config_saved_status("ui.zoom"), "saved `ui.zoom`");
}

#[test]
fn config_set_rejects_invalid_json() {
    let err = config_set_request(&argv(&["config.set", "ui", "zoom", "{oops"])).unwrap_err();
    assert_eq!(err.code, ShellErrorCode::Usage);
    let expected = serde_json::from_str::<serde_json::Value>("{oops").unwrap_err().to_string();
    assert_eq!(err.message, format!("invalid json: {expected}"));
    let (key, value) = config_set_request(&argv(&["config.set", "a", "b", "\"x", "y\""])).unwrap();
    assert_eq!(key, "a.b");
    assert_eq!(value, serde_json::Value::String("x y".to_string()));
}

#[test]
fn config_set_outcome_maps_parse_results() {
    let ok = config_set_outcome("k.v".to_string(), Ok(serde_json::Value::Bool(true))).unwrap();
    assert_eq!(ok, ("k.v".to_string(), serde_json::Value::Bool(true)));
    let err = config_set_outcome("k.v".to_string(), Err("bad".to_string())).unwrap_err();
    assert_eq!(err.code, ShellErrorCode::Usage);
    assert_eq!(err.message, "invalid json: bad");
}

#[test]
fn help_listing_leaves_out_hidden_commands() {
    let mut descriptors = sample_descriptors();
    let mut hidden = descriptor("secret.cmd", &[], "Hidden helper.", "secret.cmd", vec![], vec![], vec![]);
    hidden.visibility = CommandVisibility::Hidden;
    descriptors.push(hidden);
    let listing = help_command(&descriptors, &argv(&["help"])).unwrap();
    assert!(!listing[0].contains("secret.cmd"));
    let shown = help_command(&sample_descriptors(), &argv(&["help"])).unwrap();
    assert_eq!(listing, shown);
    let by_name = help_command(&descriptors, &argv(&["help", "secret.cmd"])).unwrap();
    assert_eq!(by_name.len(), 1);
}

fn manifest(name: &str, launcher: bool, desktop: bool, caps: Vec<AppCapability>) -> AppManifestMetadata {
    AppManifestMetadata {
        display_name: name.to_string(),
        requested_capabilities: caps,
        single_instance: false,
        suspend_policy: SuspendPolicy::OnMinimize,
        show_in_launcher: launcher,
        show_on_desktop: desktop,
        window_defaults: WindowDefaults { width: 400, height: 300 },
    }
}

fn catalog() -> AppManifestCatalog {
    AppManifestCatalog {
        calculator: manifest("Calculator", true, true, vec![AppCapability::Window]),
        explorer: manifest("Explorer", true, true, vec![AppCapability::Window, AppCapability::State]),
        notepad: manifest("Notepad", true, true, vec![AppCapability::State]),
        terminal: manifest("Terminal", true, false, vec![AppCapability::Commands]),
        settings: AppManifestMetadata {
            single_instance: true,
            suspend_policy: SuspendPolicy::Never,
            ..manifest("System Settings", true, false, vec![AppCapability::Theme])
        },
    }
}

#[test]
fn registry_orders_apps_and_fills_placeholders() {
    let registry = build_app_registry(&catalog());
    let ids: Vec<&str> = registry.iter().map(|d| d.app_id.as_str()).collect();
    assert_eq!(
        ids,
        vec![
            "system.calculator",
            "system.explorer",
            "system.notepad",
            "system.paint",
            "system.terminal",
            "system.settings",
            "system.dialup"
        ]
    );
    assert_eq!(registry[2].desktop_icon_label, "Notes");
    assert_eq!(registry[2].launcher_label, "Notepad");
    assert_eq!(registry[3].requested_capabilities, vec![AppCapability::Window, AppCapability::State]);
    assert_eq!(registry[5].desktop_icon_label, "Settings");
    assert_eq!(registry[6].launcher_label, "Dial-up");
    assert_eq!(registry[6].desktop_icon_label, "Connect");
    assert!(!registry[6].show_on_desktop);
}

#[test]
fn registry_filters_and_lookups() {
    let registry = build_app_registry(&catalog());
    let launcher: Vec<String> = launcher_apps(&registry).iter().map(|d| d.app_id.as_str().to_string()).collect();
    assert_eq!(launcher.len(), 7);
    let desktop: Vec<String> = desktop_icon_apps(&registry).iter().map(|d| d.app_id.as_str().to_string()).collect();
    assert_eq!(desktop, vec!["system.calculator", "system.explorer", "system.notepad"]);
    let settings = ApplicationId::trusted("system.settings".to_string());
    assert_eq!(find_app_descriptor(&registry, &settings), Some(5));
    assert_eq!(app_descriptor_by_id(&registry, &settings).launcher_label, "System Settings");
    assert_eq!(app_suspend_policy_by_id(&registry, &settings), SuspendPolicy::Never);
    assert_eq!(app_requested_capabilities_by_id(&registry, &settings), &[AppCapability::Theme]);
    assert_eq!(app_title_by_id(&registry, &settings), "System Settings");
    let unknown = ApplicationId::trusted("acme.tool".to_string());
    assert_eq!(find_app_descriptor(&registry, &unknown), None);
}

#[test]
fn apps_list_and_open_completion_follow_the_registry() {
    let registry = build_app_registry(&catalog());
    let text = apps_list_text(&registry);
    assert!(text.starts_with("system.calculator  Calculator\nsystem.explorer  Explorer\n"));
    assert!(text.ends_with("system.dialup  Dial-up"));
    let items = open_completions(&registry, &argv(&["open", "system.t"]));
    assert_eq!(items.len(), 1);
    assert_eq!(items[0].value, "system.terminal");
    assert_eq!(items[0].label, "system.terminal");
    assert_eq!(items[0].detail.as_deref(), Some("Terminal"));
    assert_eq!(open_completions(&registry, &argv(&["open"])).len(), 7);
    assert!(open_completions(&registry, &argv(&["open", "zzz"])).is_empty());
}

#[test]
fn builtin_descriptors_cover_the_shell_commands() {
    let descriptors = builtin_command_descriptors();
    assert_eq!(descriptors.len(), 23);
    let paths: Vec<&str> = descriptors.iter().map(|d| d.path.as_str()).collect();
    assert_eq!(paths[0], "help");
    assert_eq!(paths[22], "fs.ls");
    assert!(paths.contains(&"windows.restore"));
    let help = &descriptors[0];
    assert_eq!(help.help.usage, "help [command]");
    assert_eq!(help.help.examples.len(), 1);
    assert_eq!(help.help.examples[0].command, "help windows.list");
    let pwd = descriptors.iter().find(|d| d.path.as_str() == "fs.pwd").unwrap();
    assert_eq!(pwd.aliases, vec!["pwd".to_string()]);
    let set = descriptors.iter().find(|d| d.path.as_str() == "config.set").unwrap();
    assert_eq!(set.args.len(), 3);
    assert!(set.args[2].repeatable);
    let inspect = descriptors.iter().find(|d| d.path.as_str() == "inspect.windows").unwrap();
    assert_eq!(inspect.help.usage, "windows.list");
    assert_eq!(inspect.help.summary, "Inspect open window state.");
    let listing = help_command(&descriptors, &argv(&["help"])).unwrap();
    assert!(listing[0].starts_with("Available commands:\n  apps.list"));
    let by_alias = help_command(&descriptors, &argv(&["help", "ls"])).unwrap();
    assert_eq!(by_alias, vec!["fs.ls\nList a directory using the active explorer backend.\nUsage: fs.ls [path]\n".to_string()]);
}

#[test]
fn command_registration_requires_capability_and_owned_scope() {
    let registry = build_app_registry(&catalog());
    assert!(app_can_register_commands(&registry, AppId::Terminal));
    assert!(!app_can_register_commands(&registry, AppId::Explorer));
    let denied = check_app_command_registration(&registry, AppId::Explorer, WindowId(1), &CommandScope::Global);
    assert_eq!(denied, Err("system.explorer is not allowed to register system commands".to_string()));
    let global = check_app_command_registration(&registry, AppId::Terminal, WindowId(1), &CommandScope::Global);
    assert_eq!(global, Err("only privileged apps may register global commands".to_string()));
    let own_app = CommandScope::App { app_id: "system.terminal".to_string() };
    assert_eq!(check_app_command_registration(&registry, AppId::Terminal, WindowId(1), &own_app), Ok(()));
    let other_window = CommandScope::Window { window_id: 2 };
    assert_eq!(
        check_app_command_registration(&registry, AppId::Terminal, WindowId(1), &other_window),
        Err("window-scoped command owner mismatch".to_string())
    );
}

#[test]
fn open_resolves_apps_and_deep_links() {
    assert_eq!(resolve_open_target("system.notepad"), Some(OpenTarget::App(AppId::Notepad)));
    match resolve_open_target("notes:todo") {
        Some(OpenTarget::Window(req)) => {
            assert_eq!(req.app_id, AppId::Notepad);
            assert_eq!(req.title.as_deref(), Some("Note - todo"));
            assert_eq!(req.persist_key.as_deref(), Some("notes:todo"));
            assert_eq!(req.launch_params["slug"], "todo");
        }
        other => panic!("unexpected {other:?}"),
    }
    match resolve_open_target("projects:site") {
        Some(OpenTarget::Window(req)) => {
            assert_eq!(req.app_id, AppId::Explorer);
            assert_eq!(req.persist_key.as_deref(), Some("projects:site"));
        }
        other => panic!("unexpected {other:?}"),
    }
    assert_eq!(resolve_open_target("nope"), None);
    let (target, status) = open_command(&argv(&["open", "system.terminal"])).expect("open");
    assert_eq!(target, OpenTarget::App(AppId::Terminal));
    assert_eq!(status, "opened `system.terminal`");
    let missing = open_command(&argv(&["open", "x"])).unwrap_err();
    assert_eq!(missing.code, ShellErrorCode::NotFound);
    assert_eq!(missing.message, "unknown open target `x`");
    assert_eq!(open_command(&argv(&["open"])).unwrap_err().message, "usage: open <target>");
}

#[test]
fn config_get_prints_pretty_json_or_missing_status() {
    let value: serde_json::Value = serde_json::from_str("{\"a\":[1,2]}").unwrap();
    let out = config_get_output("ui.zoom", &Some(value.clone()));
    assert_eq!(out, CommandOutput::Stdout(serde_json::to_string_pretty(&value).unwrap()));
    assert_eq!(
        config_get_output("ui.zoom", &None),
        CommandOutput::Status("no value stored for `ui.zoom`".to_string())
    );
}

#[test]
fn inspect_reports_runtime_and_storage() {
    let mut state = DesktopState::default();
    state.start_menu_open = true;
    state.terminal_history = vec!["help".to_string(), "ls".to_string()];
    let (payload, text) = inspect_runtime_output(&state, "xp");
    let expected: serde_json::Value = serde_json::from_str(
        "{\"windows\":0,\"start_menu_open\":true,\"skin\":\"xp\",\"high_contrast\":false,\"reduced_motion\":false,\"terminal_history_len\":2}",
    )
    .unwrap();
    assert_eq!(payload["windows"], expected["windows"]);
    assert_eq!(payload["skin"], expected["skin"]);
    assert_eq!(payload["start_menu_open"], expected["start_menu_open"]);
    assert_eq!(payload["terminal_history_len"], expected["terminal_history_len"]);
    assert_eq!(payload["high_contrast"], serde_json::Value::Bool(state.theme.high_contrast));
    assert_eq!(text, serde_json::to_string_pretty(&payload).unwrap());
    let (storage, storage_text) =
        inspect_storage_output("browser", vec!["notepad".to_string(), "explorer".to_string()]);
    let expected: serde_json::Value =
        serde_json::from_str("{\"host_strategy\":\"browser\",\"namespaces\":[\"notepad\",\"explorer\"]}").unwrap();
    assert_eq!(storage, expected);
    assert_eq!(storage_text, serde_json::to_string_pretty(&expected).unwrap());
}
