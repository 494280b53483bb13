use desktop_runtime::app_contract::ApplicationId;
use desktop_runtime::apps::{
    app_icon_id_by_id, app_is_privileged, app_is_privileged_by_id, is_dialup_application_id,
    parse_application_id_compat, pinned_taskbar_app_ids, settings_application_id,
};
use desktop_runtime::model::{AppId, WindowId};
use desktop_runtime::shell_commands::{
    descriptor, parse_bool_flag, parse_u64, parse_window_id, unavailable, usage_error,
    validate_scope,
};
use desktop_runtime::shell_contract::{CommandScope, CommandVisibility, ShellErrorCode};
use desktop_runtime::strings::trim;

#[test]
fn canonical_ids_and_privileges() {
    assert_eq!(AppId::Calculator.canonical_id(), "system.calculator");
    assert_eq!(AppId::Dialup.canonical_id(), "system.dialup");
    assert!(!app_is_privileged(AppId::Explorer));
    assert!(app_is_privileged_by_id(&settings_application_id()));
    let calc = ApplicationId::trusted("system.calculator".to_string());
    assert!(!app_is_privileged_by_id(&calc));
    assert_eq!(app_icon_id_by_id(&calc), "calculator");
    assert_eq!(app_icon_id_by_id(&ApplicationId::trusted("x.y".to_string())), "window");
    assert!(is_dialup_application_id(&ApplicationId::trusted("system.dialup".to_string())));
    let pinned: Vec<String> = pinned_taskbar_app_ids().iter().map(|a| a.as_str().to_string()).collect();
    assert_eq!(pinned, vec!["system.explorer", "system.terminal", "system.notepad", "system.calculator"]);
}

#[test]
fn compat_parsing_accepts_canonical_and_legacy_ids() {
    assert_eq!(
        parse_application_id_compat("  system.paint ").map(|a| a.as_str().to_string()),
        Some("system.paint".to_string())
    );
    assert_eq!(
        parse_application_id_compat("Terminal").map(|a| a.as_str().to_string()),
        Some("system.terminal".to_string())
    );
    assert!(parse_application_id_compat("Unknown").is_none());
    assert_eq!(trim("  a b \n"), "a b");
}

#[test]
fn flag_and_window_id_parsing() {
    assert_eq!(parse_bool_flag("on").unwrap(), true);
    assert_eq!(parse_bool_flag("0").unwrap(), false);
    let err = parse_bool_flag("maybe").unwrap_err();
    assert_eq!(err.code, ShellErrorCode::Usage);
    assert_eq!(err.message, "expected on/off, got `maybe`");
    assert_eq!(parse_window_id("42").unwrap(), WindowId(42));
    assert_eq!(parse_window_id("+7").unwrap(), WindowId(7));
    let err = parse_window_id("4x").unwrap_err();
    assert_eq!(err.message, "invalid window id `4x`");
    assert_eq!(parse_u64("18446744073709551615"), Some(u64::MAX));
    assert_eq!(parse_u64("18446744073709551616"), None);
    assert_eq!(parse_u64(""), None);
    assert_eq!(parse_u64("+"), None);
    assert_eq!(parse_u64("-1"), None);
    assert_eq!(unavailable("x".to_string()).code, ShellErrorCode::Unavailable);
    assert_eq!(usage_error("y".to_string()).exit_code(), 2);
}

#[test]
fn scope_policy_for_app_commands() {
    assert_eq!(
        validate_scope(&CommandScope::Global, AppId::Terminal, WindowId(1)),
        Err("only privileged apps may register global commands".to_string())
    );
    assert_eq!(
        validate_scope(
            &CommandScope::App { app_id: "system.terminal".to_string() },
            AppId::Terminal,
            WindowId(1)
        ),
        Ok(())
    );
    assert_eq!(
        validate_scope(
            &CommandScope::App { app_id: "system.notepad".to_string() },
            AppId::Terminal,
            WindowId(1)
        ),
        Err("app-scoped command owner mismatch".to_string())
    );
    assert_eq!(
        validate_scope(&CommandScope::Window { window_id: 3 }, AppId::Terminal, WindowId(3)),
        Ok(())
    );
    assert_eq!(
        validate_scope(&CommandScope::Window { window_id: 3 }, AppId::Terminal, WindowId(4)),
        Err("window-scoped command owner mismatch".to_string())
    );
}

#[test]
fn builtin_descriptors_are_global_and_public() {
    let d = descriptor("help", &["?"], "List commands.", "help [command]", vec![], vec![], vec![]);
    assert_eq!(d.path.as_str(), "help");
    assert_eq!(d.id.as_str(), "help");
    assert_eq!(d.aliases, vec!["?".to_string()]);
    assert_eq!(d.scope, CommandScope::Global);
    assert_eq!(d.visibility, CommandVisibility::Public);
    assert_eq!(d.help.usage, "help [command]");
    assert!(d.help.description.is_none());
}
