use desktop_runtime::shell_contract::{
    CommandArgSpec, CommandDescriptor, CommandExample, CommandId, CommandOptionSpec, CommandPath,
    CommandScope, CommandVisibility, CompletionRequest, HelpDoc, ShellError, ShellErrorCode,
    ShellExit,
};
use desktop_runtime::shell_engine::{
    join_strings, render_help, CompletionPlan, ParsedLine, SessionEvent, ShellEngine, SubmitPlan,
};

fn descriptor(path: &str, aliases: &[&str], scope: CommandScope) -> CommandDescriptor {
    CommandDescriptor {
        id: CommandId::new(path.to_string()),
        path: CommandPath::new(path.to_string()),
        aliases: aliases.iter().map(|alias| alias.to_string()).collect(),
        scope,
        visibility: CommandVisibility::Public,
        args: vec![CommandArgSpec {
            name: "value".to_string(),
            summary: "value".to_string(),
            required: false,
            repeatable: false,
        }],
        options: vec![CommandOptionSpec {
            name: "help".to_string(),
            short: Some('h'),
            summary: "show help".to_string(),
            takes_value: false,
        }],
        help: HelpDoc {
            summary: "summary".to_string(),
            description: None,
            usage: path.to_string(),
            examples: vec![CommandExample {
                command: path.to_string(),
                summary: "example".to_string(),
            }],
        },
    }
}

fn parsed(argv: &[&str], wants_help: bool) -> Result<ParsedLine, String> {
    Ok(ParsedLine {
        argv: argv.iter().map(|a| a.to_string()).collect(),
        wants_help,
        is_empty: argv.is_empty(),
    })
}

fn completed(event: &SessionEvent) -> (u64, Option<String>, i32, Option<String>) {
    match event {
        SessionEvent::Completed { summary } => (
            summary.execution_id.0,
            summary.command_path.as_ref().map(|p| p.as_str().to_string()),
            summary.exit.code,
            summary.exit.message.clone(),
        ),
        _ => panic!("expected a completion"),
    }
}

#[test]
fn registration_handle_unregisters() {
    let mut engine = ShellEngine::new();
    let mut handle = engine.register_command(descriptor("apps.list", &[], CommandScope::Global), false);
    assert_eq!(engine.descriptors().len(), 1);
    engine.unregister(&mut handle);
    assert_eq!(engine.descriptors().len(), 0);
    engine.unregister(&mut handle);
    assert_eq!(engine.descriptors().len(), 0);
}

#[test]
fn tokens_increase_and_descriptors_keep_registration_order() {
    let mut engine = ShellEngine::new();
    let a = engine.register_command(descriptor("a.one", &[], CommandScope::Global), false);
    let b = engine.register_command(descriptor("b.two", &[], CommandScope::Global), false);
    assert_eq!(a.token().0, 1);
    assert_eq!(b.token().0, 2);
    let paths: Vec<String> = engine
        .descriptors()
        .iter()
        .map(|d| d.path.as_str().to_string())
        .collect();
    assert_eq!(paths, vec!["a.one".to_string(), "b.two".to_string()]);
}

#[test]
fn resolution_prefers_narrowest_scope() {
    let mut engine = ShellEngine::new();
    engine.register_command(descriptor("open", &["o"], CommandScope::Global), false);
    engine.register_command(
        descriptor("open", &[], CommandScope::Window { window_id: 4 }),
        false,
    );
    let registry = engine.registry();
    assert_eq!(registry.resolve("open"), Ok(1));
    assert_eq!(registry.resolve("o"), Ok(0));
}

#[test]
fn resolution_reports_missing_and_ambiguous_commands() {
    let mut engine = ShellEngine::new();
    engine.register_command(descriptor("ls", &[], CommandScope::Global), false);
    engine.register_command(descriptor("dir", &["ls"], CommandScope::Global), false);
    let registry = engine.registry();
    assert_eq!(
        registry.resolve("cat"),
        Err(ShellError::new(
            ShellErrorCode::NotFound,
            "command not found: cat".to_string()
        ))
    );
    assert_eq!(
        registry.resolve("ls"),
        Err(ShellError::new(
            ShellErrorCode::Usage,
            "ambiguous command `ls`".to_string()
        ))
    );
}

#[test]
fn first_token_completion_matches_paths_and_aliases() {
    let mut engine = ShellEngine::new();
    engine.register_command(descriptor("windows.list", &["wl", "ls"], CommandScope::Global), false);
    engine.register_command(descriptor("theme.show", &[], CommandScope::Global), true);
    let request = CompletionRequest {
        cwd: "/".to_string(),
        line: "w".to_string(),
        argv: vec!["w".to_string()],
        cursor: 1,
        source_window_id: None,
    };
    match engine.registry().complete(&request).unwrap() {
        CompletionPlan::Items(items) => {
            let values: Vec<&str> = items.iter().map(|i| i.value.as_str()).collect();
            assert_eq!(values, vec!["windows.list", "wl"]);
            assert_eq!(items[0].label, "windows.list");
            assert_eq!(items[0].detail.as_deref(), Some("summary"));
        }
        CompletionPlan::Delegate(_) => panic!("expected items"),
    }
    let request = CompletionRequest {
        cwd: "/".to_string(),
        line: "theme.show x".to_string(),
        argv: vec!["theme.show".to_string(), "x".to_string()],
        cursor: 12,
        source_window_id: None,
    };
    match engine.registry().complete(&request).unwrap() {
        CompletionPlan::Delegate(token) => assert_eq!(token.0, 2),
        CompletionPlan::Items(_) => panic!("expected delegation"),
    }
    let empty = CompletionRequest {
        cwd: "/".to_string(),
        line: String::new(),
        argv: vec![],
        cursor: 0,
        source_window_id: None,
    };
    match engine.registry().complete(&empty).unwrap() {
        CompletionPlan::Items(items) => assert_eq!(items.len(), 4),
        CompletionPlan::Delegate(_) => panic!("expected items"),
    }
}

#[test]
fn hidden_commands_are_not_completed() {
    let mut engine = ShellEngine::new();
    let mut hidden = descriptor("debug.dump", &["dd"], CommandScope::Global);
    hidden.visibility = CommandVisibility::Hidden;
    engine.register_command(hidden, false);
    engine.register_command(descriptor("dir.list", &[], CommandScope::Global), false);
    let empty = CompletionRequest {
        cwd: "/".to_string(),
        line: String::new(),
        argv: vec![],
        cursor: 0,
        source_window_id: None,
    };
    match engine.registry().complete(&empty).unwrap() {
        CompletionPlan::Items(items) => {
            let values: Vec<&str> = items.iter().map(|i| i.value.as_str()).collect();
            assert_eq!(values, vec!["dir.list"]);
        }
        CompletionPlan::Delegate(_) => panic!("expected items"),
    }
    assert!(engine.registry().resolve("debug.dump").is_ok());
}

#[test]
fn help_text_lists_every_section() {
    let d = descriptor("apps.list", &["al", "apps"], CommandScope::Global);
    assert_eq!(
        render_help(&d),
        "apps.list\nsummary\nUsage: apps.list\nAliases: al, apps\nArguments:\n  value - value\nOptions:\n  -h, --help - show help\nExamples:\n  apps.list  # example"
    );
    assert_eq!(
        join_strings(&vec!["a".to_string(), "b".to_string()], ", "),
        "a, b"
    );
}

#[test]
fn session_runs_one_command_and_completes_it() {
    let mut engine = ShellEngine::new();
    engine.register_command(descriptor("apps.list", &[], CommandScope::Global), false);
    let mut session = engine.new_session("/".to_string());
    let (events, plan) = session.submit(engine.registry(), parsed(&["apps.list"], false));
    assert!(matches!(events[0], SessionEvent::Started { execution_id } if execution_id.0 == 1));
    let argv = match plan {
        SubmitPlan::Run { execution_id, token, argv } => {
            assert_eq!(execution_id.0, 1);
            assert_eq!(token.0, 1);
            argv
        }
        SubmitPlan::Done => panic!("expected a run"),
    };
    assert_eq!(argv, vec!["apps.list".to_string()]);
    assert_eq!(session.active_execution().map(|e| e.0), Some(1));

    let (busy, busy_plan) = session.submit(engine.registry(), parsed(&["apps.list"], false));
    assert!(matches!(busy_plan, SubmitPlan::Done));
    assert!(matches!(
        &busy[0],
        SessionEvent::Status { execution_id, text }
            if execution_id.0 == 0 && text == "another command is already running"
    ));

    let done = session.finish(Ok(ShellExit::success()));
    assert_eq!(completed(&done[0]), (1, Some("apps.list".to_string()), 0, None));
    assert_eq!(session.active_execution(), None);
}

#[test]
fn session_cancellation_and_errors() {
    let mut engine = ShellEngine::new();
    engine.register_command(descriptor("sleep", &[], CommandScope::Global), false);
    let mut session = engine.new_session("/".to_string());
    session.submit(engine.registry(), parsed(&["sleep"], false));
    session.cancel();
    let done = session.finish(Ok(ShellExit::success()));
    assert!(matches!(done[0], SessionEvent::Cancelled { .. }));
    assert_eq!(
        completed(&done[1]),
        (1, Some("sleep".to_string()), 130, Some("command cancelled".to_string()))
    );

    session.submit(engine.registry(), parsed(&["sleep"], false));
    let done = session.finish(Err(ShellError::new(
        ShellErrorCode::Unavailable,
        "offline".to_string(),
    )));
    assert!(matches!(&done[0], SessionEvent::StderrChunk { text, .. } if text == "offline"));
    assert_eq!(
        completed(&done[1]),
        (2, Some("sleep".to_string()), 4, Some("offline".to_string()))
    );

    let (events, _) = session.submit(engine.registry(), parsed(&["nope"], false));
    assert_eq!(
        completed(&events[2]),
        (3, None, 3, Some("command not found: nope".to_string()))
    );

    let (events, _) = session.submit(engine.registry(), Err("unterminated quote".to_string()));
    assert_eq!(
        completed(&events[2]),
        (4, None, 2, Some("unterminated quote".to_string()))
    );

    let (events, plan) = session.submit(engine.registry(), parsed(&[], false));
    assert!(events.is_empty());
    assert!(matches!(plan, SubmitPlan::Done));
}

#[test]
fn session_help_flag_prints_help() {
    let mut engine = ShellEngine::new();
    engine.register_command(descriptor("apps.list", &[], CommandScope::Global), false);
    let mut session = engine.new_session("/".to_string());
    let (events, plan) = session.submit(engine.registry(), parsed(&["apps.list"], true));
    assert!(matches!(plan, SubmitPlan::Done));
    assert!(matches!(&events[1], SessionEvent::StdoutChunk { text, .. } if text.starts_with("apps.list\nsummary")));
    assert_eq!(completed(&events[2]), (1, Some("apps.list".to_string()), 0, None));
}

#[test]
fn exit_codes_by_error_kind() {
    let e = |code| ShellError::new(code, String::new()).exit_code();
    assert_eq!(e(ShellErrorCode::Usage), 2);
    assert_eq!(e(ShellErrorCode::NotFound), 3);
    assert_eq!(e(ShellErrorCode::Unavailable), 4);
    assert_eq!(e(ShellErrorCode::PermissionDenied), 4);
    assert_eq!(e(ShellErrorCode::Internal), 5);
    assert_eq!(ShellExit::cancelled().code, 130);
    assert_eq!(ShellExit::success().message, None);
}
