use desktop_runtime::shell_contract::ExecutionId;
use desktop_runtime::storage::build_app_state_envelope;
use desktop_runtime::terminal::{
    completion_request, default_terminal_transcript, migrate_terminal_state,
    normalize_terminal_transcript, render_transcript_entry, restore_terminal_state,
    split_words, LegacyTerminalPersistedState, PersistedExecutionState, TerminalPersistedState,
    TerminalTranscriptEntry, MAX_TERMINAL_ENTRIES,
};

fn legacy_payload(state: &LegacyTerminalPersistedState) -> serde_json::Value {
    let mut map = serde_json::Map::new();
    map.insert("cwd".to_string(), serde_json::Value::String(state.cwd.clone()));
    map.insert("input".to_string(), serde_json::Value::String(state.input.clone()));
    map.insert(
        "lines".to_string(),
        serde_json::Value::Array(
            state
                .lines
                .iter()
                .map(|l| serde_json::Value::String(l.clone()))
                .collect(),
        ),
    );
    serde_json::Value::Object(map)
}

fn decode_legacy(value: &serde_json::Value) -> Result<LegacyTerminalPersistedState, String> {
    let text = |key: &str| -> Result<String, String> {
        value
            .get(key)
            .and_then(|v| v.as_str())
            .map(|s| s.to_string())
            .ok_or_else(|| format!("missing field `{key}`"))
    };
    let lines = value
        .get("lines")
        .and_then(|v| v.as_array())
        .ok_or_else(|| "missing field `lines`".to_string())?
        .iter()
        .map(|v| v.as_str().unwrap_or_default().to_string())
        .collect();
    Ok(LegacyTerminalPersistedState {
        cwd: text("cwd")?,
        input: text("input")?,
        lines,
    })
}

#[test]
fn terminal_namespace_migration_supports_legacy_lines() {
    let envelope = build_app_state_envelope(
        "app.terminal",
        1,
        legacy_payload(&LegacyTerminalPersistedState {
            cwd: "/".to_string(),
            input: "help".to_string(),
            lines: vec!["RetroShell 0.1".to_string()],
        }),
    );

    let migrated =
        migrate_terminal_state(1, &envelope, decode_legacy).expect("legacy migration should succeed");
    assert!(migrated.is_some(), "expected migrated terminal state");
    let transcript = migrated.expect("state").transcript;
    assert!(matches!(
        transcript.first(),
        Some(TerminalTranscriptEntry::System { text }) if text == "RetroShell 0.1"
    ));
}

#[test]
fn restore_marks_interrupted_execution() {
    let restored = restore_terminal_state(
        TerminalPersistedState {
            cwd: "/".to_string(),
            input: String::new(),
            transcript: Vec::new(),
            history_cursor: None,
            active_execution: Some(PersistedExecutionState {
                execution_id: ExecutionId(4),
                command: "apps.list".to_string(),
            }),
        },
        "/",
    );

    assert!(restored.active_execution.is_none());
    assert!(restored
        .transcript
        .iter()
        .any(|entry| matches!(entry, TerminalTranscriptEntry::System { text } if text.contains("interrupted"))));
}

#[test]
fn restore_fills_blank_cwd_and_defaults_transcript() {
    let restored = restore_terminal_state(
        TerminalPersistedState {
            cwd: "   ".to_string(),
            input: "ls".to_string(),
            transcript: Vec::new(),
            history_cursor: Some(2),
            active_execution: None,
        },
        "/home",
    );
    assert_eq!(restored.cwd, "/home");
    assert_eq!(restored.input, "ls");
    assert_eq!(restored.transcript, default_terminal_transcript());
    assert_eq!(restored.history_cursor, Some(2));
}

#[test]
fn transcript_keeps_newest_entries() {
    let mut t: Vec<TerminalTranscriptEntry> = (0..250)
        .map(|i| TerminalTranscriptEntry::System { text: format!("line {i}") })
        .collect();
    normalize_terminal_transcript(&mut t);
    assert_eq!(t.len(), MAX_TERMINAL_ENTRIES);
    assert_eq!(t[0], TerminalTranscriptEntry::System { text: "line 50".to_string() });
    let mut empty = Vec::new();
    normalize_terminal_transcript(&mut empty);
    assert_eq!(empty.len(), 2);
}

#[test]
fn legacy_migration_skips_newer_schemas() {
    let envelope = build_app_state_envelope("app.terminal", 2, serde_json::Value::Null);
    assert_eq!(migrate_terminal_state(2, &envelope, decode_legacy), Ok(None));
    assert!(migrate_terminal_state(0, &envelope, decode_legacy).is_err());
}

#[test]
fn transcript_entries_render_as_text() {
    let prompt = TerminalTranscriptEntry::Prompt {
        cwd: "/docs".to_string(),
        command: "ls".to_string(),
        execution_id: None,
    };
    assert_eq!(render_transcript_entry(&prompt), "/docs> ls");
    let json = TerminalTranscriptEntry::Json {
        value: serde_json::Value::Bool(true),
        execution_id: ExecutionId(1),
    };
    assert_eq!(render_transcript_entry(&json), "true");
    let mut map = serde_json::Map::new();
    map.insert("a".to_string(), serde_json::Value::from(1));
    let obj = TerminalTranscriptEntry::Json {
        value: serde_json::Value::Object(map),
        execution_id: ExecutionId(1),
    };
    assert_eq!(render_transcript_entry(&obj), "{\n  \"a\": 1\n}");
}

#[test]
fn completion_request_splits_words_and_counts_bytes() {
    let req = completion_request("/", "  open   notes\té ");
    assert_eq!(req.argv, vec!["open".to_string(), "notes".to_string(), "é".to_string()]);
    assert_eq!(req.cursor, "  open   notes\té ".len());
    assert_eq!(req.cwd, "/");
    assert!(split_words("   ").is_empty());
}
