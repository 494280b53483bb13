use desktop_runtime::shell_contract::{CompletionItem, ExecutionId, ShellExecutionSummary, ShellExit};
use desktop_runtime::shell_engine::SessionEvent;
use desktop_runtime::terminal::{TerminalTranscriptEntry, MAX_TERMINAL_ENTRIES};
use desktop_runtime::terminal_console::{terminal_status_label, TerminalConsole};

fn system(text: &str) -> TerminalTranscriptEntry {
    TerminalTranscriptEntry::System { text: text.to_string() }
}

#[test]
fn fresh_console_shows_banner_and_prompt() {
    let console = TerminalConsole::new("~/desktop");
    assert_eq!(console.transcript, vec![system("RetroShell 0.2"), system("Type `help` for commands.")]);
    assert_eq!(console.prompt_label(), "~/desktop>");
    assert_eq!(console.entries_label(), "2 entrie(s)");
    assert!(console.input.is_empty());
}

#[test]
fn submitting_echoes_the_prompt_and_requests_execution() {
    let mut console = TerminalConsole::new("/home");
    console.input = "  ls  ".to_string();
    console.history_cursor = Some(0);
    let request = console.submit("  ls  ", true).expect("request");
    assert_eq!(request.line, "ls");
    assert_eq!(request.cwd, "/home");
    assert_eq!(request.source_window_id, None);
    assert_eq!(
        console.transcript.last(),
        Some(&TerminalTranscriptEntry::Prompt { cwd: "/home".to_string(), command: "ls".to_string(), execution_id: None })
    );
    assert_eq!(console.pending_command.as_deref(), Some("ls"));
    assert_eq!(console.history_cursor, None);
    assert!(console.input.is_empty());
}

#[test]
fn blank_lines_change_nothing() {
    let mut console = TerminalConsole::new("/");
    let before = console.clone();
    assert!(console.submit("   ", true).is_none());
    assert_eq!(console, before);
}

#[test]
fn clear_in_any_case_resets_the_transcript() {
    let mut console = TerminalConsole::new("/");
    console.submit("help", true);
    assert!(console.submit("ClEaR", true).is_none());
    assert_eq!(console.transcript.len(), 2);
    assert_eq!(console.pending_command, None);
}

#[test]
fn without_a_session_a_notice_is_shown() {
    let mut console = TerminalConsole::new("/");
    assert!(console.submit("help", false).is_none());
    assert_eq!(console.transcript.last(), Some(&system("Shell session unavailable.")));
    assert_eq!(console.pending_command, None);
}

#[test]
fn history_recall_walks_back_and_forward() {
    let history = vec!["one".to_string(), "two".to_string()];
    let mut console = TerminalConsole::new("/");
    console.navigate_history(&history, -1);
    assert_eq!((console.history_cursor, console.input.as_str()), (Some(1), "two"));
    console.navigate_history(&history, -1);
    assert_eq!((console.history_cursor, console.input.as_str()), (Some(0), "one"));
    console.navigate_history(&history, -1);
    assert_eq!((console.history_cursor, console.input.as_str()), (Some(0), "one"));
    console.navigate_history(&history, 1);
    assert_eq!((console.history_cursor, console.input.as_str()), (Some(1), "two"));
    console.navigate_history(&history, 1);
    assert_eq!((console.history_cursor, console.input.as_str()), (None, ""));
    console.navigate_history(&Vec::new(), -1);
    assert_eq!(console.history_cursor, None);
}

fn item(value: &str) -> CompletionItem {
    CompletionItem { value: value.to_string(), label: value.to_string(), detail: None }
}

#[test]
fn completions_fill_the_line_or_offer_choices() {
    let mut console = TerminalConsole::new("/");
    console.apply_completions(vec![item("apps.list")]);
    assert_eq!(console.input, "apps.list ");
    assert!(console.suggestions.is_empty());
    console.apply_completions(vec![item("apps.list"), item("apps.open")]);
    assert_eq!(console.suggestions.len(), 2);
    console.choose_suggestion("apps.open");
    assert_eq!(console.input, "apps.open ");
    assert!(console.suggestions.is_empty());
    console.completion_failed("no completion".to_string());
    assert_eq!(console.transcript.last(), Some(&system("no completion")));
}

#[test]
fn session_events_track_the_running_command_and_output() {
    let mut console = TerminalConsole::new("/");
    console.submit("ls", true);
    console.handle_event(&SessionEvent::Started { execution_id: ExecutionId(4) });
    let active = console.active_execution.clone().expect("running");
    assert_eq!(active.execution_id, ExecutionId(4));
    assert_eq!(active.command, "ls");
    assert_eq!(console.pending_command, None);
    console.handle_event(&SessionEvent::StdoutChunk { execution_id: ExecutionId(4), text: "a.txt".to_string() });
    assert_eq!(
        console.transcript.last(),
        Some(&TerminalTranscriptEntry::Stdout { text: "a.txt".to_string(), execution_id: ExecutionId(4) })
    );
    console.handle_event(&SessionEvent::Completed {
        summary: ShellExecutionSummary { execution_id: ExecutionId(4), command_path: None, exit: ShellExit::success() },
    });
    assert!(console.active_execution.is_none());
}

#[test]
fn transcript_stays_bounded() {
    let mut console = TerminalConsole::new("/");
    for i in 0..(MAX_TERMINAL_ENTRIES + 10) {
        console.handle_event(&SessionEvent::Status { execution_id: ExecutionId(1), text: format!("line {i}") });
    }
    assert_eq!(console.transcript.len(), MAX_TERMINAL_ENTRIES);
    let snapshot = console.snapshot();
    assert_eq!(snapshot.transcript.len(), MAX_TERMINAL_ENTRIES);
    let restored = TerminalConsole::from_persisted(snapshot);
    assert_eq!(restored.transcript, console.transcript);
}

#[test]
fn clearing_and_status_labels() {
    let mut console = TerminalConsole::new("/");
    console.input = "x".to_string();
    console.submit("help", true);
    console.clear_screen();
    assert_eq!(console.transcript.len(), 2);
    assert!(console.input.is_empty());
    console.sync_cwd("   ");
    assert_eq!(console.cwd, "/");
    console.sync_cwd("/docs");
    assert_eq!(console.cwd, "/docs");
    assert_eq!(terminal_status_label(false, true, true), "Hydrating shell session");
    assert_eq!(terminal_status_label(true, false, true), "Shell unavailable");
    assert_eq!(terminal_status_label(true, true, true), "Running command");
    assert_eq!(terminal_status_label(true, true, false), "Shell ready");
}
