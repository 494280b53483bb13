//! The terminal window's console: the typed line, the transcript, the
//! completion suggestions, history recall and the command that is running.
//! Each user action or session event is a transition of this state; the
//! host submits the requests it returns and persists its snapshots.

use vstd::prelude::*;
use vstd::string::*;
use crate::shell_contract::{items_view, CompletionItem, ExecutionId, ShellRequest};
use crate::shell_engine::{EventView, SessionEvent};
use crate::strings::{ascii_lower, decimal, is_blank, push_decimal, str_is_blank, trim, trimmed};
use crate::model::strings_view;
use crate::terminal::{
    default_terminal_transcript, default_transcript_view, normalize_terminal_transcript,
    normalized_transcript, transcript_view, EntryView, PersistedExecutionState,
    TerminalPersistedState, TerminalTranscriptEntry, MAX_TERMINAL_ENTRIES,
};

verus! {

/// The console of one terminal window.
#[derive(Debug, Clone, PartialEq)]
pub struct TerminalConsole {
    pub cwd: String,
    pub input: String,
    pub transcript: Vec<TerminalTranscriptEntry>,
    pub suggestions: Vec<CompletionItem>,
    pub history_cursor: Option<usize>,
    pub active_execution: Option<PersistedExecutionState>,
    pub pending_command: Option<String>,
}

pub struct ConsoleView {
    pub cwd: Seq<char>,
    pub input: Seq<char>,
    pub transcript: Seq<EntryView>,
    pub suggestions: Seq<(Seq<char>, Seq<char>, Option<Seq<char>>)>,
    pub history_cursor: Option<usize>,
    pub active_execution: Option<(u64, Seq<char>)>,
    pub pending_command: Option<Seq<char>>,
}

pub open spec fn execution_view(e: Option<PersistedExecutionState>) -> Option<(u64, Seq<char>)> {
    match e {
        Some(x) => Some((x.execution_id.0, x.command@)),
        None => None,
    }
}

impl View for TerminalConsole {
    type V = ConsoleView;

    open spec fn view(&self) -> ConsoleView {
        ConsoleView {
            cwd: self.cwd@,
            input: self.input@,
            transcript: transcript_view(self.transcript@),
            suggestions: items_view(self.suggestions@),
            history_cursor: self.history_cursor,
            active_execution: execution_view(self.active_execution),
            pending_command: match self.pending_command {
                Some(c) => Some(c@),
                None => None,
            },
        }
    }
}

/// The transcript is never empty and never longer than its bound.
pub open spec fn console_wf(v: ConsoleView) -> bool {
    0 < v.transcript.len() <= MAX_TERMINAL_ENTRIES
}

/// `t` with `e` appended, then normalized.
pub open spec fn appended(t: Seq<EntryView>, e: EntryView) -> Seq<EntryView> {
    normalized_transcript(t.push(e))
}

proof fn lemma_normalized_bounds(t: Seq<EntryView>)
    ensures
        0 < normalized_transcript(t).len() <= MAX_TERMINAL_ENTRIES,
{
}

fn push_entry(transcript: &mut Vec<TerminalTranscriptEntry>, entry: TerminalTranscriptEntry)
    ensures
        transcript_view(final(transcript)@) == appended(transcript_view(old(transcript)@), entry@),
{
    let ghost before = transcript_view(transcript@);
    transcript.push(entry);
    assert(transcript_view(transcript@) =~= before.push(entry@));
    normalize_terminal_transcript(transcript);
}

/// A console in `launch_cwd` with the default transcript and nothing typed.
pub open spec fn fresh_console(cwd: Seq<char>) -> ConsoleView {
    ConsoleView {
        cwd,
        input: Seq::empty(),
        transcript: default_transcript_view(),
        suggestions: Seq::empty(),
        history_cursor: None,
        active_execution: None,
        pending_command: None,
    }
}

// ---------------------------------------------------------------------
// Submitting a line
// ---------------------------------------------------------------------

/// `s` is `clear` in any ASCII case.
pub open spec fn is_clear_command(s: Seq<char>) -> bool {
    s.len() == 5 && forall|i: int| 0 <= i < 5 ==> #[trigger] ascii_lower(s[i]) == "clear"@[i]
}

fn is_clear_text(s: &str) -> (r: bool)
    ensures
        r == is_clear_command(s@),
{
    proof {
        reveal_strlit("clear");
        reveal_strlit("CLEAR");
    }
    if s.unicode_len() != 5 {
        return false;
    }
    let lower = "clear";
    let upper = "CLEAR";
    let mut i: usize = 0;
    while i < 5
        invariant
            s@.len() == 5,
            lower@ == "clear"@,
            upper@ == "CLEAR"@,
            lower@ == seq!['c', 'l', 'e', 'a', 'r'],
            upper@ == seq!['C', 'L', 'E', 'A', 'R'],
            i <= 5,
            forall|k: int| 0 <= k < i ==> #[trigger] ascii_lower(s@[k]) == "clear"@[k],
        decreases 5 - i,
    {
        let c = s.get_char(i);
        let l = lower.get_char(i);
        let u = upper.get_char(i);
        if c != l && c != u {
            assert(ascii_lower(s@[i as int]) != "clear"@[i as int]);
            return false;
        }
        i = i + 1;
    }
    true
}

/// The console after submitting `command`, and the request for the shell
/// session if one is made. A blank line changes nothing; otherwise the
/// trimmed line is echoed as a prompt entry and the typed line, history
/// recall and suggestions are reset; `clear` (any case) resets the
/// transcript; without a session a notice is appended; with one the line
/// is submitted in the current directory and waits to start.
pub open spec fn submitted(v: ConsoleView, command: Seq<char>, session_available: bool) -> (ConsoleView, Option<(Seq<char>, Seq<char>)>) {
    let c = trimmed(command);
    if c.len() == 0 {
        (v, None)
    } else {
        let base = ConsoleView {
            transcript: appended(v.transcript, EntryView::Prompt(v.cwd, c, None)),
            history_cursor: None,
            suggestions: Seq::empty(),
            input: Seq::empty(),
            ..v
        };
        if is_clear_command(c) {
            (
                ConsoleView {
                    transcript: default_transcript_view(),
                    active_execution: None,
                    pending_command: None,
                    ..base
                },
                None,
            )
        } else if session_available {
            (ConsoleView { pending_command: Some(c), ..base }, Some((c, v.cwd)))
        } else {
            (
                ConsoleView {
                    transcript: appended(base.transcript, EntryView::System("Shell session unavailable."@)),
                    ..base
                },
                None,
            )
        }
    }
}

pub open spec fn request_view(r: Option<ShellRequest>) -> Option<(Seq<char>, Seq<char>)> {
    match r {
        Some(q) => Some((q.line@, q.cwd@)),
        None => None,
    }
}

// ---------------------------------------------------------------------
// History recall
// ---------------------------------------------------------------------

/// The history position after moving by `direction` (-1 older, 1 newer):
/// older from the fresh prompt starts at the newest command, newer past
/// the newest returns to the fresh prompt, and moves past the oldest
/// stay.
pub open spec fn next_history_cursor(cur: Option<usize>, direction: i32, len: nat) -> Option<usize> {
    match cur {
        None => if direction == -1 {
            Some((len - 1) as usize)
        } else {
            None
        },
        Some(i) => if direction == -1 && i > 0 {
            Some((i - 1) as usize)
        } else if direction == 1 && i + 1 < len {
            Some((i + 1) as usize)
        } else if direction == 1 {
            None
        } else {
            Some(i)
        },
    }
}

/// A move is possible when the position it reaches names a command.
pub open spec fn history_move_in_range(cur: Option<usize>, direction: i32, len: nat) -> bool {
    len > 0 ==> match next_history_cursor(cur, direction, len) {
        Some(j) => j < len,
        None => true,
    }
}

pub open spec fn recalled(v: ConsoleView, history: Seq<Seq<char>>, direction: i32) -> ConsoleView {
    if history.len() == 0 {
        v
    } else {
        let next = next_history_cursor(v.history_cursor, direction, history.len());
        ConsoleView {
            history_cursor: next,
            input: match next {
                Some(j) => history[j as int],
                None => Seq::empty(),
            },
            ..v
        }
    }
}

// ---------------------------------------------------------------------
// Session events
// ---------------------------------------------------------------------

/// The console after a session event: a start adopts the waiting command
/// as the running one, output and status lines are appended, and the end
/// of a command clears the running one.
pub open spec fn after_event(v: ConsoleView, e: EventView) -> ConsoleView {
    match e {
        EventView::Started(id) => match v.pending_command {
            Some(c) => if c.len() > 0 {
                ConsoleView { active_execution: Some((id, c)), pending_command: None, ..v }
            } else {
                v
            },
            None => v,
        },
        EventView::Stdout(id, text) => ConsoleView { transcript: appended(v.transcript, EntryView::Stdout(text, id)), ..v },
        EventView::Stderr(id, text) => ConsoleView { transcript: appended(v.transcript, EntryView::Stderr(text, id)), ..v },
        EventView::Status(id, text) => ConsoleView { transcript: appended(v.transcript, EntryView::Status(text, id)), ..v },
        EventView::Completed(_, _, _) => ConsoleView { active_execution: None, ..v },
        EventView::Cancelled(_) => ConsoleView { active_execution: None, ..v },
    }
}

pub open spec fn status_line(hydrated: bool, session_available: bool, running: bool) -> Seq<char> {
    if !hydrated {
        "Hydrating shell session"@
    } else if !session_available {
        "Shell unavailable"@
    } else if running {
        "Running command"@
    } else {
        "Shell ready"@
    }
}

impl TerminalConsole {
    /// A fresh console in `launch_cwd`.
    pub fn new(launch_cwd: &str) -> (r: Self)
        ensures
            r@ == fresh_console(launch_cwd@),
            console_wf(r@),
    {
        let r = TerminalConsole {
            cwd: String::from_str(launch_cwd),
            input: String::new(),
            transcript: default_terminal_transcript(),
            suggestions: Vec::new(),
            history_cursor: None,
            active_execution: None,
            pending_command: None,
        };
        assert(items_view(r.suggestions@) =~= Seq::<(Seq<char>, Seq<char>, Option<Seq<char>>)>::empty());
        r
    }

    /// The console of a restored session: nothing suggested, nothing
    /// waiting to start.
    pub fn from_persisted(state: TerminalPersistedState) -> (r: Self)
        ensures
            r@.cwd == state.cwd@,
            r@.input == state.input@,
            r@.transcript == transcript_view(state.transcript@),
            r@.suggestions.len() == 0,
            r@.history_cursor == state.history_cursor,
            r@.active_execution == execution_view(state.active_execution),
            r@.pending_command is None,
    {
        TerminalConsole {
            cwd: state.cwd,
            input: state.input,
            transcript: state.transcript,
            suggestions: Vec::new(),
            history_cursor: state.history_cursor,
            active_execution: state.active_execution,
            pending_command: None,
        }
    }

    /// The state to persist, with a normalized transcript.
    pub fn snapshot(&self) -> (r: TerminalPersistedState)
        ensures
            r.cwd@ == self.cwd@,
            r.input@ == self.input@,
            transcript_view(r.transcript@) == normalized_transcript(transcript_view(self.transcript@)),
            r.history_cursor == self.history_cursor,
            execution_view(r.active_execution) == execution_view(self.active_execution),
    {
        let mut transcript: Vec<TerminalTranscriptEntry> = Vec::new();
        let mut i: usize = 0;
        while i < self.transcript.len()
            invariant
                i <= self.transcript@.len(),
                transcript_view(transcript@) == transcript_view(self.transcript@).take(i as int),
            decreases self.transcript@.len() - i,
        {
            let e = copy_entry(&self.transcript[i]);
            let ghost before = transcript_view(transcript@);
            transcript.push(e);
            assert(transcript_view(transcript@) =~= before.push(self.transcript@[i as int]@));
            assert(transcript_view(self.transcript@).take(i + 1) =~= transcript_view(self.transcript@).take(
                i as int,
            ).push(self.transcript@[i as int]@));
            i = i + 1;
        }
        assert(transcript_view(self.transcript@).take(i as int) =~= transcript_view(self.transcript@));
        normalize_terminal_transcript(&mut transcript);
        TerminalPersistedState {
            cwd: self.cwd.clone(),
            input: self.input.clone(),
            transcript,
            history_cursor: self.history_cursor,
            active_execution: match &self.active_execution {
                Some(e) => Some(PersistedExecutionState { execution_id: e.execution_id, command: e.command.clone() }),
                None => None,
            },
        }
    }

    /// Submits a typed line; returns the request for the shell session when
    /// one is made.
    pub fn submit(&mut self, command: &str, session_available: bool) -> (r: Option<ShellRequest>)
        ensures
            (final(self)@, request_view(r)) == submitted(old(self)@, command@, session_available),
            r matches Some(q) ==> q.source_window_id is None,
            console_wf(old(self)@) ==> console_wf(final(self)@),
    {
        let c = trim(command);
        if c.unicode_len() == 0 {
            return None;
        }
        let prompt = TerminalTranscriptEntry::Prompt {
            cwd: self.cwd.clone(),
            command: String::from_str(c),
            execution_id: None,
        };
        push_entry(&mut self.transcript, prompt);
        self.history_cursor = None;
        self.suggestions = Vec::new();
        self.input = String::new();
        proof {
            assert(items_view(self.suggestions@) =~= Seq::<(Seq<char>, Seq<char>, Option<Seq<char>>)>::empty());
        }
        if is_clear_text(c) {
            self.transcript = default_terminal_transcript();
            self.active_execution = None;
            self.pending_command = None;
            return None;
        }
        if session_available {
            self.pending_command = Some(String::from_str(c));
            return Some(ShellRequest { line: String::from_str(c), cwd: self.cwd.clone(), source_window_id: None });
        }
        push_entry(
            &mut self.transcript,
            TerminalTranscriptEntry::System { text: String::from_str("Shell session unavailable.") },
        );
        None
    }

    /// Recalls the previous (`-1`) or next (`1`) command of `history` into
    /// the typed line.
    pub fn navigate_history(&mut self, history: &Vec<String>, direction: i32)
        requires
            history_move_in_range(old(self).history_cursor, direction, history@.len()),
        ensures
            final(self)@ == recalled(old(self)@, strings_view(history@), direction),
            console_wf(old(self)@) ==> console_wf(final(self)@),
    {
        let n = history.len();
        if n == 0 {
            return;
        }
        let next: Option<usize> = match self.history_cursor {
            None => if direction == -1 {
                Some(n - 1)
            } else {
                None
            },
            Some(i) => if direction == -1 && i > 0 {
                Some(i - 1)
            } else if direction == 1 && i < n - 1 {
                Some(i + 1)
            } else if direction == 1 {
                None
            } else {
                Some(i)
            },
        };
        self.history_cursor = next;
        match next {
            Some(j) => {
                self.input = history[j].clone();
            },
            None => {
                self.input = String::new();
            },
        }
    }

    /// Shows completion candidates: a single candidate is taken into the
    /// typed line with a trailing space, several are offered.
    pub fn apply_completions(&mut self, items: Vec<CompletionItem>)
        ensures
            items@.len() == 1 ==> final(self)@ == (ConsoleView {
                input: items@[0].value@ + " "@,
                suggestions: Seq::empty(),
                ..old(self)@
            }),
            items@.len() != 1 ==> final(self)@ == (ConsoleView { suggestions: items_view(items@), ..old(self)@ }),
            console_wf(old(self)@) ==> console_wf(final(self)@),
    {
        if items.len() == 1 {
            self.input = items[0].value.clone().concat(" ");
            self.suggestions = Vec::new();
            assert(items_view(self.suggestions@) =~= Seq::<(Seq<char>, Seq<char>, Option<Seq<char>>)>::empty());
        } else {
            self.suggestions = items;
        }
    }

    /// Takes an offered candidate into the typed line.
    pub fn choose_suggestion(&mut self, value: &str)
        ensures
            final(self)@ == (ConsoleView { input: value@ + " "@, suggestions: Seq::empty(), ..old(self)@ }),
            console_wf(old(self)@) ==> console_wf(final(self)@),
    {
        self.input = String::from_str(value).concat(" ");
        self.suggestions = Vec::new();
        assert(items_view(self.suggestions@) =~= Seq::<(Seq<char>, Seq<char>, Option<Seq<char>>)>::empty());
    }

    /// Drops the offered candidates.
    pub fn dismiss_suggestions(&mut self)
        ensures
            final(self)@ == (ConsoleView { suggestions: Seq::empty(), ..old(self)@ }),
            console_wf(old(self)@) ==> console_wf(final(self)@),
    {
        self.suggestions = Vec::new();
        assert(items_view(self.suggestions@) =~= Seq::<(Seq<char>, Seq<char>, Option<Seq<char>>)>::empty());
    }

    /// Reports a failed completion in the transcript.
    pub fn completion_failed(&mut self, message: String)
        ensures
            final(self)@ == (ConsoleView {
                transcript: appended(old(self)@.transcript, EntryView::System(message@)),
                ..old(self)@
            }),
            console_wf(final(self)@),
    {
        push_entry(&mut self.transcript, TerminalTranscriptEntry::System { text: message });
        proof {
            lemma_normalized_bounds(self@.transcript);
        }
    }

    /// Applies one event of the shell session.
    pub fn handle_event(&mut self, event: &SessionEvent)
        ensures
            final(self)@ == after_event(old(self)@, event@),
            console_wf(old(self)@) ==> console_wf(final(self)@),
    {
        match event {
            SessionEvent::Started { execution_id } => {
                let command = match &self.pending_command {
                    Some(c) => c.clone(),
                    None => String::new(),
                };
                if command.as_str().unicode_len() > 0 {
                    self.active_execution = Some(PersistedExecutionState { execution_id: *execution_id, command });
                    self.pending_command = None;
                }
            },
            SessionEvent::StdoutChunk { execution_id, text } => {
                push_entry(
                    &mut self.transcript,
                    TerminalTranscriptEntry::Stdout { text: text.clone(), execution_id: *execution_id },
                );
            },
            SessionEvent::StderrChunk { execution_id, text } => {
                push_entry(
                    &mut self.transcript,
                    TerminalTranscriptEntry::Stderr { text: text.clone(), execution_id: *execution_id },
                );
            },
            SessionEvent::Status { execution_id, text } => {
                push_entry(
                    &mut self.transcript,
                    TerminalTranscriptEntry::Status { text: text.clone(), execution_id: *execution_id },
                );
            },
            SessionEvent::Completed { .. } => {
                self.active_execution = None;
            },
            SessionEvent::Cancelled { .. } => {
                self.active_execution = None;
            },
        }
    }

    /// Follows the session's working directory when it names one.
    pub fn sync_cwd(&mut self, session_cwd: &str)
        ensures
            final(self)@ == (if is_blank(session_cwd@) {
                old(self)@
            } else {
                ConsoleView { cwd: session_cwd@, ..old(self)@ }
            }),
    {
        if !str_is_blank(session_cwd) {
            self.cwd = String::from_str(session_cwd);
        }
    }

    /// The Clear button: default transcript, nothing typed, nothing running.
    pub fn clear_screen(&mut self)
        ensures
            final(self)@ == (ConsoleView {
                transcript: default_transcript_view(),
                input: Seq::empty(),
                active_execution: None,
                ..old(self)@
            }),
            console_wf(final(self)@),
    {
        self.transcript = default_terminal_transcript();
        self.input = String::new();
        self.active_execution = None;
    }

    /// Ctrl+L: the default transcript.
    pub fn clear_transcript(&mut self)
        ensures
            final(self)@ == (ConsoleView { transcript: default_transcript_view(), ..old(self)@ }),
            console_wf(final(self)@),
    {
        self.transcript = default_terminal_transcript();
    }

    /// The prompt label, such as `~/desktop>`.
    pub fn prompt_label(&self) -> (r: String)
        ensures
            r@ == self.cwd@ + ">"@,
    {
        self.cwd.clone().concat(">")
    }

    /// The entry count of the status bar, such as `3 entrie(s)`.
    pub fn entries_label(&self) -> (r: String)
        ensures
            r@ == decimal(self.transcript@.len()) + " entrie(s)"@,
    {
        let mut s = String::new();
        push_decimal(&mut s, self.transcript.len() as u64);
        s.concat(" entrie(s)")
    }
}

fn copy_entry(e: &TerminalTranscriptEntry) -> (r: TerminalTranscriptEntry)
    ensures
        r@ == e@,
{
    match e {
        TerminalTranscriptEntry::Prompt { cwd, command, execution_id } => TerminalTranscriptEntry::Prompt {
            cwd: cwd.clone(),
            command: command.clone(),
            execution_id: *execution_id,
        },
        TerminalTranscriptEntry::Stdout { text, execution_id } => TerminalTranscriptEntry::Stdout {
            text: text.clone(),
            execution_id: *execution_id,
        },
        TerminalTranscriptEntry::Stderr { text, execution_id } => TerminalTranscriptEntry::Stderr {
            text: text.clone(),
            execution_id: *execution_id,
        },
        TerminalTranscriptEntry::Status { text, execution_id } => TerminalTranscriptEntry::Status {
            text: text.clone(),
            execution_id: *execution_id,
        },
        TerminalTranscriptEntry::Json { value, execution_id } => TerminalTranscriptEntry::Json {
            value: value.clone(),
            execution_id: *execution_id,
        },
        TerminalTranscriptEntry::System { text } => TerminalTranscriptEntry::System { text: text.clone() },
    }
}

/// The status bar text of the terminal.
pub fn terminal_status_label(hydrated: bool, session_available: bool, running: bool) -> (r: &'static str)
    ensures
        r@ == status_line(hydrated, session_available, running),
{
    if !hydrated {
        "Hydrating shell session"
    } else if !session_available {
        "Shell unavailable"
    } else if running {
        "Running command"
    } else {
        "Shell ready"
    }
}

// ---------------------------------------------------------------------
// Laws
// ---------------------------------------------------------------------

/// Stepping back from the fresh prompt and then forward again returns to
/// the fresh prompt with nothing typed.
pub proof fn law_history_back_then_forward_returns_to_prompt(v: ConsoleView, history: Seq<Seq<char>>)
    requires
        0 < history.len() <= usize::MAX,
        v.history_cursor is None,
    ensures
        recalled(recalled(v, history, -1i32), history, 1i32).history_cursor is None,
        recalled(recalled(v, history, -1i32), history, 1i32).input == Seq::<char>::empty(),
        recalled(v, history, -1i32).input == history.last(),
{
}

/// Submitting a blank line changes nothing and sends nothing.
pub proof fn law_blank_submission_is_ignored(v: ConsoleView, command: Seq<char>, session_available: bool)
    requires
        is_blank(command),
    ensures
        submitted(v, command, session_available) == (v, Option::<(Seq<char>, Seq<char>)>::None),
{
    crate::strings::lemma_trimmed_blank(command);
}

/// Every console transition keeps the transcript non-empty and within its
/// bound.
pub proof fn law_console_transitions_keep_transcript_bounded(
    v: ConsoleView,
    command: Seq<char>,
    session_available: bool,
    history: Seq<Seq<char>>,
    direction: i32,
    e: EventView,
)
    requires
        console_wf(v),
    ensures
        console_wf(submitted(v, command, session_available).0),
        console_wf(recalled(v, history, direction)),
        console_wf(after_event(v, e)),
{
    lemma_normalized_bounds(v.transcript.push(EntryView::Prompt(v.cwd, trimmed(command), None)));
    lemma_normalized_bounds(
        appended(v.transcript, EntryView::Prompt(v.cwd, trimmed(command), None)).push(
            EntryView::System("Shell session unavailable."@),
        ),
    );
    match e {
        EventView::Stdout(id, text) => lemma_normalized_bounds(v.transcript.push(EntryView::Stdout(text, id))),
        EventView::Stderr(id, text) => lemma_normalized_bounds(v.transcript.push(EntryView::Stderr(text, id))),
        EventView::Status(id, text) => lemma_normalized_bounds(v.transcript.push(EntryView::Status(text, id))),
        _ => {},
    }
}

} // verus!
