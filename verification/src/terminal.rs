//! The terminal app's transcript: its entries, the bound on its length,
//! restoring a persisted session, migrating the legacy line-based format,
//! and the completion request built from the typed line.

use vstd::prelude::*;
use vstd::string::*;
use serde_json::Value;
use crate::json::{json_pretty, json_pretty_text};
use crate::model::strings_view;
use crate::shell_contract::{CompletionRequest, ExecutionId};
use crate::storage::AppStateEnvelope;
use crate::strings::{char_is_whitespace, is_blank, is_whitespace_char, str_is_blank};

verus! {

pub const TERMINAL_STATE_SCHEMA_VERSION: u32 = 2;

/// Most transcript entries a terminal keeps.
pub const MAX_TERMINAL_ENTRIES: usize = 200;

/// The line-based state of schema versions 0 and 1.
#[derive(Debug, Clone, PartialEq)]
pub struct LegacyTerminalPersistedState {
    pub cwd: String,
    pub input: String,
    pub lines: Vec<String>,
}

/// The command a terminal was running when it was persisted.
#[derive(Debug, Clone, PartialEq)]
pub struct PersistedExecutionState {
    pub execution_id: ExecutionId,
    pub command: String,
}

/// One line of the terminal transcript.
#[derive(Debug, Clone, PartialEq)]
pub enum TerminalTranscriptEntry {
    Prompt { cwd: String, command: String, execution_id: Option<ExecutionId> },
    Stdout { text: String, execution_id: ExecutionId },
    Stderr { text: String, execution_id: ExecutionId },
    Status { text: String, execution_id: ExecutionId },
    Json { value: Value, execution_id: ExecutionId },
    System { text: String },
}

/// The persisted terminal session.
#[derive(Debug, Clone, PartialEq)]
pub struct TerminalPersistedState {
    pub cwd: String,
    pub input: String,
    pub transcript: Vec<TerminalTranscriptEntry>,
    pub history_cursor: Option<usize>,
    pub active_execution: Option<PersistedExecutionState>,
}

/// Mathematical view of a transcript entry.
pub enum EntryView {
    Prompt(Seq<char>, Seq<char>, Option<u64>),
    Stdout(Seq<char>, u64),
    Stderr(Seq<char>, u64),
    Status(Seq<char>, u64),
    Json(Value, u64),
    System(Seq<char>),
}

impl View for TerminalTranscriptEntry {
    type V = EntryView;

    open spec fn view(&self) -> EntryView {
        match self {
            TerminalTranscriptEntry::Prompt { cwd, command, execution_id } => EntryView::Prompt(
                cwd@,
                command@,
                match execution_id {
                    Some(id) => Some(id.0),
                    None => None,
                },
            ),
            TerminalTranscriptEntry::Stdout { text, execution_id } => EntryView::Stdout(text@, execution_id.0),
            TerminalTranscriptEntry::Stderr { text, execution_id } => EntryView::Stderr(text@, execution_id.0),
            TerminalTranscriptEntry::Status { text, execution_id } => EntryView::Status(text@, execution_id.0),
            TerminalTranscriptEntry::Json { value, execution_id } => EntryView::Json(*value, execution_id.0),
            TerminalTranscriptEntry::System { text } => EntryView::System(text@),
        }
    }
}

pub open spec fn transcript_view(t: Seq<TerminalTranscriptEntry>) -> Seq<EntryView> {
    t.map_values(|e: TerminalTranscriptEntry| e@)
}

/// The transcript of a fresh terminal.
pub open spec fn default_transcript_view() -> Seq<EntryView> {
    seq![EntryView::System("RetroShell 0.2"@), EntryView::System("Type `help` for commands."@)]
}

/// A transcript after normalization: the default one when empty, its
/// newest `MAX_TERMINAL_ENTRIES` entries when longer.
pub open spec fn normalized_transcript(t: Seq<EntryView>) -> Seq<EntryView> {
    if t.len() == 0 {
        default_transcript_view()
    } else if t.len() > MAX_TERMINAL_ENTRIES {
        t.subrange(t.len() - MAX_TERMINAL_ENTRIES, t.len() as int)
    } else {
        t
    }
}

pub open spec fn is_system_entry(e: TerminalTranscriptEntry, text: Seq<char>) -> bool {
    e matches TerminalTranscriptEntry::System { text: t } && t@ == text
}

/// The transcript of a fresh terminal: a banner and a hint.
pub fn default_terminal_transcript() -> (r: Vec<TerminalTranscriptEntry>)
    ensures
        r@.len() == 2,
        is_system_entry(r@[0], "RetroShell 0.2"@),
        is_system_entry(r@[1], "Type `help` for commands."@),
        transcript_view(r@) == default_transcript_view(),
{
    let mut v: Vec<TerminalTranscriptEntry> = Vec::new();
    v.push(TerminalTranscriptEntry::System { text: String::from_str("RetroShell 0.2") });
    v.push(TerminalTranscriptEntry::System { text: String::from_str("Type `help` for commands.") });
    assert(transcript_view(v@) =~= default_transcript_view());
    v
}

/// An empty transcript becomes the default one; a long one keeps only its
/// newest `MAX_TERMINAL_ENTRIES` entries.
pub fn normalize_terminal_transcript(transcript: &mut Vec<TerminalTranscriptEntry>)
    ensures
        old(transcript)@.len() == 0 ==> final(transcript)@.len() == 2 && is_system_entry(
            final(transcript)@[0],
            "RetroShell 0.2"@,
        ) && is_system_entry(final(transcript)@[1], "Type `help` for commands."@),
        old(transcript)@.len() > 0 ==> final(transcript)@ == (if old(transcript)@.len() > MAX_TERMINAL_ENTRIES {
            old(transcript)@.subrange(
                old(transcript)@.len() - MAX_TERMINAL_ENTRIES,
                old(transcript)@.len() as int,
            )
        } else {
            old(transcript)@
        }),
        transcript_view(final(transcript)@) == normalized_transcript(transcript_view(old(transcript)@)),
{
    if transcript.len() == 0 {
        *transcript = default_terminal_transcript();
        return;
    }
    if transcript.len() > MAX_TERMINAL_ENTRIES {
        let overflow = transcript.len() - MAX_TERMINAL_ENTRIES;
        let ghost old_t = transcript@;
        let tail = transcript.split_off(overflow);
        *transcript = tail;
        assert(transcript@ =~= old_t.subrange(old_t.len() - MAX_TERMINAL_ENTRIES, old_t.len() as int));
        assert(transcript_view(transcript@) =~= transcript_view(old_t).subrange(
            old_t.len() - MAX_TERMINAL_ENTRIES,
            old_t.len() as int,
        ));
    }
}

/// Restores a persisted session: a blank working directory becomes the
/// launch directory, and a command that was running is marked as
/// interrupted.
pub fn restore_terminal_state(restored: TerminalPersistedState, launch_cwd: &str) -> (r: TerminalPersistedState)
    ensures
        r.cwd@ == (if is_blank(restored.cwd@) {
            launch_cwd@
        } else {
            restored.cwd@
        }),
        r.input == restored.input,
        r.history_cursor == restored.history_cursor,
        r.active_execution is None,
        restored.active_execution is Some ==> exists|k: int|
            0 <= k < r.transcript@.len() && is_system_entry(
                #[trigger] r.transcript@[k],
                "Previous command interrupted during restore."@,
            ),
        restored.active_execution is None && restored.transcript@.len() > 0 ==> r.transcript@ == (
        if restored.transcript@.len() > MAX_TERMINAL_ENTRIES {
            restored.transcript@.subrange(
                restored.transcript@.len() - MAX_TERMINAL_ENTRIES,
                restored.transcript@.len() as int,
            )
        } else {
            restored.transcript@
        }),
        r.transcript@.len() <= MAX_TERMINAL_ENTRIES,
        r.transcript@.len() > 0,
        transcript_view(r.transcript@) == normalized_transcript(
            if restored.active_execution is Some {
                transcript_view(restored.transcript@).push(
                    EntryView::System("Previous command interrupted during restore."@),
                )
            } else {
                transcript_view(restored.transcript@)
            },
        ),
{
    let mut state = restored;
    if str_is_blank(state.cwd.as_str()) {
        state.cwd = String::from_str(launch_cwd);
    }
    let interrupted = state.active_execution.is_some();
    if interrupted {
        state.active_execution = None;
        state.transcript.push(
            TerminalTranscriptEntry::System {
                text: String::from_str("Previous command interrupted during restore."),
            },
        );
    }
    let ghost before = state.transcript@;
    proof {
        if interrupted {
            assert(transcript_view(before) =~= transcript_view(restored.transcript@).push(
                EntryView::System("Previous command interrupted during restore."@),
            ));
        }
    }
    normalize_terminal_transcript(&mut state.transcript);
    proof {
        if interrupted {
            let n = before.len();
            assert(is_system_entry(before[n - 1], "Previous command interrupted during restore."@));
            if n > MAX_TERMINAL_ENTRIES {
                assert(state.transcript@[MAX_TERMINAL_ENTRIES - 1] == before[n - 1]);
            } else {
                assert(state.transcript@[n - 1] == before[n - 1]);
            }
        }
    }
    state
}

/// Migrates the line-based state of schema versions 0 and 1: each line
/// becomes a system entry; newer versions are not migrated here.
pub fn migrate_terminal_state<D: FnOnce(&Value) -> Result<LegacyTerminalPersistedState, String>>(
    schema_version: u32,
    envelope: &AppStateEnvelope,
    decode_legacy: D,
) -> (r: Result<Option<TerminalPersistedState>, String>)
    requires
        schema_version <= 1 ==> call_requires(decode_legacy, (&envelope.payload,)),
    ensures
        schema_version > 1 ==> r == Ok::<Option<TerminalPersistedState>, String>(None),
        schema_version <= 1 ==> match r {
            Ok(Some(s)) => exists|legacy: LegacyTerminalPersistedState|
                call_ensures(decode_legacy, (&envelope.payload,), Ok(legacy)) && s.cwd == legacy.cwd
                    && s.input == legacy.input && s.history_cursor is None && s.active_execution is None
                    && s.transcript@.len() == legacy.lines@.len() && forall|i: int|
                    0 <= i < s.transcript@.len() ==> is_system_entry(
                        #[trigger] s.transcript@[i],
                        legacy.lines@[i]@,
                    ),
            Ok(None) => false,
            Err(e) => call_ensures(decode_legacy, (&envelope.payload,), Err(e)),
        },
{
    if schema_version > 1 {
        return Ok(None);
    }
    let legacy = match decode_legacy(&envelope.payload) {
        Ok(l) => l,
        Err(e) => return Err(e),
    };
    let ghost lines = legacy.lines@;
    let mut transcript: Vec<TerminalTranscriptEntry> = Vec::new();
    let mut i: usize = 0;
    while i < legacy.lines.len()
        invariant
            lines == legacy.lines@,
            i <= lines.len(),
            transcript@.len() == i,
            forall|k: int| 0 <= k < i ==> is_system_entry(#[trigger] transcript@[k], lines[k]@),
        decreases lines.len() - i,
    {
        transcript.push(TerminalTranscriptEntry::System { text: legacy.lines[i].clone() });
        i = i + 1;
    }
    let state = TerminalPersistedState {
        cwd: legacy.cwd,
        input: legacy.input,
        transcript,
        history_cursor: None,
        active_execution: None,
    };
    Ok(Some(state))
}

/// The text a transcript entry shows: a prompt as `cwd> command`, JSON
/// pretty-printed, everything else as its text.
pub open spec fn entry_text(e: TerminalTranscriptEntry) -> Seq<char> {
    match e {
        TerminalTranscriptEntry::Prompt { cwd, command, .. } => cwd@ + "> "@ + command@,
        TerminalTranscriptEntry::Stdout { text, .. } => text@,
        TerminalTranscriptEntry::Stderr { text, .. } => text@,
        TerminalTranscriptEntry::Status { text, .. } => text@,
        TerminalTranscriptEntry::Json { value, .. } => json_pretty(value),
        TerminalTranscriptEntry::System { text } => text@,
    }
}

pub fn render_transcript_entry(entry: &TerminalTranscriptEntry) -> (r: String)
    ensures
        r@ == entry_text(*entry),
{
    match entry {
        TerminalTranscriptEntry::Prompt { cwd, command, .. } => cwd.clone().concat("> ").concat(command.as_str()),
        TerminalTranscriptEntry::Stdout { text, .. } => text.clone(),
        TerminalTranscriptEntry::Stderr { text, .. } => text.clone(),
        TerminalTranscriptEntry::Status { text, .. } => text.clone(),
        TerminalTranscriptEntry::Json { value, .. } => json_pretty_text(value),
        TerminalTranscriptEntry::System { text } => text.clone(),
    }
}

// ---------------------------------------------------------------------
// Completion requests
// ---------------------------------------------------------------------

/// The pieces of `s` between whitespace characters.
pub open spec fn ws_pieces(s: Seq<char>) -> Seq<Seq<char>>
    decreases s.len(),
{
    if s.len() == 0 {
        seq![Seq::<char>::empty()]
    } else {
        let prev = ws_pieces(s.drop_last());
        if is_whitespace_char(s.last()) {
            prev.push(Seq::<char>::empty())
        } else {
            prev.update(prev.len() - 1, prev.last().push(s.last()))
        }
    }
}

/// The nonempty pieces of `ps`, in order.
pub open spec fn nonempty_pieces(ps: Seq<Seq<char>>) -> Seq<Seq<char>>
    decreases ps.len(),
{
    if ps.len() == 0 {
        Seq::empty()
    } else {
        let r = nonempty_pieces(ps.drop_last());
        if ps.last().len() > 0 {
            r.push(ps.last())
        } else {
            r
        }
    }
}

/// The words of `s`, as `str::split_whitespace` yields them.
pub open spec fn words(s: Seq<char>) -> Seq<Seq<char>> {
    nonempty_pieces(ws_pieces(s))
}

/// Bytes a character takes in UTF-8.
pub open spec fn utf8_width(c: char) -> nat {
    if (c as u32) < 0x80 {
        1
    } else if (c as u32) < 0x800 {
        2
    } else if (c as u32) < 0x10000 {
        3
    } else {
        4
    }
}

/// The UTF-8 length of `s` in bytes.
pub open spec fn utf8_len(s: Seq<char>) -> nat
    decreases s.len(),
{
    if s.len() == 0 {
        0
    } else {
        utf8_len(s.drop_last()) + utf8_width(s.last())
    }
}

pub proof fn lemma_ws_pieces_nonempty(s: Seq<char>)
    ensures
        ws_pieces(s).len() >= 1,
    decreases s.len(),
{
    if s.len() > 0 {
        lemma_ws_pieces_nonempty(s.drop_last());
    }
}

fn push_piece(out: &mut Vec<String>, piece: &String)
    ensures
        strings_view(final(out)@) == (if piece@.len() > 0 {
            strings_view(old(out)@).push(piece@)
        } else {
            strings_view(old(out)@)
        }),
{
    if piece.unicode_len() > 0 {
        out.push(piece.clone());
        assert(strings_view(out@) =~= strings_view(old(out)@).push(piece@));
    }
}

/// The words of `s`.
pub fn split_words(s: &str) -> (r: Vec<String>)
    ensures
        strings_view(r@) == words(s@),
{
    let ghost t = s@;
    let n = s.unicode_len();
    let mut out: Vec<String> = Vec::new();
    let mut cur = String::new();
    let mut i: usize = 0;
    proof {
        assert(t.take(0) =~= Seq::<char>::empty());
        assert(strings_view(out@) =~= Seq::<Seq<char>>::empty());
        assert(ws_pieces(t.take(0)).drop_last() =~= Seq::<Seq<char>>::empty());
    }
    while i < n
        invariant
            t == s@,
            n == t.len(),
            i <= n,
            strings_view(out@) == nonempty_pieces(ws_pieces(t.take(i as int)).drop_last()),
            cur@ == ws_pieces(t.take(i as int)).last(),
        decreases n - i,
    {
        let c = s.get_char(i);
        let ghost prev = ws_pieces(t.take(i as int));
        proof {
            lemma_ws_pieces_nonempty(t.take(i as int));
            assert(t.take(i + 1).drop_last() =~= t.take(i as int));
            assert(t.take(i + 1).last() == c);
        }
        if char_is_whitespace(c) {
            push_piece(&mut out, &cur);
            cur = String::new();
            proof {
                let next = ws_pieces(t.take(i + 1));
                assert(next.drop_last() =~= prev);
                assert(prev == prev.drop_last().push(prev.last()));
            }
        } else {
            cur.push(c);
            proof {
                let next = ws_pieces(t.take(i + 1));
                assert(next.drop_last() =~= prev.drop_last());
            }
        }
        i = i + 1;
    }
    push_piece(&mut out, &cur);
    proof {
        let ps = ws_pieces(t);
        lemma_ws_pieces_nonempty(t);
        assert(t.take(n as int) =~= t);
        assert(ps == ps.drop_last().push(ps.last()));
    }
    out
}

fn utf8_width_of(c: char) -> (r: usize)
    ensures
        r == utf8_width(c),
{
    let v = c as u32;
    if v < 0x80 {
        1
    } else if v < 0x800 {
        2
    } else if v < 0x10000 {
        3
    } else {
        4
    }
}

/// The UTF-8 length of `s` in bytes, as `str::len` gives it.
pub fn byte_len(s: &str) -> (r: usize)
    requires
        utf8_len(s@) <= usize::MAX,
    ensures
        r == utf8_len(s@),
{
    let n = s.unicode_len();
    let mut total: usize = 0;
    let mut i: usize = 0;
    assert(s@.take(0) =~= Seq::<char>::empty());
    while i < n
        invariant
            n == s@.len(),
            i <= n,
            total == utf8_len(s@.take(i as int)),
            utf8_len(s@) <= usize::MAX,
        decreases n - i,
    {
        let c = s.get_char(i);
        assert(s@.take(i + 1).drop_last() =~= s@.take(i as int));
        proof {
            lemma_utf8_len_prefix(s@, i + 1);
        }
        total = total + utf8_width_of(c);
        i = i + 1;
    }
    assert(s@.take(n as int) =~= s@);
    total
}

proof fn lemma_utf8_len_prefix(s: Seq<char>, k: int)
    requires
        0 <= k <= s.len(),
    ensures
        utf8_len(s.take(k)) <= utf8_len(s),
    decreases s.len() - k,
{
    if k < s.len() {
        lemma_utf8_len_prefix(s, k + 1);
        assert(s.take(k + 1).drop_last() =~= s.take(k));
    } else {
        assert(s.take(k) =~= s);
    }
}

/// The completion request for the typed line: its words, the cursor at
/// the end of the line (in bytes).
pub fn completion_request(cwd: &str, line: &str) -> (r: CompletionRequest)
    requires
        utf8_len(line@) <= usize::MAX,
    ensures
        r.cwd@ == cwd@,
        r.line@ == line@,
        strings_view(r.argv@) == words(line@),
        r.cursor == utf8_len(line@),
        r.source_window_id is None,
{
    CompletionRequest {
        cwd: String::from_str(cwd),
        line: String::from_str(line),
        argv: split_words(line),
        cursor: byte_len(line),
        source_window_id: None,
    }
}

} // verus!
