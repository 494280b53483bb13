//! What the desktop's built-in shell commands answer: `help`, `history`,
//! `windows.list`, the window commands, `theme.set.reduced-motion` and the
//! `config` commands, for given arguments and desktop state. Emitting the
//! answer on the terminal stream and storage access are the host's part.

use vstd::prelude::*;
use vstd::string::*;
use serde_json::Value;
use crate::app_contract::{AppCapability, ApplicationId};
use crate::app_registry::{find_app_descriptor, first_entry_of, is_registered, registry_view, AppDescriptor, AppDescriptorView};
use crate::apps::{app_is_privileged, canonical_id_spec, is_privileged_id};
use crate::json::{
    json_bool, json_bool_of, json_count, json_count_of, json_object, json_object_of, json_parse,
    json_parsed, json_pretty, json_pretty_text, json_text, json_text_array, json_text_array_of,
    json_text_of, members_view,
};
use crate::model::{strings_view, DesktopView, windows_view, AppId, DeepLinkOpenTarget, DesktopState, OpenWindowRequest, WindowId, WindowView};
use crate::notepad::{lemma_text_lt_irreflexive, lemma_text_lt_total, lemma_text_lt_transitive, text_less, text_lt};
use crate::reducer::{build_open_request_from_deeplink, note_request, project_request, DesktopAction};
use crate::shell_commands::{bool_flag, parse_bool_flag, parse_window_id, parses_u64, scope_error, usage_error, validate_scope};
use crate::shell_contract::{args_view, examples_view, items_view, CommandArgSpec, CommandDescriptor, CommandExample, CommandId, CommandOptionSpec, CommandPath, CommandScope, CommandVisibility, HelpDoc, HelpView, ScopeView, CompletionItem, DescriptorView, ShellError, ShellErrorCode};
use crate::shell_engine::{join_strings, join_with};
use crate::strings::{decimal, push_decimal, str_eq, str_starts_with};

verus! {

// ---------------------------------------------------------------------
// help
// ---------------------------------------------------------------------

/// `n` spaces.
pub open spec fn spaces(n: nat) -> Seq<char> {
    Seq::new(n, |i: int| ' ')
}

/// `s` left-aligned in a field of `width` characters, as `{:<width}`.
pub open spec fn pad_right(s: Seq<char>, width: nat) -> Seq<char> {
    if s.len() < width {
        s + spaces((width - s.len()) as nat)
    } else {
        s
    }
}

/// One line of the command listing: path in a 26-column field, summary.
pub open spec fn listing_line(e: (Seq<char>, Seq<char>)) -> Seq<char> {
    "  "@ + pad_right(e.0, 26) + " "@ + e.1
}

/// The command listing: a heading, then one line per entry.
pub open spec fn listing_text(entries: Seq<(Seq<char>, Seq<char>)>) -> Seq<char> {
    join_with(seq!["Available commands:"@] + entries.map_values(|e: (Seq<char>, Seq<char>)| listing_line(e)), "\n"@)
}

/// Path and summary of each public descriptor, in order; hidden commands
/// are left out of the listing.
pub open spec fn descriptor_entries(v: Seq<CommandDescriptor>) -> Seq<(Seq<char>, Seq<char>)>
    decreases v.len(),
{
    if v.len() == 0 {
        Seq::empty()
    } else {
        let rest = descriptor_entries(v.drop_last());
        if v.last().visibility == CommandVisibility::Public {
            rest.push((v.last()@.path, v.last()@.help.summary))
        } else {
            rest
        }
    }
}

pub open spec fn entries_view(v: Seq<(String, String)>) -> Seq<(Seq<char>, Seq<char>)> {
    v.map_values(|e: (String, String)| (e.0@, e.1@))
}

/// Entries in ascending order of path.
pub open spec fn ordered_by_path(e: Seq<(Seq<char>, Seq<char>)>) -> bool {
    forall|i: int, j: int| 0 <= i < j < e.len() ==> !text_lt((#[trigger] e[j]).0, (#[trigger] e[i]).0)
}

/// A descriptor answers to `target` by its path or one of its aliases.
pub open spec fn answers_to(d: DescriptorView, target: Seq<char>) -> bool {
    d.path == target || d.aliases.contains(target)
}

/// The descriptors that answer to `target`, in registry order.
pub open spec fn matching_descriptors(v: Seq<CommandDescriptor>, target: Seq<char>) -> Seq<DescriptorView> {
    v.map_values(|d: CommandDescriptor| d@).filter(|d: DescriptorView| answers_to(d, target))
}

/// The help block printed for one matched command.
pub open spec fn help_block(d: DescriptorView) -> Seq<char> {
    d.path + "\n"@ + d.help.summary + "\nUsage: "@ + d.help.usage + "\n"@
}

/// `s` padded with spaces to `width` characters.
fn pad_right_text(s: &str, width: usize) -> (r: String)
    ensures
        r@ == pad_right(s@, width as nat),
{
    let mut out = String::from_str(s);
    let n = s.unicode_len();
    let mut k = n;
    while k < width
        invariant
            n == s@.len(),
            n <= k <= width || (n > width && k == n),
            k <= width ==> out@ == s@ + spaces((k - n) as nat),
            k > width ==> out@ == s@,
        decreases width - k,
    {
        proof {
            assert(spaces((k + 1 - n) as nat) =~= spaces((k - n) as nat).push(' '));
        }
        out.push(' ');
        k = k + 1;
    }
    proof {
        if n < width {
            assert(k == width);
        } else {
            assert(spaces(0) =~= Seq::<char>::empty());
            assert(out@ =~= s@);
        }
    }
    out
}

fn listing_line_text(path: &str, summary: &str) -> (r: String)
    ensures
        r@ == listing_line((path@, summary@)),
{
    let padded = pad_right_text(path, 26);
    String::from_str("  ").concat(padded.as_str()).concat(" ").concat(summary)
}

proof fn lemma_path_after(p: Seq<char>, a: Seq<char>, b: Seq<char>)
    requires
        text_lt(p, a),
        !text_lt(b, a),
    ensures
        !text_lt(b, p),
{
    lemma_text_lt_total(a, b);
    if a != b {
        lemma_text_lt_transitive(p, a, b);
    }
    lemma_text_lt_total(p, b);
}

/// The public descriptors' (path, summary) pairs, sorted by path;
/// descriptors with equal paths keep their order.
fn sorted_listing_entries(descriptors: &Vec<CommandDescriptor>) -> (r: Vec<(String, String)>)
    ensures
        entries_view(r@).to_multiset() == descriptor_entries(descriptors@).to_multiset(),
        ordered_by_path(entries_view(r@)),
{
    let ghost dv = descriptors@;
    let mut out: Vec<(String, String)> = Vec::new();
    let mut i: usize = 0;
    assert(dv.take(0) =~= Seq::<CommandDescriptor>::empty());
    assert(entries_view(out@) =~= Seq::<(Seq<char>, Seq<char>)>::empty());
    while i < descriptors.len()
        invariant
            dv == descriptors@,
            i <= descriptors@.len(),
            entries_view(out@).to_multiset() == descriptor_entries(dv.take(i as int)).to_multiset(),
            ordered_by_path(entries_view(out@)),
        decreases descriptors@.len() - i,
    {
        proof {
            assert(dv.take(i + 1).drop_last() =~= dv.take(i as int));
            assert(dv.take(i + 1).last() == dv[i as int]);
        }
        if descriptors[i].visibility != CommandVisibility::Public {
            i = i + 1;
            continue;
        }
        let path = descriptors[i].path.as_str();
        let ghost old_view = entries_view(out@);
        let mut k: usize = 0;
        while k < out.len() && !text_less(path, out[k].0.as_str())
            invariant
                old_view == entries_view(out@),
                k <= out@.len(),
                forall|j: int| 0 <= j < k ==> !text_lt(path@, (#[trigger] old_view[j]).0),
            decreases out@.len() - k,
        {
            k = k + 1;
        }
        let entry = (String::from_str(path), descriptors[i].help.summary.clone());
        let ghost e = (entry.0@, entry.1@);
        proof {
            assert(e == (dv[i as int]@.path, dv[i as int]@.help.summary));
        }
        out.insert(k, entry);
        proof {
            broadcast use vstd::seq_lib::group_to_multiset_ensures;

            let nv = entries_view(out@);
            assert(nv =~= old_view.insert(k as int, e));
            assert(descriptor_entries(dv.take(i + 1)) == descriptor_entries(dv.take(i as int)).push(e));
            assert forall|a: int, b: int| 0 <= a < b < nv.len() implies !text_lt(
                (#[trigger] nv[b]).0,
                (#[trigger] nv[a]).0,
            ) by {
                if b == k {
                } else if a == k {
                    assert(k < old_view.len());
                    assert(text_lt(path@, old_view[k as int].0));
                    if b - 1 > k {
                        assert(!text_lt(old_view[b - 1].0, old_view[k as int].0));
                    } else {
                        lemma_text_lt_irreflexive(old_view[k as int].0);
                    }
                    lemma_path_after(path@, old_view[k as int].0, old_view[b - 1].0);
                } else if a < k && b > k {
                    assert(!text_lt(old_view[b - 1].0, old_view[a].0));
                } else if a > k {
                    assert(!text_lt(old_view[b - 1].0, old_view[a - 1].0));
                } else {
                    assert(!text_lt(old_view[b].0, old_view[a].0));
                }
            }
        }
        i = i + 1;
    }
    assert(dv.take(i as int) =~= dv);
    out
}

/// The listing printed by `help` without arguments.
fn render_listing(entries: &Vec<(String, String)>) -> (r: String)
    ensures
        r@ == listing_text(entries_view(entries@)),
{
    let ghost ev = entries_view(entries@);
    let mut lines: Vec<String> = Vec::new();
    lines.push(String::from_str("Available commands:"));
    let mut i: usize = 0;
    while i < entries.len()
        invariant
            ev == entries_view(entries@),
            i <= entries@.len(),
            strings_view(lines@) == seq!["Available commands:"@] + ev.take(i as int).map_values(
                |e: (Seq<char>, Seq<char>)| listing_line(e),
            ),
        decreases entries@.len() - i,
    {
        let line = listing_line_text(entries[i].0.as_str(), entries[i].1.as_str());
        let ghost before = strings_view(lines@);
        lines.push(line);
        proof {
            assert(strings_view(lines@) =~= before.push(listing_line(ev[i as int])));
            assert(ev.take(i + 1).map_values(|e: (Seq<char>, Seq<char>)| listing_line(e))
                =~= ev.take(i as int).map_values(|e: (Seq<char>, Seq<char>)| listing_line(e)).push(
                listing_line(ev[i as int]),
            ));
        }
        i = i + 1;
    }
    assert(ev.take(i as int) =~= ev);
    join_strings(&lines, "\n")
}

fn answers_to_text(d: &CommandDescriptor, target: &str) -> (r: bool)
    ensures
        r == answers_to(d@, target@),
{
    if crate::strings::str_eq(d.path.as_str(), target) {
        return true;
    }
    let mut i: usize = 0;
    while i < d.aliases.len()
        invariant
            i <= d.aliases@.len(),
            d.path@ != target@,
            forall|j: int| 0 <= j < i ==> (#[trigger] d.aliases@[j])@ != target@,
        decreases d.aliases@.len() - i,
    {
        if crate::strings::str_eq(d.aliases[i].as_str(), target) {
            proof {
                assert(d@.aliases[i as int] == target@);
            }
            return true;
        }
        i = i + 1;
    }
    proof {
        if d@.aliases.contains(target@) {
            let j = choose|j: int| 0 <= j < d@.aliases.len() && d@.aliases[j] == target@;
            assert(d.aliases@[j]@ == target@);
        }
    }
    false
}

/// What `help` prints: with no argument, the listing of all public
/// commands in path order (hidden ones are left out); with one, the help
/// block of each command that answers to it by path or alias, hidden or
/// not, as separate chunks; more arguments are a usage error, and a name
/// nothing answers to is a not-found error.
pub fn help_command(descriptors: &Vec<CommandDescriptor>, argv: &Vec<String>) -> (r: Result<Vec<String>, ShellError>)
    ensures
        argv@.len() > 2 ==> (r matches Err(e) && e.code == ShellErrorCode::Usage && e.message@
            == "usage: help [command]"@),
        argv@.len() == 2 ==> {
            let m = matching_descriptors(descriptors@, argv@[1]@);
            &&& m.len() == 0 ==> (r matches Err(e) && e.code == ShellErrorCode::NotFound
                && e.message@ == "command not found: "@ + argv@[1]@)
            &&& m.len() > 0 ==> (r matches Ok(chunks) && strings_view(chunks@) == m.map_values(
                |d: DescriptorView| help_block(d),
            ))
        },
        argv@.len() < 2 ==> (r matches Ok(chunks) && chunks@.len() == 1 && exists|entries: Seq<
            (Seq<char>, Seq<char>),
        >|
            entries.to_multiset() == descriptor_entries(descriptors@).to_multiset()
                && ordered_by_path(entries) && #[trigger] listing_text(entries) == chunks@[0]@),
{
    if argv.len() > 2 {
        return Err(usage_error(String::from_str("usage: help [command]")));
    }
    if argv.len() == 2 {
        let target = argv[1].as_str();
        let ghost m = matching_descriptors(descriptors@, target@);
        let ghost dv = descriptors@.map_values(|d: CommandDescriptor| d@);
        let mut chunks: Vec<String> = Vec::new();
        let mut i: usize = 0;
        assert(dv.take(0).filter(|d: DescriptorView| answers_to(d, target@)) =~= Seq::<DescriptorView>::empty());
        while i < descriptors.len()
            invariant
                dv == descriptors@.map_values(|d: CommandDescriptor| d@),
                i <= descriptors@.len(),
                strings_view(chunks@) == dv.take(i as int).filter(
                    |d: DescriptorView| answers_to(d, target@),
                ).map_values(|d: DescriptorView| help_block(d)),
            decreases descriptors@.len() - i,
        {
            let d = &descriptors[i];
            let ghost before = dv.take(i as int).filter(|d: DescriptorView| answers_to(d, target@));
            proof {
                assert(dv.take(i + 1).drop_last() =~= dv.take(i as int));
                assert(dv.take(i + 1).last() == d@);
                dv.take(i as int).lemma_filter_push(d@, |d: DescriptorView| answers_to(d, target@));
                assert(dv.take(i as int).push(d@) =~= dv.take(i + 1));
            }
            if answers_to_text(d, target) {
                let block = String::from_str(d.path.as_str()).concat("\n").concat(
                    d.help.summary.as_str(),
                ).concat("\nUsage: ").concat(d.help.usage.as_str()).concat("\n");
                let ghost prev = strings_view(chunks@);
                chunks.push(block);
                proof {
                    assert(strings_view(chunks@) =~= prev.push(help_block(d@)));
                    assert(before.push(d@).map_values(|d: DescriptorView| help_block(d))
                        =~= before.map_values(|d: DescriptorView| help_block(d)).push(help_block(d@)));
                }
            }
            i = i + 1;
        }
        assert(dv.take(i as int) =~= dv);
        if chunks.len() == 0 {
            return Err(
                ShellError::new(
                    ShellErrorCode::NotFound,
                    String::from_str("command not found: ").concat(target),
                ),
            );
        }
        return Ok(chunks);
    }
    let entries = sorted_listing_entries(descriptors);
    let text = render_listing(&entries);
    let mut chunks: Vec<String> = Vec::new();
    chunks.push(text);
    proof {
        assert(listing_text(entries_view(entries@)) == chunks@[0]@);
    }
    Ok(chunks)
}

// ---------------------------------------------------------------------
// history and windows.list
// ---------------------------------------------------------------------

/// What a command writes on the terminal: a status line or a chunk of
/// standard output.
#[derive(Debug, Clone, PartialEq, Eq)]
pub enum CommandOutput {
    Status(String),
    Stdout(String),
}

pub enum OutputView {
    Status(Seq<char>),
    Stdout(Seq<char>),
}

impl View for CommandOutput {
    type V = OutputView;

    open spec fn view(&self) -> OutputView {
        match self {
            CommandOutput::Status(s) => OutputView::Status(s@),
            CommandOutput::Stdout(s) => OutputView::Stdout(s@),
        }
    }
}

/// `history`: the recorded commands one per line, or a status line when
/// there are none.
pub fn history_command(history: &Vec<String>) -> (r: CommandOutput)
    ensures
        history@.len() == 0 ==> r@ == OutputView::Status("no terminal history"@),
        history@.len() > 0 ==> r@ == OutputView::Stdout(join_with(strings_view(history@), "\n"@)),
{
    if history.len() == 0 {
        CommandOutput::Status(String::from_str("no terminal history"))
    } else {
        CommandOutput::Stdout(join_strings(history, "\n"))
    }
}

/// One line of `windows.list`: id, canonical app id and title.
pub open spec fn window_line(w: WindowView) -> Seq<char> {
    decimal(w.id.0 as nat) + "  "@ + canonical_id_spec(w.app_id) + "  "@ + w.title
}

/// `windows.list`: one line per open window in stacking order, or a
/// status line when no window is open.
pub fn windows_list_command(state: &DesktopState) -> (r: CommandOutput)
    ensures
        state@.windows.len() == 0 ==> r@ == OutputView::Status("no open windows"@),
        state@.windows.len() > 0 ==> r@ == OutputView::Stdout(
            join_with(state@.windows.map_values(|w: WindowView| window_line(w)), "\n"@),
        ),
{
    if state.windows.len() == 0 {
        return CommandOutput::Status(String::from_str("no open windows"));
    }
    let ghost ws = state@.windows;
    let mut lines: Vec<String> = Vec::new();
    let mut i: usize = 0;
    while i < state.windows.len()
        invariant
            ws == state@.windows,
            ws == windows_view(state.windows@),
            i <= state.windows@.len(),
            strings_view(lines@) == ws.take(i as int).map_values(|w: WindowView| window_line(w)),
        decreases state.windows@.len() - i,
    {
        let w = &state.windows[i];
        let mut line = String::new();
        push_decimal(&mut line, w.id.0);
        let line = line.concat("  ").concat(w.app_id.canonical_id()).concat("  ").concat(
            w.title.as_str(),
        );
        let ghost before = strings_view(lines@);
        lines.push(line);
        proof {
            assert(ws[i as int] == w@);
            assert(strings_view(lines@) =~= before.push(window_line(ws[i as int])));
            assert(ws.take(i + 1).map_values(|w: WindowView| window_line(w)) =~= ws.take(
                i as int,
            ).map_values(|w: WindowView| window_line(w)).push(window_line(ws[i as int])));
        }
        i = i + 1;
    }
    assert(ws.take(i as int) =~= ws);
    CommandOutput::Stdout(join_strings(&lines, "\n"))
}

// ---------------------------------------------------------------------
// Window and theme commands
// ---------------------------------------------------------------------

/// The built-in commands that act on one window by id.
#[derive(Debug, Clone, Copy, PartialEq, Eq, Structural)]
pub enum WindowCommand {
    Focus,
    Close,
    Minimize,
    Restore,
}

pub open spec fn window_command_path(c: WindowCommand) -> Seq<char> {
    match c {
        WindowCommand::Focus => "windows.focus"@,
        WindowCommand::Close => "windows.close"@,
        WindowCommand::Minimize => "windows.minimize"@,
        WindowCommand::Restore => "windows.restore"@,
    }
}

/// The desktop action a window command dispatches.
pub open spec fn window_command_action(c: WindowCommand, window_id: WindowId) -> DesktopAction {
    match c {
        WindowCommand::Focus => DesktopAction::FocusWindow { window_id },
        WindowCommand::Close => DesktopAction::CloseWindow { window_id },
        WindowCommand::Minimize => DesktopAction::MinimizeWindow { window_id },
        WindowCommand::Restore => DesktopAction::RestoreWindow { window_id },
    }
}

impl WindowCommand {
    /// The command path, such as `windows.focus`.
    pub fn path(self) -> (r: &'static str)
        ensures
            r@ == window_command_path(self),
    {
        proof {
            reveal_strlit("windows.focus");
            reveal_strlit("windows.close");
            reveal_strlit("windows.minimize");
            reveal_strlit("windows.restore");
        }
        match self {
            WindowCommand::Focus => "windows.focus",
            WindowCommand::Close => "windows.close",
            WindowCommand::Minimize => "windows.minimize",
            WindowCommand::Restore => "windows.restore",
        }
    }
}

/// A window command: the window id argument is required and must be a
/// decimal `u64`; the answer is the action to dispatch and the status
/// line `<path> <id>`.
pub fn window_command(command: WindowCommand, argv: &Vec<String>) -> (r: Result<(DesktopAction, String), ShellError>)
    ensures
        argv@.len() < 2 ==> (r matches Err(e) && e.code == ShellErrorCode::Usage && e.message@
            == "usage: "@ + window_command_path(command) + " <window-id>"@),
        argv@.len() >= 2 ==> match parses_u64(argv@[1]@) {
            None => r matches Err(e) && e.code == ShellErrorCode::Usage && e.message@
                == "invalid window id `"@ + argv@[1]@ + "`"@,
            Some(id) => r matches Ok(ok) && ok.0 == window_command_action(command, WindowId(id))
                && ok.1@ == window_command_path(command) + " "@ + decimal(id as nat),
        },
{
    if argv.len() < 2 {
        return Err(
            usage_error(String::from_str("usage: ").concat(command.path()).concat(" <window-id>")),
        );
    }
    let window_id = match parse_window_id(argv[1].as_str()) {
        Ok(id) => id,
        Err(e) => return Err(e),
    };
    let action = match command {
        WindowCommand::Focus => DesktopAction::FocusWindow { window_id },
        WindowCommand::Close => DesktopAction::CloseWindow { window_id },
        WindowCommand::Minimize => DesktopAction::MinimizeWindow { window_id },
        WindowCommand::Restore => DesktopAction::RestoreWindow { window_id },
    };
    let mut status = String::from_str(command.path()).concat(" ");
    push_decimal(&mut status, window_id.0);
    Ok((action, status))
}

/// `theme.set.reduced-motion <on|off>`: the action that sets the flag and
/// the status line echoing the argument.
pub fn reduced_motion_command(argv: &Vec<String>) -> (r: Result<(DesktopAction, String), ShellError>)
    ensures
        argv@.len() < 2 ==> (r matches Err(e) && e.code == ShellErrorCode::Usage && e.message@
            == "usage: theme.set.reduced-motion <on|off>"@),
        argv@.len() >= 2 ==> match bool_flag(argv@[1]@) {
            None => r matches Err(e) && e.code == ShellErrorCode::Usage && e.message@
                == "expected on/off, got `"@ + argv@[1]@ + "`"@,
            Some(b) => r matches Ok(ok) && ok.0 == (DesktopAction::SetReducedMotion { enabled: b })
                && ok.1@ == "theme.set.reduced-motion "@ + argv@[1]@,
        },
{
    if argv.len() < 2 {
        return Err(usage_error(String::from_str("usage: theme.set.reduced-motion <on|off>")));
    }
    let raw = argv[1].as_str();
    let enabled = match parse_bool_flag(raw) {
        Ok(b) => b,
        Err(e) => return Err(e),
    };
    Ok((
        DesktopAction::SetReducedMotion { enabled },
        String::from_str("theme.set.reduced-motion ").concat(raw),
    ))
}

// ---------------------------------------------------------------------
// inspect.runtime and inspect.storage
// ---------------------------------------------------------------------

/// The members of the `inspect.runtime` report: window count, start menu,
/// skin, contrast and motion settings, and terminal history length.
pub open spec fn runtime_members(s: DesktopView, skin_css_id: Seq<char>) -> Seq<(Seq<char>, Value)> {
    seq![
        ("windows"@, json_count_of(s.windows.len() as usize)),
        ("start_menu_open"@, json_bool_of(s.start_menu_open)),
        ("skin"@, json_text_of(skin_css_id)),
        ("high_contrast"@, json_bool_of(s.theme.high_contrast)),
        ("reduced_motion"@, json_bool_of(s.theme.reduced_motion)),
        ("terminal_history_len"@, json_count_of(s.terminal_history.len() as usize)),
    ]
}

/// `inspect.runtime`: the report as a JSON object, and its pretty-printed
/// text for standard output.
pub fn inspect_runtime_output(state: &DesktopState, skin_css_id: &str) -> (r: (Value, String))
    ensures
        r.0 == json_object_of(runtime_members(state@, skin_css_id@)),
        r.1@ == json_pretty(r.0),
{
    let mut members: Vec<(String, Value)> = Vec::new();
    members.push((String::from_str("windows"), json_count(state.windows.len())));
    members.push((String::from_str("start_menu_open"), json_bool(state.start_menu_open)));
    members.push((String::from_str("skin"), json_text(String::from_str(skin_css_id))));
    members.push((String::from_str("high_contrast"), json_bool(state.theme.high_contrast)));
    members.push((String::from_str("reduced_motion"), json_bool(state.theme.reduced_motion)));
    members.push(
        (String::from_str("terminal_history_len"), json_count(state.terminal_history.len())),
    );
    assert(members_view(members@) =~= runtime_members(state@, skin_css_id@));
    let payload = json_object(members);
    let text = json_pretty_text(&payload);
    (payload, text)
}

/// The members of the `inspect.storage` report: the host strategy and the
/// app-state namespaces.
pub open spec fn storage_members(host_strategy: Seq<char>, namespaces: Seq<Seq<char>>) -> Seq<
    (Seq<char>, Value),
> {
    seq![
        ("host_strategy"@, json_text_of(host_strategy)),
        ("namespaces"@, json_text_array_of(namespaces)),
    ]
}

/// `inspect.storage`: the report as a JSON object, and its pretty-printed
/// text for standard output.
pub fn inspect_storage_output(host_strategy: &str, namespaces: Vec<String>) -> (r: (Value, String))
    ensures
        r.0 == json_object_of(storage_members(host_strategy@, strings_view(namespaces@))),
        r.1@ == json_pretty(r.0),
{
    let ghost ns = strings_view(namespaces@);
    let mut members: Vec<(String, Value)> = Vec::new();
    members.push((String::from_str("host_strategy"), json_text(String::from_str(host_strategy))));
    members.push((String::from_str("namespaces"), json_text_array(namespaces)));
    assert(members_view(members@) =~= storage_members(host_strategy@, ns));
    let payload = json_object(members);
    let text = json_pretty_text(&payload);
    (payload, text)
}

// ---------------------------------------------------------------------
// config.get and config.set
// ---------------------------------------------------------------------

/// `config.get <namespace> <key>`: the preference key `namespace.key`.
pub fn config_get_key(argv: &Vec<String>) -> (r: Result<String, ShellError>)
    ensures
        argv@.len() < 3 ==> (r matches Err(e) && e.code == ShellErrorCode::Usage && e.message@
            == "usage: config.get <namespace> <key>"@),
        argv@.len() >= 3 ==> (r matches Ok(key) && key@ == argv@[1]@ + "."@ + argv@[2]@),
{
    if argv.len() < 3 {
        return Err(usage_error(String::from_str("usage: config.get <namespace> <key>")));
    }
    Ok(argv[1].clone().concat(".").concat(argv[2].as_str()))
}

/// What `config.get` writes for the value stored under `pref_key`: the
/// value pretty-printed on standard output, or a status line when nothing
/// is stored.
pub fn config_get_output(pref_key: &str, stored: &Option<Value>) -> (r: CommandOutput)
    ensures
        match stored {
            Some(v) => r@ == OutputView::Stdout(json_pretty(*v)),
            None => r@ == OutputView::Status("no value stored for `"@ + pref_key@ + "`"@),
        },
{
    match stored {
        Some(v) => CommandOutput::Stdout(json_pretty_text(v)),
        None => CommandOutput::Status(config_missing_status(pref_key)),
    }
}

/// Status line of `config.get` when nothing is stored under the key.
pub fn config_missing_status(pref_key: &str) -> (r: String)
    ensures
        r@ == "no value stored for `"@ + pref_key@ + "`"@,
{
    String::from_str("no value stored for `").concat(pref_key).concat("`")
}

/// The outcome of `config.set` once its JSON text was parsed: the
/// preference key with the value, or a usage error carrying the parser's
/// message.
pub fn config_set_outcome(pref_key: String, parsed: Result<Value, String>) -> (r: Result<
    (String, Value),
    ShellError,
>)
    ensures
        match parsed {
            Ok(v) => r matches Ok(req) && req.0@ == pref_key@ && req.1 == v,
            Err(m) => r matches Err(e) && e.code == ShellErrorCode::Usage && e.message@
                == "invalid json: "@ + m@,
        },
{
    match parsed {
        Ok(v) => Ok((pref_key, v)),
        Err(m) => Err(usage_error(String::from_str("invalid json: ").concat(m.as_str()))),
    }
}

/// `config.set <namespace> <key> <json>...`: the preference key and the
/// value parsed from every argument from the third on, joined by spaces; a
/// text that does not parse is a usage error.
pub fn config_set_request(argv: &Vec<String>) -> (r: Result<(String, Value), ShellError>)
    ensures
        argv@.len() < 4 ==> (r matches Err(e) && e.code == ShellErrorCode::Usage && e.message@
            == "usage: config.set <namespace> <key> <json>"@),
        argv@.len() >= 4 ==> match json_parsed(join_with(strings_view(argv@).skip(3), " "@)) {
            Ok(v) => r matches Ok(req) && req.0@ == argv@[1]@ + "."@ + argv@[2]@ && req.1 == v,
            Err(m) => r matches Err(e) && e.code == ShellErrorCode::Usage && e.message@
                == "invalid json: "@ + m,
        },
{
    if argv.len() < 4 {
        return Err(usage_error(String::from_str("usage: config.set <namespace> <key> <json>")));
    }
    let mut rest: Vec<String> = Vec::new();
    let mut i: usize = 3;
    while i < argv.len()
        invariant
            3 <= i <= argv@.len(),
            strings_view(rest@) == strings_view(argv@).subrange(3, i as int),
        decreases argv@.len() - i,
    {
        let ghost before = strings_view(rest@);
        rest.push(argv[i].clone());
        proof {
            assert(strings_view(rest@) =~= before.push(argv@[i as int]@));
            assert(strings_view(argv@).subrange(3, i + 1) =~= strings_view(argv@).subrange(
                3,
                i as int,
            ).push(argv@[i as int]@));
        }
        i = i + 1;
    }
    assert(strings_view(argv@).subrange(3, i as int) =~= strings_view(argv@).skip(3));
    let key = argv[1].clone().concat(".").concat(argv[2].as_str());
    let raw = join_strings(&rest, " ");
    let parsed = json_parse(raw.as_str());
    config_set_outcome(key, parsed)
}

/// Status line of `config.set` after the value was stored.
pub fn config_saved_status(pref_key: &str) -> (r: String)
    ensures
        r@ == "saved `"@ + pref_key@ + "`"@,
{
    String::from_str("saved `").concat(pref_key).concat("`")
}

// ---------------------------------------------------------------------
// apps.list and completion of `open`
// ---------------------------------------------------------------------

/// One line of `apps.list`: the canonical id and the launcher label.
pub open spec fn app_line(d: AppDescriptorView) -> Seq<char> {
    d.app_id + "  "@ + d.launcher_label
}

/// `apps.list`: one line per registered app, in registry order.
pub fn apps_list_text(registry: &Vec<AppDescriptor>) -> (r: String)
    ensures
        r@ == join_with(registry_view(registry@).map_values(|d: AppDescriptorView| app_line(d)), "\n"@),
{
    let ghost rv = registry_view(registry@);
    let mut lines: Vec<String> = Vec::new();
    let mut i: usize = 0;
    while i < registry.len()
        invariant
            rv == registry_view(registry@),
            i <= registry@.len(),
            strings_view(lines@) == rv.take(i as int).map_values(|d: AppDescriptorView| app_line(d)),
        decreases registry@.len() - i,
    {
        let d = &registry[i];
        let line = String::from_str(d.app_id.as_str()).concat("  ").concat(d.launcher_label.as_str());
        let ghost before = strings_view(lines@);
        lines.push(line);
        proof {
            assert(strings_view(lines@) =~= before.push(app_line(rv[i as int])));
            assert(rv.take(i + 1).map_values(|d: AppDescriptorView| app_line(d)) =~= rv.take(
                i as int,
            ).map_values(|d: AppDescriptorView| app_line(d)).push(app_line(rv[i as int])));
        }
        i = i + 1;
    }
    assert(rv.take(i as int) =~= rv);
    join_strings(&lines, "\n")
}

/// The prefix being completed: the first argument, or nothing.
pub open spec fn completion_prefix(argv: Seq<Seq<char>>) -> Seq<char> {
    if argv.len() > 1 {
        argv[1]
    } else {
        Seq::empty()
    }
}

pub open spec fn id_starts_with(d: AppDescriptorView, prefix: Seq<char>) -> bool {
    prefix.len() <= d.app_id.len() && d.app_id.subrange(0, prefix.len() as int) == prefix
}

/// A completion candidate for an app: its id, and its label as detail.
pub open spec fn app_candidate(d: AppDescriptorView) -> (Seq<char>, Seq<char>, Option<Seq<char>>) {
    (d.app_id, d.app_id, Some(d.launcher_label))
}

/// Completions of `open`: the registered apps whose id starts with the
/// typed argument, in registry order.
pub fn open_completions(registry: &Vec<AppDescriptor>, argv: &Vec<String>) -> (r: Vec<CompletionItem>)
    ensures
        items_view(r@) == registry_view(registry@).filter(
            |d: AppDescriptorView| id_starts_with(d, completion_prefix(strings_view(argv@))),
        ).map_values(|d: AppDescriptorView| app_candidate(d)),
{
    let prefix: String = if argv.len() > 1 {
        argv[1].clone()
    } else {
        String::new()
    };
    let ghost p = completion_prefix(strings_view(argv@));
    assert(prefix@ == p);
    let ghost rv = registry_view(registry@);
    let mut out: Vec<CompletionItem> = Vec::new();
    let mut i: usize = 0;
    assert(rv.take(0).filter(|d: AppDescriptorView| id_starts_with(d, p)) =~= Seq::<AppDescriptorView>::empty());
    while i < registry.len()
        invariant
            rv == registry_view(registry@),
            prefix@ == p,
            i <= registry@.len(),
            items_view(out@) == rv.take(i as int).filter(|d: AppDescriptorView| id_starts_with(d, p)).map_values(
                |d: AppDescriptorView| app_candidate(d),
            ),
        decreases registry@.len() - i,
    {
        let d = &registry[i];
        let ghost before = rv.take(i as int).filter(|d: AppDescriptorView| id_starts_with(d, p));
        proof {
            rv.take(i as int).lemma_filter_push(rv[i as int], |d: AppDescriptorView| id_starts_with(d, p));
            assert(rv.take(i as int).push(rv[i as int]) =~= rv.take(i + 1));
        }
        if str_starts_with(d.app_id.as_str(), prefix.as_str()) {
            let item = CompletionItem {
                value: String::from_str(d.app_id.as_str()),
                label: String::from_str(d.app_id.as_str()),
                detail: Some(d.launcher_label.clone()),
            };
            let ghost prev = items_view(out@);
            out.push(item);
            proof {
                assert(items_view(out@) =~= prev.push(app_candidate(rv[i as int])));
                assert(before.push(rv[i as int]).map_values(|d: AppDescriptorView| app_candidate(d))
                    =~= before.map_values(|d: AppDescriptorView| app_candidate(d)).push(app_candidate(rv[i as int])));
            }
        }
        i = i + 1;
    }
    assert(rv.take(i as int) =~= rv);
    out
}

// ---------------------------------------------------------------------
// Who may register commands
// ---------------------------------------------------------------------

proof fn lemma_first_entry_unique(reg: Seq<AppDescriptorView>, id: Seq<char>, a: int, b: int)
    requires
        first_entry_of(reg, id, a),
        first_entry_of(reg, id, b),
    ensures
        a == b,
{
    if a < b {
        assert(reg[a].app_id == id);
    } else if b < a {
        assert(reg[b].app_id == id);
    }
}

/// The capabilities an app declares in the registry; none when it is not
/// registered.
pub open spec fn declared_capabilities(reg: Seq<AppDescriptorView>, id: Seq<char>) -> Seq<AppCapability> {
    if is_registered(reg, id) {
        reg[choose|i: int| first_entry_of(reg, id, i)].requested_capabilities
    } else {
        Seq::empty()
    }
}

/// An app may register shell commands when it is privileged or declares
/// the commands capability.
pub open spec fn may_register_commands(reg: Seq<AppDescriptorView>, app_id: AppId) -> bool {
    is_privileged_id(canonical_id_spec(app_id)) || declared_capabilities(reg, canonical_id_spec(app_id)).contains(
        AppCapability::Commands,
    )
}

/// Whether an app may register shell commands.
pub fn app_can_register_commands(registry: &Vec<AppDescriptor>, app_id: AppId) -> (r: bool)
    ensures
        r == may_register_commands(registry_view(registry@), app_id),
{
    if app_is_privileged(app_id) {
        return true;
    }
    let ghost rv = registry_view(registry@);
    let ghost id = canonical_id_spec(app_id);
    let key = ApplicationId::trusted(String::from_str(app_id.canonical_id()));
    match find_app_descriptor(registry, &key) {
        None => {
            assert(declared_capabilities(rv, id) =~= Seq::<AppCapability>::empty());
            false
        },
        Some(i) => {
            proof {
                assert(first_entry_of(rv, id, i as int));
                assert(is_registered(rv, id)) by {
                    assert(rv[i as int].app_id == id);
                }
                let c = choose|c: int| first_entry_of(rv, id, c);
                lemma_first_entry_unique(rv, id, c, i as int);
            }
            let caps = &registry[i].requested_capabilities;
            assert(rv[i as int] == registry@[i as int]@);
            assert(caps@ == declared_capabilities(rv, id));
            let mut k: usize = 0;
            while k < caps.len()
                invariant
                    k <= caps@.len(),
                    caps@ == declared_capabilities(rv, id),
                    rv == registry_view(registry@),
                    id == canonical_id_spec(app_id),
                    forall|j: int| 0 <= j < k ==> caps@[j] != AppCapability::Commands,
                decreases caps@.len() - k,
            {
                if caps[k] == AppCapability::Commands {
                    assert(declared_capabilities(rv, id)[k as int] == AppCapability::Commands);
                    return true;
                }
                k = k + 1;
            }
            false
        },
    }
}

/// Whether an app may register a command in `scope`: it must be allowed
/// to register commands at all, and own the scope.
pub fn check_app_command_registration(
    registry: &Vec<AppDescriptor>,
    app_id: AppId,
    window_id: WindowId,
    scope: &CommandScope,
) -> (r: Result<(), String>)
    ensures
        !may_register_commands(registry_view(registry@), app_id) ==> (r matches Err(m) && m@
            == canonical_id_spec(app_id) + " is not allowed to register system commands"@),
        may_register_commands(registry_view(registry@), app_id) ==> match r {
            Ok(()) => scope_error(scope@, app_id, window_id) is None,
            Err(m) => scope_error(scope@, app_id, window_id) == Some(m@),
        },
{
    if !app_can_register_commands(registry, app_id) {
        return Err(String::from_str(app_id.canonical_id()).concat(" is not allowed to register system commands"));
    }
    validate_scope(scope, app_id, window_id)
}

// ---------------------------------------------------------------------
// Descriptors of the built-in commands
// ---------------------------------------------------------------------

pub open spec fn descriptors_view(v: Seq<CommandDescriptor>) -> Seq<DescriptorView> {
    v.map_values(|d: CommandDescriptor| d@)
}

/// A public, global built-in command without options or long description.
pub open spec fn builtin_entry(
    path: Seq<char>,
    alias: Option<Seq<char>>,
    summary: Seq<char>,
    usage: Seq<char>,
    args: Seq<(Seq<char>, Seq<char>, bool, bool)>,
    examples: Seq<(Seq<char>, Seq<char>)>,
) -> DescriptorView {
    DescriptorView {
        id: path,
        path,
        aliases: match alias {
            Some(a) => seq![a],
            None => Seq::empty(),
        },
        scope: ScopeView::Global,
        visibility: CommandVisibility::Public,
        args,
        options: Seq::empty(),
        help: HelpView { summary, description: None, usage, examples },
    }
}

/// The built-in commands, in registration order.
pub open spec fn builtin_descriptor_table() -> Seq<DescriptorView> {
    seq![
        builtin_entry("help"@, None, "List commands or show help for one command."@, "help [command]"@, seq![("command"@, "Optional command path or alias."@, false, false)], seq![("help windows.list"@, "Show help for a specific command."@)]),
        builtin_entry("clear"@, None, "Clear the terminal transcript UI."@, "clear"@, Seq::empty(), Seq::empty()),
        builtin_entry("history"@, None, "Show recent terminal command history."@, "history"@, Seq::empty(), Seq::empty()),
        builtin_entry("open"@, None, "Open a system app or deep-link target."@, "open <target>"@, seq![("target"@, "Canonical app id or deep-link target such as notes:slug."@, true, false)], Seq::empty()),
        builtin_entry("apps.list"@, None, "List registered apps."@, "apps.list"@, Seq::empty(), Seq::empty()),
        builtin_entry("apps.open"@, None, "Open a system app or deep-link target."@, "apps.open <app-id>"@, seq![("target"@, "Canonical app id or deep-link target such as notes:slug."@, true, false)], Seq::empty()),
        builtin_entry("windows.list"@, None, "List open windows."@, "windows.list"@, Seq::empty(), Seq::empty()),
        builtin_entry("windows.focus"@, None, "Focus a window."@, "windows.focus <window-id>"@, seq![("window-id"@, "Runtime window identifier."@, true, false)], Seq::empty()),
        builtin_entry("windows.close"@, None, "Close a window."@, "windows.close <window-id>"@, seq![("window-id"@, "Runtime window identifier."@, true, false)], Seq::empty()),
        builtin_entry("windows.minimize"@, None, "Minimize a window."@, "windows.minimize <window-id>"@, seq![("window-id"@, "Runtime window identifier."@, true, false)], Seq::empty()),
        builtin_entry("windows.restore"@, None, "Restore a window."@, "windows.restore <window-id>"@, seq![("window-id"@, "Runtime window identifier."@, true, false)], Seq::empty()),
        builtin_entry("theme.show"@, None, "Show current theme state."@, "theme.show"@, Seq::empty(), Seq::empty()),
        builtin_entry("theme.set.skin"@, None, "Set the desktop skin."@, "theme.set.skin <modern-adaptive|classic-xp|classic-95>"@, seq![("skin"@, "Desktop skin id."@, true, false)], Seq::empty()),
        builtin_entry("theme.set.high-contrast"@, None, "Set high-contrast mode."@, "theme.set.high-contrast <on|off>"@, seq![("value"@, "Use on or off."@, true, false)], Seq::empty()),
        builtin_entry("theme.set.reduced-motion"@, None, "Set reduced-motion mode."@, "theme.set.reduced-motion <on|off>"@, seq![("value"@, "Use on or off."@, true, false)], Seq::empty()),
        builtin_entry("config.get"@, None, "Load one config value from prefs storage."@, "config.get <namespace> <key>"@, seq![("namespace"@, "Config namespace."@, true, false), ("key"@, "Config key."@, true, false)], Seq::empty()),
        builtin_entry("config.set"@, None, "Store one config value in prefs storage."@, "config.set <namespace> <key> <json>"@, seq![("namespace"@, "Config namespace."@, true, false), ("key"@, "Config key."@, true, false), ("json"@, "JSON value payload."@, true, true)], Seq::empty()),
        builtin_entry("inspect.runtime"@, None, "Inspect desktop runtime state."@, "inspect.runtime"@, Seq::empty(), Seq::empty()),
        builtin_entry("inspect.windows"@, None, "Inspect open window state."@, "windows.list"@, Seq::empty(), Seq::empty()),
        builtin_entry("inspect.storage"@, None, "Inspect storage namespaces and host strategy."@, "inspect.storage"@, Seq::empty(), Seq::empty()),
        builtin_entry("fs.pwd"@, Some("pwd"@), "Print the logical filesystem cwd."@, "fs.pwd"@, Seq::empty(), Seq::empty()),
        builtin_entry("fs.cd"@, Some("cd"@), "Change the logical filesystem cwd."@, "fs.cd <path>"@, seq![("path"@, "Target directory path."@, true, false)], Seq::empty()),
        builtin_entry("fs.ls"@, Some("ls"@), "List a directory using the active explorer backend."@, "fs.ls [path]"@, seq![("path"@, "Optional target directory."@, false, false)], Seq::empty()),
    ]
}

fn arg_spec(name: &str, summary: &str, required: bool, repeatable: bool) -> (r: CommandArgSpec)
    ensures
        r@ == (name@, summary@, required, repeatable),
{
    CommandArgSpec { name: String::from_str(name), summary: String::from_str(summary), required, repeatable }
}

fn builtin(
    path: &str,
    alias: Option<&str>,
    summary: &str,
    usage: &str,
    args: Vec<CommandArgSpec>,
    examples: Vec<CommandExample>,
) -> (r: CommandDescriptor)
    ensures
        r@ == builtin_entry(
            path@,
            match alias {
                Some(a) => Some(a@),
                None => None,
            },
            summary@,
            usage@,
            args_view(args@),
            examples_view(examples@),
        ),
{
    let mut aliases: Vec<String> = Vec::new();
    if let Some(a) = alias {
        aliases.push(String::from_str(a));
    }
    let options: Vec<CommandOptionSpec> = Vec::new();
    let d = CommandDescriptor {
        id: CommandId::new(String::from_str(path)),
        path: CommandPath::new(String::from_str(path)),
        aliases,
        scope: CommandScope::Global,
        visibility: CommandVisibility::Public,
        args,
        options,
        help: HelpDoc {
            summary: String::from_str(summary),
            description: None,
            usage: String::from_str(usage),
            examples,
        },
    };
    assert(d@.aliases =~= match alias {
        Some(a) => seq![a@],
        None => Seq::<Seq<char>>::empty(),
    });
    assert(d@.options =~= Seq::<(Seq<char>, Option<char>, Seq<char>, bool)>::empty());
    d
}

/// The descriptors of the built-in commands, in registration order.
#[verifier::rlimit(60)]
pub fn builtin_command_descriptors() -> (r: Vec<CommandDescriptor>)
    ensures
        descriptors_view(r@) == builtin_descriptor_table(),
{
    let mut v: Vec<CommandDescriptor> = Vec::new();
    {
        let mut args: Vec<CommandArgSpec> = Vec::new();
        args.push(arg_spec("command", "Optional command path or alias.", false, false));
        let mut examples: Vec<CommandExample> = Vec::new();
        examples.push(CommandExample { command: String::from_str("help windows.list"), summary: String::from_str("Show help for a specific command.") });
        let ghost before = descriptors_view(v@);
        let d = builtin("help", None, "List commands or show help for one command.", "help [command]", args, examples);
        v.push(d);
        assert(descriptors_view(v@) =~= before.push(d@));
        assert(d@.args =~= seq![("command"@, "Optional command path or alias."@, false, false)]);
        assert(d@.help.examples =~= seq![("help windows.list"@, "Show help for a specific command."@)]);
        assert(d@ == builtin_entry("help"@, None, "List commands or show help for one command."@, "help [command]"@, seq![("command"@, "Optional command path or alias."@, false, false)], seq![("help windows.list"@, "Show help for a specific command."@)]));
    }
    {
        let mut args: Vec<CommandArgSpec> = Vec::new();
        let mut examples: Vec<CommandExample> = Vec::new();
        let ghost before = descriptors_view(v@);
        let d = builtin("clear", None, "Clear the terminal transcript UI.", "clear", args, examples);
        v.push(d);
        assert(descriptors_view(v@) =~= before.push(d@));
        assert(d@.args =~= Seq::<(Seq<char>, Seq<char>, bool, bool)>::empty());
        assert(d@.help.examples =~= Seq::<(Seq<char>, Seq<char>)>::empty());
        assert(d@ == builtin_entry("clear"@, None, "Clear the terminal transcript UI."@, "clear"@, Seq::empty(), Seq::empty()));
    }
    {
        let mut args: Vec<CommandArgSpec> = Vec::new();
        let mut examples: Vec<CommandExample> = Vec::new();
        let ghost before = descriptors_view(v@);
        let d = builtin("history", None, "Show recent terminal command history.", "history", args, examples);
        v.push(d);
        assert(descriptors_view(v@) =~= before.push(d@));
        assert(d@.args =~= Seq::<(Seq<char>, Seq<char>, bool, bool)>::empty());
        assert(d@.help.examples =~= Seq::<(Seq<char>, Seq<char>)>::empty());
        assert(d@ == builtin_entry("history"@, None, "Show recent terminal command history."@, "history"@, Seq::empty(), Seq::empty()));
    }
    {
        let mut args: Vec<CommandArgSpec> = Vec::new();
        args.push(arg_spec("target", "Canonical app id or deep-link target such as notes:slug.", true, false));
        let mut examples: Vec<CommandExample> = Vec::new();
        let ghost before = descriptors_view(v@);
        let d = builtin("open", None, "Open a system app or deep-link target.", "open <target>", args, examples);
        v.push(d);
        assert(descriptors_view(v@) =~= before.push(d@));
        assert(d@.args =~= seq![("target"@, "Canonical app id or deep-link target such as notes:slug."@, true, false)]);
        assert(d@.help.examples =~= Seq::<(Seq<char>, Seq<char>)>::empty());
        assert(d@ == builtin_entry("open"@, None, "Open a system app or deep-link target."@, "open <target>"@, seq![("target"@, "Canonical app id or deep-link target such as notes:slug."@, true, false)], Seq::empty()));
    }
    {
        let mut args: Vec<CommandArgSpec> = Vec::new();
        let mut examples: Vec<CommandExample> = Vec::new();
        let ghost before = descriptors_view(v@);
        let d = builtin("apps.list", None, "List registered apps.", "apps.list", args, examples);
        v.push(d);
        assert(descriptors_view(v@) =~= before.push(d@));
        assert(d@.args =~= Seq::<(Seq<char>, Seq<char>, bool, bool)>::empty());
        assert(d@.help.examples =~= Seq::<(Seq<char>, Seq<char>)>::empty());
        assert(d@ == builtin_entry("apps.list"@, None, "List registered apps."@, "apps.list"@, Seq::empty(), Seq::empty()));
    }
    {
        let mut args: Vec<CommandArgSpec> = Vec::new();
        args.push(arg_spec("target", "Canonical app id or deep-link target such as notes:slug.", true, false));
        let mut examples: Vec<CommandExample> = Vec::new();
        let ghost before = descriptors_view(v@);
        let d = builtin("apps.open", None, "Open a system app or deep-link target.", "apps.open <app-id>", args, examples);
        v.push(d);
        assert(descriptors_view(v@) =~= before.push(d@));
        assert(d@.args =~= seq![("target"@, "Canonical app id or deep-link target such as notes:slug."@, true, false)]);
        assert(d@.help.examples =~= Seq::<(Seq<char>, Seq<char>)>::empty());
        assert(d@ == builtin_entry("apps.open"@, None, "Open a system app or deep-link target."@, "apps.open <app-id>"@, seq![("target"@, "Canonical app id or deep-link target such as notes:slug."@, true, false)], Seq::empty()));
    }
    {
        let mut args: Vec<CommandArgSpec> = Vec::new();
        let mut examples: Vec<CommandExample> = Vec::new();
        let ghost before = descriptors_view(v@);
        let d = builtin("windows.list", None, "List open windows.", "windows.list", args, examples);
        v.push(d);
        assert(descriptors_view(v@) =~= before.push(d@));
        assert(d@.args =~= Seq::<(Seq<char>, Seq<char>, bool, bool)>::empty());
        assert(d@.help.examples =~= Seq::<(Seq<char>, Seq<char>)>::empty());
        assert(d@ == builtin_entry("windows.list"@, None, "List open windows."@, "windows.list"@, Seq::empty(), Seq::empty()));
    }
    {
        let mut args: Vec<CommandArgSpec> = Vec::new();
        args.push(arg_spec("window-id", "Runtime window identifier.", true, false));
        let mut examples: Vec<CommandExample> = Vec::new();
        let ghost before = descriptors_view(v@);
        let d = builtin("windows.focus", None, "Focus a window.", "windows.focus <window-id>", args, examples);
        v.push(d);
        assert(descriptors_view(v@) =~= before.push(d@));
        assert(d@.args =~= seq![("window-id"@, "Runtime window identifier."@, true, false)]);
        assert(d@.help.examples =~= Seq::<(Seq<char>, Seq<char>)>::empty());
        assert(d@ == builtin_entry("windows.focus"@, None, "Focus a window."@, "windows.focus <window-id>"@, seq![("window-id"@, "Runtime window identifier."@, true, false)], Seq::empty()));
    }
    {
        let mut args: Vec<CommandArgSpec> = Vec::new();
        args.push(arg_spec("window-id", "Runtime window identifier.", true, false));
        let mut examples: Vec<CommandExample> = Vec::new();
        let ghost before = descriptors_view(v@);
        let d = builtin("windows.close", None, "Close a window.", "windows.close <window-id>", args, examples);
        v.push(d);
        assert(descriptors_view(v@) =~= before.push(d@));
        assert(d@.args =~= seq![("window-id"@, "Runtime window identifier."@, true, false)]);
        assert(d@.help.examples =~= Seq::<(Seq<char>, Seq<char>)>::empty());
        assert(d@ == builtin_entry("windows.close"@, None, "Close a window."@, "windows.close <window-id>"@, seq![("window-id"@, "Runtime window identifier."@, true, false)], Seq::empty()));
    }
    {
        let mut args: Vec<CommandArgSpec> = Vec::new();
        args.push(arg_spec("window-id", "Runtime window identifier.", true, false));
        let mut examples: Vec<CommandExample> = Vec::new();
        let ghost before = descriptors_view(v@);
        let d = builtin("windows.minimize", None, "Minimize a window.", "windows.minimize <window-id>", args, examples);
        v.push(d);
        assert(descriptors_view(v@) =~= before.push(d@));
        assert(d@.args =~= seq![("window-id"@, "Runtime window identifier."@, true, false)]);
        assert(d@.help.examples =~= Seq::<(Seq<char>, Seq<char>)>::empty());
        assert(d@ == builtin_entry("windows.minimize"@, None, "Minimize a window."@, "windows.minimize <window-id>"@, seq![("window-id"@, "Runtime window identifier."@, true, false)], Seq::empty()));
    }
    {
        let mut args: Vec<CommandArgSpec> = Vec::new();
        args.push(arg_spec("window-id", "Runtime window identifier.", true, false));
        let mut examples: Vec<CommandExample> = Vec::new();
        let ghost before = descriptors_view(v@);
        let d = builtin("windows.restore", None, "Restore a window.", "windows.restore <window-id>", args, examples);
        v.push(d);
        assert(descriptors_view(v@) =~= before.push(d@));
        assert(d@.args =~= seq![("window-id"@, "Runtime window identifier."@, true, false)]);
        assert(d@.help.examples =~= Seq::<(Seq<char>, Seq<char>)>::empty());
        assert(d@ == builtin_entry("windows.restore"@, None, "Restore a window."@, "windows.restore <window-id>"@, seq![("window-id"@, "Runtime window identifier."@, true, false)], Seq::empty()));
    }
    {
        let mut args: Vec<CommandArgSpec> = Vec::new();
        let mut examples: Vec<CommandExample> = Vec::new();
        let ghost before = descriptors_view(v@);
        let d = builtin("theme.show", None, "Show current theme state.", "theme.show", args, examples);
        v.push(d);
        assert(descriptors_view(v@) =~= before.push(d@));
        assert(d@.args =~= Seq::<(Seq<char>, Seq<char>, bool, bool)>::empty());
        assert(d@.help.examples =~= Seq::<(Seq<char>, Seq<char>)>::empty());
        assert(d@ == builtin_entry("theme.show"@, None, "Show current theme state."@, "theme.show"@, Seq::empty(), Seq::empty()));
    }
    {
        let mut args: Vec<CommandArgSpec> = Vec::new();
        args.push(arg_spec("skin", "Desktop skin id.", true, false));
        let mut examples: Vec<CommandExample> = Vec::new();
        let ghost before = descriptors_view(v@);
        let d = builtin("theme.set.skin", None, "Set the desktop skin.", "theme.set.skin <modern-adaptive|classic-xp|classic-95>", args, examples);
        v.push(d);
        assert(descriptors_view(v@) =~= before.push(d@));
        assert(d@.args =~= seq![("skin"@, "Desktop skin id."@, true, false)]);
        assert(d@.help.examples =~= Seq::<(Seq<char>, Seq<char>)>::empty());
        assert(d@ == builtin_entry("theme.set.skin"@, None, "Set the desktop skin."@, "theme.set.skin <modern-adaptive|classic-xp|classic-95>"@, seq![("skin"@, "Desktop skin id."@, true, false)], Seq::empty()));
    }
    {
        let mut args: Vec<CommandArgSpec> = Vec::new();
        args.push(arg_spec("value", "Use on or off.", true, false));
        let mut examples: Vec<CommandExample> = Vec::new();
        let ghost before = descriptors_view(v@);
        let d = builtin("theme.set.high-contrast", None, "Set high-contrast mode.", "theme.set.high-contrast <on|off>", args, examples);
        v.push(d);
        assert(descriptors_view(v@) =~= before.push(d@));
        assert(d@.args =~= seq![("value"@, "Use on or off."@, true, false)]);
        assert(d@.help.examples =~= Seq::<(Seq<char>, Seq<char>)>::empty());
        assert(d@ == builtin_entry("theme.set.high-contrast"@, None, "Set high-contrast mode."@, "theme.set.high-contrast <on|off>"@, seq![("value"@, "Use on or off."@, true, false)], Seq::empty()));
    }
    {
        let mut args: Vec<CommandArgSpec> = Vec::new();
        args.push(arg_spec("value", "Use on or off.", true, false));
        let mut examples: Vec<CommandExample> = Vec::new();
        let ghost before = descriptors_view(v@);
        let d = builtin("theme.set.reduced-motion", None, "Set reduced-motion mode.", "theme.set.reduced-motion <on|off>", args, examples);
        v.push(d);
        assert(descriptors_view(v@) =~= before.push(d@));
        assert(d@.args =~= seq![("value"@, "Use on or off."@, true, false)]);
        assert(d@.help.examples =~= Seq::<(Seq<char>, Seq<char>)>::empty());
        assert(d@ == builtin_entry("theme.set.reduced-motion"@, None, "Set reduced-motion mode."@, "theme.set.reduced-motion <on|off>"@, seq![("value"@, "Use on or off."@, true, false)], Seq::empty()));
    }
    {
        let mut args: Vec<CommandArgSpec> = Vec::new();
        args.push(arg_spec("namespace", "Config namespace.", true, false));
        args.push(arg_spec("key", "Config key.", true, false));
        let mut examples: Vec<CommandExample> = Vec::new();
        let ghost before = descriptors_view(v@);
        let d = builtin("config.get", None, "Load one config value from prefs storage.", "config.get <namespace> <key>", args, examples);
        v.push(d);
        assert(descriptors_view(v@) =~= before.push(d@));
        assert(d@.args =~= seq![("namespace"@, "Config namespace."@, true, false), ("key"@, "Config key."@, true, false)]);
        assert(d@.help.examples =~= Seq::<(Seq<char>, Seq<char>)>::empty());
        assert(d@ == builtin_entry("config.get"@, None, "Load one config value from prefs storage."@, "config.get <namespace> <key>"@, seq![("namespace"@, "Config namespace."@, true, false), ("key"@, "Config key."@, true, false)], Seq::empty()));
    }
    {
        let mut args: Vec<CommandArgSpec> = Vec::new();
        args.push(arg_spec("namespace", "Config namespace.", true, false));
        args.push(arg_spec("key", "Config key.", true, false));
        args.push(arg_spec("json", "JSON value payload.", true, true));
        let mut examples: Vec<CommandExample> = Vec::new();
        let ghost before = descriptors_view(v@);
        let d = builtin("config.set", None, "Store one config value in prefs storage.", "config.set <namespace> <key> <json>", args, examples);
        v.push(d);
        assert(descriptors_view(v@) =~= before.push(d@));
        assert(d@.args =~= seq![("namespace"@, "Config namespace."@, true, false), ("key"@, "Config key."@, true, false), ("json"@, "JSON value payload."@, true, true)]);
        assert(d@.help.examples =~= Seq::<(Seq<char>, Seq<char>)>::empty());
        assert(d@ == builtin_entry("config.set"@, None, "Store one config value in prefs storage."@, "config.set <namespace> <key> <json>"@, seq![("namespace"@, "Config namespace."@, true, false), ("key"@, "Config key."@, true, false), ("json"@, "JSON value payload."@, true, true)], Seq::empty()));
    }
    {
        let mut args: Vec<CommandArgSpec> = Vec::new();
        let mut examples: Vec<CommandExample> = Vec::new();
        let ghost before = descriptors_view(v@);
        let d = builtin("inspect.runtime", None, "Inspect desktop runtime state.", "inspect.runtime", args, examples);
        v.push(d);
        assert(descriptors_view(v@) =~= before.push(d@));
        assert(d@.args =~= Seq::<(Seq<char>, Seq<char>, bool, bool)>::empty());
        assert(d@.help.examples =~= Seq::<(Seq<char>, Seq<char>)>::empty());
        assert(d@ == builtin_entry("inspect.runtime"@, None, "Inspect desktop runtime state."@, "inspect.runtime"@, Seq::empty(), Seq::empty()));
    }
    {
        let mut args: Vec<CommandArgSpec> = Vec::new();
        let mut examples: Vec<CommandExample> = Vec::new();
        let ghost before = descriptors_view(v@);
        let d = builtin("inspect.windows", None, "Inspect open window state.", "windows.list", args, examples);
        v.push(d);
        assert(descriptors_view(v@) =~= before.push(d@));
        assert(d@.args =~= Seq::<(Seq<char>, Seq<char>, bool, bool)>::empty());
        assert(d@.help.examples =~= Seq::<(Seq<char>, Seq<char>)>::empty());
        assert(d@ == builtin_entry("inspect.windows"@, None, "Inspect open window state."@, "windows.list"@, Seq::empty(), Seq::empty()));
    }
    {
        let mut args: Vec<CommandArgSpec> = Vec::new();
        let mut examples: Vec<CommandExample> = Vec::new();
        let ghost before = descriptors_view(v@);
        let d = builtin("inspect.storage", None, "Inspect storage namespaces and host strategy.", "inspect.storage", args, examples);
        v.push(d);
        assert(descriptors_view(v@) =~= before.push(d@));
        assert(d@.args =~= Seq::<(Seq<char>, Seq<char>, bool, bool)>::empty());
        assert(d@.help.examples =~= Seq::<(Seq<char>, Seq<char>)>::empty());
        assert(d@ == builtin_entry("inspect.storage"@, None, "Inspect storage namespaces and host strategy."@, "inspect.storage"@, Seq::empty(), Seq::empty()));
    }
    {
        let mut args: Vec<CommandArgSpec> = Vec::new();
        let mut examples: Vec<CommandExample> = Vec::new();
        let ghost before = descriptors_view(v@);
        let d = builtin("fs.pwd", Some("pwd"), "Print the logical filesystem cwd.", "fs.pwd", args, examples);
        v.push(d);
        assert(descriptors_view(v@) =~= before.push(d@));
        assert(d@.args =~= Seq::<(Seq<char>, Seq<char>, bool, bool)>::empty());
        assert(d@.help.examples =~= Seq::<(Seq<char>, Seq<char>)>::empty());
        assert(d@ == builtin_entry("fs.pwd"@, Some("pwd"@), "Print the logical filesystem cwd."@, "fs.pwd"@, Seq::empty(), Seq::empty()));
    }
    {
        let mut args: Vec<CommandArgSpec> = Vec::new();
        args.push(arg_spec("path", "Target directory path.", true, false));
        let mut examples: Vec<CommandExample> = Vec::new();
        let ghost before = descriptors_view(v@);
        let d = builtin("fs.cd", Some("cd"), "Change the logical filesystem cwd.", "fs.cd <path>", args, examples);
        v.push(d);
        assert(descriptors_view(v@) =~= before.push(d@));
        assert(d@.args =~= seq![("path"@, "Target directory path."@, true, false)]);
        assert(d@.help.examples =~= Seq::<(Seq<char>, Seq<char>)>::empty());
        assert(d@ == builtin_entry("fs.cd"@, Some("cd"@), "Change the logical filesystem cwd."@, "fs.cd <path>"@, seq![("path"@, "Target directory path."@, true, false)], Seq::empty()));
    }
    {
        let mut args: Vec<CommandArgSpec> = Vec::new();
        args.push(arg_spec("path", "Optional target directory.", false, false));
        let mut examples: Vec<CommandExample> = Vec::new();
        let ghost before = descriptors_view(v@);
        let d = builtin("fs.ls", Some("ls"), "List a directory using the active explorer backend.", "fs.ls [path]", args, examples);
        v.push(d);
        assert(descriptors_view(v@) =~= before.push(d@));
        assert(d@.args =~= seq![("path"@, "Optional target directory."@, false, false)]);
        assert(d@.help.examples =~= Seq::<(Seq<char>, Seq<char>)>::empty());
        assert(d@ == builtin_entry("fs.ls"@, Some("ls"@), "List a directory using the active explorer backend."@, "fs.ls [path]"@, seq![("path"@, "Optional target directory."@, false, false)], Seq::empty()));
    }
    assert(descriptors_view(v@) =~= builtin_descriptor_table());
    v
}

// ---------------------------------------------------------------------
// open
// ---------------------------------------------------------------------

/// The built-in app with a canonical id.
pub open spec fn app_for_canonical(id: Seq<char>) -> Option<AppId> {
    if id == "system.calculator"@ {
        Some(AppId::Calculator)
    } else if id == "system.explorer"@ {
        Some(AppId::Explorer)
    } else if id == "system.notepad"@ {
        Some(AppId::Notepad)
    } else if id == "system.paint"@ {
        Some(AppId::Paint)
    } else if id == "system.terminal"@ {
        Some(AppId::Terminal)
    } else if id == "system.dialup"@ {
        Some(AppId::Dialup)
    } else {
        None
    }
}

/// The built-in app with a canonical id, if any.
pub fn app_id_from_canonical(id: &str) -> (r: Option<AppId>)
    ensures
        r == app_for_canonical(id@),
{
    if str_eq(id, "system.calculator") {
        Some(AppId::Calculator)
    } else if str_eq(id, "system.explorer") {
        Some(AppId::Explorer)
    } else if str_eq(id, "system.notepad") {
        Some(AppId::Notepad)
    } else if str_eq(id, "system.paint") {
        Some(AppId::Paint)
    } else if str_eq(id, "system.terminal") {
        Some(AppId::Terminal)
    } else if str_eq(id, "system.dialup") {
        Some(AppId::Dialup)
    } else {
        None
    }
}

/// What `open` opens: a built-in app, or a window for a deep link.
#[derive(Debug, Clone, PartialEq)]
pub enum OpenTarget {
    App(AppId),
    Window(OpenWindowRequest),
}

pub open spec fn has_prefix(s: Seq<char>, p: Seq<char>) -> bool {
    p.len() <= s.len() && s.subrange(0, p.len() as int) == p
}

/// A canonical app id opens that app; `notes:<slug>` and
/// `projects:<slug>` open the note or project window; anything else
/// names nothing.
pub open spec fn open_target_ok(target: Seq<char>, r: Option<OpenTarget>) -> bool {
    match app_for_canonical(target) {
        Some(a) => r == Some(OpenTarget::App(a)),
        None => if has_prefix(target, "notes:"@) {
            r matches Some(OpenTarget::Window(req)) && note_request(req, target.skip(6))
        } else if has_prefix(target, "projects:"@) {
            r matches Some(OpenTarget::Window(req)) && project_request(req, target.skip(9))
        } else {
            r is None
        },
    }
}

/// Resolves the argument of `open`.
pub fn resolve_open_target(target: &str) -> (r: Option<OpenTarget>)
    ensures
        open_target_ok(target@, r),
{
    proof {
        reveal_strlit("notes:");
        reveal_strlit("projects:");
    }
    if let Some(app) = app_id_from_canonical(target) {
        return Some(OpenTarget::App(app));
    }
    let n = target.unicode_len();
    if str_starts_with(target, "notes:") {
        let slug = target.substring_char(6, n);
        assert(slug@ =~= target@.skip(6));
        return Some(OpenTarget::Window(build_open_request_from_deeplink(DeepLinkOpenTarget::NotesSlug(String::from_str(slug)))));
    }
    if str_starts_with(target, "projects:") {
        let slug = target.substring_char(9, n);
        assert(slug@ =~= target@.skip(9));
        return Some(OpenTarget::Window(build_open_request_from_deeplink(DeepLinkOpenTarget::ProjectSlug(String::from_str(slug)))));
    }
    None
}

/// `open <target>`: what to open and the status line; a missing argument
/// is a usage error and an unknown target a not-found error.
pub fn open_command(argv: &Vec<String>) -> (r: Result<(OpenTarget, String), ShellError>)
    ensures
        argv@.len() < 2 ==> (r matches Err(e) && e.code == ShellErrorCode::Usage && e.message@
            == "usage: open <target>"@),
        argv@.len() >= 2 ==> match r {
            Ok(ok) => open_target_ok(argv@[1]@, Some(ok.0)) && ok.1@ == "opened `"@ + argv@[1]@ + "`"@,
            Err(e) => open_target_ok(argv@[1]@, None) && e.code == ShellErrorCode::NotFound && e.message@
                == "unknown open target `"@ + argv@[1]@ + "`"@,
        },
{
    if argv.len() < 2 {
        return Err(usage_error(String::from_str("usage: open <target>")));
    }
    let target = argv[1].as_str();
    match resolve_open_target(target) {
        Some(t) => Ok((t, String::from_str("opened `").concat(target).concat("`"))),
        None => Err(
            ShellError::new(
                ShellErrorCode::NotFound,
                String::from_str("unknown open target `").concat(target).concat("`"),
            ),
        ),
    }
}

} // verus!
