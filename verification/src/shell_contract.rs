//! Shell command contracts shared by the shell engine, the runtime and the
//! terminal: command metadata, requests, completions and exit statuses.

use vstd::prelude::*;
use vstd::string::*;
use crate::model::{clone_opt_string, duplicate_strings, opt_string_view, strings_view};

verus! {

/// Stable command identifier.
#[derive(Debug, Clone, PartialEq, Eq, Hash)]
pub struct CommandId(String);

impl View for CommandId {
    type V = Seq<char>;

    closed spec fn view(&self) -> Seq<char> {
        self.0@
    }
}

impl CommandId {
    pub fn new(raw: String) -> (r: Self)
        ensures
            r@ == raw@,
    {
        CommandId(raw)
    }

    pub fn as_str(&self) -> (r: &str)
        ensures
            r@ == self@,
    {
        self.0.as_str()
    }

    pub fn duplicate(&self) -> (r: Self)
        ensures
            r@ == self@,
    {
        CommandId(self.0.clone())
    }
}

/// Canonical command path such as `apps.list`.
#[derive(Debug, Clone, PartialEq, Eq, Hash)]
pub struct CommandPath(String);

impl View for CommandPath {
    type V = Seq<char>;

    closed spec fn view(&self) -> Seq<char> {
        self.0@
    }
}

impl CommandPath {
    pub fn new(raw: String) -> (r: Self)
        ensures
            r@ == raw@,
    {
        CommandPath(raw)
    }

    pub fn as_str(&self) -> (r: &str)
        ensures
            r@ == self@,
    {
        self.0.as_str()
    }

    pub fn duplicate(&self) -> (r: Self)
        ensures
            r@ == self@,
    {
        CommandPath(self.0.clone())
    }
}

/// Identifier of one command execution within a session.
#[derive(Debug, Clone, Copy, PartialEq, Eq, Hash, Structural)]
pub struct ExecutionId(pub u64);

/// Whether a command is listed by help and completion.
#[derive(Debug, Clone, Copy, PartialEq, Eq, Structural)]
pub enum CommandVisibility {
    Public,
    Hidden,
}

/// Where a registered command applies.
#[derive(Debug, Clone, PartialEq, Eq)]
pub enum CommandScope {
    Global,
    App { app_id: String },
    Window { window_id: u64 },
}

/// One positional argument of a command.
#[derive(Debug, Clone, PartialEq, Eq)]
pub struct CommandArgSpec {
    pub name: String,
    pub summary: String,
    pub required: bool,
    pub repeatable: bool,
}

/// One option flag of a command.
#[derive(Debug, Clone, PartialEq, Eq)]
pub struct CommandOptionSpec {
    pub name: String,
    pub short: Option<char>,
    pub summary: String,
    pub takes_value: bool,
}

/// A usage example shown in help output.
#[derive(Debug, Clone, PartialEq, Eq)]
pub struct CommandExample {
    pub command: String,
    pub summary: String,
}

/// Help text of a command.
#[derive(Debug, Clone, PartialEq, Eq)]
pub struct HelpDoc {
    pub summary: String,
    pub description: Option<String>,
    pub usage: String,
    pub examples: Vec<CommandExample>,
}

/// Full metadata of a registered command.
#[derive(Debug, Clone, PartialEq, Eq)]
pub struct CommandDescriptor {
    pub id: CommandId,
    pub path: CommandPath,
    pub aliases: Vec<String>,
    pub scope: CommandScope,
    pub visibility: CommandVisibility,
    pub args: Vec<CommandArgSpec>,
    pub options: Vec<CommandOptionSpec>,
    pub help: HelpDoc,
}

/// Mathematical view of a command scope.
pub enum ScopeView {
    Global,
    App(Seq<char>),
    Window(u64),
}

impl View for CommandScope {
    type V = ScopeView;

    open spec fn view(&self) -> ScopeView {
        match self {
            CommandScope::Global => ScopeView::Global,
            CommandScope::App { app_id } => ScopeView::App(app_id@),
            CommandScope::Window { window_id } => ScopeView::Window(*window_id),
        }
    }
}

impl CommandScope {
    pub fn duplicate(&self) -> (r: Self)
        ensures
            r@ == self@,
    {
        match self {
            CommandScope::Global => CommandScope::Global,
            CommandScope::App { app_id } => CommandScope::App { app_id: app_id.clone() },
            CommandScope::Window { window_id } => CommandScope::Window { window_id: *window_id },
        }
    }
}

impl View for CommandArgSpec {
    type V = (Seq<char>, Seq<char>, bool, bool);

    open spec fn view(&self) -> (Seq<char>, Seq<char>, bool, bool) {
        (self.name@, self.summary@, self.required, self.repeatable)
    }
}

impl View for CommandOptionSpec {
    type V = (Seq<char>, Option<char>, Seq<char>, bool);

    open spec fn view(&self) -> (Seq<char>, Option<char>, Seq<char>, bool) {
        (self.name@, self.short, self.summary@, self.takes_value)
    }
}

impl View for CommandExample {
    type V = (Seq<char>, Seq<char>);

    open spec fn view(&self) -> (Seq<char>, Seq<char>) {
        (self.command@, self.summary@)
    }
}

pub open spec fn args_view(v: Seq<CommandArgSpec>) -> Seq<(Seq<char>, Seq<char>, bool, bool)> {
    v.map_values(|a: CommandArgSpec| a@)
}

pub open spec fn options_view(v: Seq<CommandOptionSpec>) -> Seq<(Seq<char>, Option<char>, Seq<char>, bool)> {
    v.map_values(|o: CommandOptionSpec| o@)
}

pub open spec fn examples_view(v: Seq<CommandExample>) -> Seq<(Seq<char>, Seq<char>)> {
    v.map_values(|e: CommandExample| e@)
}

/// Mathematical view of help text.
pub struct HelpView {
    pub summary: Seq<char>,
    pub description: Option<Seq<char>>,
    pub usage: Seq<char>,
    pub examples: Seq<(Seq<char>, Seq<char>)>,
}

impl View for HelpDoc {
    type V = HelpView;

    open spec fn view(&self) -> HelpView {
        HelpView {
            summary: self.summary@,
            description: opt_string_view(self.description),
            usage: self.usage@,
            examples: examples_view(self.examples@),
        }
    }
}

/// Mathematical view of command metadata.
pub struct DescriptorView {
    pub id: Seq<char>,
    pub path: Seq<char>,
    pub aliases: Seq<Seq<char>>,
    pub scope: ScopeView,
    pub visibility: CommandVisibility,
    pub args: Seq<(Seq<char>, Seq<char>, bool, bool)>,
    pub options: Seq<(Seq<char>, Option<char>, Seq<char>, bool)>,
    pub help: HelpView,
}

impl View for CommandDescriptor {
    type V = DescriptorView;

    open spec fn view(&self) -> DescriptorView {
        DescriptorView {
            id: self.id@,
            path: self.path@,
            aliases: strings_view(self.aliases@),
            scope: self.scope@,
            visibility: self.visibility,
            args: args_view(self.args@),
            options: options_view(self.options@),
            help: self.help@,
        }
    }
}

impl CommandArgSpec {
    pub fn duplicate(&self) -> (r: Self)
        ensures
            r@ == self@,
    {
        CommandArgSpec {
            name: self.name.clone(),
            summary: self.summary.clone(),
            required: self.required,
            repeatable: self.repeatable,
        }
    }
}

impl CommandOptionSpec {
    pub fn duplicate(&self) -> (r: Self)
        ensures
            r@ == self@,
    {
        CommandOptionSpec {
            name: self.name.clone(),
            short: self.short,
            summary: self.summary.clone(),
            takes_value: self.takes_value,
        }
    }
}

impl CommandExample {
    pub fn duplicate(&self) -> (r: Self)
        ensures
            r@ == self@,
    {
        CommandExample { command: self.command.clone(), summary: self.summary.clone() }
    }
}

fn duplicate_args(v: &Vec<CommandArgSpec>) -> (r: Vec<CommandArgSpec>)
    ensures
        args_view(r@) == args_view(v@),
{
    let mut out: Vec<CommandArgSpec> = Vec::new();
    let mut i: usize = 0;
    while i < v.len()
        invariant
            i <= v@.len(),
            out@.len() == i,
            forall|j: int| 0 <= j < i ==> #[trigger] out@[j]@ == v@[j]@,
        decreases v@.len() - i,
    {
        out.push(v[i].duplicate());
        i = i + 1;
    }
    assert(args_view(out@) =~= args_view(v@));
    out
}

fn duplicate_options(v: &Vec<CommandOptionSpec>) -> (r: Vec<CommandOptionSpec>)
    ensures
        options_view(r@) == options_view(v@),
{
    let mut out: Vec<CommandOptionSpec> = Vec::new();
    let mut i: usize = 0;
    while i < v.len()
        invariant
            i <= v@.len(),
            out@.len() == i,
            forall|j: int| 0 <= j < i ==> #[trigger] out@[j]@ == v@[j]@,
        decreases v@.len() - i,
    {
        out.push(v[i].duplicate());
        i = i + 1;
    }
    assert(options_view(out@) =~= options_view(v@));
    out
}

fn duplicate_examples(v: &Vec<CommandExample>) -> (r: Vec<CommandExample>)
    ensures
        examples_view(r@) == examples_view(v@),
{
    let mut out: Vec<CommandExample> = Vec::new();
    let mut i: usize = 0;
    while i < v.len()
        invariant
            i <= v@.len(),
            out@.len() == i,
            forall|j: int| 0 <= j < i ==> #[trigger] out@[j]@ == v@[j]@,
        decreases v@.len() - i,
    {
        out.push(v[i].duplicate());
        i = i + 1;
    }
    assert(examples_view(out@) =~= examples_view(v@));
    out
}

impl HelpDoc {
    pub fn duplicate(&self) -> (r: Self)
        ensures
            r@ == self@,
    {
        HelpDoc {
            summary: self.summary.clone(),
            description: clone_opt_string(&self.description),
            usage: self.usage.clone(),
            examples: duplicate_examples(&self.examples),
        }
    }
}

impl CommandDescriptor {
    pub fn duplicate(&self) -> (r: Self)
        ensures
            r@ == self@,
    {
        CommandDescriptor {
            id: self.id.duplicate(),
            path: self.path.duplicate(),
            aliases: duplicate_strings(&self.aliases),
            scope: self.scope.duplicate(),
            visibility: self.visibility,
            args: duplicate_args(&self.args),
            options: duplicate_options(&self.options),
            help: self.help.duplicate(),
        }
    }
}

/// A request to complete the command line at the cursor.
#[derive(Debug, Clone, PartialEq, Eq)]
pub struct CompletionRequest {
    pub cwd: String,
    pub line: String,
    pub argv: Vec<String>,
    pub cursor: usize,
    pub source_window_id: Option<u64>,
}

/// One completion candidate.
#[derive(Debug, Clone, PartialEq, Eq)]
pub struct CompletionItem {
    pub value: String,
    pub label: String,
    pub detail: Option<String>,
}

impl View for CompletionItem {
    type V = (Seq<char>, Seq<char>, Option<Seq<char>>);

    open spec fn view(&self) -> (Seq<char>, Seq<char>, Option<Seq<char>>) {
        (self.value@, self.label@, opt_string_view(self.detail))
    }
}

pub open spec fn items_view(v: Seq<CompletionItem>) -> Seq<(Seq<char>, Seq<char>, Option<Seq<char>>)> {
    v.map_values(|c: CompletionItem| c@)
}

/// A command line submitted to a shell session.
#[derive(Debug, Clone, PartialEq, Eq)]
pub struct ShellRequest {
    pub line: String,
    pub cwd: String,
    pub source_window_id: Option<u64>,
}

/// Exit status of a command.
#[derive(Debug, Clone, PartialEq, Eq)]
pub struct ShellExit {
    pub code: i32,
    pub message: Option<String>,
}

impl View for ShellExit {
    type V = (i32, Option<Seq<char>>);

    open spec fn view(&self) -> (i32, Option<Seq<char>>) {
        (self.code, opt_string_view(self.message))
    }
}

pub open spec fn cancelled_message() -> Seq<char> {
    "command cancelled"@
}

impl ShellExit {
    /// Exit code 0 without a message.
    pub fn success() -> (r: Self)
        ensures
            r.code == 0,
            r.message.is_none(),
    {
        ShellExit { code: 0, message: None }
    }

    /// Exit code 130 with the message "command cancelled".
    pub fn cancelled() -> (r: Self)
        ensures
            r.code == 130,
            r.message matches Some(m) && m@ == cancelled_message(),
    {
        ShellExit { code: 130, message: Some(String::from_str("command cancelled")) }
    }
}

/// Summary of one finished execution.
#[derive(Debug, Clone, PartialEq, Eq)]
pub struct ShellExecutionSummary {
    pub execution_id: ExecutionId,
    pub command_path: Option<CommandPath>,
    pub exit: ShellExit,
}

/// Shell error categories.
#[derive(Debug, Clone, Copy, PartialEq, Eq, Structural)]
pub enum ShellErrorCode {
    Usage,
    NotFound,
    Unavailable,
    PermissionDenied,
    Internal,
}

/// The process-style exit code of an error category.
pub open spec fn error_exit_code(code: ShellErrorCode) -> i32 {
    match code {
        ShellErrorCode::Usage => 2,
        ShellErrorCode::NotFound => 3,
        ShellErrorCode::Unavailable => 4,
        ShellErrorCode::PermissionDenied => 4,
        ShellErrorCode::Internal => 5,
    }
}

/// A failed command.
#[derive(Debug, Clone, PartialEq, Eq)]
pub struct ShellError {
    pub code: ShellErrorCode,
    pub message: String,
}

impl ShellError {
    pub fn new(code: ShellErrorCode, message: String) -> (r: Self)
        ensures
            r.code == code,
            r.message@ == message@,
    {
        ShellError { code, message }
    }

    /// Usage errors exit with 2, missing commands with 3, unavailable or
    /// denied ones with 4 and internal failures with 5.
    pub fn exit_code(&self) -> (r: i32)
        ensures
            r == error_exit_code(self.code),
    {
        match self.code {
            ShellErrorCode::Usage => 2,
            ShellErrorCode::NotFound => 3,
            ShellErrorCode::Unavailable | ShellErrorCode::PermissionDenied => 4,
            ShellErrorCode::Internal => 5,
        }
    }
}

/// Token naming one dynamic command registration.
#[derive(Debug, Clone, Copy, PartialEq, Eq, PartialOrd, Ord, Hash, Structural)]
pub struct CommandRegistrationToken(pub u64);

} // verus!
