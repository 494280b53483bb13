//! The shell engine: a registry of dynamically registered commands, command
//! resolution by path, alias and scope, first-token completion, help
//! rendering, and the session state machine that runs one command at a
//! time.

use vstd::prelude::*;
use vstd::string::*;
use crate::model::{saturating_inc, strings_view};
use crate::strings::{str_eq, str_starts_with};
use crate::shell_contract::{
    error_exit_code, cancelled_message, CommandPath, ExecutionId, ShellExecutionSummary, ShellExit,
    items_view, CompletionItem, CompletionRequest,
    CommandDescriptor, CommandRegistrationToken, CommandScope, CommandVisibility, DescriptorView,
    ScopeView,
    ShellError, ShellErrorCode,
};

verus! {

// ---------------------------------------------------------------------
// Registry
// ---------------------------------------------------------------------

/// One registered command. Its handler and completion callback live with
/// the runtime, keyed by the token.
pub struct RegisteredCommand {
    pub token: CommandRegistrationToken,
    pub descriptor: CommandDescriptor,
    pub has_completion: bool,
}

pub struct EntryView {
    pub token: u64,
    pub descriptor: DescriptorView,
    pub has_completion: bool,
}

impl View for RegisteredCommand {
    type V = EntryView;

    open spec fn view(&self) -> EntryView {
        EntryView {
            token: self.token.0,
            descriptor: self.descriptor@,
            has_completion: self.has_completion,
        }
    }
}

pub open spec fn entries_view(v: Seq<RegisteredCommand>) -> Seq<EntryView> {
    v.map_values(|e: RegisteredCommand| e@)
}

pub struct RegistryView {
    pub next_token: u64,
    pub entries: Seq<EntryView>,
}

/// Tokens strictly increase along the entries, and none lies past the last
/// token handed out.
pub open spec fn registry_wf(r: RegistryView) -> bool {
    &&& forall|i: int, j: int|
        0 <= i < j < r.entries.len() ==> (#[trigger] r.entries[i]).token < (#[trigger] r.entries[j]).token
    &&& forall|i: int| 0 <= i < r.entries.len() ==> (#[trigger] r.entries[i]).token <= r.next_token
}

/// The entries after registering `e`: a token already present is replaced,
/// as in a map keyed by token; otherwise `e` is appended.
pub open spec fn insert_entry(es: Seq<EntryView>, e: EntryView) -> Seq<EntryView> {
    if es.len() > 0 && es.last().token == e.token {
        es.update(es.len() - 1, e)
    } else {
        es.push(e)
    }
}

/// The entries without the one registered under `token`, order kept.
pub open spec fn remove_token(es: Seq<EntryView>, token: u64) -> Seq<EntryView>
    decreases es.len(),
{
    if es.len() == 0 {
        es
    } else {
        let rest = remove_token(es.drop_last(), token);
        if es.last().token == token {
            rest
        } else {
            rest.push(es.last())
        }
    }
}

/// Registered commands ordered by token, with the last token handed out.
pub struct CommandRegistry {
    next_token: u64,
    entries: Vec<RegisteredCommand>,
}

impl View for CommandRegistry {
    type V = RegistryView;

    closed spec fn view(&self) -> RegistryView {
        RegistryView { next_token: self.next_token, entries: entries_view(self.entries@) }
    }
}

pub proof fn lemma_remove_token_props(es: Seq<EntryView>, token: u64)
    ensures
        remove_token(es, token).len() <= es.len(),
        forall|i: int|
            0 <= i < remove_token(es, token).len() ==> (#[trigger] remove_token(es, token)[i]).token
                != token,
        forall|i: int|
            0 <= i < remove_token(es, token).len() ==> exists|j: int|
                0 <= j < es.len() && es[j] == #[trigger] remove_token(es, token)[i],
    decreases es.len(),
{
    if es.len() > 0 {
        let d = es.drop_last();
        lemma_remove_token_props(d, token);
        let rest = remove_token(d, token);
        assert forall|i: int| 0 <= i < remove_token(es, token).len() implies exists|j: int|
            0 <= j < es.len() && es[j] == #[trigger] remove_token(es, token)[i] by {
            if i < rest.len() {
                let j = choose|j: int| 0 <= j < d.len() && d[j] == rest[i];
                assert(es[j] == d[j]);
            } else {
                assert(es[es.len() - 1] == es.last());
            }
        }
    }
}

impl CommandRegistry {
    /// The registry invariant.
    pub open spec fn wf(&self) -> bool {
        registry_wf(self@)
    }

    /// An empty registry.
    pub fn new() -> (r: Self)
        ensures
            r.wf(),
            r@.next_token == 0,
            r@.entries.len() == 0,
    {
        let r = CommandRegistry { next_token: 0, entries: Vec::new() };
        assert(r@.entries =~= Seq::<EntryView>::empty());
        r
    }

    /// Registers a command under the next token and returns the token.
    pub fn register(&mut self, descriptor: CommandDescriptor, has_completion: bool) -> (token:
        CommandRegistrationToken)
        requires
            old(self).wf(),
        ensures
            final(self).wf(),
            token.0 == saturating_inc(old(self)@.next_token),
            final(self)@.next_token == token.0,
            final(self)@.entries == insert_entry(
                old(self)@.entries,
                EntryView { token: token.0, descriptor: descriptor@, has_completion },
            ),
    {
        let ghost old_entries = self@.entries;
        self.next_token = self.next_token.saturating_add(1);
        let token = CommandRegistrationToken(self.next_token);
        let entry = RegisteredCommand { token, descriptor, has_completion };
        let ghost e = entry@;
        let n = self.entries.len();
        if n > 0 && self.entries[n - 1].token.0 == token.0 {
            self.entries.set(n - 1, entry);
            proof {
                assert(self@.entries =~= old_entries.update(n - 1, e));
            }
        } else {
            self.entries.push(entry);
            proof {
                assert(self@.entries =~= old_entries.push(e));
                assert forall|i: int| 0 <= i < old_entries.len() implies old_entries[i].token < token.0 by {
                    if old_entries[i].token == token.0 {
                        assert(self.next_token == u64::MAX);
                        if i < n - 1 {
                            assert(old_entries[i].token < old_entries[n - 1].token);
                        }
                    }
                }
            }
        }
        token
    }

    /// Removes the command registered under `token`, when there is one.
    pub fn unregister(&mut self, token: CommandRegistrationToken)
        requires
            old(self).wf(),
        ensures
            final(self).wf(),
            final(self)@.next_token == old(self)@.next_token,
            final(self)@.entries == remove_token(old(self)@.entries, token.0),
    {
        let ghost old_entries = self@.entries;
        let n = self.entries.len();
        let mut i: usize = 0;
        while i < n
            invariant
                n == self.entries@.len(),
                self@.entries == old_entries,
                self@ == old(self)@,
                old(self).wf(),
                i <= n,
                forall|k: int| 0 <= k < i ==> (#[trigger] old_entries[k]).token != token.0,
            decreases n - i,
        {
            if self.entries[i].token.0 == token.0 {
                proof {
                    lemma_remove_unique_token(old_entries, token.0, i as int);
                }
                self.entries.remove(i);
                proof {
                    assert(self@.entries =~= old_entries.remove(i as int));
                    let r = self@.entries;
                    assert forall|a: int, b: int| 0 <= a < b < r.len() implies (#[trigger] r[a]).token
                        < (#[trigger] r[b]).token by {
                        if a >= i {
                            assert(old_entries[a + 1].token < old_entries[b + 1].token);
                        } else if b >= i {
                            assert(old_entries[a].token < old_entries[b + 1].token);
                        }
                    }
                    assert forall|a: int| 0 <= a < r.len() implies (#[trigger] r[a]).token
                        <= self.next_token by {
                        if a >= i {
                            assert(old_entries[a + 1].token <= self.next_token);
                        }
                    }
                }
                return;
            }
            i = i + 1;
        }
        proof {
            lemma_remove_absent_token(old_entries, token.0);
        }
    }

    /// The registered descriptors in token order.
    pub fn descriptors(&self) -> (r: Vec<CommandDescriptor>)
        ensures
            r@.len() == self@.entries.len(),
            forall|i: int| 0 <= i < r@.len() ==> #[trigger] r@[i]@ == self@.entries[i].descriptor,
    {
        let mut out: Vec<CommandDescriptor> = Vec::new();
        let mut i: usize = 0;
        while i < self.entries.len()
            invariant
                i <= self.entries@.len(),
                out@.len() == i,
                forall|j: int| 0 <= j < i ==> #[trigger] out@[j]@ == self@.entries[j].descriptor,
            decreases self.entries@.len() - i,
        {
            out.push(self.entries[i].descriptor.duplicate());
            i = i + 1;
        }
        out
    }

    /// Number of registered commands.
    pub fn len(&self) -> (r: usize)
        ensures
            r == self@.entries.len(),
    {
        self.entries.len()
    }
}

// ---------------------------------------------------------------------
// Resolution
// ---------------------------------------------------------------------

/// A command answers to `t` by its path or by one of its aliases.
pub open spec fn token_matches(d: DescriptorView, t: Seq<char>) -> bool {
    d.path == t || d.aliases.contains(t)
}

/// Narrower scopes win: window 3, app 2, global 1.
pub open spec fn scope_rank(s: ScopeView) -> int {
    match s {
        ScopeView::Window(_) => 3,
        ScopeView::App(_) => 2,
        ScopeView::Global => 1,
    }
}

pub open spec fn entry_rank(e: EntryView) -> int {
    scope_rank(e.descriptor.scope)
}

/// Some registered command answers to `t`.
pub open spec fn has_match(es: Seq<EntryView>, t: Seq<char>) -> bool {
    exists|i: int| 0 <= i < es.len() && token_matches((#[trigger] es[i]).descriptor, t)
}

/// Entry `i` answers to `t` with the narrowest scope among those that do.
pub open spec fn is_top_match(es: Seq<EntryView>, t: Seq<char>, i: int) -> bool {
    &&& 0 <= i < es.len()
    &&& token_matches(es[i].descriptor, t)
    &&& forall|j: int|
        0 <= j < es.len() && token_matches((#[trigger] es[j]).descriptor, t) ==> entry_rank(es[j])
            <= entry_rank(es[i])
}

/// Entry `i` is the one command `t` resolves to.
pub open spec fn resolves_to(es: Seq<EntryView>, t: Seq<char>, i: int) -> bool {
    is_top_match(es, t, i) && forall|j: int| #[trigger] is_top_match(es, t, j) ==> j == i
}

pub open spec fn not_found_message(t: Seq<char>) -> Seq<char> {
    "command not found: "@ + t
}

pub open spec fn ambiguous_message(t: Seq<char>) -> Seq<char> {
    "ambiguous command `"@ + t + "`"@
}

/// What resolving `t` gives: the index of the one narrowest match, a
/// not-found error when nothing matches, and a usage error when several
/// matches share the narrowest scope.
pub open spec fn resolution_ok(es: Seq<EntryView>, t: Seq<char>, r: Result<usize, ShellError>) -> bool {
    match r {
        Ok(i) => resolves_to(es, t, i as int),
        Err(e) => if !has_match(es, t) {
            e.code == ShellErrorCode::NotFound && e.message@ == not_found_message(t)
        } else {
            &&& e.code == ShellErrorCode::Usage
            &&& e.message@ == ambiguous_message(t)
            &&& exists|a: int, b: int| a != b && is_top_match(es, t, a) && is_top_match(es, t, b)
        },
    }
}

fn contains_str(v: &Vec<String>, t: &str) -> (b: bool)
    ensures
        b == strings_view(v@).contains(t@),
{
    let mut i: usize = 0;
    while i < v.len()
        invariant
            i <= v@.len(),
            forall|k: int| 0 <= k < i ==> v@[k]@ != t@,
        decreases v@.len() - i,
    {
        if str_eq(v[i].as_str(), t) {
            assert(strings_view(v@)[i as int] == t@);
            return true;
        }
        i = i + 1;
    }
    proof {
        if strings_view(v@).contains(t@) {
            let k = choose|k: int| 0 <= k < strings_view(v@).len() && strings_view(v@)[k] == t@;
            assert(v@[k]@ == t@);
        }
    }
    false
}

fn matches_token(d: &CommandDescriptor, t: &str) -> (b: bool)
    ensures
        b == token_matches(d@, t@),
{
    str_eq(d.path.as_str(), t) || contains_str(&d.aliases, t)
}

fn rank_of(scope: &CommandScope) -> (r: u8)
    ensures
        r as int == scope_rank(scope@),
{
    match scope {
        CommandScope::Window { .. } => 3,
        CommandScope::App { .. } => 2,
        CommandScope::Global => 1,
    }
}

fn concat3(a: &str, b: &str, c: &str) -> (r: String)
    ensures
        r@ == a@ + b@ + c@,
{
    String::from_str(a).concat(b).concat(c)
}

impl CommandRegistry {
    /// Resolves a command token: the one registered command whose path or
    /// alias is `token` in the narrowest scope that has any.
    pub fn resolve(&self, token: &str) -> (r: Result<usize, ShellError>)
        ensures
            resolution_ok(self@.entries, token@, r),
            r is Ok ==> r->Ok_0 < self@.entries.len(),
    {
        let ghost es = self@.entries;
        let ghost t = token@;
        let n = self.entries.len();
        let mut best: u8 = 0;
        let mut found = false;
        let mut best_at: usize = 0;
        let mut i: usize = 0;
        while i < n
            invariant
                n == es.len(),
                es == self@.entries,
                t == token@,
                i <= n,
                found == exists|k: int| 0 <= k < i && token_matches((#[trigger] es[k]).descriptor, t),
                found ==> best_at < i && token_matches(es[best_at as int].descriptor, t) && best
                    == entry_rank(es[best_at as int]),
                forall|k: int|
                    0 <= k < i && token_matches((#[trigger] es[k]).descriptor, t) ==> entry_rank(es[k])
                        <= best,
                best <= 3,
            decreases n - i,
        {
            assert(self.entries@[i as int]@ == es[i as int]);
            if matches_token(&self.entries[i].descriptor, token) {
                let r = rank_of(&self.entries[i].descriptor.scope);
                if !found || r > best {
                    best = r;
                    best_at = i;
                }
                found = true;
            }
            i = i + 1;
        }
        if !found {
            return Err(ShellError::new(ShellErrorCode::NotFound, String::from_str("command not found: ").concat(token)));
        }
        assert(is_top_match(es, t, best_at as int));
        let mut count: usize = 0;
        let mut first: usize = 0;
        let mut second: usize = 0;
        let mut j: usize = 0;
        while j < n
            invariant
                n == es.len(),
                es == self@.entries,
                t == token@,
                j <= n,
                best_at < n,
                is_top_match(es, t, best_at as int),
                best == entry_rank(es[best_at as int]),
                count <= 2,
                count == 0 ==> forall|k: int| 0 <= k < j ==> !#[trigger] is_top_match(es, t, k),
                count >= 1 ==> first < j && is_top_match(es, t, first as int) && forall|k: int|
                    0 <= k < j && #[trigger] is_top_match(es, t, k) && k != first ==> count == 2,
                count == 2 ==> second < j && second != first && is_top_match(es, t, second as int),
            decreases n - j,
        {
            assert(self.entries@[j as int]@ == es[j as int]);
            if matches_token(&self.entries[j].descriptor, token) && rank_of(
                &self.entries[j].descriptor.scope,
            ) == best {
                assert(is_top_match(es, t, j as int));
                if count == 0 {
                    first = j;
                    count = 1;
                } else if count == 1 {
                    second = j;
                    count = 2;
                }
            } else {
                assert(!is_top_match(es, t, j as int));
            }
            j = j + 1;
        }
        if count == 1 {
            Ok(first)
        } else {
            proof {
                if count == 0 {
                    assert(!is_top_match(es, t, best_at as int));
                }
            }
            Err(ShellError::new(ShellErrorCode::Usage, concat3("ambiguous command `", token, "`")))
        }
    }
}

// ---------------------------------------------------------------------
// Completion
// ---------------------------------------------------------------------

pub open spec fn is_prefix_of(p: Seq<char>, s: Seq<char>) -> bool {
    p.len() <= s.len() && s.subrange(0, p.len() as int) == p
}

/// A completion candidate offering `v`, described by `detail`.
pub open spec fn candidate(v: Seq<char>, detail: Seq<char>) -> (Seq<char>, Seq<char>, Option<Seq<char>>) {
    (v, v, Some(detail))
}

/// Candidates for the aliases that start with `prefix`, in order.
pub open spec fn alias_candidates(aliases: Seq<Seq<char>>, prefix: Seq<char>, detail: Seq<char>) -> Seq<
    (Seq<char>, Seq<char>, Option<Seq<char>>),
>
    decreases aliases.len(),
{
    if aliases.len() == 0 {
        Seq::empty()
    } else {
        let rest = alias_candidates(aliases.drop_last(), prefix, detail);
        if is_prefix_of(prefix, aliases.last()) {
            rest.push(candidate(aliases.last(), detail))
        } else {
            rest
        }
    }
}

/// Candidates one command offers: its path, then its aliases, each when it
/// starts with `prefix`, described by the command's summary.
pub open spec fn command_candidates(d: DescriptorView, prefix: Seq<char>) -> Seq<
    (Seq<char>, Seq<char>, Option<Seq<char>>),
> {
    (if is_prefix_of(prefix, d.path) {
        seq![candidate(d.path, d.help.summary)]
    } else {
        Seq::empty()
    }) + alias_candidates(d.aliases, prefix, d.help.summary)
}

/// Candidates a listed command offers: those of `command_candidates` for a
/// public command, none for a hidden one.
pub open spec fn listed_candidates(d: DescriptorView, prefix: Seq<char>) -> Seq<
    (Seq<char>, Seq<char>, Option<Seq<char>>),
> {
    if d.visibility == CommandVisibility::Public {
        command_candidates(d, prefix)
    } else {
        Seq::empty()
    }
}

/// First-token candidates of all public commands, in registry order;
/// hidden commands are left out of completion.
pub open spec fn first_token_candidates(es: Seq<EntryView>, prefix: Seq<char>) -> Seq<
    (Seq<char>, Seq<char>, Option<Seq<char>>),
>
    decreases es.len(),
{
    if es.len() == 0 {
        Seq::empty()
    } else {
        first_token_candidates(es.drop_last(), prefix) + listed_candidates(es.last().descriptor, prefix)
    }
}

/// The typed first token, or nothing when the line is empty.
pub open spec fn first_token_prefix(argv: Seq<String>) -> Seq<char> {
    if argv.len() >= 1 {
        argv[0]@
    } else {
        Seq::empty()
    }
}

/// What completing a request needs: candidates computed here, or the
/// completion callback registered under a token.
pub enum CompletionPlan {
    Items(Vec<CompletionItem>),
    Delegate(CommandRegistrationToken),
}

fn push_candidate(items: &mut Vec<CompletionItem>, v: &str, detail: &str)
    ensures
        items_view(final(items)@) == items_view(old(items)@).push(candidate(v@, detail@)),
{
    items.push(CompletionItem {
        value: String::from_str(v),
        label: String::from_str(v),
        detail: Some(String::from_str(detail)),
    });
    assert(items_view(items@) =~= items_view(old(items)@).push(candidate(v@, detail@)));
}

fn add_command_candidates(items: &mut Vec<CompletionItem>, d: &CommandDescriptor, prefix: &str)
    ensures
        items_view(final(items)@) == items_view(old(items)@) + command_candidates(d@, prefix@),
{
    let ghost start = items_view(items@);
    let summary = d.help.summary.as_str();
    if str_starts_with(d.path.as_str(), prefix) {
        push_candidate(items, d.path.as_str(), summary);
    }
    let ghost head = items_view(items@);
    proof {
        assert(head == start + (if is_prefix_of(prefix@, d@.path) {
            seq![candidate(d@.path, d@.help.summary)]
        } else {
            Seq::empty()
        }));
    }
    let ghost aliases = strings_view(d.aliases@);
    let mut i: usize = 0;
    assert(aliases.take(0) =~= Seq::<Seq<char>>::empty());
    while i < d.aliases.len()
        invariant
            aliases == strings_view(d.aliases@),
            i <= d.aliases@.len(),
            summary@ == d@.help.summary,
            items_view(items@) == head + alias_candidates(aliases.take(i as int), prefix@, d@.help.summary),
        decreases d.aliases@.len() - i,
    {
        let ghost pre = items_view(items@);
        let alias = d.aliases[i].as_str();
        proof {
            assert(aliases.take(i + 1).drop_last() =~= aliases.take(i as int));
            assert(aliases.take(i + 1).last() == alias@);
        }
        if str_starts_with(alias, prefix) {
            push_candidate(items, alias, summary);
            assert(items_view(items@) =~= head + alias_candidates(aliases.take(i + 1), prefix@, d@.help.summary));
        }
        i = i + 1;
    }
    assert(aliases.take(i as int) =~= aliases);
    assert(items_view(items@) =~= start + command_candidates(d@, prefix@));
}

impl CommandRegistry {
    /// Candidates for the first token of a line: every path and alias of a
    /// public command that starts with `prefix`, in registry order.
    pub fn first_token_completions(&self, prefix: &str) -> (r: Vec<CompletionItem>)
        ensures
            items_view(r@) == first_token_candidates(self@.entries, prefix@),
    {
        let ghost es = self@.entries;
        let mut items: Vec<CompletionItem> = Vec::new();
        let mut i: usize = 0;
        assert(items_view(items@) =~= Seq::<(Seq<char>, Seq<char>, Option<Seq<char>>)>::empty());
        assert(es.take(0) =~= Seq::<EntryView>::empty());
        while i < self.entries.len()
            invariant
                es == self@.entries,
                i <= es.len(),
                items_view(items@) == first_token_candidates(es.take(i as int), prefix@),
            decreases es.len() - i,
        {
            proof {
                assert(es.take(i + 1).drop_last() =~= es.take(i as int));
                assert(es.take(i + 1).last() == self.entries@[i as int]@);
            }
            if self.entries[i].descriptor.visibility == CommandVisibility::Public {
                add_command_candidates(&mut items, &self.entries[i].descriptor, prefix);
            } else {
                assert(items_view(items@) =~= items_view(items@) + listed_candidates(
                    self.entries@[i as int]@.descriptor,
                    prefix@,
                ));
            }
            i = i + 1;
        }
        assert(es.take(i as int) =~= es);
        items
    }

    /// Completion for a request: candidates for the first token when the
    /// line has at most one; otherwise the completion callback of the
    /// command the first token resolves to, or nothing when it has none.
    pub fn complete(&self, request: &CompletionRequest) -> (r: Result<CompletionPlan, ShellError>)
        ensures
            request.argv@.len() <= 1 ==> (r matches Ok(CompletionPlan::Items(v)) && items_view(v@)
                == first_token_candidates(self@.entries, first_token_prefix(request.argv@))),
            request.argv@.len() > 1 ==> match r {
                Ok(CompletionPlan::Items(v)) => v@.len() == 0 && exists|i: int|
                    resolves_to(self@.entries, request.argv@[0]@, i) && !self@.entries[i].has_completion,
                Ok(CompletionPlan::Delegate(tok)) => exists|i: int|
                    resolves_to(self@.entries, request.argv@[0]@, i) && self@.entries[i].has_completion
                        && self@.entries[i].token == tok.0,
                Err(e) => resolution_ok(self@.entries, request.argv@[0]@, Err(e)),
            },
    {
        if request.argv.len() <= 1 {
            let items = if request.argv.len() == 1 {
                self.first_token_completions(request.argv[0].as_str())
            } else {
                self.first_token_completions("")
            };
            proof {
                if request.argv@.len() == 0 {
                    reveal_strlit("");
                    assert(""@ =~= Seq::<char>::empty());
                }
            }
            return Ok(CompletionPlan::Items(items));
        }
        match self.resolve(request.argv[0].as_str()) {
            Ok(i) => {
                assert(self.entries@[i as int]@ == self@.entries[i as int]);
                if self.entries[i].has_completion {
                    Ok(CompletionPlan::Delegate(self.entries[i].token))
                } else {
                    Ok(CompletionPlan::Items(Vec::new()))
                }
            },
            Err(e) => Err(e),
        }
    }
}

// ---------------------------------------------------------------------
// Help rendering
// ---------------------------------------------------------------------

/// `parts` joined with `sep` between neighbours.
pub open spec fn join_with(parts: Seq<Seq<char>>, sep: Seq<char>) -> Seq<char>
    decreases parts.len(),
{
    if parts.len() == 0 {
        Seq::empty()
    } else if parts.len() == 1 {
        parts[0]
    } else {
        join_with(parts.drop_last(), sep) + sep + parts.last()
    }
}

pub open spec fn arg_line(a: (Seq<char>, Seq<char>, bool, bool)) -> Seq<char> {
    "  "@ + a.0 + " - "@ + a.1
}

pub open spec fn short_flag(short: Option<char>) -> Seq<char> {
    match short {
        Some(c) => "-"@ + seq![c] + ", "@,
        None => Seq::empty(),
    }
}

pub open spec fn option_line(o: (Seq<char>, Option<char>, Seq<char>, bool)) -> Seq<char> {
    "  "@ + short_flag(o.1) + "--"@ + o.0 + " - "@ + o.2
}

pub open spec fn example_line(e: (Seq<char>, Seq<char>)) -> Seq<char> {
    "  "@ + e.0 + "  # "@ + e.1
}

/// A titled section: the title line, then one line per item; nothing when
/// there are no items.
pub open spec fn section(title: Seq<char>, lines: Seq<Seq<char>>) -> Seq<Seq<char>> {
    if lines.len() > 0 {
        seq![title] + lines
    } else {
        Seq::empty()
    }
}

/// The lines of a command's help: path, summary, usage, then aliases,
/// arguments, options and examples when there are any.
pub open spec fn help_lines(d: DescriptorView) -> Seq<Seq<char>> {
    seq![d.path, d.help.summary, "Usage: "@ + d.help.usage] + (if d.aliases.len() > 0 {
        seq!["Aliases: "@ + join_with(d.aliases, ", "@)]
    } else {
        Seq::empty()
    }) + section("Arguments:"@, d.args.map_values(|a| arg_line(a))) + section(
        "Options:"@,
        d.options.map_values(|o| option_line(o)),
    ) + section("Examples:"@, d.help.examples.map_values(|e| example_line(e)))
}

/// The help text of a command: its help lines joined by newlines.
pub open spec fn help_text(d: DescriptorView) -> Seq<char> {
    join_with(help_lines(d), "\n"@)
}

/// `parts` joined with `sep`.
pub fn join_strings(parts: &Vec<String>, sep: &str) -> (r: String)
    ensures
        r@ == join_with(strings_view(parts@), sep@),
{
    let ghost sv = strings_view(parts@);
    if parts.len() == 0 {
        return String::new();
    }
    let mut out = parts[0].clone();
    let mut i: usize = 1;
    assert(sv.take(1).drop_last().len() == 0);
    assert(join_with(sv.take(1), sep@) == sv[0]);
    while i < parts.len()
        invariant
            sv == strings_view(parts@),
            1 <= i <= parts@.len(),
            out@ == join_with(sv.take(i as int), sep@),
        decreases parts@.len() - i,
    {
        proof {
            assert(sv.take(i + 1).drop_last() =~= sv.take(i as int));
            assert(sv.take(i + 1).last() == parts@[i as int]@);
        }
        out = out.concat(sep).concat(parts[i].as_str());
        i = i + 1;
    }
    assert(sv.take(i as int) =~= sv);
    out
}

fn push_line(lines: &mut Vec<String>, line: String)
    ensures
        strings_view(final(lines)@) == strings_view(old(lines)@).push(line@),
{
    lines.push(line);
    assert(strings_view(lines@) =~= strings_view(old(lines)@).push(line@));
}

/// The rendered help text of a command.
pub fn render_help(d: &CommandDescriptor) -> (r: String)
    ensures
        r@ == help_text(d@),
{
    let ghost dv = d@;
    let mut lines: Vec<String> = Vec::new();
    push_line(&mut lines, String::from_str(d.path.as_str()));
    push_line(&mut lines, d.help.summary.clone());
    push_line(&mut lines, String::from_str("Usage: ").concat(d.help.usage.as_str()));
    assert(strings_view(lines@) =~= seq![dv.path, dv.help.summary, "Usage: "@ + dv.help.usage]);
    let ghost base = strings_view(lines@);
    if d.aliases.len() > 0 {
        let joined = join_strings(&d.aliases, ", ");
        push_line(&mut lines, String::from_str("Aliases: ").concat(joined.as_str()));
    }
    let ghost with_aliases = strings_view(lines@);
    assert(with_aliases =~= base + (if dv.aliases.len() > 0 {
        seq!["Aliases: "@ + join_with(dv.aliases, ", "@)]
    } else {
        Seq::empty()
    }));
    if d.args.len() > 0 {
        push_line(&mut lines, String::from_str("Arguments:"));
        let mut i: usize = 0;
        while i < d.args.len()
            invariant
                dv == d@,
                i <= d.args@.len(),
                d.args@.len() > 0,
                strings_view(lines@) == with_aliases + seq!["Arguments:"@] + dv.args.take(i as int).map_values(|a| arg_line(a)),
            decreases d.args@.len() - i,
        {
            let a = &d.args[i];
            let line = String::from_str("  ").concat(a.name.as_str()).concat(" - ").concat(a.summary.as_str());
            proof {
                assert(dv.args[i as int] == a@);
            }
            push_line(&mut lines, line);
            assert(dv.args.take(i + 1).map_values(|a| arg_line(a)) =~= dv.args.take(i as int).map_values(|a| arg_line(a)).push(arg_line(dv.args[i as int])));
            i = i + 1;
        }
        assert(dv.args.take(i as int) =~= dv.args);
    }
    let ghost with_args = strings_view(lines@);
    assert(with_args =~= with_aliases + section("Arguments:"@, dv.args.map_values(|a| arg_line(a))));
    if d.options.len() > 0 {
        push_line(&mut lines, String::from_str("Options:"));
        let mut i: usize = 0;
        while i < d.options.len()
            invariant
                dv == d@,
                i <= d.options@.len(),
                d.options@.len() > 0,
                strings_view(lines@) == with_args + seq!["Options:"@] + dv.options.take(i as int).map_values(|o| option_line(o)),
            decreases d.options@.len() - i,
        {
            let o = &d.options[i];
            let mut line = String::from_str("  ");
            match o.short {
                Some(c) => {
                    line = line.concat("-");
                    line.push(c);
                    line = line.concat(", ");
                },
                None => {},
            }
            line = line.concat("--").concat(o.name.as_str()).concat(" - ").concat(o.summary.as_str());
            proof {
                assert(dv.options[i as int] == o@);
                assert(line@ =~= option_line(o@));
            }
            push_line(&mut lines, line);
            assert(dv.options.take(i + 1).map_values(|o| option_line(o)) =~= dv.options.take(i as int).map_values(|o| option_line(o)).push(option_line(dv.options[i as int])));
            i = i + 1;
        }
        assert(dv.options.take(i as int) =~= dv.options);
    }
    let ghost with_options = strings_view(lines@);
    assert(with_options =~= with_args + section("Options:"@, dv.options.map_values(|o| option_line(o))));
    if d.help.examples.len() > 0 {
        push_line(&mut lines, String::from_str("Examples:"));
        let mut i: usize = 0;
        while i < d.help.examples.len()
            invariant
                dv == d@,
                i <= d.help.examples@.len(),
                d.help.examples@.len() > 0,
                strings_view(lines@) == with_options + seq!["Examples:"@] + dv.help.examples.take(i as int).map_values(|e| example_line(e)),
            decreases d.help.examples@.len() - i,
        {
            let e = &d.help.examples[i];
            let line = String::from_str("  ").concat(e.command.as_str()).concat("  # ").concat(e.summary.as_str());
            proof {
                assert(dv.help.examples[i as int] == e@);
            }
            push_line(&mut lines, line);
            assert(dv.help.examples.take(i + 1).map_values(|e| example_line(e)) =~= dv.help.examples.take(i as int).map_values(|e| example_line(e)).push(example_line(dv.help.examples[i as int])));
            i = i + 1;
        }
        assert(dv.help.examples.take(i as int) =~= dv.help.examples);
    }
    assert(strings_view(lines@) =~= help_lines(dv));
    join_strings(&lines, "\n")
}

// ---------------------------------------------------------------------
// Sessions
// ---------------------------------------------------------------------

/// Events the engine writes to a session's stream.
pub enum SessionEvent {
    Started { execution_id: ExecutionId },
    StdoutChunk { execution_id: ExecutionId, text: String },
    StderrChunk { execution_id: ExecutionId, text: String },
    Status { execution_id: ExecutionId, text: String },
    Completed { summary: ShellExecutionSummary },
    Cancelled { execution_id: ExecutionId },
}

/// An exit status as code and optional message.
pub type ExitView = (i32, Option<Seq<char>>);

pub enum EventView {
    Started(u64),
    Stdout(u64, Seq<char>),
    Stderr(u64, Seq<char>),
    Status(u64, Seq<char>),
    Completed(u64, Option<Seq<char>>, ExitView),
    Cancelled(u64),
}

impl View for SessionEvent {
    type V = EventView;

    open spec fn view(&self) -> EventView {
        match self {
            SessionEvent::Started { execution_id } => EventView::Started(execution_id.0),
            SessionEvent::StdoutChunk { execution_id, text } => EventView::Stdout(execution_id.0, text@),
            SessionEvent::StderrChunk { execution_id, text } => EventView::Stderr(execution_id.0, text@),
            SessionEvent::Status { execution_id, text } => EventView::Status(execution_id.0, text@),
            SessionEvent::Completed { summary } => EventView::Completed(
                summary.execution_id.0,
                match summary.command_path {
                    Some(p) => Some(p@),
                    None => None,
                },
                summary.exit@,
            ),
            SessionEvent::Cancelled { execution_id } => EventView::Cancelled(execution_id.0),
        }
    }
}

pub open spec fn events_view(v: Seq<SessionEvent>) -> Seq<EventView> {
    v.map_values(|e: SessionEvent| e@)
}

/// What the line parser reports for one submitted line.
pub struct ParsedLine {
    pub argv: Vec<String>,
    pub wants_help: bool,
    pub is_empty: bool,
}

pub struct ParsedView {
    pub argv: Seq<Seq<char>>,
    pub wants_help: bool,
    pub is_empty: bool,
}

impl View for ParsedLine {
    type V = ParsedView;

    open spec fn view(&self) -> ParsedView {
        ParsedView { argv: strings_view(self.argv@), wants_help: self.wants_help, is_empty: self.is_empty }
    }
}

pub open spec fn parsed_view(p: Result<ParsedLine, String>) -> Result<ParsedView, Seq<char>> {
    match p {
        Ok(l) => Ok(l@),
        Err(m) => Err(m@),
    }
}

/// The command a session is running.
pub struct ActiveRun {
    pub execution_id: ExecutionId,
    pub command_path: CommandPath,
    pub cancel_requested: bool,
}

pub struct RunView {
    pub execution_id: u64,
    pub command_path: Seq<char>,
    pub cancel_requested: bool,
}

pub struct SessionView {
    pub cwd: Seq<char>,
    pub next_execution_id: u64,
    pub active: Option<RunView>,
}

/// A shell session: its working directory, the last execution id it
/// handed out, and the command it is running, if any.
pub struct ShellSession {
    cwd: String,
    next_execution_id: u64,
    active: Option<ActiveRun>,
}

impl View for ShellSession {
    type V = SessionView;

    closed spec fn view(&self) -> SessionView {
        SessionView {
            cwd: self.cwd@,
            next_execution_id: self.next_execution_id,
            active: match self.active {
                Some(r) => Some(
                    RunView {
                        execution_id: r.execution_id.0,
                        command_path: r.command_path@,
                        cancel_requested: r.cancel_requested,
                    },
                ),
                None => None,
            },
        }
    }
}

/// What a submission asks the runtime to do next: nothing, or run the
/// handler registered under `token` for execution `execution_id`.
pub enum SubmitPlan {
    Done,
    Run { execution_id: ExecutionId, token: CommandRegistrationToken, argv: Vec<String> },
}

pub enum PlanView {
    Done,
    Run(u64, u64, Seq<Seq<char>>),
}

impl View for SubmitPlan {
    type V = PlanView;

    open spec fn view(&self) -> PlanView {
        match self {
            SubmitPlan::Done => PlanView::Done,
            SubmitPlan::Run { execution_id, token, argv } => PlanView::Run(
                execution_id.0,
                token.0,
                strings_view(argv@),
            ),
        }
    }
}

pub open spec fn busy_message() -> Seq<char> {
    "another command is already running"@
}

/// The events of a run that fails before any handler runs.
pub open spec fn failed_run(id: u64, path: Option<Seq<char>>, code: i32, msg: Seq<char>) -> Seq<EventView> {
    seq![
        EventView::Started(id),
        EventView::Stderr(id, msg),
        EventView::Completed(id, path, (code, Some(msg))),
    ]
}

/// The one entry `t` resolves to, when there is one.
pub open spec fn resolved(es: Seq<EntryView>, t: Seq<char>) -> int {
    choose|i: int| resolves_to(es, t, i)
}

pub open spec fn resolution_error(es: Seq<EntryView>, t: Seq<char>) -> (i32, Seq<char>) {
    if !has_match(es, t) {
        (error_exit_code(ShellErrorCode::NotFound), not_found_message(t))
    } else {
        (error_exit_code(ShellErrorCode::Usage), ambiguous_message(t))
    }
}

/// What submitting a parsed line does to a session: a busy session only
/// reports that it is busy; a parse error and an unresolvable command each
/// end a fresh execution with an error; an empty line does nothing; a help
/// request prints the command's help; otherwise the command starts and its
/// handler is to run.
pub open spec fn submit_spec(s: SessionView, es: Seq<EntryView>, parsed: Result<ParsedView, Seq<char>>) -> (
    SessionView,
    Seq<EventView>,
    PlanView,
) {
    let id = saturating_inc(s.next_execution_id);
    let started = SessionView { next_execution_id: id, ..s };
    if s.active is Some {
        (s, seq![EventView::Status(0, busy_message())], PlanView::Done)
    } else {
        match parsed {
            Err(msg) => (started, failed_run(id, None, 2, msg), PlanView::Done),
            Ok(p) => if p.is_empty {
                (s, Seq::empty(), PlanView::Done)
            } else {
                let t = p.argv[0];
                if !(exists|i: int| resolves_to(es, t, i)) {
                    let (code, msg) = resolution_error(es, t);
                    (started, failed_run(id, None, code, msg), PlanView::Done)
                } else {
                    let e = es[resolved(es, t)];
                    let path = e.descriptor.path;
                    if p.wants_help && t != "help"@ {
                        (
                            started,
                            seq![
                                EventView::Started(id),
                                EventView::Stdout(id, help_text(e.descriptor)),
                                EventView::Completed(id, Some(path), (0, None)),
                            ],
                            PlanView::Done,
                        )
                    } else {
                        (
                            SessionView {
                                active: Some(
                                    RunView { execution_id: id, command_path: path, cancel_requested: false },
                                ),
                                ..started
                            },
                            seq![EventView::Started(id)],
                            PlanView::Run(id, e.token, p.argv),
                        )
                    }
                }
            },
        }
    }
}

/// What finishing the running command reports: a cancelled run ends with
/// a cancellation and exit 130; otherwise the handler's exit, or its
/// error on stderr with the error's exit code.
pub open spec fn finish_spec(r: RunView, result: Result<ExitView, (i32, Seq<char>)>) -> Seq<EventView> {
    let id = r.execution_id;
    let path = Some(r.command_path);
    if r.cancel_requested {
        seq![EventView::Cancelled(id), EventView::Completed(id, path, (130, Some(cancelled_message())))]
    } else {
        match result {
            Ok(exit) => seq![EventView::Completed(id, path, exit)],
            Err((code, msg)) => seq![EventView::Stderr(id, msg), EventView::Completed(id, path, (code, Some(msg)))],
        }
    }
}

pub open spec fn result_view(r: Result<ShellExit, ShellError>) -> Result<ExitView, (i32, Seq<char>)> {
    match r {
        Ok(exit) => Ok(exit@),
        Err(e) => Err((error_exit_code(e.code), e.message@)),
    }
}

fn failed_run_events(id: ExecutionId, path: Option<CommandPath>, code: i32, msg: String) -> (r: Vec<
    SessionEvent,
>)
    ensures
        events_view(r@) == failed_run(
            id.0,
            match path {
                Some(p) => Some(p@),
                None => None,
            },
            code,
            msg@,
        ),
{
    let mut v: Vec<SessionEvent> = Vec::new();
    v.push(SessionEvent::Started { execution_id: id });
    v.push(SessionEvent::StderrChunk { execution_id: id, text: msg.clone() });
    v.push(
        SessionEvent::Completed {
            summary: ShellExecutionSummary { execution_id: id, command_path: path, exit: ShellExit { code, message: Some(msg) } },
        },
    );
    assert(events_view(v@) =~= failed_run(
        id.0,
        match path {
            Some(p) => Some(p@),
            None => None,
        },
        code,
        msg@,
    ));
    v
}

impl ShellSession {
    /// An idle session rooted at `cwd`.
    pub fn new(cwd: String) -> (r: Self)
        ensures
            r@.cwd == cwd@,
            r@.next_execution_id == 0,
            r@.active is None,
    {
        ShellSession { cwd, next_execution_id: 0, active: None }
    }

    /// The working directory.
    pub fn cwd(&self) -> (r: &str)
        ensures
            r@ == self@.cwd,
    {
        self.cwd.as_str()
    }

    /// Changes the working directory.
    pub fn set_cwd(&mut self, cwd: String)
        ensures
            final(self)@ == (SessionView { cwd: cwd@, ..old(self)@ }),
    {
        self.cwd = cwd;
    }

    /// The execution that is running, if any.
    pub fn active_execution(&self) -> (r: Option<ExecutionId>)
        ensures
            match self@.active {
                Some(run) => r == Some(ExecutionId(run.execution_id)),
                None => r is None,
            },
    {
        match &self.active {
            Some(run) => Some(run.execution_id),
            None => None,
        }
    }

    /// Asks the running command, if any, to stop.
    pub fn cancel(&mut self)
        ensures
            final(self)@ == (match old(self)@.active {
                Some(run) => SessionView {
                    active: Some(RunView { cancel_requested: true, ..run }),
                    ..old(self)@
                },
                None => old(self)@,
            }),
    {
        match &mut self.active {
            Some(run) => {
                run.cancel_requested = true;
            },
            None => {},
        }
    }

    /// Submits a parsed command line; returns the events to append to the
    /// stream and whether a handler is to run.
    pub fn submit(&mut self, registry: &CommandRegistry, parsed: Result<ParsedLine, String>) -> (r: (
        Vec<SessionEvent>,
        SubmitPlan,
    ))
        requires
            parsed matches Ok(p) ==> (!p.is_empty ==> p.argv@.len() >= 1),
        ensures
            (final(self)@, events_view(r.0@), r.1@) == submit_spec(
                old(self)@,
                registry@.entries,
                parsed_view(parsed),
            ),
    {
        let ghost s0 = self@;
        let ghost es = registry@.entries;
        if self.active.is_some() {
            let mut v: Vec<SessionEvent> = Vec::new();
            v.push(
                SessionEvent::Status {
                    execution_id: ExecutionId(0),
                    text: String::from_str("another command is already running"),
                },
            );
            assert(events_view(v@) =~= seq![EventView::Status(0, busy_message())]);
            return (v, SubmitPlan::Done);
        }
        let line = match parsed {
            Err(msg) => {
                self.next_execution_id = self.next_execution_id.saturating_add(1);
                let id = ExecutionId(self.next_execution_id);
                let v = failed_run_events(id, None, 2, msg);
                return (v, SubmitPlan::Done);
            },
            Ok(line) => line,
        };
        if line.is_empty {
            let v: Vec<SessionEvent> = Vec::new();
            assert(events_view(v@) =~= Seq::<EventView>::empty());
            return (v, SubmitPlan::Done);
        }
        self.next_execution_id = self.next_execution_id.saturating_add(1);
        let id = ExecutionId(self.next_execution_id);
        let ghost t = line@.argv[0];
        assert(line.argv@[0]@ == t);
        match registry.resolve(line.argv[0].as_str()) {
            Err(e) => {
                proof {
                    if exists|i: int| resolves_to(es, t, i) {
                        let i = choose|i: int| resolves_to(es, t, i);
                        if has_match(es, t) {
                            let (a, b) = choose|a: int, b: int| a != b && is_top_match(es, t, a) && is_top_match(es, t, b);
                            assert(a == i && b == i);
                        }
                    }
                }
                let code = e.exit_code();
                let v = failed_run_events(id, None, code, e.message);
                (v, SubmitPlan::Done)
            },
            Ok(i) => {
                proof {
                    let k = resolved(es, t);
                    assert(resolves_to(es, t, i as int));
                    assert(k == i);
                }
                let entry = &registry.entries[i];
                assert(entry@ == es[i as int]);
                let path = entry.descriptor.path.duplicate();
                if line.wants_help && !str_eq(line.argv[0].as_str(), "help") {
                    let help = render_help(&entry.descriptor);
                    let mut v: Vec<SessionEvent> = Vec::new();
                    v.push(SessionEvent::Started { execution_id: id });
                    v.push(SessionEvent::StdoutChunk { execution_id: id, text: help });
                    v.push(
                        SessionEvent::Completed {
                            summary: ShellExecutionSummary {
                                execution_id: id,
                                command_path: Some(path),
                                exit: ShellExit::success(),
                            },
                        },
                    );
                    assert(events_view(v@) =~= seq![
                        EventView::Started(id.0),
                        EventView::Stdout(id.0, help_text(es[i as int].descriptor)),
                        EventView::Completed(id.0, Some(es[i as int].descriptor.path), (0, None)),
                    ]);
                    (v, SubmitPlan::Done)
                } else {
                    let token = entry.token;
                    self.active = Some(ActiveRun { execution_id: id, command_path: path, cancel_requested: false });
                    let mut v: Vec<SessionEvent> = Vec::new();
                    v.push(SessionEvent::Started { execution_id: id });
                    assert(events_view(v@) =~= seq![EventView::Started(id.0)]);
                    (v, SubmitPlan::Run { execution_id: id, token, argv: line.argv })
                }
            },
        }
    }

    /// Ends the running command with the handler's result; returns the
    /// events that close its execution.
    pub fn finish(&mut self, result: Result<ShellExit, ShellError>) -> (r: Vec<SessionEvent>)
        requires
            old(self)@.active is Some,
        ensures
            events_view(r@) == finish_spec(old(self)@.active->0, result_view(result)),
            final(self)@ == (SessionView { active: None, ..old(self)@ }),
    {
        let run = self.active.take().unwrap();
        let id = run.execution_id;
        let mut v: Vec<SessionEvent> = Vec::new();
        if run.cancel_requested {
            v.push(SessionEvent::Cancelled { execution_id: id });
            v.push(
                SessionEvent::Completed {
                    summary: ShellExecutionSummary {
                        execution_id: id,
                        command_path: Some(run.command_path),
                        exit: ShellExit::cancelled(),
                    },
                },
            );
        } else {
            match result {
                Ok(exit) => {
                    v.push(
                        SessionEvent::Completed {
                            summary: ShellExecutionSummary {
                                execution_id: id,
                                command_path: Some(run.command_path),
                                exit,
                            },
                        },
                    );
                },
                Err(e) => {
                    let code = e.exit_code();
                    v.push(SessionEvent::StderrChunk { execution_id: id, text: e.message.clone() });
                    v.push(
                        SessionEvent::Completed {
                            summary: ShellExecutionSummary {
                                execution_id: id,
                                command_path: Some(run.command_path),
                                exit: ShellExit { code, message: Some(e.message) },
                            },
                        },
                    );
                },
            }
        }
        assert(events_view(v@) =~= finish_spec(old(self)@.active->0, result_view(result)));
        v
    }
}

// ---------------------------------------------------------------------
// Engine and registration handles
// ---------------------------------------------------------------------

/// Keeps a dynamic registration alive until it is unregistered, which
/// happens at most once.
pub struct CommandRegistryHandle {
    token: CommandRegistrationToken,
    active: bool,
}

impl CommandRegistryHandle {
    pub closed spec fn token_of(self) -> u64 {
        self.token.0
    }

    pub closed spec fn live(self) -> bool {
        self.active
    }

    /// The token of the registration.
    pub fn token(&self) -> (r: CommandRegistrationToken)
        ensures
            r.0 == self.token_of(),
    {
        self.token
    }

    /// Removes the registration from `registry` the first time it is
    /// called; later calls do nothing.
    pub fn unregister(&mut self, registry: &mut CommandRegistry)
        requires
            old(registry).wf(),
        ensures
            final(registry).wf(),
            !final(self).live(),
            final(self).token_of() == old(self).token_of(),
            final(registry)@ == (if old(self).live() {
                RegistryView {
                    entries: remove_token(old(registry)@.entries, old(self).token_of()),
                    ..old(registry)@
                }
            } else {
                old(registry)@
            }),
    {
        if self.active {
            self.active = false;
            registry.unregister(self.token);
        }
    }
}

/// The shell engine: the command registry that its sessions resolve
/// against.
pub struct ShellEngine {
    registry: CommandRegistry,
}

impl ShellEngine {
    pub closed spec fn registry_view(&self) -> RegistryView {
        self.registry@
    }

    pub open spec fn wf(&self) -> bool {
        registry_wf(self.registry_view())
    }

    /// An engine with no commands.
    pub fn new() -> (r: Self)
        ensures
            r.wf(),
            r.registry_view().entries.len() == 0,
            r.registry_view().next_token == 0,
    {
        ShellEngine { registry: CommandRegistry::new() }
    }

    /// The engine's registry.
    pub fn registry(&self) -> (r: &CommandRegistry)
        ensures
            r@ == self.registry_view(),
    {
        &self.registry
    }

    /// The registered descriptors in registration order.
    pub fn descriptors(&self) -> (r: Vec<CommandDescriptor>)
        ensures
            r@.len() == self.registry_view().entries.len(),
            forall|i: int| 0 <= i < r@.len() ==> #[trigger] r@[i]@ == self.registry_view().entries[i].descriptor,
    {
        self.registry.descriptors()
    }

    /// Registers a command and returns the live handle that removes it.
    pub fn register_command(&mut self, descriptor: CommandDescriptor, has_completion: bool) -> (h:
        CommandRegistryHandle)
        requires
            old(self).wf(),
        ensures
            final(self).wf(),
            h.live(),
            h.token_of() == saturating_inc(old(self).registry_view().next_token),
            final(self).registry_view().next_token == h.token_of(),
            final(self).registry_view().entries == insert_entry(
                old(self).registry_view().entries,
                EntryView { token: h.token_of(), descriptor: descriptor@, has_completion },
            ),
    {
        let token = self.registry.register(descriptor, has_completion);
        CommandRegistryHandle { token, active: true }
    }

    /// Ends a registration made through this engine.
    pub fn unregister(&mut self, handle: &mut CommandRegistryHandle)
        requires
            old(self).wf(),
        ensures
            final(self).wf(),
            !final(handle).live(),
            final(self).registry_view() == (if old(handle).live() {
                RegistryView {
                    entries: remove_token(old(self).registry_view().entries, old(handle).token_of()),
                    ..old(self).registry_view()
                }
            } else {
                old(self).registry_view()
            }),
    {
        handle.unregister(&mut self.registry);
    }

    /// A new idle session rooted at `cwd`.
    pub fn new_session(&self, cwd: String) -> (r: ShellSession)
        ensures
            r@.cwd == cwd@,
            r@.next_execution_id == 0,
            r@.active is None,
    {
        ShellSession::new(cwd)
    }
}

// ---------------------------------------------------------------------
// Laws
// ---------------------------------------------------------------------

/// Registering a command under a fresh token and then unregistering that
/// token gives back the registry's commands as they were.
pub proof fn law_register_then_unregister_restores(r: RegistryView, e: EntryView)
    requires
        registry_wf(r),
        r.next_token < u64::MAX,
        e.token == r.next_token + 1,
    ensures
        remove_token(insert_entry(r.entries, e), e.token) == r.entries,
{
    let es = r.entries;
    assert forall|k: int| 0 <= k < es.len() implies (#[trigger] es[k]).token != e.token by {
        assert(es[k].token <= r.next_token);
    }
    if es.len() > 0 {
        assert(es.last() == es[es.len() - 1]);
    }
    assert(insert_entry(es, e) == es.push(e));
    assert(es.push(e).drop_last() =~= es);
    lemma_remove_absent_token(es, e.token);
}

/// Every first-token candidate offers a command path or alias that starts
/// with the typed prefix, under the same text as its label.
pub proof fn law_candidates_start_with_prefix(es: Seq<EntryView>, prefix: Seq<char>)
    ensures
        forall|k: int|
            0 <= k < first_token_candidates(es, prefix).len() ==> is_prefix_of(
                prefix,
                (#[trigger] first_token_candidates(es, prefix)[k]).0,
            ) && first_token_candidates(es, prefix)[k].0 == first_token_candidates(es, prefix)[k].1,
    decreases es.len(),
{
    if es.len() > 0 {
        law_candidates_start_with_prefix(es.drop_last(), prefix);
        let d = es.last().descriptor;
        lemma_alias_candidates_prefix(d.aliases, prefix, d.help.summary);
        let head = first_token_candidates(es.drop_last(), prefix);
        let cc = command_candidates(d, prefix);
        let c = listed_candidates(d, prefix);
        let p = if is_prefix_of(prefix, d.path) {
            seq![candidate(d.path, d.help.summary)]
        } else {
            Seq::empty()
        };
        let a = alias_candidates(d.aliases, prefix, d.help.summary);
        assert forall|k: int| 0 <= k < cc.len() implies is_prefix_of(prefix, (#[trigger] cc[k]).0)
            && cc[k].0 == cc[k].1 by {
            if k >= p.len() {
                assert(cc[k] == a[k - p.len()]);
            }
        }
        let all = first_token_candidates(es, prefix);
        assert forall|k: int| 0 <= k < all.len() implies is_prefix_of(prefix, (#[trigger] all[k]).0)
            && all[k].0 == all[k].1 by {
            if k >= head.len() {
                assert(all[k] == c[k - head.len()]);
            } else {
                assert(all[k] == head[k]);
            }
        }
    }
}

proof fn lemma_alias_candidates_prefix(aliases: Seq<Seq<char>>, prefix: Seq<char>, detail: Seq<char>)
    ensures
        forall|k: int|
            0 <= k < alias_candidates(aliases, prefix, detail).len() ==> is_prefix_of(
                prefix,
                (#[trigger] alias_candidates(aliases, prefix, detail)[k]).0,
            ) && alias_candidates(aliases, prefix, detail)[k].0 == alias_candidates(aliases, prefix, detail)[k].1,
    decreases aliases.len(),
{
    if aliases.len() > 0 {
        lemma_alias_candidates_prefix(aliases.drop_last(), prefix, detail);
        let rest = alias_candidates(aliases.drop_last(), prefix, detail);
        let all = alias_candidates(aliases, prefix, detail);
        assert forall|k: int| 0 <= k < all.len() implies is_prefix_of(prefix, (#[trigger] all[k]).0)
            && all[k].0 == all[k].1 by {
            if k < rest.len() {
                assert(all[k] == rest[k]);
            }
        }
    }
}

/// A session runs one command at a time: while a command runs, a
/// submission changes nothing, starts nothing and only reports that the
/// session is busy.
pub proof fn law_busy_session_refuses_submissions(
    s: SessionView,
    es: Seq<EntryView>,
    parsed: Result<ParsedView, Seq<char>>,
)
    requires
        s.active is Some,
    ensures
        submit_spec(s, es, parsed).0 == s,
        submit_spec(s, es, parsed).1 == seq![EventView::Status(0, busy_message())],
        submit_spec(s, es, parsed).2 == PlanView::Done,
{
}

/// Whether `e` completes execution `id`.
pub open spec fn completes(e: EventView, id: u64) -> bool {
    e matches EventView::Completed(cid, _, _) && cid == id
}

/// What a submission to an idle session promises about the execution it
/// starts, if any.
pub open spec fn started_then_completed(
    s: SessionView,
    out: (SessionView, Seq<EventView>, PlanView),
    result: Result<ExitView, (i32, Seq<char>)>,
) -> bool {
    let id = saturating_inc(s.next_execution_id);
    let ev = out.1;
    if ev.len() == 0 {
        out.0 == s && out.2 == PlanView::Done
    } else {
        &&& ev[0] == EventView::Started(id)
        &&& out.0.next_execution_id == id
        &&& match out.2 {
            PlanView::Run(rid, _, _) => {
                &&& rid == id
                &&& ev.len() == 1
                &&& out.0.active is Some
                &&& out.0.active->0.execution_id == id
                &&& completes(finish_spec(out.0.active->0, result).last(), id)
            },
            PlanView::Done => out.0.active is None && completes(ev.last(), id),
        }
    }
}

/// Every execution a submission starts gets the next execution id and
/// ends with exactly one completion for that id: at once when it fails
/// or prints help, or when its handler finishes, whatever the handler
/// returns; a submission that starts nothing leaves the session as it was.
pub proof fn law_started_execution_completes_once(
    s: SessionView,
    es: Seq<EntryView>,
    parsed: Result<ParsedView, Seq<char>>,
    result: Result<ExitView, (i32, Seq<char>)>,
)
    requires
        s.active is None,
    ensures
        started_then_completed(s, submit_spec(s, es, parsed), result),
{
}

/// Removing a token no entry holds changes nothing.
pub proof fn lemma_remove_absent_token(es: Seq<EntryView>, token: u64)
    requires
        forall|k: int| 0 <= k < es.len() ==> (#[trigger] es[k]).token != token,
    ensures
        remove_token(es, token) == es,
    decreases es.len(),
{
    if es.len() > 0 {
        let d = es.drop_last();
        assert forall|k: int| 0 <= k < d.len() implies (#[trigger] d[k]).token != token by {
            assert(d[k] == es[k]);
        }
        lemma_remove_absent_token(d, token);
        assert(es[es.len() - 1] == es.last());
        assert(d.push(es.last()) =~= es);
    }
}

/// Removing the token held by entry `i`, and by no other, drops exactly
/// that entry.
pub proof fn lemma_remove_unique_token(es: Seq<EntryView>, token: u64, i: int)
    requires
        0 <= i < es.len(),
        es[i].token == token,
        forall|a: int, b: int| 0 <= a < b < es.len() ==> (#[trigger] es[a]).token < (#[trigger] es[b]).token,
    ensures
        remove_token(es, token) == es.remove(i),
    decreases es.len(),
{
    let d = es.drop_last();
    if i == es.len() - 1 {
        assert forall|k: int| 0 <= k < d.len() implies (#[trigger] d[k]).token != token by {
            assert(d[k] == es[k]);
            assert(es[k].token < es[i].token);
        }
        lemma_remove_absent_token(d, token);
        assert(es.remove(i) =~= d);
    } else {
        assert forall|a: int, b: int| 0 <= a < b < d.len() implies (#[trigger] d[a]).token < (
        #[trigger] d[b]).token by {
            assert(d[a] == es[a] && d[b] == es[b]);
        }
        assert(d[i] == es[i]);
        lemma_remove_unique_token(d, token, i);
        assert(es.last().token != token) by {
            assert(es[i].token < es[es.len() - 1].token);
        }
        assert(es.remove(i) =~= d.remove(i).push(es.last()));
    }
}

} // verus!
