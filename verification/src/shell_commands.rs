//! Helpers of the desktop's built-in shell commands: argument parsing,
//! error construction, command descriptors and the scope policy for
//! commands that apps register.

use vstd::prelude::*;
use vstd::string::*;
use crate::model::{AppId, WindowId, strings_view};
use crate::apps::{app_is_privileged, canonical_id_spec, is_privileged_id};
use crate::shell_contract::{args_view, examples_view, options_view, DescriptorView, ScopeView};
use crate::strings::str_eq;
use crate::shell_contract::{
    CommandArgSpec, CommandDescriptor, CommandExample, CommandId, CommandOptionSpec, CommandPath,
    CommandScope, CommandVisibility, HelpDoc, ShellError, ShellErrorCode,
};

verus! {

/// A usage error carrying `message`.
pub fn usage_error(message: String) -> (r: ShellError)
    ensures
        r.code == ShellErrorCode::Usage,
        r.message@ == message@,
{
    ShellError::new(ShellErrorCode::Usage, message)
}

/// An "unavailable" error carrying `message`.
pub fn unavailable(message: String) -> (r: ShellError)
    ensures
        r.code == ShellErrorCode::Unavailable,
        r.message@ == message@,
{
    ShellError::new(ShellErrorCode::Unavailable, message)
}

/// `on`, `true` and `1` switch a flag on; `off`, `false` and `0` switch it
/// off.
pub open spec fn bool_flag(raw: Seq<char>) -> Option<bool> {
    if raw == "on"@ || raw == "true"@ || raw == "1"@ {
        Some(true)
    } else if raw == "off"@ || raw == "false"@ || raw == "0"@ {
        Some(false)
    } else {
        None
    }
}

/// Parses an on/off flag argument.
pub fn parse_bool_flag(raw: &str) -> (r: Result<bool, ShellError>)
    ensures
        match r {
            Ok(b) => bool_flag(raw@) == Some(b),
            Err(e) => bool_flag(raw@) is None && e.code == ShellErrorCode::Usage && e.message@
                == "expected on/off, got `"@ + raw@ + "`"@,
        },
{
    if str_eq(raw, "on") || str_eq(raw, "true") || str_eq(raw, "1") {
        Ok(true)
    } else if str_eq(raw, "off") || str_eq(raw, "false") || str_eq(raw, "0") {
        Ok(false)
    } else {
        Err(usage_error(String::from_str("expected on/off, got `").concat(raw).concat("`")))
    }
}

pub open spec fn digit_value(c: char) -> nat {
    (c as u32 - '0' as u32) as nat
}

/// The number written by the decimal digits `d`.
pub open spec fn digits_value(d: Seq<char>) -> nat
    decreases d.len(),
{
    if d.len() == 0 {
        0
    } else {
        digits_value(d.drop_last()) * 10 + digit_value(d.last())
    }
}

/// The digits after an optional leading `+`.
pub open spec fn unsigned_digits(s: Seq<char>) -> Seq<char> {
    if s.len() > 0 && s[0] == '+' {
        s.drop_first()
    } else {
        s
    }
}

/// What `str::parse::<u64>` accepts: an optional `+`, then one or more
/// ASCII digits whose value fits in `u64`.
pub open spec fn parses_u64(s: Seq<char>) -> Option<u64> {
    let d = unsigned_digits(s);
    if d.len() > 0 && (forall|i: int| 0 <= i < d.len() ==> '0' <= #[trigger] d[i] <= '9') && digits_value(d)
        <= u64::MAX {
        Some(digits_value(d) as u64)
    } else {
        None
    }
}

proof fn lemma_digits_value_monotone(d: Seq<char>, k: int)
    requires
        0 <= k <= d.len(),
        forall|i: int| 0 <= i < d.len() ==> '0' <= #[trigger] d[i] <= '9',
    ensures
        digits_value(d.take(k)) <= digits_value(d),
    decreases d.len() - k,
{
    if k < d.len() {
        lemma_digits_value_monotone(d, k + 1);
        assert(d.take(k + 1).drop_last() =~= d.take(k));
    } else {
        assert(d.take(k) =~= d);
    }
}

/// Parses a decimal `u64` as `str::parse::<u64>` does.
pub fn parse_u64(s: &str) -> (r: Option<u64>)
    ensures
        r == parses_u64(s@),
{
    let n = s.unicode_len();
    let mut start: usize = 0;
    if n > 0 && s.get_char(0) == '+' {
        start = 1;
    }
    let ghost d = unsigned_digits(s@);
    assert(d =~= s@.subrange(start as int, n as int));
    if start >= n {
        return None;
    }
    let mut acc: u64 = 0;
    let mut i: usize = start;
    assert(d.take(0) =~= Seq::<char>::empty());
    while i < n
        invariant
            d == unsigned_digits(s@),
            d == s@.subrange(start as int, n as int),
            n == s@.len(),
            start <= i <= n,
            forall|k: int| 0 <= k < i - start ==> '0' <= #[trigger] d[k] <= '9',
            acc as nat == digits_value(d.take(i - start)),
        decreases n - i,
    {
        let c = s.get_char(i);
        assert(d[i - start] == c);
        if c < '0' || c > '9' {
            proof {
                let k = (i - start) as int;
                assert(!('0' <= d[k] && d[k] <= '9'));
                assert(!(forall|j: int| 0 <= j < d.len() ==> '0' <= #[trigger] d[j] <= '9'));
            }
            return None;
        }
        let dv = (c as u32 - '0' as u32) as u64;
        assert(d.take(i - start + 1).drop_last() =~= d.take(i - start));
        let ghost next = digits_value(d.take(i - start + 1));
        assert(next == acc as nat * 10 + dv as nat);
        if acc > 1844674407370955161 || (acc == 1844674407370955161 && dv > 5) {
            proof {
                assert(next > u64::MAX);
                if forall|k: int| 0 <= k < d.len() ==> '0' <= #[trigger] d[k] <= '9' {
                    lemma_digits_value_monotone(d, (i - start + 1) as int);
                    assert(digits_value(d) > u64::MAX);
                }
            }
            return None;
        }
        acc = acc * 10 + dv;
        i = i + 1;
    }
    assert(d.take(n - start) =~= d);
    Some(acc)
}

/// Parses a window id argument.
pub fn parse_window_id(raw: &str) -> (r: Result<WindowId, ShellError>)
    ensures
        match r {
            Ok(id) => parses_u64(raw@) == Some(id.0),
            Err(e) => parses_u64(raw@) is None && e.code == ShellErrorCode::Usage && e.message@
                == "invalid window id `"@ + raw@ + "`"@,
        },
{
    match parse_u64(raw) {
        Some(v) => Ok(WindowId(v)),
        None => Err(usage_error(String::from_str("invalid window id `").concat(raw).concat("`"))),
    }
}

/// Which scopes an app may register commands in: global scope only for
/// privileged apps, app scope only for itself, window scope only for its
/// own window.
pub open spec fn scope_error(scope: ScopeView, app_id: AppId, window_id: WindowId) -> Option<Seq<char>> {
    match scope {
        ScopeView::Global => if is_privileged_id(canonical_id_spec(app_id)) {
            None
        } else {
            Some("only privileged apps may register global commands"@)
        },
        ScopeView::App(owner) => if owner == canonical_id_spec(app_id) {
            None
        } else {
            Some("app-scoped command owner mismatch"@)
        },
        ScopeView::Window(owner) => if owner == window_id.0 {
            None
        } else {
            Some("window-scoped command owner mismatch"@)
        },
    }
}

/// Checks that an app registers a command only in a scope it owns.
pub fn validate_scope(scope: &CommandScope, app_id: AppId, window_id: WindowId) -> (r: Result<(), String>)
    ensures
        match r {
            Ok(()) => scope_error(scope@, app_id, window_id) is None,
            Err(m) => scope_error(scope@, app_id, window_id) == Some(m@),
        },
{
    match scope {
        CommandScope::Global => if app_is_privileged(app_id) {
            Ok(())
        } else {
            Err(String::from_str("only privileged apps may register global commands"))
        },
        CommandScope::App { app_id: owner } => if str_eq(owner.as_str(), app_id.canonical_id()) {
            Ok(())
        } else {
            Err(String::from_str("app-scoped command owner mismatch"))
        },
        CommandScope::Window { window_id: owner } => if *owner == window_id.0 {
            Ok(())
        } else {
            Err(String::from_str("window-scoped command owner mismatch"))
        },
    }
}

/// A public, global built-in command with the given path, aliases, help
/// and argument metadata.
pub fn descriptor(
    path: &str,
    aliases: &[&str],
    summary: &str,
    usage: &str,
    args: Vec<CommandArgSpec>,
    options: Vec<CommandOptionSpec>,
    examples: Vec<CommandExample>,
) -> (r: CommandDescriptor)
    ensures
        r@.id == path@,
        r@.path == path@,
        r@.aliases == aliases@.map_values(|a: &str| a@),
        r@.scope == ScopeView::Global,
        r@.visibility == CommandVisibility::Public,
        r@.args == args_view(args@),
        r@.options == options_view(options@),
        r@.help.summary == summary@,
        r@.help.description is None,
        r@.help.usage == usage@,
        r@.help.examples == examples_view(examples@),
{
    let mut alias_list: Vec<String> = Vec::new();
    let mut i: usize = 0;
    while i < aliases.len()
        invariant
            i <= aliases@.len(),
            strings_view(alias_list@) == aliases@.take(i as int).map_values(|a: &str| a@),
        decreases aliases@.len() - i,
    {
        let a: &str = aliases[i];
        let ghost before = alias_list@;
        alias_list.push(String::from_str(a));
        assert(strings_view(alias_list@) =~= strings_view(before).push(a@));
        assert(aliases@.take(i + 1).map_values(|a: &str| a@) =~= aliases@.take(i as int).map_values(
            |a: &str| a@,
        ).push(a@));
        i = i + 1;
    }
    assert(aliases@.take(i as int) =~= aliases@);
    CommandDescriptor {
        id: CommandId::new(String::from_str(path)),
        path: CommandPath::new(String::from_str(path)),
        aliases: alias_list,
        scope: CommandScope::Global,
        visibility: CommandVisibility::Public,
        args,
        options,
        help: HelpDoc {
            summary: String::from_str(summary),
            description: None,
            usage: String::from_str(usage),
            examples,
        },
    }
}

} // verus!
