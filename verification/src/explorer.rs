//! Decisions of the Explorer app that do not touch the filesystem: whether
//! a native folder can be connected, the caption for the host's native
//! folder support, and the timestamp text of the inspector.

use vstd::prelude::*;
use vstd::string::*;
use crate::strings::{decimal, push_decimal, str_eq, str_starts_with};

verus! {

/// How far the host supports a capability.
#[derive(Debug, Clone, Copy, PartialEq, Eq, Structural)]
pub enum CapabilityStatus {
    Available,
    RequiresUserActivation,
    Unavailable,
}

/// A native folder can be connected unless the host lacks support.
pub fn can_connect_native_folder(status: CapabilityStatus) -> (r: bool)
    ensures
        r == !(status is Unavailable),
{
    !matches!(status, CapabilityStatus::Unavailable)
}

pub open spec fn native_status_label(status: CapabilityStatus) -> Seq<char> {
    match status {
        CapabilityStatus::Available => "Native folder access is available."@,
        CapabilityStatus::RequiresUserActivation => "Native folder access requires explicit user activation."@,
        CapabilityStatus::Unavailable => "Native folder access is unavailable on this host."@,
    }
}

/// The caption for the host's native folder support.
pub fn native_explorer_status_label(status: CapabilityStatus) -> (r: &'static str)
    ensures
        r@ == native_status_label(status),
{
    match status {
        CapabilityStatus::Available => "Native folder access is available.",
        CapabilityStatus::RequiresUserActivation => "Native folder access requires explicit user activation.",
        CapabilityStatus::Unavailable => "Native folder access is unavailable on this host.",
    }
}

/// A Unix time in milliseconds as whole seconds, such as `12s`.
pub fn format_timestamp(unix_ms: u64) -> (r: String)
    ensures
        r@ == decimal((unix_ms / 1000) as nat) + "s"@,
{
    let mut s = String::new();
    push_decimal(&mut s, unix_ms / 1000);
    s.concat("s")
}

/// The content-cache key of a file's preview: the path behind the
/// `file-preview:` prefix.
pub fn explorer_preview_cache_key(path: &str) -> (r: String)
    ensures
        r@ == "file-preview:"@ + path@,
{
    String::from_str("file-preview:").concat(path)
}

// ---------------------------------------------------------------------
// Listing rows
// ---------------------------------------------------------------------

/// An entry is listed unless its name starts with `.` and hidden entries
/// are not shown.
pub open spec fn is_listed(name: Seq<char>, show_hidden: bool) -> bool {
    show_hidden || !(name.len() > 0 && name[0] == '.')
}

/// Positions of the listed entries among `names`, in order.
pub open spec fn listed_positions(names: Seq<Seq<char>>, show_hidden: bool) -> Seq<int>
    decreases names.len(),
{
    if names.len() == 0 {
        Seq::empty()
    } else {
        let rest = listed_positions(names.drop_last(), show_hidden);
        if is_listed(names.last(), show_hidden) {
            rest.push(names.len() - 1)
        } else {
            rest
        }
    }
}

/// The positions of the entries the list shows, given their names: all of
/// them when hidden entries are shown, otherwise those whose name does not
/// start with `.`.
pub fn listed_rows(names: &Vec<String>, show_hidden: bool) -> (r: Vec<usize>)
    ensures
        r@.map_values(|i: usize| i as int) == listed_positions(
            crate::model::strings_view(names@),
            show_hidden,
        ),
{
    let ghost ns = crate::model::strings_view(names@);
    let mut out: Vec<usize> = Vec::new();
    let mut i: usize = 0;
    assert(ns.take(0) =~= Seq::<Seq<char>>::empty());
    assert(out@.map_values(|i: usize| i as int) =~= Seq::<int>::empty());
    while i < names.len()
        invariant
            ns == crate::model::strings_view(names@),
            i <= names@.len(),
            out@.map_values(|i: usize| i as int) == listed_positions(ns.take(i as int), show_hidden),
        decreases names@.len() - i,
    {
        proof {
            assert(ns.take(i + 1).drop_last() =~= ns.take(i as int));
            assert(ns.take(i + 1).last() == names@[i as int]@);
        }
        let hidden = str_starts_with(names[i].as_str(), ".");
        proof {
            reveal_strlit(".");
            let n = names@[i as int]@;
            if n.len() > 0 {
                assert(hidden == (n[0] == '.')) by {
                    if n[0] == '.' {
                        assert(n.subrange(0, 1) =~= "."@);
                    }
                    if hidden {
                        assert(n.subrange(0, 1)[0] == n[0]);
                    }
                }
            }
        }
        if show_hidden || !hidden {
            let ghost before = out@.map_values(|i: usize| i as int);
            out.push(i);
            assert(out@.map_values(|i: usize| i as int) =~= before.push(i as int));
        }
        i = i + 1;
    }
    assert(ns.take(i as int) =~= ns);
    out
}

/// What a key does on the focused listing.
#[derive(Debug, Clone, Copy, PartialEq, Eq, Structural)]
pub enum RowKeyOutcome {
    /// Select the row and show it in the inspector.
    Select(usize),
    /// Select the row and open it: enter a folder, open a file.
    Open(usize),
}

/// The first row whose path is `selected`, if any.
pub open spec fn selected_row(paths: Seq<Seq<char>>, selected: Option<Seq<char>>) -> Option<int> {
    match selected {
        Some(p) => if exists|i: int| 0 <= i < paths.len() && paths[i] == p {
            Some(
                choose|i: int|
                    0 <= i < paths.len() && paths[i] == p && forall|j: int| 0 <= j < i ==> paths[j] != p,
            )
        } else {
            None
        },
        None => None,
    }
}

/// Arrow keys step the selection down or up, staying within the rows
/// (down from nothing selected goes to the first row, up to the last);
/// Home and End jump to the ends; Space selects the current row and Enter
/// opens it (the first row when none is selected). With no rows, or for
/// other keys, nothing happens.
pub open spec fn row_key_outcome(n: int, current: Option<int>, key: Seq<char>) -> Option<RowKeyOutcome> {
    let here: int = match current {
        Some(i) => i,
        None => 0,
    };
    if n == 0 {
        None
    } else if key == "ArrowDown"@ {
        Some(
            RowKeyOutcome::Select(
                (match current {
                    Some(i) => if i + 1 < n {
                        i + 1
                    } else {
                        n - 1
                    },
                    None => 0,
                }) as usize,
            ),
        )
    } else if key == "ArrowUp"@ {
        Some(
            RowKeyOutcome::Select(
                (match current {
                    Some(i) => if i > 0 {
                        i - 1
                    } else {
                        0
                    },
                    None => n - 1,
                }) as usize,
            ),
        )
    } else if key == "Home"@ {
        Some(RowKeyOutcome::Select(0))
    } else if key == "End"@ {
        Some(RowKeyOutcome::Select((n - 1) as usize))
    } else if key == " "@ || key == "Spacebar"@ {
        Some(RowKeyOutcome::Select(here as usize))
    } else if key == "Enter"@ {
        Some(RowKeyOutcome::Open(here as usize))
    } else {
        None
    }
}

fn find_row(row_paths: &Vec<String>, selected: &str) -> (r: Option<usize>)
    ensures
        match r {
            Some(i) => i < row_paths@.len() && selected_row(
                crate::model::strings_view(row_paths@),
                Some(selected@),
            ) == Some(i as int),
            None => selected_row(crate::model::strings_view(row_paths@), Some(selected@)) is None,
        },
{
    let ghost ps = crate::model::strings_view(row_paths@);
    let mut i: usize = 0;
    while i < row_paths.len()
        invariant
            ps == crate::model::strings_view(row_paths@),
            i <= row_paths@.len(),
            forall|j: int| 0 <= j < i ==> ps[j] != selected@,
        decreases row_paths@.len() - i,
    {
        if str_eq(row_paths[i].as_str(), selected) {
            proof {
                assert(ps[i as int] == selected@);
                let k = choose|k: int|
                    0 <= k < ps.len() && ps[k] == selected@ && forall|j: int| 0 <= j < k ==> ps[j] != selected@;
                if k < i {
                    assert(ps[k] != selected@);
                } else if k > i {
                    assert(ps[i as int] != selected@);
                }
            }
            return Some(i);
        }
        i = i + 1;
    }
    None
}

/// What `key` does on the listing whose rows have paths `row_paths`, with
/// `selected` the selected path.
pub fn row_key_action(row_paths: &Vec<String>, selected: Option<&str>, key: &str) -> (r: Option<
    RowKeyOutcome,
>)
    ensures
        r == row_key_outcome(
            row_paths@.len() as int,
            selected_row(
                crate::model::strings_view(row_paths@),
                match selected {
                    Some(p) => Some(p@),
                    None => None,
                },
            ),
            key@,
        ),
{
    let n = row_paths.len();
    if n == 0 {
        return None;
    }
    let current = match selected {
        Some(p) => find_row(row_paths, p),
        None => None,
    };
    let here: usize = match current {
        Some(i) => i,
        None => 0,
    };
    if str_eq(key, "ArrowDown") {
        Some(RowKeyOutcome::Select(match current {
            Some(i) => if i + 1 < n {
                i + 1
            } else {
                n - 1
            },
            None => 0,
        }))
    } else if str_eq(key, "ArrowUp") {
        Some(RowKeyOutcome::Select(match current {
            Some(i) => if i > 0 {
                i - 1
            } else {
                0
            },
            None => n - 1,
        }))
    } else if str_eq(key, "Home") {
        Some(RowKeyOutcome::Select(0))
    } else if str_eq(key, "End") {
        Some(RowKeyOutcome::Select(n - 1))
    } else if str_eq(key, " ") || str_eq(key, "Spacebar") {
        Some(RowKeyOutcome::Select(here))
    } else if str_eq(key, "Enter") {
        Some(RowKeyOutcome::Open(here))
    } else {
        None
    }
}

/// Away from the ends, the arrow keys step the selection by one row:
/// ArrowUp from row `i` selects row `i - 1`, ArrowDown selects row `i + 1`,
/// so each undoes the other. At the ends they stay on the end row.
pub proof fn law_arrow_keys_step_one_row(n: int, i: int)
    requires
        0 <= i < n <= usize::MAX,
    ensures
        i > 0 ==> row_key_outcome(n, Some(i), "ArrowUp"@) == Some(RowKeyOutcome::Select((i - 1) as usize)),
        i == 0 ==> row_key_outcome(n, Some(i), "ArrowUp"@) == Some(RowKeyOutcome::Select(0)),
        i + 1 < n ==> row_key_outcome(n, Some(i), "ArrowDown"@) == Some(RowKeyOutcome::Select((i + 1) as usize)),
        i + 1 == n ==> row_key_outcome(n, Some(i), "ArrowDown"@) == Some(RowKeyOutcome::Select((n - 1) as usize)),
        0 < i ==> row_key_outcome(n, Some(i - 1), "ArrowDown"@) == Some(RowKeyOutcome::Select(i as usize)),
        i + 1 < n ==> row_key_outcome(n, Some(i + 1), "ArrowUp"@) == Some(RowKeyOutcome::Select(i as usize)),
{
    reveal_strlit("ArrowUp");
    reveal_strlit("ArrowDown");
    assert("ArrowUp"@.len() != "ArrowDown"@.len());
    assert("ArrowUp"@ != "ArrowDown"@);
}

/// Home and End select the first and last rows, Space selects the current
/// row and Enter opens it, whatever row was selected; with no rows no key
/// does anything.
pub proof fn law_row_keys_jump_and_open(n: int, i: int, key: Seq<char>)
    requires
        0 <= i < n <= usize::MAX,
    ensures
        row_key_outcome(n, Some(i), "Home"@) == Some(RowKeyOutcome::Select(0)),
        row_key_outcome(n, Some(i), "End"@) == Some(RowKeyOutcome::Select((n - 1) as usize)),
        row_key_outcome(n, Some(i), " "@) == Some(RowKeyOutcome::Select(i as usize)),
        row_key_outcome(n, Some(i), "Spacebar"@) == Some(RowKeyOutcome::Select(i as usize)),
        row_key_outcome(n, Some(i), "Enter"@) == Some(RowKeyOutcome::Open(i as usize)),
        row_key_outcome(n, None, "Enter"@) == Some(RowKeyOutcome::Open(0)),
        row_key_outcome(n, None, " "@) == Some(RowKeyOutcome::Select(0)),
        row_key_outcome(n, None, "ArrowDown"@) == Some(RowKeyOutcome::Select(0)),
        row_key_outcome(n, None, "ArrowUp"@) == Some(RowKeyOutcome::Select((n - 1) as usize)),
        row_key_outcome(0, None, key) is None,
{
    reveal_strlit("ArrowUp");
    reveal_strlit("ArrowDown");
    reveal_strlit("Home");
    reveal_strlit("End");
    reveal_strlit(" ");
    reveal_strlit("Spacebar");
    reveal_strlit("Enter");
    assert("Home"@ != "ArrowDown"@ && "Home"@ != "ArrowUp"@) by {
        assert("Home"@.len() == 4);
        assert("ArrowUp"@[0] != "Home"@[0]);
    }
    assert("End"@ != "ArrowDown"@ && "End"@ != "ArrowUp"@ && "End"@ != "Home"@) by {
        assert("End"@.len() == 3 && "ArrowDown"@.len() == 9 && "ArrowUp"@.len() == 7);
        assert("Home"@.len() == 4);
    }
    assert(" "@ != "ArrowDown"@ && " "@ != "ArrowUp"@ && " "@ != "Home"@ && " "@ != "End"@) by {
        assert(" "@.len() == 1 && "ArrowDown"@.len() == 9 && "ArrowUp"@.len() == 7);
        assert("Home"@.len() == 4 && "End"@.len() == 3);
    }
    assert("Spacebar"@ != "ArrowDown"@ && "Spacebar"@ != "ArrowUp"@ && "Spacebar"@ != "Home"@
        && "Spacebar"@ != "End"@) by {
        assert("Spacebar"@.len() == 8 && "ArrowDown"@.len() == 9 && "ArrowUp"@.len() == 7);
        assert("Home"@.len() == 4 && "End"@.len() == 3);
    }
    assert("Enter"@ != "ArrowDown"@ && "Enter"@ != "ArrowUp"@ && "Enter"@ != "Home"@ && "Enter"@
        != "End"@ && "Enter"@ != " "@ && "Enter"@ != "Spacebar"@) by {
        assert("Enter"@.len() == 5 && "ArrowDown"@.len() == 9 && "ArrowUp"@.len() == 7);
        assert("Home"@.len() == 4 && "End"@.len() == 3 && " "@.len() == 1);
        assert("Spacebar"@.len() == 8);
    }
}

/// The listing shows exactly the entries whose name does not start with
/// `.`, plus those that do when hidden entries are shown, in their order.
pub proof fn law_listing_shows_unhidden_entries(names: Seq<Seq<char>>, show_hidden: bool, k: int)
    ensures
        listed_positions(names, show_hidden).contains(k) == (0 <= k < names.len() && (show_hidden
            || names[k].len() == 0 || names[k][0] != '.')),
        forall|a: int, b: int|
            0 <= a < b < listed_positions(names, show_hidden).len() ==> (#[trigger] listed_positions(
                names,
                show_hidden,
            )[a]) < (#[trigger] listed_positions(names, show_hidden)[b]),
    decreases names.len(),
{
    if names.len() > 0 {
        let d = names.drop_last();
        law_listing_shows_unhidden_entries(d, show_hidden, k);
        let rest = listed_positions(d, show_hidden);
        assert forall|j: int| 0 <= j < rest.len() implies rest[j] < d.len() by {
            law_listing_shows_unhidden_entries(d, show_hidden, rest[j]);
            assert(rest.contains(rest[j]));
        }
        let all = listed_positions(names, show_hidden);
        if is_listed(names.last(), show_hidden) {
            assert(all == rest.push(names.len() - 1));
            if all.contains(k) && k != names.len() - 1 {
                let j = choose|j: int| 0 <= j < all.len() && all[j] == k;
                assert(rest[j] == k);
            }
            if rest.contains(k) {
                let j = choose|j: int| 0 <= j < rest.len() && rest[j] == k;
                assert(all[j] == k);
            }
            if k == names.len() - 1 {
                assert(all[all.len() - 1] == k);
            }
        }
        if 0 <= k < d.len() {
            assert(names[k] == d[k]);
        }
    }
}

} // verus!
