//! Desktop persistence decisions: migrating a stored desktop snapshot to
//! the current schema, and combining the compatibility snapshot, theme and
//! terminal history read at boot into the snapshot to hydrate from.

use vstd::prelude::*;
use serde_json::Value;
use crate::model::{
    default_preferences, default_theme_view, DesktopPreferences, DesktopSnapshot, DesktopTheme,
    SnapshotView, ThemeView, DESKTOP_LAYOUT_SCHEMA_VERSION,
};
use crate::model::strings_view;
use crate::storage::AppStateEnvelope;

verus! {

/// Preference key of the compatibility layout snapshot.
pub const SNAPSHOT_KEY: &'static str = "retrodesk.layout.v1";
/// Preference key of the desktop theme.
pub const THEME_KEY: &'static str = "retrodesk.theme.v1";
/// Preference key of the terminal history.
pub const TERMINAL_HISTORY_KEY: &'static str = "retrodesk.terminal_history.v1";

/// Migrates a stored desktop snapshot: schema 0 holds a snapshot in the
/// current shape, which `decode` reads; newer schemas are not migrated.
pub fn migrate_desktop_snapshot<D: FnOnce(&Value) -> Result<DesktopSnapshot, String>>(
    schema_version: u32,
    envelope: &AppStateEnvelope,
    decode: D,
) -> (r: Result<Option<DesktopSnapshot>, String>)
    requires
        schema_version == 0 ==> call_requires(decode, (&envelope.payload,)),
    ensures
        schema_version != 0 ==> r == Ok::<Option<DesktopSnapshot>, String>(None),
        schema_version == 0 ==> match r {
            Ok(Some(s)) => call_ensures(decode, (&envelope.payload,), Ok(s)),
            Ok(None) => false,
            Err(e) => call_ensures(decode, (&envelope.payload,), Err(e)),
        },
{
    if schema_version != 0 {
        return Ok(None);
    }
    match decode(&envelope.payload) {
        Ok(s) => Ok(Some(s)),
        Err(e) => Err(e),
    }
}

/// The boot snapshot from what the compatibility stores held: a stored
/// snapshot takes the stored theme and history over its own; without a
/// snapshot, a theme or a history alone gives an empty desktop in the
/// current schema with them; with nothing stored there is nothing to
/// restore.
pub open spec fn merged_boot_snapshot(
    snapshot: Option<SnapshotView>,
    theme: Option<ThemeView>,
    history: Option<Seq<Seq<char>>>,
) -> Option<SnapshotView> {
    match snapshot {
        Some(s) => Some(
            SnapshotView {
                theme: match theme {
                    Some(t) => t,
                    None => s.theme,
                },
                terminal_history: match history {
                    Some(h) => h,
                    None => s.terminal_history,
                },
                ..s
            },
        ),
        None => if theme is None && history is None {
            None
        } else {
            Some(
                SnapshotView {
                    schema_version: DESKTOP_LAYOUT_SCHEMA_VERSION,
                    theme: match theme {
                        Some(t) => t,
                        None => default_theme_view(),
                    },
                    preferences: default_preferences(),
                    windows: Seq::empty(),
                    last_explorer_path: None,
                    last_notepad_slug: None,
                    terminal_history: match history {
                        Some(h) => h,
                        None => Seq::empty(),
                    },
                },
            )
        },
    }
}

pub open spec fn opt_snapshot_view(s: Option<DesktopSnapshot>) -> Option<SnapshotView> {
    match s {
        Some(x) => Some(x@),
        None => None,
    }
}

pub open spec fn opt_theme_view(t: Option<DesktopTheme>) -> Option<ThemeView> {
    match t {
        Some(x) => Some(x@),
        None => None,
    }
}

pub open spec fn opt_history_view(h: Option<Vec<String>>) -> Option<Seq<Seq<char>>> {
    match h {
        Some(x) => Some(strings_view(x@)),
        None => None,
    }
}

/// Combines what the compatibility stores held at boot.
pub fn merge_boot_snapshot(
    snapshot: Option<DesktopSnapshot>,
    theme: Option<DesktopTheme>,
    history: Option<Vec<String>>,
) -> (r: Option<DesktopSnapshot>)
    ensures
        opt_snapshot_view(r) == merged_boot_snapshot(
            opt_snapshot_view(snapshot),
            opt_theme_view(theme),
            opt_history_view(history),
        ),
{
    match snapshot {
        Some(mut s) => {
            if let Some(t) = theme {
                s.theme = t;
            }
            if let Some(h) = history {
                s.terminal_history = h;
            }
            Some(s)
        },
        None => {
            if theme.is_none() && history.is_none() {
                return None;
            }
            let t = match theme {
                Some(t) => t,
                None => DesktopTheme::default(),
            };
            let h = match history {
                Some(h) => h,
                None => Vec::new(),
            };
            let s = DesktopSnapshot {
                schema_version: DESKTOP_LAYOUT_SCHEMA_VERSION,
                theme: t,
                preferences: DesktopPreferences::default(),
                windows: Vec::new(),
                last_explorer_path: None,
                last_notepad_slug: None,
                terminal_history: h,
            };
            proof {
                assert(s@.windows =~= Seq::<crate::model::WindowView>::empty());
                assert(s@.terminal_history =~= match opt_history_view(history) {
                    Some(h) => h,
                    None => Seq::empty(),
                });
            }
            Some(s)
        },
    }
}

} // verus!
