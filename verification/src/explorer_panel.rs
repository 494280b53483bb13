//! The Explorer window's panel: current directory, listed entries,
//! selection, the text editor and the status messages. Each user request
//! yields the filesystem operation for the host to run, and each outcome
//! the host reports moves the panel on; backend metadata and permission
//! details stay with the host.

use vstd::prelude::*;
use vstd::string::*;
use crate::model::{opt_string_view, strings_view};
use crate::paths::{joined_path, normalize_path, normalized_path, parent_path, path_components, render_path, join_path};
use crate::strings::str_eq;

verus! {

/// What the Explorer window shows.
#[derive(Debug, Clone, PartialEq, Eq)]
pub struct ExplorerPanel {
    pub cwd: String,
    pub entries: Vec<String>,
    pub selected_path: Option<String>,
    pub editor_path: Option<String>,
    pub editor_text: String,
    pub editor_dirty: bool,
    pub error: Option<String>,
    pub notice: Option<String>,
    pub busy: bool,
}

pub struct PanelView {
    pub cwd: Seq<char>,
    pub entries: Seq<Seq<char>>,
    pub selected_path: Option<Seq<char>>,
    pub editor_path: Option<Seq<char>>,
    pub editor_text: Seq<char>,
    pub editor_dirty: bool,
    pub error: Option<Seq<char>>,
    pub notice: Option<Seq<char>>,
    pub busy: bool,
}

impl View for ExplorerPanel {
    type V = PanelView;

    open spec fn view(&self) -> PanelView {
        PanelView {
            cwd: self.cwd@,
            entries: strings_view(self.entries@),
            selected_path: opt_string_view(self.selected_path),
            editor_path: opt_string_view(self.editor_path),
            editor_text: self.editor_text@,
            editor_dirty: self.editor_dirty,
            error: opt_string_view(self.error),
            notice: opt_string_view(self.notice),
            busy: self.busy,
        }
    }
}

/// An error replaces any notice.
pub open spec fn with_error(v: PanelView, message: Seq<char>) -> PanelView {
    PanelView { error: Some(message), notice: None, ..v }
}

/// A notice replaces any error.
pub open spec fn with_notice(v: PanelView, message: Seq<char>) -> PanelView {
    PanelView { notice: Some(message), error: None, ..v }
}

/// The parent directory of a path, as `parent_path` computes it.
pub open spec fn parent_of(path: Seq<char>) -> Seq<char> {
    render_path(
        if path_components(path).len() > 0 {
            path_components(path).drop_last()
        } else {
            path_components(path)
        },
    )
}

/// The directory a window starts in: the project's folder when launched
/// for a project, the root otherwise.
pub open spec fn initial_directory(project_slug: Option<Seq<char>>) -> Seq<char> {
    match project_slug {
        Some(slug) => normalized_path("/Projects/"@ + slug),
        None => normalized_path("/"@),
    }
}

/// A selection survives a listing when it is the listed directory or one
/// of its entries.
pub open spec fn selection_survives(selected: Seq<char>, cwd: Seq<char>, entries: Seq<Seq<char>>) -> bool {
    selected == cwd || entries.contains(selected)
}

/// The panel after a listing of `cwd` arrived.
pub open spec fn after_listing(v: PanelView, cwd: Seq<char>, entries: Seq<Seq<char>>) -> PanelView {
    let kept = match v.selected_path {
        Some(sel) => if selection_survives(sel, cwd, entries) {
            Some(sel)
        } else {
            None
        },
        None => None,
    };
    with_notice(PanelView { cwd, entries, selected_path: kept, busy: false, ..v }, "Loaded "@ + cwd)
}

/// How the cached preview of a file that failed to read turned out.
#[derive(Debug, Clone, PartialEq, Eq)]
pub enum CacheFallback {
    /// No content cache is available.
    NoCache,
    /// The cache held a preview.
    Hit(String),
    /// The cache held nothing for the file.
    Miss,
    /// Reading the cache failed too.
    Failed(String),
}

fn set_error(panel: &mut ExplorerPanel, message: String)
    ensures
        final(panel)@ == with_error(old(panel)@, message@),
{
    panel.error = Some(message);
    panel.notice = None;
}

fn set_notice(panel: &mut ExplorerPanel, message: String)
    ensures
        final(panel)@ == with_notice(old(panel)@, message@),
{
    panel.notice = Some(message);
    panel.error = None;
}

fn clone_strings(v: &Vec<String>) -> (r: Vec<String>)
    ensures
        strings_view(r@) == strings_view(v@),
{
    crate::model::duplicate_strings(v)
}

fn contains_text(v: &Vec<String>, s: &str) -> (r: bool)
    ensures
        r == strings_view(v@).contains(s@),
{
    let mut i: usize = 0;
    while i < v.len()
        invariant
            i <= v@.len(),
            forall|k: int| 0 <= k < i ==> (#[trigger] strings_view(v@)[k]) != s@,
        decreases v@.len() - i,
    {
        if str_eq(v[i].as_str(), s) {
            assert(strings_view(v@)[i as int] == s@);
            return true;
        }
        i = i + 1;
    }
    false
}

impl ExplorerPanel {
    /// A panel in the window's initial directory with nothing listed.
    pub fn new(project_slug: Option<&str>) -> (r: Self)
        ensures
            r@ == (PanelView {
                cwd: initial_directory(
                    match project_slug {
                        Some(s) => Some(s@),
                        None => None,
                    },
                ),
                entries: Seq::empty(),
                selected_path: None,
                editor_path: None,
                editor_text: Seq::empty(),
                editor_dirty: false,
                error: None,
                notice: None,
                busy: false,
            }),
    {
        let target = match project_slug {
            Some(slug) => String::from_str("/Projects/").concat(slug),
            None => String::from_str("/"),
        };
        let r = ExplorerPanel {
            cwd: normalize_path(target.as_str()),
            entries: Vec::new(),
            selected_path: None,
            editor_path: None,
            editor_text: String::new(),
            editor_dirty: false,
            error: None,
            notice: None,
            busy: false,
        };
        assert(strings_view(r.entries@) =~= Seq::<Seq<char>>::empty());
        r
    }

    /// The host has no Explorer service: the request stops with an error.
    pub fn service_unavailable(&mut self)
        ensures
            final(self)@ == with_error(PanelView { busy: false, ..old(self)@ }, "Explorer host service unavailable"@),
    {
        set_error(self, String::from_str("Explorer host service unavailable"));
        self.busy = false;
    }

    /// Starts listing `path`, or the current directory: the normalized
    /// directory to list.
    pub fn begin_refresh(&mut self, path: Option<&str>) -> (r: String)
        ensures
            r@ == normalized_path(
                match path {
                    Some(p) => p@,
                    None => old(self)@.cwd,
                },
            ),
            final(self)@ == (PanelView { busy: true, ..old(self)@ }),
    {
        let target = match path {
            Some(p) => normalize_path(p),
            None => normalize_path(self.cwd.as_str()),
        };
        self.busy = true;
        target
    }

    /// A listing arrived: the directory and entries are shown, a selection
    /// that is no longer listed is dropped.
    pub fn listed(&mut self, cwd: String, entries: Vec<String>)
        ensures
            final(self)@ == after_listing(old(self)@, cwd@, strings_view(entries@)),
    {
        let keep = match &self.selected_path {
            Some(sel) => str_eq(sel.as_str(), cwd.as_str()) || contains_text(&entries, sel.as_str()),
            None => false,
        };
        if !keep {
            self.selected_path = None;
        }
        let message = String::from_str("Loaded ").concat(cwd.as_str());
        self.cwd = cwd;
        self.entries = entries;
        self.busy = false;
        set_notice(self, message);
    }

    /// Listing failed.
    pub fn list_failed(&mut self, err: &str)
        ensures
            final(self)@ == with_error(PanelView { busy: false, ..old(self)@ }, "list failed: "@ + err@),
    {
        set_error(self, String::from_str("list failed: ").concat(err));
        self.busy = false;
    }

    /// Starts opening a file: the normalized path to read.
    pub fn begin_open(&mut self, path: &str) -> (r: String)
        ensures
            r@ == normalized_path(path@),
            final(self)@ == (PanelView { busy: true, ..old(self)@ }),
    {
        self.busy = true;
        normalize_path(path)
    }

    /// A file was read: it is selected and shown, unmodified, in the
    /// editor; `backend` names where it was read from.
    pub fn opened(&mut self, path: &str, text: String, backend: &str)
        ensures
            final(self)@ == with_notice(
                PanelView {
                    editor_path: Some(path@),
                    editor_text: text@,
                    editor_dirty: false,
                    selected_path: Some(path@),
                    busy: false,
                    ..old(self)@
                },
                "Opened "@ + path@ + " ("@ + backend@ + ")"@,
            ),
    {
        self.editor_path = Some(String::from_str(path));
        self.editor_text = text;
        self.editor_dirty = false;
        self.selected_path = Some(String::from_str(path));
        set_notice(self, String::from_str("Opened ").concat(path).concat(" (").concat(backend).concat(")"));
        self.busy = false;
    }

    /// Reading `path` failed with `err`: a cached preview, when there is
    /// one, is loaded as unsaved text.
    pub fn open_failed(&mut self, path: &str, err: &str, cache: CacheFallback)
        ensures
            match cache {
                CacheFallback::Hit(text) => final(self)@ == with_error(
                    PanelView {
                        editor_path: Some(path@),
                        editor_text: text@,
                        editor_dirty: true,
                        busy: false,
                        ..old(self)@
                    },
                    "read failed: "@ + err@ + ". Loaded cached preview; save to restore"@,
                ),
                CacheFallback::Failed(cache_err) => final(self)@ == with_error(
                    PanelView { busy: false, ..old(self)@ },
                    "read failed: "@ + err@ + "; cache fallback failed: "@ + cache_err@,
                ),
                _ => final(self)@ == with_error(PanelView { busy: false, ..old(self)@ }, "read failed: "@ + err@),
            },
    {
        match cache {
            CacheFallback::Hit(text) => {
                self.editor_path = Some(String::from_str(path));
                self.editor_text = text;
                self.editor_dirty = true;
                set_error(
                    self,
                    String::from_str("read failed: ").concat(err).concat(". Loaded cached preview; save to restore"),
                );
            },
            CacheFallback::Failed(cache_err) => {
                set_error(
                    self,
                    String::from_str("read failed: ").concat(err).concat("; cache fallback failed: ").concat(
                        cache_err.as_str(),
                    ),
                );
            },
            _ => {
                set_error(self, String::from_str("read failed: ").concat(err));
            },
        }
        self.busy = false;
    }

    /// Starts saving the editor: the path and text to write, or an error
    /// when no file is open.
    pub fn begin_save(&mut self) -> (r: Option<(String, String)>)
        ensures
            match old(self)@.editor_path {
                Some(p) => r matches Some(req) && req.0@ == p && req.1@ == old(self)@.editor_text
                    && final(self)@ == (PanelView { busy: true, ..old(self)@ }),
                None => r is None && final(self)@ == with_error(old(self)@, "No file is open in the editor"@),
            },
    {
        match &self.editor_path {
            Some(p) => {
                let req = (p.clone(), self.editor_text.clone());
                self.busy = true;
                Some(req)
            },
            None => {
                set_error(self, String::from_str("No file is open in the editor"));
                None
            },
        }
    }

    /// The editor was saved to `saved_path`: the text is clean, and the
    /// directory of the file written, `written_path`, is to be listed again.
    pub fn saved(&mut self, written_path: &str, saved_path: &str) -> (r: String)
        ensures
            r@ == parent_of(written_path@),
            final(self)@ == with_notice(
                PanelView { editor_dirty: false, busy: false, ..old(self)@ },
                "Saved "@ + saved_path@,
            ),
    {
        self.editor_dirty = false;
        set_notice(self, String::from_str("Saved ").concat(saved_path));
        self.busy = false;
        parent_path(written_path)
    }

    /// Saving failed.
    pub fn save_failed(&mut self, err: &str)
        ensures
            final(self)@ == with_error(PanelView { busy: false, ..old(self)@ }, "save failed: "@ + err@),
    {
        set_error(self, String::from_str("save failed: ").concat(err));
        self.busy = false;
    }

    /// Starts creating an entry named `name` in the current directory: the
    /// path to create.
    pub fn begin_create(&mut self, name: &str) -> (r: String)
        ensures
            r@ == joined_path(old(self)@.cwd, name@),
            final(self)@ == (PanelView { busy: true, ..old(self)@ }),
    {
        self.busy = true;
        join_path(self.cwd.as_str(), name)
    }

    /// A folder was created: its parent is to be listed again.
    pub fn folder_created(&mut self, path: &str) -> (r: String)
        ensures
            r@ == parent_of(path@),
            final(self)@ == with_notice(PanelView { busy: false, ..old(self)@ }, "Created folder "@ + path@),
    {
        set_notice(self, String::from_str("Created folder ").concat(path));
        self.busy = false;
        parent_path(path)
    }

    /// A file was created: it is selected, its parent is to be listed
    /// again and the file opened.
    pub fn file_created(&mut self, path: &str) -> (r: String)
        ensures
            r@ == parent_of(path@),
            final(self)@ == with_notice(
                PanelView { selected_path: Some(path@), busy: false, ..old(self)@ },
                "Created file "@ + path@,
            ),
    {
        self.selected_path = Some(String::from_str(path));
        set_notice(self, String::from_str("Created file ").concat(path));
        self.busy = false;
        parent_path(path)
    }

    /// Creating an entry failed; `what` is `folder` or `file`.
    pub fn create_failed(&mut self, what: &str, err: &str)
        ensures
            final(self)@ == with_error(
                PanelView { busy: false, ..old(self)@ },
                "create "@ + what@ + " failed: "@ + err@,
            ),
    {
        set_error(self, String::from_str("create ").concat(what).concat(" failed: ").concat(err));
        self.busy = false;
    }

    /// Starts deleting the selection: the path to delete, or an error when
    /// nothing or the root is selected.
    pub fn begin_delete(&mut self) -> (r: Option<String>)
        ensures
            match old(self)@.selected_path {
                None => r is None && final(self)@ == with_error(old(self)@, "Select a file or folder to delete"@),
                Some(p) => if p == "/"@ {
                    r is None && final(self)@ == with_error(old(self)@, "Cannot delete the root directory"@)
                } else {
                    r matches Some(q) && q@ == p && final(self)@ == (PanelView { busy: true, ..old(self)@ })
                },
            },
    {
        match &self.selected_path {
            None => {
                set_error(self, String::from_str("Select a file or folder to delete"));
                None
            },
            Some(p) => {
                if str_eq(p.as_str(), "/") {
                    set_error(self, String::from_str("Cannot delete the root directory"));
                    None
                } else {
                    let q = p.clone();
                    self.busy = true;
                    Some(q)
                }
            },
        }
    }

    /// `path` was deleted: an editor showing it is emptied, the selection
    /// is dropped, and the parent is to be listed again.
    pub fn deleted(&mut self, path: &str) -> (r: String)
        ensures
            r@ == parent_of(path@),
            ({
                let cleared = if old(self)@.editor_path == Some(path@) {
                    PanelView { editor_path: None, editor_text: Seq::empty(), editor_dirty: false, ..old(self)@ }
                } else {
                    old(self)@
                };
                final(self)@ == with_notice(
                    PanelView { selected_path: None, busy: false, ..cleared },
                    "Deleted "@ + path@,
                )
            }),
    {
        let shows_it = match &self.editor_path {
            Some(e) => str_eq(e.as_str(), path),
            None => false,
        };
        if shows_it {
            self.editor_path = None;
            self.editor_text = String::new();
            self.editor_dirty = false;
        }
        self.selected_path = None;
        set_notice(self, String::from_str("Deleted ").concat(path));
        self.busy = false;
        parent_path(path)
    }

    /// Deleting failed.
    pub fn delete_failed(&mut self, err: &str)
        ensures
            final(self)@ == with_error(PanelView { busy: false, ..old(self)@ }, "delete failed: "@ + err@),
    {
        set_error(self, String::from_str("delete failed: ").concat(err));
        self.busy = false;
    }

    /// A native folder was connected: the panel returns to the root,
    /// which is to be listed.
    pub fn native_connected(&mut self) -> (r: String)
        ensures
            r@ == "/"@,
            final(self)@ == with_notice(PanelView { cwd: "/"@, busy: false, ..old(self)@ }, "Native folder connected"@),
    {
        self.cwd = String::from_str("/");
        set_notice(self, String::from_str("Native folder connected"));
        self.busy = false;
        String::from_str("/")
    }

    /// Connecting a native folder failed.
    pub fn connect_failed(&mut self, err: &str)
        ensures
            final(self)@ == with_error(PanelView { busy: false, ..old(self)@ }, "connect folder failed: "@ + err@),
    {
        set_error(self, String::from_str("connect folder failed: ").concat(err));
        self.busy = false;
    }

    /// The permission state changed; `permission` names it.
    pub fn permission_changed(&mut self, permission: &str)
        ensures
            final(self)@ == with_notice(old(self)@, "Permission: "@ + permission@),
    {
        set_notice(self, String::from_str("Permission: ").concat(permission));
    }

    /// Requesting a permission failed.
    pub fn permission_failed(&mut self, err: &str)
        ensures
            final(self)@ == with_error(old(self)@, "permission request failed: "@ + err@),
    {
        set_error(self, String::from_str("permission request failed: ").concat(err));
    }

    /// Shows the host's native-folder caption while no other message is up.
    pub fn show_native_status(&mut self, caption: &str)
        ensures
            old(self)@.notice is None && old(self)@.error is None ==> final(self)@ == with_notice(old(self)@, caption@),
            !(old(self)@.notice is None && old(self)@.error is None) ==> final(self)@ == old(self)@,
    {
        if self.notice.is_none() && self.error.is_none() {
            set_notice(self, String::from_str(caption));
        }
    }
}

} // verus!
