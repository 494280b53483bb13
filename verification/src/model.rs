//! Window-manager state model: windows, theme, preferences, snapshots and
//! pointer interaction sessions, each with a mathematical view.

use vstd::prelude::*;
use serde_json::Value;
use crate::json::json_null;
use crate::strings::owned;

verus! {

pub const DESKTOP_LAYOUT_SCHEMA_VERSION: u32 = 1;
pub const DEFAULT_WINDOW_WIDTH: i32 = 420;
pub const DEFAULT_WINDOW_HEIGHT: i32 = 300;

/// Runtime identifier of a window.
#[derive(Debug, Clone, Copy, PartialEq, Eq, Structural)]
pub struct WindowId(pub u64);

/// Built-in desktop applications.
#[derive(Debug, Clone, Copy, PartialEq, Eq, Structural)]
pub enum AppId {
    Calculator,
    Explorer,
    Notepad,
    Paint,
    Terminal,
    Dialup,
}

pub open spec fn app_title_view(a: AppId) -> Seq<char> {
    match a {
        AppId::Calculator => "Calculator"@,
        AppId::Explorer => "Explorer"@,
        AppId::Notepad => "Notepad"@,
        AppId::Paint => "Paint"@,
        AppId::Terminal => "Terminal"@,
        AppId::Dialup => "Dial-up"@,
    }
}

pub open spec fn app_icon_view(a: AppId) -> Seq<char> {
    match a {
        AppId::Calculator => "calculator"@,
        AppId::Explorer => "folder"@,
        AppId::Notepad => "notepad"@,
        AppId::Paint => "paint"@,
        AppId::Terminal => "terminal"@,
        AppId::Dialup => "modem"@,
    }
}

impl AppId {
    /// Window title used when an open request names none.
    pub fn title(self) -> (r: &'static str)
        ensures
            r@ == app_title_view(self),
    {
        match self {
            AppId::Calculator => "Calculator",
            AppId::Explorer => "Explorer",
            AppId::Notepad => "Notepad",
            AppId::Paint => "Paint",
            AppId::Terminal => "Terminal",
            AppId::Dialup => "Dial-up",
        }
    }

    /// Icon id used when an open request names none.
    pub fn icon_id(self) -> (r: &'static str)
        ensures
            r@ == app_icon_view(self),
    {
        match self {
            AppId::Calculator => "calculator",
            AppId::Explorer => "folder",
            AppId::Notepad => "notepad",
            AppId::Paint => "paint",
            AppId::Terminal => "terminal",
            AppId::Dialup => "modem",
        }
    }
}

/// Window rectangle in desktop pixels.
#[derive(Debug, Clone, Copy, PartialEq, Eq, Structural)]
pub struct WindowRect {
    pub x: i32,
    pub y: i32,
    pub w: i32,
    pub h: i32,
}

pub open spec fn max_i32(a: i32, b: i32) -> i32 {
    if a >= b { a } else { b }
}

pub fn i32_max(a: i32, b: i32) -> (r: i32)
    ensures
        r == max_i32(a, b),
{
    if a >= b { a } else { b }
}

pub open spec fn offset_fits(r: WindowRect, dx: i32, dy: i32) -> bool {
    i32::MIN <= r.x + dx <= i32::MAX && i32::MIN <= r.y + dy <= i32::MAX
}

pub open spec fn offset_spec(r: WindowRect, dx: i32, dy: i32) -> WindowRect {
    WindowRect { x: (r.x + dx) as i32, y: (r.y + dy) as i32, ..r }
}

pub open spec fn clamped_min_spec(r: WindowRect, min_w: i32, min_h: i32) -> WindowRect {
    WindowRect { w: max_i32(r.w, min_w), h: max_i32(r.h, min_h), ..r }
}

impl WindowRect {
    /// The rectangle moved by `(dx, dy)`.
    pub fn offset(self, dx: i32, dy: i32) -> (r: Self)
        requires
            offset_fits(self, dx, dy),
        ensures
            r == offset_spec(self, dx, dy),
    {
        WindowRect { x: self.x + dx, y: self.y + dy, ..self }
    }

    /// The rectangle grown to at least `min_w` by `min_h`.
    pub fn clamped_min(self, min_w: i32, min_h: i32) -> (r: Self)
        ensures
            r == clamped_min_spec(self, min_w, min_h),
            r.w >= min_w && r.h >= min_h,
            r.x == self.x && r.y == self.y,
    {
        WindowRect { w: i32_max(self.w, min_w), h: i32_max(self.h, min_h), ..self }
    }
}

impl Default for WindowRect {
    fn default() -> (r: Self)
        ensures
            r == (WindowRect { x: 48, y: 48, w: DEFAULT_WINDOW_WIDTH, h: DEFAULT_WINDOW_HEIGHT }),
    {
        WindowRect { x: 48, y: 48, w: DEFAULT_WINDOW_WIDTH, h: DEFAULT_WINDOW_HEIGHT }
    }
}

/// Per-window capability flags.
#[derive(Debug, Clone, Copy, PartialEq, Eq, Structural)]
pub struct WindowFlags {
    pub resizable: bool,
    pub minimizable: bool,
    pub maximizable: bool,
    pub modal_parent: Option<WindowId>,
}

impl Default for WindowFlags {
    fn default() -> (r: Self)
        ensures
            r == (WindowFlags {
                resizable: true,
                minimizable: true,
                maximizable: true,
                modal_parent: None,
            }),
    {
        WindowFlags { resizable: true, minimizable: true, maximizable: true, modal_parent: None }
    }
}

/// One managed window.
#[derive(Debug, Clone, PartialEq)]
pub struct WindowRecord {
    pub id: WindowId,
    pub app_id: AppId,
    pub title: String,
    pub icon_id: String,
    pub rect: WindowRect,
    pub restore_rect: Option<WindowRect>,
    pub z_index: u32,
    pub is_focused: bool,
    pub minimized: bool,
    pub maximized: bool,
    pub flags: WindowFlags,
    pub persist_key: Option<String>,
    pub app_state: Value,
    pub launch_params: Value,
}

/// Mathematical view of a window: texts as character sequences.
pub struct WindowView {
    pub id: WindowId,
    pub app_id: AppId,
    pub title: Seq<char>,
    pub icon_id: Seq<char>,
    pub rect: WindowRect,
    pub restore_rect: Option<WindowRect>,
    pub z_index: u32,
    pub is_focused: bool,
    pub minimized: bool,
    pub maximized: bool,
    pub flags: WindowFlags,
    pub persist_key: Option<Seq<char>>,
    pub app_state: Value,
    pub launch_params: Value,
}

pub open spec fn opt_string_view(s: Option<String>) -> Option<Seq<char>> {
    match s {
        Some(t) => Some(t@),
        None => None,
    }
}

pub fn clone_opt_string(s: &Option<String>) -> (r: Option<String>)
    ensures
        opt_string_view(r) == opt_string_view(*s),
{
    match s {
        Some(t) => Some(t.clone()),
        None => None,
    }
}

impl View for WindowRecord {
    type V = WindowView;

    open spec fn view(&self) -> WindowView {
        WindowView {
            id: self.id,
            app_id: self.app_id,
            title: self.title@,
            icon_id: self.icon_id@,
            rect: self.rect,
            restore_rect: self.restore_rect,
            z_index: self.z_index,
            is_focused: self.is_focused,
            minimized: self.minimized,
            maximized: self.maximized,
            flags: self.flags,
            persist_key: opt_string_view(self.persist_key),
            app_state: self.app_state,
            launch_params: self.launch_params,
        }
    }
}

pub open spec fn windows_view(ws: Seq<WindowRecord>) -> Seq<WindowView> {
    ws.map_values(|w: WindowRecord| w@)
}

impl WindowRecord {
    /// A copy with the same view.
    pub fn duplicate(&self) -> (r: Self)
        ensures
            r@ == self@,
    {
        WindowRecord {
            id: self.id,
            app_id: self.app_id,
            title: self.title.clone(),
            icon_id: self.icon_id.clone(),
            rect: self.rect,
            restore_rect: self.restore_rect,
            z_index: self.z_index,
            is_focused: self.is_focused,
            minimized: self.minimized,
            maximized: self.maximized,
            flags: self.flags,
            persist_key: clone_opt_string(&self.persist_key),
            app_state: self.app_state.clone(),
            launch_params: self.launch_params.clone(),
        }
    }
}

pub fn duplicate_windows(ws: &Vec<WindowRecord>) -> (r: Vec<WindowRecord>)
    ensures
        windows_view(r@) == windows_view(ws@),
{
    let mut out: Vec<WindowRecord> = Vec::new();
    let mut i: usize = 0;
    while i < ws.len()
        invariant
            i <= ws@.len(),
            out@.len() == i,
            forall|j: int| 0 <= j < i ==> #[trigger] out@[j]@ == ws@[j]@,
        decreases ws@.len() - i,
    {
        out.push(ws[i].duplicate());
        i = i + 1;
    }
    assert(windows_view(out@) =~= windows_view(ws@));
    out
}

/// Desktop theme settings.
#[derive(Debug, Clone, PartialEq, Eq)]
pub struct DesktopTheme {
    pub name: String,
    pub wallpaper_id: String,
    pub high_contrast: bool,
    pub reduced_motion: bool,
    pub audio_enabled: bool,
}

pub struct ThemeView {
    pub name: Seq<char>,
    pub wallpaper_id: Seq<char>,
    pub high_contrast: bool,
    pub reduced_motion: bool,
    pub audio_enabled: bool,
}

impl View for DesktopTheme {
    type V = ThemeView;

    open spec fn view(&self) -> ThemeView {
        ThemeView {
            name: self.name@,
            wallpaper_id: self.wallpaper_id@,
            high_contrast: self.high_contrast,
            reduced_motion: self.reduced_motion,
            audio_enabled: self.audio_enabled,
        }
    }
}

pub open spec fn default_theme_view() -> ThemeView {
    ThemeView {
        name: "Retro Classic"@,
        wallpaper_id: "teal-solid"@,
        high_contrast: false,
        reduced_motion: false,
        audio_enabled: false,
    }
}

impl DesktopTheme {
    /// A copy with the same view.
    pub fn duplicate(&self) -> (r: Self)
        ensures
            r@ == self@,
    {
        DesktopTheme {
            name: self.name.clone(),
            wallpaper_id: self.wallpaper_id.clone(),
            high_contrast: self.high_contrast,
            reduced_motion: self.reduced_motion,
            audio_enabled: self.audio_enabled,
        }
    }
}

impl Default for DesktopTheme {
    fn default() -> (r: Self)
        ensures
            r@ == default_theme_view(),
    {
        DesktopTheme {
            name: owned("Retro Classic"),
            wallpaper_id: owned("teal-solid"),
            high_contrast: false,
            reduced_motion: false,
            audio_enabled: false,
        }
    }
}

/// Desktop behaviour preferences.
#[derive(Debug, Clone, Copy, PartialEq, Eq, Structural)]
pub struct DesktopPreferences {
    pub restore_on_boot: bool,
    pub max_restore_windows: usize,
    pub terminal_history_enabled: bool,
}

pub open spec fn default_preferences() -> DesktopPreferences {
    DesktopPreferences { restore_on_boot: true, max_restore_windows: 5, terminal_history_enabled: true }
}

impl Default for DesktopPreferences {
    fn default() -> (r: Self)
        ensures
            r == default_preferences(),
    {
        DesktopPreferences { restore_on_boot: true, max_restore_windows: 5, terminal_history_enabled: true }
    }
}

pub open spec fn strings_view(v: Seq<String>) -> Seq<Seq<char>> {
    v.map_values(|s: String| s@)
}

pub fn duplicate_strings(v: &Vec<String>) -> (r: Vec<String>)
    ensures
        strings_view(r@) == strings_view(v@),
{
    let mut out: Vec<String> = Vec::new();
    let mut i: usize = 0;
    while i < v.len()
        invariant
            i <= v@.len(),
            out@.len() == i,
            forall|j: int| 0 <= j < i ==> #[trigger] out@[j]@ == v@[j]@,
        decreases v@.len() - i,
    {
        out.push(v[i].clone());
        i = i + 1;
    }
    assert(strings_view(out@) =~= strings_view(v@));
    out
}

/// The whole desktop state the reducer transforms.
#[derive(Debug, Clone, PartialEq)]
pub struct DesktopState {
    pub next_window_id: u64,
    pub windows: Vec<WindowRecord>,
    pub start_menu_open: bool,
    pub active_modal: Option<WindowId>,
    pub theme: DesktopTheme,
    pub preferences: DesktopPreferences,
    pub last_explorer_path: Option<String>,
    pub last_notepad_slug: Option<String>,
    pub terminal_history: Vec<String>,
}

pub struct DesktopView {
    pub next_window_id: u64,
    pub windows: Seq<WindowView>,
    pub start_menu_open: bool,
    pub active_modal: Option<WindowId>,
    pub theme: ThemeView,
    pub preferences: DesktopPreferences,
    pub last_explorer_path: Option<Seq<char>>,
    pub last_notepad_slug: Option<Seq<char>>,
    pub terminal_history: Seq<Seq<char>>,
}

impl View for DesktopState {
    type V = DesktopView;

    open spec fn view(&self) -> DesktopView {
        DesktopView {
            next_window_id: self.next_window_id,
            windows: windows_view(self.windows@),
            start_menu_open: self.start_menu_open,
            active_modal: self.active_modal,
            theme: self.theme@,
            preferences: self.preferences,
            last_explorer_path: opt_string_view(self.last_explorer_path),
            last_notepad_slug: opt_string_view(self.last_notepad_slug),
            terminal_history: strings_view(self.terminal_history@),
        }
    }
}

pub open spec fn default_desktop_view() -> DesktopView {
    DesktopView {
        next_window_id: 1,
        windows: Seq::empty(),
        start_menu_open: false,
        active_modal: None,
        theme: default_theme_view(),
        preferences: default_preferences(),
        last_explorer_path: None,
        last_notepad_slug: None,
        terminal_history: Seq::empty(),
    }
}

impl Default for DesktopState {
    fn default() -> (r: Self)
        ensures
            r@ == default_desktop_view(),
    {
        let r = DesktopState {
            next_window_id: 1,
            windows: Vec::new(),
            start_menu_open: false,
            active_modal: None,
            theme: DesktopTheme::default(),
            preferences: DesktopPreferences::default(),
            last_explorer_path: None,
            last_notepad_slug: None,
            terminal_history: Vec::new(),
        };
        assert(r@.windows =~= Seq::<WindowView>::empty());
        assert(r@.terminal_history =~= Seq::<Seq<char>>::empty());
        r
    }
}

/// Whether window `i` is the first focused, visible window.
pub open spec fn first_focused_index(ws: Seq<WindowView>, i: int) -> bool {
    &&& 0 <= i < ws.len()
    &&& ws[i].is_focused
    &&& forall|j: int| 0 <= j < i ==> !(#[trigger] ws[j]).is_focused
}

/// Id of the first focused window, if any.
pub open spec fn focused_window_spec(ws: Seq<WindowView>) -> Option<WindowId> {
    if exists|i: int| first_focused_index(ws, i) {
        Some(ws[choose|i: int| first_focused_index(ws, i)].id)
    } else {
        None
    }
}

impl DesktopState {
    /// Id of the focused window (the first one flagged focused).
    pub fn focused_window_id(&self) -> (r: Option<WindowId>)
        ensures
            r == focused_window_spec(self@.windows),
    {
        let ghost ws = self@.windows;
        let mut i: usize = 0;
        while i < self.windows.len()
            invariant
                ws == self@.windows,
                ws.len() == self.windows@.len(),
                i <= ws.len(),
                forall|j: int| 0 <= j < i ==> !(#[trigger] ws[j]).is_focused,
            decreases ws.len() - i,
        {
            if self.windows[i].is_focused {
                assert(ws[i as int] == self.windows@[i as int]@);
                assert(first_focused_index(ws, i as int));
                proof {
                    let k = choose|k: int| first_focused_index(ws, k);
                    assert(k == i) by {
                        if k < i {
                            assert(!ws[k].is_focused);
                        } else if k > i {
                            assert(!ws[i as int].is_focused);
                        }
                    }
                }
                return Some(self.windows[i].id);
            }
            assert(ws[i as int] == self.windows@[i as int]@);
            i = i + 1;
        }
        assert(!exists|k: int| first_focused_index(ws, k));
        None
    }
}


/// Persisted desktop layout.
#[derive(Debug, Clone, PartialEq)]
pub struct DesktopSnapshot {
    pub schema_version: u32,
    pub theme: DesktopTheme,
    pub preferences: DesktopPreferences,
    pub windows: Vec<WindowRecord>,
    pub last_explorer_path: Option<String>,
    pub last_notepad_slug: Option<String>,
    pub terminal_history: Vec<String>,
}

pub struct SnapshotView {
    pub schema_version: u32,
    pub theme: ThemeView,
    pub preferences: DesktopPreferences,
    pub windows: Seq<WindowView>,
    pub last_explorer_path: Option<Seq<char>>,
    pub last_notepad_slug: Option<Seq<char>>,
    pub terminal_history: Seq<Seq<char>>,
}

impl View for DesktopSnapshot {
    type V = SnapshotView;

    open spec fn view(&self) -> SnapshotView {
        SnapshotView {
            schema_version: self.schema_version,
            theme: self.theme@,
            preferences: self.preferences,
            windows: windows_view(self.windows@),
            last_explorer_path: opt_string_view(self.last_explorer_path),
            last_notepad_slug: opt_string_view(self.last_notepad_slug),
            terminal_history: strings_view(self.terminal_history@),
        }
    }
}

/// Largest window id in `ws`, or 0 when there is none.
pub open spec fn max_window_id(ws: Seq<WindowView>) -> u64
    decreases ws.len(),
{
    if ws.len() == 0 {
        0
    } else {
        let rest = max_window_id(ws.drop_last());
        if ws.last().id.0 > rest { ws.last().id.0 } else { rest }
    }
}

pub open spec fn saturating_inc(v: u64) -> u64 {
    if v == u64::MAX { u64::MAX } else { (v + 1) as u64 }
}

pub open spec fn snapshot_spec(s: DesktopView) -> SnapshotView {
    SnapshotView {
        schema_version: DESKTOP_LAYOUT_SCHEMA_VERSION,
        theme: s.theme,
        preferences: s.preferences,
        windows: s.windows,
        last_explorer_path: s.last_explorer_path,
        last_notepad_slug: s.last_notepad_slug,
        terminal_history: s.terminal_history,
    }
}

/// The state a snapshot restores: fresh runtime flags, the snapshot's
/// contents, and the next id one past the largest restored id.
pub open spec fn from_snapshot_spec(snap: SnapshotView) -> DesktopView {
    DesktopView {
        next_window_id: saturating_inc(max_window_id(snap.windows)),
        windows: snap.windows,
        start_menu_open: false,
        active_modal: None,
        theme: snap.theme,
        preferences: snap.preferences,
        last_explorer_path: snap.last_explorer_path,
        last_notepad_slug: snap.last_notepad_slug,
        terminal_history: snap.terminal_history,
    }
}

pub proof fn lemma_max_window_id_bounds(ws: Seq<WindowView>)
    ensures
        forall|i: int| 0 <= i < ws.len() ==> (#[trigger] ws[i]).id.0 <= max_window_id(ws),
        ws.len() > 0 ==> exists|i: int| 0 <= i < ws.len() && (#[trigger] ws[i]).id.0 == max_window_id(ws),
    decreases ws.len(),
{
    if ws.len() > 0 {
        lemma_max_window_id_bounds(ws.drop_last());
        assert forall|i: int| 0 <= i < ws.len() implies (#[trigger] ws[i]).id.0 <= max_window_id(ws) by {
            if i < ws.len() - 1 {
                assert(ws.drop_last()[i] == ws[i]);
            }
        }
        if ws.drop_last().len() > 0 && max_window_id(ws) == max_window_id(ws.drop_last()) {
            let k = choose|k: int| 0 <= k < ws.drop_last().len() && (#[trigger] ws.drop_last()[k]).id.0
                == max_window_id(ws.drop_last());
            assert(ws[k] == ws.drop_last()[k]);
        } else {
            assert(ws[ws.len() - 1].id.0 == max_window_id(ws));
        }
    }
}

fn max_id_of(ws: &Vec<WindowRecord>) -> (r: u64)
    ensures
        r == max_window_id(windows_view(ws@)),
{
    let ghost v = windows_view(ws@);
    let mut best: u64 = 0;
    let mut i: usize = 0;
    while i < ws.len()
        invariant
            v == windows_view(ws@),
            i <= ws@.len(),
            best == max_window_id(v.subrange(0, i as int)),
        decreases ws@.len() - i,
    {
        assert(v.subrange(0, i + 1).drop_last() =~= v.subrange(0, i as int));
        if ws[i].id.0 > best {
            best = ws[i].id.0;
        }
        i = i + 1;
    }
    assert(v.subrange(0, i as int) =~= v);
    best
}

impl DesktopState {
    /// The persisted layout of this state.
    pub fn snapshot(&self) -> (r: DesktopSnapshot)
        ensures
            r@ == snapshot_spec(self@),
    {
        DesktopSnapshot {
            schema_version: DESKTOP_LAYOUT_SCHEMA_VERSION,
            theme: self.theme.duplicate(),
            preferences: self.preferences,
            windows: duplicate_windows(&self.windows),
            last_explorer_path: clone_opt_string(&self.last_explorer_path),
            last_notepad_slug: clone_opt_string(&self.last_notepad_slug),
            terminal_history: duplicate_strings(&self.terminal_history),
        }
    }

    /// Restores a state from a snapshot.
    pub fn from_snapshot(snapshot: DesktopSnapshot) -> (r: Self)
        ensures
            r@ == from_snapshot_spec(snapshot@),
    {
        let next = max_id_of(&snapshot.windows).saturating_add(1);
        DesktopState {
            next_window_id: next,
            windows: snapshot.windows,
            start_menu_open: false,
            active_modal: None,
            theme: snapshot.theme,
            preferences: snapshot.preferences,
            last_explorer_path: snapshot.last_explorer_path,
            last_notepad_slug: snapshot.last_notepad_slug,
            terminal_history: snapshot.terminal_history,
        }
    }
}

/// Request to open one window.
#[derive(Debug, Clone, PartialEq)]
pub struct OpenWindowRequest {
    pub app_id: AppId,
    pub title: Option<String>,
    pub icon_id: Option<String>,
    pub rect: Option<WindowRect>,
    pub persist_key: Option<String>,
    pub launch_params: Value,
    pub app_state: Value,
    pub flags: WindowFlags,
}

impl OpenWindowRequest {
    /// A request for `app_id` with every optional field unset, default
    /// flags, and JSON null launch parameters and app state.
    pub fn new(app_id: AppId) -> (r: Self)
        ensures
            r.app_id == app_id,
            r.title.is_none(),
            r.icon_id.is_none(),
            r.rect.is_none(),
            r.persist_key.is_none(),
            r.flags == (WindowFlags {
                resizable: true,
                minimizable: true,
                maximizable: true,
                modal_parent: None,
            }),
    {
        OpenWindowRequest {
            app_id,
            title: None,
            icon_id: None,
            rect: None,
            persist_key: None,
            launch_params: json_null(),
            app_state: json_null(),
            flags: WindowFlags::default(),
        }
    }
}

/// Pointer position in desktop pixels.
#[derive(Debug, Clone, Copy, PartialEq, Eq, Structural)]
pub struct PointerPosition {
    pub x: i32,
    pub y: i32,
}

/// Edge or corner grabbed by a resize.
#[derive(Debug, Clone, Copy, PartialEq, Eq, Structural)]
pub enum ResizeEdge {
    North,
    South,
    East,
    West,
    NorthEast,
    NorthWest,
    SouthEast,
    SouthWest,
}

/// An in-progress window drag.
#[derive(Debug, Clone, Copy, PartialEq, Eq, Structural)]
pub struct DragSession {
    pub window_id: WindowId,
    pub pointer_start: PointerPosition,
    pub rect_start: WindowRect,
}

/// An in-progress window resize.
#[derive(Debug, Clone, Copy, PartialEq, Eq, Structural)]
pub struct ResizeSession {
    pub window_id: WindowId,
    pub edge: ResizeEdge,
    pub pointer_start: PointerPosition,
    pub rect_start: WindowRect,
}

/// Pointer interaction state kept beside the desktop state.
#[derive(Debug, Clone, Copy, PartialEq, Eq, Structural)]
pub struct InteractionState {
    pub dragging: Option<DragSession>,
    pub resizing: Option<ResizeSession>,
    pub desktop_selection_origin: Option<PointerPosition>,
}

impl Default for InteractionState {
    fn default() -> (r: Self)
        ensures
            r == (InteractionState { dragging: None, resizing: None, desktop_selection_origin: None }),
    {
        InteractionState { dragging: None, resizing: None, desktop_selection_origin: None }
    }
}

/// A deep-link target parsed from the page URL.
#[derive(Debug, Clone, PartialEq, Eq)]
pub enum DeepLinkOpenTarget {
    App(AppId),
    NotesSlug(String),
    ProjectSlug(String),
}

/// Deep-link instructions to apply after boot.
#[derive(Debug, Clone, PartialEq, Eq)]
pub struct DeepLinkState {
    pub open: Vec<DeepLinkOpenTarget>,
}

impl Default for DeepLinkState {
    fn default() -> (r: Self)
        ensures
            r.open@.len() == 0,
    {
        DeepLinkState { open: Vec::new() }
    }
}

} // verus!
