//! The Display Properties dialog of the desktop: which wallpaper preset is
//! selected, the wallpaper to return to on cancel, and the wallpaper
//! actions that preview, apply, confirm or cancel a choice.

use vstd::prelude::*;
use vstd::string::*;
use crate::reducer::DesktopAction;
use crate::taskbar::{lemma_preset_for_idempotent, preset_for, wallpaper_preset_by_id};
use crate::strings::str_eq;

verus! {

/// State of the dialog.
#[derive(Debug, Clone, PartialEq, Eq)]
pub struct DisplayPropertiesSession {
    pub open: bool,
    pub selection: String,
    pub revert_to: Option<String>,
}

pub struct SessionView {
    pub open: bool,
    pub selection: Seq<char>,
    pub revert_to: Option<Seq<char>>,
}

impl View for DisplayPropertiesSession {
    type V = SessionView;

    open spec fn view(&self) -> SessionView {
        SessionView {
            open: self.open,
            selection: self.selection@,
            revert_to: match self.revert_to {
                Some(o) => Some(o@),
                None => None,
            },
        }
    }
}

/// The canonical id of the preset a wallpaper id names.
pub open spec fn preset_id(id: Seq<char>) -> Seq<char> {
    preset_for(id).0
}

pub open spec fn sets_wallpaper(a: DesktopAction, id: Seq<char>) -> bool {
    a matches DesktopAction::SetWallpaper { wallpaper_id } && wallpaper_id@ == id
}

fn preset_id_text(id: &str) -> (r: String)
    ensures
        r@ == preset_id(id@),
{
    String::from_str(wallpaper_preset_by_id(id).id)
}

impl DisplayPropertiesSession {
    /// The closed dialog, following the current wallpaper.
    pub fn closed(current_wallpaper_id: &str) -> (r: Self)
        ensures
            r@ == (SessionView { open: false, selection: preset_id(current_wallpaper_id@), revert_to: None }),
    {
        DisplayPropertiesSession { open: false, selection: preset_id_text(current_wallpaper_id), revert_to: None }
    }

    /// While closed, the selection follows the current wallpaper.
    pub fn sync_with_wallpaper(&mut self, current_wallpaper_id: &str)
        ensures
            old(self).open ==> final(self)@ == old(self)@,
            !old(self).open ==> final(self)@ == (SessionView { selection: preset_id(current_wallpaper_id@), ..old(self)@ }),
    {
        if !self.open {
            self.selection = preset_id_text(current_wallpaper_id);
        }
    }

    /// Opens the dialog on the current wallpaper, remembering it for
    /// cancel; the start menu closes.
    pub fn open_dialog(&mut self, current_wallpaper_id: &str) -> (r: DesktopAction)
        ensures
            final(self)@ == (SessionView {
                open: true,
                selection: preset_id(current_wallpaper_id@),
                revert_to: Some(preset_id(current_wallpaper_id@)),
            }),
            r == DesktopAction::CloseStartMenu,
    {
        let active = preset_id_text(current_wallpaper_id);
        self.revert_to = Some(active.clone());
        self.selection = active;
        self.open = true;
        DesktopAction::CloseStartMenu
    }

    /// Selects a preset in the list.
    pub fn select(&mut self, id: &str)
        ensures
            final(self)@ == (SessionView { selection: id@, ..old(self)@ }),
    {
        self.selection = String::from_str(id);
    }

    /// Shows the selected preset without committing it.
    pub fn preview(&self) -> (r: DesktopAction)
        ensures
            sets_wallpaper(r, preset_id(self.selection@)),
    {
        DesktopAction::SetWallpaper { wallpaper_id: preset_id_text(self.selection.as_str()) }
    }

    /// Applies the selected preset and makes it the one cancel returns to.
    pub fn apply(&mut self) -> (r: DesktopAction)
        ensures
            sets_wallpaper(r, preset_id(old(self).selection@)),
            final(self)@ == (SessionView { revert_to: Some(preset_id(old(self).selection@)), ..old(self)@ }),
    {
        let id = preset_id_text(self.selection.as_str());
        self.revert_to = Some(id.clone());
        DesktopAction::SetWallpaper { wallpaper_id: id }
    }

    /// Confirms the selected preset and closes the dialog.
    pub fn confirm(&mut self) -> (r: DesktopAction)
        ensures
            sets_wallpaper(r, preset_id(old(self).selection@)),
            final(self)@ == (SessionView { open: false, revert_to: None, ..old(self)@ }),
    {
        let id = preset_id_text(self.selection.as_str());
        self.revert_to = None;
        self.open = false;
        DesktopAction::SetWallpaper { wallpaper_id: id }
    }

    /// Closes the dialog, returning to the remembered wallpaper when the
    /// current one differs from it.
    pub fn cancel(&mut self, current_wallpaper_id: &str) -> (r: Option<DesktopAction>)
        ensures
            final(self).open == false,
            final(self).revert_to is None,
            match old(self)@.revert_to {
                Some(o) => {
                    &&& final(self)@.selection == o
                    &&& if preset_id(current_wallpaper_id@) != o {
                        r matches Some(a) && sets_wallpaper(a, o)
                    } else {
                        r is None
                    }
                },
                None => final(self)@.selection == old(self)@.selection && r is None,
            },
    {
        let mut action: Option<DesktopAction> = None;
        if let Some(revert_to) = &self.revert_to {
            let current = preset_id_text(current_wallpaper_id);
            if !str_eq(current.as_str(), revert_to.as_str()) {
                action = Some(DesktopAction::SetWallpaper { wallpaper_id: revert_to.clone() });
            }
            self.selection = revert_to.clone();
        }
        self.revert_to = None;
        self.open = false;
        action
    }
}

/// Cancelling a dialog opened on a wallpaper shows that wallpaper again,
/// whatever was previewed meanwhile: either the current wallpaper already
/// names the same preset, or cancel sets it back.
pub proof fn law_cancel_restores_opening_wallpaper(opened_on: Seq<char>, current: Seq<char>)
    ensures
        ({
            let o = preset_id(opened_on);
            let shown = if preset_id(current) != o {
                o
            } else {
                current
            };
            preset_id(shown) == o
        }),
{
    lemma_preset_for_idempotent(opened_on);
}

/// What the desktop does with a key press that reaches it.
#[derive(Debug, Clone, Copy, PartialEq, Eq, Structural)]
pub enum EscapeOutcome {
    /// The key is not the desktop's to handle.
    Ignore,
    /// Close the open context menu and return focus to the desktop.
    CloseContextMenu,
    /// Cancel the open Display Properties dialog.
    CancelDisplayProperties,
}

/// Escape closes an open context menu first; otherwise it cancels an open
/// Display Properties dialog. Other keys, keys already handled, or an
/// Escape with nothing open are left alone.
pub open spec fn escape_outcome_spec(
    default_prevented: bool,
    key: Seq<char>,
    context_menu_open: bool,
    display_properties_open: bool,
) -> EscapeOutcome {
    if default_prevented || key != "Escape"@ {
        EscapeOutcome::Ignore
    } else if context_menu_open {
        EscapeOutcome::CloseContextMenu
    } else if display_properties_open {
        EscapeOutcome::CancelDisplayProperties
    } else {
        EscapeOutcome::Ignore
    }
}

/// The desktop's answer to a key press (see [`escape_outcome_spec`]).
pub fn escape_outcome(
    default_prevented: bool,
    key: &str,
    context_menu_open: bool,
    display_properties_open: bool,
) -> (r: EscapeOutcome)
    ensures
        r == escape_outcome_spec(default_prevented, key@, context_menu_open, display_properties_open),
{
    if default_prevented || !str_eq(key, "Escape") {
        EscapeOutcome::Ignore
    } else if context_menu_open {
        EscapeOutcome::CloseContextMenu
    } else if display_properties_open {
        EscapeOutcome::CancelDisplayProperties
    } else {
        EscapeOutcome::Ignore
    }
}

} // verus!
