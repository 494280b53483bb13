//! Semantic names of the shell icons that the verified decisions pick.

use vstd::prelude::*;

verus! {

/// A semantic shell icon; the host maps each to its glyph.
#[derive(Debug, Clone, Copy, PartialEq, Eq, Structural)]
pub enum IconName {
    Calculator,
    ExplorerFolder,
    DocumentText,
    PaintBrush,
    Terminal,
    Settings,
    Connect,
    WindowMultiple,
    DesktopArrowDown,
    WifiOn,
    WifiOff,
    Checkmark,
    Dismiss,
    MotionOn,
    MotionOff,
}

} // verus!
