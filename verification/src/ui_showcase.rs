//! State of the UI showcase app: the demo controls and their defaults.

use vstd::prelude::*;
use vstd::string::*;

verus! {

/// The two choices of the showcase's segmented control.
#[derive(Debug, Clone, Copy, PartialEq, Eq, Structural)]
pub enum BinaryChoice {
    Yes,
    No,
}

impl BinaryChoice {
    /// The caption of a choice.
    pub fn label(self) -> (r: &'static str)
        ensures
            r@ == (match self {
                BinaryChoice::Yes => "Yes"@,
                BinaryChoice::No => "No"@,
            }),
    {
        match self {
            BinaryChoice::Yes => "Yes",
            BinaryChoice::No => "No",
        }
    }
}

/// The showcase's demo controls.
#[derive(Debug, Clone, PartialEq, Eq)]
pub struct UiShowcaseState {
    pub binary_choice: BinaryChoice,
    pub switch_enabled: bool,
    pub slider_value: u16,
    pub progress_value: u16,
    pub modal_open: bool,
    pub dial_value: i32,
    pub dropdown_value: String,
}

impl Default for UiShowcaseState {
    fn default() -> (r: Self)
        ensures
            r.binary_choice == BinaryChoice::Yes,
            r.switch_enabled,
            r.slider_value == 64,
            r.progress_value == 72,
            !r.modal_open,
            r.dial_value == 58,
            r.dropdown_value@ == "Soft Surface"@,
    {
        UiShowcaseState {
            binary_choice: BinaryChoice::Yes,
            switch_enabled: true,
            slider_value: 64,
            progress_value: 72,
            modal_open: false,
            dial_value: 58,
            dropdown_value: String::from_str("Soft Surface"),
        }
    }
}

/// Most the slider and the progress bar show.
pub const SLIDER_MAX: u16 = 100;

impl UiShowcaseState {
    /// Moves the slider to `value`, capped at 100; the progress bar follows
    /// it, and the other controls keep their state.
    pub fn set_slider(&mut self, value: u16)
        ensures
            final(self).slider_value == (if value < SLIDER_MAX {
                value
            } else {
                SLIDER_MAX
            }),
            final(self).progress_value == final(self).slider_value,
            final(self).binary_choice == old(self).binary_choice,
            final(self).switch_enabled == old(self).switch_enabled,
            final(self).modal_open == old(self).modal_open,
            final(self).dial_value == old(self).dial_value,
            final(self).dropdown_value@ == old(self).dropdown_value@,
    {
        let capped = if value < SLIDER_MAX {
            value
        } else {
            SLIDER_MAX
        };
        self.slider_value = capped;
        self.progress_value = capped;
    }
}

} // verus!
