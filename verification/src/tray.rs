//! Tray-menu state: the actions a tray menu can request and the paused flag
//! with the labels it selects. Rendering the tray itself happens outside the
//! library.

use vstd::prelude::*;

verus! {

/// An action requested through the tray menu.
#[derive(Debug, Clone, Copy, PartialEq, Eq, Structural)]
pub enum TrayAction {
    ShowLauncher,
    KeystrokeMode,
    BubbleMode,
    OpenSettings,
    TogglePause,
    Quit,
}

/// The tray's view of the capture state.
#[derive(Debug, Clone, Copy, PartialEq, Eq, Structural)]
pub struct TrayState {
    pub paused: bool,
}

impl Default for TrayState {
    /// Capture starts out running.
    fn default() -> (r: Self)
        ensures
            !r.paused,
    {
        TrayState { paused: false }
    }
}

impl TrayState {
    /// The status word shown in the tray tooltip.
    pub fn status_text(&self) -> (r: &'static str)
        ensures
            self.paused ==> r@ == "Paused"@,
            !self.paused ==> r@ == "Running"@,
    {
        if self.paused {
            "Paused"
        } else {
            "Running"
        }
    }

    /// The label of the pause menu entry: the action it would take.
    pub fn pause_label(&self) -> (r: &'static str)
        ensures
            self.paused ==> r@ == "Resume"@,
            !self.paused ==> r@ == "Pause"@,
    {
        if self.paused {
            "Resume"
        } else {
            "Pause"
        }
    }

    /// Flip the paused flag.
    pub fn toggle(&mut self)
        ensures
            final(self).paused == !old(self).paused,
    {
        self.paused = !self.paused;
    }
}

} // verus!
