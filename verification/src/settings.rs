//! The user's settings, and the decisions that follow from them.

use vstd::prelude::*;
use crate::text::contains_string;

verus! {

/// What the user has chosen.
#[derive(Debug, Clone, Copy, PartialEq, Eq, Structural)]
pub struct AppSettings {
    pub start_with_windows: bool,
    pub minimize_to_tray: bool,
    pub check_updates_on_startup: bool,
}

/// The style bit of a minimized window.
pub const WS_MINIMIZE: u32 = 0x20000000;

/// The name under which the application registers itself to start with
/// the session.
pub open spec fn autostart_name() -> Seq<char> {
    "GLaunch"@
}

/// What has to be done to the session's start-up entries.
#[derive(Debug, Clone, Copy, PartialEq, Eq, Structural)]
pub enum AutostartAction {
    /// Register the application.
    Register,
    /// Remove the application's entry.
    Remove,
    /// Leave the entries alone.
    Keep,
}

impl AppSettings {
    /// The settings of a fresh install.
    pub open spec fn initial() -> AppSettings {
        AppSettings { start_with_windows: false, minimize_to_tray: true, check_updates_on_startup: true }
    }

    /// Whether closing a window with the given style hides it to the
    /// tray: the user wants so, and the window is not minimized.
    pub open spec fn hides_to_tray(self, window_style: u32) -> bool {
        self.minimize_to_tray && window_style & WS_MINIMIZE == 0
    }

    /// Whether closing a window with the given style hides it to the
    /// tray: see [`Self::hides_to_tray`].
    pub fn should_minimize_to_tray(&self, window_style: u32) -> (r: bool)
        ensures
            r == self.hides_to_tray(window_style),
    {
        if !self.minimize_to_tray {
            return false;
        }
        window_style & WS_MINIMIZE == 0
    }

    /// What has to be done to the session's start-up entries, given the
    /// names of the entries that are there: register the application if
    /// the user wants it started, else remove its entry if there is one.
    pub fn autostart_action(&self, entries: &Vec<String>) -> (r: AutostartAction)
        ensures
            r == if self.start_with_windows {
                AutostartAction::Register
            } else if entries.deep_view().contains(autostart_name()) {
                AutostartAction::Remove
            } else {
                AutostartAction::Keep
            },
    {
        if self.start_with_windows {
            AutostartAction::Register
        } else if contains_string(entries, "GLaunch") {
            AutostartAction::Remove
        } else {
            AutostartAction::Keep
        }
    }
}

impl Default for AppSettings {
    fn default() -> (s: AppSettings)
        ensures
            s == AppSettings::initial(),
    {
        AppSettings { start_with_windows: false, minimize_to_tray: true, check_updates_on_startup: true }
    }
}

} // verus!
