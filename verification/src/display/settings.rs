//! Settings of the display task that other tasks change.
use vstd::prelude::*;

verus! {

/// The display task's settings.
#[derive(Debug)]
pub struct Display {
    /// Whether the wifi is enabled in the configuration.
    pub wifi_enabled: bool,
}

impl Display {
    /// The settings at start-up: the wifi counts as enabled.
    pub fn shared() -> (r: Display)
        ensures
            r.wifi_enabled,
    {
        Display { wifi_enabled: true }
    }

    /// Records whether the wifi is enabled.
    pub fn set_enabled_wifi(&mut self, enabled: bool)
        ensures
            final(self).wifi_enabled == enabled,
    {
        self.wifi_enabled = enabled;
    }
}

} // verus!
