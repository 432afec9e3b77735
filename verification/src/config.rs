//! User-declared sensor bindings.

use vstd::prelude::*;

verus! {

/// One configured sensor binding: the bridge-reported name it must match,
/// the OSC destination path its messages go to, and whether redundant
/// publishes are suppressed. Disabled entries are dropped before
/// resolution.
#[derive(Debug, PartialEq, Eq)]
pub struct SensorConfig {
    pub name: String,
    pub enabled: bool,
    pub osc_address: String,
    pub send_changes_only: bool,
}

impl Clone for SensorConfig {
    fn clone(&self) -> (r: Self)
        ensures
            r == *self,
    {
        SensorConfig {
            name: self.name.clone(),
            enabled: self.enabled,
            osc_address: self.osc_address.clone(),
            send_changes_only: self.send_changes_only,
        }
    }
}

impl SensorConfig {
    /// The value `enabled` takes when a config entry leaves it out.
    pub fn enabled_default() -> (b: bool)
        ensures
            b,
    {
        true
    }

    /// The value `send_changes_only` takes when a config entry leaves it
    /// out.
    pub fn send_changes_only_default() -> (b: bool)
        ensures
            !b,
    {
        false
    }
}

} // verus!
