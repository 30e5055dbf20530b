//! Capabilities of each keyer version.

use vstd::prelude::*;

use crate::protocol::types::WinKeyerVersion;

verus! {

/// Capabilities available at a given WinKeyer version level.
#[derive(Debug, Clone, PartialEq, Eq, Structural)]
pub struct VersionCapabilities {
    pub wk3_mode: bool,
    pub read_vcc: bool,
    pub extended_serial: bool,
}

impl VersionCapabilities {
    /// Determine capabilities from a detected version: WK3 mode and supply
    /// voltage readback from WK3 on, extended serial on WK3.1 only.
    pub fn from_version(version: WinKeyerVersion) -> (r: Self)
        ensures
            r.wk3_mode == version.has_wk3(),
            r.read_vcc == version.has_wk3(),
            r.extended_serial == (version == WinKeyerVersion::Wk31),
    {
        match version {
            WinKeyerVersion::Wk2 => VersionCapabilities {
                wk3_mode: false,
                read_vcc: false,
                extended_serial: false,
            },
            WinKeyerVersion::Wk3 => VersionCapabilities {
                wk3_mode: true,
                read_vcc: true,
                extended_serial: false,
            },
            WinKeyerVersion::Wk31 => VersionCapabilities {
                wk3_mode: true,
                read_vcc: true,
                extended_serial: true,
            },
        }
    }
}

} // verus!
