//! Backend-neutral keyer metadata.

use vstd::prelude::*;

use crate::protocol::types::WinKeyerVersion;

verus! {

/// Metadata about a keyer backend.
#[derive(Debug, Clone)]
pub struct KeyerInfo {
    pub name: String,
    pub version: String,
    pub port: Option<String>,
}

/// Capability flags for a keyer backend.
#[derive(Debug, Clone, PartialEq, Eq, Structural)]
pub struct KeyerCapabilities {
    pub speed_pot: bool,
    pub sidetone: bool,
    pub ptt_control: bool,
    pub paddle_echo: bool,
    pub prosigns: bool,
    pub buffered_speed: bool,
    pub farnsworth: bool,
    pub contest_spacing: bool,
}

impl Default for KeyerCapabilities {
    /// No capability.
    fn default() -> (r: Self)
        ensures
            r == (KeyerCapabilities {
                speed_pot: false,
                sidetone: false,
                ptt_control: false,
                paddle_echo: false,
                prosigns: false,
                buffered_speed: false,
                farnsworth: false,
                contest_spacing: false,
            }),
    {
        KeyerCapabilities {
            speed_pot: false,
            sidetone: false,
            ptt_control: false,
            paddle_echo: false,
            prosigns: false,
            buffered_speed: false,
            farnsworth: false,
            contest_spacing: false,
        }
    }
}

impl KeyerCapabilities {
    /// What every WinKeyer offers: all of the above.
    pub fn winkeyer() -> (r: Self)
        ensures
            r == (KeyerCapabilities {
                speed_pot: true,
                sidetone: true,
                ptt_control: true,
                paddle_echo: true,
                prosigns: true,
                buffered_speed: true,
                farnsworth: true,
                contest_spacing: true,
            }),
    {
        KeyerCapabilities {
            speed_pot: true,
            sidetone: true,
            ptt_control: true,
            paddle_echo: true,
            prosigns: true,
            buffered_speed: true,
            farnsworth: true,
            contest_spacing: true,
        }
    }
}

/// The model label shown for a version.
pub open spec fn model_text(version: WinKeyerVersion) -> Seq<char> {
    match version {
        WinKeyerVersion::Wk2 => "2"@,
        WinKeyerVersion::Wk3 => "3"@,
        WinKeyerVersion::Wk31 => "3.1"@,
    }
}

/// The decimal digit character for `d` below 10.
pub open spec fn digit_char(d: nat) -> char {
    ((48 + d) as u8) as char
}

/// `n` written in decimal, without leading zeros.
pub open spec fn decimal_digits(n: nat) -> Seq<char>
    decreases n,
{
    if n < 10 {
        seq![digit_char(n)]
    } else {
        decimal_digits(n / 10) + seq![digit_char(n % 10)]
    }
}

/// The display name of a keyer: `WinKeyer <model> (v<version byte>)`.
pub open spec fn display_text(model: Seq<char>, version_byte: u8) -> Seq<char> {
    "WinKeyer "@ + model + " (v"@ + decimal_digits(version_byte as nat) + ")"@
}

/// The model label shown for a version: "2", "3" or "3.1".
pub fn model_label(version: WinKeyerVersion) -> (r: &'static str)
    ensures
        r@ == model_text(version),
{
    match version {
        WinKeyerVersion::Wk2 => "2",
        WinKeyerVersion::Wk3 => "3",
        WinKeyerVersion::Wk31 => "3.1",
    }
}

/// Relies on std's `format!`: the display name `WinKeyer <model> (v<byte>)`,
/// the byte in decimal as `Display` writes integers.
#[verifier::external_body]
fn display_name(model: &str, version_byte: u8) -> (r: String)
    ensures
        r@ == display_text(model@, version_byte),
{
    format!("WinKeyer {model} (v{version_byte})")
}

/// Relies on std's `format!`: the version byte in decimal, as `Display`
/// writes integers.
#[verifier::external_body]
fn decimal_text(version_byte: u8) -> (r: String)
    ensures
        r@ == decimal_digits(version_byte as nat),
{
    format!("{version_byte}")
}

impl KeyerInfo {
    /// The metadata of a connected WinKeyer: its display name, its version
    /// byte in decimal, and the port it was opened on.
    pub fn for_winkeyer(version: WinKeyerVersion, version_byte: u8, port: &str) -> (r: Self)
        ensures
            r.name@ == display_text(model_text(version), version_byte),
            r.version@ == decimal_digits(version_byte as nat),
            r.port matches Some(p) && p@ == port@,
    {
        KeyerInfo {
            name: display_name(model_label(version), version_byte),
            version: decimal_text(version_byte),
            port: Some(port.to_owned()),
        }
    }
}

} // verus!
