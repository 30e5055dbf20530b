//! WinKeyer protocol types: version, paddle mode, mode register, pin
//! configuration, sidetone encoding and the load-defaults block.

use vstd::prelude::*;

verus! {

/// Detected WinKeyer hardware version.
#[derive(Debug, Clone, Copy, PartialEq, Eq, Structural)]
pub enum WinKeyerVersion {
    /// WinKeyer2 (version byte 20..=23)
    Wk2,
    /// WinKeyer3 (version byte 30)
    Wk3,
    /// WinKeyer3.1 (version byte 31)
    Wk31,
}

/// The version announced by a host-open response byte: 20 to 23 are WK2,
/// 30 is WK3, 31 is WK3.1, and every other byte names no known keyer.
pub open spec fn version_of_byte(byte: u8) -> Option<WinKeyerVersion> {
    if 20 <= byte <= 23 {
        Some(WinKeyerVersion::Wk2)
    } else if byte == 30 {
        Some(WinKeyerVersion::Wk3)
    } else if byte == 31 {
        Some(WinKeyerVersion::Wk31)
    } else {
        None
    }
}

impl WinKeyerVersion {
    /// WK3 and WK3.1 understand the WK3 extended command set.
    pub open spec fn has_wk3(self) -> bool {
        self is Wk3 || self is Wk31
    }

    /// The byte that stands for this version when it is displayed.
    pub open spec fn spec_version_byte(self) -> u8 {
        match self {
            WinKeyerVersion::Wk2 => 23,
            WinKeyerVersion::Wk3 => 30,
            WinKeyerVersion::Wk31 => 31,
        }
    }

    /// Detect the version from the host-open response byte.
    pub fn from_version_byte(byte: u8) -> (r: Option<Self>)
        ensures
            r == version_of_byte(byte),
    {
        if 20 <= byte && byte <= 23 {
            Some(WinKeyerVersion::Wk2)
        } else if byte == 30 {
            Some(WinKeyerVersion::Wk3)
        } else if byte == 31 {
            Some(WinKeyerVersion::Wk31)
        } else {
            None
        }
    }

    /// Whether this version supports WK3 extended commands.
    pub fn supports_wk3(&self) -> (r: bool)
        ensures
            r == self.has_wk3(),
    {
        matches!(self, WinKeyerVersion::Wk3 | WinKeyerVersion::Wk31)
    }

    /// Raw version byte for display.
    pub fn version_byte(&self) -> (r: u8)
        ensures
            r == self.spec_version_byte(),
            version_of_byte(r) == Some(*self),
    {
        match self {
            WinKeyerVersion::Wk2 => 23,
            WinKeyerVersion::Wk3 => 30,
            WinKeyerVersion::Wk31 => 31,
        }
    }
}

/// Paddle keying mode.
#[derive(Debug, Clone, Copy, PartialEq, Eq, Structural)]
pub enum PaddleMode {
    /// Iambic A (self-completing, no dot/dash memory)
    IambicA,
    /// Iambic B (self-completing, with dot/dash memory)
    IambicB,
    /// Ultimatic (last paddle pressed wins)
    Ultimatic,
    /// Bug mode (automatic dots, manual dashes)
    Bug,
}

impl PaddleMode {
    /// Mode-register bits 5-4 for this paddle mode.
    pub open spec fn mode_bits(self) -> u8 {
        match self {
            PaddleMode::IambicB => 0x00,
            PaddleMode::IambicA => 0x10,
            PaddleMode::Ultimatic => 0x20,
            PaddleMode::Bug => 0x30,
        }
    }

    /// Encode as the two mode-register bits (bits 5-4).
    pub fn to_mode_bits(self) -> (r: u8)
        ensures
            r == self.mode_bits(),
            r & 0x30 == r,
    {
        let r: u8 = match self {
            PaddleMode::IambicB => 0x00,
            PaddleMode::IambicA => 0x10,
            PaddleMode::Ultimatic => 0x20,
            PaddleMode::Bug => 0x30,
        };
        assert(0x00u8 & 0x30 == 0x00u8 && 0x10u8 & 0x30 == 0x10u8 && 0x20u8 & 0x30 == 0x20u8
            && 0x30u8 & 0x30 == 0x30u8) by (bit_vector);
        r
    }
}

impl Default for PaddleMode {
    fn default() -> (r: Self)
        ensures
            r == PaddleMode::IambicB,
    {
        PaddleMode::IambicB
    }
}

/// WinKeyer mode register (command 0x0E).
///
/// Bit 7 disables the paddle watchdog, bit 6 enables paddle echo, bits 5-4
/// hold the paddle mode, bit 3 swaps the paddles, bit 2 enables serial echo,
/// bit 1 is auto-space and bit 0 is contest spacing.
#[derive(Debug, Clone, Copy, PartialEq, Eq, Structural)]
pub struct ModeRegister {
    bits: u8,
}

impl View for ModeRegister {
    type V = u8;

    closed spec fn view(&self) -> u8 {
        self.bits
    }
}

/// The register byte with `flag` set or cleared.
pub open spec fn with_flag(bits: u8, flag: u8, on: bool) -> u8 {
    if on {
        bits | flag
    } else {
        bits & !flag
    }
}

impl ModeRegister {
    pub const PADDLE_WATCHDOG_DISABLE: u8 = 0x80;
    pub const PADDLE_ECHO: u8 = 0x40;
    pub const SWAP_PADDLES: u8 = 0x08;
    pub const SERIAL_ECHO: u8 = 0x04;
    pub const AUTO_SPACE: u8 = 0x02;
    pub const CONTEST_SPACING: u8 = 0x01;

    /// A register holding exactly `bits`.
    pub fn from_bits_retain(bits: u8) -> (r: ModeRegister)
        ensures
            r@ == bits,
    {
        ModeRegister { bits }
    }

    /// A register with no flag set.
    pub fn empty() -> (r: ModeRegister)
        ensures
            r@ == 0,
    {
        ModeRegister { bits: 0 }
    }

    /// The raw register byte.
    pub fn bits(&self) -> (r: u8)
        ensures
            r == self@,
    {
        self.bits
    }

    /// Whether every bit of `flags` is set.
    pub fn contains(&self, flags: u8) -> (r: bool)
        ensures
            r == (self@ & flags == flags),
    {
        self.bits & flags == flags
    }

    /// Set or clear the bits of `flags`, leaving the others as they are.
    pub fn set(&mut self, flags: u8, on: bool)
        ensures
            final(self)@ == with_flag(old(self)@, flags, on),
    {
        if on {
            self.bits = self.bits | flags;
        } else {
            self.bits = self.bits & !flags;
        }
    }

    /// Combine the mode register flags with a paddle mode to produce the full byte.
    pub fn with_paddle_mode(self, mode: PaddleMode) -> (r: u8)
        ensures
            r == self@ | mode.mode_bits(),
    {
        self.bits | mode.to_mode_bits()
    }
}

impl Default for ModeRegister {
    /// Paddle echo and serial echo.
    fn default() -> (r: Self)
        ensures
            r@ == 0x44,
    {
        ModeRegister { bits: 0x44 }
    }
}

/// WinKeyer pin configuration (command 0x09).
///
/// Bit 0 enables PTT, bit 1 the sidetone, bit 2 the primary key output,
/// bit 3 the secondary key output, and bits 5-4 hold the hang time.
#[derive(Debug, Clone, Copy, PartialEq, Eq, Structural)]
pub struct PinConfig {
    bits: u8,
}

impl View for PinConfig {
    type V = u8;

    closed spec fn view(&self) -> u8 {
        self.bits
    }
}

impl PinConfig {
    pub const PTT_ENABLE: u8 = 0x01;
    pub const SIDETONE_ENABLE: u8 = 0x02;
    pub const KEY_OUTPUT: u8 = 0x04;
    pub const KEY_OUTPUT_2: u8 = 0x08;
    pub const HANG_TIME_0: u8 = 0x10;
    pub const HANG_TIME_1: u8 = 0x20;

    /// A configuration holding exactly `bits`.
    pub fn from_bits_retain(bits: u8) -> (r: PinConfig)
        ensures
            r@ == bits,
    {
        PinConfig { bits }
    }

    /// The raw configuration byte.
    pub fn bits(&self) -> (r: u8)
        ensures
            r == self@,
    {
        self.bits
    }

    /// Whether every bit of `flags` is set.
    pub fn contains(&self, flags: u8) -> (r: bool)
        ensures
            r == (self@ & flags == flags),
    {
        self.bits & flags == flags
    }
}

impl Default for PinConfig {
    /// PTT, sidetone and the primary key output.
    fn default() -> (r: Self)
        ensures
            r@ == 0x07,
    {
        PinConfig { bits: 0x07 }
    }
}

/// `v` brought into `lo..=hi`.
pub open spec fn clamped(v: int, lo: int, hi: int) -> int {
    if v < lo {
        lo
    } else if v > hi {
        hi
    } else {
        v
    }
}

/// The sidetone control byte. On WK3 and later it is 62500 / f, where f is
/// the frequency kept within 500..=4000 Hz. On WK2 it is the step 4000 / f
/// on the frequency as given, kept within 1..=10; 0 Hz, which has no step,
/// takes the lowest tone, 10.
pub open spec fn spec_sidetone_byte(freq_hz: u16, version: WinKeyerVersion) -> int {
    if version.has_wk3() {
        62500int / clamped(freq_hz as int, 500, 4000)
    } else if freq_hz == 0 {
        10
    } else {
        clamped(4000int / (freq_hz as int), 1, 10)
    }
}

/// Compute the sidetone control byte for a given frequency and version.
pub fn sidetone_byte(freq_hz: u16, version: WinKeyerVersion) -> (r: u8)
    ensures
        r as int == spec_sidetone_byte(freq_hz, version),
{
    if version.supports_wk3() {
        let f: u32 = if freq_hz < 500 {
            500
        } else if freq_hz > 4000 {
            4000
        } else {
            freq_hz as u32
        };
        assert(62500u32 / f <= 125) by (nonlinear_arith)
            requires
                500 <= f,
        ;
        (62500u32 / f) as u8
    } else if freq_hz == 0 {
        10
    } else {
        let step: u32 = 4000u32 / (freq_hz as u32);
        if step < 1 {
            1
        } else if step > 10 {
            10
        } else {
            step as u8
        }
    }
}

/// Parameters for the Load Defaults command (0x0F, 15 bytes), in wire order.
#[derive(Debug, Clone, PartialEq, Eq, Structural)]
pub struct LoadDefaults {
    pub mode_register: u8,
    pub speed_wpm: u8,
    pub sidetone: u8,
    pub weight: u8,
    pub lead_in_time: u8,
    pub tail_time: u8,
    pub min_wpm: u8,
    pub wpm_range: u8,
    pub x2_mode: u8,
    pub key_compensation: u8,
    pub farnsworth_wpm: u8,
    pub paddle_setpoint: u8,
    pub dit_dah_ratio: u8,
    pub pin_config: u8,
    pub x1_mode: u8,
}

impl LoadDefaults {
    /// The fifteen parameter bytes, in the order the keyer reads them.
    pub open spec fn spec_bytes(&self) -> Seq<u8> {
        seq![
            self.mode_register,
            self.speed_wpm,
            self.sidetone,
            self.weight,
            self.lead_in_time,
            self.tail_time,
            self.min_wpm,
            self.wpm_range,
            self.x2_mode,
            self.key_compensation,
            self.farnsworth_wpm,
            self.paddle_setpoint,
            self.dit_dah_ratio,
            self.pin_config,
            self.x1_mode,
        ]
    }

    /// Encode as the 15-byte parameter block (without the 0x0F prefix).
    pub fn to_bytes(&self) -> (r: [u8; 15])
        ensures
            r@ == self.spec_bytes(),
    {
        [
            self.mode_register,
            self.speed_wpm,
            self.sidetone,
            self.weight,
            self.lead_in_time,
            self.tail_time,
            self.min_wpm,
            self.wpm_range,
            self.x2_mode,
            self.key_compensation,
            self.farnsworth_wpm,
            self.paddle_setpoint,
            self.dit_dah_ratio,
            self.pin_config,
            self.x1_mode,
        ]
    }
}

impl Default for LoadDefaults {
    /// 20 WPM, sidetone step 5, weight 50, pot range 10-35 WPM, ratio 50,
    /// the default mode register with Iambic B, the default pin configuration.
    fn default() -> (r: Self)
        ensures
            r.mode_register == 0x44,
            r.speed_wpm == 20,
            r.sidetone == 5,
            r.weight == 50,
            r.lead_in_time == 0,
            r.tail_time == 0,
            r.min_wpm == 10,
            r.wpm_range == 25,
            r.x2_mode == 0,
            r.key_compensation == 0,
            r.farnsworth_wpm == 0,
            r.paddle_setpoint == 50,
            r.dit_dah_ratio == 50,
            r.pin_config == 0x07,
            r.x1_mode == 0,
    {
        let mode = ModeRegister::default();
        let r = LoadDefaults {
            mode_register: mode.with_paddle_mode(PaddleMode::default()),
            speed_wpm: 20,
            sidetone: 5,
            weight: 50,
            lead_in_time: 0,
            tail_time: 0,
            min_wpm: 10,
            wpm_range: 25,
            x2_mode: 0,
            key_compensation: 0,
            farnsworth_wpm: 0,
            paddle_setpoint: 50,
            dit_dah_ratio: 50,
            pin_config: PinConfig::default().bits(),
            x1_mode: 0,
        };
        assert(0x44u8 | 0x00u8 == 0x44u8) by (bit_vector);
        r
    }
}

} // verus!
