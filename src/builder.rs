//! Builder settings and the initialisation handshake.
//!
//! The handshake is a fixed conversation: close defensively, open the host
//! session, read the version byte, pick the WK2 or WK3 command set, load the
//! defaults block, clear the buffer and re-assert the mode register. This
//! module says exactly what is written and when to wait, read or drain; the
//! transport work happens around it.

use vstd::prelude::*;

use crate::error::Error;
use crate::protocol::command::{load_defaults, load_defaults_frame};
use crate::protocol::types::{
    version_of_byte, with_flag, LoadDefaults, ModeRegister, PaddleMode, PinConfig, WinKeyerVersion,
};

verus! {

/// The settings a builder holds, as plain values.
pub struct BuilderView {
    pub port_path: Seq<char>,
    pub speed_wpm: u8,
    pub paddle_mode: PaddleMode,
    pub mode_flags: u8,
    pub pin_config: u8,
    pub sidetone: u8,
    pub weight: u8,
    pub ptt_lead_in: u8,
    pub ptt_tail: u8,
    pub min_wpm: u8,
    pub wpm_range: u8,
    pub farnsworth_wpm: u8,
    pub dit_dah_ratio: u8,
    pub prefer_wk3: bool,
}

/// Builder for creating and configuring a WinKeyer connection.
pub struct WinKeyerBuilder {
    port_path: String,
    speed_wpm: u8,
    paddle_mode: PaddleMode,
    mode_flags: ModeRegister,
    pin_config: PinConfig,
    sidetone: u8,
    weight: u8,
    ptt_lead_in: u8,
    ptt_tail: u8,
    min_wpm: u8,
    wpm_range: u8,
    farnsworth_wpm: u8,
    dit_dah_ratio: u8,
    prefer_wk3: bool,
}

impl View for WinKeyerBuilder {
    type V = BuilderView;

    closed spec fn view(&self) -> BuilderView {
        BuilderView {
            port_path: self.port_path@,
            speed_wpm: self.speed_wpm,
            paddle_mode: self.paddle_mode,
            mode_flags: self.mode_flags@,
            pin_config: self.pin_config@,
            sidetone: self.sidetone,
            weight: self.weight,
            ptt_lead_in: self.ptt_lead_in,
            ptt_tail: self.ptt_tail,
            min_wpm: self.min_wpm,
            wpm_range: self.wpm_range,
            farnsworth_wpm: self.farnsworth_wpm,
            dit_dah_ratio: self.dit_dah_ratio,
            prefer_wk3: self.prefer_wk3,
        }
    }
}

/// A time in milliseconds turned into 10 ms units, at most 250.
pub open spec fn ten_ms_units(ms: u16) -> u8 {
    if ms / 10 > 250 {
        250
    } else {
        (ms / 10) as u8
    }
}

/// The mode register byte a builder programs: its flags with its paddle mode.
pub open spec fn mode_byte_of(b: BuilderView) -> u8 {
    b.mode_flags | b.paddle_mode.mode_bits()
}

/// The load-defaults block a builder programs.
pub open spec fn defaults_of(b: BuilderView) -> LoadDefaults {
    LoadDefaults {
        mode_register: mode_byte_of(b),
        speed_wpm: b.speed_wpm,
        sidetone: b.sidetone,
        weight: b.weight,
        lead_in_time: b.ptt_lead_in,
        tail_time: b.ptt_tail,
        min_wpm: b.min_wpm,
        wpm_range: b.wpm_range,
        x2_mode: 0,
        key_compensation: 0,
        farnsworth_wpm: b.farnsworth_wpm,
        paddle_setpoint: 50,
        dit_dah_ratio: b.dit_dah_ratio,
        pin_config: b.pin_config,
        x1_mode: b.min_wpm,
    }
}

/// One thing the handshake asks of the transport.
#[derive(Debug, Clone, PartialEq, Eq)]
pub enum HandshakeAction {
    /// Write these bytes, all of them.
    Write(Vec<u8>),
    /// Wait this many milliseconds.
    Sleep(u64),
    /// Read and drop bytes until the line stays quiet for 50 ms.
    Drain,
    /// Read exactly one byte, the version, within one second.
    ReadVersion,
}

/// Whether `a` writes exactly `bytes`.
pub open spec fn writes(a: HandshakeAction, bytes: Seq<u8>) -> bool {
    a is Write && a->Write_0@ == bytes
}

/// What a finished handshake hands to the running keyer.
#[derive(Debug, Clone, Copy, PartialEq, Eq, Structural)]
pub struct Session {
    /// The detected version.
    pub version: WinKeyerVersion,
    /// The version byte the keyer answered with.
    pub version_byte: u8,
    /// The speed programmed, the first cached speed.
    pub speed_wpm: u8,
    /// The mode register byte last written, the first cached register.
    pub mode_register: u8,
    /// Lower end of the speed pot range, for decoding pot readings.
    pub min_wpm: u8,
}

/// The rest of the handshake once the version byte is known.
pub struct Configuration {
    pub session: Session,
    pub actions: Vec<HandshakeAction>,
}

/// How reading the version byte ended.
pub enum VersionRead {
    /// One byte arrived.
    Byte(u8),
    /// The transport failed.
    Failed(std::io::Error),
    /// No byte came within the deadline.
    TimedOut,
}

/// Relies on std's `format!`: a transport failure message naming what was being done.
#[verifier::external_body]
fn failure_text(doing: &str, e: &std::io::Error) -> String {
    format!("failed to {doing}: {e}")
}

/// Relies on std's `format!`: the message for an unknown version byte.
#[verifier::external_body]
fn unknown_version_text(byte: u8) -> String {
    format!("unsupported WinKeyer version byte: {byte}")
}

/// The error for a failed handshake write, with what was being done.
pub fn write_failure(doing: &str, e: &std::io::Error) -> (r: Error)
    ensures
        r is Transport,
{
    Error::Transport(failure_text(doing, e))
}

impl WinKeyerBuilder {
    /// Create a new builder for the given serial port path: 20 WPM, Iambic B,
    /// paddle and serial echo, the default pins, sidetone step 5, weight 50,
    /// no PTT lead-in or tail, pot range 10-35 WPM, no Farnsworth, ratio 50,
    /// WK3 mode preferred.
    pub fn new(port_path: &str) -> (r: Self)
        ensures
            r@ == (BuilderView {
                port_path: port_path@,
                speed_wpm: 20,
                paddle_mode: PaddleMode::IambicB,
                mode_flags: 0x44,
                pin_config: 0x07,
                sidetone: 5,
                weight: 50,
                ptt_lead_in: 0,
                ptt_tail: 0,
                min_wpm: 10,
                wpm_range: 25,
                farnsworth_wpm: 0,
                dit_dah_ratio: 50,
                prefer_wk3: true,
            }),
    {
        WinKeyerBuilder {
            port_path: port_path.to_owned(),
            speed_wpm: 20,
            paddle_mode: PaddleMode::default(),
            mode_flags: ModeRegister::default(),
            pin_config: PinConfig::default(),
            sidetone: 5,
            weight: 50,
            ptt_lead_in: 0,
            ptt_tail: 0,
            min_wpm: 10,
            wpm_range: 25,
            farnsworth_wpm: 0,
            dit_dah_ratio: 50,
            prefer_wk3: true,
        }
    }

    /// Set the initial CW speed in WPM.
    pub fn speed(self, wpm: u8) -> (r: Self)
        ensures
            r@ == (BuilderView { speed_wpm: wpm, ..self@ }),
    {
        let mut b = self;
        b.speed_wpm = wpm;
        b
    }

    /// Set the paddle mode.
    pub fn paddle_mode(self, mode: PaddleMode) -> (r: Self)
        ensures
            r@ == (BuilderView { paddle_mode: mode, ..self@ }),
    {
        let mut b = self;
        b.paddle_mode = mode;
        b
    }

    /// Enable or disable contest spacing.
    pub fn contest_spacing(self, enabled: bool) -> (r: Self)
        ensures
            r@ == (BuilderView {
                mode_flags: with_flag(self@.mode_flags, ModeRegister::CONTEST_SPACING, enabled),
                ..self@
            }),
    {
        let mut b = self;
        b.mode_flags.set(ModeRegister::CONTEST_SPACING, enabled);
        b
    }

    /// Enable or disable auto-space.
    pub fn auto_space(self, enabled: bool) -> (r: Self)
        ensures
            r@ == (BuilderView {
                mode_flags: with_flag(self@.mode_flags, ModeRegister::AUTO_SPACE, enabled),
                ..self@
            }),
    {
        let mut b = self;
        b.mode_flags.set(ModeRegister::AUTO_SPACE, enabled);
        b
    }

    /// Enable or disable paddle swap.
    pub fn swap_paddles(self, enabled: bool) -> (r: Self)
        ensures
            r@ == (BuilderView {
                mode_flags: with_flag(self@.mode_flags, ModeRegister::SWAP_PADDLES, enabled),
                ..self@
            }),
    {
        let mut b = self;
        b.mode_flags.set(ModeRegister::SWAP_PADDLES, enabled);
        b
    }

    /// Set the sidetone value of the defaults block.
    pub fn sidetone(self, value: u8) -> (r: Self)
        ensures
            r@ == (BuilderView { sidetone: value, ..self@ }),
    {
        let mut b = self;
        b.sidetone = value;
        b
    }

    /// Set keying weight.
    pub fn weight(self, value: u8) -> (r: Self)
        ensures
            r@ == (BuilderView { weight: value, ..self@ }),
    {
        let mut b = self;
        b.weight = value;
        b
    }

    /// Set PTT lead-in time in milliseconds (kept in 10 ms units, at most 250).
    pub fn ptt_lead_in_ms(self, ms: u16) -> (r: Self)
        ensures
            r@ == (BuilderView { ptt_lead_in: ten_ms_units(ms), ..self@ }),
    {
        let mut b = self;
        let units: u16 = ms / 10;
        b.ptt_lead_in = if units > 250 {
            250
        } else {
            units as u8
        };
        b
    }

    /// Set PTT tail time in milliseconds (kept in 10 ms units, at most 250).
    pub fn ptt_tail_ms(self, ms: u16) -> (r: Self)
        ensures
            r@ == (BuilderView { ptt_tail: ten_ms_units(ms), ..self@ }),
    {
        let mut b = self;
        let units: u16 = ms / 10;
        b.ptt_tail = if units > 250 {
            250
        } else {
            units as u8
        };
        b
    }

    /// Set minimum WPM for the speed pot range.
    pub fn min_wpm(self, wpm: u8) -> (r: Self)
        ensures
            r@ == (BuilderView { min_wpm: wpm, ..self@ }),
    {
        let mut b = self;
        b.min_wpm = wpm;
        b
    }

    /// Set WPM range for the speed pot.
    pub fn wpm_range(self, range: u8) -> (r: Self)
        ensures
            r@ == (BuilderView { wpm_range: range, ..self@ }),
    {
        let mut b = self;
        b.wpm_range = range;
        b
    }

    /// Set Farnsworth speed (0 disables it).
    pub fn farnsworth(self, wpm: u8) -> (r: Self)
        ensures
            r@ == (BuilderView { farnsworth_wpm: wpm, ..self@ }),
    {
        let mut b = self;
        b.farnsworth_wpm = wpm;
        b
    }

    /// Set dit/dah ratio.
    pub fn dit_dah_ratio(self, ratio: u8) -> (r: Self)
        ensures
            r@ == (BuilderView { dit_dah_ratio: ratio, ..self@ }),
    {
        let mut b = self;
        b.dit_dah_ratio = ratio;
        b
    }

    /// Set pin configuration.
    pub fn pin_config(self, config: PinConfig) -> (r: Self)
        ensures
            r@ == (BuilderView { pin_config: config@, ..self@ }),
    {
        let mut b = self;
        b.pin_config = config;
        b
    }

    /// Whether to use WK3 mode when the hardware supports it.
    pub fn prefer_wk3(self, enabled: bool) -> (r: Self)
        ensures
            r@ == (BuilderView { prefer_wk3: enabled, ..self@ }),
    {
        let mut b = self;
        b.prefer_wk3 = enabled;
        b
    }

    /// The serial port path the builder was made for.
    pub fn port_path(&self) -> (r: &str)
        ensures
            r@ == self@.port_path,
    {
        self.port_path.as_str()
    }

    /// The load-defaults block these settings program.
    pub fn defaults_block(&self) -> (r: LoadDefaults)
        ensures
            r == defaults_of(self@),
    {
        LoadDefaults {
            mode_register: self.mode_flags.with_paddle_mode(self.paddle_mode),
            speed_wpm: self.speed_wpm,
            sidetone: self.sidetone,
            weight: self.weight,
            lead_in_time: self.ptt_lead_in,
            tail_time: self.ptt_tail,
            min_wpm: self.min_wpm,
            wpm_range: self.wpm_range,
            x2_mode: 0,
            key_compensation: 0,
            farnsworth_wpm: self.farnsworth_wpm,
            paddle_setpoint: 50,
            dit_dah_ratio: self.dit_dah_ratio,
            pin_config: self.pin_config.bits(),
            x1_mode: self.min_wpm,
        }
    }

    /// The handshake up to the version byte: a defensive host close, a
    /// 100 ms pause, a drain of stale bytes, a host open, and the read of
    /// the one-byte version answer.
    pub fn opening_actions(&self) -> (r: Vec<HandshakeAction>)
        ensures
            r@.len() == 5,
            writes(r@[0], seq![0x00u8, 0x03u8]),
            r@[1] == HandshakeAction::Sleep(100),
            r@[2] == HandshakeAction::Drain,
            writes(r@[3], seq![0x00u8, 0x02u8]),
            r@[4] == HandshakeAction::ReadVersion,
    {
        let mut r: Vec<HandshakeAction> = Vec::new();
        r.push(HandshakeAction::Write(vec![0x00, 0x03]));
        r.push(HandshakeAction::Sleep(100));
        r.push(HandshakeAction::Drain);
        r.push(HandshakeAction::Write(vec![0x00, 0x02]));
        r.push(HandshakeAction::ReadVersion);
        assert(r@[0]->Write_0@ =~= seq![0x00u8, 0x03u8]);
        assert(r@[3]->Write_0@ =~= seq![0x00u8, 0x02u8]);
        r
    }

    /// The rest of the handshake for a version byte. An unknown byte fails
    /// with `Protocol`. Otherwise: select WK3 mode (`00 13`) when the keyer
    /// supports it and WK3 is preferred, else WK2 mode (`00 0B`); load the
    /// defaults block; clear the buffer; pause 50 ms; drain; re-assert the
    /// mode register with `0E`. The session caches the speed and the mode
    /// byte just written.
    pub fn configure(&self, version_byte: u8) -> (r: Result<Configuration, Error>)
        ensures
            version_of_byte(version_byte) is None <==> r is Err,
            r is Err ==> r->Err_0 is Protocol,
            r is Ok ==> {
                let c = r->Ok_0;
                let v = version_of_byte(version_byte)->0;
                let mode = mode_byte_of(self@);
                &&& c.session == (Session {
                    version: v,
                    version_byte,
                    speed_wpm: self@.speed_wpm,
                    mode_register: mode,
                    min_wpm: self@.min_wpm,
                })
                &&& c.actions@.len() == 6
                &&& writes(
                    c.actions@[0],
                    if v.has_wk3() && self@.prefer_wk3 {
                        seq![0x00u8, 0x13u8]
                    } else {
                        seq![0x00u8, 0x0Bu8]
                    },
                )
                &&& writes(c.actions@[1], load_defaults_frame(defaults_of(self@)))
                &&& writes(c.actions@[2], seq![0x0Au8])
                &&& c.actions@[3] == HandshakeAction::Sleep(50)
                &&& c.actions@[4] == HandshakeAction::Drain
                &&& writes(c.actions@[5], seq![0x0Eu8, mode])
            },
    {
        let version = match WinKeyerVersion::from_version_byte(version_byte) {
            Some(v) => v,
            None => {
                return Err(Error::Protocol(unknown_version_text(version_byte)));
            },
        };
        let defaults = self.defaults_block();
        let mode = defaults.mode_register;
        let mut actions: Vec<HandshakeAction> = Vec::new();
        if version.supports_wk3() && self.prefer_wk3 {
            actions.push(HandshakeAction::Write(vec![0x00, 0x13]));
            assert(actions@[0]->Write_0@ =~= seq![0x00u8, 0x13u8]);
        } else {
            actions.push(HandshakeAction::Write(vec![0x00, 0x0B]));
            assert(actions@[0]->Write_0@ =~= seq![0x00u8, 0x0Bu8]);
        }
        let frame = load_defaults(&defaults);
        let mut frame_bytes: Vec<u8> = Vec::new();
        let mut k: usize = 0;
        while k < 16
            invariant
                k <= 16,
                frame@.len() == 16,
                frame_bytes@ == frame@.take(k as int),
            decreases 16 - k,
        {
            frame_bytes.push(frame[k]);
            k = k + 1;
            assert(frame@.take(k as int) =~= frame@.take(k - 1) + seq![frame@[k - 1]]);
        }
        assert(frame@.take(16) =~= frame@);
        actions.push(HandshakeAction::Write(frame_bytes));
        actions.push(HandshakeAction::Write(vec![0x0A]));
        actions.push(HandshakeAction::Sleep(50));
        actions.push(HandshakeAction::Drain);
        actions.push(HandshakeAction::Write(vec![0x0E, mode]));
        assert(actions@[2]->Write_0@ =~= seq![0x0Au8]);
        assert(actions@[5]->Write_0@ =~= seq![0x0Eu8, mode]);
        let session = Session {
            version,
            version_byte,
            speed_wpm: self.speed_wpm,
            mode_register: mode,
            min_wpm: self.min_wpm,
        };
        Ok(Configuration { session, actions })
    }

    /// The version detected from how the version read ended: a transport
    /// failure is `Transport`, a missed deadline `Timeout`, an unknown byte
    /// `Protocol`.
    pub fn detect_version(read: VersionRead) -> (r: Result<WinKeyerVersion, Error>)
        ensures
            read is Byte ==> (r is Ok <==> version_of_byte(read->Byte_0) is Some),
            read is Byte && r is Ok ==> r->Ok_0 == version_of_byte(read->Byte_0)->0,
            read is Byte && r is Err ==> r->Err_0 is Protocol,
            read is Failed ==> r is Err && r->Err_0 is Transport,
            read is TimedOut ==> r is Err && r->Err_0 is Timeout,
    {
        match read {
            VersionRead::Byte(b) => match WinKeyerVersion::from_version_byte(b) {
                Some(v) => Ok(v),
                None => Err(Error::Protocol(unknown_version_text(b))),
            },
            VersionRead::Failed(e) => Err(write_failure("read version byte", &e)),
            VersionRead::TimedOut => Err(Error::Timeout),
        }
    }
}

} // verus!
