//! Decisions of the keyer façade.
//!
//! Each operation validates its arguments, picks a lane and says whether the
//! XOFF gate must be passed first, and encodes its bytes. Validation errors
//! come back before anything is queued.

use vstd::prelude::*;

use crate::engine::{Framing, Lane};
use crate::error::Error;
use crate::event::KeyerEvent;
use crate::protocol::command::{
    admin_echo_test, admin_host_close, admin_set_sidetone_volume, buffered_merge, buffered_ptt,
    buffered_speed_change, buffered_wait, cancel_buffered_speed, clear_buffer, encode_text,
    encoded_text, key_immediate, load_defaults, load_defaults_frame, pointer_cmd_with_data,
    set_farnsworth, set_mode_register, set_pause, set_pin_config, set_ptt_timing, set_ratio,
    set_speed, set_weight, sidetone_control, software_paddle, valid_cw_text, validate_cw_text,
};
use crate::protocol::response::class_of_byte;
use crate::protocol::types::{
    sidetone_byte, spec_sidetone_byte, LoadDefaults, PaddleMode, PinConfig, WinKeyerVersion,
};
use crate::engine::IoState;

verus! {

/// What the façade hands to the engine for one operation.
pub struct Outbound {
    /// The lane the request travels on.
    pub lane: Lane,
    /// Whether the XOFF gate must be passed before queueing.
    pub wait_xoff: bool,
    /// The bytes to write, contiguous on the wire.
    pub bytes: Vec<u8>,
    /// For a write-and-read, how many reply bytes to collect and how.
    pub read: Option<(usize, Framing)>,
}

/// `o` is a plain write of `bytes` on `lane`, gated by XOFF when `gated`.
pub open spec fn plain_write(o: Outbound, lane: Lane, gated: bool, bytes: Seq<u8>) -> bool {
    &&& o.lane == lane
    &&& o.wait_xoff == gated
    &&& o.bytes@ == bytes
    &&& o.read is None
}

fn array_bytes(a: &[u8]) -> (r: Vec<u8>)
    ensures
        r@ == a@,
{
    let mut v: Vec<u8> = Vec::new();
    let mut k: usize = 0;
    while k < a.len()
        invariant
            k <= a@.len(),
            v@ == a@.take(k as int),
        decreases a@.len() - k,
    {
        v.push(a[k]);
        k = k + 1;
        assert(a@.take(k as int) =~= a@.take(k - 1) + seq![a@[k - 1]]);
    }
    assert(a@.take(k as int) =~= a@);
    v
}

fn plain(lane: Lane, gated: bool, bytes: Vec<u8>) -> (r: Outbound)
    ensures
        plain_write(r, lane, gated, bytes@),
{
    Outbound { lane, wait_xoff: gated, bytes, read: None }
}

/// Relies on std's `format!`: the message for an argument out of its range.
#[verifier::external_body]
fn out_of_range_text(rule: &str, got: u16) -> String {
    format!("{rule}, got {got}")
}

/// Queue CW text: valid characters only, in uppercase, on the background
/// lane behind the XOFF gate.
pub fn send_message_request(text: &str) -> (r: Result<Outbound, Error>)
    ensures
        r is Ok <==> valid_cw_text(text@),
        r is Ok ==> plain_write(r->Ok_0, Lane::Background, true, encoded_text(text@)),
        r is Err ==> r->Err_0 is InvalidParameter,
{
    match validate_cw_text(text) {
        Ok(()) => Ok(plain(Lane::Background, true, encode_text(text))),
        Err(message) => Err(Error::InvalidParameter(message)),
    }
}

/// Abort the message in progress and clear the buffer (`0A`), real-time.
pub fn abort_request() -> (r: Outbound)
    ensures
        plain_write(r, Lane::RealTime, false, seq![0x0Au8]),
{
    plain(Lane::RealTime, false, array_bytes(&clear_buffer()))
}

/// Set the speed (`02 wpm`), real-time; only 5 to 99 WPM.
pub fn speed_request(wpm: u8) -> (r: Result<Outbound, Error>)
    ensures
        r is Ok <==> 5 <= wpm <= 99,
        r is Ok ==> plain_write(r->Ok_0, Lane::RealTime, false, seq![0x02u8, wpm]),
        r is Err ==> r->Err_0 is InvalidParameter,
{
    if wpm < 5 || wpm > 99 {
        return Err(Error::InvalidParameter(out_of_range_text("speed must be 5-99 WPM", wpm as u16)));
    }
    Ok(plain(Lane::RealTime, false, array_bytes(&set_speed(wpm))))
}

/// Key down for tuning (`0B 01`) or key up (`0B 00`), real-time.
pub fn tune_request(on: bool) -> (r: Outbound)
    ensures
        plain_write(r, Lane::RealTime, false, seq![0x0Bu8, if on { 1u8 } else { 0u8 }]),
{
    plain(Lane::RealTime, false, array_bytes(&key_immediate(on)))
}

/// Assert (`18 01`) or release (`18 00`) PTT, real-time.
pub fn ptt_request(on: bool) -> (r: Outbound)
    ensures
        plain_write(r, Lane::RealTime, false, seq![0x18u8, if on { 1u8 } else { 0u8 }]),
{
    plain(Lane::RealTime, false, array_bytes(&buffered_ptt(on)))
}

/// Set the keying weight (`03 w`), real-time; only 10 to 90.
pub fn weight_request(weight: u8) -> (r: Result<Outbound, Error>)
    ensures
        r is Ok <==> 10 <= weight <= 90,
        r is Ok ==> plain_write(r->Ok_0, Lane::RealTime, false, seq![0x03u8, weight]),
        r is Err ==> r->Err_0 is InvalidParameter,
{
    if weight < 10 || weight > 90 {
        return Err(Error::InvalidParameter(out_of_range_text("weight must be 10-90", weight as u16)));
    }
    Ok(plain(Lane::RealTime, false, array_bytes(&set_weight(weight))))
}

/// Set the dit/dah ratio (`17 r`), real-time; only 33 to 66.
pub fn ratio_request(ratio: u8) -> (r: Result<Outbound, Error>)
    ensures
        r is Ok <==> 33 <= ratio <= 66,
        r is Ok ==> plain_write(r->Ok_0, Lane::RealTime, false, seq![0x17u8, ratio]),
        r is Err ==> r->Err_0 is InvalidParameter,
{
    if ratio < 33 || ratio > 66 {
        return Err(Error::InvalidParameter(out_of_range_text("ratio must be 33-66", ratio as u16)));
    }
    Ok(plain(Lane::RealTime, false, array_bytes(&set_ratio(ratio))))
}

/// Set the Farnsworth speed (`0D w`), real-time.
pub fn farnsworth_request(wpm: u8) -> (r: Outbound)
    ensures
        plain_write(r, Lane::RealTime, false, seq![0x0Du8, wpm]),
{
    plain(Lane::RealTime, false, array_bytes(&set_farnsworth(wpm)))
}

/// The mode register with its paddle-mode bits (5-4) replaced by `mode`.
pub open spec fn with_paddle_bits(current: u8, mode: PaddleMode) -> u8 {
    (current & !0x30u8) | mode.mode_bits()
}

/// Change the paddle mode by read-modify-write of the cached register
/// (`0E new`), real-time. Every other bit of the register is kept; the new
/// byte is returned for the cache.
pub fn paddle_mode_request(current: u8, mode: PaddleMode) -> (r: (Outbound, u8))
    ensures
        r.1 == with_paddle_bits(current, mode),
        r.1 & 0x30 == mode.mode_bits(),
        r.1 & !0x30u8 == current & !0x30u8,
        plain_write(r.0, Lane::RealTime, false, seq![0x0Eu8, r.1]),
{
    let bits = mode.to_mode_bits();
    let new_byte: u8 = (current & !0x30u8) | bits;
    assert(new_byte & 0x30 == bits && new_byte & !0x30u8 == current & !0x30u8) by (bit_vector)
        requires
            new_byte == (current & !0x30u8) | bits,
            bits & 0x30 == bits,
    ;
    (plain(Lane::RealTime, false, array_bytes(&set_mode_register(new_byte))), new_byte)
}

/// Set the sidetone frequency (`01 byte`), real-time; only 500 to 4000 Hz,
/// encoded for the keyer's version.
pub fn sidetone_request(freq_hz: u16, version: WinKeyerVersion) -> (r: Result<Outbound, Error>)
    ensures
        r is Ok <==> 500 <= freq_hz <= 4000,
        r is Ok ==> r->Ok_0.lane == Lane::RealTime && !r->Ok_0.wait_xoff && r->Ok_0.read is None
            && r->Ok_0.bytes@.len() == 2 && r->Ok_0.bytes@[0] == 0x01
            && r->Ok_0.bytes@[1] as int == spec_sidetone_byte(freq_hz, version),
        r is Err ==> r->Err_0 is InvalidParameter,
{
    if freq_hz < 500 || freq_hz > 4000 {
        return Err(Error::InvalidParameter(out_of_range_text("sidetone must be 500-4000 Hz", freq_hz)));
    }
    let byte = sidetone_byte(freq_hz, version);
    Ok(plain(Lane::RealTime, false, array_bytes(&sidetone_control(byte))))
}

/// Relies on std's `format!`: the message for an operation the keyer's version lacks.
#[verifier::external_body]
fn needs_wk3_text(operation: &str) -> String {
    format!("{operation} requires WK3 or later")
}

/// Set the sidetone volume (`00 19 v`), real-time; WK3 and later only.
pub fn sidetone_volume_request(value: u8, version: WinKeyerVersion) -> (r: Result<Outbound, Error>)
    ensures
        r is Ok <==> version.has_wk3(),
        r is Ok ==> plain_write(r->Ok_0, Lane::RealTime, false, seq![0x00u8, 0x19u8, value]),
        r is Err ==> r->Err_0 is Unsupported,
{
    if !version.supports_wk3() {
        return Err(Error::Unsupported(needs_wk3_text("sidetone volume")));
    }
    Ok(plain(Lane::RealTime, false, array_bytes(&admin_set_sidetone_volume(value))))
}

/// Set the pin configuration (`09 c`), real-time.
pub fn pin_config_request(config: PinConfig) -> (r: Outbound)
    ensures
        plain_write(r, Lane::RealTime, false, seq![0x09u8, config@]),
{
    plain(Lane::RealTime, false, array_bytes(&set_pin_config(config.bits())))
}

/// Set PTT lead-in and tail (`04 lead tail`), real-time.
pub fn ptt_timing_request(lead_in: u8, tail: u8) -> (r: Outbound)
    ensures
        plain_write(r, Lane::RealTime, false, seq![0x04u8, lead_in, tail]),
{
    plain(Lane::RealTime, false, array_bytes(&set_ptt_timing(lead_in, tail)))
}

/// Pause (`06 01`) or resume (`06 00`) output, real-time.
pub fn pause_request(paused: bool) -> (r: Outbound)
    ensures
        plain_write(r, Lane::RealTime, false, seq![0x06u8, if paused { 1u8 } else { 0u8 }]),
{
    plain(Lane::RealTime, false, array_bytes(&set_pause(paused)))
}

/// Send a prosign (`1B c1 c2`), background, behind the XOFF gate.
pub fn prosign_request(c1: u8, c2: u8) -> (r: Outbound)
    ensures
        plain_write(r, Lane::Background, true, seq![0x1Bu8, c1, c2]),
{
    plain(Lane::Background, true, array_bytes(&buffered_merge(c1, c2)))
}

/// Buffered speed change (`1C w`), background, behind the XOFF gate.
pub fn buffered_speed_request(wpm: u8) -> (r: Outbound)
    ensures
        plain_write(r, Lane::Background, true, seq![0x1Cu8, wpm]),
{
    plain(Lane::Background, true, array_bytes(&buffered_speed_change(wpm)))
}

/// Cancel the buffered speed change (`1E`), background, behind the XOFF gate.
pub fn cancel_buffered_speed_request() -> (r: Outbound)
    ensures
        plain_write(r, Lane::Background, true, seq![0x1Eu8]),
{
    plain(Lane::Background, true, array_bytes(&cancel_buffered_speed()))
}

/// Buffered wait (`1A s`), background, behind the XOFF gate.
pub fn buffered_wait_request(seconds: u8) -> (r: Outbound)
    ensures
        plain_write(r, Lane::Background, true, seq![0x1Au8, seconds]),
{
    plain(Lane::Background, true, array_bytes(&buffered_wait(seconds)))
}

/// Pointer command (`16 sub data...`), background.
pub fn pointer_request(subcmd: u8, data: &[u8]) -> (r: Outbound)
    ensures
        plain_write(r, Lane::Background, false, seq![0x16u8, subcmd] + data@),
{
    plain(Lane::Background, false, pointer_cmd_with_data(subcmd, data))
}

/// Software paddle (`14 bits`), real-time.
pub fn software_paddle_request(dit: bool, dah: bool) -> (r: Outbound)
    ensures
        plain_write(
            r,
            Lane::RealTime,
            false,
            seq![0x14u8, ((if dit { 1u8 } else { 0u8 }) + (if dah { 2u8 } else { 0u8 })) as u8],
        ),
{
    plain(Lane::RealTime, false, array_bytes(&software_paddle(dit, dah)))
}

/// Echo test (`00 04 b`), real-time, reading one reply byte positionally:
/// the echoed byte may have any value.
pub fn echo_test_request(byte: u8) -> (r: Outbound)
    ensures
        r.lane == Lane::RealTime,
        !r.wait_xoff,
        r.bytes@ == seq![0x00u8, 0x04u8, byte],
        r.read == Some((1usize, Framing::Binary)),
{
    Outbound {
        lane: Lane::RealTime,
        wait_xoff: false,
        bytes: array_bytes(&admin_echo_test(byte)),
        read: Some((1, Framing::Binary)),
    }
}

/// Relies on std's `format!`: the message for a reply of the wrong length.
#[verifier::external_body]
fn reply_length_text(expected: usize, got: usize) -> String {
    format!("expected {expected} reply byte(s), got {got}")
}

/// The echoed byte: the single byte of the reply; any other reply length is
/// a framing violation.
pub fn echo_result(reply: &Vec<u8>) -> (r: Result<u8, Error>)
    ensures
        r is Ok <==> reply@.len() == 1,
        r is Ok ==> r->Ok_0 == reply@[0],
        r is Err ==> r->Err_0 is Protocol,
{
    if reply.len() != 1 {
        return Err(Error::Protocol(reply_length_text(1, reply.len())));
    }
    Ok(reply[0])
}

/// Load a defaults block (`0F` + 15 bytes), real-time. Its mode register
/// byte becomes the cached register.
pub fn load_defaults_request(defaults: &LoadDefaults) -> (r: (Outbound, u8))
    ensures
        plain_write(r.0, Lane::RealTime, false, load_defaults_frame(*defaults)),
        r.1 == defaults.mode_register,
{
    (plain(Lane::RealTime, false, array_bytes(&load_defaults(defaults))), defaults.mode_register)
}

/// Raw bytes on the background lane, behind the XOFF gate.
pub fn raw_request(data: &[u8]) -> (r: Outbound)
    ensures
        plain_write(r, Lane::Background, true, data@),
{
    plain(Lane::Background, true, array_bytes(data))
}

/// Raw bytes on the real-time lane.
pub fn raw_rt_request(data: &[u8]) -> (r: Outbound)
    ensures
        plain_write(r, Lane::RealTime, false, data@),
{
    plain(Lane::RealTime, false, array_bytes(data))
}

/// Host close (`00 03`), real-time, sent before the engine shuts down.
pub fn close_request() -> (r: Outbound)
    ensures
        plain_write(r, Lane::RealTime, false, seq![0x00u8, 0x03u8]),
{
    plain(Lane::RealTime, false, array_bytes(&admin_host_close()))
}

/// What the XOFF gate observed while a producer waits.
pub enum XoffSignal {
    /// The shared XOFF flag reads clear.
    FlagClear,
    /// An event arrived on the bus.
    Event(KeyerEvent),
    /// The subscription fell behind and skipped events.
    Lagged,
    /// The bus is closed: the engine is gone.
    Closed,
    /// The 10 s deadline passed.
    DeadlinePassed,
}

/// What the waiting producer does next.
pub enum XoffStep {
    /// Go on and queue the request.
    Proceed,
    /// Check the flag again and wait for the next signal.
    KeepWaiting,
    /// Give up with this error.
    Fail(Error),
}

/// When an XOFF wait ends: once the flag reads clear or a status event
/// reports XOFF clear; lag and other events keep waiting; a closed bus is
/// `NotConnected`, a passed deadline `BufferFull`.
pub open spec fn xoff_wait_ends(signal: XoffSignal) -> bool {
    match signal {
        XoffSignal::FlagClear => true,
        XoffSignal::Event(KeyerEvent::StatusChanged(s)) => !s.xoff,
        _ => false,
    }
}

/// Decide the XOFF gate's next step from what it observed.
pub fn xoff_wait_step(signal: XoffSignal) -> (r: XoffStep)
    ensures
        r is Proceed <==> xoff_wait_ends(signal),
        r is KeepWaiting <==> !xoff_wait_ends(signal) && (signal is Event || signal is Lagged),
        signal is Closed ==> r is Fail && r->Fail_0 is NotConnected,
        signal is DeadlinePassed ==> r is Fail && r->Fail_0 is BufferFull,
{
    match signal {
        XoffSignal::FlagClear => XoffStep::Proceed,
        XoffSignal::Event(event) => match event {
            KeyerEvent::StatusChanged(status) => if !status.xoff {
                XoffStep::Proceed
            } else {
                XoffStep::KeepWaiting
            },
            _ => XoffStep::KeepWaiting,
        },
        XoffSignal::Lagged => XoffStep::KeepWaiting,
        XoffSignal::Closed => XoffStep::Fail(Error::NotConnected),
        XoffSignal::DeadlinePassed => XoffStep::Fail(Error::BufferFull),
    }
}

/// An XOFF-clearing status byte ends every XOFF wait at once: the engine
/// clears its XOFF flag and publishes a status event on which a waiting
/// producer proceeds, whatever state the engine was in.
pub proof fn lemma_xoff_clear_ends_wait(state: IoState, byte: u8)
    requires
        0xC0 <= byte,
        byte & 0x01 == 0,
    ensures
        !state.after(byte).xoff,
        exists|i: int|
            0 <= i < state.events_for(byte).len() && xoff_wait_ends(
                XoffSignal::Event(#[trigger] state.events_for(byte)[i]),
            ),
{
    let events = state.events_for(byte);
    assert(class_of_byte(byte) is Status);
    let last = events.len() - 1;
    assert(xoff_wait_ends(XoffSignal::Event(events[last])));
}

} // verus!
