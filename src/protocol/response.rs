//! Response classification: keyer to host.
//!
//! Every inbound byte is told apart by its top two bits: `11` is a status
//! byte, `10` a speed-pot reading, `0x` the echo of a character just sent.

use vstd::prelude::*;

use crate::event::{status_of_byte, KeyerStatus};
use crate::protocol::types::{version_of_byte, WinKeyerVersion};

verus! {

/// Classification of one byte received from the keyer.
#[derive(Debug, Clone, PartialEq, Eq, Structural)]
pub enum ResponseByte {
    /// Status byte (0xC0-0xFF) with its decoded flags.
    Status(KeyerStatus),
    /// Speed pot reading (0x80-0xBF); the value is the low six bits.
    SpeedPot { value: u8 },
    /// Echo byte (0x00-0x7F): the character the keyer has just sent.
    Echo(char),
}

/// The class of `byte`, told by its top two bits.
pub open spec fn class_of_byte(byte: u8) -> ResponseByte {
    if 0xC0 <= byte {
        ResponseByte::Status(status_of_byte(byte))
    } else if 0x80 <= byte {
        ResponseByte::SpeedPot { value: byte & 0x3F }
    } else {
        ResponseByte::Echo(byte as char)
    }
}

/// Speed in WPM for a speed-pot byte: `min_wpm` plus the pot value, saturating at 255.
pub open spec fn speed_pot_wpm(byte: u8, min_wpm: u8) -> u8 {
    if min_wpm + (byte & 0x3F) > 255 {
        255
    } else {
        (min_wpm + (byte & 0x3F)) as u8
    }
}

/// The three classes split the byte range: a byte is a status byte exactly
/// when it is at least 0xC0, a speed-pot byte exactly when it lies in
/// 0x80..=0xBF, and an echo exactly when it is below 0x80, so every byte
/// has one class and only one.
pub proof fn lemma_classes_partition_bytes(byte: u8)
    ensures
        class_of_byte(byte) is Status <==> 0xC0 <= byte,
        class_of_byte(byte) is SpeedPot <==> 0x80 <= byte < 0xC0,
        class_of_byte(byte) is Echo <==> byte < 0x80,
        class_of_byte(byte) is SpeedPot ==> class_of_byte(byte)->value < 64,
{
    assert(byte & 0x3F < 64) by (bit_vector);
}

/// Classify a single byte received from the keyer.
pub fn classify_byte(byte: u8) -> (r: ResponseByte)
    ensures
        r == class_of_byte(byte),
{
    let top: u8 = byte & 0xC0;
    assert(top == 0xC0 <==> 0xC0 <= byte) by (bit_vector)
        requires
            top == byte & 0xC0,
    ;
    assert(top == 0x80 <==> (0x80 <= byte && byte < 0xC0)) by (bit_vector)
        requires
            top == byte & 0xC0,
    ;
    if top == 0xC0 {
        ResponseByte::Status(KeyerStatus::from_status_byte(byte))
    } else if top == 0x80 {
        ResponseByte::SpeedPot { value: byte & 0x3F }
    } else {
        ResponseByte::Echo(byte as char)
    }
}

/// Decode a status byte into its flags.
pub fn decode_status(byte: u8) -> (r: KeyerStatus)
    ensures
        r == status_of_byte(byte),
{
    KeyerStatus::from_status_byte(byte)
}

/// Decode a speed pot byte into WPM: the pot value (low six bits) added to
/// `min_wpm`, saturating.
pub fn decode_speed_pot(byte: u8, min_wpm: u8) -> (r: u8)
    ensures
        r == speed_pot_wpm(byte, min_wpm),
{
    let pot_value: u8 = byte & 0x3F;
    min_wpm.saturating_add(pot_value)
}

/// Decode an echo byte into a character.
pub fn decode_echo(byte: u8) -> (r: char)
    ensures
        r == byte as char,
{
    byte as char
}

/// Decode the version byte returned by the host-open command.
pub fn decode_version(byte: u8) -> (r: Option<WinKeyerVersion>)
    ensures
        r == version_of_byte(byte),
{
    WinKeyerVersion::from_version_byte(byte)
}

} // verus!
