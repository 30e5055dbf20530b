//! Command encoding: host to keyer.
//!
//! Every function here is pure. Fixed commands come back as arrays whose
//! length is part of the type; the contract of each gives the exact bytes.

use vstd::prelude::*;

use crate::protocol::types::LoadDefaults;
use crate::text::{ascii_upper, ascii_uppercase, chars_of, is_ascii_char, unicode_uppercase, upper_of_char};
use vstd::utf8::encode_utf8;

verus! {

/// Admin: Calibrate (0x00 0x00 value).
pub fn admin_calibrate(value: u8) -> (r: [u8; 3])
    ensures
        r@ == seq![0x00u8, 0x00u8, value],
{
    [0x00, 0x00, value]
}

/// Admin: Reset (0x00 0x01). Soft reset of the keyer.
pub fn admin_reset() -> (r: [u8; 2])
    ensures
        r@ == seq![0x00u8, 0x01u8],
{
    [0x00, 0x01]
}

/// Admin: Host Open (0x00 0x02). The keyer answers with its version byte.
pub fn admin_host_open() -> (r: [u8; 2])
    ensures
        r@ == seq![0x00u8, 0x02u8],
{
    [0x00, 0x02]
}

/// Admin: Host Close (0x00 0x03).
pub fn admin_host_close() -> (r: [u8; 2])
    ensures
        r@ == seq![0x00u8, 0x03u8],
{
    [0x00, 0x03]
}

/// Admin: Echo Test (0x00 0x04 value). The keyer echoes the value back.
pub fn admin_echo_test(value: u8) -> (r: [u8; 3])
    ensures
        r@ == seq![0x00u8, 0x04u8, value],
{
    [0x00, 0x04, value]
}

/// Admin: Paddle A2D (0x00 0x05).
pub fn admin_paddle_a2d() -> (r: [u8; 2])
    ensures
        r@ == seq![0x00u8, 0x05u8],
{
    [0x00, 0x05]
}

/// Admin: Speed A2D (0x00 0x06).
pub fn admin_speed_a2d() -> (r: [u8; 2])
    ensures
        r@ == seq![0x00u8, 0x06u8],
{
    [0x00, 0x06]
}

/// Admin: Get Values (0x00 0x07).
pub fn admin_get_values() -> (r: [u8; 2])
    ensures
        r@ == seq![0x00u8, 0x07u8],
{
    [0x00, 0x07]
}

/// Admin: Reserved (0x00 0x08).
pub fn admin_reserved() -> (r: [u8; 2])
    ensures
        r@ == seq![0x00u8, 0x08u8],
{
    [0x00, 0x08]
}

/// Admin: Get FW Major Rev (0x00 0x09).
pub fn admin_get_fw_major_rev() -> (r: [u8; 2])
    ensures
        r@ == seq![0x00u8, 0x09u8],
{
    [0x00, 0x09]
}

/// Admin: Set WK1 Mode (0x00 0x0A).
pub fn admin_set_wk1_mode() -> (r: [u8; 2])
    ensures
        r@ == seq![0x00u8, 0x0Au8],
{
    [0x00, 0x0A]
}

/// Admin: Set WK2 Mode (0x00 0x0B).
pub fn admin_set_wk2_mode() -> (r: [u8; 2])
    ensures
        r@ == seq![0x00u8, 0x0Bu8],
{
    [0x00, 0x0B]
}

/// Admin: Dump EEPROM (0x00 0x0C).
pub fn admin_dump_eeprom() -> (r: [u8; 2])
    ensures
        r@ == seq![0x00u8, 0x0Cu8],
{
    [0x00, 0x0C]
}

/// Admin: Load EEPROM (0x00 0x0D).
pub fn admin_load_eeprom() -> (r: [u8; 2])
    ensures
        r@ == seq![0x00u8, 0x0Du8],
{
    [0x00, 0x0D]
}

/// Admin: Send MSG (0x00 0x0E slot). Play stored message 1-6.
pub fn admin_send_msg(slot: u8) -> (r: [u8; 3])
    ensures
        r@ == seq![0x00u8, 0x0Eu8, slot],
{
    [0x00, 0x0E, slot]
}

/// Admin: Load X1MODE (0x00 0x0F value).
pub fn admin_load_x1mode(value: u8) -> (r: [u8; 3])
    ensures
        r@ == seq![0x00u8, 0x0Fu8, value],
{
    [0x00, 0x0F, value]
}

/// Admin: Firmware Update (0x00 0x10).
pub fn admin_firmware_update() -> (r: [u8; 2])
    ensures
        r@ == seq![0x00u8, 0x10u8],
{
    [0x00, 0x10]
}

/// Admin: Set Low Baud (0x00 0x11). Switch to 1200 baud.
pub fn admin_set_low_baud() -> (r: [u8; 2])
    ensures
        r@ == seq![0x00u8, 0x11u8],
{
    [0x00, 0x11]
}

/// Admin: Set High Baud (0x00 0x12). Switch to 9600 baud.
pub fn admin_set_high_baud() -> (r: [u8; 2])
    ensures
        r@ == seq![0x00u8, 0x12u8],
{
    [0x00, 0x12]
}

/// Admin: Set RTTY Mode Registers (0x00 0x13 p1 p2). WK3.1 only.
pub fn admin_set_rtty_registers(p1: u8, p2: u8) -> (r: [u8; 4])
    ensures
        r@ == seq![0x00u8, 0x13u8, p1, p2],
{
    [0x00, 0x13, p1, p2]
}

/// Admin: Set WK3 Mode (0x00 0x14).
pub fn admin_set_wk3_mode() -> (r: [u8; 2])
    ensures
        r@ == seq![0x00u8, 0x14u8],
{
    [0x00, 0x14]
}

/// Admin: Read back VCC (0x00 0x15). WK3 and later.
pub fn admin_read_vcc() -> (r: [u8; 2])
    ensures
        r@ == seq![0x00u8, 0x15u8],
{
    [0x00, 0x15]
}

/// Admin: Load X2MODE (0x00 0x16 value). WK3 only.
pub fn admin_load_x2mode(value: u8) -> (r: [u8; 3])
    ensures
        r@ == seq![0x00u8, 0x16u8, value],
{
    [0x00, 0x16, value]
}

/// Admin: Get FW Minor Rev (0x00 0x17). WK3 and later.
pub fn admin_get_fw_minor_rev() -> (r: [u8; 2])
    ensures
        r@ == seq![0x00u8, 0x17u8],
{
    [0x00, 0x17]
}

/// Admin: Get IC Type (0x00 0x18). WK3 and later.
pub fn admin_get_ic_type() -> (r: [u8; 2])
    ensures
        r@ == seq![0x00u8, 0x18u8],
{
    [0x00, 0x18]
}

/// Admin: Set Sidetone Volume (0x00 0x19 value). WK3 only; 1-2 low, 3-4 normal.
pub fn admin_set_sidetone_volume(value: u8) -> (r: [u8; 3])
    ensures
        r@ == seq![0x00u8, 0x19u8, value],
{
    [0x00, 0x19, value]
}

/// Sidetone Control (0x01 value).
pub fn sidetone_control(value: u8) -> (r: [u8; 2])
    ensures
        r@ == seq![0x01u8, value],
{
    [0x01, value]
}

/// Set WPM Speed (0x02 wpm).
pub fn set_speed(wpm: u8) -> (r: [u8; 2])
    ensures
        r@ == seq![0x02u8, wpm],
{
    [0x02, wpm]
}

/// Set Weighting (0x03 weight).
pub fn set_weight(weight: u8) -> (r: [u8; 2])
    ensures
        r@ == seq![0x03u8, weight],
{
    [0x03, weight]
}

/// Set PTT Lead-in/Tail (0x04 lead tail), in 10 ms units.
pub fn set_ptt_timing(lead_in: u8, tail: u8) -> (r: [u8; 3])
    ensures
        r@ == seq![0x04u8, lead_in, tail],
{
    [0x04, lead_in, tail]
}

/// Set Speed Pot range (0x05 min range 0); the third byte is reserved.
pub fn set_speed_pot(min: u8, range: u8) -> (r: [u8; 4])
    ensures
        r@ == seq![0x05u8, min, range, 0x00u8],
{
    [0x05, min, range, 0x00]
}

/// Pause output (0x06 1) or resume it (0x06 0).
pub fn set_pause(paused: bool) -> (r: [u8; 2])
    ensures
        r@ == seq![0x06u8, if paused { 1u8 } else { 0u8 }],
{
    [0x06, if paused { 1 } else { 0 }]
}

/// Get Speed Pot value (0x07).
pub fn get_speed_pot() -> (r: [u8; 1])
    ensures
        r@ == seq![0x07u8],
{
    [0x07]
}

/// Backspace (0x08). Delete the last character from the buffer.
pub fn backspace() -> (r: [u8; 1])
    ensures
        r@ == seq![0x08u8],
{
    [0x08]
}

/// Set Pin Configuration (0x09 config).
pub fn set_pin_config(config: u8) -> (r: [u8; 2])
    ensures
        r@ == seq![0x09u8, config],
{
    [0x09, config]
}

/// Clear Buffer (0x0A). Abort the current message and clear the send buffer.
pub fn clear_buffer() -> (r: [u8; 1])
    ensures
        r@ == seq![0x0Au8],
{
    [0x0A]
}

/// Key Immediate (0x0B 1 key down, 0x0B 0 key up).
pub fn key_immediate(down: bool) -> (r: [u8; 2])
    ensures
        r@ == seq![0x0Bu8, if down { 1u8 } else { 0u8 }],
{
    [0x0B, if down { 1 } else { 0 }]
}

/// Set HSCW Speed (0x0C speed).
pub fn set_hscw_speed(speed: u8) -> (r: [u8; 2])
    ensures
        r@ == seq![0x0Cu8, speed],
{
    [0x0C, speed]
}

/// Set Farnsworth Speed (0x0D wpm). 0 disables it.
pub fn set_farnsworth(wpm: u8) -> (r: [u8; 2])
    ensures
        r@ == seq![0x0Du8, wpm],
{
    [0x0D, wpm]
}

/// Set WinKeyer Mode Register (0x0E mode).
pub fn set_mode_register(mode: u8) -> (r: [u8; 2])
    ensures
        r@ == seq![0x0Eu8, mode],
{
    [0x0E, mode]
}

/// Set 1st Extension (0x10 value).
pub fn set_first_extension(value: u8) -> (r: [u8; 2])
    ensures
        r@ == seq![0x10u8, value],
{
    [0x10, value]
}

/// Set Key Compensation (0x11 value).
pub fn set_key_compensation(value: u8) -> (r: [u8; 2])
    ensures
        r@ == seq![0x11u8, value],
{
    [0x11, value]
}

/// Set Paddle Switchpoint (0x12 value).
pub fn set_paddle_switchpoint(value: u8) -> (r: [u8; 2])
    ensures
        r@ == seq![0x12u8, value],
{
    [0x12, value]
}

/// Null command (0x13). Does nothing; usable as keep-alive.
pub fn null_command() -> (r: [u8; 1])
    ensures
        r@ == seq![0x13u8],
{
    [0x13]
}

/// Request WinKeyer Status (0x15).
pub fn request_status() -> (r: [u8; 1])
    ensures
        r@ == seq![0x15u8],
{
    [0x15]
}

/// Pointer Command (0x16 subcmd).
pub fn pointer_cmd(subcmd: u8) -> (r: [u8; 2])
    ensures
        r@ == seq![0x16u8, subcmd],
{
    [0x16, subcmd]
}

/// Set Dit/Dah Ratio (0x17 ratio). 50 is 3:1.
pub fn set_ratio(ratio: u8) -> (r: [u8; 2])
    ensures
        r@ == seq![0x17u8, ratio],
{
    [0x17, ratio]
}

/// Buffered PTT on (0x18 1) or off (0x18 0).
pub fn buffered_ptt(on: bool) -> (r: [u8; 2])
    ensures
        r@ == seq![0x18u8, if on { 1u8 } else { 0u8 }],
{
    [0x18, if on { 1 } else { 0 }]
}

/// Key Buffered (0x19 seconds).
pub fn key_buffered(seconds: u8) -> (r: [u8; 2])
    ensures
        r@ == seq![0x19u8, seconds],
{
    [0x19, seconds]
}

/// Buffered Wait (0x1A seconds).
pub fn buffered_wait(seconds: u8) -> (r: [u8; 2])
    ensures
        r@ == seq![0x1Au8, seconds],
{
    [0x1A, seconds]
}

/// Buffered Merge Letters (0x1B c1 c2): two letters sent as one prosign.
pub fn buffered_merge(c1: u8, c2: u8) -> (r: [u8; 3])
    ensures
        r@ == seq![0x1Bu8, c1, c2],
{
    [0x1B, c1, c2]
}

/// Buffered Speed Change (0x1C wpm).
pub fn buffered_speed_change(wpm: u8) -> (r: [u8; 2])
    ensures
        r@ == seq![0x1Cu8, wpm],
{
    [0x1C, wpm]
}

/// Buffered HSCW Speed (0x1D speed).
pub fn buffered_hscw_speed(speed: u8) -> (r: [u8; 2])
    ensures
        r@ == seq![0x1Du8, speed],
{
    [0x1D, speed]
}

/// Cancel Buffered Speed Change (0x1E).
pub fn cancel_buffered_speed() -> (r: [u8; 1])
    ensures
        r@ == seq![0x1Eu8],
{
    [0x1E]
}

/// Buffered NOP (0x1F).
pub fn buffered_nop() -> (r: [u8; 1])
    ensures
        r@ == seq![0x1Fu8],
{
    [0x1F]
}

/// The Load Defaults frame: 0x0F followed by the fifteen parameter bytes.
pub open spec fn load_defaults_frame(defaults: LoadDefaults) -> Seq<u8> {
    seq![0x0Fu8] + defaults.spec_bytes()
}

/// Load Defaults (0x0F + 15 bytes).
pub fn load_defaults(defaults: &LoadDefaults) -> (r: [u8; 16])
    ensures
        r@ == load_defaults_frame(*defaults),
{
    let r: [u8; 16] = [
        0x0F,
        defaults.mode_register,
        defaults.speed_wpm,
        defaults.sidetone,
        defaults.weight,
        defaults.lead_in_time,
        defaults.tail_time,
        defaults.min_wpm,
        defaults.wpm_range,
        defaults.x2_mode,
        defaults.key_compensation,
        defaults.farnsworth_wpm,
        defaults.paddle_setpoint,
        defaults.dit_dah_ratio,
        defaults.pin_config,
        defaults.x1_mode,
    ];
    assert(r@ =~= load_defaults_frame(*defaults));
    r
}

/// For every load-defaults block the frame starts with 0x0F, is sixteen
/// bytes long, and carries the block's own fifteen bytes after the opcode.
pub proof fn lemma_load_defaults_frame(defaults: LoadDefaults)
    ensures
        load_defaults_frame(defaults)[0] == 0x0F,
        load_defaults_frame(defaults).len() == 16,
        load_defaults_frame(defaults).subrange(1, 16) == defaults.spec_bytes(),
{
    assert(load_defaults_frame(defaults).subrange(1, 16) =~= defaults.spec_bytes());
}

/// Software Paddle (0x14 state): bit 0 presses the dit paddle, bit 1 the dah paddle.
pub fn software_paddle(dit: bool, dah: bool) -> (r: [u8; 2])
    ensures
        r@ == seq![0x14u8, ((if dit { 1u8 } else { 0u8 }) + (if dah { 2u8 } else { 0u8 })) as u8],
{
    let mut state: u8 = 0;
    if dit {
        state = state + 1;
    }
    if dah {
        state = state + 2;
    }
    [0x14, state]
}

/// Pointer Command with data (0x16 subcmd data...).
pub fn pointer_cmd_with_data(subcmd: u8, data: &[u8]) -> (r: Vec<u8>)
    ensures
        r@ == seq![0x16u8, subcmd] + data@,
{
    let mut cmd: Vec<u8> = Vec::new();
    cmd.push(0x16);
    cmd.push(subcmd);
    let mut i: usize = 0;
    while i < data.len()
        invariant
            i <= data@.len(),
            cmd@ == seq![0x16u8, subcmd] + data@.take(i as int),
        decreases data@.len() - i,
    {
        cmd.push(data[i]);
        i = i + 1;
        assert(data@.take(i as int) =~= data@.take(i - 1) + seq![data@[i - 1]]);
    }
    assert(data@.take(i as int) =~= data@);
    cmd
}

// ---------------------------------------------------------------------------
// Text
// ---------------------------------------------------------------------------

/// A character the keyer can send: A-Z, a-z, 0-9, space, and
/// `. , ? / ! = + - : ; ' " ( ) @ & _`.
pub open spec fn is_cw_char(c: char) -> bool {
    ||| 'A' <= c <= 'Z'
    ||| 'a' <= c <= 'z'
    ||| '0' <= c <= '9'
    ||| c == ' ' || c == '.' || c == ',' || c == '?' || c == '/' || c == '!'
    ||| c == '=' || c == '+' || c == '-' || c == ':' || c == ';' || c == '\''
    ||| c == '"' || c == '(' || c == ')' || c == '@' || c == '&' || c == '_'
}

/// Text made only of characters the keyer can send.
pub open spec fn valid_cw_text(s: Seq<char>) -> bool {
    forall|i: int| 0 <= i < s.len() ==> is_cw_char(#[trigger] s[i])
}

/// Check if a character is valid for CW output.
fn is_valid_cw_char(ch: char) -> (r: bool)
    ensures
        r == is_cw_char(ch),
{
    ('A' <= ch && ch <= 'Z') || ('a' <= ch && ch <= 'z') || ('0' <= ch && ch <= '9') || ch
        == ' ' || ch == '.' || ch == ',' || ch == '?' || ch == '/' || ch == '!' || ch == '='
        || ch == '+' || ch == '-' || ch == ':' || ch == ';' || ch == '\'' || ch == '"' || ch
        == '(' || ch == ')' || ch == '@' || ch == '&' || ch == '_'
}

/// Relies on std's `format!`: the message that names an invalid character and its position.
#[verifier::external_body]
fn invalid_char_message(ch: char, position: usize) -> String {
    format!("invalid CW character '{}' at position {}", ch, position)
}

/// Validate that a string contains only characters the keyer can send.
pub fn validate_cw_text(text: &str) -> (r: Result<(), String>)
    ensures
        r is Ok <==> valid_cw_text(text@),
{
    let chars = chars_of(text);
    let mut i: usize = 0;
    while i < chars.len()
        invariant
            chars@ == text@,
            i <= chars@.len(),
            forall|k: int| 0 <= k < i ==> is_cw_char(#[trigger] text@[k]),
        decreases chars@.len() - i,
    {
        if !is_valid_cw_char(chars[i]) {
            return Err(invalid_char_message(chars[i], i));
        }
        i = i + 1;
    }
    Ok(())
}

/// The bytes one character becomes: an ASCII character its capital's byte,
/// any other character the UTF-8 bytes of its Unicode uppercase mapping.
pub open spec fn char_bytes(c: char) -> Seq<u8> {
    if is_ascii_char(c) {
        seq![ascii_upper(c) as u8]
    } else {
        encode_utf8(upper_of_char(c))
    }
}

/// The bytes a text becomes, character by character.
pub open spec fn encoded_text(s: Seq<char>) -> Seq<u8>
    decreases s.len(),
{
    if s.len() == 0 {
        Seq::empty()
    } else {
        encoded_text(s.drop_last()) + char_bytes(s.last())
    }
}

/// Encode text as bytes for the keyer, in uppercase.
pub fn encode_text(text: &str) -> (r: Vec<u8>)
    ensures
        r@ == encoded_text(text@),
{
    let chars = chars_of(text);
    let mut out: Vec<u8> = Vec::new();
    let mut i: usize = 0;
    while i < chars.len()
        invariant
            chars@ == text@,
            i <= chars@.len(),
            out@ == encoded_text(text@.take(i as int)),
        decreases chars@.len() - i,
    {
        let c = chars[i];
        let ghost before = out@;
        if (c as u32) < 128 {
            out.push(ascii_uppercase(c) as u8);
        } else {
            let upper = unicode_uppercase(c);
            let bytes = upper.as_str().as_bytes();
            let mut k: usize = 0;
            while k < bytes.len()
                invariant
                    k <= bytes@.len(),
                    bytes@ == encode_utf8(upper_of_char(c)),
                    out@ == before + bytes@.take(k as int),
                decreases bytes@.len() - k,
            {
                out.push(bytes[k]);
                k = k + 1;
                assert(bytes@.take(k as int) =~= bytes@.take(k - 1) + seq![bytes@[k - 1]]);
            }
            assert(bytes@.take(k as int) =~= bytes@);
        }
        assert(text@.take(i + 1).drop_last() =~= text@.take(i as int));
        i = i + 1;
    }
    assert(text@.take(i as int) =~= text@);
    out
}

/// The bytes of an encoded text read back as characters, one character per byte.
pub open spec fn decode_text(bytes: Seq<u8>) -> Seq<char> {
    Seq::new(bytes.len(), |i: int| bytes[i] as char)
}

proof fn lemma_cw_char_upper(c: char)
    requires
        is_cw_char(c),
    ensures
        is_ascii_char(c),
        is_cw_char(ascii_upper(c)),
        ascii_upper(ascii_upper(c)) == ascii_upper(c),
        ((ascii_upper(c) as u8) as char) == ascii_upper(c),
{
}

proof fn lemma_encoded_valid_text(s: Seq<char>)
    requires
        valid_cw_text(s),
    ensures
        encoded_text(s) == Seq::new(s.len(), |i: int| ascii_upper(s[i]) as u8),
    decreases s.len(),
{
    if s.len() > 0 {
        let rest = s.drop_last();
        assert(valid_cw_text(rest)) by {
            assert forall|i: int| 0 <= i < rest.len() implies is_cw_char(#[trigger] rest[i]) by {
                assert(rest[i] == s[i]);
            }
        }
        lemma_encoded_valid_text(rest);
        lemma_cw_char_upper(s.last());
        assert(encoded_text(s) =~= Seq::new(s.len(), |i: int| ascii_upper(s[i]) as u8));
    } else {
        assert(encoded_text(s) =~= Seq::new(s.len(), |i: int| ascii_upper(s[i]) as u8));
    }
}

/// Round trip of the text codec: for valid CW text `s`, the encoded bytes
/// read back as text are valid CW text again, and encoding them gives the
/// same bytes once more; so encoding is idempotent under re-application.
pub proof fn lemma_encode_text_round_trip(s: Seq<char>)
    requires
        valid_cw_text(s),
    ensures
        valid_cw_text(decode_text(encoded_text(s))),
        encoded_text(decode_text(encoded_text(s))) == encoded_text(s),
{
    lemma_encoded_valid_text(s);
    let t = decode_text(encoded_text(s));
    assert forall|i: int| 0 <= i < t.len() implies #[trigger] t[i] == ascii_upper(s[i]) by {
        assert(is_cw_char(s[i]));
        lemma_cw_char_upper(s[i]);
    }
    assert forall|i: int| 0 <= i < t.len() implies is_cw_char(#[trigger] t[i]) by {
        assert(is_cw_char(s[i]));
        lemma_cw_char_upper(s[i]);
    }
    lemma_encoded_valid_text(t);
    assert forall|i: int| 0 <= i < t.len() implies ascii_upper(#[trigger] t[i]) as u8 == ascii_upper(s[i]) as u8 by {
        assert(is_cw_char(s[i]));
        lemma_cw_char_upper(s[i]);
    }
    assert(encoded_text(t) =~= encoded_text(s));
}

} // verus!
