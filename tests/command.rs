use winkey::protocol::command::{
    admin_echo_test, admin_host_close, admin_host_open, admin_reset, admin_send_msg,
    admin_set_high_baud, admin_set_rtty_registers, admin_set_sidetone_volume, admin_set_wk2_mode,
    admin_set_wk3_mode, buffered_merge, buffered_nop, buffered_ptt, buffered_speed_change,
    buffered_wait, cancel_buffered_speed, clear_buffer, encode_text, key_buffered, key_immediate,
    load_defaults, pointer_cmd, pointer_cmd_with_data, request_status, set_farnsworth, set_pause,
    set_ptt_timing, set_speed, set_speed_pot, set_weight, sidetone_control, software_paddle,
    validate_cw_text,
};
use winkey::LoadDefaults;

#[test]
fn admin_commands() {
    assert_eq!(admin_host_open(), [0x00, 0x02]);
    assert_eq!(admin_host_close(), [0x00, 0x03]);
    assert_eq!(admin_reset(), [0x00, 0x01]);
    assert_eq!(admin_set_wk2_mode(), [0x00, 0x0B]);
    assert_eq!(admin_set_wk3_mode(), [0x00, 0x14]);
    assert_eq!(admin_set_high_baud(), [0x00, 0x12]);
    assert_eq!(admin_echo_test(0x42), [0x00, 0x04, 0x42]);
    assert_eq!(admin_send_msg(3), [0x00, 0x0E, 3]);
}

#[test]
fn immediate_commands() {
    assert_eq!(set_speed(28), [0x02, 28]);
    assert_eq!(set_weight(50), [0x03, 50]);
    assert_eq!(set_ptt_timing(4, 3), [0x04, 4, 3]);
    assert_eq!(clear_buffer(), [0x0A]);
    assert_eq!(key_immediate(true), [0x0B, 1]);
    assert_eq!(key_immediate(false), [0x0B, 0]);
    assert_eq!(set_farnsworth(15), [0x0D, 15]);
    assert_eq!(set_pause(true), [0x06, 1]);
    assert_eq!(set_pause(false), [0x06, 0]);
    assert_eq!(request_status(), [0x15]);
}

#[test]
fn software_paddle_encoding() {
    assert_eq!(software_paddle(false, false), [0x14, 0x00]);
    assert_eq!(software_paddle(true, false), [0x14, 0x01]);
    assert_eq!(software_paddle(false, true), [0x14, 0x02]);
    assert_eq!(software_paddle(true, true), [0x14, 0x03]);
}

#[test]
fn buffered_commands() {
    assert_eq!(buffered_speed_change(25), [0x1C, 25]);
    assert_eq!(cancel_buffered_speed(), [0x1E]);
    assert_eq!(buffered_merge(b'A', b'R'), [0x1B, b'A', b'R']);
    assert_eq!(buffered_ptt(true), [0x18, 1]);
    assert_eq!(buffered_ptt(false), [0x18, 0]);
    assert_eq!(key_buffered(5), [0x19, 5]);
    assert_eq!(buffered_wait(5), [0x1A, 5]);
    assert_eq!(buffered_nop(), [0x1F]);
}

#[test]
fn pointer_command_encoding() {
    assert_eq!(pointer_cmd(0x00), [0x16, 0x00]);
    let cmd = pointer_cmd_with_data(0x03, &[5]);
    assert_eq!(cmd, vec![0x16, 0x03, 5]);
}

#[test]
fn command_load_defaults_encoding() {
    let defaults = LoadDefaults::default();
    let cmd = load_defaults(&defaults);
    assert_eq!(cmd[0], 0x0F);
    assert_eq!(cmd.len(), 16);
    assert_eq!(cmd[2], 20); // speed_wpm
}

#[test]
fn text_validation() {
    assert!(validate_cw_text("CQ TEST K1EL").is_ok());
    assert!(validate_cw_text("5NN TU").is_ok());
    assert!(validate_cw_text("?/!").is_ok());
    assert!(validate_cw_text("hello").is_ok()); // lowercase OK
    assert!(validate_cw_text("CQ~TEST").is_err()); // tilde invalid
    assert!(validate_cw_text("CQ\tTEST").is_err()); // tab invalid
}

#[test]
fn text_encoding() {
    assert_eq!(encode_text("cq test"), b"CQ TEST");
    assert_eq!(encode_text("5NN"), b"5NN");
}

#[test]
fn sidetone_command() {
    assert_eq!(sidetone_control(5), [0x01, 5]);
}

#[test]
fn speed_pot_command() {
    assert_eq!(set_speed_pot(10, 25), [0x05, 10, 25, 0]);
}

#[test]
fn fixed_commands_have_fixed_lengths() {
    assert_eq!(admin_set_rtty_registers(1, 2), [0x00, 0x13, 1, 2]);
    assert_eq!(admin_set_sidetone_volume(3), [0x00, 0x19, 3]);
    assert_eq!(set_speed(5).len(), set_speed(99).len());
    assert_eq!(set_speed(28), set_speed(28));
    assert_eq!(pointer_cmd_with_data(0x01, &[]), vec![0x16, 0x01]);
}

#[test]
fn load_defaults_frame_carries_block() {
    let mut d = LoadDefaults::default();
    d.x1_mode = 9;
    d.pin_config = 0x0F;
    let frame = load_defaults(&d);
    assert_eq!(frame[0], 0x0F);
    assert_eq!(frame.len(), 16);
    assert_eq!(&frame[1..16], &d.to_bytes()[..]);
}

#[test]
fn invalid_text_names_character_and_position() {
    let err = validate_cw_text("AB#C").unwrap_err();
    assert_eq!(err, "invalid CW character '#' at position 2");
}

#[test]
fn text_encoding_uses_unicode_uppercase_beyond_ascii() {
    assert_eq!(encode_text("straße"), "STRASSE".as_bytes());
    assert_eq!(encode_text("é"), "É".as_bytes());
}

#[test]
fn text_encoding_round_trip() {
    let once = encode_text("cq test de k1el 5nn?");
    let text: String = once.iter().map(|&b| b as char).collect();
    assert!(validate_cw_text(&text).is_ok());
    assert_eq!(encode_text(&text), once);
    assert_eq!(once, b"CQ TEST DE K1EL 5NN?");
}

#[test]
fn text_validation_accepts_exactly_the_cw_set() {
    let listed = ".,?/!=+-:;'\"()@&_ ";
    for b in 0u8..128 {
        let c = b as char;
        let expected = c.is_ascii_alphanumeric() || listed.contains(c);
        assert_eq!(validate_cw_text(&c.to_string()).is_ok(), expected, "byte {b:#04x}");
    }
    assert!(validate_cw_text("é").is_err());
}

#[test]
fn white_space_matches_std() {
    for code in 0u32..=0x3000 {
        if let Some(c) = char::from_u32(code) {
            assert_eq!(winkey::text::is_white_space(c), c.is_whitespace(), "U+{code:04X}");
        }
    }
    assert!(!winkey::text::is_white_space('\u{FEFF}'));
}
