use winkey::protocol::response::{
    classify_byte, decode_echo, decode_speed_pot, decode_status, decode_version, ResponseByte,
};
use winkey::{KeyerStatus, WinKeyerVersion};

#[test]
fn classify_speed_pot_bytes() {
    // 0x80 = speed pot, value 0
    assert_eq!(classify_byte(0x80), ResponseByte::SpeedPot { value: 0 });
    // 0x8F = speed pot, value 15
    assert_eq!(classify_byte(0x8F), ResponseByte::SpeedPot { value: 15 });
    // 0x9F = speed pot, value 31
    assert_eq!(classify_byte(0x9F), ResponseByte::SpeedPot { value: 31 });
    // 0xBF = speed pot, value 63 (max in range)
    assert_eq!(classify_byte(0xBF), ResponseByte::SpeedPot { value: 63 });
}

#[test]
fn classify_echo_bytes() {
    assert_eq!(classify_byte(b'A'), ResponseByte::Echo('A'));
    assert_eq!(classify_byte(b'5'), ResponseByte::Echo('5'));
    assert_eq!(classify_byte(b' '), ResponseByte::Echo(' '));
    assert_eq!(classify_byte(0x00), ResponseByte::Echo('\0'));
}

#[test]
fn speed_pot_wpm_calculation() {
    assert_eq!(decode_speed_pot(0x80, 10), 10); // pot=0, min=10
    assert_eq!(decode_speed_pot(0x8A, 10), 20); // pot=10, min=10
    assert_eq!(decode_speed_pot(0x99, 5), 30); // pot=25, min=5
}

#[test]
fn speed_pot_saturating() {
    // Extreme values shouldn't overflow
    assert_eq!(decode_speed_pot(0xBF, 250), 255); // pot=63, min=250 → saturates
}

#[test]
fn echo_decode() {
    assert_eq!(decode_echo(b'C'), 'C');
    assert_eq!(decode_echo(b'Q'), 'Q');
    assert_eq!(decode_echo(b' '), ' ');
}

#[test]
fn version_decode() {
    assert_eq!(decode_version(23), Some(WinKeyerVersion::Wk2));
    assert_eq!(decode_version(30), Some(WinKeyerVersion::Wk3));
    assert_eq!(decode_version(31), Some(WinKeyerVersion::Wk31));
    assert_eq!(decode_version(0), None);
    assert_eq!(decode_version(15), None);
}

#[test]
fn classify_status_datasheet_layout() {
    // 0xCA = 1100 1010: break-in (bit 1) and key-down (bit 3)
    let expected = KeyerStatus { xoff: false, breakin: true, busy: false, keydown: true, waiting: false };
    assert_eq!(classify_byte(0xCA), ResponseByte::Status(expected));
    assert_eq!(decode_status(0xCA), expected);
    // 0xC5 = xoff (bit 0) and busy (bit 2)
    let s = decode_status(0xC5);
    assert!(s.xoff && s.busy && !s.breakin && !s.keydown && !s.waiting);
}

#[test]
fn every_byte_has_exactly_one_class() {
    for b in 0u8..=255 {
        let class = classify_byte(b);
        let (status, pot, echo) = (
            matches!(class, ResponseByte::Status(_)),
            matches!(class, ResponseByte::SpeedPot { .. }),
            matches!(class, ResponseByte::Echo(_)),
        );
        assert_eq!(status as u8 + pot as u8 + echo as u8, 1);
        assert_eq!(status, b >= 0xC0);
        assert_eq!(pot, (0x80..0xC0).contains(&b));
        assert_eq!(echo, b < 0x80);
        if let ResponseByte::SpeedPot { value } = class {
            assert_eq!(value, b - 0x80);
        }
    }
}
