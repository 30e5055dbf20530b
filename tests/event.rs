use winkey::KeyerStatus;

#[test]
fn decode_status_idle() {
    let status = KeyerStatus::from_status_byte(0xC0);
    assert!(!status.xoff);
    assert!(!status.breakin);
    assert!(!status.busy);
    assert!(!status.keydown);
    assert!(!status.waiting);
}

#[test]
fn decode_status_xoff() {
    // Bit 0 = XOFF
    let status = KeyerStatus::from_status_byte(0xC1);
    assert!(status.xoff);
    assert!(!status.breakin);
}

#[test]
fn decode_status_breakin() {
    // Bit 1 = BREAKIN
    let status = KeyerStatus::from_status_byte(0xC2);
    assert!(!status.xoff);
    assert!(status.breakin);
}

#[test]
fn decode_status_busy_keydown() {
    // Bit 2 = BUSY, Bit 3 = KEYDOWN
    let status = KeyerStatus::from_status_byte(0xCC);
    assert!(status.busy);
    assert!(status.keydown);
}

#[test]
fn decode_status_waiting() {
    // Bit 4 = WAIT
    let status = KeyerStatus::from_status_byte(0xD0);
    assert!(status.waiting);
}

#[test]
fn decode_status_all_bits() {
    // Bits 0-4 all set: 0xC0 | 0x1F = 0xDF
    let status = KeyerStatus::from_status_byte(0xDF);
    assert!(status.xoff);
    assert!(status.breakin);
    assert!(status.busy);
    assert!(status.keydown);
    assert!(status.waiting);
}
