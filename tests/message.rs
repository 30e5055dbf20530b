use winkey::message::{
    build_contest_message, PROSIGN_AR, PROSIGN_AS, PROSIGN_BT, PROSIGN_KN, PROSIGN_SK,
};

#[test]
fn prosign_constants() {
    assert_eq!(PROSIGN_AR, (b'A', b'R'));
    assert_eq!(PROSIGN_SK, (b'S', b'K'));
    assert_eq!(PROSIGN_BT, (b'B', b'T'));
    assert_eq!(PROSIGN_KN, (b'K', b'N'));
    assert_eq!(PROSIGN_AS, (b'A', b'S'));
}

#[test]
fn simple_text() {
    let bytes = build_contest_message("CQ TEST");
    assert_eq!(bytes, b"CQ TEST");
}

#[test]
fn lowercase_converted() {
    let bytes = build_contest_message("cq test");
    assert_eq!(bytes, b"CQ TEST");
}

#[test]
fn with_prosign() {
    let bytes = build_contest_message("CQ TEST <AR>");
    assert_eq!(&bytes[..8], b"CQ TEST ");
    assert_eq!(&bytes[8..], &[0x1B, b'A', b'R']);
}

#[test]
fn with_speed_change() {
    let bytes = build_contest_message("5NN{20}TU");
    assert_eq!(&bytes[0..3], b"5NN");
    assert_eq!(&bytes[3..5], &[0x1C, 20]);
    assert_eq!(&bytes[5..7], b"TU");
}

#[test]
fn cancel_speed_change() {
    let bytes = build_contest_message("5NN{0}");
    assert_eq!(&bytes[0..3], b"5NN");
    assert_eq!(&bytes[3..4], &[0x1E]);
}

#[test]
fn cancel_speed_empty_braces() {
    let bytes = build_contest_message("5NN{}");
    assert_eq!(&bytes[0..3], b"5NN");
    assert_eq!(&bytes[3..4], &[0x1E]);
}

#[test]
fn multiple_prosigns() {
    let bytes = build_contest_message("<BT>K1EL<SK>");
    assert_eq!(&bytes[0..3], &[0x1B, b'B', b'T']);
    assert_eq!(&bytes[3..7], b"K1EL");
    assert_eq!(&bytes[7..10], &[0x1B, b'S', b'K']);
}

#[test]
fn mixed_speed_and_prosigns() {
    let bytes = build_contest_message("{28}CQ TEST K1EL{20} 5NN<AR>");
    assert_eq!(bytes[0], 0x1C);
    assert_eq!(bytes[1], 28);
    assert_eq!(&bytes[2..14], b"CQ TEST K1EL");
    assert_eq!(bytes[14], 0x1C);
    assert_eq!(bytes[15], 20);
    assert_eq!(&bytes[16..20], b" 5NN");
    assert_eq!(&bytes[20..23], &[0x1B, b'A', b'R']);
}

#[test]
fn unknown_prosign_skipped() {
    let bytes = build_contest_message("CQ<XX>TEST");
    assert_eq!(bytes, b"CQTEST");
}

#[test]
fn empty_message() {
    let bytes = build_contest_message("");
    assert!(bytes.is_empty());
}

#[test]
fn compiled_contest_message_exact() {
    let expected: Vec<u8> = vec![
        0x1C, 28, b'C', b'Q', b' ', b'T', b'E', b'S', b'T', b' ', b'K', b'1', b'E', b'L', 0x1C, 20,
        b' ', b'5', b'N', b'N', 0x1B, b'A', b'R',
    ];
    assert_eq!(build_contest_message("{28}CQ TEST K1EL{20} 5NN<AR>"), expected);
}

#[test]
fn escapes_edge_cases() {
    // lowercase prosign names are recognised
    assert_eq!(build_contest_message("<kn>"), vec![0x1B, b'K', b'N']);
    assert_eq!(build_contest_message("<as>"), vec![0x1B, b'A', b'S']);
    // whitespace around the speed is trimmed
    assert_eq!(build_contest_message("{ 25 }"), vec![0x1C, 25]);
    // not a number, or out of range, cancels
    assert_eq!(build_contest_message("{abc}"), vec![0x1E]);
    assert_eq!(build_contest_message("{256}"), vec![0x1E]);
    assert_eq!(build_contest_message("{+30}"), vec![0x1C, 30]);
    assert_eq!(build_contest_message("{255}"), vec![0x1C, 255]);
    // an unclosed escape runs to the end
    assert_eq!(build_contest_message("A<AR"), vec![b'A', 0x1B, b'A', b'R']);
    assert_eq!(build_contest_message("A{12"), vec![b'A', 0x1C, 12]);
    // a closing bracket outside an escape is plain text
    assert_eq!(build_contest_message("a>b}"), b"A>B}".to_vec());
    // characters beyond ASCII keep only their low byte
    assert_eq!(build_contest_message("\u{E9}\u{20AC}"), vec![0xE9, 0xAC]);
}

#[test]
fn prosign_name_uses_unicode_uppercase() {
    // U+017F (long s) uppercases to 'S'
    assert_eq!(build_contest_message("<\u{17F}K>"), vec![0x1B, b'S', b'K']);
    // U+00A0 (no-break space) is whitespace
    assert_eq!(build_contest_message("{\u{A0}15}"), vec![0x1C, 15]);
}
