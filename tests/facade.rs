use winkey::engine::{Framing, IoState, Lane};
use winkey::facade::{
    abort_request, buffered_speed_request, buffered_wait_request, cancel_buffered_speed_request,
    close_request, echo_result, echo_test_request, farnsworth_request, load_defaults_request,
    paddle_mode_request, pause_request, pin_config_request, pointer_request, prosign_request,
    ptt_request, ptt_timing_request, ratio_request, raw_request, raw_rt_request,
    send_message_request, sidetone_request, sidetone_volume_request, software_paddle_request,
    speed_request, tune_request, weight_request, xoff_wait_step, XoffSignal, XoffStep, Outbound,
};
use winkey::{Error, KeyerEvent, KeyerStatus, LoadDefaults, PaddleMode, PinConfig, WinKeyerVersion};

fn rt(o: &Outbound, bytes: &[u8]) {
    assert_eq!(o.lane, Lane::RealTime);
    assert!(!o.wait_xoff);
    assert!(o.read.is_none());
    assert_eq!(o.bytes, bytes);
}

fn bg(o: &Outbound, gated: bool, bytes: &[u8]) {
    assert_eq!(o.lane, Lane::Background);
    assert_eq!(o.wait_xoff, gated);
    assert!(o.read.is_none());
    assert_eq!(o.bytes, bytes);
}

#[test]
fn speed_bounds() {
    rt(&speed_request(5).unwrap(), &[0x02, 5]);
    rt(&speed_request(99).unwrap(), &[0x02, 99]);
    assert!(matches!(speed_request(4), Err(Error::InvalidParameter(_))));
    assert!(matches!(speed_request(100), Err(Error::InvalidParameter(_))));
    assert!(matches!(speed_request(3), Err(Error::InvalidParameter(_))));
}

#[test]
fn weight_bounds() {
    rt(&weight_request(10).unwrap(), &[0x03, 10]);
    rt(&weight_request(90).unwrap(), &[0x03, 90]);
    assert!(matches!(weight_request(9), Err(Error::InvalidParameter(_))));
    assert!(matches!(weight_request(91), Err(Error::InvalidParameter(_))));
}

#[test]
fn ratio_bounds() {
    rt(&ratio_request(33).unwrap(), &[0x17, 33]);
    rt(&ratio_request(66).unwrap(), &[0x17, 66]);
    assert!(matches!(ratio_request(32), Err(Error::InvalidParameter(_))));
    assert!(matches!(ratio_request(67), Err(Error::InvalidParameter(_))));
}

#[test]
fn sidetone_bounds() {
    rt(&sidetone_request(500, WinKeyerVersion::Wk3).unwrap(), &[0x01, 125]);
    rt(&sidetone_request(4000, WinKeyerVersion::Wk3).unwrap(), &[0x01, 15]);
    rt(&sidetone_request(800, WinKeyerVersion::Wk2).unwrap(), &[0x01, 5]);
    assert!(matches!(sidetone_request(499, WinKeyerVersion::Wk3), Err(Error::InvalidParameter(_))));
    assert!(matches!(sidetone_request(4001, WinKeyerVersion::Wk3), Err(Error::InvalidParameter(_))));
}

#[test]
fn range_error_message() {
    match speed_request(100) {
        Err(Error::InvalidParameter(m)) => assert_eq!(m, "speed must be 5-99 WPM, got 100"),
        _ => panic!("expected an invalid parameter"),
    }
}

#[test]
fn sidetone_volume_needs_wk3() {
    rt(&sidetone_volume_request(3, WinKeyerVersion::Wk3).unwrap(), &[0x00, 0x19, 3]);
    rt(&sidetone_volume_request(1, WinKeyerVersion::Wk31).unwrap(), &[0x00, 0x19, 1]);
    assert!(matches!(sidetone_volume_request(3, WinKeyerVersion::Wk2), Err(Error::Unsupported(_))));
}

#[test]
fn message_requests() {
    bg(&send_message_request("cq test").unwrap(), true, b"CQ TEST");
    bg(&send_message_request("").unwrap(), true, b"");
    assert!(matches!(send_message_request("CQ~TEST"), Err(Error::InvalidParameter(_))));
}

#[test]
fn realtime_requests() {
    rt(&abort_request(), &[0x0A]);
    rt(&tune_request(true), &[0x0B, 1]);
    rt(&tune_request(false), &[0x0B, 0]);
    rt(&ptt_request(true), &[0x18, 1]);
    rt(&farnsworth_request(15), &[0x0D, 15]);
    rt(&pin_config_request(PinConfig::default()), &[0x09, 0x07]);
    rt(&ptt_timing_request(4, 3), &[0x04, 4, 3]);
    rt(&pause_request(true), &[0x06, 1]);
    rt(&software_paddle_request(true, true), &[0x14, 3]);
    rt(&raw_rt_request(&[1, 2, 3]), &[1, 2, 3]);
    rt(&close_request(), &[0x00, 0x03]);
}

#[test]
fn background_requests() {
    bg(&prosign_request(b'A', b'R'), true, &[0x1B, b'A', b'R']);
    bg(&buffered_speed_request(25), true, &[0x1C, 25]);
    bg(&cancel_buffered_speed_request(), true, &[0x1E]);
    bg(&buffered_wait_request(5), true, &[0x1A, 5]);
    bg(&pointer_request(0x03, &[5]), false, &[0x16, 0x03, 5]);
    bg(&raw_request(&[0x41]), true, &[0x41]);
}

#[test]
fn echo_test_plan_and_result() {
    let o = echo_test_request(0x55);
    assert_eq!(o.lane, Lane::RealTime);
    assert_eq!(o.bytes, vec![0x00, 0x04, 0x55]);
    assert_eq!(o.read, Some((1, Framing::Binary)));
    assert_eq!(echo_result(&vec![0x80]).unwrap(), 0x80);
    assert!(matches!(echo_result(&vec![]), Err(Error::Protocol(_))));
    assert!(matches!(echo_result(&vec![1, 2]), Err(Error::Protocol(_))));
}

#[test]
fn paddle_mode_read_modify_write() {
    // contest spacing, auto-space, paddle echo, serial echo, Iambic B
    let current = 0x40 | 0x04 | 0x02 | 0x01;
    let (o, new_byte) = paddle_mode_request(current, PaddleMode::Ultimatic);
    rt(&o, &[0x0E, new_byte]);
    assert_eq!(new_byte & 0x30, 0x20);
    assert!(new_byte & 0x01 != 0);
    assert!(new_byte & 0x02 != 0);
    assert_eq!(new_byte, 0x67);
    let (_, back) = paddle_mode_request(new_byte, PaddleMode::IambicB);
    assert_eq!(back, current);
}

#[test]
fn load_defaults_updates_cached_register() {
    let defaults = LoadDefaults { mode_register: 0x46, ..LoadDefaults::default() };
    let (o, cached) = load_defaults_request(&defaults);
    assert_eq!(cached, 0x46);
    assert_eq!(o.bytes.len(), 16);
    assert_eq!(o.bytes[0], 0x0F);
    assert_eq!(o.bytes[1], 0x46);
    let (_, next) = paddle_mode_request(cached, PaddleMode::Ultimatic);
    assert_eq!(next & 0x30, 0x20);
    assert!(next & 0x02 != 0);
    assert!(next & 0x01 == 0);
}

#[test]
fn xoff_wait_ends_on_clear_status() {
    let mut state = IoState::new(10);
    let held = state.process_received_byte(0xC1);
    assert!(state.xoff);
    for e in held {
        assert!(matches!(xoff_wait_step(XoffSignal::Event(e)), XoffStep::KeepWaiting));
    }
    let request = send_message_request("A").unwrap();
    assert!(request.wait_xoff);
    let released = state.process_received_byte(0xC0);
    assert!(!state.xoff);
    let last = released.last().unwrap().clone();
    assert!(matches!(xoff_wait_step(XoffSignal::Event(last)), XoffStep::Proceed));
    assert_eq!(request.bytes, b"A");
}

#[test]
fn xoff_wait_other_signals() {
    assert!(matches!(xoff_wait_step(XoffSignal::FlagClear), XoffStep::Proceed));
    assert!(matches!(xoff_wait_step(XoffSignal::Lagged), XoffStep::KeepWaiting));
    assert!(matches!(
        xoff_wait_step(XoffSignal::Event(KeyerEvent::CharacterSent('A'))),
        XoffStep::KeepWaiting
    ));
    let held = KeyerStatus::from_status_byte(0xC1);
    assert!(matches!(
        xoff_wait_step(XoffSignal::Event(KeyerEvent::StatusChanged(held))),
        XoffStep::KeepWaiting
    ));
    assert!(matches!(xoff_wait_step(XoffSignal::Closed), XoffStep::Fail(Error::NotConnected)));
    assert!(matches!(xoff_wait_step(XoffSignal::DeadlinePassed), XoffStep::Fail(Error::BufferFull)));
}
