use pad_oxide::status::{XinputHostStatus, XinputLedPattern, XinputRumbleState};

#[test]
fn rumble_report_carries_left_and_right() {
    let bytes: [u8; 8] = [0x00, 0x08, 0x00, 0x12, 0x34, 0x00, 0x00, 0x00];
    assert_eq!(
        XinputHostStatus::from(&bytes[..]),
        XinputHostStatus::Rumble(XinputRumbleState { left: 0x12, right: 0x34 })
    );
}

#[test]
fn rumble_report_ignores_the_other_bytes() {
    let bytes: [u8; 8] = [0x00, 0xff, 0xff, 0xc8, 0x01, 0xff, 0xff, 0xff];
    assert_eq!(
        XinputHostStatus::from(&bytes[..]),
        XinputHostStatus::Rumble(XinputRumbleState { left: 200, right: 1 })
    );
}

#[test]
fn led_report_carries_each_pattern() {
    let patterns = [
        XinputLedPattern::Off,
        XinputLedPattern::Blink,
        XinputLedPattern::Flash1,
        XinputLedPattern::Flash2,
        XinputLedPattern::Flash3,
        XinputLedPattern::Flash4,
        XinputLedPattern::On1,
        XinputLedPattern::On2,
        XinputLedPattern::On3,
        XinputLedPattern::On4,
        XinputLedPattern::Rotate,
        XinputLedPattern::BlinkOnce,
        XinputLedPattern::BlinkSlow,
        XinputLedPattern::Alternate,
    ];
    for (code, pattern) in patterns.iter().enumerate() {
        let bytes: [u8; 3] = [0x01, 0x03, code as u8];
        assert_eq!(XinputHostStatus::from(&bytes[..]), XinputHostStatus::Led(*pattern));
        assert_eq!(pattern.to_primitive(), code as u8);
        assert_eq!(XinputLedPattern::from_primitive(code as u8), Some(*pattern));
    }
}

#[test]
fn led_report_with_code_ff_is_unknown() {
    let bytes: [u8; 3] = [0x01, 0x03, 0xff];
    assert_eq!(XinputHostStatus::from(&bytes[..]), XinputHostStatus::Unknown);
}

#[test]
fn led_report_with_first_code_past_the_last_is_unknown() {
    let bytes: [u8; 3] = [0x01, 0x03, 0x0e];
    assert_eq!(XinputHostStatus::from(&bytes[..]), XinputHostStatus::Unknown);
    assert_eq!(XinputLedPattern::from_primitive(0x0e), None);
    assert_eq!(XinputLedPattern::from_primitive(0xff), None);
}

#[test]
fn other_tags_and_lengths_are_unknown() {
    assert_eq!(XinputHostStatus::from(&[][..]), XinputHostStatus::Unknown);
    assert_eq!(XinputHostStatus::from(&[0x00][..]), XinputHostStatus::Unknown);
    assert_eq!(XinputHostStatus::from(&[0x00, 0, 0][..]), XinputHostStatus::Unknown);
    assert_eq!(XinputHostStatus::from(&[0x01, 0, 0, 0, 0, 0, 0, 0][..]), XinputHostStatus::Unknown);
    assert_eq!(XinputHostStatus::from(&[0x02, 0, 0][..]), XinputHostStatus::Unknown);
    assert_eq!(XinputHostStatus::from(&[0x02, 0, 0, 0, 0, 0, 0, 0][..]), XinputHostStatus::Unknown);
    assert_eq!(XinputHostStatus::from(&[0x00, 0, 0, 1, 2, 0, 0][..]), XinputHostStatus::Unknown);
    assert_eq!(
        XinputHostStatus::from(&[0x00, 0, 0, 1, 2, 0, 0, 0, 0][..]),
        XinputHostStatus::Unknown
    );
    assert_eq!(XinputHostStatus::from(&[0x01, 0, 1, 0][..]), XinputHostStatus::Unknown);
    assert_eq!(XinputHostStatus::from(&[0x01, 0][..]), XinputHostStatus::Unknown);
}

#[test]
fn rumble_state_defaults_to_rest() {
    assert_eq!(XinputRumbleState::default(), XinputRumbleState { left: 0, right: 0 });
}
