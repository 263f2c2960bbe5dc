use happy_garden::signals::{
    button_event, consume_event, encoder_button_event, has_event, request_draw, rotation_event, ButtonState, DisplayFlag,
    EncoderDirection, ErrorFlag, Source, StatusFlag,
};

#[test]
fn display_flags_read_back_from_their_bits() {
    let all = [
        DisplayFlag::ButtonPressed,
        DisplayFlag::ButtonReleased,
        DisplayFlag::EncoderButtonPressed,
        DisplayFlag::EncoderButtonReleased,
        DisplayFlag::EncoderRotatedClockwise,
        DisplayFlag::EncoderRotatedCounterClockwise,
        DisplayFlag::WifiStatusUnknown,
        DisplayFlag::WifiStatusExcellent,
        DisplayFlag::WifiStatusGood,
        DisplayFlag::WifiStatusFair,
        DisplayFlag::WifiStatusWeak,
        DisplayFlag::WifiStatusNoSignal,
        DisplayFlag::Draw,
    ];
    for f in all {
        assert_eq!(DisplayFlag::from_bits(f.bits()), f);
    }
    assert_eq!(DisplayFlag::Draw.bits(), 0x0080_0000);
    assert_eq!(DisplayFlag::WifiStatusGood.bits(), 0xC0);
    assert_eq!(DisplayFlag::from_bits(0x03), DisplayFlag::Empty);
}

#[test]
fn error_flags_read_back_except_the_header_one() {
    assert_eq!(ErrorFlag::from_bits(ErrorFlag::NTP.bits()), ErrorFlag::NTP);
    assert_eq!(ErrorFlag::from_bits(ErrorFlag::DateTime.bits()), ErrorFlag::DateTime);
    assert_eq!(ErrorFlag::from_bits(ErrorFlag::Display.bits()), ErrorFlag::Display);
    assert_eq!(ErrorFlag::from_bits(ErrorFlag::DisplayHeader.bits()), ErrorFlag::Empty);
    assert_eq!(ErrorFlag::Display.name(), "Display");
    assert_eq!(ErrorFlag::Empty.name(), "None");
}

#[test]
fn status_flags_names_and_bits() {
    assert_eq!(StatusFlag::UserLogged.bits(), 0x0080_0000);
    assert_eq!(StatusFlag::from_bits(0x40), StatusFlag::EnableWifi);
    assert_eq!(StatusFlag::from_bits(0x03), StatusFlag::Empty);
    assert_eq!(StatusFlag::Empty.as_str(), "None");
    assert_eq!(StatusFlag::CheckConfig.as_str(), "CheckConfig");
    assert_eq!(StatusFlag::from_source(Source::Uart), StatusFlag::UartCmd);
    assert!(StatusFlag::Ready.check_signal(0x80 | 0x01));
    assert!(!StatusFlag::Ready.check_signal(0x40));
}

#[test]
fn consuming_an_event_lowers_only_its_bit() {
    let mut signal: u32 = DisplayFlag::ButtonReleased.bits() | DisplayFlag::EncoderRotatedClockwise.bits();
    assert!(consume_event(&mut signal, DisplayFlag::ButtonReleased));
    assert_eq!(signal, DisplayFlag::EncoderRotatedClockwise.bits());
    assert!(!consume_event(&mut signal, DisplayFlag::ButtonReleased));
    assert_eq!(signal, DisplayFlag::EncoderRotatedClockwise.bits());
    assert!(has_event(signal, DisplayFlag::EncoderRotatedClockwise));
    request_draw(&mut signal);
    assert_eq!(signal, 0x10 | 0x0080_0000);
}

#[test]
fn button_and_encoder_events() {
    assert_eq!(button_event(ButtonState::Pressed), Some(DisplayFlag::ButtonPressed));
    assert_eq!(button_event(ButtonState::Released), Some(DisplayFlag::ButtonReleased));
    assert_eq!(button_event(ButtonState::Idle), None);
    assert_eq!(encoder_button_event(ButtonState::Released), Some(DisplayFlag::EncoderButtonReleased));
    assert_eq!(rotation_event(EncoderDirection::CounterClockwise), DisplayFlag::EncoderRotatedCounterClockwise);
}
