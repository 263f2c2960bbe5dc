use happy_garden::date_time::DateTime;
use happy_garden::display::check::{Check, CheckAnswer};
use happy_garden::display::commons::{scroll_text, text_rows};
use happy_garden::display::field_editor::{Date, EditorKind, FieldAnswer, FieldEditor, Step, Time};
use happy_garden::display::header::{Header, RssiStatus, WifiIcon};
use happy_garden::display::input::{Input, InputAnswer};
use happy_garden::display::number::{Number, NumberAnswer};
use happy_garden::display::select::{Select, SelectAnswer};

const DRAW: u32 = 0x0080_0000;
const BTN_PRESSED: u32 = 0x01;
const BTN_RELEASED: u32 = 0x02;
const ENC_PRESSED: u32 = 0x04;
const ENC_RELEASED: u32 = 0x08;
const CW: u32 = 0x10;
const CCW: u32 = 0x20;

fn chars(s: &str) -> Vec<char> {
    s.chars().collect()
}

#[test]
fn short_text_is_centred() {
    let mut slot = u32::MAX;
    let mut signal = 0u32;
    let (shown, x) = scroll_text(&chars("Info"), 0, &mut slot, &mut signal, 2, 128, 8, 200);
    assert_eq!(shown, chars("Info"));
    assert_eq!(x, 2 + (128 - 32) / 2);
    assert_eq!(signal, 0);
    assert_eq!(slot, u32::MAX);
}

#[test]
fn long_text_scrolls_with_four_spaces() {
    let mut slot = u32::MAX;
    let mut signal = 0u32;
    let text = chars("Daylight Saving Time");
    let (shown, x) = scroll_text(&text, 600, &mut slot, &mut signal, 2, 128, 8, 200);
    // slot 3: the window starts at the fourth character.
    assert_eq!(shown, chars("light Saving Tim"));
    assert_eq!(x, 2);
    assert_eq!(slot, 3);
    assert_eq!(signal, DRAW);
    let mut signal2 = 0u32;
    let (wrapped, _) = scroll_text(&text, 200 * 15, &mut slot, &mut signal2, 2, 128, 8, 200);
    assert_eq!(wrapped, chars(" Time    Dayligh"));
    let mut signal3 = 0u32;
    let _ = scroll_text(&text, 200 * 15 + 10, &mut slot, &mut signal3, 2, 128, 8, 200);
    assert_eq!(signal3, 0);
}

#[test]
fn text_rows_split_on_the_bar() {
    assert_eq!(text_rows(&chars("Hello")), Some((chars("Hello"), None)));
    assert_eq!(text_rows(&chars("Ip Address|1.2.3.4")), Some((chars("Ip Address"), Some(chars("1.2.3.4")))));
    assert_eq!(text_rows(&chars("a|b|c")), None);
}

#[test]
fn input_starts_with_given_text_and_edits() {
    let mut input = Input::new();
    let mut signal = 0u32;
    let frame = input.draw(&mut signal, 0, &Some(b"ab".to_vec()), None);
    assert_eq!(input.get_value(), Some(b"ab".to_vec()));
    assert_eq!(frame.cursor_x, 2 + 8);
    assert_eq!(frame.row, Some((b"ab".to_vec(), 3)));
    assert!(matches!(frame.answer, InputAnswer::Pending));
    // clockwise turn: 'b' -> 'c'
    let mut signal = CW;
    input.draw(&mut signal, 10, &None, None);
    assert_eq!(input.get_value(), Some(b"ac".to_vec()));
    assert_eq!(signal, CW | DRAW);
    // short encoder press: the cursor is on the last char, an 'a' is appended
    let mut signal = ENC_PRESSED;
    input.draw(&mut signal, 100, &None, None);
    let mut signal = ENC_RELEASED;
    let frame = input.draw(&mut signal, 150, &None, None);
    assert_eq!(input.get_value(), Some(b"aca".to_vec()));
    assert_eq!(input.idx, 2);
    assert!(matches!(frame.answer, InputAnswer::Pending));
    assert_eq!(signal, DRAW);
}

#[test]
fn input_wraps_characters() {
    let mut input = Input::new();
    let mut signal = 0u32;
    input.draw(&mut signal, 0, &Some(vec![255u8]), None);
    let mut signal = CW;
    input.update_input(&mut signal, 0);
    assert_eq!(input.get_value(), Some(vec![32u8]));
    let mut signal = CCW;
    input.update_input(&mut signal, 0);
    assert_eq!(input.get_value(), Some(vec![255u8]));
}

#[test]
fn input_long_presses_confirm_and_restore() {
    let mut input = Input::new();
    let mut signal = 0u32;
    input.draw(&mut signal, 0, &Some(b"wifi".to_vec()), Some(false));
    let mut signal = ENC_PRESSED;
    input.draw(&mut signal, 1000, &None, None);
    let mut signal = ENC_RELEASED;
    let frame = input.draw(&mut signal, 1600, &None, None);
    match frame.answer {
        InputAnswer::Confirmed(t) => assert_eq!(t, b"wifi".to_vec()),
        _ => panic!("expected a confirmation"),
    }
    assert_eq!(input.encoder_button_pressed_tick, 0);
    let mut signal = BTN_PRESSED;
    input.draw(&mut signal, 2000, &None, None);
    let mut signal = BTN_RELEASED;
    let frame = input.draw(&mut signal, 2700, &None, None);
    match frame.answer {
        InputAnswer::Restored(t) => assert_eq!(t, Some(b"wifi".to_vec())),
        _ => panic!("expected a restore"),
    }
}

#[test]
fn input_short_press_erasing_the_last_char_cancels() {
    let mut input = Input::new();
    let mut signal = 0u32;
    input.draw(&mut signal, 0, &Some(b"x".to_vec()), None);
    let mut signal = BTN_PRESSED | BTN_RELEASED;
    let frame = input.draw(&mut signal, 5, &None, None);
    assert!(matches!(frame.answer, InputAnswer::Cancelled));
    assert_eq!(input.get_value(), Some(Vec::new()));
    assert_eq!(frame.row, None);
}

#[test]
fn input_empty_start_is_seeded_and_secret_rows_are_masked() {
    let mut input = Input::new();
    let mut signal = 0u32;
    let frame = input.draw(&mut signal, 0, &None, Some(true));
    assert_eq!(input.get_value(), Some(b"a".to_vec()));
    assert_eq!(frame.row, Some((b"a".to_vec(), 3)));
    let mut long = Input::new();
    let text: Vec<u8> = b"abcdefghijklmnopq".to_vec();
    let mut signal = 0u32;
    let frame = long.draw(&mut signal, 0, &Some(text), Some(true));
    let mut expected = vec![b'<'];
    expected.extend(std::iter::repeat(b'*').take(14));
    expected.push(b'q');
    assert_eq!(frame.row, Some((expected, 0)));
}

#[test]
fn select_turns_and_confirms() {
    let mut select: Select<6> = Select::new();
    let entries: Vec<(Vec<u8>, bool)> = vec![
        (b"A".to_vec(), false),
        (b"B".to_vec(), true),
        (b"C".to_vec(), false),
        (b"D".to_vec(), false),
        (b"E".to_vec(), false),
        (b"F".to_vec(), false),
    ];
    let mut signal = 0u32;
    let frame = select.draw(&mut signal, &Some(entries.clone()));
    assert_eq!(select.index, 1);
    assert_eq!(frame.label, b"B".to_vec());
    let mut signal = CW;
    let frame = select.draw(&mut signal, &None);
    assert_eq!(select.index, 2);
    assert_eq!(frame.label, b"C".to_vec());
    let mut signal = ENC_RELEASED;
    let frame = select.draw(&mut signal, &None);
    assert_eq!(frame.answers.len(), 1);
    match &frame.answers[0] {
        SelectAnswer::Confirmed(c) => assert_eq!(c, &entries),
        _ => panic!("expected a confirmation"),
    }
    assert_eq!(signal, ENC_RELEASED | DRAW);
}

#[test]
fn select_turning_back_from_the_first_entry_lands_on_the_last() {
    let mut select: Select<6> = Select::new();
    let mut signal = 0u32;
    let frame = select.draw(&mut signal, &None);
    assert_eq!(frame.label, Vec::<u8>::new());
    let mut signal = CCW;
    select.update_select(&mut signal);
    assert_eq!(select.index, 5);
    assert_eq!(signal, CCW | DRAW);
    let both = BTN_RELEASED | ENC_RELEASED;
    let mut signal = both;
    let answers = select.answer(&mut signal);
    assert_eq!(answers.len(), 2);
    assert!(matches!(answers[1], SelectAnswer::Cancelled));
}

#[test]
fn check_flips_and_confirms() {
    let mut check = Check::new();
    let mut signal = 0u32;
    let frame = check.draw(&mut signal, Some(true));
    assert!(frame.icon_on);
    assert!(frame.answers.is_empty());
    let mut signal = CW;
    let frame = check.draw(&mut signal, Some(true));
    assert!(!frame.icon_on);
    let mut signal = ENC_RELEASED;
    let frame = check.draw(&mut signal, None);
    assert_eq!(frame.answers, vec![CheckAnswer::Confirmed(false)]);
    assert_eq!(check.get_value(), Some(false));
    assert_eq!(signal, DRAW);
    let mut signal = BTN_RELEASED;
    let frame = check.draw(&mut signal, None);
    assert_eq!(frame.answers, vec![CheckAnswer::Cancelled]);
    assert_eq!(Check::icon_x(132, 16), 58);
}

#[test]
fn number_wraps_at_its_bounds() {
    let mut number = Number::new(0, 3);
    let mut signal = CW;
    let frame = number.draw(&mut signal, None);
    assert_eq!(number.number, Some(0));
    assert_eq!(frame.text, b"0".to_vec());
    let mut signal = CCW;
    number.draw(&mut signal, None);
    assert_eq!(number.number, Some(3));
    let mut signal = CW;
    number.draw(&mut signal, None);
    assert_eq!(number.number, Some(0));
    let mut signal = ENC_RELEASED | BTN_RELEASED;
    let frame = number.draw(&mut signal, None);
    assert_eq!(frame.answers, vec![NumberAnswer::Confirmed(Some(0)), NumberAnswer::Cancelled(Some(0))]);
    assert_eq!(number.get_number(), Some(0));
    let mut negative = Number::new(-20, 20);
    let frame = negative.draw(&mut 0u32, Some(-7));
    assert_eq!(frame.text, b"-7".to_vec());
    assert_eq!(Number::value_x(132, 128, 2), 4 + 56);
}

fn date(year: i32, month: u8, mday: u8) -> DateTime {
    DateTime { year, month, mday, wday: 0, hour: 10, minute: 20, second: 30, millis: 0 }
}

#[test]
fn date_editor_edits_and_confirms() {
    let mut editor = Date::new();
    let now = date(2024, 12, 31);
    let mut signal = 0u32;
    // The value handed over fills every field: nothing asks for a draw yet.
    assert!(editor.0.draw(&mut signal, &now, Some(now)).is_none());
    let mut signal = DRAW;
    let frame = editor.0.draw(&mut signal, &now, Some(now)).expect("a draw was asked for");
    assert_eq!(frame.text, b"2024-12-31".to_vec());
    assert_eq!(frame.underline, Some((0, 32)));
    // to the month, which wraps from 12 to 1
    let mut signal = ENC_RELEASED;
    editor.0.draw(&mut signal, &now, None);
    assert_eq!(editor.0.step, Step::Field2);
    let mut signal = CW;
    let frame = editor.0.draw(&mut signal, &now, None).expect("a turn draws");
    assert_eq!(frame.text, b"2024-01-31".to_vec());
    // to the day, past the end, and confirm
    let mut signal = ENC_RELEASED;
    editor.0.draw(&mut signal, &now, None);
    let mut signal = CW;
    let frame = editor.0.draw(&mut signal, &now, None).expect("a turn draws");
    assert_eq!(frame.text, b"2024-01-01".to_vec());
    let mut signal = ENC_RELEASED;
    let frame = editor.0.draw(&mut signal, &now, None).expect("a release draws");
    assert_eq!(editor.0.step, Step::End);
    let built = DateTime { year: 2024, month: 1, mday: 1, wday: 0, hour: 0, minute: 0, second: 0, millis: 0 };
    assert_eq!(frame.answer, Some(FieldAnswer::Confirmed(Some(built))));
    assert_eq!(editor.get_date(), Some(built));
}

#[test]
fn time_editor_leaves_before_its_first_field() {
    let mut editor = Time::new();
    let now = date(2024, 5, 5);
    let mut signal = 0u32;
    let frame = editor.0.draw(&mut signal, &now, None).expect("first turn draws");
    assert_eq!(frame.text, b"10:20:30".to_vec());
    let mut signal = CCW;
    let frame = editor.0.draw(&mut signal, &now, None).expect("a turn draws");
    assert_eq!(frame.text, b"09:20:30".to_vec());
    let mut signal = BTN_RELEASED;
    let frame = editor.0.draw(&mut signal, &now, None).expect("a release draws");
    assert_eq!(editor.0.step, Step::Exit);
    assert_eq!(frame.answer, Some(FieldAnswer::Cancelled(None)));
    let mut quiet = FieldEditor::new(EditorKind::Time);
    let mut signal = 0u32;
    quiet.draw(&mut signal, &now, None);
    let mut signal = 0u32;
    assert!(quiet.draw(&mut signal, &now, None).is_none());
}

#[test]
fn header_redraws_on_minute_signal_and_login() {
    let mut header = Header::new();
    let now = date(2025, 3, 4);
    let mut signal = 0x80u32; // excellent signal
    let plan = header.draw(&mut signal, 0, &now);
    assert!(plan.admin_change.is_none());
    let redraw = plan.redraw.expect("first turn draws");
    assert_eq!(redraw.wifi_icon, Some(WifiIcon::Excellent));
    assert_eq!(redraw.clock, Some(b"2025-03-04  10:20".to_vec()));
    assert_eq!(header.rssi_status, RssiStatus::Excellent);
    assert_eq!(signal, 0x80 | DRAW);
    let mut signal = 0u32;
    let plan = header.draw(&mut signal, 0, &now);
    assert!(plan.redraw.is_none());
    assert_eq!(signal, 0);
    let mut signal = 0u32;
    let plan = header.draw(&mut signal, 0x0080_0000, &now);
    assert_eq!(plan.admin_change, Some(true));
    assert!(plan.redraw.expect("login redraws").admin);
    assert_eq!(Header::clock_x(132, 17), 42);
    assert_eq!(RssiStatus::from_bits(RssiStatus::Weak.to_bits()), Some(RssiStatus::Weak));
    assert_eq!(RssiStatus::from_bits(0), None);
}

#[test]
fn text_that_fits_needs_no_scroll_delay() {
    let mut slot = 7u32;
    let mut signal = 0u32;
    let (shown, x) = scroll_text(&chars("Info"), 600, &mut slot, &mut signal, 2, 128, 8, 0);
    assert_eq!(shown, chars("Info"));
    assert_eq!(x, 2 + (128 - 32) / 2);
    assert_eq!(slot, 7);
    assert_eq!(signal, 0);
}

#[test]
fn number_result_is_the_last_confirmed() {
    let mut n = Number::new(0, 9);
    assert_eq!(n.get_number(), None);
    let mut signal = CW;
    n.draw(&mut signal, Some(3));
    assert_eq!(n.get_number(), None);
    let mut signal = CW | ENC_RELEASED;
    n.draw(&mut signal, None);
    assert_eq!(n.get_number(), Some(5));
    let mut signal = CCW;
    n.draw(&mut signal, None);
    assert_eq!(n.number, Some(4));
    assert_eq!(n.get_number(), Some(5));
    let mut signal = ENC_RELEASED;
    n.draw(&mut signal, None);
    assert_eq!(n.get_number(), Some(4));
}
