use happy_garden::command_args::{bytes_eq, command_args4, parse_unsigned};
use happy_garden::command_line::{admission, frame_reply, Admission, LineBuffer, LINE_BUFFER_SIZE};
use happy_garden::session::{Session, SessionCommand, SessionOutcome};
use happy_garden::signals::{Source, StatusFlag};
use happy_garden::sprinkler::CommandError;
use happy_garden::system::{SystemAction, SystemHandler};

#[test]
fn arguments_are_split_outside_quotes() {
    let args = command_args4("1,\"a,b\",c");
    assert_eq!(args[0], Some(b"1".to_vec()));
    assert_eq!(args[1], Some(b"a,b".to_vec()));
    assert_eq!(args[2], Some(b"c".to_vec()));
    assert_eq!(args[3], None);
    assert_eq!(command_args4("1")[1], None);
    match Session::parse_command("i,\"me@x.io\",\"p,w\"") {
        Some(SessionCommand::Login { email, password }) => {
            assert_eq!(email, b"me@x.io".to_vec());
            assert_eq!(password, b"p,w".to_vec());
        }
        _ => panic!("expected a login"),
    }
    assert!(matches!(Session::parse_command("o"), Some(SessionCommand::Logout)));
    assert!(Session::parse_command("x,1,2").is_none());
    assert!(Session::parse_command("i,only").is_none());
}

#[test]
fn unsigned_numbers_parse_like_str_parse() {
    assert_eq!(parse_unsigned(&b"42".to_vec(), 255), Some(42));
    assert_eq!(parse_unsigned(&b"+7".to_vec(), 255), Some(7));
    assert_eq!(parse_unsigned(&b"256".to_vec(), 255), None);
    assert_eq!(parse_unsigned(&b"".to_vec(), 255), None);
    assert_eq!(parse_unsigned(&b"+".to_vec(), 255), None);
    assert_eq!(parse_unsigned(&b"1a".to_vec(), 255), None);
    assert!(bytes_eq(&b"ab".to_vec(), &b"ab".to_vec()));
    assert!(!bytes_eq(&b"ab".to_vec(), &b"abc".to_vec()));
}

#[test]
fn line_buffer_cuts_lines_and_drops_overflow() {
    let mut buffer = LineBuffer::new();
    for b in b"AT+SESS?\r" {
        assert_eq!(buffer.push_byte(*b), None);
    }
    assert_eq!(buffer.push_byte(b'\n'), Some(b"AT+SESS?".to_vec()));
    assert!(buffer.bytes.is_empty());
    for _ in 0..LINE_BUFFER_SIZE - 1 {
        assert_eq!(buffer.push_byte(b'x'), None);
    }
    assert_eq!(buffer.bytes.len(), LINE_BUFFER_SIZE - 1);
    assert_eq!(buffer.push_byte(b'x'), None);
    assert!(buffer.bytes.is_empty());
}

#[test]
fn lines_are_admitted_by_source_and_login() {
    let uart = StatusFlag::UartCmd.bits();
    let logged = StatusFlag::UserLogged.bits();
    assert_eq!(admission(Source::Mqtt, 0), Admission::Drop);
    assert_eq!(admission(Source::Uart, 0), Admission::Run { raised: Some(uart), restart_timer: false });
    assert_eq!(admission(Source::Uart, logged), Admission::Refuse);
    assert_eq!(admission(Source::Uart, logged | uart), Admission::Run { raised: None, restart_timer: true });
}

#[test]
fn replies_are_framed() {
    assert_eq!(frame_reply(&None), b"KO\r\n".to_vec());
    assert_eq!(frame_reply(&Some((b"+SESS: ".to_vec(), Vec::new()))), b"OK\r\n".to_vec());
    assert_eq!(
        frame_reply(&Some((b"+SESS: ".to_vec(), b"me@x.io".to_vec()))),
        b"+SESS: me@x.io\r\nOK\r\n".to_vec()
    );
}

#[test]
fn session_login_logout_and_errors() {
    let mut session = Session::new();
    assert_eq!(session.query(), Err(CommandError::InvalidArgs));
    assert_eq!(session.set_system_user(b"", b"x"), Err(CommandError::Empty));
    assert_eq!(session.set_system_user(b"me@x.io", b""), Err(CommandError::Empty));
    assert!(session.set_system_user(b"me@x.io", b"D").is_ok());
    assert_eq!(session.set("i,\"me@x.io\",\"pw\"", None), Err(CommandError::InvalidArgs));
    assert_eq!(session.set("i,\"me@x.io\",\"pw\"", Some(b"D".to_vec())), Ok(()));
    match session.exec() {
        Ok((SessionOutcome::LoggedIn, email)) => assert_eq!(email, b"me@x.io".to_vec()),
        _ => panic!("expected a login"),
    }
    assert_eq!(session.status & StatusFlag::UserLogged.bits(), StatusFlag::UserLogged.bits());
    assert_eq!(session.query(), Ok(b"me@x.io".to_vec()));
    assert_eq!(session.set("o", None), Ok(()));
    match session.exec() {
        Ok((SessionOutcome::LoggedOut, text)) => assert!(text.is_empty()),
        _ => panic!("expected a logout"),
    }
    assert!(!session.is_logged());
    assert_eq!(session.status & StatusFlag::UserLogged.bits(), 0);
    assert_eq!(session.set("z", None), Err(CommandError::InvalidArgs));
}

#[test]
fn system_command_needs_login() {
    let handler = SystemHandler::get();
    let logged = StatusFlag::UserLogged.bits();
    assert_eq!(handler.set("rs", 0), Err(CommandError::NotLogged));
    assert_eq!(handler.set("rs", logged), Ok(SystemAction::Reset));
    assert_eq!(handler.set("fr", logged), Ok(SystemAction::FactoryReset));
    assert_eq!(handler.set("hwe", logged), Err(CommandError::InvalidArgs));
    assert_eq!(handler.query(1, 2, 0x80), b"1,2,128".to_vec());
    assert_eq!(handler.test(), "<rs|fr|hwe|e|s>");
    assert_eq!(CommandError::NotLogged.message(), "Not logged");
}
