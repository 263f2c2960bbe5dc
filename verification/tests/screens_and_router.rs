use happy_garden::config::{Auth, WifiConfig};
use happy_garden::date_time::DateTime;
use happy_garden::screens::auth::{auth_as_bytes, fill_auth_selections, selected_auth_from_selections};
use happy_garden::screens::login::{push_quoted, ScreenLogin};
use happy_garden::screens::main_screen::{select_callback, FSMState, ScreenMain, SelectionLatch};
use happy_garden::screens::menu::{MenuItem, ScreenMenu};
use happy_garden::screens::misc::ScreenInfo;
use happy_garden::screens::nav::{Answer, Effect, Frame, Nav, ScreenId};
use happy_garden::screens::router::{Screen, ScreenContext, ScreenRoute};
use happy_garden::screens::user::ScreenUser;
use happy_garden::screens::wifi::{ScreenWifi, WifiState};
use happy_garden::session::Session;
use happy_garden::sprinkler::ScheduleController;

const DRAW: u32 = 0x0080_0000;
const ENC_RELEASED: u32 = 0x08;
const BTN_RELEASED: u32 = 0x02;
const CW: u32 = 0x10;
const CCW: u32 = 0x20;
const READY: u32 = 0x80;
const USER_LOGGED: u32 = 0x0080_0000;

#[test]
fn menu_items_rotate_both_ways() {
    assert_eq!(MenuItem::Info.next(), MenuItem::DateTime);
    assert_eq!(MenuItem::Sprinkler.next(), MenuItem::Info);
    assert_eq!(MenuItem::Info.previous(), MenuItem::Sprinkler);
    assert_eq!(MenuItem::Wifi.next().previous(), MenuItem::Wifi);
    assert_eq!(MenuItem::DaylightSavingTime.label(), "Daylight Saving Time");
    assert_eq!(MenuItem::User.index(), 4);
    let mut menu = ScreenMenu::new();
    let mut signal = CCW;
    menu.update_input(&mut signal);
    assert_eq!(menu.item, MenuItem::Sprinkler);
    assert_eq!(signal, CCW | DRAW);
    assert_eq!(menu.on_answer(Answer::Confirmed), Nav::Push(ScreenId::Sprinkler));
    assert_eq!(menu.on_answer(Answer::Cancelled), Nav::Stay);
}

#[test]
fn main_screen_selects_on_confirmation() {
    assert_eq!(FSMState::from_i8(3), FSMState::Wifi);
    assert_eq!(FSMState::from_i8(9), FSMState::Info);
    assert_eq!(FSMState::User.to_i8(), 4);
    assert_eq!(FSMState::DateTime.label(), "Date Time");
    let mut screen = ScreenMain::new(FSMState::Info);
    let mut latch = SelectionLatch::new();
    let mut signal = CW;
    assert!(!screen.draw(&mut signal, &mut latch, None));
    assert_eq!(screen.fsm_state, FSMState::DateTime);
    assert_eq!(latch.pending, 1);
    let mut signal = 0u32;
    assert!(screen.draw(&mut signal, &mut latch, Some(true)));
    assert_eq!(screen.get_selected_screen(), Some(FSMState::DateTime));
    assert_eq!(latch.selected, -1);
    let mut other = SelectionLatch::new();
    other.pending = 2;
    select_callback(&mut other, false);
    assert_eq!(other.selected, -1);
    select_callback(&mut other, true);
    assert_eq!(other.selected, 2);
}

#[test]
fn auth_entries_read_back() {
    assert_eq!(auth_as_bytes(Auth::Wpa2Mixed), b"WPA2 MIXED".to_vec());
    assert_eq!(auth_as_bytes(Auth::Wpa2Wpa3), b"WPA3/WPA2".to_vec());
    let entries = fill_auth_selections(Auth::Wpa3);
    assert_eq!(entries.len(), 6);
    assert_eq!(entries[4], (b"WPA3".to_vec(), true));
    assert_eq!(entries[0], (b"OPEN".to_vec(), false));
    assert_eq!(selected_auth_from_selections(&entries), Auth::Wpa3);
    let none_selected = fill_auth_selections(Auth::Open)
        .into_iter()
        .map(|(n, _)| (n, false))
        .collect::<Vec<_>>();
    assert_eq!(selected_auth_from_selections(&none_selected), Auth::Open);
    let unknown = vec![(b"WEP".to_vec(), true)];
    assert_eq!(selected_auth_from_selections(&unknown), Auth::Open);
}

#[test]
fn login_command_quotes_its_arguments() {
    let mut raw = Vec::new();
    push_quoted(&mut raw, &b"a\"b\\c".to_vec());
    assert_eq!(raw, b"\"a\\\"b\\\\c\"".to_vec());
    let cmd = ScreenLogin::login_command(&b"me@x.io".to_vec(), &b"p,w".to_vec());
    assert_eq!(cmd, b"i,\"me@x.io\",\"p,w\"".to_vec());
}

#[test]
fn login_against_a_stored_user() {
    let mut session = Session::new();
    assert!(session.set_system_user(b"me@x.io", b"DIGEST").is_ok());
    let raw = String::from_utf8(ScreenLogin::login_command(&b"me@x.io".to_vec(), &b"p,w".to_vec())).unwrap();
    assert!(ScreenLogin::login(&mut session, &raw, Some(b"DIGEST".to_vec())));
    assert!(session.is_logged());
    let mut other = Session::new();
    assert!(other.set_system_user(b"me@x.io", b"DIGEST").is_ok());
    assert!(!ScreenLogin::login(&mut other, &raw, Some(b"WRONG".to_vec())));
    assert!(!ScreenLogin::login(&mut other, &raw, None));
    assert!(!other.is_logged());
}

#[test]
fn login_screen_steps() {
    let mut screen = ScreenLogin::new();
    let mut signal = 0u32;
    let turn = screen.draw(&mut signal, 0);
    assert_eq!(turn.title, "Login Email");
    assert_eq!(turn.nav, Nav::Stay);
    let mut signal = 0x04u32;
    screen.draw(&mut signal, 100);
    let mut signal = ENC_RELEASED;
    let turn = screen.draw(&mut signal, 700);
    assert_eq!(turn.effect, Effect::Nothing);
    assert_eq!(screen.fsm_state, happy_garden::screens::login::LoginState::EmailPasswd);
    let mut signal = 0x04u32;
    screen.draw(&mut signal, 1000);
    let mut signal = ENC_RELEASED;
    let turn = screen.draw(&mut signal, 1600);
    assert_eq!(turn.effect, Effect::Login);
    let mut session = Session::new();
    let mut signal = 0u32;
    screen.complete_login(&mut session, "i,\"a\",\"b\"", Some(b"x".to_vec()), &mut signal);
    assert!(!screen.logged);
    assert_eq!(signal, DRAW);
    let mut signal = BTN_RELEASED;
    let turn = screen.draw(&mut signal, 2000);
    match turn.frame {
        Frame::Text(t) => assert_eq!(t, b"Login failed".to_vec()),
        _ => panic!("expected the outcome text"),
    }
    assert_eq!(turn.nav, Nav::Stay);
    assert_eq!(screen.fsm_state, happy_garden::screens::login::LoginState::Email);
}

#[test]
fn wifi_screen_stores_disabled_settings() {
    let mut screen = ScreenWifi::new();
    let mut config = WifiConfig::default();
    config.set_ssid(b"home");
    config.set_enabled(true);
    // untick the box and confirm
    let mut signal = CW;
    screen.draw(&mut signal, 0, &mut config);
    let mut signal = ENC_RELEASED;
    screen.draw(&mut signal, 0, &mut config);
    assert_eq!(screen.fsm_state, WifiState::Ssid);
    assert_eq!(screen.enable.get_value(), Some(false));
    screen.fsm_state = WifiState::AuthType;
    let mut signal = 0u32;
    screen.draw(&mut signal, 0, &mut config);
    let mut signal = ENC_RELEASED;
    let turn = screen.draw(&mut signal, 0, &mut config);
    assert_eq!(turn.effect, Effect::SaveWifi);
    assert_eq!(turn.nav, Nav::Pop);
    assert!(!config.is_enabled());
    assert!(config.get_ssid().is_empty());
    assert_eq!(config.get_auth(), Auth::Open);
}

#[test]
fn info_text_depends_on_the_wifi() {
    let screen = ScreenInfo::new();
    let mut signal = 0u32;
    let turn = screen.draw(&mut signal, true, &b"192.168.1.20".to_vec());
    match turn.frame {
        Frame::Text(t) => assert_eq!(t, b"Ip Address|192.168.1.20".to_vec()),
        _ => panic!("expected a text"),
    }
    assert_eq!(turn.nav, Nav::Stay);
    let mut signal = BTN_RELEASED;
    let turn = screen.draw(&mut signal, false, &Vec::new());
    match turn.frame {
        Frame::Text(t) => assert_eq!(t, b"Wifi: Disabled".to_vec()),
        _ => panic!("expected a text"),
    }
    assert_eq!(turn.nav, Nav::Pop);
}

fn context() -> ScreenContext {
    ScreenContext {
        ticks: 0,
        now: DateTime { year: 2025, month: 6, mday: 1, wday: 0, hour: 8, minute: 0, second: 0, millis: 0 },
        dst_enabled: false,
        ip: Vec::new(),
    }
}

#[test]
fn router_stacks_the_menu_once_ready_and_guards_protected_screens() {
    let mut router = ScreenRoute::new();
    let session = Session::new();
    let mut wifi = WifiConfig::default();
    let controller = ScheduleController::new();
    let ctx = context();
    for _ in 0..4 {
        let mut signal = 0u32;
        assert!(router.draw(&mut signal, READY, &session, &ctx, &mut wifi, &controller).is_none());
    }
    assert_eq!(router.check_status_counter, 4);
    let mut signal = 0x01u32;
    let turn = router.draw(&mut signal, READY, &session, &ctx, &mut wifi, &controller).expect("the menu is stacked");
    assert_eq!(turn.nav, Nav::Stay);
    assert_eq!(router.stack.len(), 1);
    assert_eq!(router.stack[0].id(), ScreenId::Menu);
    assert_eq!(signal & 0x0F, 0);
    // the menu opens its first entry, the information screen
    let mut signal = ENC_RELEASED;
    let turn = router.draw(&mut signal, READY, &session, &ctx, &mut wifi, &controller).expect("a turn");
    assert_eq!(turn.nav, Nav::Push(ScreenId::Info));
    assert_eq!(router.stack.len(), 2);
    assert_eq!(router.stack[1].id(), ScreenId::Info);
    assert_eq!(signal, DRAW);
    // with a local user stored and nobody logged in, the wifi screen gives way to the login
    let mut guarded = Session::new();
    let mut user = happy_garden::session::User::new();
    user.set_email(b"local@x.io");
    guarded.set_user(&user);
    let mut router2 = ScreenRoute::new();
    let mut signal = 0u32;
    router2.navigate(Nav::Push(ScreenId::Wifi), &mut signal, &guarded, 0);
    assert_eq!(router2.stack[0].id(), ScreenId::Login);
    router2.navigate(Nav::Push(ScreenId::Wifi), &mut signal, &guarded, USER_LOGGED);
    assert_eq!(router2.stack[1].id(), ScreenId::Wifi);
    router2.navigate(Nav::PopTo(ScreenId::Login), &mut signal, &guarded, 0);
    assert_eq!(router2.stack.len(), 1);
    router2.navigate(Nav::Replace(ScreenId::Info), &mut signal, &guarded, 0);
    assert_eq!(router2.stack.len(), 1);
    assert_eq!(router2.stack[0].id(), ScreenId::Info);
    router2.navigate(Nav::Pop, &mut signal, &guarded, 0);
    assert!(router2.stack.is_empty());
    assert!(matches!(ScreenRoute::build(ScreenId::User), Screen::User(_)));
}

#[test]
fn screen_dispatch_menu_and_info() {
    let mut screen = Screen::Menu(ScreenMenu::new());
    let mut wifi = WifiConfig::default();
    let controller = ScheduleController::new();
    let ctx = context();
    let mut signal = CW | ENC_RELEASED;
    let turn = screen.draw(&mut signal, &ctx, &mut wifi, &controller, &Vec::new());
    match turn.frame {
        Frame::Text(t) => assert_eq!(t, b"Date Time".to_vec()),
        _ => panic!("expected a text"),
    }
    assert_eq!(turn.nav, Nav::Push(ScreenId::DateTime));
    assert_eq!(turn.effect, Effect::Nothing);
    let mut info = Screen::Info(ScreenInfo::new());
    let mut signal = 0u32;
    let turn = info.draw(&mut signal, &ctx, &mut wifi, &controller, &Vec::new());
    match turn.frame {
        Frame::Text(t) => assert_eq!(t, b"Wifi: Disabled".to_vec()),
        _ => panic!("expected a text"),
    }
    assert_eq!(turn.nav, Nav::Stay);
    assert_eq!(info.id(), ScreenId::Info);
}

#[test]
fn router_reads_the_entries_of_the_screen_on_top() {
    let session = Session::new();
    let mut router = ScreenRoute::new();
    assert_eq!(router.top_login_credentials(), None);
    assert_eq!(router.top_user_password(), None);
    let mut login = ScreenLogin::new();
    login.email.input = Some(b"me@x.io".to_vec());
    router.stack.push(Screen::Login(login));
    assert_eq!(router.top_login_credentials(), None);
    if let Screen::Login(s) = &mut router.stack[0] {
        s.email_passwd.input = Some(b"pw".to_vec());
    }
    assert_eq!(router.top_login_credentials(), Some((b"me@x.io".to_vec(), b"pw".to_vec())));
    assert_eq!(router.top_user_password(), None);
    let mut user = ScreenUser::new();
    user.email.input = Some(b"local@x.io".to_vec());
    user.passwd.input = Some(b"secret".to_vec());
    router.stack.push(Screen::User(user));
    assert_eq!(router.top_login_credentials(), None);
    assert_eq!(router.top_user_password(), Some(b"secret".to_vec()));
    let mut session2 = Session::new();
    let mut signal = 0u32;
    assert!(!router.complete_user_save(&mut session2, None, &mut signal, 0));
    assert_eq!(router.stack.len(), 2);
    assert!(router.complete_user_save(&mut session2, Some(b"digest".to_vec()), &mut signal, 0));
    assert_eq!(router.stack.len(), 1);
    assert_eq!(session2.users[1].get_email(), &b"local@x.io".to_vec());
    assert_eq!(session.users.len(), 2);
}

#[test]
fn user_screen_starts_from_the_local_email() {
    let mut screen = ScreenUser::new();
    let mut signal = 0u32;
    let turn = screen.draw(&mut signal, 0, &b"local@x.io".to_vec());
    assert_eq!(turn.nav, Nav::Stay);
    assert_eq!(screen.email.input, Some(b"local@x.io".to_vec()));
    match turn.frame {
        Frame::Input(f) => assert!(f.row.is_some()),
        _ => panic!("expected an entry"),
    }
}

#[test]
fn push_stacks_the_screen_given() {
    let session = Session::new();
    let mut router = ScreenRoute::new();
    router.push(Screen::Menu(ScreenMenu::with_item(MenuItem::Wifi)), &session, 0);
    assert_eq!(router.stack.len(), 1);
    match &router.stack[0] {
        Screen::Menu(m) => assert_eq!(m.item, MenuItem::Wifi),
        _ => panic!("expected the menu"),
    }
}

#[test]
fn going_back_keeps_the_screen_left() {
    let session = Session::new();
    let mut router = ScreenRoute::new();
    router.push(Screen::Menu(ScreenMenu::with_item(MenuItem::User)), &session, 0);
    let mut signal = 0u32;
    router.navigate(Nav::Push(ScreenId::Info), &mut signal, &session, 0);
    router.navigate(Nav::Push(ScreenId::DateTime), &mut signal, &session, 0);
    assert_eq!(router.stack.len(), 3);
    router.navigate(Nav::Pop, &mut signal, &session, 0);
    assert_eq!(router.stack.len(), 2);
    router.navigate(Nav::PopTo(ScreenId::Menu), &mut signal, &session, 0);
    assert_eq!(router.stack.len(), 1);
    match &router.stack[0] {
        Screen::Menu(m) => assert_eq!(m.item, MenuItem::User),
        _ => panic!("expected the menu"),
    }
    assert_eq!(signal & 0x0F, 0);
}
