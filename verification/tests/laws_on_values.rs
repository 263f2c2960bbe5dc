use happy_garden::display::commons::Text;
use happy_garden::screens::nav::{Nav, ScreenId};
use happy_garden::screens::router::ScreenRoute;
use happy_garden::session::{Session, User};
use happy_garden::signals::StatusFlag;
use happy_garden::system::{Color, SystemLed};

#[test]
fn opening_then_leaving_a_screen_restores_the_stack() {
    let session = Session::new();
    let mut router = ScreenRoute::new();
    let mut signal = 0u32;
    router.navigate(Nav::Push(ScreenId::Menu), &mut signal, &session, 0);
    router.navigate(Nav::Push(ScreenId::Sprinkler), &mut signal, &session, 0);
    assert_eq!(router.stack.len(), 2);
    router.navigate(Nav::Pop, &mut signal, &session, 0);
    assert_eq!(router.stack.len(), 1);
    assert_eq!(router.stack[0].id(), ScreenId::Menu);
    let mut quiet = 0x0Fu32;
    router.navigate(Nav::Stay, &mut quiet, &session, 0);
    assert_eq!(quiet, 0x0F);
}

#[test]
fn login_screen_comes_back_to_the_menu() {
    let mut session = Session::new();
    let mut user = User::new();
    user.set_email(b"local@x.io");
    session.set_user(&user);
    session.set_user_local();
    assert_eq!(session.get_user_local().get_email(), &b"local@x.io".to_vec());
    let mut router = ScreenRoute::new();
    let mut signal = 0u32;
    router.navigate(Nav::Push(ScreenId::Menu), &mut signal, &session, 0);
    router.navigate(Nav::Push(ScreenId::User), &mut signal, &session, 0);
    assert_eq!(router.stack[1].id(), ScreenId::Login);
    router.navigate(Nav::Pop, &mut signal, &session, StatusFlag::UserLogged.bits());
    assert_eq!(router.stack.len(), 1);
    assert_eq!(router.stack[0].id(), ScreenId::Menu);
}

#[test]
fn led_task_blinks_with_its_timer() {
    let mut led = SystemLed::new();
    let orange = Color { r: 255, g: 165, b: 0 };
    let off = Color { r: 0, g: 0, b: 0 };
    let mut colours = Vec::new();
    for _ in 0..10 {
        colours.push(led.turn(0x01));
    }
    assert_eq!(&colours[..5], &[orange; 5]);
    assert_eq!(&colours[5..], &[off; 5]);
    assert_eq!(led.timer, 1000);
}

#[test]
fn text_widget_rows() {
    let text = Text::new();
    let rows = text.draw(&"Login failed".chars().collect());
    assert_eq!(rows, Some(("Login failed".chars().collect(), None)));
    assert_eq!(text.draw(&"||".chars().collect()), None);
    assert_eq!(text.draw(&"|".chars().collect()), Some((Vec::new(), Some(Vec::new()))));
}
