//! The login screen: e-mail, then password, then the outcome. A successful
//! login goes back to where the user was; a failed one starts again.
use vstd::prelude::*;
use crate::signals::EventBits;
use crate::date_time::DateTime;
use crate::display::input::{Input, DRAW, blank_input};
use crate::screens::nav::{Answer, Effect, Frame, Nav, ScreenId, ScreenTurn, input_answer, input_answer_spec, text_answer};
use crate::session::{Session, SessionView, UserView, same_credentials, session_command_spec, EMAIL_MAX, PASSWORD_MAX};
use crate::command_args::at_argument;
use crate::text_format::capped;

verus! {

/// The steps of the login.
#[derive(Clone, Copy, PartialEq, Eq, Debug, Structural)]
pub enum LoginState {
    Email,
    EmailPasswd,
    Status,
}

/// `s` with a `\` before each `"` and each `\`.
pub open spec fn escaped(s: Seq<u8>) -> Seq<u8>
    decreases s.len(),
{
    if s.len() == 0 {
        Seq::empty()
    } else {
        let c = s.last();
        escaped(s.drop_last()) + if c == 34u8 || c == 92u8 { seq![92u8, c] } else { seq![c] }
    }
}

/// `s` between quotes, escaped so that commas and quotes typed by the user
/// do not split the arguments.
pub open spec fn quoted(s: Seq<u8>) -> Seq<u8> {
    seq![34u8] + escaped(s) + seq![34u8]
}

/// The arguments of the login command: `i,"<email>","<password>"`.
pub open spec fn login_command_spec(email: Seq<u8>, password: Seq<u8>) -> Seq<u8> {
    seq![105u8, 44u8] + quoted(email) + seq![44u8] + quoted(password)
}

/// Whether the session accepts the login command `raw` with the password
/// digest `digest`: the command must decode; a login needs the digest and
/// succeeds when the staged credentials are empty (the session is closed)
/// or match a stored user; a logout always succeeds.
pub open spec fn login_accepted(v: SessionView, raw: Seq<char>, digest: Option<Seq<u8>>) -> bool {
    let args = Seq::new(3, |i: int| at_argument(raw, i as usize));
    match session_command_spec(args) {
        Some((true, e, _)) => match digest {
            Some(d) => {
                let staged = UserView { email: capped(e, EMAIL_MAX as nat), password: capped(d, PASSWORD_MAX as nat) };
                staged.email.len() == 0 || staged.password.len() == 0
                    || exists|i: int| 0 <= i < v.users.len() && same_credentials(#[trigger] v.users[i], staged)
            },
            None => false,
        },
        Some((false, _, _)) => true,
        None => false,
    }
}

/// Appends `s` quoted (see `quoted`).
pub fn push_quoted(raw: &mut Vec<u8>, s: &Vec<u8>)
    ensures
        final(raw)@ == old(raw)@ + quoted(s@),
{
    raw.push(34u8);
    let ghost start = raw@;
    let mut i: usize = 0;
    while i < s.len()
        invariant
            0 <= i <= s@.len(),
            raw@ == start + escaped(s@.take(i as int)),
        decreases s.len() - i,
    {
        let c = s[i];
        if c == 34u8 || c == 92u8 {
            raw.push(92u8);
        }
        raw.push(c);
        proof {
            let t = s@.take(i + 1);
            assert(t.drop_last() =~= s@.take(i as int));
            assert(t.last() == c);
        }
        i = i + 1;
        assert(raw@ =~= start + escaped(s@.take(i as int)));
    }
    assert(s@.take(i as int) =~= s@);
    raw.push(34u8);
    assert(raw@ =~= old(raw)@ + quoted(s@));
}

/// The login screen.
#[derive(Debug)]
pub struct ScreenLogin {
    pub fsm_state: LoginState,
    /// Whether the last login succeeded.
    pub logged: bool,
    pub email: Input,
    pub email_passwd: Input,
}

/// What a turn of the login screen gives, from the screen before the turn
/// and after it and the display events of the turn (see `ScreenLogin::draw`).
pub open spec fn login_turn(before: ScreenLogin, after: ScreenLogin, signal: EventBits, r: ScreenTurn) -> bool {
    match before.fsm_state {
        LoginState::Email => r.frame matches Frame::Input(f) && {
            let a = input_answer_spec(f.answer);
            &&& r.nav == if a == Answer::Cancelled { Nav::Pop } else { Nav::Stay }
            &&& after.fsm_state == if a == Answer::Confirmed { LoginState::EmailPasswd } else { LoginState::Email }
            &&& r.effect == Effect::Nothing
            &&& after.email_passwd == before.email_passwd
        },
        LoginState::EmailPasswd => r.frame matches Frame::Input(f) && {
            let a = input_answer_spec(f.answer);
            &&& r.nav == Nav::Stay
            &&& after.fsm_state == if a == Answer::Cancelled { LoginState::Email } else { LoginState::EmailPasswd }
            &&& r.effect == if a == Answer::Confirmed { Effect::Login } else { Effect::Nothing }
            &&& after.email == before.email
        },
        LoginState::Status => r.frame matches Frame::Text(t) && {
            let a = text_answer_spec(signal);
            &&& t@ == if before.logged { "Login successful"@.map_values(|c: char| c as u8) } else { "Login failed"@.map_values(|c: char| c as u8) }
            &&& r.nav == if a != Answer::Pending && before.logged { Nav::Pop } else { Nav::Stay }
            &&& after.fsm_state == if a != Answer::Pending && !before.logged { LoginState::Email } else { LoginState::Status }
            &&& after.email == before.email
            &&& after.email_passwd == before.email_passwd
            &&& r.effect == Effect::Nothing
        },
    }
}

impl ScreenLogin {
    /// Both entries are well formed.
    pub open spec fn wf(&self) -> bool {
        self.email.wf() && self.email_passwd.wf()
    }

    /// The screen on the e-mail step.
    pub fn new() -> (r: ScreenLogin)
        ensures
            r.wf(),
            r.fsm_state == LoginState::Email,
            !r.logged,
            r.email.view() == blank_input(),
            r.email_passwd.view() == blank_input(),
    {
        ScreenLogin {
            fsm_state: LoginState::Email,
            logged: false,
            email: Input::new(),
            email_passwd: Input::new(),
        }
    }

    /// The screen's identity.
    pub fn id(&self) -> (r: ScreenId)
        ensures
            r == ScreenId::Login,
    {
        ScreenId::Login
    }

    /// Whether the screen is shown only to a logged-in user: it is not.
    pub fn requires_auth(&self) -> (r: bool)
        ensures
            !r,
    {
        false
    }

    /// Moves to step `next` and asks for a draw.
    fn set_state(&mut self, display_signal: &mut EventBits, next: LoginState)
        ensures
            final(self).fsm_state == next,
            final(self).logged == old(self).logged,
            final(self).email == old(self).email,
            final(self).email_passwd == old(self).email_passwd,
            *final(display_signal) == *old(display_signal) | DRAW,
    {
        self.fsm_state = next;
        *display_signal = *display_signal | DRAW;
    }

    /// The arguments of the login command for the e-mail and password typed
    /// (see `login_command_spec`).
    pub fn login_command(email: &Vec<u8>, password: &Vec<u8>) -> (r: Vec<u8>)
        ensures
            r@ == login_command_spec(email@, password@),
    {
        let mut raw: Vec<u8> = vec![105u8, 44u8];
        push_quoted(&mut raw, email);
        raw.push(44u8);
        push_quoted(&mut raw, password);
        assert(raw@ =~= login_command_spec(email@, password@));
        raw
    }

    /// Hands the login command `raw` to the session (`Session::set`, then
    /// `Session::exec`), with `digest` the digest of the password typed;
    /// answers whether both succeeded (see `login_accepted`).
    pub fn login(session: &mut Session, raw: &str, digest: Option<Vec<u8>>) -> (r: bool)
        ensures
            r == login_accepted(old(session)@, raw@, match digest { Some(d) => Some(d@), None => None }),
    {
        match session.set(raw, digest) {
            Ok(()) => session.exec().is_ok(),
            Err(_) => false,
        }
    }

    /// Completes a login requested by `draw` (`Effect::Login`): records the
    /// outcome and moves to the outcome step.
    pub fn complete_login(&mut self, session: &mut Session, raw: &str, digest: Option<Vec<u8>>, display_signal: &mut EventBits)
        ensures
            final(self).logged == login_accepted(old(session)@, raw@, match digest { Some(d) => Some(d@), None => None }),
            final(self).fsm_state == LoginState::Status,
            final(self).email == old(self).email,
            final(self).email_passwd == old(self).email_passwd,
            *final(display_signal) == *old(display_signal) | DRAW,
    {
        self.logged = ScreenLogin::login(session, raw, digest);
        self.set_state(display_signal, LoginState::Status);
    }

    /// One turn of the screen at tick `now`:
    /// - e-mail step: the e-mail entry; confirmed, it moves to the password
    ///   step; left, the screen is closed;
    /// - password step: the password entry; confirmed, a login is requested
    ///   (`Effect::Login`); left, back to the e-mail step;
    /// - outcome step: the outcome text; any button closes the screen after a
    ///   success and starts again from the e-mail step after a failure.
    pub fn draw(&mut self, display_signal: &mut EventBits, now: u32) -> (r: ScreenTurn)
        requires
            old(self).wf(),
        ensures
            final(self).wf(),
            final(self).logged == old(self).logged,
            login_turn(*old(self), *final(self), *old(display_signal), r),
    {
        match self.fsm_state {
            LoginState::Email => {
                let f = self.email.draw(display_signal, now, &None, None);
                let a = input_answer(&f.answer);
                let nav = match a {
                    Answer::Pending => Nav::Stay,
                    Answer::Confirmed => {
                        self.set_state(display_signal, LoginState::EmailPasswd);
                        Nav::Stay
                    },
                    Answer::Cancelled => Nav::Pop,
                };
                ScreenTurn { title: "Login Email", frame: Frame::Input(f), nav, effect: Effect::Nothing }
            },
            LoginState::EmailPasswd => {
                let f = self.email_passwd.draw(display_signal, now, &None, None);
                let a = input_answer(&f.answer);
                let effect = match a {
                    Answer::Pending => Effect::Nothing,
                    Answer::Confirmed => Effect::Login,
                    Answer::Cancelled => {
                        self.set_state(display_signal, LoginState::Email);
                        Effect::Nothing
                    },
                };
                ScreenTurn { title: "Login Password", frame: Frame::Input(f), nav: Nav::Stay, effect }
            },
            LoginState::Status => {
                let text = if self.logged { status_text(true) } else { status_text(false) };
                let a = text_answer(*display_signal);
                let nav = match a {
                    Answer::Pending => Nav::Stay,
                    _ => {
                        if self.logged {
                            Nav::Pop
                        } else {
                            self.set_state(display_signal, LoginState::Email);
                            Nav::Stay
                        }
                    },
                };
                ScreenTurn { title: "", frame: Frame::Text(text), nav, effect: Effect::Nothing }
            },
        }
    }
}

/// The answer of a text (see `text_answer`).
pub open spec fn text_answer_spec(signal: EventBits) -> Answer {
    if signal & crate::display::input::ENCODER_BUTTON_RELEASED != 0 {
        Answer::Confirmed
    } else if signal & crate::display::input::BUTTON_RELEASED != 0 {
        Answer::Cancelled
    } else {
        Answer::Pending
    }
}

/// The outcome text of a login.
fn status_text(logged: bool) -> (r: Vec<u8>)
    ensures
        r@ == if logged { "Login successful"@.map_values(|c: char| c as u8) } else { "Login failed"@.map_values(|c: char| c as u8) },
{
    let text = if logged { "Login successful" } else { "Login failed" };
    crate::text_format::ascii_bytes(text)
}

} // verus!
