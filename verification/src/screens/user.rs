//! The user screen: the local user's e-mail, then a new password; the
//! password is stored as its digest.
use vstd::prelude::*;
use crate::signals::EventBits;
use crate::display::input::{Input, DRAW, input_drawn, input_frame_spec};
use crate::display::commons::MAX_SIZE;
use crate::screens::nav::{Answer, Effect, Frame, Nav, ScreenId, ScreenTurn, input_answer, input_answer_spec};
use crate::session::{Session, SessionView, User, UserView, capped_copy, MAX_USERS, EMAIL_MAX, PASSWORD_MAX};
use crate::text_format::capped;

verus! {

/// The steps of the user screen.
#[derive(Clone, Copy, PartialEq, Eq, Debug, Structural)]
pub enum UserState {
    Email,
    Passwd,
}

/// The user screen.
#[derive(Debug)]
pub struct ScreenUser {
    pub fsm_state: UserState,
    pub email: Input,
    pub passwd: Input,
}

/// The session with the local user stored: the e-mail `email` and the
/// password digest `digest`, each cut to its capacity.
pub open spec fn saved_user(session: SessionView, email: Seq<u8>, digest: Seq<u8>) -> SessionView {
    SessionView {
        users: session.users.update(1, UserView {
            email: capped(email, EMAIL_MAX as nat),
            password: capped(digest, PASSWORD_MAX as nat),
        }),
        ..session
    }
}

/// What a turn of the user screen gives, from the screen and the display
/// events before the turn and after it, the tick `now` and the local user's
/// e-mail (see `ScreenUser::draw`).
pub open spec fn user_turn(before: ScreenUser, after: ScreenUser, signal: EventBits, signal_after: EventBits,
    now: u32, local_email: Seq<u8>, r: ScreenTurn) -> bool {
    match before.fsm_state {
        UserState::Email => r.frame matches Frame::Input(f) && {
            let given = Some(capped(local_email, MAX_SIZE as nat));
            let (v, s) = input_drawn(before.email.view(), signal, now, given, Some(false));
            let a = input_answer_spec(f.answer);
            &&& input_frame_spec(before.email.view(), signal, now, given, Some(false), f)
            &&& after.email.view() == v
            &&& signal_after == if a == Answer::Confirmed { s | DRAW } else { s }
            &&& r.nav == if a == Answer::Cancelled { Nav::Pop } else { Nav::Stay }
            &&& after.fsm_state == if a == Answer::Confirmed { UserState::Passwd } else { UserState::Email }
            &&& r.effect == Effect::Nothing
            &&& after.passwd == before.passwd
        },
        UserState::Passwd => r.frame matches Frame::Input(f) && {
            let given = Some(Seq::<u8>::empty());
            let (v, s) = input_drawn(before.passwd.view(), signal, now, given, Some(true));
            let a = input_answer_spec(f.answer);
            &&& input_frame_spec(before.passwd.view(), signal, now, given, Some(true), f)
            &&& after.passwd.view() == v
            &&& signal_after == if a == Answer::Cancelled { s | DRAW } else { s }
            &&& r.nav == Nav::Stay
            &&& after.fsm_state == if a == Answer::Cancelled { UserState::Email } else { UserState::Passwd }
            &&& r.effect == if a == Answer::Confirmed { Effect::SaveUser } else { Effect::Nothing }
            &&& after.email == before.email
        },
    }
}

impl ScreenUser {
    /// The entries are well formed.
    pub open spec fn wf(&self) -> bool {
        self.email.wf() && self.passwd.wf()
    }

    /// The screen on the e-mail step.
    pub fn new() -> (r: ScreenUser)
        ensures
            r.wf(),
            r.fsm_state == UserState::Email,
    {
        ScreenUser { fsm_state: UserState::Email, email: Input::new(), passwd: Input::new() }
    }

    /// The screen's identity.
    pub fn id(&self) -> (r: ScreenId)
        ensures
            r == ScreenId::User,
    {
        ScreenId::User
    }

    /// Moves to step `next` and asks for a draw.
    fn set_state(&mut self, display_signal: &mut EventBits, next: UserState)
        ensures
            final(self).fsm_state == next,
            final(self).email == old(self).email,
            final(self).passwd == old(self).passwd,
            *final(display_signal) == *old(display_signal) | DRAW,
    {
        self.fsm_state = next;
        *display_signal = *display_signal | DRAW;
    }

    /// Stores the user entered as the local user, with `digest` the digest of
    /// the password entered (`Effect::SaveUser`). Answers `false`, leaving the
    /// session as it is, when the e-mail or the password was never entered
    /// or there is no digest.
    pub fn complete_save(&self, session: &mut Session, digest: Option<Vec<u8>>) -> (r: bool)
        requires
            old(session)@.users.len() == MAX_USERS,
        ensures
            r == (self.email.input is Some && self.passwd.input is Some && digest is Some),
            r ==> final(session)@ == saved_user(old(session)@, self.email.view().text.unwrap(), digest.unwrap()@),
            !r ==> final(session)@ == old(session)@,
    {
        let email = match self.email.get_value() { Some(v) => v, None => { return false; } };
        if self.passwd.get_value().is_none() {
            return false;
        }
        let d = match digest { Some(d) => d, None => { return false; } };
        let mut user = User::new();
        user.set_email(email.as_slice());
        user.set_password(d.as_slice());
        session.set_user(&user);
        true
    }

    /// One turn of the screen at tick `now`, with the local user's e-mail:
    /// - e-mail step: the e-mail entry, starting from that e-mail; confirmed,
    ///   on to the password; left, the screen is closed;
    /// - password step: an empty entry in secret mode (the stored password is
    ///   a digest, there is nothing to show); confirmed, the user is to be
    ///   stored (`Effect::SaveUser`); left, back to the e-mail.
    pub fn draw(&mut self, display_signal: &mut EventBits, now: u32, local_email: &Vec<u8>) -> (r: ScreenTurn)
        requires
            old(self).wf(),
        ensures
            final(self).wf(),
            user_turn(*old(self), *final(self), *old(display_signal), *final(display_signal), now, local_email@, r),
    {
        match self.fsm_state {
            UserState::Email => {
                let value = capped_copy(local_email.as_slice(), MAX_SIZE);
                let f = self.email.draw(display_signal, now, &Some(value), Some(false));
                let a = input_answer(&f.answer);
                let nav = match a {
                    Answer::Pending => Nav::Stay,
                    Answer::Confirmed => {
                        self.set_state(display_signal, UserState::Passwd);
                        Nav::Stay
                    },
                    Answer::Cancelled => Nav::Pop,
                };
                ScreenTurn { title: "User Email", frame: Frame::Input(f), nav, effect: Effect::Nothing }
            },
            UserState::Passwd => {
                let f = self.passwd.draw(display_signal, now, &Some(Vec::new()), Some(true));
                let a = input_answer(&f.answer);
                let effect = match a {
                    Answer::Pending => Effect::Nothing,
                    Answer::Confirmed => Effect::SaveUser,
                    Answer::Cancelled => {
                        self.set_state(display_signal, UserState::Email);
                        Effect::Nothing
                    },
                };
                ScreenTurn { title: "User Password", frame: Frame::Input(f), nav: Nav::Stay, effect }
            },
        }
    }
}

} // verus!
