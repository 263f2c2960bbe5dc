//! What the screens tell the router, and what the widgets tell the screens.
use vstd::prelude::*;
use crate::signals::EventBits;
use crate::date_time::DateTime;
use crate::display::input::{raised, InputAnswer, InputFrame, ENCODER_BUTTON_RELEASED, BUTTON_RELEASED};
use crate::display::check::{CheckAnswer, CheckFrame};
use crate::display::select::{SelectAnswer, SelectFrame};
use crate::display::field_editor::{FieldAnswer, FieldFrame};

verus! {

/// The screens of the display.
#[derive(Clone, Copy, PartialEq, Eq, Debug, Structural)]
pub enum ScreenId {
    SetConfig,
    Login,
    Menu,
    Info,
    DateTime,
    DaylightSavingTime,
    Wifi,
    User,
    Sprinkler,
}

/// Where a screen sends the user after a turn.
#[derive(Clone, Copy, PartialEq, Eq, Debug, Structural)]
pub enum Nav {
    /// Stay on the screen.
    Stay,
    /// Open a screen on top of this one.
    Push(ScreenId),
    /// Go back to the screen below.
    Pop,
    /// Go back down to the screen given.
    PopTo(ScreenId),
    /// Put a screen in place of this one.
    Replace(ScreenId),
}

/// What a widget answers to the screen that shows it.
#[derive(Clone, Copy, PartialEq, Eq, Debug, Structural)]
pub enum Answer {
    /// Nothing yet.
    Pending,
    /// The value shown was confirmed.
    Confirmed,
    /// The widget was left.
    Cancelled,
}

/// What a widget draws in a turn.
#[derive(Debug)]
pub enum Frame {
    Input(InputFrame),
    Check(CheckFrame),
    Select(SelectFrame),
    Field(Option<FieldFrame>),
    /// A text with at most one `|` between its two rows.
    Text(Vec<u8>),
}

/// What the task loop does on a screen's behalf after its turn.
#[derive(Clone, Copy, PartialEq, Eq, Debug, Structural)]
pub enum Effect {
    /// Nothing.
    Nothing,
    /// A value the screen needed was missing; the turn failed.
    Failed,
    /// The password was confirmed: the login is completed with the digest of
    /// the password (`ScreenLogin::complete_login`).
    Login,
    /// The user's password was confirmed: the user is stored with the digest
    /// of the password (`ScreenUser::complete_save`).
    SaveUser,
    /// The wifi settings were changed: they are applied and stored.
    SaveWifi,
    /// Daylight saving time was switched on or off: it is applied and stored.
    SaveDst(bool),
    /// The clock is to be set to this date and time.
    SetClock(DateTime),
}

/// What a screen draws in a turn, under its title, where it leads and what
/// is left to do.
#[derive(Debug)]
pub struct ScreenTurn {
    pub title: &'static str,
    pub frame: Frame,
    pub nav: Nav,
    pub effect: Effect,
}

/// The answer of a text entry: a confirmation confirms, a restore or a
/// cancellation leaves.
pub open spec fn input_answer_spec(a: InputAnswer) -> Answer {
    match a {
        InputAnswer::Pending => Answer::Pending,
        InputAnswer::Confirmed(_) => Answer::Confirmed,
        InputAnswer::Restored(_) | InputAnswer::Cancelled => Answer::Cancelled,
    }
}

/// The answer of a text entry (see `input_answer_spec`).
pub fn input_answer(a: &InputAnswer) -> (r: Answer)
    ensures
        r == input_answer_spec(*a),
{
    match a {
        InputAnswer::Pending => Answer::Pending,
        InputAnswer::Confirmed(_) => Answer::Confirmed,
        _ => Answer::Cancelled,
    }
}

/// The answer of a check box: its first answer, if any.
pub fn check_answer(answers: &Vec<CheckAnswer>) -> (r: Answer)
    ensures
        r == if answers@.len() == 0 {
            Answer::Pending
        } else if answers@[0] is Confirmed {
            Answer::Confirmed
        } else {
            Answer::Cancelled
        },
{
    if answers.len() == 0 {
        Answer::Pending
    } else {
        match answers[0] {
            CheckAnswer::Confirmed(_) => Answer::Confirmed,
            CheckAnswer::Cancelled => Answer::Cancelled,
        }
    }
}

/// The answer of a choice: its first answer, if any.
pub fn select_answer(answers: &Vec<SelectAnswer>) -> (r: Answer)
    ensures
        r == if answers@.len() == 0 {
            Answer::Pending
        } else if answers@[0] is Confirmed {
            Answer::Confirmed
        } else {
            Answer::Cancelled
        },
{
    if answers.len() == 0 {
        Answer::Pending
    } else {
        match &answers[0] {
            SelectAnswer::Confirmed(_) => Answer::Confirmed,
            SelectAnswer::Cancelled => Answer::Cancelled,
        }
    }
}

/// The answer of a date or time editor.
pub fn field_answer(frame: &Option<FieldFrame>) -> (r: Answer)
    ensures
        r == match frame {
            Some(f) => match f.answer {
                Some(FieldAnswer::Confirmed(_)) => Answer::Confirmed,
                Some(FieldAnswer::Cancelled(_)) => Answer::Cancelled,
                None => Answer::Pending,
            },
            None => Answer::Pending,
        },
{
    match frame {
        Some(f) => match f.answer {
            Some(FieldAnswer::Confirmed(_)) => Answer::Confirmed,
            Some(FieldAnswer::Cancelled(_)) => Answer::Cancelled,
            None => Answer::Pending,
        },
        None => Answer::Pending,
    }
}

/// The answer of a text: a release of the encoder button confirms, one of
/// the other button leaves.
pub fn text_answer(signal: EventBits) -> (r: Answer)
    ensures
        r == if raised(signal, ENCODER_BUTTON_RELEASED) {
            Answer::Confirmed
        } else if raised(signal, BUTTON_RELEASED) {
            Answer::Cancelled
        } else {
            Answer::Pending
        },
{
    if signal & ENCODER_BUTTON_RELEASED != 0 {
        Answer::Confirmed
    } else if signal & BUTTON_RELEASED != 0 {
        Answer::Cancelled
    } else {
        Answer::Pending
    }
}

} // verus!
