//! The date and time screen: the date editor, then the time editor;
//! confirming the time sets the clock.
use vstd::prelude::*;
use crate::signals::EventBits;
use crate::date_time::{DateTime, date_time_valid};
use crate::display::input::DRAW;
use crate::display::field_editor::{Date, Time, FieldEditor, EditorKind, change_fits};
use crate::screens::nav::{Answer, Effect, Frame, Nav, ScreenId, ScreenTurn, field_answer};

verus! {

/// The steps of the date and time screen.
#[derive(Clone, Copy, PartialEq, Eq, Debug, Structural)]
pub enum DateTimeState {
    Date,
    Time,
}

/// The answer of an editor's frame.
pub open spec fn frame_answer(f: Frame) -> Answer {
    match f {
        Frame::Field(Some(ff)) => match ff.answer {
            Some(crate::display::field_editor::FieldAnswer::Confirmed(_)) => Answer::Confirmed,
            Some(crate::display::field_editor::FieldAnswer::Cancelled(_)) => Answer::Cancelled,
            None => Answer::Pending,
        },
        _ => Answer::Pending,
    }
}

/// The clock value made of the date of `date` and the time of `time`.
pub open spec fn combined(date: DateTime, time: DateTime) -> DateTime {
    DateTime { year: date.year, month: date.month, mday: date.mday, wday: date.wday, hour: time.hour,
        minute: time.minute, second: time.second, millis: 0 }
}

/// The date and time screen.
#[derive(Debug)]
pub struct ScreenDateTime {
    pub fsm_state: DateTimeState,
    pub date: Date,
    pub time: Time,
}

/// What a turn of the date and time screen gives, from the screen before
/// the turn and after it (see `ScreenDateTime::draw`).
pub open spec fn date_time_turn(before: ScreenDateTime, after: ScreenDateTime, r: ScreenTurn) -> bool {
    let a = frame_answer(r.frame);
    match before.fsm_state {
        DateTimeState::Date => {
            &&& r.nav == if a == Answer::Cancelled { Nav::Pop } else { Nav::Stay }
            &&& after.fsm_state == if a == Answer::Confirmed { DateTimeState::Time } else { DateTimeState::Date }
            &&& r.effect == Effect::Nothing
            &&& after.time == before.time
        },
        DateTimeState::Time => {
            &&& after.date == before.date
            &&& a == Answer::Confirmed ==> after.fsm_state == DateTimeState::Time && match (after.date.0.result, after.time.0.result) {
                    (Some(d), Some(t)) => r.effect == Effect::SetClock(combined(d, t)) && r.nav == Nav::Pop,
                    _ => r.effect == Effect::Failed && r.nav == Nav::Stay,
                }
            &&& a == Answer::Cancelled ==> after.fsm_state == DateTimeState::Date && r.nav == Nav::Stay
                    && r.effect == Effect::Nothing
            &&& a == Answer::Pending ==> after.fsm_state == DateTimeState::Time && r.nav == Nav::Stay
                    && r.effect == Effect::Nothing
        },
    }
}

impl ScreenDateTime {
    /// The editors are well formed and edit what they are named after.
    pub open spec fn wf(&self) -> bool {
        &&& self.date.0.wf() && self.date.0.kind == EditorKind::Date
        &&& self.time.0.wf() && self.time.0.kind == EditorKind::Time
    }

    /// The screen on the date step.
    pub fn new() -> (r: ScreenDateTime)
        ensures
            r.wf(),
            r.fsm_state == DateTimeState::Date,
    {
        ScreenDateTime { fsm_state: DateTimeState::Date, date: Date::new(), time: Time::new() }
    }

    /// The screen's identity.
    pub fn id(&self) -> (r: ScreenId)
        ensures
            r == ScreenId::DateTime,
    {
        ScreenId::DateTime
    }

    /// Moves to step `next` and asks for a draw.
    fn set_state(&mut self, display_signal: &mut EventBits, next: DateTimeState)
        ensures
            final(self).fsm_state == next,
            final(self).date == old(self).date,
            final(self).time == old(self).time,
            *final(display_signal) == *old(display_signal) | DRAW,
    {
        self.fsm_state = next;
        *display_signal = *display_signal | DRAW;
    }

    /// Whether a turn with the event bits `signal` and the date and time
    /// `now` keeps the edited field within `i32` (see `change_fits`).
    pub open spec fn can_draw(&self, signal: EventBits, now: DateTime) -> bool {
        &&& self.fsm_state == DateTimeState::Date ==> {
            let e = self.date.0;
            let (f1, s1) = FieldEditor::opened(e.fields@, e.result, e.kind, Some(now), now, signal);
            change_fits(f1, FieldEditor::stepped(e.step, s1), s1)
        }
        &&& self.fsm_state == DateTimeState::Time ==> {
            let e = self.time.0;
            let (f1, s1) = FieldEditor::opened(e.fields@, e.result, e.kind, Some(now), now, signal);
            change_fits(f1, FieldEditor::stepped(e.step, s1), s1)
        }
    }

    /// Whether a turn can be drawn (see `can_draw`).
    pub fn can_draw_now(&self, signal: EventBits, now: &DateTime) -> (r: bool)
        requires
            self.wf(),
        ensures
            r == self.can_draw(signal, *now),
    {
        match self.fsm_state {
            DateTimeState::Date => self.date.0.fits_turn(signal, now, Some(*now)),
            DateTimeState::Time => self.time.0.fits_turn(signal, now, Some(*now)),
        }
    }

    /// The value to set the clock to: the date confirmed with the time
    /// confirmed, when both were.
    pub fn save(&self) -> (r: Option<DateTime>)
        ensures
            r == match (self.date.0.result, self.time.0.result) {
                (Some(d), Some(t)) => Some(combined(d, t)),
                _ => None,
            },
    {
        match (self.date.get_date(), self.time.get_value()) {
            (Some(d), Some(t)) => Some(DateTime {
                year: d.year, month: d.month, mday: d.mday, wday: d.wday, hour: t.hour,
                minute: t.minute, second: t.second, millis: 0,
            }),
            _ => None,
        }
    }

    /// One turn of the screen with the clock's date and time `now`:
    /// - date step: the date editor, starting from `now`; confirmed, on to the
    ///   time; left, the screen is closed;
    /// - time step: the time editor, starting from `now`; confirmed, the clock
    ///   is set to the date and time confirmed (`save`) and the screen closed;
    ///   left, back to the date.
    pub fn draw(&mut self, display_signal: &mut EventBits, now: &DateTime) -> (r: ScreenTurn)
        requires
            old(self).wf(),
            old(self).can_draw(*old(display_signal), *now),
        ensures
            final(self).wf(),
            r.frame is Field,
            date_time_turn(*old(self), *final(self), r),
    {
        match self.fsm_state {
            DateTimeState::Date => {
                let f = self.date.0.draw(display_signal, now, Some(*now));
                let a = field_answer(&f);
                let nav = match a {
                    Answer::Pending => Nav::Stay,
                    Answer::Confirmed => {
                        self.set_state(display_signal, DateTimeState::Time);
                        Nav::Stay
                    },
                    Answer::Cancelled => Nav::Pop,
                };
                ScreenTurn { title: "Set Date", frame: Frame::Field(f), nav, effect: Effect::Nothing }
            },
            DateTimeState::Time => {
                let f = self.time.0.draw(display_signal, now, Some(*now));
                let a = field_answer(&f);
                let (nav, effect) = match a {
                    Answer::Pending => (Nav::Stay, Effect::Nothing),
                    Answer::Confirmed => match self.save() {
                        Some(dt) => (Nav::Pop, Effect::SetClock(dt)),
                        None => (Nav::Stay, Effect::Failed),
                    },
                    Answer::Cancelled => {
                        self.set_state(display_signal, DateTimeState::Date);
                        (Nav::Stay, Effect::Nothing)
                    },
                };
                ScreenTurn { title: "Set Time", frame: Frame::Field(f), nav, effect }
            },
        }
    }
}

/// The clock value set from the screen takes the calendar day (year, month,
/// day of the month, day of the week) of the confirmed date and the time of
/// day (hour, minute, second) of the confirmed time, with no milliseconds;
/// it is a real instant whenever the date is one and the time of day is.
pub proof fn lemma_clock_from_date_and_time(d: DateTime, t: DateTime)
    ensures
        combined(d, t).year == d.year,
        combined(d, t).month == d.month,
        combined(d, t).mday == d.mday,
        combined(d, t).wday == d.wday,
        combined(d, t).hour == t.hour,
        combined(d, t).minute == t.minute,
        combined(d, t).second == t.second,
        combined(d, t).millis == 0,
        date_time_valid(d) && t.hour < 24 && t.minute < 60 && t.second < 60 ==> date_time_valid(combined(d, t)),
        combined(combined(d, t), t) == combined(d, t),
{
}

} // verus!
