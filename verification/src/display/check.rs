//! A check box: turning the encoder flips it, the encoder button confirms
//! its state, the other button cancels.
use vstd::prelude::*;
use crate::signals::EventBits;
use crate::display::input::{raised, DRAW, ENCODER_BUTTON_RELEASED, BUTTON_RELEASED, ROTATED_CLOCKWISE,
    ROTATED_COUNTER_CLOCKWISE};

verus! {

/// What a turn of the check box answers; both buttons may answer in one turn.
#[derive(Clone, Copy, PartialEq, Eq, Debug, Structural)]
pub enum CheckAnswer {
    /// The encoder button was released: the state shown is confirmed.
    Confirmed(bool),
    /// The check box was left.
    Cancelled,
}

/// What a turn of the check box draws and answers.
#[derive(Debug)]
pub struct CheckFrame {
    /// Whether the ticked icon is shown.
    pub icon_on: bool,
    /// The answers, in the order they are given.
    pub answers: Vec<CheckAnswer>,
}

/// The answers to the releases in `signal`, for the state shown `icon_on`.
pub open spec fn check_answers(signal: EventBits, icon_on: bool) -> Seq<CheckAnswer> {
    let first: Seq<CheckAnswer> = if raised(signal, ENCODER_BUTTON_RELEASED) {
        seq![CheckAnswer::Confirmed(icon_on)]
    } else {
        Seq::empty()
    };
    if raised(signal, BUTTON_RELEASED) { first.push(CheckAnswer::Cancelled) } else { first }
}

/// The event bits once the releases are handled: each release is consumed
/// and asks for a draw.
pub open spec fn check_consumed(signal: EventBits) -> EventBits {
    let s1 = if raised(signal, ENCODER_BUTTON_RELEASED) { (signal & !ENCODER_BUTTON_RELEASED) | DRAW } else { signal };
    if raised(s1, BUTTON_RELEASED) { (s1 & !BUTTON_RELEASED) | DRAW } else { s1 }
}

/// A check box.
#[derive(Debug)]
pub struct Check {
    /// Whether the ticked icon is shown.
    pub icon_on: bool,
    /// The state confirmed last, or handed over when shown.
    pub checked: Option<bool>,
}

impl Check {
    /// A check box that has not been shown yet: unticked.
    pub fn new() -> (r: Check)
        ensures
            !r.icon_on,
            r.checked is None,
    {
        Check { icon_on: false, checked: None }
    }

    /// Starts the check box when it is shown for the first time, ticked when
    /// the state handed over is `true`.
    pub fn open(&mut self, param: Option<bool>)
        ensures
            old(self).checked is Some ==> *final(self) == *old(self),
            old(self).checked is None ==> {
                let on = match param { Some(b) => b, None => false };
                final(self).icon_on == on && final(self).checked == Some(on)
            },
    {
        if self.checked.is_none() {
            let on = match param { Some(b) => b, None => false };
            self.icon_on = on;
            self.checked = Some(on);
        }
    }

    /// A turn of the encoder, in either direction, flips the icon and asks
    /// for a draw.
    pub fn update_icon(&mut self, signal: &mut EventBits)
        ensures
            final(self).checked == old(self).checked,
            raised(*old(signal), ROTATED_CLOCKWISE) || raised(*old(signal), ROTATED_COUNTER_CLOCKWISE) ==> {
                final(self).icon_on == !old(self).icon_on && *final(signal) == *old(signal) | DRAW
            },
            !(raised(*old(signal), ROTATED_CLOCKWISE) || raised(*old(signal), ROTATED_COUNTER_CLOCKWISE)) ==> {
                final(self).icon_on == old(self).icon_on && *final(signal) == *old(signal)
            },
    {
        if *signal & ROTATED_CLOCKWISE != 0 || *signal & ROTATED_COUNTER_CLOCKWISE != 0 {
            self.icon_on = !self.icon_on;
            *signal = *signal | DRAW;
        }
    }

    /// Answers the releases (see `check_answers`); confirming records the
    /// state shown.
    pub fn answer(&mut self, signal: &mut EventBits) -> (r: Vec<CheckAnswer>)
        ensures
            r@ == check_answers(*old(signal), old(self).icon_on),
            *final(signal) == check_consumed(*old(signal)),
            final(self).icon_on == old(self).icon_on,
            final(self).checked == if raised(*old(signal), ENCODER_BUTTON_RELEASED) {
                Some(old(self).icon_on)
            } else {
                old(self).checked
            },
    {
        let mut answers: Vec<CheckAnswer> = Vec::new();
        let start: EventBits = *signal;
        if *signal & ENCODER_BUTTON_RELEASED != 0 {
            *signal = *signal & !ENCODER_BUTTON_RELEASED;
            self.checked = Some(self.icon_on);
            answers.push(CheckAnswer::Confirmed(self.icon_on));
            *signal = *signal | DRAW;
        }
        let mid: EventBits = *signal;
        assert(raised(mid, BUTTON_RELEASED) == raised(start, BUTTON_RELEASED)) by (bit_vector)
            requires
                mid == start || mid == (start & !ENCODER_BUTTON_RELEASED) | DRAW;
        if *signal & BUTTON_RELEASED != 0 {
            *signal = *signal & !BUTTON_RELEASED;
            answers.push(CheckAnswer::Cancelled);
            *signal = *signal | DRAW;
        }
        assert(answers@ =~= check_answers(start, self.icon_on));
        answers
    }

    /// Horizontal position of an icon `icon_width` wide centred on a display
    /// `width` wide.
    pub fn icon_x(width: u8, icon_width: u8) -> (r: u8)
        requires
            icon_width / 2 <= width / 2,
        ensures
            r == width / 2 - icon_width / 2,
    {
        width / 2 - icon_width / 2
    }

    /// One turn of the check box on screen: starts it if needed (`open`),
    /// applies the turns (`update_icon`) and answers the releases (`answer`).
    pub fn draw(&mut self, signal: &mut EventBits, param: Option<bool>) -> (r: CheckFrame)
        ensures
            ({
                let on0 = if old(self).checked is Some {
                    old(self).icon_on
                } else {
                    match param { Some(b) => b, None => false }
                };
                let turned = raised(*old(signal), ROTATED_CLOCKWISE) || raised(*old(signal), ROTATED_COUNTER_CLOCKWISE);
                let on = if turned { !on0 } else { on0 };
                let s1 = if turned { *old(signal) | DRAW } else { *old(signal) };
                &&& r.icon_on == on
                &&& final(self).icon_on == on
                &&& r.answers@ == check_answers(s1, on)
                &&& *final(signal) == check_consumed(s1)
                &&& final(self).checked == if raised(s1, ENCODER_BUTTON_RELEASED) {
                        Some(on)
                    } else if old(self).checked is Some {
                        old(self).checked
                    } else {
                        Some(on0)
                    }
            }),
    {
        self.open(param);
        self.update_icon(signal);
        let answers = self.answer(signal);
        CheckFrame { icon_on: self.icon_on, answers }
    }

    /// The state confirmed last, or handed over when shown.
    pub fn get_value(&self) -> (r: Option<bool>)
        ensures
            r == self.checked,
    {
        self.checked
    }
}

} // verus!
