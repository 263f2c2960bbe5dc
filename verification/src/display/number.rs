//! Choice of a whole number between two bounds with the encoder: turning it
//! counts up or down, wrapping at the bounds; the encoder button confirms,
//! the other button leaves.
use vstd::prelude::*;
use crate::signals::EventBits;
use crate::display::input::{raised, DRAW, ENCODER_BUTTON_RELEASED, BUTTON_RELEASED, ROTATED_CLOCKWISE,
    ROTATED_COUNTER_CLOCKWISE};
use crate::text_format::{padded_decimal, push_padded};

verus! {

/// What a turn of the number answers; both buttons may answer in one turn.
#[derive(Clone, Copy, PartialEq, Eq, Debug, Structural)]
pub enum NumberAnswer {
    /// The encoder button was released: the number shown, if any.
    Confirmed(Option<i32>),
    /// The other button was released: the number shown, if any.
    Cancelled(Option<i32>),
}

/// What a turn of the number draws and answers.
#[derive(Debug)]
pub struct NumberFrame {
    /// The text of the number shown.
    pub text: Vec<u8>,
    /// The answers, in the order they are given.
    pub answers: Vec<NumberAnswer>,
}

/// The number after a turn of the encoder: one more (back to `min` past
/// `max`) or one less (back to `max` below `min`); a turn from no number
/// gives `min` or `max`.
pub open spec fn turned_number(number: Option<i32>, min: i32, max: i32, clockwise: bool) -> Option<i32> {
    match number {
        Some(c) => if clockwise {
            Some(if c + 1 > max { min } else { (c + 1) as i32 })
        } else {
            Some(if c - 1 < min { max } else { (c - 1) as i32 })
        },
        None => Some(if clockwise { min } else { max }),
    }
}

/// The number shown after one turn of `Number::draw` from `number`, with the
/// events `signal` and the number `param` handed over: the number handed
/// over when there was none yet, then turned (see `turned_number`).
pub open spec fn number_step(number: Option<i32>, min: i32, max: i32, signal: EventBits, param: Option<i32>) -> Option<i32> {
    let n0 = if number is Some { number } else { param };
    if raised(signal, ROTATED_CLOCKWISE) {
        turned_number(n0, min, max, true)
    } else if raised(signal, ROTATED_COUNTER_CLOCKWISE) {
        turned_number(n0, min, max, false)
    } else {
        n0
    }
}

/// The number shown after a run of turns, each given by its events and the
/// number handed over.
pub open spec fn numbers_after(number: Option<i32>, min: i32, max: i32, turns: Seq<(EventBits, Option<i32>)>) -> Option<i32>
    decreases turns.len(),
{
    if turns.len() == 0 {
        number
    } else {
        number_step(numbers_after(number, min, max, turns.drop_last()), min, max, turns.last().0, turns.last().1)
    }
}

/// The result (`get_number`) after a run of turns: a turn whose events
/// release the encoder button records the number it shows.
pub open spec fn confirmed_after(number: Option<i32>, result: Option<i32>, min: i32, max: i32,
    turns: Seq<(EventBits, Option<i32>)>) -> Option<i32>
    decreases turns.len(),
{
    if turns.len() == 0 {
        result
    } else if raised(turns.last().0, ENCODER_BUTTON_RELEASED) {
        numbers_after(number, min, max, turns)
    } else {
        confirmed_after(number, result, min, max, turns.drop_last())
    }
}

/// The answers to the releases in `signal`.
pub open spec fn number_answers(signal: EventBits, number: Option<i32>) -> Seq<NumberAnswer> {
    let first: Seq<NumberAnswer> = if raised(signal, ENCODER_BUTTON_RELEASED) {
        seq![NumberAnswer::Confirmed(number)]
    } else {
        Seq::empty()
    };
    if raised(signal, BUTTON_RELEASED) { first.push(NumberAnswer::Cancelled(number)) } else { first }
}

/// A number between `min` and `max`.
#[derive(Debug)]
pub struct Number {
    pub number: Option<i32>,
    pub min: i32,
    pub max: i32,
    pub result: Option<i32>,
}

impl Number {
    /// A number between `min` and `max` that has not been shown yet.
    pub fn new(min: i32, max: i32) -> (r: Number)
        ensures
            r.number is None,
            r.min == min,
            r.max == max,
            r.result is None,
    {
        Number { number: None, min, max, result: None }
    }

    /// Starts the number when it is shown for the first time with the number
    /// handed over.
    pub fn open(&mut self, param: Option<i32>)
        ensures
            final(self).number == if old(self).number is Some { old(self).number } else { param },
            final(self).min == old(self).min,
            final(self).max == old(self).max,
            final(self).result == old(self).result,
    {
        if self.number.is_none() {
            self.number = param;
        }
    }

    /// A turn of the encoder (see `turned_number`) asks for a draw.
    pub fn update_number(&mut self, signal: &mut EventBits)
        requires
            raised(*old(signal), ROTATED_CLOCKWISE) ==> (old(self).number matches Some(c) ==> c < i32::MAX),
            !raised(*old(signal), ROTATED_CLOCKWISE) && raised(*old(signal), ROTATED_COUNTER_CLOCKWISE)
                ==> (old(self).number matches Some(c) ==> c > i32::MIN),
        ensures
            final(self).min == old(self).min,
            final(self).max == old(self).max,
            final(self).result == old(self).result,
            raised(*old(signal), ROTATED_CLOCKWISE) ==> {
                &&& final(self).number == turned_number(old(self).number, old(self).min, old(self).max, true)
                &&& *final(signal) == *old(signal) | DRAW
            },
            !raised(*old(signal), ROTATED_CLOCKWISE) && raised(*old(signal), ROTATED_COUNTER_CLOCKWISE) ==> {
                &&& final(self).number == turned_number(old(self).number, old(self).min, old(self).max, false)
                &&& *final(signal) == *old(signal) | DRAW
            },
            !raised(*old(signal), ROTATED_CLOCKWISE) && !raised(*old(signal), ROTATED_COUNTER_CLOCKWISE) ==> {
                &&& final(self).number == old(self).number
                &&& *final(signal) == *old(signal)
            },
    {
        if *signal & ROTATED_CLOCKWISE != 0 {
            self.number = match self.number {
                Some(c) => {
                    let n = c + 1;
                    Some(if n > self.max { self.min } else { n })
                },
                None => Some(self.min),
            };
            *signal = *signal | DRAW;
        } else if *signal & ROTATED_COUNTER_CLOCKWISE != 0 {
            self.number = match self.number {
                Some(c) => {
                    let n = c - 1;
                    Some(if n < self.min { self.max } else { n })
                },
                None => Some(self.max),
            };
            *signal = *signal | DRAW;
        }
    }

    /// The text shown: the number in decimal, or `min` when there is none.
    pub fn text(&self) -> (r: Vec<u8>)
        ensures
            r@ == padded_decimal(match self.number { Some(n) => n as int, None => self.min as int }, 0),
    {
        let v: i32 = match self.number { Some(n) => n, None => self.min };
        let mut out: Vec<u8> = Vec::new();
        push_padded(&mut out, v as i64, 0);
        out
    }

    /// Horizontal position of a value of `len` glyphs centred in the visible
    /// area of a display `width` wide.
    pub fn value_x(width: u8, visible_width: u8, len: usize) -> (r: u8)
        requires
            visible_width <= width,
            len * 8 <= visible_width,
        ensures
            r == width - visible_width + (visible_width - len * 8) / 2,
    {
        let w: u8 = (len as u8) * 8;
        width - visible_width + (visible_width - w) / 2
    }

    /// Answers the releases (see `number_answers`): the encoder button records
    /// the number shown as the result. The bits are left as they are.
    pub fn answer(&mut self, signal: EventBits) -> (r: Vec<NumberAnswer>)
        ensures
            r@ == number_answers(signal, old(self).number),
            final(self).number == old(self).number,
            final(self).min == old(self).min,
            final(self).max == old(self).max,
            final(self).result == if raised(signal, ENCODER_BUTTON_RELEASED) { old(self).number } else { old(self).result },
    {
        let mut answers: Vec<NumberAnswer> = Vec::new();
        if signal & ENCODER_BUTTON_RELEASED != 0 {
            self.result = self.number;
            answers.push(NumberAnswer::Confirmed(self.result));
        }
        if signal & BUTTON_RELEASED != 0 {
            answers.push(NumberAnswer::Cancelled(self.number));
        }
        assert(answers@ =~= number_answers(signal, self.number));
        answers
    }

    /// One turn of the number on screen: starts it if needed (`open`),
    /// applies the turns (`update_number`), gives the text to show and
    /// answers the releases (`answer`).
    pub fn draw(&mut self, signal: &mut EventBits, param: Option<i32>) -> (r: NumberFrame)
        requires
            ({
                let n0 = if old(self).number is Some { old(self).number } else { param };
                &&& raised(*old(signal), ROTATED_CLOCKWISE) ==> (n0 matches Some(c) ==> c < i32::MAX)
                &&& !raised(*old(signal), ROTATED_CLOCKWISE) && raised(*old(signal), ROTATED_COUNTER_CLOCKWISE)
                        ==> (n0 matches Some(c) ==> c > i32::MIN)
            }),
        ensures
            ({
                let n0 = if old(self).number is Some { old(self).number } else { param };
                let cw = raised(*old(signal), ROTATED_CLOCKWISE);
                let ccw = raised(*old(signal), ROTATED_COUNTER_CLOCKWISE);
                let n = if cw {
                    turned_number(n0, old(self).min, old(self).max, true)
                } else if ccw {
                    turned_number(n0, old(self).min, old(self).max, false)
                } else {
                    n0
                };
                let s1 = if cw || ccw { *old(signal) | DRAW } else { *old(signal) };
                &&& final(self).number == n
                &&& *final(signal) == s1
                &&& r.text@ == padded_decimal(match n { Some(v) => v as int, None => old(self).min as int }, 0)
                &&& r.answers@ == number_answers(s1, n)
                &&& final(self).result == if raised(s1, ENCODER_BUTTON_RELEASED) { n } else { old(self).result }
            }),
            final(self).min == old(self).min,
            final(self).max == old(self).max,
            final(self).number == number_step(old(self).number, old(self).min, old(self).max, *old(signal), param),
            final(self).result == if raised(*old(signal), ENCODER_BUTTON_RELEASED) {
                final(self).number
            } else {
                old(self).result
            },
    {
        let ghost s0 = *signal;
        self.open(param);
        self.update_number(signal);
        assert(raised(*signal, ENCODER_BUTTON_RELEASED) == raised(s0, ENCODER_BUTTON_RELEASED)) by {
            assert((s0 | 0x0080_0000u32) & 0x08u32 == s0 & 0x08u32) by (bit_vector);
        }
        let text = self.text();
        let answers = self.answer(*signal);
        NumberFrame { text, answers }
    }

    /// The number confirmed last.
    pub fn get_number(&self) -> (r: Option<i32>)
        ensures
            r == self.result,
    {
        self.result
    }
}

/// Turning the encoder keeps a number between its bounds.
pub proof fn lemma_turn_stays_in_bounds(number: Option<i32>, min: i32, max: i32, clockwise: bool)
    requires
        min <= max,
        number matches Some(c) ==> min <= c <= max,
    ensures
        turned_number(number, min, max, clockwise) matches Some(n) && min <= n <= max,
{
}

/// With no turn releasing the encoder button, the result stays.
proof fn lemma_none_confirmed(number: Option<i32>, result: Option<i32>, min: i32, max: i32,
    turns: Seq<(EventBits, Option<i32>)>)
    requires
        forall|i: int| 0 <= i < turns.len() ==> !raised(#[trigger] turns[i].0, ENCODER_BUTTON_RELEASED),
    ensures
        confirmed_after(number, result, min, max, turns) == result,
    decreases turns.len(),
{
    if turns.len() > 0 {
        let rest = turns.drop_last();
        assert(!raised(turns[turns.len() - 1].0, ENCODER_BUTTON_RELEASED));
        assert forall|i: int| 0 <= i < rest.len() implies !raised(#[trigger] rest[i].0, ENCODER_BUTTON_RELEASED) by {
            assert(rest[i] == turns[i]);
        }
        lemma_none_confirmed(number, result, min, max, rest);
    }
}

/// When turn `i` is the last to release the encoder button, the result is
/// the number shown at that turn.
proof fn lemma_last_confirmed_at(number: Option<i32>, result: Option<i32>, min: i32, max: i32,
    turns: Seq<(EventBits, Option<i32>)>, i: int)
    requires
        0 <= i < turns.len(),
        raised(turns[i].0, ENCODER_BUTTON_RELEASED),
        forall|j: int| i < j < turns.len() ==> !raised(#[trigger] turns[j].0, ENCODER_BUTTON_RELEASED),
    ensures
        confirmed_after(number, result, min, max, turns) == numbers_after(number, min, max, turns.take(i + 1)),
    decreases turns.len(),
{
    let n = turns.len() - 1;
    if i == n {
        assert(turns.take(i + 1) =~= turns);
    } else {
        let rest = turns.drop_last();
        assert(!raised(turns[n].0, ENCODER_BUTTON_RELEASED));
        assert(rest[i] == turns[i]);
        assert forall|j: int| i < j < rest.len() implies !raised(#[trigger] rest[j].0, ENCODER_BUTTON_RELEASED) by {
            assert(rest[j] == turns[j]);
        }
        lemma_last_confirmed_at(number, result, min, max, rest, i);
        assert(rest.take(i + 1) =~= turns.take(i + 1));
    }
}

/// Over a run of turns, the number confirmed last is the one shown at the
/// last turn that released the encoder button; when no turn did, it is the
/// result held before the run (none for a number just made by `new`).
pub proof fn lemma_result_is_last_confirmed(number: Option<i32>, result: Option<i32>, min: i32, max: i32,
    turns: Seq<(EventBits, Option<i32>)>)
    ensures
        (forall|i: int| 0 <= i < turns.len() ==> !raised(#[trigger] turns[i].0, ENCODER_BUTTON_RELEASED))
            ==> confirmed_after(number, result, min, max, turns) == result,
        forall|i: int| 0 <= i < turns.len() && raised(#[trigger] turns[i].0, ENCODER_BUTTON_RELEASED)
            && (forall|j: int| i < j < turns.len() ==> !raised(#[trigger] turns[j].0, ENCODER_BUTTON_RELEASED))
            ==> confirmed_after(number, result, min, max, turns) == numbers_after(number, min, max, turns.take(i + 1)),
{
    if forall|i: int| 0 <= i < turns.len() ==> !raised(#[trigger] turns[i].0, ENCODER_BUTTON_RELEASED) {
        lemma_none_confirmed(number, result, min, max, turns);
    }
    assert forall|i: int| 0 <= i < turns.len() && raised(#[trigger] turns[i].0, ENCODER_BUTTON_RELEASED)
        && (forall|j: int| i < j < turns.len() ==> !raised(#[trigger] turns[j].0, ENCODER_BUTTON_RELEASED))
        implies confirmed_after(number, result, min, max, turns) == numbers_after(number, min, max, turns.take(i + 1)) by {
        lemma_last_confirmed_at(number, result, min, max, turns, i);
    }
}

/// One more turn of a run takes one more step: a draw (whose contract is
/// `number_step`, recording the number on a release of the encoder button)
/// keeps the number and the result equal to `numbers_after` and
/// `confirmed_after` of the run drawn so far.
pub proof fn lemma_run_extends(number: Option<i32>, result: Option<i32>, min: i32, max: i32,
    turns: Seq<(EventBits, Option<i32>)>, signal: EventBits, param: Option<i32>)
    ensures
        numbers_after(number, min, max, turns.push((signal, param)))
            == number_step(numbers_after(number, min, max, turns), min, max, signal, param),
        confirmed_after(number, result, min, max, turns.push((signal, param)))
            == if raised(signal, ENCODER_BUTTON_RELEASED) {
                numbers_after(number, min, max, turns.push((signal, param)))
            } else {
                confirmed_after(number, result, min, max, turns)
            },
{
    assert(turns.push((signal, param)).drop_last() =~= turns);
}

} // verus!
