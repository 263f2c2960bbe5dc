//! Text entry with the encoder. Turning the encoder changes the character
//! under the cursor, a short press of the encoder button moves the cursor on
//! (appending an `a` at the end), a short press of the other button erases
//! the last character. A long press of the encoder button confirms the text,
//! a long press of the other button gives back the text the entry started
//! with, and a short press that leaves the text empty cancels the entry.
use vstd::prelude::*;
use crate::signals::EventBits;
use crate::display::commons::MAX_SIZE;

verus! {

/// Ticks a button must stay down to count as a long press.
pub const LONG_PRESS_TICK: u32 = 500;

/// Bit of the stand-alone button's press.
pub const BUTTON_PRESSED: u32 = 0x01;
/// Bit of the stand-alone button's release.
pub const BUTTON_RELEASED: u32 = 0x02;
/// Bit of the encoder button's press.
pub const ENCODER_BUTTON_PRESSED: u32 = 0x04;
/// Bit of the encoder button's release.
pub const ENCODER_BUTTON_RELEASED: u32 = 0x08;
/// Bit of a clockwise turn.
pub const ROTATED_CLOCKWISE: u32 = 0x10;
/// Bit of a counter-clockwise turn.
pub const ROTATED_COUNTER_CLOCKWISE: u32 = 0x20;
/// Bit that asks for the screen to be drawn again.
pub const DRAW: u32 = 0x0080_0000;

/// Whether the bits `bit` are raised in `signal`.
pub open spec fn raised(signal: EventBits, bit: u32) -> bool {
    signal & bit != 0
}

/// Ticks from `then` to `now` on a counter that wraps around.
pub open spec fn ticks_since(now: u32, then: u32) -> u32 {
    if now >= then { (now - then) as u32 } else { (now - then + 0x1_0000_0000) as u32 }
}

/// The character after `c` when the encoder turns clockwise: the codes run
/// from the space up to 255 and then start again at the space.
pub open spec fn char_up(c: u8) -> u8 {
    if c == 255 { 32 } else { (c + 1) as u8 }
}

/// The character before `c` when the encoder turns counter-clockwise.
pub open spec fn char_down(c: u8) -> u8 {
    if c <= 32 { 255 } else { (c - 1) as u8 }
}

/// What the entry holds.
pub struct InputView {
    pub text: Option<Seq<u8>>,
    pub initial: Option<Seq<u8>>,
    pub idx: int,
    pub button_tick: u32,
    pub encoder_tick: u32,
    pub secret: bool,
}

/// An entry that has not been shown yet.
pub open spec fn blank_input() -> InputView {
    InputView { text: None, initial: None, idx: 0, button_tick: 0, encoder_tick: 0, secret: false }
}

/// Whether the entry has no character yet.
pub open spec fn needs_seed(v: InputView) -> bool {
    match v.text {
        Some(t) => t.len() == 0,
        None => true,
    }
}

/// The entry restarted with the single character `a`.
pub open spec fn seeded(v: InputView) -> InputView {
    InputView { text: Some(seq![97u8]), idx: 0, ..v }
}

/// The entry after a turn of the encoder.
pub open spec fn rotated(v: InputView, clockwise: bool) -> InputView {
    if needs_seed(v) {
        seeded(v)
    } else {
        let t = v.text.unwrap();
        let c = if clockwise { char_up(t[v.idx]) } else { char_down(t[v.idx]) };
        InputView { text: Some(t.update(v.idx, c)), ..v }
    }
}

/// The entry after a short press of the encoder button: the cursor moves on,
/// or an `a` is appended when it is on the last character and there is room.
pub open spec fn advanced(v: InputView) -> InputView {
    if needs_seed(v) {
        seeded(v)
    } else {
        let t = v.text.unwrap();
        if v.idx + 1 < t.len() {
            InputView { idx: v.idx + 1, ..v }
        } else if t.len() < MAX_SIZE {
            InputView { text: Some(t.push(97u8)), idx: t.len() as int, ..v }
        } else {
            v
        }
    }
}

/// The entry after a short press of the other button: the last character is
/// erased and the cursor goes to the new last one.
pub open spec fn erased(v: InputView) -> InputView {
    match v.text {
        Some(t) => if t.len() > 0 {
            InputView { text: Some(t.drop_last()), idx: if t.len() >= 2 { t.len() - 2 } else { 0 }, ..v }
        } else {
            v
        },
        None => v,
    }
}

/// The entry and the event bits after the events of one turn of the display
/// loop have been applied; the releases themselves are left for `answered`.
pub open spec fn updated(v: InputView, signal: EventBits, now: u32) -> (InputView, EventBits) {
    let (v1, s1) = if raised(signal, BUTTON_PRESSED) {
        (InputView { button_tick: now, ..v }, signal & !BUTTON_PRESSED)
    } else {
        (v, signal)
    };
    let (v2, s2) = if raised(s1, ROTATED_CLOCKWISE) {
        (rotated(v1, true), s1 | DRAW)
    } else if raised(s1, ROTATED_COUNTER_CLOCKWISE) {
        (rotated(v1, false), s1 | DRAW)
    } else {
        (v1, s1)
    };
    if raised(s2, ENCODER_BUTTON_PRESSED) {
        (InputView { encoder_tick: now, ..v2 }, s2 & !ENCODER_BUTTON_PRESSED)
    } else if raised(s2, ENCODER_BUTTON_RELEASED) {
        if ticks_since(now, v2.encoder_tick) >= LONG_PRESS_TICK { (v2, s2) } else { (advanced(v2), s2 | DRAW) }
    } else if raised(s2, BUTTON_RELEASED) {
        if ticks_since(now, v2.button_tick) >= LONG_PRESS_TICK { (v2, s2) } else { (erased(v2), s2 | DRAW) }
    } else {
        (v2, s2)
    }
}

/// The bytes drawn on the second row and their horizontal position. A text
/// of sixteen characters or more is shown as `<` and its last fifteen; in
/// secret mode every character is a `*` but the one under the cursor.
pub open spec fn second_row_spec(v: InputView) -> Option<(Seq<u8>, u8)> {
    match v.text {
        Some(t) => if t.len() == 0 {
            None
        } else if t.len() >= 16 {
            let off = t.len() - 15;
            let shown = if v.secret {
                Seq::new(15, |k: int| if off + k == v.idx { t[v.idx] } else { 42u8 })
            } else {
                t.subrange(off, t.len() as int)
            };
            Some((seq![60u8] + shown, 0u8))
        } else if v.secret {
            Some((Seq::new(t.len(), |k: int| if k == v.idx { t[k] } else { 42u8 }), 3u8))
        } else {
            Some((t, 3u8))
        },
        None => None,
    }
}

/// The entry once shown: when it was not started yet, it takes the text
/// handed over (or `a` when there is none) with the cursor on its last
/// character, and remembers the text to give back on a long press.
pub open spec fn opened(v: InputView, given: Option<Seq<u8>>, secret: Option<bool>) -> InputView {
    if v.text is Some {
        v
    } else {
        let g: Seq<u8> = match given { Some(p) => p, None => Seq::empty() };
        InputView {
            text: Some(if g.len() == 0 { seq![97u8] } else { g }),
            initial: Some(g),
            idx: if g.len() == 0 { 0 } else { g.len() - 1 },
            secret: match secret { Some(b) => b, None => v.secret },
            ..v
        }
    }
}

/// The entry and the event bits once the releases are handled: the release
/// is consumed, its press time forgotten and a draw requested.
pub open spec fn answered(v: InputView, signal: EventBits) -> (InputView, EventBits) {
    if raised(signal, ENCODER_BUTTON_RELEASED) {
        (InputView { encoder_tick: 0, ..v }, (signal & !ENCODER_BUTTON_RELEASED) | DRAW)
    } else if raised(signal, BUTTON_RELEASED) {
        (InputView { button_tick: 0, ..v }, (signal & !BUTTON_RELEASED) | DRAW)
    } else {
        (v, signal)
    }
}

/// An answer of the entry, as values.
pub enum AnswerView {
    Pending,
    Confirmed(Seq<u8>),
    Restored(Option<Seq<u8>>),
    Cancelled,
}

/// The answer to the releases: a long press of the encoder button confirms
/// the text, a long press of the other button restores the text the entry
/// started with, and a short press of it that left the text empty cancels.
pub open spec fn answer_spec(v: InputView, signal: EventBits, now: u32) -> AnswerView {
    if raised(signal, ENCODER_BUTTON_RELEASED) {
        if ticks_since(now, v.encoder_tick) >= LONG_PRESS_TICK && v.text is Some {
            AnswerView::Confirmed(v.text.unwrap())
        } else {
            AnswerView::Pending
        }
    } else if raised(signal, BUTTON_RELEASED) {
        if ticks_since(now, v.button_tick) >= LONG_PRESS_TICK {
            AnswerView::Restored(v.initial)
        } else if needs_seed(v) {
            AnswerView::Cancelled
        } else {
            AnswerView::Pending
        }
    } else {
        AnswerView::Pending
    }
}

/// What a turn of the entry answers to the screen that shows it.
#[derive(Debug)]
pub enum InputAnswer {
    /// Nothing to report.
    Pending,
    /// Long press of the encoder button: the text is confirmed.
    Confirmed(Vec<u8>),
    /// Long press of the other button: the text the entry started with.
    Restored(Option<Vec<u8>>),
    /// Short press of the other button that left the text empty.
    Cancelled,
}

impl InputAnswer {
    /// The answer as values.
    pub open spec fn view(&self) -> AnswerView {
        match self {
            InputAnswer::Pending => AnswerView::Pending,
            InputAnswer::Confirmed(t) => AnswerView::Confirmed(t@),
            InputAnswer::Restored(o) => AnswerView::Restored(match o { Some(t) => Some(t@), None => None }),
            InputAnswer::Cancelled => AnswerView::Cancelled,
        }
    }
}

/// The entry and the event bits after a turn of `Input::draw` from `before`
/// with the events `signal` at tick `now`, the text `given` to start from and
/// the secret mode `secret`.
pub open spec fn input_drawn(before: InputView, signal: EventBits, now: u32, given: Option<Seq<u8>>,
    secret: Option<bool>) -> (InputView, EventBits) {
    let (v2, s2) = updated(opened(before, given, secret), signal, now);
    answered(v2, s2)
}

/// The frame `f` is the one that turn shows: its answer, the cursor and the
/// second row.
pub open spec fn input_frame_spec(before: InputView, signal: EventBits, now: u32, given: Option<Seq<u8>>,
    secret: Option<bool>, f: InputFrame) -> bool {
    let (v2, s2) = updated(opened(before, given, secret), signal, now);
    &&& f.answer.view() == answer_spec(v2, s2, now)
    &&& f.cursor_x == 2 + 8 * v2.idx
    &&& match f.row {
        Some((bytes, x)) => second_row_spec(v2) == Some((bytes@, x)),
        None => second_row_spec(v2) is None,
    }
}

/// What a turn of the entry draws and answers.
#[derive(Debug)]
pub struct InputFrame {
    /// The bytes of the second row and their position, when there are any.
    pub row: Option<(Vec<u8>, u8)>,
    /// Horizontal position of the cursor.
    pub cursor_x: u8,
    /// The answer to the screen.
    pub answer: InputAnswer,
}

/// The text entry.
#[derive(Debug)]
pub struct Input {
    pub input: Option<Vec<u8>>,
    pub initial_input: Option<Vec<u8>>,
    pub idx: usize,
    pub button_pressed_tick: u32,
    pub encoder_button_pressed_tick: u32,
    pub secret_mode: bool,
}

impl Input {
    /// The entry as values.
    pub open spec fn view(&self) -> InputView {
        InputView {
            text: match self.input { Some(t) => Some(t@), None => None },
            initial: match self.initial_input { Some(t) => Some(t@), None => None },
            idx: self.idx as int,
            button_tick: self.button_pressed_tick,
            encoder_tick: self.encoder_button_pressed_tick,
            secret: self.secret_mode,
        }
    }

    /// The text fits the entry's capacity and the cursor is on a character
    /// (or at the start of an empty text).
    pub open spec fn wf(&self) -> bool {
        &&& match self.input {
            Some(t) => t@.len() <= MAX_SIZE && if t@.len() == 0 { self.idx == 0 } else { self.idx < t@.len() },
            None => self.idx == 0,
        }
        &&& match self.initial_input {
            Some(t) => t@.len() <= MAX_SIZE,
            None => true,
        }
    }

    /// An entry that has not been shown yet.
    pub fn new() -> (r: Input)
        ensures
            r.wf(),
            r.view().text is None,
            r.view().initial is None,
            r.view().idx == 0,
            r.view().button_tick == 0,
            r.view().encoder_tick == 0,
            !r.view().secret,
    {
        Input {
            input: None,
            initial_input: None,
            idx: 0,
            button_pressed_tick: 0,
            encoder_button_pressed_tick: 0,
            secret_mode: false,
        }
    }

    /// Restarts an entry that has no character with the single character `a`;
    /// answers whether it did.
    pub fn seed_input_if_empty(&mut self) -> (r: bool)
        requires
            old(self).wf(),
        ensures
            final(self).wf(),
            r == needs_seed(old(self).view()),
            final(self).view() == if r { seeded(old(self).view()) } else { old(self).view() },
    {
        let needs_seed = match &self.input {
            Some(t) => t.len() == 0,
            None => true,
        };
        if needs_seed {
            self.input = Some(vec![97u8]);
            self.idx = 0;
            assert(self.view().text.unwrap() =~= seq![97u8]);
            true
        } else {
            false
        }
    }

    /// A turn of the encoder (see `rotated`).
    fn rotate(&mut self, clockwise: bool)
        requires
            old(self).wf(),
        ensures
            final(self).wf(),
            final(self).view() == rotated(old(self).view(), clockwise),
    {
        if self.seed_input_if_empty() {
            return;
        }
        let mut t = self.input.take().unwrap();
        let c = t[self.idx];
        let next: u8 = if clockwise {
            if c >= 255 { 32 } else { c + 1 }
        } else {
            if c <= 32 { 255 } else { c - 1 }
        };
        t.set(self.idx, next);
        self.input = Some(t);
    }

    /// A short press of the encoder button (see `advanced`).
    fn advance(&mut self)
        requires
            old(self).wf(),
        ensures
            final(self).wf(),
            final(self).view() == advanced(old(self).view()),
    {
        if self.seed_input_if_empty() {
            return;
        }
        let mut t = self.input.take().unwrap();
        let len = t.len();
        if self.idx + 1 < len {
            self.idx = self.idx + 1;
        } else if len < MAX_SIZE {
            t.push(97u8);
            self.idx = t.len() - 1;
        }
        self.input = Some(t);
    }

    /// A short press of the other button (see `erased`).
    fn erase(&mut self)
        requires
            old(self).wf(),
        ensures
            final(self).wf(),
            final(self).view() == erased(old(self).view()),
    {
        match self.input.take() {
            Some(mut t) => {
                if t.len() > 0 {
                    t.pop();
                    let n = t.len();
                    self.idx = if n >= 1 { n - 1 } else { 0 };
                }
                self.input = Some(t);
            },
            None => {},
        }
    }

    /// Applies the events of one turn of the display loop at tick `now`
    /// (see `updated`): presses are timed, turns change the character under
    /// the cursor, short releases move the cursor or erase.
    pub fn update_input(&mut self, signal: &mut EventBits, now: u32)
        requires
            old(self).wf(),
        ensures
            final(self).wf(),
            (final(self).view(), *final(signal)) == updated(old(self).view(), *old(signal), now),
    {
        if *signal & BUTTON_PRESSED != 0 {
            self.button_pressed_tick = now;
            *signal = *signal & !BUTTON_PRESSED;
        }
        if *signal & ROTATED_CLOCKWISE != 0 {
            self.rotate(true);
            *signal = *signal | DRAW;
        } else if *signal & ROTATED_COUNTER_CLOCKWISE != 0 {
            self.rotate(false);
            *signal = *signal | DRAW;
        }
        if *signal & ENCODER_BUTTON_PRESSED != 0 {
            self.encoder_button_pressed_tick = now;
            *signal = *signal & !ENCODER_BUTTON_PRESSED;
        } else if *signal & ENCODER_BUTTON_RELEASED != 0 {
            let elapsed = now.wrapping_sub(self.encoder_button_pressed_tick);
            assert(elapsed == ticks_since(now, self.encoder_button_pressed_tick));
            if elapsed < LONG_PRESS_TICK {
                self.advance();
                *signal = *signal | DRAW;
            }
        } else if *signal & BUTTON_RELEASED != 0 {
            let elapsed = now.wrapping_sub(self.button_pressed_tick);
            assert(elapsed == ticks_since(now, self.button_pressed_tick));
            if elapsed < LONG_PRESS_TICK {
                self.erase();
                *signal = *signal | DRAW;
            }
        }
    }

    /// Starts the entry when it is shown for the first time: with the text
    /// handed over (or `a` when there is none) and the cursor on its last
    /// character, remembering the text to give back on a long press.
    pub fn open(&mut self, param_input: &Option<Vec<u8>>, param_secret: Option<bool>)
        requires
            old(self).wf(),
            param_input matches Some(p) ==> p@.len() <= MAX_SIZE,
        ensures
            final(self).wf(),
            final(self).view() == opened(old(self).view(), match param_input { Some(p) => Some(p@), None => None }, param_secret),
    {
        if self.input.is_some() {
            return;
        }
        let given: Vec<u8> = match param_input {
            Some(p) => p.clone(),
            None => Vec::new(),
        };
        assert(given@ =~= match param_input { Some(p) => p@, None => Seq::<u8>::empty() });
        let kept = given.clone();
        assert(kept@ =~= given@);
        self.initial_input = Some(kept);
        if given.len() == 0 {
            self.input = Some(vec![97u8]);
            self.idx = 0;
            assert(self.view().text.unwrap() =~= seq![97u8]);
        } else {
            self.idx = given.len() - 1;
            self.input = Some(given);
        }
        match param_secret {
            Some(b) => { self.secret_mode = b; },
            None => {},
        }
    }

    /// The bytes of the second row and their position (see `second_row_spec`).
    pub fn second_row(&self) -> (r: Option<(Vec<u8>, u8)>)
        requires
            self.wf(),
        ensures
            match r {
                Some((bytes, x)) => second_row_spec(self.view()) == Some((bytes@, x)),
                None => second_row_spec(self.view()) is None,
            },
    {
        match &self.input {
            None => None,
            Some(raw) => {
                let len = raw.len();
                if len == 0 {
                    None
                } else if len >= 16 {
                    let offset = len - 15;
                    let mut buf: Vec<u8> = vec![60u8];
                    let ghost t = raw@;
                    let ghost shown = if self.secret_mode {
                        Seq::new(15, |k: int| if offset + k == self.idx { t[self.idx as int] } else { 42u8 })
                    } else {
                        t.subrange(offset as int, len as int)
                    };
                    let mut k: usize = 0;
                    while k < 15
                        invariant
                            0 <= k <= 15,
                            len == raw@.len(),
                            len >= 16,
                            offset == len - 15,
                            t == raw@,
                            shown == if self.secret_mode {
                                Seq::new(15, |j: int| if offset + j == self.idx { t[self.idx as int] } else { 42u8 })
                            } else {
                                t.subrange(offset as int, len as int)
                            },
                            buf@ == seq![60u8] + shown.take(k as int),
                        decreases 15 - k,
                    {
                        let b: u8 = if self.secret_mode {
                            if offset + k == self.idx { raw[self.idx] } else { 42u8 }
                        } else {
                            raw[offset + k]
                        };
                        buf.push(b);
                        k = k + 1;
                        assert(buf@ =~= seq![60u8] + shown.take(k as int));
                    }
                    assert(shown.take(15) =~= shown);
                    Some((buf, 0u8))
                } else if self.secret_mode {
                    let mut buf: Vec<u8> = Vec::new();
                    let ghost t = raw@;
                    let mut k: usize = 0;
                    while k < len
                        invariant
                            0 <= k <= len,
                            len == raw@.len(),
                            t == raw@,
                            buf@ =~= Seq::new(k as nat, |j: int| if j == self.idx { t[j] } else { 42u8 }),
                        decreases len - k,
                    {
                        let b: u8 = if k == self.idx { raw[k] } else { 42u8 };
                        buf.push(b);
                        k = k + 1;
                        assert(buf@ =~= Seq::new(k as nat, |j: int| if j == self.idx { t[j] } else { 42u8 }));
                    }
                    Some((buf, 3u8))
                } else {
                    let buf = raw.clone();
                    assert(buf@ =~= raw@);
                    Some((buf, 3u8))
                }
            },
        }
    }

    /// Horizontal position of the cursor: under the character it is on.
    pub fn cursor_x(&self) -> (r: u8)
        requires
            self.wf(),
        ensures
            r == 2 + 8 * self.idx,
    {
        let offset: u8 = (self.idx * 8) as u8;
        2u8 + offset
    }

    /// Handles the releases at tick `now`: a long press of the encoder
    /// button confirms the text, a long press of the other button restores
    /// the text the entry started with, a short press of it that left the
    /// text empty cancels. The release is consumed and a draw requested.
    pub fn answer(&mut self, signal: &mut EventBits, now: u32) -> (r: InputAnswer)
        requires
            old(self).wf(),
        ensures
            final(self).wf(),
            (final(self).view(), *final(signal)) == answered(old(self).view(), *old(signal)),
            r.view() == answer_spec(old(self).view(), *old(signal), now),
    {
        if *signal & ENCODER_BUTTON_RELEASED != 0 {
            let elapsed = now.wrapping_sub(self.encoder_button_pressed_tick);
            assert(elapsed == ticks_since(now, self.encoder_button_pressed_tick));
            let answer = if elapsed >= LONG_PRESS_TICK {
                match &self.input {
                    Some(t) => {
                        let c = t.clone();
                        assert(c@ =~= t@);
                        InputAnswer::Confirmed(c)
                    },
                    None => InputAnswer::Pending,
                }
            } else {
                InputAnswer::Pending
            };
            self.encoder_button_pressed_tick = 0;
            *signal = (*signal & !ENCODER_BUTTON_RELEASED) | DRAW;
            answer
        } else if *signal & BUTTON_RELEASED != 0 {
            let elapsed = now.wrapping_sub(self.button_pressed_tick);
            assert(elapsed == ticks_since(now, self.button_pressed_tick));
            let answer = if elapsed >= LONG_PRESS_TICK {
                match &self.initial_input {
                    Some(t) => {
                        let c = t.clone();
                        assert(c@ =~= t@);
                        InputAnswer::Restored(Some(c))
                    },
                    None => InputAnswer::Restored(None),
                }
            } else {
                let empty = match &self.input {
                    Some(t) => t.len() == 0,
                    None => true,
                };
                if empty { InputAnswer::Cancelled } else { InputAnswer::Pending }
            };
            self.button_pressed_tick = 0;
            *signal = (*signal & !BUTTON_RELEASED) | DRAW;
            answer
        } else {
            InputAnswer::Pending
        }
    }

    /// One turn of the entry on screen at tick `now`: starts it if needed
    /// (`open`), applies the events (`update_input`), lays out the second
    /// row and the cursor, and answers the releases (`answer`).
    pub fn draw(&mut self, signal: &mut EventBits, now: u32, param_input: &Option<Vec<u8>>, param_secret: Option<bool>) -> (r: InputFrame)
        requires
            old(self).wf(),
            param_input matches Some(p) ==> p@.len() <= MAX_SIZE,
        ensures
            final(self).wf(),
            ({
                let given = match param_input { Some(p) => Some(p@), None => None };
                &&& (final(self).view(), *final(signal)) == input_drawn(old(self).view(), *old(signal), now, given, param_secret)
                &&& input_frame_spec(old(self).view(), *old(signal), now, given, param_secret, r)
            }),
    {
        self.open(param_input, param_secret);
        self.update_input(signal, now);
        let row = self.second_row();
        let cursor_x = self.cursor_x();
        let answer = self.answer(signal, now);
        InputFrame { row, cursor_x, answer }
    }

    /// The text being entered.
    pub fn get_value(&self) -> (r: Option<Vec<u8>>)
        ensures
            match r {
                Some(t) => self.view().text == Some(t@),
                None => self.view().text is None,
            },
    {
        match &self.input {
            Some(t) => {
                let c = t.clone();
                assert(c@ =~= t@);
                Some(c)
            },
            None => None,
        }
    }
}

/// Turning the encoder one step and back restores the text, when the
/// character under the cursor is a space or above.
pub proof fn lemma_turn_and_back(v: InputView)
    requires
        v.text matches Some(t) && 0 <= v.idx < t.len() && t[v.idx] >= 32,
    ensures
        rotated(rotated(v, true), false) == v,
        rotated(rotated(v, false), true) == v,
{
    let t = v.text.unwrap();
    let up = rotated(v, true);
    let down = rotated(v, false);
    assert(up.text.unwrap().update(v.idx, char_down(up.text.unwrap()[v.idx])) =~= t);
    assert(down.text.unwrap().update(v.idx, char_up(down.text.unwrap()[v.idx])) =~= t);
}

} // verus!
