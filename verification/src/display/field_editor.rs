//! Step-by-step editor of a date (year, month, day) or a time of day (hour,
//! minute, second). The encoder button moves to the next field and, past the
//! last one, confirms; the other button moves back and, before the first
//! one, leaves. Turning the encoder changes the current field, wrapping at
//! its bounds where the field wraps.
use vstd::prelude::*;
use crate::signals::EventBits;
use crate::date_time::{DateTime, days_in_month_spec};
use crate::display::input::{raised, DRAW, ENCODER_BUTTON_RELEASED, BUTTON_RELEASED, ROTATED_CLOCKWISE,
    ROTATED_COUNTER_CLOCKWISE};
use crate::text_format::{padded_decimal, push_padded};

verus! {

/// Where the editor stands.
#[derive(Clone, Copy, PartialEq, Eq, Debug, Structural)]
pub enum Step {
    Exit,
    Field1,
    Field2,
    Field3,
    End,
}

/// What the editor edits.
#[derive(Clone, Copy, PartialEq, Eq, Debug, Structural)]
pub enum EditorKind {
    /// Year, month and day.
    Date,
    /// Hour, minute and second.
    Time,
}

/// The step after a release of the encoder button.
pub open spec fn step_forward(s: Step) -> Step {
    match s {
        Step::Exit => Step::Field1,
        Step::Field1 => Step::Field2,
        Step::Field2 => Step::Field3,
        Step::Field3 => Step::End,
        Step::End => Step::End,
    }
}

/// The step after a release of the other button.
pub open spec fn step_back(s: Step) -> Step {
    match s {
        Step::Exit => Step::Exit,
        Step::Field1 => Step::Exit,
        Step::Field2 => Step::Field1,
        Step::Field3 => Step::Field2,
        Step::End => Step::Field3,
    }
}

/// The field edited at step `s`, if any.
pub open spec fn step_field(s: Step) -> Option<int> {
    match s {
        Step::Field1 => Some(0),
        Step::Field2 => Some(1),
        Step::Field3 => Some(2),
        _ => None,
    }
}

/// Lowest value of field `i`.
pub open spec fn field_min(kind: EditorKind, i: int) -> int {
    match kind {
        EditorKind::Date => if i == 0 { i32::MIN as int } else { 1 },
        EditorKind::Time => 0,
    }
}

/// Highest value of field `i` given the three fields: a day goes up to the
/// length of the month of the year shown.
pub open spec fn field_max(kind: EditorKind, i: int, f: Seq<i32>) -> int {
    match kind {
        EditorKind::Date => if i == 0 {
            i32::MAX as int
        } else if i == 1 {
            12
        } else {
            days_in_month_spec((f[1] as u8) as int, f[0] as int)
        },
        EditorKind::Time => if i == 0 { 23 } else { 59 },
    }
}

/// Whether field `i` wraps at its bounds (the year does not).
pub open spec fn field_wraps(kind: EditorKind, i: int) -> bool {
    !(kind == EditorKind::Date && i == 0)
}

/// The three fields of `dt` the editor edits.
pub open spec fn extract(kind: EditorKind, dt: DateTime) -> Seq<i32> {
    match kind {
        EditorKind::Date => seq![dt.year, dt.month as i32, dt.mday as i32],
        EditorKind::Time => seq![dt.hour as i32, dt.minute as i32, dt.second as i32],
    }
}

/// The text that shows the fields: `YYYY-MM-DD` or `HH:MM:SS`.
pub open spec fn field_text(kind: EditorKind, f: Seq<i32>) -> Seq<u8> {
    match kind {
        EditorKind::Date => padded_decimal(f[0] as int, 4) + seq![45u8] + padded_decimal(f[1] as int, 2)
            + seq![45u8] + padded_decimal(f[2] as int, 2),
        EditorKind::Time => padded_decimal(f[0] as int, 2) + seq![58u8] + padded_decimal(f[1] as int, 2)
            + seq![58u8] + padded_decimal(f[2] as int, 2),
    }
}

/// Offset and width of the mark under the field edited at step `s`.
pub open spec fn underline(kind: EditorKind, s: Step) -> Option<(u8, u8)> {
    match (kind, s) {
        (EditorKind::Date, Step::Field1) => Some((0u8, 32u8)),
        (EditorKind::Date, Step::Field2) => Some((40u8, 16u8)),
        (EditorKind::Date, Step::Field3) => Some((64u8, 16u8)),
        (EditorKind::Time, Step::Field1) => Some((0u8, 16u8)),
        (EditorKind::Time, Step::Field2) => Some((24u8, 16u8)),
        (EditorKind::Time, Step::Field3) => Some((48u8, 16u8)),
        _ => None,
    }
}

/// The value built from confirmed fields, when they make a real date or
/// time; each field is first taken as a byte.
pub open spec fn built(kind: EditorKind, f: Seq<i32>) -> Option<DateTime> {
    match kind {
        EditorKind::Date => {
            let m = (f[1] as u8) as int;
            let d = (f[2] as u8) as int;
            if 1 <= m <= 12 && 1 <= d <= days_in_month_spec(m, f[0] as int) {
                Some(DateTime { year: f[0], month: m as u8, mday: d as u8, wday: 0, hour: 0, minute: 0, second: 0, millis: 0 })
            } else {
                None
            }
        },
        EditorKind::Time => {
            let h = (f[0] as u8) as int;
            let m = (f[1] as u8) as int;
            let s = (f[2] as u8) as int;
            if 0 <= h < 24 && 0 <= m < 60 && 0 <= s < 60 {
                Some(DateTime { year: 0, month: 0, mday: 0, wday: 0, hour: h as u8, minute: m as u8, second: s as u8, millis: 0 })
            } else {
                None
            }
        },
    }
}

/// Field value `val` moved by `delta` (one up or down) within its bounds.
pub open spec fn moved(kind: EditorKind, i: int, f: Seq<i32>, val: i32, delta: int) -> i32 {
    let v = val + delta;
    if field_wraps(kind, i) {
        if v > field_max(kind, i, f) {
            field_min(kind, i) as i32
        } else if v < field_min(kind, i) {
            field_max(kind, i, f) as i32
        } else {
            v as i32
        }
    } else {
        v as i32
    }
}

/// The fields with no value taken as zero.
pub open spec fn zero_filled(fields: Seq<Option<i32>>) -> Seq<i32> {
    Seq::new(3, |i: int| match fields[i] { Some(v) => v, None => 0i32 })
}

/// The change of the current field after the turns in `signal`: the field,
/// its new value and the turn's direction. `None` when nothing changes.
pub open spec fn field_change(kind: EditorKind, fields: Seq<Option<i32>>, s: Step, signal: EventBits) -> Option<(int, i32)> {
    match step_field(s) {
        Some(i) => {
            let delta: int = if raised(signal, ROTATED_CLOCKWISE) {
                1
            } else if raised(signal, ROTATED_COUNTER_CLOCKWISE) {
                -1
            } else {
                0
            };
            if delta != 0 && fields[i] is Some {
                Some((i, moved(kind, i, zero_filled(fields), fields[i].unwrap(), delta)))
            } else {
                None
            }
        },
        None => None,
    }
}

/// The value a field change computes before wrapping fits an `i32`.
pub open spec fn change_fits(fields: Seq<Option<i32>>, s: Step, signal: EventBits) -> bool {
    match step_field(s) {
        Some(i) => match fields[i] {
            Some(val) => (raised(signal, ROTATED_CLOCKWISE) ==> val < i32::MAX)
                && (!raised(signal, ROTATED_CLOCKWISE) && raised(signal, ROTATED_COUNTER_CLOCKWISE) ==> val > i32::MIN),
            None => true,
        },
        None => true,
    }
}

/// What a turn of the editor answers.
#[derive(Clone, Copy, PartialEq, Eq, Debug, Structural)]
pub enum FieldAnswer {
    /// Confirmed past the last field: the value built, if the fields make one.
    Confirmed(Option<DateTime>),
    /// Left before the first field: the value the editor was given, if any.
    Cancelled(Option<DateTime>),
}

/// What a turn of the editor draws and answers, when it draws.
#[derive(Debug)]
pub struct FieldFrame {
    /// The text of the fields.
    pub text: Vec<u8>,
    /// Offset and width of the mark under the current field.
    pub underline: Option<(u8, u8)>,
    /// The answer, if any.
    pub answer: Option<FieldAnswer>,
}

/// The date or time editor.
#[derive(Debug)]
pub struct FieldEditor {
    pub kind: EditorKind,
    pub fields: Vec<Option<i32>>,
    pub step: Step,
    pub result: Option<DateTime>,
}

impl FieldEditor {
    /// The editor holds three fields.
    pub open spec fn wf(&self) -> bool {
        self.fields@.len() == 3
    }

    /// An editor of a date (`EditorKind::Date`) or a time, on its first field.
    pub fn new(kind: EditorKind) -> (r: FieldEditor)
        ensures
            r.wf(),
            r.kind == kind,
            r.fields@ == seq![None::<i32>, None, None],
            r.step == Step::Field1,
            r.result is None,
    {
        let fields: Vec<Option<i32>> = vec![None, None, None];
        FieldEditor { kind, fields, step: Step::Field1, result: None }
    }

    /// The three fields of `dt`.
    fn extract(kind: EditorKind, dt: &DateTime) -> (r: Vec<Option<i32>>)
        ensures
            r@ == seq![Some(extract(kind, *dt)[0]), Some(extract(kind, *dt)[1]), Some(extract(kind, *dt)[2])],
    {
        match kind {
            EditorKind::Date => vec![Some(dt.year), Some(dt.month as i32), Some(dt.mday as i32)],
            EditorKind::Time => vec![Some(dt.hour as i32), Some(dt.minute as i32), Some(dt.second as i32)],
        }
    }

    /// Highest value of field `i` (see `field_max`).
    fn max_of(kind: EditorKind, i: usize, f0: i32, f1: i32) -> (r: i32)
        requires
            i < 3,
        ensures
            r == field_max(kind, i as int, seq![f0, f1, 0i32]),
    {
        match kind {
            EditorKind::Date => if i == 0 {
                i32::MAX
            } else if i == 1 {
                12
            } else {
                DateTime::days_in_month(f1 as u8, f0) as i32
            },
            EditorKind::Time => if i == 0 { 23 } else { 59 },
        }
    }

    /// A turn of the encoder changes the current field (see `field_change`)
    /// and asks for a draw.
    pub fn update_field(&mut self, signals: &mut EventBits)
        requires
            old(self).wf(),
            change_fits(old(self).fields@, old(self).step, *old(signals)),
        ensures
            final(self).wf(),
            final(self).kind == old(self).kind,
            final(self).step == old(self).step,
            final(self).result == old(self).result,
            match field_change(old(self).kind, old(self).fields@, old(self).step, *old(signals)) {
                Some((i, v)) => final(self).fields@ == old(self).fields@.update(i, Some(v))
                    && *final(signals) == *old(signals) | DRAW,
                None => final(self).fields@ == old(self).fields@ && *final(signals) == *old(signals),
            },
    {
        let idx: usize = match self.step {
            Step::Field1 => 0,
            Step::Field2 => 1,
            Step::Field3 => 2,
            _ => { return; },
        };
        let delta: i32 = if *signals & ROTATED_CLOCKWISE != 0 {
            1
        } else if *signals & ROTATED_COUNTER_CLOCKWISE != 0 {
            -1
        } else {
            return;
        };
        match self.fields[idx] {
            Some(val) => {
                let f0: i32 = match self.fields[0] { Some(v) => v, None => 0 };
                let f1: i32 = match self.fields[1] { Some(v) => v, None => 0 };
                let min: i32 = match self.kind {
                    EditorKind::Date => if idx == 0 { i32::MIN } else { 1 },
                    EditorKind::Time => 0,
                };
                let max = FieldEditor::max_of(self.kind, idx, f0, f1);
                let wraps = !(self.kind == EditorKind::Date && idx == 0);
                let v = val + delta;
                let next: i32 = if wraps {
                    if v > max { min } else if v < min { max } else { v }
                } else {
                    v
                };
                assert(zero_filled(self.fields@)[0] == f0 && zero_filled(self.fields@)[1] == f1);
                assert(field_max(self.kind, idx as int, zero_filled(self.fields@))
                    == field_max(self.kind, idx as int, seq![f0, f1, 0i32]));
                self.fields.set(idx, Some(next));
                *signals = *signals | DRAW;
            },
            None => {},
        }
    }

    /// The text of the fields (see `field_text`).
    fn text(kind: EditorKind, f0: i32, f1: i32, f2: i32) -> (r: Vec<u8>)
        ensures
            r@ == field_text(kind, seq![f0, f1, f2]),
    {
        let mut out: Vec<u8> = Vec::new();
        let (sep, w0): (u8, usize) = match kind {
            EditorKind::Date => (45u8, 4),
            EditorKind::Time => (58u8, 2),
        };
        push_padded(&mut out, f0 as i64, w0);
        out.push(sep);
        push_padded(&mut out, f1 as i64, 2);
        out.push(sep);
        push_padded(&mut out, f2 as i64, 2);
        let ghost f = seq![f0, f1, f2];
        assert(f[0] == f0 && f[1] == f1 && f[2] == f2);
        assert(out@ =~= field_text(kind, f));
        out
    }

    /// One turn of the editor on screen, with the clock's date and time
    /// `now` and the value handed over `param`:
    /// - when first shown with a value, its fields are taken and it becomes
    ///   the result; fields still missing are taken from `now` (with a draw);
    /// - a release of the encoder button moves to the next step, one of the
    ///   other button to the previous step, each with a draw;
    /// - a turn changes the current field (`update_field`).
    /// When a draw is asked for, the frame gives the fields' text and the mark
    /// under the current field, and answers: past the last field a release of
    /// the encoder button confirms the value built from the fields, before
    /// the first one a release of the other button leaves with the result.
    pub fn draw(&mut self, signals: &mut EventBits, now: &DateTime, param: Option<DateTime>) -> (r: Option<FieldFrame>)
        requires
            old(self).wf(),
            ({
                let (f1, s1) = FieldEditor::opened(old(self).fields@, old(self).result, old(self).kind, param, *now, *old(signals));
                change_fits(f1, FieldEditor::stepped(old(self).step, s1), s1)
            }),
        ensures
            final(self).wf(),
            final(self).kind == old(self).kind,
            ({
                let kind = old(self).kind;
                let (f1, s1) = FieldEditor::opened(old(self).fields@, old(self).result, kind, param, *now, *old(signals));
                let step = FieldEditor::stepped(old(self).step, s1);
                let s2 = FieldEditor::stepped_bits(s1);
                let (f2, s3) = match field_change(kind, f1, step, s2) {
                    Some((i, v)) => (f1.update(i, Some(v)), s2 | DRAW),
                    None => (f1, s2),
                };
                let result1 = if old(self).result is None && param is Some { param } else { old(self).result };
                let values = Seq::new(3, |i: int| f2[i].unwrap());
                &&& final(self).step == step
                &&& final(self).fields@ == f2
                &&& *final(signals) == s3
                &&& if !raised(s3, DRAW) {
                        r is None && final(self).result == result1
                    } else {
                        r matches Some(frame) && {
                            let confirm = raised(s3, ENCODER_BUTTON_RELEASED) && step == Step::End;
                            let leave = raised(s3, BUTTON_RELEASED) && step == Step::Exit;
                            let result2 = if confirm { built(kind, values) } else { result1 };
                            &&& frame.text@ == field_text(kind, values)
                            &&& frame.underline == underline(kind, step)
                            &&& final(self).result == result2
                            &&& frame.answer == if leave {
                                    Some(FieldAnswer::Cancelled(result2))
                                } else if confirm {
                                    Some(FieldAnswer::Confirmed(result2))
                                } else {
                                    None
                                }
                        }
                    }
            }),
    {
        self.open(signals, now, param);
        self.step_on_release(signals);
        self.update_field(signals);
        self.frame(signals)
    }

    /// Starts the editor (see `opened`); a value handed over to an editor
    /// without result becomes the result.
    fn open(&mut self, signals: &mut EventBits, now: &DateTime, param: Option<DateTime>)
        requires
            old(self).wf(),
        ensures
            final(self).wf(),
            final(self).kind == old(self).kind,
            final(self).step == old(self).step,
            (final(self).fields@, *final(signals))
                == FieldEditor::opened(old(self).fields@, old(self).result, old(self).kind, param, *now, *old(signals)),
            final(self).result == if old(self).result is None && param is Some { param } else { old(self).result },
    {
        if self.result.is_none() {
            match param {
                Some(dt) => {
                    self.fields = FieldEditor::extract(self.kind, &dt);
                    self.result = Some(dt);
                },
                None => {},
            }
        }
        if self.fields[0].is_none() || self.fields[1].is_none() || self.fields[2].is_none() {
            self.fields = FieldEditor::extract(self.kind, now);
            *signals = *signals | DRAW;
        }
    }

    /// Moves through the steps on the releases (see `stepped`).
    fn step_on_release(&mut self, signals: &mut EventBits)
        ensures
            final(self).kind == old(self).kind,
            final(self).fields == old(self).fields,
            final(self).result == old(self).result,
            final(self).step == FieldEditor::stepped(old(self).step, *old(signals)),
            *final(signals) == FieldEditor::stepped_bits(*old(signals)),
            raised(*final(signals), ROTATED_CLOCKWISE) == raised(*old(signals), ROTATED_CLOCKWISE),
            raised(*final(signals), ROTATED_COUNTER_CLOCKWISE) == raised(*old(signals), ROTATED_COUNTER_CLOCKWISE),
            raised(*final(signals), ENCODER_BUTTON_RELEASED) == raised(*old(signals), ENCODER_BUTTON_RELEASED),
            raised(*final(signals), BUTTON_RELEASED) == raised(*old(signals), BUTTON_RELEASED),
    {
        let s1: EventBits = *signals;
        if *signals & ENCODER_BUTTON_RELEASED != 0 {
            self.step = match self.step {
                Step::Exit => Step::Field1,
                Step::Field1 => Step::Field2,
                Step::Field2 => Step::Field3,
                Step::Field3 => Step::End,
                Step::End => Step::End,
            };
            *signals = *signals | DRAW;
        }
        let mid: EventBits = *signals;
        assert(raised(mid, BUTTON_RELEASED) == raised(s1, BUTTON_RELEASED)) by (bit_vector)
            requires mid == s1 || mid == s1 | DRAW;
        if *signals & BUTTON_RELEASED != 0 {
            self.step = match self.step {
                Step::Exit => Step::Exit,
                Step::Field1 => Step::Exit,
                Step::Field2 => Step::Field1,
                Step::Field3 => Step::Field2,
                Step::End => Step::Field3,
            };
            *signals = *signals | DRAW;
        }
        let s2: EventBits = *signals;
        assert(s2 == FieldEditor::stepped_bits(s1)) by (bit_vector)
            requires
                mid == if s1 & ENCODER_BUTTON_RELEASED != 0 { s1 | DRAW } else { s1 },
                s2 == if mid & BUTTON_RELEASED != 0 { mid | DRAW } else { mid },
                (mid & BUTTON_RELEASED != 0) == (s1 & BUTTON_RELEASED != 0);
        assert(raised(s2, ROTATED_CLOCKWISE) == raised(s1, ROTATED_CLOCKWISE)
            && raised(s2, ROTATED_COUNTER_CLOCKWISE) == raised(s1, ROTATED_COUNTER_CLOCKWISE)
            && raised(s2, ENCODER_BUTTON_RELEASED) == raised(s1, ENCODER_BUTTON_RELEASED)
            && raised(s2, BUTTON_RELEASED) == raised(s1, BUTTON_RELEASED)) by (bit_vector)
            requires s2 == s1 || s2 == s1 | DRAW;
    }

    /// The frame to draw once the events are applied, when a draw is asked
    /// for; past the last field a release of the encoder button builds the
    /// result from the fields.
    fn frame(&mut self, signals: &EventBits) -> (r: Option<FieldFrame>)
        requires
            old(self).wf(),
            forall|i: int| 0 <= i < 3 ==> #[trigger] old(self).fields@[i] is Some,
        ensures
            final(self).wf(),
            final(self).kind == old(self).kind,
            final(self).fields == old(self).fields,
            final(self).step == old(self).step,
            ({
                let kind = old(self).kind;
                let step = old(self).step;
                let values = Seq::new(3, |i: int| old(self).fields@[i].unwrap());
                if !raised(*signals, DRAW) {
                    r is None && final(self).result == old(self).result
                } else {
                    r matches Some(frame) && {
                        let confirm = raised(*signals, ENCODER_BUTTON_RELEASED) && step == Step::End;
                        let leave = raised(*signals, BUTTON_RELEASED) && step == Step::Exit;
                        let result2 = if confirm { built(kind, values) } else { old(self).result };
                        &&& frame.text@ == field_text(kind, values)
                        &&& frame.underline == underline(kind, step)
                        &&& final(self).result == result2
                        &&& frame.answer == if leave {
                                Some(FieldAnswer::Cancelled(result2))
                            } else if confirm {
                                Some(FieldAnswer::Confirmed(result2))
                            } else {
                                None
                            }
                    }
                }
            }),
    {
        if *signals & DRAW == 0 {
            return None;
        }
        let f0: i32 = match self.fields[0] { Some(v) => v, None => 0 };
        let f1: i32 = match self.fields[1] { Some(v) => v, None => 0 };
        let f2: i32 = match self.fields[2] { Some(v) => v, None => 0 };
        let ghost values = Seq::new(3, |i: int| self.fields@[i].unwrap());
        assert(values =~= seq![f0, f1, f2]);
        let text = FieldEditor::text(self.kind, f0, f1, f2);
        let underline: Option<(u8, u8)> = match (self.kind, self.step) {
            (EditorKind::Date, Step::Field1) => Some((0u8, 32u8)),
            (EditorKind::Date, Step::Field2) => Some((40u8, 16u8)),
            (EditorKind::Date, Step::Field3) => Some((64u8, 16u8)),
            (EditorKind::Time, Step::Field1) => Some((0u8, 16u8)),
            (EditorKind::Time, Step::Field2) => Some((24u8, 16u8)),
            (EditorKind::Time, Step::Field3) => Some((48u8, 16u8)),
            _ => None,
        };
        let mut answer: Option<FieldAnswer> = None;
        if *signals & ENCODER_BUTTON_RELEASED != 0 && self.step == Step::End {
            self.result = match self.kind {
                EditorKind::Date => DateTime::new_date(f0, (f1 as u8) as i32, (f2 as u8) as i32),
                EditorKind::Time => DateTime::new_time((f0 as u8) as i32, (f1 as u8) as i32, (f2 as u8) as i32),
            };
            answer = Some(FieldAnswer::Confirmed(self.result));
        }
        if *signals & BUTTON_RELEASED != 0 && self.step == Step::Exit {
            answer = Some(FieldAnswer::Cancelled(self.result));
        }
        Some(FieldFrame { text, underline, answer })
    }

    /// The fields and the event bits once the editor is shown: a value handed
    /// over to an editor without result gives its fields; fields still
    /// missing are taken from `now` with a draw.
    pub open spec fn opened(fields: Seq<Option<i32>>, result: Option<DateTime>, kind: EditorKind,
        param: Option<DateTime>, now: DateTime, signal: EventBits) -> (Seq<Option<i32>>, EventBits)
    {
        let f = if result is None && param is Some {
            let e = extract(kind, param.unwrap());
            seq![Some(e[0]), Some(e[1]), Some(e[2])]
        } else {
            fields
        };
        if f[0] is None || f[1] is None || f[2] is None {
            let e = extract(kind, now);
            (seq![Some(e[0]), Some(e[1]), Some(e[2])], signal | DRAW)
        } else {
            (f, signal)
        }
    }

    /// The step after the releases in `signal`.
    pub open spec fn stepped(s: Step, signal: EventBits) -> Step {
        let s1 = if raised(signal, ENCODER_BUTTON_RELEASED) { step_forward(s) } else { s };
        if raised(signal, BUTTON_RELEASED) { step_back(s1) } else { s1 }
    }

    /// The event bits after the releases in `signal`: a draw when there was one.
    pub open spec fn stepped_bits(signal: EventBits) -> EventBits {
        if raised(signal, ENCODER_BUTTON_RELEASED) || raised(signal, BUTTON_RELEASED) { signal | DRAW } else { signal }
    }

    /// Whether a turn with the event bits `signal`, the clock's date and time
    /// `now` and the value handed over `param` keeps the edited field within
    /// `i32` (the condition of `draw`).
    pub fn fits_turn(&self, signal: EventBits, now: &DateTime, param: Option<DateTime>) -> (r: bool)
        requires
            self.wf(),
        ensures
            r == ({
                let (f1, s1) = FieldEditor::opened(self.fields@, self.result, self.kind, param, *now, signal);
                change_fits(f1, FieldEditor::stepped(self.step, s1), s1)
            }),
    {
        let mut fields: Vec<Option<i32>> = if self.result.is_none() && param.is_some() {
            FieldEditor::extract(self.kind, &param.unwrap())
        } else {
            let mut c: Vec<Option<i32>> = Vec::new();
            c.push(self.fields[0]);
            c.push(self.fields[1]);
            c.push(self.fields[2]);
            assert(c@ =~= self.fields@);
            c
        };
        let mut s1: EventBits = signal;
        if fields[0].is_none() || fields[1].is_none() || fields[2].is_none() {
            fields = FieldEditor::extract(self.kind, now);
            s1 = signal | DRAW;
        }
        let mut step = self.step;
        if s1 & ENCODER_BUTTON_RELEASED != 0 {
            step = match step {
                Step::Exit => Step::Field1,
                Step::Field1 => Step::Field2,
                Step::Field2 => Step::Field3,
                Step::Field3 => Step::End,
                Step::End => Step::End,
            };
        }
        if s1 & BUTTON_RELEASED != 0 {
            step = match step {
                Step::Exit => Step::Exit,
                Step::Field1 => Step::Exit,
                Step::Field2 => Step::Field1,
                Step::Field3 => Step::Field2,
                Step::End => Step::Field3,
            };
        }
        let idx: usize = match step {
            Step::Field1 => 0,
            Step::Field2 => 1,
            Step::Field3 => 2,
            _ => { return true; },
        };
        match fields[idx] {
            Some(val) => {
                let cw = s1 & ROTATED_CLOCKWISE != 0;
                let ccw = s1 & ROTATED_COUNTER_CLOCKWISE != 0;
                (!cw || val < i32::MAX) && (!(!cw && ccw) || val > i32::MIN)
            },
            None => true,
        }
    }

    /// The value the editor was given or confirmed last.
    pub fn get_result(&self) -> (r: Option<DateTime>)
        ensures
            r == self.result,
    {
        self.result
    }
}

/// The date editor.
#[derive(Debug)]
pub struct Date(pub FieldEditor);

impl Date {
    /// A date editor on its first field.
    pub fn new() -> (r: Date)
        ensures
            r.0.wf(),
            r.0.kind == EditorKind::Date,
            r.0.fields@ == seq![None::<i32>, None, None],
            r.0.step == Step::Field1,
            r.0.result is None,
    {
        Date(FieldEditor::new(EditorKind::Date))
    }

    /// The date confirmed last, or handed over when shown.
    pub fn get_date(&self) -> (r: Option<DateTime>)
        ensures
            r == self.0.result,
    {
        self.0.get_result()
    }
}

/// The time editor.
#[derive(Debug)]
pub struct Time(pub FieldEditor);

impl Time {
    /// A time editor on its first field.
    pub fn new() -> (r: Time)
        ensures
            r.0.wf(),
            r.0.kind == EditorKind::Time,
            r.0.fields@ == seq![None::<i32>, None, None],
            r.0.step == Step::Field1,
            r.0.result is None,
    {
        Time(FieldEditor::new(EditorKind::Time))
    }

    /// The time confirmed last, or handed over when shown.
    pub fn get_value(&self) -> (r: Option<DateTime>)
        ensures
            r == self.0.result,
    {
        self.0.get_result()
    }
}

/// A field that wraps stays between its bounds whatever its value was.
pub proof fn lemma_wrapped_field_in_bounds(kind: EditorKind, i: int, f: Seq<i32>, val: i32, delta: int)
    requires
        field_wraps(kind, i),
        field_min(kind, i) <= field_max(kind, i, f),
        i32::MIN <= field_min(kind, i),
        field_max(kind, i, f) <= i32::MAX,
        i32::MIN <= val + delta <= i32::MAX,
    ensures
        field_min(kind, i) <= moved(kind, i, f, val, delta) <= field_max(kind, i, f),
{
}

} // verus!
