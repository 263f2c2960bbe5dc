//! Choice among `N` labelled entries with the encoder. Turning the encoder
//! moves through the entries; the encoder button confirms, the other button
//! cancels.
use vstd::prelude::*;
use crate::signals::EventBits;
use crate::display::input::{raised, DRAW, ENCODER_BUTTON_RELEASED, BUTTON_RELEASED, ROTATED_CLOCKWISE,
    ROTATED_COUNTER_CLOCKWISE};

verus! {

/// An entry of a choice: its label and whether it is the selected one.
pub type Selection = (Vec<u8>, bool);

/// The label shown when there is no entry to show.
pub open spec fn no_selections_text() -> Seq<u8> {
    "No selections available"@.map_values(|c: char| c as u8)
}

/// The entries as values.
pub open spec fn selections_view(s: Seq<Selection>) -> Seq<(Seq<u8>, bool)> {
    Seq::new(s.len(), |i: int| (s[i].0@, s[i].1))
}

/// Appending an entry appends its values.
pub proof fn lemma_view_push(s: Seq<Selection>, e: Selection)
    ensures
        selections_view(s.push(e)) == selections_view(s).push((e.0@, e.1)),
{
    assert(selections_view(s.push(e)) =~= selections_view(s).push((e.0@, e.1)));
}

/// Index of the first selected entry, or 0 when none is.
pub open spec fn first_selected(s: Seq<(Seq<u8>, bool)>) -> int {
    if exists|i: int| 0 <= i < s.len() && #[trigger] s[i].1 {
        choose|i: int| 0 <= i < s.len() && #[trigger] s[i].1 && forall|j: int| 0 <= j < i ==> !#[trigger] s[j].1
    } else {
        0
    }
}

/// The entry index after a turn of the encoder, wrapping around the
/// entries: one more (in byte arithmetic), or one less, modulo `modulo`, so
/// that turning back from the first entry lands on the last.
pub open spec fn turned_index(index: u8, clockwise: bool, modulo: u8) -> u8 {
    if clockwise {
        (((index + 1) % 256) % (modulo as int)) as u8
    } else {
        ((index + modulo - 1) % (modulo as int)) as u8
    }
}

/// The entry index and the event bits after the turns of the encoder.
pub open spec fn turned(index: u8, signal: EventBits, modulo: u8) -> (u8, EventBits) {
    if raised(signal, ROTATED_CLOCKWISE) {
        (turned_index(index, true, modulo), signal | DRAW)
    } else if raised(signal, ROTATED_COUNTER_CLOCKWISE) {
        (turned_index(index, false, modulo), signal | DRAW)
    } else {
        (index, signal)
    }
}

/// The label shown for entry `index`.
pub open spec fn label_spec(index: u8, sel: Option<Seq<(Seq<u8>, bool)>>) -> Seq<u8> {
    match sel {
        Some(s) => if (index as int) < s.len() { s[index as int].0 } else { no_selections_text() },
        None => no_selections_text(),
    }
}

/// The entries once the choice is shown: those it had, else those handed
/// over, else `n` blank ones.
pub open spec fn opened_selections(sel: Option<Seq<(Seq<u8>, bool)>>, param: Option<Seq<(Seq<u8>, bool)>>, n: nat)
    -> Seq<(Seq<u8>, bool)>
{
    match sel {
        Some(s) => s,
        None => match param {
            Some(p) => p,
            None => Seq::new(n, |i: int| (Seq::<u8>::empty(), false)),
        },
    }
}

/// The entries of a choice as values, when it has them.
pub open spec fn optional_view(sel: Option<Vec<Selection>>) -> Option<Seq<(Seq<u8>, bool)>> {
    match sel {
        Some(s) => Some(selections_view(s@)),
        None => None,
    }
}

/// What a turn of the choice answers; both buttons may answer in one turn.
#[derive(Debug)]
pub enum SelectAnswer {
    /// The encoder button was released: the entries as they were handed over.
    Confirmed(Vec<Selection>),
    /// The choice was left.
    Cancelled,
}

/// What a turn of the choice draws and answers.
#[derive(Debug)]
pub struct SelectFrame {
    /// The label of the current entry, for the second row.
    pub label: Vec<u8>,
    /// The answers, in the order they are given.
    pub answers: Vec<SelectAnswer>,
}

/// A choice among `N` entries.
#[derive(Debug)]
pub struct Select<const N: usize> {
    pub index: u8,
    pub selections: Option<Vec<Selection>>,
}

impl<const N: usize> Select<N> {
    /// The entries hold `N` entries and `N` fits the byte arithmetic.
    pub open spec fn wf(&self) -> bool {
        &&& 1 <= N <= 255
        &&& self.selections matches Some(s) ==> s@.len() == N
    }

    /// The modulo of the index arithmetic: the number of entries.
    pub open spec fn modulo(&self) -> u8 {
        match self.selections {
            Some(s) => s@.len() as u8,
            None => 1,
        }
    }

    /// A choice that has not been shown yet.
    pub fn new() -> (r: Select<N>)
        ensures
            r.index == 0,
            r.selections is None,
    {
        Select { index: 0, selections: None }
    }

    /// Starts the choice when it is shown for the first time: with the entries
    /// handed over and the first selected one current, or with `N` blank
    /// entries.
    pub fn open(&mut self, param: &Option<Vec<Selection>>)
        requires
            old(self).wf(),
            param matches Some(p) ==> p@.len() == N,
        ensures
            final(self).wf(),
            old(self).selections is Some ==> *final(self) == *old(self),
            old(self).selections is None ==> match param {
                Some(p) => final(self).selections matches Some(s)
                    && selections_view(s@) == selections_view(p@)
                    && final(self).index == first_selected(selections_view(p@)),
                None => final(self).selections matches Some(s)
                    && selections_view(s@) == Seq::new(N as nat, |i: int| (Seq::<u8>::empty(), false))
                    && final(self).index == 0,
            },
    {
        if self.selections.is_some() {
            return;
        }
        match param {
            Some(p) => {
                let ghost sv = selections_view(p@);
                let mut copy: Vec<Selection> = Vec::new();
                let mut first: Option<usize> = None;
                let mut i: usize = 0;
                while i < p.len()
                    invariant
                        0 <= i <= p@.len(),
                        p@.len() == N,
                        N <= 255,
                        sv == selections_view(p@),
                        selections_view(copy@) == sv.take(i as int),
                        match first {
                            Some(f) => f < i && sv[f as int].1 && forall|j: int| 0 <= j < f ==> !#[trigger] sv[j].1,
                            None => forall|j: int| 0 <= j < i ==> !#[trigger] sv[j].1,
                        },
                    decreases p.len() - i,
                {
                    let label = p[i].0.clone();
                    assert(label@ =~= p@[i as int].0@);
                    let chosen = p[i].1;
                    if chosen && first.is_none() {
                        first = Some(i);
                    }
                    let ghost before = copy@;
                    let entry = (label, chosen);
                    proof { lemma_view_push(before, entry); }
                    copy.push(entry);
                    i = i + 1;
                    assert(selections_view(copy@) =~= sv.take(i as int));
                }
                assert(sv.take(i as int) =~= sv);
                match first {
                    Some(f) => {
                        assert(sv[f as int].1);
                        assert(first_selected(sv) == f as int) by {
                            let c = choose|k: int| 0 <= k < sv.len() && #[trigger] sv[k].1
                                && forall|j: int| 0 <= j < k ==> !#[trigger] sv[j].1;
                            assert(0 <= c < sv.len() && sv[c].1 && forall|j: int| 0 <= j < c ==> !#[trigger] sv[j].1);
                            if c < f {
                                assert(!sv[c].1);
                            }
                            if f < c {
                                assert(!sv[f as int].1);
                            }
                        }
                        self.index = f as u8;
                    },
                    None => {
                        assert(!exists|k: int| 0 <= k < sv.len() && #[trigger] sv[k].1);
                        self.index = 0;
                    },
                }
                self.selections = Some(copy);
            },
            None => {
                let mut blank: Vec<Selection> = Vec::new();
                let mut i: usize = 0;
                while i < N
                    invariant
                        0 <= i <= N,
                        selections_view(blank@) =~= Seq::new(i as nat, |k: int| (Seq::<u8>::empty(), false)),
                    decreases N - i,
                {
                    let ghost before = blank@;
                    let entry: Selection = (Vec::new(), false);
                    proof { lemma_view_push(before, entry); }
                    blank.push(entry);
                    i = i + 1;
                    assert(selections_view(blank@) =~= Seq::new(i as nat, |k: int| (Seq::<u8>::empty(), false)));
                }
                self.index = 0;
                self.selections = Some(blank);
            },
        }
    }

    /// A turn of the encoder moves to the next or the previous entry (see
    /// `turned_index`) and asks for a draw.
    pub fn update_select(&mut self, signal: &mut EventBits)
        requires
            old(self).wf(),
        ensures
            final(self).wf(),
            final(self).selections == old(self).selections,
            (final(self).index, *final(signal)) == turned(old(self).index, *old(signal), old(self).modulo()),
    {
        let modulo: u8 = match &self.selections {
            Some(s) => s.len() as u8,
            None => 1,
        };
        if *signal & ROTATED_CLOCKWISE != 0 {
            self.index = self.index.wrapping_add(1) % modulo;
            *signal = *signal | DRAW;
        } else if *signal & ROTATED_COUNTER_CLOCKWISE != 0 {
            let previous: u16 = (self.index as u16 + modulo as u16 - 1) % (modulo as u16);
            self.index = previous as u8;
            *signal = *signal | DRAW;
        }
    }

    /// The label of the current entry, or the text that says there is none.
    pub fn label(&self) -> (r: Vec<u8>)
        requires
            self.wf(),
        ensures
            r@ == label_spec(self.index, optional_view(self.selections)),
    {
        match &self.selections {
            Some(s) => {
                if (self.index as usize) < s.len() {
                    let l = s[self.index as usize].0.clone();
                    assert(l@ =~= s@[self.index as int].0@);
                    return l;
                }
            },
            None => {},
        }
        no_selections()
    }

    /// Answers the releases: the encoder button confirms the entries, the
    /// other button cancels; each asks for a draw. The release bits are left
    /// as they are.
    pub fn answer(&self, signal: &mut EventBits) -> (r: Vec<SelectAnswer>)
        requires
            self.wf(),
        ensures
            r@.len() == (if raised(*old(signal), ENCODER_BUTTON_RELEASED) { 1int } else { 0 })
                + (if raised(*old(signal), BUTTON_RELEASED) { 1int } else { 0 }),
            raised(*old(signal), ENCODER_BUTTON_RELEASED) ==> match optional_view(self.selections) {
                Some(s) => (r@[0] matches SelectAnswer::Confirmed(c) && selections_view(c@) == s),
                None => r@[0] is Cancelled,
            },
            raised(*old(signal), BUTTON_RELEASED) ==> r@[r@.len() - 1] is Cancelled,
            *final(signal) == if raised(*old(signal), ENCODER_BUTTON_RELEASED) || raised(*old(signal), BUTTON_RELEASED) {
                *old(signal) | DRAW
            } else {
                *old(signal)
            },
    {
        let mut answers: Vec<SelectAnswer> = Vec::new();
        let start: EventBits = *signal;
        let enc = *signal & ENCODER_BUTTON_RELEASED != 0;
        let btn = *signal & BUTTON_RELEASED != 0;
        if enc {
            match &self.selections {
                Some(s) => {
                    let c = copy_selections(s);
                    answers.push(SelectAnswer::Confirmed(c));
                },
                None => {
                    answers.push(SelectAnswer::Cancelled);
                },
            }
            *signal = *signal | DRAW;
        }
        if btn {
            answers.push(SelectAnswer::Cancelled);
            *signal = *signal | DRAW;
        }
        proof {
            if enc && btn {
                let now_bits: EventBits = *signal;
                assert(now_bits == start | DRAW) by (bit_vector)
                    requires now_bits == (start | DRAW) | DRAW;
            }
        }
        answers
    }

    /// One turn of the choice on screen: starts it if needed (`open`),
    /// applies the turns (`update_select`), then gives the label of the
    /// current entry and the answers to the releases (`answer`).
    pub fn draw(&mut self, signal: &mut EventBits, param: &Option<Vec<Selection>>) -> (r: SelectFrame)
        requires
            old(self).wf(),
            param matches Some(p) ==> p@.len() == N,
        ensures
            final(self).wf(),
            ({
                let sel = opened_selections(optional_view(old(self).selections), optional_view(*param), N as nat);
                let start = if old(self).selections is Some {
                    old(self).index
                } else if param is Some {
                    first_selected(sel) as u8
                } else {
                    0u8
                };
                let (index, s1) = turned(start, *old(signal), N as u8);
                &&& optional_view(final(self).selections) == Some(sel)
                &&& final(self).index == index
                &&& r.label@ == label_spec(index, Some(sel))
                &&& r.answers@.len() == (if raised(s1, ENCODER_BUTTON_RELEASED) { 1int } else { 0 })
                        + (if raised(s1, BUTTON_RELEASED) { 1int } else { 0 })
                &&& raised(s1, ENCODER_BUTTON_RELEASED)
                        ==> (r.answers@[0] matches SelectAnswer::Confirmed(c) && selections_view(c@) == sel)
                &&& raised(s1, BUTTON_RELEASED) ==> r.answers@[r.answers@.len() - 1] is Cancelled
                &&& *final(signal) == if raised(s1, ENCODER_BUTTON_RELEASED) || raised(s1, BUTTON_RELEASED) {
                        s1 | DRAW
                    } else {
                        s1
                    }
            }),
    {
        self.open(param);
        self.update_select(signal);
        let label = self.label();
        let answers = self.answer(signal);
        SelectFrame { label, answers }
    }

    /// The entries.
    pub fn get_value(&self) -> (r: Option<Vec<Selection>>)
        ensures
            match r {
                Some(c) => self.selections matches Some(s) && selections_view(c@) == selections_view(s@),
                None => self.selections is None,
            },
    {
        match &self.selections {
            Some(s) => Some(copy_selections(s)),
            None => None,
        }
    }
}

/// A copy of the entries.
pub fn copy_selections(s: &Vec<Selection>) -> (r: Vec<Selection>)
    ensures
        selections_view(r@) == selections_view(s@),
{
    let mut out: Vec<Selection> = Vec::new();
    let mut i: usize = 0;
    while i < s.len()
        invariant
            0 <= i <= s@.len(),
            selections_view(out@) =~= selections_view(s@).take(i as int),
        decreases s.len() - i,
    {
        let label = s[i].0.clone();
        assert(label@ =~= s@[i as int].0@);
        let ghost before = out@;
        let entry = (label, s[i].1);
        proof { lemma_view_push(before, entry); }
        out.push(entry);
        i = i + 1;
        assert(selections_view(out@) =~= selections_view(s@).take(i as int));
    }
    assert(selections_view(s@).take(i as int) =~= selections_view(s@));
    out
}

/// The text that says there is no entry to show.
pub fn no_selections() -> (r: Vec<u8>)
    ensures
        r@ == no_selections_text(),
{
    crate::text_format::ascii_bytes("No selections available")
}

/// Turning the encoder keeps the current entry among the entries.
pub proof fn lemma_turned_index_in_range(index: u8, clockwise: bool, modulo: u8)
    requires
        modulo >= 1,
    ensures
        turned_index(index, clockwise, modulo) < modulo,
{
}

} // verus!
