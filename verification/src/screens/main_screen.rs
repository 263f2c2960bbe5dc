//! The first main screen: a rotation through the settings screens, where a
//! confirmation of the text shown selects one.
use vstd::prelude::*;
use crate::signals::EventBits;
use crate::display::input::{raised, DRAW, ROTATED_CLOCKWISE, ROTATED_COUNTER_CLOCKWISE};

verus! {

/// The entries of the rotation.
#[derive(Clone, Copy, PartialEq, Eq, Debug, Structural)]
pub enum FSMState {
    Info,
    DateTime,
    DaylightSavingTime,
    Wifi,
    User,
}

/// The number of an entry.
pub open spec fn state_number(s: FSMState) -> i8 {
    match s {
        FSMState::Info => 0,
        FSMState::DateTime => 1,
        FSMState::DaylightSavingTime => 2,
        FSMState::Wifi => 3,
        FSMState::User => 4,
    }
}

/// The entry with number `v`; `Info` for any other number.
pub open spec fn state_of_number(v: i8) -> FSMState {
    if v == 1 { FSMState::DateTime }
    else if v == 2 { FSMState::DaylightSavingTime }
    else if v == 3 { FSMState::Wifi }
    else if v == 4 { FSMState::User }
    else { FSMState::Info }
}

/// The following entry, the last one followed by the first.
pub open spec fn state_next(s: FSMState) -> FSMState {
    state_of_number(((state_number(s) + 1) % 5) as i8)
}

/// The preceding entry, the first one preceded by the last.
pub open spec fn state_previous(s: FSMState) -> FSMState {
    state_of_number(((state_number(s) + 4) % 5) as i8)
}

/// The label of an entry.
pub open spec fn state_label(s: FSMState) -> Seq<char> {
    match s {
        FSMState::Info => "Info"@,
        FSMState::DateTime => "Date Time"@,
        FSMState::DaylightSavingTime => "Daylight Saving Time"@,
        FSMState::Wifi => "Wifi"@,
        FSMState::User => "User"@,
    }
}

impl FSMState {
    /// The entry with number `v`; `Info` for any other number.
    pub fn from_i8(v: i8) -> (r: FSMState)
        ensures
            r == state_of_number(v),
    {
        match v {
            1 => FSMState::DateTime,
            2 => FSMState::DaylightSavingTime,
            3 => FSMState::Wifi,
            4 => FSMState::User,
            _ => FSMState::Info,
        }
    }

    /// The entry's number.
    pub fn to_i8(self) -> (r: i8)
        ensures
            r == state_number(self),
    {
        match self {
            FSMState::Info => 0,
            FSMState::DateTime => 1,
            FSMState::DaylightSavingTime => 2,
            FSMState::Wifi => 3,
            FSMState::User => 4,
        }
    }

    /// The entry's label.
    pub fn label(self) -> (r: &'static str)
        ensures
            r@ == state_label(self),
    {
        match self {
            FSMState::Info => "Info",
            FSMState::DateTime => "Date Time",
            FSMState::DaylightSavingTime => "Daylight Saving Time",
            FSMState::Wifi => "Wifi",
            FSMState::User => "User",
        }
    }
}

/// Reading an entry back from its number gives the same entry.
pub proof fn lemma_state_number_roundtrip(s: FSMState)
    ensures
        state_of_number(state_number(s)) == s,
        state_previous(state_next(s)) == s,
        state_next(state_previous(s)) == s,
{
}

/// The selection shared with the text's callback: the entry shown when the
/// text was drawn, and the entry confirmed (`-1` for none).
#[derive(Debug)]
pub struct SelectionLatch {
    pub selected: i8,
    pub pending: i8,
}

impl SelectionLatch {
    /// Nothing shown, nothing confirmed.
    pub fn new() -> (r: SelectionLatch)
        ensures
            r.selected == -1,
            r.pending == -1,
    {
        SelectionLatch { selected: -1, pending: -1 }
    }
}

/// The text's callback: a confirmation selects the entry shown.
pub fn select_callback(latch: &mut SelectionLatch, confirmed: bool)
    ensures
        final(latch).pending == old(latch).pending,
        final(latch).selected == if confirmed { old(latch).pending } else { old(latch).selected },
{
    if confirmed {
        latch.selected = latch.pending;
    }
}

/// The rotation screen.
#[derive(Debug)]
pub struct ScreenMain {
    pub fsm_state: FSMState,
    /// The number of the entry selected last, `-1` for none.
    pub value: i8,
}

impl ScreenMain {
    /// The screen on entry `fsm_state`, nothing selected.
    pub fn new(fsm_state: FSMState) -> (r: ScreenMain)
        ensures
            r.fsm_state == fsm_state,
            r.value == -1,
    {
        ScreenMain { fsm_state, value: -1 }
    }

    /// A turn of the encoder moves to the following or preceding entry and
    /// asks for a draw.
    pub fn update_input(&mut self, signal: &mut EventBits)
        ensures
            final(self).value == old(self).value,
            raised(*old(signal), ROTATED_CLOCKWISE) ==> final(self).fsm_state == state_next(old(self).fsm_state)
                && *final(signal) == *old(signal) | DRAW,
            !raised(*old(signal), ROTATED_CLOCKWISE) && raised(*old(signal), ROTATED_COUNTER_CLOCKWISE)
                ==> final(self).fsm_state == state_previous(old(self).fsm_state) && *final(signal) == *old(signal) | DRAW,
            !raised(*old(signal), ROTATED_CLOCKWISE) && !raised(*old(signal), ROTATED_COUNTER_CLOCKWISE)
                ==> final(self).fsm_state == old(self).fsm_state && *final(signal) == *old(signal),
    {
        if *signal & ROTATED_CLOCKWISE != 0 {
            self.fsm_state = match self.fsm_state {
                FSMState::Info => FSMState::DateTime,
                FSMState::DateTime => FSMState::DaylightSavingTime,
                FSMState::DaylightSavingTime => FSMState::Wifi,
                FSMState::Wifi => FSMState::User,
                FSMState::User => FSMState::Info,
            };
            *signal = *signal | DRAW;
        } else if *signal & ROTATED_COUNTER_CLOCKWISE != 0 {
            self.fsm_state = match self.fsm_state {
                FSMState::Info => FSMState::User,
                FSMState::DateTime => FSMState::Info,
                FSMState::DaylightSavingTime => FSMState::DateTime,
                FSMState::Wifi => FSMState::DaylightSavingTime,
                FSMState::User => FSMState::Wifi,
            };
            *signal = *signal | DRAW;
        }
    }

    /// One turn of the screen: applies the turns, shows the entry (it becomes
    /// the pending one), passes the text's callback (`confirmed`, when the
    /// text called it) to `select_callback`, then takes the selection if one
    /// was made. Answers whether one was (the text screen fails otherwise).
    pub fn draw(&mut self, signal: &mut EventBits, latch: &mut SelectionLatch, callback: Option<bool>) -> (r: bool)
        ensures
            ({
                let cw = raised(*old(signal), ROTATED_CLOCKWISE);
                let ccw = raised(*old(signal), ROTATED_COUNTER_CLOCKWISE);
                let state = if cw {
                    state_next(old(self).fsm_state)
                } else if ccw {
                    state_previous(old(self).fsm_state)
                } else {
                    old(self).fsm_state
                };
                let selected = if callback == Some(true) { state_number(state) } else { old(latch).selected };
                &&& final(self).fsm_state == state
                &&& *final(signal) == if cw || ccw { *old(signal) | DRAW } else { *old(signal) }
                &&& final(latch).pending == state_number(state)
                &&& r == (selected != -1)
                &&& final(self).value == if r { selected } else { old(self).value }
                &&& final(latch).selected == -1
            }),
    {
        self.update_input(signal);
        latch.pending = self.fsm_state.to_i8();
        match callback {
            Some(confirmed) => select_callback(latch, confirmed),
            None => {},
        }
        if latch.selected != -1 {
            self.value = latch.selected;
            latch.selected = -1;
            true
        } else {
            false
        }
    }

    /// The entry selected last, if any.
    pub fn get_selected_screen(&self) -> (r: Option<FSMState>)
        ensures
            r == if self.value != -1 { Some(state_of_number(self.value)) } else { None },
    {
        if self.value != -1 {
            Some(FSMState::from_i8(self.value))
        } else {
            None
        }
    }
}

} // verus!
