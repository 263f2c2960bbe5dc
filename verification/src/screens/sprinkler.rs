//! The sprinkler screen: a read-only view of the schedules, then of the
//! zones the schedule picked waters.
use vstd::prelude::*;
use crate::signals::EventBits;
use crate::display::input::DRAW;
use crate::display::select::{Select, SelectAnswer, Selection, selections_view, lemma_view_push};
use crate::display::commons::MAX_SIZE;
use crate::screens::nav::{Answer, Effect, Frame, Nav, ScreenId, ScreenTurn, select_answer};
use crate::sprinkler::{ScheduleController, ScheduleView, ZoneRelay, SIZE, default_schedule_name, relay_name};
use crate::text_format::{capped, decimal_digits, push_decimal, append_capped, copy_bytes};

verus! {

/// The steps of the sprinkler screen.
#[derive(Clone, Copy, PartialEq, Eq, Debug, Structural)]
pub enum SprinklerState {
    Schedule,
    Zone,
}

/// The label of schedule `i`: its description, or `Schedule <i + 1>` when it
/// has none.
pub open spec fn schedule_label(i: nat, s: ScheduleView) -> Seq<u8> {
    capped(if s.description.len() == 0 { default_schedule_name(i + 1) } else { s.description }, MAX_SIZE as nat)
}

/// The entries of the schedule choice, the schedule `selected` selected.
pub open spec fn schedule_choices(ss: Seq<ScheduleView>, selected: int) -> Seq<(Seq<u8>, bool)> {
    Seq::new(SIZE as nat, |i: int| if i < ss.len() { (schedule_label(i as nat, ss[i]), i == selected) } else { (Seq::<u8>::empty(), false) })
}

/// The label of a zone entry: `<relay> <minutes> min`, or `Not set`.
pub open spec fn zone_label(z: Option<(ZoneRelay, u8)>) -> Seq<u8> {
    capped(
        match z {
            Some((relay, minutes)) => relay_name(relay) + seq![32u8] + decimal_digits(minutes as nat)
                + seq![32u8, 109u8, 105u8, 110u8],
            None => seq![78u8, 111u8, 116u8, 32u8, 115u8, 101u8, 116u8],
        },
        MAX_SIZE as nat,
    )
}

/// The entries of the zone choice for schedule `selected`: its zones, none
/// selected; blank entries past its zones.
pub open spec fn zone_choices(ss: Seq<ScheduleView>, selected: int) -> Seq<(Seq<u8>, bool)> {
    Seq::new(SIZE as nat, |k: int| if 0 <= selected < ss.len() && k < ss[selected].zones.len() {
        (zone_label(ss[selected].zones[k]), false)
    } else {
        (Seq::<u8>::empty(), false)
    })
}

/// Position of the first selected entry, or 0 when none is.
pub open spec fn selected_position(s: Seq<(Seq<u8>, bool)>) -> int {
    crate::display::select::first_selected(s)
}

/// The entries of the schedule choice (see `schedule_choices`).
pub fn schedule_selections(controller: &ScheduleController, selected: usize) -> (r: Vec<Selection>)
    ensures
        selections_view(r@) == schedule_choices(controller@, selected as int),
{
    let mut out: Vec<Selection> = Vec::new();
    let mut i: usize = 0;
    while i < SIZE
        invariant
            0 <= i <= SIZE,
            selections_view(out@) =~= schedule_choices(controller@, selected as int).take(i as int),
        decreases SIZE - i,
    {
        let entry: Selection = if i < controller.schedules.len() {
            let s = &controller.schedules[i];
            assert(s@ == controller@[i as int]);
            let text: Vec<u8> = if s.description.len() == 0 {
                let mut t: Vec<u8> = vec![83u8, 99u8, 104u8, 101u8, 100u8, 117u8, 108u8, 101u8, 32u8];
                push_decimal(&mut t, (i + 1) as u64);
                t
            } else {
                copy_bytes(&s.description)
            };
            let mut label: Vec<u8> = Vec::new();
            append_capped(&mut label, text.as_slice(), MAX_SIZE);
            assert(Seq::<u8>::empty() + text@ =~= text@);
            (label, i == selected)
        } else {
            (Vec::new(), false)
        };
        let ghost before = out@;
        proof { lemma_view_push(before, entry); }
        out.push(entry);
        i = i + 1;
        assert(selections_view(out@) =~= schedule_choices(controller@, selected as int).take(i as int));
    }
    assert(schedule_choices(controller@, selected as int).take(SIZE as int) =~= schedule_choices(controller@, selected as int));
    out
}

/// The entries of the zone choice (see `zone_choices`).
pub fn zone_selections(controller: &ScheduleController, selected: usize) -> (r: Vec<Selection>)
    ensures
        selections_view(r@) == zone_choices(controller@, selected as int),
{
    let mut out: Vec<Selection> = Vec::new();
    let mut k: usize = 0;
    while k < SIZE
        invariant
            0 <= k <= SIZE,
            selections_view(out@) =~= zone_choices(controller@, selected as int).take(k as int),
        decreases SIZE - k,
    {
        let mut entry: Selection = (Vec::new(), false);
        if selected < controller.schedules.len() {
            let s = &controller.schedules[selected];
            assert(s@ == controller@[selected as int]);
            if k < s.zones.len() {
                let mut text: Vec<u8> = Vec::new();
                match s.zones[k] {
                    Some((relay, minutes)) => {
                        relay.push_name(&mut text);
                        text.push(32u8);
                        push_decimal(&mut text, minutes as u64);
                        text.push(32u8);
                        text.push(109u8);
                        text.push(105u8);
                        text.push(110u8);
                    },
                    None => {
                        text = vec![78u8, 111u8, 116u8, 32u8, 115u8, 101u8, 116u8];
                    },
                }
                let ghost expected = match s@.zones[k as int] {
                    Some((relay, minutes)) => relay_name(relay) + seq![32u8] + decimal_digits(minutes as nat)
                        + seq![32u8, 109u8, 105u8, 110u8],
                    None => seq![78u8, 111u8, 116u8, 32u8, 115u8, 101u8, 116u8],
                };
                assert(text@ =~= expected);
                let mut label: Vec<u8> = Vec::new();
                append_capped(&mut label, text.as_slice(), MAX_SIZE);
                assert(Seq::<u8>::empty() + text@ =~= text@);
                entry = (label, false);
            }
        }
        let ghost before = out@;
        proof { lemma_view_push(before, entry); }
        out.push(entry);
        k = k + 1;
        assert(selections_view(out@) =~= zone_choices(controller@, selected as int).take(k as int));
    }
    assert(zone_choices(controller@, selected as int).take(SIZE as int) =~= zone_choices(controller@, selected as int));
    out
}

/// The sprinkler screen.
#[derive(Debug)]
pub struct ScreenSprinkler {
    pub fsm_state: SprinklerState,
    pub selected_schedule: usize,
    pub schedule: Select<4>,
    pub zone: Select<4>,
}

/// What a turn of the sprinkler screen shows and where it leads, from the
/// screen before the turn and after it (see `ScreenSprinkler::draw`).
pub open spec fn sprinkler_turn(before: ScreenSprinkler, after: ScreenSprinkler, r: ScreenTurn) -> bool {
    r.frame matches Frame::Select(f) && {
        let a = if f.answers@.len() == 0 { Answer::Pending } else if f.answers@[0] is Confirmed { Answer::Confirmed } else { Answer::Cancelled };
        match before.fsm_state {
            SprinklerState::Schedule => {
                &&& r.nav == if a == Answer::Cancelled { Nav::Pop } else { Nav::Stay }
                &&& a == Answer::Confirmed ==> {
                        &&& after.fsm_state == SprinklerState::Zone
                        &&& after.zone.selections is None
                        &&& (f.answers@[0] matches SelectAnswer::Confirmed(c)
                            && after.selected_schedule == selected_position(selections_view(c@)))
                    }
                &&& a != Answer::Confirmed ==> after.fsm_state == SprinklerState::Schedule
                        && after.selected_schedule == before.selected_schedule
            },
            SprinklerState::Zone => {
                &&& r.nav == Nav::Stay
                &&& after.selected_schedule == before.selected_schedule
                &&& a != Answer::Pending ==> after.fsm_state == SprinklerState::Schedule
                        && after.schedule.selections is None
                &&& a == Answer::Pending ==> after.fsm_state == SprinklerState::Zone
            },
        }
    }
}

impl ScreenSprinkler {
    /// The choices are well formed.
    pub open spec fn wf(&self) -> bool {
        self.schedule.wf() && self.zone.wf()
    }

    /// The screen on the schedule list, the first schedule picked.
    pub fn new() -> (r: ScreenSprinkler)
        ensures
            r.wf(),
            r.fsm_state == SprinklerState::Schedule,
            r.selected_schedule == 0,
    {
        ScreenSprinkler { fsm_state: SprinklerState::Schedule, selected_schedule: 0, schedule: Select::new(), zone: Select::new() }
    }

    /// The screen's identity.
    pub fn id(&self) -> (r: ScreenId)
        ensures
            r == ScreenId::Sprinkler,
    {
        ScreenId::Sprinkler
    }

    /// One turn of the screen with the schedules of `controller`:
    /// - schedule step: the schedule choice, the schedule picked last
    ///   selected; confirmed, the selected schedule is picked, the zone choice
    ///   starts afresh and the zones are shown; left, the screen is closed;
    /// - zone step: the zone choice of the schedule picked; any button goes
    ///   back to a fresh schedule choice.
    pub fn draw(&mut self, display_signal: &mut EventBits, controller: &ScheduleController) -> (r: ScreenTurn)
        requires
            old(self).wf(),
        ensures
            final(self).wf(),
            r.effect == Effect::Nothing,
            sprinkler_turn(*old(self), *final(self), r),
    {
        match self.fsm_state {
            SprinklerState::Schedule => {
                let choices = schedule_selections(controller, self.selected_schedule);
                assert(selections_view(choices@).len() == choices@.len());
                let f = self.schedule.draw(display_signal, &Some(choices));
                let a = select_answer(&f.answers);
                let nav = match a {
                    Answer::Pending => Nav::Stay,
                    Answer::Confirmed => {
                        match &f.answers[0] {
                            SelectAnswer::Confirmed(c) => {
                                self.selected_schedule = first_selected_index(c);
                            },
                            SelectAnswer::Cancelled => {},
                        }
                        self.zone = Select::new();
                        self.fsm_state = SprinklerState::Zone;
                        *display_signal = *display_signal | DRAW;
                        Nav::Stay
                    },
                    Answer::Cancelled => Nav::Pop,
                };
                ScreenTurn { title: "Schedules", frame: Frame::Select(f), nav, effect: Effect::Nothing }
            },
            SprinklerState::Zone => {
                let choices = zone_selections(controller, self.selected_schedule);
                assert(selections_view(choices@).len() == choices@.len());
                let f = self.zone.draw(display_signal, &Some(choices));
                let a = select_answer(&f.answers);
                match a {
                    Answer::Pending => {},
                    _ => {
                        self.schedule = Select::new();
                        self.fsm_state = SprinklerState::Schedule;
                        *display_signal = *display_signal | DRAW;
                    },
                }
                ScreenTurn { title: "Zones", frame: Frame::Select(f), nav: Nav::Stay, effect: Effect::Nothing }
            },
        }
    }
}

/// Position of the first selected entry, or 0 when none is.
pub fn first_selected_index(s: &Vec<Selection>) -> (r: usize)
    ensures
        r == selected_position(selections_view(s@)),
{
    let ghost sv = selections_view(s@);
    let mut i: usize = 0;
    while i < s.len()
        invariant
            0 <= i <= s@.len(),
            sv == selections_view(s@),
            forall|j: int| 0 <= j < i ==> !#[trigger] sv[j].1,
        decreases s.len() - i,
    {
        if s[i].1 {
            assert(sv[i as int].1);
            proof {
                let c = choose|k: int| 0 <= k < sv.len() && #[trigger] sv[k].1 && forall|j: int| 0 <= j < k ==> !#[trigger] sv[j].1;
                assert(0 <= c < sv.len() && sv[c].1 && forall|j: int| 0 <= j < c ==> !#[trigger] sv[j].1);
                if c < i {
                    assert(!sv[c].1);
                }
                if i < c {
                    assert(!sv[i as int].1);
                }
            }
            return i;
        }
        i = i + 1;
    }
    assert(!exists|j: int| 0 <= j < sv.len() && #[trigger] sv[j].1);
    0
}

} // verus!
