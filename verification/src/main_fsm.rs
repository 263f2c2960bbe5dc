//! The main state machine of the controller. At start-up it walks through
//! the stages that wire the tasks together, waits for a configuration with a
//! serial number, then stays `Ready` and keeps a heartbeat timer. Each stage
//! is published in the status event group: the bits of the stage left are
//! lowered and those of the stage entered are raised.
use vstd::prelude::*;
use crate::signals::{EventBits, StatusFlag, status_bits};

verus! {

/// Milliseconds between two heartbeat reports.
pub const MILLIS_PER_MINUTE: u32 = 60_000;

/// What the task loop has to do on the machine's behalf after a step.
#[derive(Clone, Copy, PartialEq, Eq, Debug, Structural)]
pub enum MainAction {
    /// Nothing beyond the state change.
    Idle,
    /// Hand the serial port to the command parser.
    WireParser,
    /// Hand the buttons and the encoder to the display.
    WireDisplay,
    /// Give the wifi task its clock and its status callback.
    WireWifi,
    /// Report the time and the free heap.
    Heartbeat,
}

/// The stages the machine can be in; the others make it stop.
pub open spec fn is_stage(s: StatusFlag) -> bool {
    match s {
        StatusFlag::Empty | StatusFlag::Startup | StatusFlag::EnableSystemHandler
        | StatusFlag::EnableSession | StatusFlag::EnableParser | StatusFlag::EnableDisplay
        | StatusFlag::CheckConfig | StatusFlag::EnableWifi | StatusFlag::Ready => true,
        _ => false,
    }
}

/// The stage after `s`, given whether the configuration has no serial number
/// yet (the machine waits in `CheckConfig` until it has one).
pub open spec fn next_stage(s: StatusFlag, serial_empty: bool) -> StatusFlag {
    match s {
        StatusFlag::Empty => StatusFlag::Startup,
        StatusFlag::Startup => StatusFlag::EnableSystemHandler,
        StatusFlag::EnableSystemHandler => StatusFlag::EnableSession,
        StatusFlag::EnableSession => StatusFlag::EnableParser,
        StatusFlag::EnableParser => StatusFlag::EnableDisplay,
        StatusFlag::EnableDisplay => StatusFlag::CheckConfig,
        StatusFlag::CheckConfig => if serial_empty { StatusFlag::CheckConfig } else { StatusFlag::EnableWifi },
        _ => StatusFlag::Ready,
    }
}

/// The status bits after leaving `from` for `to`.
pub open spec fn switched_bits(status: EventBits, from: StatusFlag, to: StatusFlag) -> EventBits {
    (status & !status_bits(from)) | status_bits(to)
}

/// The action that goes with a step from stage `s`.
pub open spec fn stage_action(s: StatusFlag, wifi_enabled: bool, timer: u32) -> MainAction {
    match s {
        StatusFlag::EnableParser => MainAction::WireParser,
        StatusFlag::EnableDisplay => MainAction::WireDisplay,
        StatusFlag::EnableWifi => if wifi_enabled { MainAction::WireWifi } else { MainAction::Idle },
        StatusFlag::Ready => if timer >= MILLIS_PER_MINUTE { MainAction::Heartbeat } else { MainAction::Idle },
        _ => MainAction::Idle,
    }
}

/// The heartbeat timer after a tick in `Ready`: it restarts once it has
/// reached a minute, otherwise it grows by ten times the seconds elapsed
/// since the machine started (wrapping as the atomic counter does).
pub open spec fn next_timer(timer: u32, elapsed: u32, started_at: u32) -> u32 {
    if timer >= MILLIS_PER_MINUTE {
        0
    } else {
        ((timer + (elapsed - started_at) * 10) % 0x1_0000_0000) as u32
    }
}

/// The main state machine.
#[derive(Debug)]
pub struct MainFsm {
    /// The stage the machine is in.
    pub current: StatusFlag,
    /// The stage it was in before.
    pub previous: StatusFlag,
    /// Heartbeat timer.
    pub timer: u32,
    /// Clock reading, in seconds past the clock's minimum date, when the
    /// machine started.
    pub started_at: u32,
}

impl MainFsm {
    /// A machine that has not started, with the clock reading at start.
    pub fn new(started_at: u32) -> (r: MainFsm)
        ensures
            r.current == StatusFlag::Empty,
            r.previous == StatusFlag::Empty,
            r.timer == 0,
            r.started_at == started_at,
    {
        MainFsm { current: StatusFlag::Empty, previous: StatusFlag::Empty, timer: 0, started_at }
    }

    /// Moves to `to`, lowering the bits of the stage left and raising those
    /// of the stage entered.
    pub fn switch_to(&mut self, status: &mut EventBits, to: StatusFlag)
        ensures
            final(self).current == to,
            final(self).previous == old(self).current,
            final(self).timer == old(self).timer,
            final(self).started_at == old(self).started_at,
            *final(status) == switched_bits(*old(status), old(self).current, to),
    {
        *status = *status & !self.current.bits();
        self.previous = self.current;
        self.current = to;
        *status = *status | to.bits();
    }

    /// In `CheckConfig`: moves on to `EnableWifi` once the configuration has
    /// a serial number, else stays where it is.
    pub fn check_config(&mut self, status: &mut EventBits, serial_empty: bool)
        ensures
            serial_empty ==> *final(self) == *old(self) && *final(status) == *old(status),
            !serial_empty ==> final(self).current == StatusFlag::EnableWifi
                && final(self).previous == old(self).current
                && final(self).timer == old(self).timer
                && final(self).started_at == old(self).started_at
                && *final(status) == switched_bits(*old(status), old(self).current, StatusFlag::EnableWifi),
    {
        if !serial_empty {
            self.switch_to(status, StatusFlag::EnableWifi);
        }
    }

    /// One turn of the task loop. `serial_empty` and `wifi_enabled` are read
    /// from the configuration; `elapsed` is the clock reading, in seconds
    /// past the clock's minimum date. The machine stops (it has no step) in
    /// `Error`, `Reset` and the flags that are not stages.
    pub fn step(&mut self, status: &mut EventBits, serial_empty: bool, wifi_enabled: bool, elapsed: u32) -> (r: MainAction)
        requires
            is_stage(old(self).current),
            old(self).current == StatusFlag::Ready ==> old(self).started_at <= elapsed,
            old(self).current == StatusFlag::Ready && old(self).timer < MILLIS_PER_MINUTE
                ==> (elapsed - old(self).started_at) * 10 <= u32::MAX,
        ensures
            r == stage_action(old(self).current, wifi_enabled, old(self).timer),
            final(self).started_at == old(self).started_at,
            final(self).current == next_stage(old(self).current, serial_empty),
            is_stage(final(self).current),
            old(self).current == StatusFlag::Ready ==> {
                &&& final(self).previous == old(self).previous
                &&& final(self).timer == next_timer(old(self).timer, elapsed, old(self).started_at)
                &&& *final(status) == *old(status) | status_bits(StatusFlag::Ready)
            },
            old(self).current == StatusFlag::CheckConfig && serial_empty ==> {
                &&& final(self).previous == old(self).previous
                &&& final(self).timer == old(self).timer
                &&& *final(status) == *old(status)
            },
            old(self).current != StatusFlag::Ready && !(old(self).current == StatusFlag::CheckConfig && serial_empty) ==> {
                &&& final(self).previous == old(self).current
                &&& final(self).timer == old(self).timer
                &&& *final(status) == switched_bits(*old(status), old(self).current, final(self).current)
            },
    {
        match self.current {
            StatusFlag::Empty => {
                self.switch_to(status, StatusFlag::Startup);
                MainAction::Idle
            },
            StatusFlag::Startup => {
                self.switch_to(status, StatusFlag::EnableSystemHandler);
                MainAction::Idle
            },
            StatusFlag::EnableSystemHandler => {
                self.switch_to(status, StatusFlag::EnableSession);
                MainAction::Idle
            },
            StatusFlag::EnableSession => {
                self.switch_to(status, StatusFlag::EnableParser);
                MainAction::Idle
            },
            StatusFlag::EnableParser => {
                self.switch_to(status, StatusFlag::EnableDisplay);
                MainAction::WireParser
            },
            StatusFlag::EnableDisplay => {
                self.switch_to(status, StatusFlag::CheckConfig);
                MainAction::WireDisplay
            },
            StatusFlag::CheckConfig => {
                self.check_config(status, serial_empty);
                MainAction::Idle
            },
            StatusFlag::EnableWifi => {
                self.switch_to(status, StatusFlag::Ready);
                if wifi_enabled { MainAction::WireWifi } else { MainAction::Idle }
            },
            _ => {
                let action = if self.timer >= MILLIS_PER_MINUTE {
                    self.timer = 0;
                    MainAction::Heartbeat
                } else {
                    let delta: u32 = elapsed - self.started_at;
                    self.timer = self.timer.wrapping_add(delta * 10);
                    MainAction::Idle
                };
                *status = *status | StatusFlag::Ready.bits();
                action
            },
        }
    }
}

/// Position of a stage on the way to `Ready`.
pub open spec fn stage_rank(s: StatusFlag) -> nat {
    match s {
        StatusFlag::Empty => 0,
        StatusFlag::Startup => 1,
        StatusFlag::EnableSystemHandler => 2,
        StatusFlag::EnableSession => 3,
        StatusFlag::EnableParser => 4,
        StatusFlag::EnableDisplay => 5,
        StatusFlag::CheckConfig => 6,
        StatusFlag::EnableWifi => 7,
        _ => 8,
    }
}

/// Once the configuration has a serial number, every step moves the machine
/// one stage closer to `Ready`, and `Ready` is kept for good; without one,
/// the machine never passes `CheckConfig`.
pub proof fn lemma_stages_lead_to_ready(s: StatusFlag, serial_empty: bool)
    requires
        is_stage(s),
    ensures
        is_stage(next_stage(s, serial_empty)),
        !serial_empty && s != StatusFlag::Ready ==> stage_rank(next_stage(s, serial_empty)) == stage_rank(s) + 1,
        s == StatusFlag::Ready ==> next_stage(s, serial_empty) == StatusFlag::Ready,
        serial_empty && stage_rank(s) <= 6 ==> stage_rank(next_stage(s, serial_empty)) <= 6,
        stage_rank(next_stage(s, serial_empty)) == 8 <==> next_stage(s, serial_empty) == StatusFlag::Ready,
{
}

/// After a change of stage the status bits show the stage entered and no
/// longer the stage left; the bits of other flags are kept.
pub proof fn lemma_switch_publishes_stage(status: EventBits, from: StatusFlag, to: StatusFlag)
    requires
        is_stage(from),
        is_stage(to),
        from != to,
    ensures
        switched_bits(status, from, to) & status_bits(to) == status_bits(to),
        switched_bits(status, from, to) & status_bits(from) == 0,
        forall|b: u32| #![trigger switched_bits(status, from, to) & b]
            b & status_bits(from) == 0 && b & status_bits(to) == 0
                ==> switched_bits(status, from, to) & b == status & b,
{
    let f = status_bits(from);
    let t = status_bits(to);
    assert(f & t == 0) by (bit_vector)
        requires
            f == 0 || f == 1 || f == 2 || f == 4 || f == 8 || f == 0x10 || f == 0x20 || f == 0x40 || f == 0x80,
            t == 0 || t == 1 || t == 2 || t == 4 || t == 8 || t == 0x10 || t == 0x20 || t == 0x40 || t == 0x80,
            f != t;
    assert(((status & !f) | t) & t == t) by (bit_vector);
    assert(((status & !f) | t) & f == 0) by (bit_vector)
        requires f & t == 0;
    assert forall|b: u32| b & f == 0 && b & t == 0 implies #[trigger] (((status & !f) | t) & b) == status & b by {
        assert(b & f == 0 && b & t == 0 ==> ((status & !f) | t) & b == status & b) by (bit_vector);
    }
}

} // verus!
