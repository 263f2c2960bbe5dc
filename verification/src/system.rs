//! The status LED, the `AT+SYS` command and the wifi task's decisions.
use vstd::prelude::*;
use crate::signals::{EventBits, StatusFlag, status_bits};
use crate::sprinkler::{CommandError, RESPONSE_MAX};
use crate::command_args::{command_arg, at_argument, bytes_eq};
use crate::text_format::{capped, decimal_digits, push_decimal, append_capped};
use crate::display::header::{RssiStatus, rssi_code};

verus! {

/// A colour of the RGB LED.
#[derive(Clone, Copy, PartialEq, Eq, Debug, Structural)]
pub struct Color {
    pub r: u8,
    pub g: u8,
    pub b: u8,
}

/// Half a period of the blinking, in milliseconds.
pub const BLINK_INTERVAL_MS: u16 = 500;
/// Period of the LED task, in milliseconds.
pub const LED_TICK_INTERVAL_MS: u16 = 100;

/// Red.
pub open spec fn red() -> Color { Color { r: 255, g: 0, b: 0 } }
/// Orange.
pub open spec fn orange() -> Color { Color { r: 255, g: 165, b: 0 } }
/// Green.
pub open spec fn green() -> Color { Color { r: 0, g: 255, b: 0 } }
/// Off.
pub open spec fn off() -> Color { Color { r: 0, g: 0, b: 0 } }

/// The colour of the LED for the status bits at time `timer`: orange
/// blinking while the status is at most the wifi stage, green once ready,
/// red blinking on error, off otherwise.
pub open spec fn led_color_spec(status: EventBits, timer: u16) -> Color {
    let lit = (timer as int) % 1000 < 500;
    if status <= status_bits(StatusFlag::EnableWifi) {
        if lit { orange() } else { off() }
    } else if status & status_bits(StatusFlag::Ready) == status_bits(StatusFlag::Ready) {
        green()
    } else if status & status_bits(StatusFlag::Error) == status_bits(StatusFlag::Error) {
        if lit { red() } else { off() }
    } else {
        off()
    }
}

/// The colour of the LED (see `led_color_spec`).
pub fn led_color(status: EventBits, timer: u16) -> (r: Color)
    ensures
        r == led_color_spec(status, timer),
{
    let lit = timer % (BLINK_INTERVAL_MS * 2) < BLINK_INTERVAL_MS;
    if status <= StatusFlag::EnableWifi.bits() {
        if lit { Color { r: 255, g: 165, b: 0 } } else { Color { r: 0, g: 0, b: 0 } }
    } else if status & StatusFlag::Ready.bits() == StatusFlag::Ready.bits() {
        Color { r: 0, g: 255, b: 0 }
    } else if status & StatusFlag::Error.bits() == StatusFlag::Error.bits() {
        if lit { Color { r: 255, g: 0, b: 0 } } else { Color { r: 0, g: 0, b: 0 } }
    } else {
        Color { r: 0, g: 0, b: 0 }
    }
}

/// The LED timer after one period of the LED task (it wraps around).
pub fn led_tick(timer: u16) -> (r: u16)
    ensures
        r == ((timer + LED_TICK_INTERVAL_MS) % 0x1_0000) as u16,
{
    timer.wrapping_add(LED_TICK_INTERVAL_MS)
}

/// The status LED task.
#[derive(Debug)]
pub struct SystemLed {
    /// Milliseconds counted by the task (wrapping).
    pub timer: u16,
}

impl SystemLed {
    /// The task before its first period.
    pub fn new() -> (r: SystemLed)
        ensures
            r.timer == 0,
    {
        SystemLed { timer: 0 }
    }

    /// One period of the task: the colour to show for the status bits (see
    /// `led_color_spec`), then the timer advances by one period.
    pub fn turn(&mut self, status: EventBits) -> (r: Color)
        ensures
            r == led_color_spec(status, old(self).timer),
            final(self).timer == ((old(self).timer + LED_TICK_INTERVAL_MS) % 0x1_0000) as u16,
    {
        let c = led_color(status, self.timer);
        self.timer = led_tick(self.timer);
        c
    }
}

/// What `AT+SYS=` asks for.
#[derive(Clone, Copy, PartialEq, Eq, Debug, Structural)]
pub enum SystemAction {
    /// `rs`: restart the controller.
    Reset,
    /// `fr`: clear the file system, then restart.
    FactoryReset,
}

/// The system command handler.
#[derive(Debug)]
pub struct SystemHandler {}

/// The text `rs`.
pub open spec fn word_reset() -> Seq<u8> { seq![114u8, 115u8] }
/// The text `fr`.
pub open spec fn word_factory_reset() -> Seq<u8> { seq![102u8, 114u8] }

/// The answer to `AT+SYS?`: the hardware error, error and status bits in
/// decimal, separated by commas.
pub open spec fn system_query_text(hardware: u32, errors: u32, status: u32) -> Seq<u8> {
    capped(decimal_digits(hardware as nat) + seq![44u8] + decimal_digits(errors as nat) + seq![44u8]
        + decimal_digits(status as nat), RESPONSE_MAX as nat)
}

impl SystemHandler {
    /// The handler.
    pub fn get() -> (r: SystemHandler) {
        SystemHandler {}
    }

    /// `AT+SYS?` (see `system_query_text`).
    pub fn query(&self, hardware: u32, errors: u32, status: u32) -> (r: Vec<u8>)
        ensures
            r@ == system_query_text(hardware, errors, status),
    {
        let mut text: Vec<u8> = Vec::new();
        push_decimal(&mut text, hardware as u64);
        text.push(44u8);
        push_decimal(&mut text, errors as u64);
        text.push(44u8);
        push_decimal(&mut text, status as u64);
        let mut out: Vec<u8> = Vec::new();
        append_capped(&mut out, text.as_slice(), RESPONSE_MAX);
        assert(Seq::<u8>::empty() + text@ =~= text@);
        out
    }

    /// `AT+SYS=?`: the forms the command takes.
    pub fn test(&self) -> (r: &'static str)
        ensures
            r@ == "<rs|fr|hwe|e|s>"@,
    {
        "<rs|fr|hwe|e|s>"
    }

    /// `AT+SYS=<cmd>`: needs a logged-in user; `rs` restarts, `fr` clears the
    /// file system and restarts; anything else is refused.
    pub fn set(&self, raw: &str, status: EventBits) -> (r: Result<SystemAction, CommandError>)
        ensures
            status & status_bits(StatusFlag::UserLogged) == 0 ==> r == Err::<SystemAction, CommandError>(CommandError::NotLogged),
            status & status_bits(StatusFlag::UserLogged) != 0 ==> r == match at_argument(raw@, 0) {
                Some(a) => if a == word_reset() {
                    Ok(SystemAction::Reset)
                } else if a == word_factory_reset() {
                    Ok(SystemAction::FactoryReset)
                } else {
                    Err(CommandError::InvalidArgs)
                },
                None => Err(CommandError::InvalidArgs),
            },
    {
        if !StatusFlag::UserLogged.check_signal(status) {
            return Err(CommandError::NotLogged);
        }
        let rs: Vec<u8> = vec![114u8, 115u8];
        let fr: Vec<u8> = vec![102u8, 114u8];
        assert(rs@ =~= word_reset());
        assert(fr@ =~= word_factory_reset());
        match command_arg(raw, 0) {
            Some(a) => {
                if bytes_eq(&a, &rs) {
                    Ok(SystemAction::Reset)
                } else if bytes_eq(&a, &fr) {
                    Ok(SystemAction::FactoryReset)
                } else {
                    Err(CommandError::InvalidArgs)
                }
            },
            None => Err(CommandError::InvalidArgs),
        }
    }
}

/// States of the wifi connection.
#[derive(Clone, Copy, PartialEq, Eq, Debug, Structural)]
pub enum WifiStatus {
    Disabled,
    Enabled,
    Connecting,
    WaitForIp,
    Connected,
    Disconnected,
    Resetting,
    Error,
}

/// What the wifi task does on a change of connection state.
#[derive(Clone, Copy, PartialEq, Eq, Debug, Structural)]
pub enum WifiAction {
    /// Only report the new state.
    Report,
    /// Ask the time server for the time and set the clock.
    SyncTime,
}

/// What is done with the time server's answer.
#[derive(Clone, Copy, PartialEq, Eq, Debug, Structural)]
pub enum TimeSync {
    /// No time was received: nothing is done.
    Ignore,
    /// The clock is set to the time received.
    SetClock,
    /// The task has no clock: the time error is raised.
    NoClock,
}

/// The wifi task.
#[derive(Debug)]
pub struct Wifi {
    /// The connection state last reported.
    pub status: WifiStatus,
    /// Whether the task was given the clock.
    pub has_rtc: bool,
}

impl Wifi {
    /// The task before it is given the clock, the wifi disabled.
    pub fn shared() -> (r: Wifi)
        ensures
            r.status == WifiStatus::Disabled,
            !r.has_rtc,
    {
        Wifi { status: WifiStatus::Disabled, has_rtc: false }
    }

    /// The connection state last reported.
    pub fn get_status(&self) -> (r: WifiStatus)
        ensures
            r == self.status,
    {
        self.status
    }

    /// Gives the task the clock.
    pub fn set_rtc(&mut self)
        ensures
            final(self).has_rtc,
            final(self).status == old(self).status,
    {
        self.has_rtc = true;
    }

    /// A change of connection state: it is recorded; once connected the time
    /// is synchronised, otherwise the state is only reported.
    pub fn on_status_change(&mut self, status: WifiStatus) -> (r: WifiAction)
        ensures
            final(self).status == status,
            final(self).has_rtc == old(self).has_rtc,
            r == if status == WifiStatus::Connected { WifiAction::SyncTime } else { WifiAction::Report },
    {
        self.status = status;
        if status == WifiStatus::Connected { WifiAction::SyncTime } else { WifiAction::Report }
    }

    /// What is done with the time received from the time server (`0` when
    /// none was).
    pub fn on_time(&self, timestamp: i64) -> (r: TimeSync)
        ensures
            r == if timestamp <= 0 {
                TimeSync::Ignore
            } else if self.has_rtc {
                TimeSync::SetClock
            } else {
                TimeSync::NoClock
            },
    {
        if timestamp <= 0 {
            TimeSync::Ignore
        } else if self.has_rtc {
            TimeSync::SetClock
        } else {
            TimeSync::NoClock
        }
    }

    /// The display event bits that report a signal quality: its code
    /// shifted left by six bits.
    pub fn on_rssi_change(&self, rssi: RssiStatus) -> (r: EventBits)
        ensures
            r == (rssi_code(rssi) as u32) * 64,
    {
        let code: u32 = rssi.to_bits() as u32;
        assert(code << 6u32 == code * 64) by (bit_vector)
            requires code < 256;
        code << 6u32
    }
}

} // verus!
