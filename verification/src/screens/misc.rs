//! The small screens: daylight saving time, information, and the screen
//! shown while the controller has no configuration.
use vstd::prelude::*;
use crate::signals::EventBits;
use crate::display::check::{Check, CheckAnswer};
use crate::screens::nav::{Answer, Effect, Frame, Nav, ScreenId, ScreenTurn, text_answer};
use crate::text_format::{capped, append_capped, ascii_bytes};
use crate::display::commons::MAX_SIZE;

verus! {

/// The daylight saving time screen: a check box; confirming it stores the
/// state chosen.
#[derive(Debug)]
pub struct ScreenDaylightSavingTime {
    pub enable_dst: Check,
}

/// What a turn of the daylight saving time screen gives (see
/// `ScreenDaylightSavingTime::draw`).
pub open spec fn dst_turn(r: ScreenTurn) -> bool {
    r.frame matches Frame::Check(f) && {
        &&& f.answers@.len() == 0 ==> r.nav == Nav::Stay && r.effect == Effect::Nothing
        &&& f.answers@.len() > 0 ==> r.nav == Nav::Pop && match f.answers@[0] {
                CheckAnswer::Confirmed(b) => r.effect == Effect::SaveDst(b),
                CheckAnswer::Cancelled => r.effect == Effect::Nothing,
            }
    }
}

impl ScreenDaylightSavingTime {
    /// The screen with its check box not shown yet.
    pub fn new() -> (r: ScreenDaylightSavingTime)
        ensures
            r.enable_dst.checked is None,
            !r.enable_dst.icon_on,
    {
        ScreenDaylightSavingTime { enable_dst: Check::new() }
    }

    /// The screen's identity.
    pub fn id(&self) -> (r: ScreenId)
        ensures
            r == ScreenId::DaylightSavingTime,
    {
        ScreenId::DaylightSavingTime
    }

    /// One turn of the screen, with whether daylight saving time is enabled:
    /// the check box starts from that state; confirmed, the state chosen is
    /// stored and the screen closed; left, the screen is closed.
    pub fn draw(&mut self, display_signal: &mut EventBits, dst_enabled: bool) -> (r: ScreenTurn)
        ensures
            dst_turn(r),
    {
        let f = self.enable_dst.draw(display_signal, Some(dst_enabled));
        let (nav, effect) = if f.answers.len() == 0 {
            (Nav::Stay, Effect::Nothing)
        } else {
            match f.answers[0] {
                CheckAnswer::Confirmed(b) => (Nav::Pop, Effect::SaveDst(b)),
                CheckAnswer::Cancelled => (Nav::Pop, Effect::Nothing),
            }
        };
        ScreenTurn { title: "Enable DST?", frame: Frame::Check(f), nav, effect }
    }
}

/// The information text: the IP address when the wifi is enabled (cut to
/// the capacity of a display text), otherwise that the wifi is disabled.
pub open spec fn info_text(wifi_enabled: bool, ip: Seq<u8>) -> Seq<u8> {
    if wifi_enabled {
        capped("Ip Address|"@.map_values(|c: char| c as u8) + ip, MAX_SIZE as nat)
    } else {
        "Wifi: Disabled"@.map_values(|c: char| c as u8)
    }
}

/// The information screen.
#[derive(Debug)]
pub struct ScreenInfo {}

impl ScreenInfo {
    /// The screen.
    pub fn new() -> (r: ScreenInfo) {
        ScreenInfo {}
    }

    /// The screen's identity.
    pub fn id(&self) -> (r: ScreenId)
        ensures
            r == ScreenId::Info,
    {
        ScreenId::Info
    }

    /// Whether the screen is shown only to a logged-in user: it is not.
    pub fn requires_auth(&self) -> (r: bool)
        ensures
            !r,
    {
        false
    }

    /// One turn of the screen, with whether the wifi is enabled and the IP
    /// address: shows `info_text`; any button closes the screen.
    pub fn draw(&self, display_signal: &mut EventBits, wifi_enabled: bool, ip: &Vec<u8>) -> (r: ScreenTurn)
        ensures
            r.frame matches Frame::Text(t) && t@ == info_text(wifi_enabled, ip@),
            r.nav == if text_answer_is_pending(*old(display_signal)) { Nav::Stay } else { Nav::Pop },
            r.effect == Effect::Nothing,
            *final(display_signal) == *old(display_signal),
    {
        let text = if wifi_enabled {
            let mut t = ascii_bytes("Ip Address|");
            proof {
                reveal_strlit("Ip Address|");
            }
            append_capped(&mut t, ip.as_slice(), MAX_SIZE);
            t
        } else {
            ascii_bytes("Wifi: Disabled")
        };
        let nav = match text_answer(*display_signal) {
            Answer::Pending => Nav::Stay,
            _ => Nav::Pop,
        };
        ScreenTurn { title: "", frame: Frame::Text(text), nav, effect: Effect::Nothing }
    }
}

/// Whether a text's answer to `signal` is still pending: no release.
pub open spec fn text_answer_is_pending(signal: EventBits) -> bool {
    signal & crate::display::input::ENCODER_BUTTON_RELEASED == 0 && signal & crate::display::input::BUTTON_RELEASED == 0
}

/// The screen shown while the controller has no configuration.
#[derive(Debug)]
pub struct ScreenSetConfig {}

impl ScreenSetConfig {
    /// The screen.
    pub fn new() -> (r: ScreenSetConfig) {
        ScreenSetConfig {}
    }

    /// The screen's identity.
    pub fn id(&self) -> (r: ScreenId)
        ensures
            r == ScreenId::SetConfig,
    {
        ScreenId::SetConfig
    }
}

} // verus!
