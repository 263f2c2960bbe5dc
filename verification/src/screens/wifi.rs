//! The wifi screen: whether the wifi is enabled, then the network name, the
//! password and the authentication; confirming the authentication stores
//! the settings.
use vstd::prelude::*;
use crate::signals::EventBits;
use crate::config::{Auth, WifiConfig, SSID_MAX, WIFI_PASSWORD_MAX};
use crate::display::check::Check;
use crate::display::input::{Input, DRAW};
use crate::display::select::{Select, optional_view, selections_view};
use crate::display::commons::MAX_SIZE;
use crate::screens::auth::{fill_auth_selections, selected_auth_from_selections, chosen_auth};
use crate::screens::nav::{Answer, Effect, Frame, Nav, ScreenId, ScreenTurn, check_answer, input_answer,
    input_answer_spec, select_answer};
use crate::text_format::capped;
use crate::session::capped_copy;

verus! {

/// The steps of the wifi screen.
#[derive(Clone, Copy, PartialEq, Eq, Debug, Structural)]
pub enum WifiState {
    Enable,
    Ssid,
    Passwd,
    AuthType,
}

/// The settings stored from the screen: with the wifi enabled, the name,
/// password and authentication entered; disabled, empty ones and `Open`.
pub open spec fn saved_settings(enabled: bool, ssid: Seq<u8>, passwd: Seq<u8>, auth: Auth) -> (Seq<u8>, Seq<u8>, Auth, bool) {
    if enabled {
        (capped(ssid, SSID_MAX as nat), capped(passwd, WIFI_PASSWORD_MAX as nat), auth, true)
    } else {
        (Seq::empty(), Seq::empty(), Auth::Open, false)
    }
}

/// The wifi screen.
#[derive(Debug)]
pub struct ScreenWifi {
    pub fsm_state: WifiState,
    pub enable: Check,
    pub ssid: Input,
    pub passwd: Input,
    pub auth: Select<6>,
}

/// What a turn of the wifi screen gives, from the screen and the stored
/// settings before the turn and after it (see `ScreenWifi::draw`).
pub open spec fn wifi_turn(before: ScreenWifi, after: ScreenWifi, config_before: WifiConfig, config_after: WifiConfig, r: ScreenTurn) -> bool {
    match before.fsm_state {
        WifiState::Enable => r.frame matches Frame::Check(f) && {
            let a = if f.answers@.len() == 0 { Answer::Pending } else if f.answers@[0] is Confirmed { Answer::Confirmed } else { Answer::Cancelled };
            &&& r.nav == if a == Answer::Cancelled { Nav::Pop } else { Nav::Stay }
            &&& after.fsm_state == if a == Answer::Confirmed { WifiState::Ssid } else { WifiState::Enable }
            &&& r.effect == Effect::Nothing
            &&& config_after == config_before
        },
        WifiState::Ssid => r.frame matches Frame::Input(f) && {
            let a = input_answer_spec(f.answer);
            &&& r.nav == Nav::Stay
            &&& after.fsm_state == match a {
                    Answer::Confirmed => WifiState::Passwd,
                    Answer::Cancelled => WifiState::Enable,
                    Answer::Pending => WifiState::Ssid,
                }
            &&& r.effect == Effect::Nothing
            &&& config_after == config_before
        },
        WifiState::Passwd => r.frame matches Frame::Input(f) && {
            let a = input_answer_spec(f.answer);
            &&& r.nav == Nav::Stay
            &&& after.fsm_state == match a {
                    Answer::Confirmed => WifiState::AuthType,
                    Answer::Cancelled => WifiState::Ssid,
                    Answer::Pending => WifiState::Passwd,
                }
            &&& r.effect == Effect::Nothing
            &&& config_after == config_before
        },
        WifiState::AuthType => r.frame matches Frame::Select(f) && {
            let a = if f.answers@.len() == 0 { Answer::Pending } else if f.answers@[0] is Confirmed { Answer::Confirmed } else { Answer::Cancelled };
            &&& a == Answer::Confirmed ==> {
                    &&& after.fsm_state == WifiState::AuthType
                    &&& r.effect == Effect::SaveWifi ==> r.nav == Nav::Pop
                    &&& r.effect == Effect::Failed ==> r.nav == Nav::Stay && config_after == config_before
                    &&& (r.effect == Effect::SaveWifi || r.effect == Effect::Failed)
                }
            &&& a == Answer::Cancelled ==> after.fsm_state == WifiState::Passwd && r.nav == Nav::Stay
                    && r.effect == Effect::Nothing && config_after == config_before
            &&& a == Answer::Pending ==> after.fsm_state == WifiState::AuthType && r.nav == Nav::Stay
                    && r.effect == Effect::Nothing && config_after == config_before
        },
    }
}

impl ScreenWifi {
    /// The entries are well formed.
    pub open spec fn wf(&self) -> bool {
        self.ssid.wf() && self.passwd.wf() && self.auth.wf()
    }

    /// The screen on its first step.
    pub fn new() -> (r: ScreenWifi)
        ensures
            r.wf(),
            r.fsm_state == WifiState::Enable,
    {
        ScreenWifi { fsm_state: WifiState::Enable, enable: Check::new(), ssid: Input::new(), passwd: Input::new(), auth: Select::new() }
    }

    /// The screen's identity.
    pub fn id(&self) -> (r: ScreenId)
        ensures
            r == ScreenId::Wifi,
    {
        ScreenId::Wifi
    }

    /// Moves to step `next` and asks for a draw.
    fn set_state(&mut self, display_signal: &mut EventBits, next: WifiState)
        ensures
            final(self).fsm_state == next,
            final(self).enable == old(self).enable,
            final(self).ssid == old(self).ssid,
            final(self).passwd == old(self).passwd,
            final(self).auth == old(self).auth,
            *final(display_signal) == *old(display_signal) | DRAW,
    {
        self.fsm_state = next;
        *display_signal = *display_signal | DRAW;
    }

    /// Stores the settings entered in `config` (see `saved_settings`).
    /// Answers `false`, leaving `config` as it is, when a value the enabled
    /// wifi needs was never entered.
    pub fn save(&self, config: &mut WifiConfig) -> (r: bool)
        requires
            self.wf(),
        ensures
            final(config).version == old(config).version,
            final(config).hostname == old(config).hostname,
            !self.enable.checked.unwrap_or(false) ==> r && {
                &&& final(config).ssid@.len() == 0
                &&& final(config).password@.len() == 0
                &&& final(config).auth == Auth::Open
                &&& !final(config).enabled
            },
            self.enable.checked.unwrap_or(false) ==> (r <==> (self.ssid.input is Some && self.passwd.input is Some
                && self.auth.selections is Some)),
            self.enable.checked.unwrap_or(false) && r ==> {
                let (s, p, a, e) = saved_settings(true, self.ssid.view().text.unwrap(), self.passwd.view().text.unwrap(),
                    chosen_auth(optional_view(self.auth.selections).unwrap()));
                &&& final(config).ssid@ == s
                &&& final(config).password@ == p
                &&& final(config).auth == a
                &&& final(config).enabled == e
            },
            !r ==> *final(config) == *old(config),
    {
        if self.enable.get_value().unwrap_or(false) {
            let ssid = match self.ssid.get_value() { Some(v) => v, None => { return false; } };
            let passwd = match self.passwd.get_value() { Some(v) => v, None => { return false; } };
            let selections = match self.auth.get_value() { Some(v) => v, None => { return false; } };
            let selected = selected_auth_from_selections(&selections);
            config.set_ssid(ssid.as_slice());
            config.set_password(passwd.as_slice());
            config.set_auth(selected);
            config.set_enabled(true);
        } else {
            config.set_ssid(&[]);
            config.set_password(&[]);
            config.set_auth(Auth::Open);
            config.set_enabled(false);
            assert(capped(Seq::<u8>::empty(), SSID_MAX as nat) =~= Seq::<u8>::empty());
            assert(capped(Seq::<u8>::empty(), WIFI_PASSWORD_MAX as nat) =~= Seq::<u8>::empty());
        }
        true
    }

    /// One turn of the screen at tick `now`, with the stored settings:
    /// - enable step: the check box, ticked when the wifi is enabled;
    ///   confirmed, on to the name; left, the screen is closed;
    /// - name step: the name entry, starting from the stored name; confirmed,
    ///   on to the password; left, back to the check box;
    /// - password step: the password entry in secret mode, starting from the
    ///   stored password; confirmed, on to the authentication; left, back;
    /// - authentication step: the choice, on the stored authentication;
    ///   confirmed, the settings are stored (`save`) and the screen closed;
    ///   left, back to the password.
    pub fn draw(&mut self, display_signal: &mut EventBits, now: u32, config: &mut WifiConfig) -> (r: ScreenTurn)
        requires
            old(self).wf(),
        ensures
            final(self).wf(),
            wifi_turn(*old(self), *final(self), *old(config), *final(config), r),
    {
        match self.fsm_state {
            WifiState::Enable => {
                let f = self.enable.draw(display_signal, Some(config.is_enabled()));
                let a = check_answer(&f.answers);
                let nav = match a {
                    Answer::Pending => Nav::Stay,
                    Answer::Confirmed => {
                        self.set_state(display_signal, WifiState::Ssid);
                        Nav::Stay
                    },
                    Answer::Cancelled => Nav::Pop,
                };
                ScreenTurn { title: "Enable WiFi?", frame: Frame::Check(f), nav, effect: Effect::Nothing }
            },
            WifiState::Ssid => {
                let value = capped_copy(config.get_ssid().as_slice(), MAX_SIZE);
                let f = self.ssid.draw(display_signal, now, &Some(value), Some(false));
                let a = input_answer(&f.answer);
                match a {
                    Answer::Pending => {},
                    Answer::Confirmed => self.set_state(display_signal, WifiState::Passwd),
                    Answer::Cancelled => self.set_state(display_signal, WifiState::Enable),
                }
                ScreenTurn { title: "WiFi SSID", frame: Frame::Input(f), nav: Nav::Stay, effect: Effect::Nothing }
            },
            WifiState::Passwd => {
                let value = capped_copy(config.get_password().as_slice(), MAX_SIZE);
                let f = self.passwd.draw(display_signal, now, &Some(value), Some(true));
                let a = input_answer(&f.answer);
                match a {
                    Answer::Pending => {},
                    Answer::Confirmed => self.set_state(display_signal, WifiState::AuthType),
                    Answer::Cancelled => self.set_state(display_signal, WifiState::Ssid),
                }
                ScreenTurn { title: "WiFi Password", frame: Frame::Input(f), nav: Nav::Stay, effect: Effect::Nothing }
            },
            WifiState::AuthType => {
                let choices = fill_auth_selections(config.get_auth());
                assert(selections_view(choices@).len() == choices@.len());
                let f = self.auth.draw(display_signal, &Some(choices));
                let a = select_answer(&f.answers);
                let (nav, effect) = match a {
                    Answer::Pending => (Nav::Stay, Effect::Nothing),
                    Answer::Confirmed => {
                        if self.save(config) { (Nav::Pop, Effect::SaveWifi) } else { (Nav::Stay, Effect::Failed) }
                    },
                    Answer::Cancelled => {
                        self.set_state(display_signal, WifiState::Passwd);
                        (Nav::Stay, Effect::Nothing)
                    },
                };
                ScreenTurn { title: "WiFi Auth", frame: Frame::Select(f), nav, effect }
            },
        }
    }
}

} // verus!
