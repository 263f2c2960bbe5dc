//! The header of the screen: the wifi signal icon, the administrator icon
//! when a user is logged in, and the date and time. It is drawn again only
//! when the minute, the signal quality or the login changes.
use vstd::prelude::*;
use crate::signals::{EventBits, StatusFlag, status_bits};
use crate::date_time::{DateTime, date_time_valid};
use crate::display::input::DRAW;
use crate::text_format::{padded_decimal, push_padded};

verus! {

/// Quality of the wifi signal.
#[derive(Clone, Copy, PartialEq, Eq, Debug, Structural)]
pub enum RssiStatus {
    Unknown,
    Excellent,
    Good,
    Fair,
    Weak,
    NoSignal,
}

/// The code of a signal quality, as the wifi task raises it in the display
/// event group (shifted left by six bits).
pub open spec fn rssi_code(r: RssiStatus) -> u8 {
    match r {
        RssiStatus::Unknown => 1,
        RssiStatus::Excellent => 2,
        RssiStatus::Good => 3,
        RssiStatus::Fair => 4,
        RssiStatus::Weak => 5,
        RssiStatus::NoSignal => 6,
    }
}

/// The signal quality with code `v`, if any.
pub open spec fn rssi_of_code(v: u8) -> Option<RssiStatus> {
    if v == 1 { Some(RssiStatus::Unknown) }
    else if v == 2 { Some(RssiStatus::Excellent) }
    else if v == 3 { Some(RssiStatus::Good) }
    else if v == 4 { Some(RssiStatus::Fair) }
    else if v == 5 { Some(RssiStatus::Weak) }
    else if v == 6 { Some(RssiStatus::NoSignal) }
    else { None }
}

impl RssiStatus {
    /// The quality's code.
    pub fn to_bits(self) -> (r: u8)
        ensures
            r == rssi_code(self),
    {
        match self {
            RssiStatus::Unknown => 1,
            RssiStatus::Excellent => 2,
            RssiStatus::Good => 3,
            RssiStatus::Fair => 4,
            RssiStatus::Weak => 5,
            RssiStatus::NoSignal => 6,
        }
    }

    /// The quality with code `v`; `None` for a code that names none.
    pub fn from_bits(v: u8) -> (r: Option<RssiStatus>)
        ensures
            r == rssi_of_code(v),
    {
        if v == 1 { Some(RssiStatus::Unknown) }
        else if v == 2 { Some(RssiStatus::Excellent) }
        else if v == 3 { Some(RssiStatus::Good) }
        else if v == 4 { Some(RssiStatus::Fair) }
        else if v == 5 { Some(RssiStatus::Weak) }
        else if v == 6 { Some(RssiStatus::NoSignal) }
        else { None }
    }
}

/// Reading a quality back from its code gives the same quality.
pub proof fn lemma_rssi_roundtrip(r: RssiStatus)
    ensures
        rssi_of_code(rssi_code(r)) == Some(r),
{
}

/// The wifi icons of the header.
#[derive(Clone, Copy, PartialEq, Eq, Debug, Structural)]
pub enum WifiIcon {
    Excellent,
    Good,
    Fair,
    NoSignal,
}

/// The icon shown for a signal quality: none while it is unknown, and the
/// same icon for a fair and a weak signal.
pub open spec fn wifi_icon(r: RssiStatus) -> Option<WifiIcon> {
    match r {
        RssiStatus::Unknown => None,
        RssiStatus::Excellent => Some(WifiIcon::Excellent),
        RssiStatus::Good => Some(WifiIcon::Good),
        RssiStatus::Fair | RssiStatus::Weak => Some(WifiIcon::Fair),
        RssiStatus::NoSignal => Some(WifiIcon::NoSignal),
    }
}

/// The clock of the header: `YYYY-MM-DD  HH:MM`.
pub open spec fn clock_text(dt: DateTime) -> Seq<u8> {
    padded_decimal(dt.year as int, 4) + seq![45u8] + padded_decimal(dt.month as int, 2) + seq![45u8]
        + padded_decimal(dt.mday as int, 2) + seq![32u8, 32u8] + padded_decimal(dt.hour as int, 2)
        + seq![58u8] + padded_decimal(dt.minute as int, 2)
}

/// How the whole header is drawn again.
#[derive(Debug)]
pub struct HeaderRedraw {
    /// Whether the administrator icon is drawn.
    pub admin: bool,
    /// The wifi icon drawn, if any.
    pub wifi_icon: Option<WifiIcon>,
    /// The clock drawn, when the date and time are valid.
    pub clock: Option<Vec<u8>>,
}

/// What a turn of the header draws.
#[derive(Debug)]
pub struct HeaderPlan {
    /// The administrator icon is drawn (`true`) or erased (`false`) at once.
    pub admin_change: Option<bool>,
    /// The whole header is drawn again.
    pub redraw: Option<HeaderRedraw>,
}

/// The header.
#[derive(Debug)]
pub struct Header {
    /// The date and time drawn last.
    pub date_time: DateTime,
    /// The signal quality drawn last.
    pub rssi_status: RssiStatus,
    /// Whether the administrator icon is shown.
    pub show_admin_icon: bool,
}

impl Header {
    /// Horizontal position of the wifi icon.
    pub const FIRST_ICON_X: u8 = 3;
    /// Horizontal position of the administrator icon.
    pub const SECOND_ICON_X: u8 = 20;

    /// A header with nothing drawn yet.
    pub fn new() -> (r: Header)
        ensures
            r.date_time == (DateTime { year: 0, month: 0, mday: 0, wday: 0, hour: 0, minute: 0, second: 0, millis: 0 }),
            r.rssi_status == RssiStatus::Unknown,
            !r.show_admin_icon,
    {
        Header { date_time: DateTime::zero(), rssi_status: RssiStatus::Unknown, show_admin_icon: false }
    }

    /// One turn of the header, with the display and status event bits and
    /// the current date and time:
    /// - the signal quality raised in the display bits, when known, is kept;
    /// - the administrator icon follows the login flag at once, with a draw;
    /// - when the hour or minute, the quality or the login changed, the whole
    ///   header is drawn again: the wifi icon for the quality kept, and the
    ///   clock when the date and time are valid; a draw is asked for.
    pub fn draw(&mut self, display_signal: &mut EventBits, status_signal: EventBits, date_time: &DateTime) -> (r: HeaderPlan)
        ensures
            ({
                let code = ((*old(display_signal) >> 6u32) % 256) as u8;
                let rssi = match rssi_of_code(code) { Some(q) => q, None => RssiStatus::Unknown };
                let rssi_changed = rssi != RssiStatus::Unknown && old(self).rssi_status != rssi;
                let kept = if rssi_changed { rssi } else { old(self).rssi_status };
                let admin = status_signal & status_bits(StatusFlag::UserLogged) != 0;
                let admin_changed = old(self).show_admin_icon != admin;
                let minute_changed = date_time.hour != old(self).date_time.hour || date_time.minute != old(self).date_time.minute;
                let redraw = minute_changed || rssi_changed || admin_changed;
                &&& final(self).rssi_status == kept
                &&& final(self).show_admin_icon == admin
                &&& final(self).date_time == if redraw { *date_time } else { old(self).date_time }
                &&& r.admin_change == if admin_changed { Some(admin) } else { None }
                &&& *final(display_signal) == if redraw { *old(display_signal) | DRAW } else { *old(display_signal) }
                &&& if redraw {
                        r.redraw matches Some(h) && {
                            &&& h.admin == admin
                            &&& if date_time_valid(*date_time) {
                                    h.wifi_icon == wifi_icon(kept) && (h.clock matches Some(c) && c@ == clock_text(*date_time))
                                } else {
                                    h.wifi_icon is None && h.clock is None
                                }
                        }
                    } else {
                        r.redraw is None
                    }
            }),
    {
        let shifted: u32 = *display_signal >> 6u32;
        let code: u8 = (shifted % 256) as u8;
        let rssi = match RssiStatus::from_bits(code) {
            Some(q) => q,
            None => RssiStatus::Unknown,
        };
        let mut redraw_needed = false;
        if date_time.hour != self.date_time.hour || date_time.minute != self.date_time.minute {
            redraw_needed = true;
        }
        if rssi != RssiStatus::Unknown && self.rssi_status != rssi {
            self.rssi_status = rssi;
            redraw_needed = true;
        }
        let admin = StatusFlag::UserLogged.check_signal(status_signal);
        let mut admin_change: Option<bool> = None;
        if self.show_admin_icon != admin {
            self.show_admin_icon = admin;
            admin_change = Some(admin);
            *display_signal = *display_signal | DRAW;
            redraw_needed = true;
        }
        if !redraw_needed {
            return HeaderPlan { admin_change, redraw: None };
        }
        self.date_time = *date_time;
        let start: EventBits = *display_signal;
        *display_signal = *display_signal | DRAW;
        proof {
            let now_bits: EventBits = *display_signal;
            let before: EventBits = *old(display_signal);
            assert(now_bits == before | DRAW) by (bit_vector)
                requires
                    start == before || start == before | DRAW,
                    now_bits == start | DRAW;
        }
        if !self.date_time.is_valid() {
            return HeaderPlan {
                admin_change,
                redraw: Some(HeaderRedraw { admin: self.show_admin_icon, wifi_icon: None, clock: None }),
            };
        }
        let icon: Option<WifiIcon> = match self.rssi_status {
            RssiStatus::Unknown => None,
            RssiStatus::Excellent => Some(WifiIcon::Excellent),
            RssiStatus::Good => Some(WifiIcon::Good),
            RssiStatus::Fair | RssiStatus::Weak => Some(WifiIcon::Fair),
            RssiStatus::NoSignal => Some(WifiIcon::NoSignal),
        };
        let clock = Header::clock(date_time);
        HeaderPlan {
            admin_change,
            redraw: Some(HeaderRedraw { admin: self.show_admin_icon, wifi_icon: icon, clock: Some(clock) }),
        }
    }

    /// The clock text (see `clock_text`).
    pub fn clock(dt: &DateTime) -> (r: Vec<u8>)
        ensures
            r@ == clock_text(*dt),
    {
        let mut out: Vec<u8> = Vec::new();
        push_padded(&mut out, dt.year as i64, 4);
        out.push(45u8);
        push_padded(&mut out, dt.month as i64, 2);
        out.push(45u8);
        push_padded(&mut out, dt.mday as i64, 2);
        out.push(32u8);
        out.push(32u8);
        push_padded(&mut out, dt.hour as i64, 2);
        out.push(58u8);
        push_padded(&mut out, dt.minute as i64, 2);
        assert(out@ =~= clock_text(*dt));
        out
    }

    /// Horizontal position of a clock of `len` glyphs five pixels wide, five
    /// pixels from the right edge of a display `width` wide.
    pub fn clock_x(width: u8, len: usize) -> (r: u8)
        requires
            len * 5 + 5 <= width,
        ensures
            r == width - len * 5 - 5,
    {
        let w: u8 = (len as u8) * 5;
        width - w - 5
    }
}

} // verus!
