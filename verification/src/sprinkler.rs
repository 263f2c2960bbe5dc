//! Irrigation zones, their watering schedules and the AT commands that edit
//! them (`AT+ZN`, `AT+SCH`).
use vstd::prelude::*;
use crate::command_args::{command_args4, parse_unsigned, parse_unsigned_spec, bytes_eq, at_argument};
use crate::date_time::DateTime;
use crate::text_format::{decimal_digits, push_decimal, append_capped, capped, copy_bytes};

verus! {

/// Longest description a zone or a schedule can hold, in bytes.
pub const DESCRIPTION_MAX: usize = 32;

/// Capacity of an AT response payload, in bytes.
pub const RESPONSE_MAX: usize = 64;

/// Number of zones and of schedules.
pub const SIZE: usize = 4;

/// Why an AT command was refused.
#[derive(Clone, Copy, PartialEq, Eq, Debug, Structural)]
pub enum CommandError {
    /// An argument is missing or malformed.
    InvalidArgs,
    /// The command needs a logged-in user.
    NotLogged,
    /// A description is longer than `DESCRIPTION_MAX`.
    DescriptionTooLong,
    /// An e-mail address is too long.
    EmailTooLong,
    /// A password is too long.
    PasswordTooLong,
    /// `exec` was asked to store a staged schedule that nobody edited.
    NothingModified,
    /// The schedules could not be written to storage.
    SaveFailed,
    /// The file system could not be cleared.
    RemoveFailed,
    /// A value that must be given is empty.
    Empty,
}

impl CommandError {
    /// The text sent back for the error (empty for `InvalidArgs`, which the
    /// parser reports on its own).
    pub fn message(self) -> (r: &'static str)
        ensures
            r@ == command_error_text(self),
    {
        match self {
            CommandError::InvalidArgs => "",
            CommandError::NotLogged => "Not logged",
            CommandError::DescriptionTooLong => "description max len exceeded",
            CommandError::EmailTooLong => "email max len 32",
            CommandError::PasswordTooLong => "password max len 32",
            CommandError::NothingModified => "No modify applied",
            CommandError::SaveFailed => "Impossible save",
            CommandError::RemoveFailed => "Failed to remove filesystem",
            CommandError::Empty => "No data available",
        }
    }
}

/// The text of a refused command.
pub open spec fn command_error_text(e: CommandError) -> Seq<char> {
    match e {
        CommandError::InvalidArgs => ""@,
        CommandError::NotLogged => "Not logged"@,
        CommandError::DescriptionTooLong => "description max len exceeded"@,
        CommandError::EmailTooLong => "email max len 32"@,
        CommandError::PasswordTooLong => "password max len 32"@,
        CommandError::NothingModified => "No modify applied"@,
        CommandError::SaveFailed => "Impossible save"@,
        CommandError::RemoveFailed => "Failed to remove filesystem"@,
        CommandError::Empty => "No data available"@,
    }
}

/// Activity of a zone or of a schedule.
#[derive(Clone, Copy, PartialEq, Eq, Debug, Structural)]
pub enum Status {
    UNACTIVE,
    ACTIVE,
    RUN,
}

/// The stored number of a status.
pub open spec fn status_code(s: Status) -> u8 {
    match s {
        Status::UNACTIVE => 0,
        Status::ACTIVE => 1,
        Status::RUN => 2,
    }
}

/// The status stored as `v`; unknown numbers read as `UNACTIVE`.
pub open spec fn status_of_code(v: u8) -> Status {
    if v == 1 { Status::ACTIVE } else if v == 2 { Status::RUN } else { Status::UNACTIVE }
}

impl Status {
    /// The stored number of the status.
    pub fn to_u8(self) -> (r: u8)
        ensures
            r == status_code(self),
    {
        match self {
            Status::UNACTIVE => 0,
            Status::ACTIVE => 1,
            Status::RUN => 2,
        }
    }

    /// The status stored as `v`.
    pub fn from_u8(v: u8) -> (r: Status)
        ensures
            r == status_of_code(v),
    {
        if v == 1 { Status::ACTIVE } else if v == 2 { Status::RUN } else { Status::UNACTIVE }
    }
}

/// Reading back a stored status gives the same status.
pub proof fn lemma_status_code_roundtrip(s: Status)
    ensures
        status_of_code(status_code(s)) == s,
{
}

/// Days of the week, Sunday first; day `i` is bit `i` of a schedule's day mask.
#[derive(Clone, Copy, PartialEq, Eq, Debug, Structural)]
pub enum Day {
    Sunday,
    Monday,
    Tuesday,
    Wednesday,
    Thursday,
    Friday,
    Saturday,
}

/// The position of a day in the week, Sunday being 0.
pub open spec fn day_index(d: Day) -> u8 {
    match d {
        Day::Sunday => 0,
        Day::Monday => 1,
        Day::Tuesday => 2,
        Day::Wednesday => 3,
        Day::Thursday => 4,
        Day::Friday => 5,
        Day::Saturday => 6,
    }
}

/// The day at position `i` of the week.
pub open spec fn day_at(i: int) -> Day {
    if i == 0 { Day::Sunday }
    else if i == 1 { Day::Monday }
    else if i == 2 { Day::Tuesday }
    else if i == 3 { Day::Wednesday }
    else if i == 4 { Day::Thursday }
    else if i == 5 { Day::Friday }
    else { Day::Saturday }
}

/// Whether bit `i` of `mask` is set.
pub open spec fn bit8(mask: u8, i: int) -> bool {
    0 <= i < 8 && (mask >> (i as u8)) & 1u8 == 1u8
}

/// Whether bit `i` of `mask` is set.
pub open spec fn bit16(mask: u16, i: int) -> bool {
    0 <= i < 16 && (mask >> (i as u16)) & 1u16 == 1u16
}

fn test_bit8(mask: u8, i: u8) -> (r: bool)
    requires
        i < 8,
    ensures
        r == bit8(mask, i as int),
{
    let r = mask & (1u8 << i) > 0;
    assert((mask & (1u8 << i) > 0) == ((mask >> i) & 1u8 == 1u8)) by (bit_vector)
        requires i < 8;
    r
}

fn test_bit16(mask: u16, i: u16) -> (r: bool)
    requires
        i < 16,
    ensures
        r == bit16(mask, i as int),
{
    let r = mask & (1u16 << i) > 0;
    assert((mask & (1u16 << i) > 0) == ((mask >> i) & 1u16 == 1u16)) by (bit_vector)
        requires i < 16;
    r
}

impl Day {
    /// The position of the day in the week.
    pub fn index(self) -> (r: u8)
        ensures
            r == day_index(self),
    {
        match self {
            Day::Sunday => 0,
            Day::Monday => 1,
            Day::Tuesday => 2,
            Day::Wednesday => 3,
            Day::Thursday => 4,
            Day::Friday => 5,
            Day::Saturday => 6,
        }
    }

    /// The days selected by a day mask: entry `i` is day `i` when bit `i` of
    /// `value` is set, and empty otherwise.
    pub fn map(value: u8) -> (r: Vec<Option<Day>>)
        ensures
            r@.len() == 7,
            forall|i: int| 0 <= i < 7 ==> #[trigger] r@[i] == (if bit8(value, i) { Some(day_at(i)) } else { None }),
    {
        let mut ret: Vec<Option<Day>> = Vec::new();
        let mut idx: u8 = 0;
        while idx < 7
            invariant
                idx <= 7,
                ret@.len() == idx,
                forall|i: int| 0 <= i < idx ==> #[trigger] ret@[i] == (if bit8(value, i) { Some(day_at(i)) } else { None }),
            decreases 7 - idx,
        {
            if test_bit8(value, idx) {
                let d = if idx == 0 { Day::Sunday }
                    else if idx == 1 { Day::Monday }
                    else if idx == 2 { Day::Tuesday }
                    else if idx == 3 { Day::Wednesday }
                    else if idx == 4 { Day::Thursday }
                    else if idx == 5 { Day::Friday }
                    else { Day::Saturday };
                ret.push(Some(d));
            } else {
                ret.push(None);
            }
            idx = idx + 1;
        }
        ret
    }
}

/// Months of the year, January first; month `i` is bit `i` of a schedule's
/// month mask.
#[derive(Clone, Copy, PartialEq, Eq, Debug, Structural)]
pub enum Month {
    January,
    February,
    March,
    April,
    May,
    June,
    July,
    August,
    September,
    October,
    November,
    December,
}

/// The position of a month in the year, January being 0.
pub open spec fn month_index(m: Month) -> u8 {
    match m {
        Month::January => 0,
        Month::February => 1,
        Month::March => 2,
        Month::April => 3,
        Month::May => 4,
        Month::June => 5,
        Month::July => 6,
        Month::August => 7,
        Month::September => 8,
        Month::October => 9,
        Month::November => 10,
        Month::December => 11,
    }
}

/// The month at position `i` of the year.
pub open spec fn month_at(i: int) -> Month {
    if i == 0 { Month::January }
    else if i == 1 { Month::February }
    else if i == 2 { Month::March }
    else if i == 3 { Month::April }
    else if i == 4 { Month::May }
    else if i == 5 { Month::June }
    else if i == 6 { Month::July }
    else if i == 7 { Month::August }
    else if i == 8 { Month::September }
    else if i == 9 { Month::October }
    else if i == 10 { Month::November }
    else { Month::December }
}

impl Month {
    /// The position of the month in the year.
    pub fn index(self) -> (r: u8)
        ensures
            r == month_index(self),
    {
        match self {
            Month::January => 0,
            Month::February => 1,
            Month::March => 2,
            Month::April => 3,
            Month::May => 4,
            Month::June => 5,
            Month::July => 6,
            Month::August => 7,
            Month::September => 8,
            Month::October => 9,
            Month::November => 10,
            Month::December => 11,
        }
    }

    /// The months selected by a month mask: entry `i` is month `i` when bit
    /// `i` of `value` is set, and empty otherwise.
    pub fn map(value: u16) -> (r: Vec<Option<Month>>)
        ensures
            r@.len() == 12,
            forall|i: int| 0 <= i < 12 ==> #[trigger] r@[i] == (if bit16(value, i) { Some(month_at(i)) } else { None }),
    {
        let mut ret: Vec<Option<Month>> = Vec::new();
        let mut idx: u16 = 0;
        while idx < 12
            invariant
                idx <= 12,
                ret@.len() == idx,
                forall|i: int| 0 <= i < idx ==> #[trigger] ret@[i] == (if bit16(value, i) { Some(month_at(i)) } else { None }),
            decreases 12 - idx,
        {
            if test_bit16(value, idx) {
                let m = if idx == 0 { Month::January }
                    else if idx == 1 { Month::February }
                    else if idx == 2 { Month::March }
                    else if idx == 3 { Month::April }
                    else if idx == 4 { Month::May }
                    else if idx == 5 { Month::June }
                    else if idx == 6 { Month::July }
                    else if idx == 7 { Month::August }
                    else if idx == 8 { Month::September }
                    else if idx == 9 { Month::October }
                    else if idx == 10 { Month::November }
                    else { Month::December };
                ret.push(Some(m));
            } else {
                ret.push(None);
            }
            idx = idx + 1;
        }
        ret
    }
}

/// The relay that powers a zone's valve.
#[derive(Clone, Copy, PartialEq, Eq, Debug, Structural)]
pub enum ZoneRelay {
    Relay0,
    Relay1,
    Relay2,
    Relay3,
}

/// The number of a relay.
pub open spec fn relay_number(r: ZoneRelay) -> u8 {
    match r {
        ZoneRelay::Relay0 => 0,
        ZoneRelay::Relay1 => 1,
        ZoneRelay::Relay2 => 2,
        ZoneRelay::Relay3 => 3,
    }
}

/// The relay with number `v`; unknown numbers select relay 0.
pub open spec fn relay_of_number(v: u8) -> ZoneRelay {
    if v == 1 { ZoneRelay::Relay1 }
    else if v == 2 { ZoneRelay::Relay2 }
    else if v == 3 { ZoneRelay::Relay3 }
    else { ZoneRelay::Relay0 }
}

/// The name of a relay, `Relay <n>`.
pub open spec fn relay_name(r: ZoneRelay) -> Seq<u8> {
    seq![82u8, 101u8, 108u8, 97u8, 121u8, 32u8] + decimal_digits(relay_number(r) as nat)
}

impl ZoneRelay {
    /// The number of the relay.
    pub fn to_u8(self) -> (r: u8)
        ensures
            r == relay_number(self),
    {
        match self {
            ZoneRelay::Relay0 => 0,
            ZoneRelay::Relay1 => 1,
            ZoneRelay::Relay2 => 2,
            ZoneRelay::Relay3 => 3,
        }
    }

    /// The relay with number `v` (relay 0 for unknown numbers).
    pub fn from_u8(v: u8) -> (r: ZoneRelay)
        ensures
            r == relay_of_number(v),
    {
        if v == 1 { ZoneRelay::Relay1 }
        else if v == 2 { ZoneRelay::Relay2 }
        else if v == 3 { ZoneRelay::Relay3 }
        else { ZoneRelay::Relay0 }
    }

    /// Appends the relay's name.
    pub fn push_name(self, out: &mut Vec<u8>)
        ensures
            final(out)@ == old(out)@ + relay_name(self),
    {
        out.push(82u8);
        out.push(101u8);
        out.push(108u8);
        out.push(97u8);
        out.push(121u8);
        out.push(32u8);
        push_decimal(out, self.to_u8() as u64);
        assert(final(out)@ =~= old(out)@ + relay_name(self));
    }
}

/// Reading back a relay from its number gives the same relay.
pub proof fn lemma_relay_roundtrip(r: ZoneRelay)
    ensures
        relay_of_number(relay_number(r)) == r,
{
}

/// Abstract value of a zone.
pub struct ZoneView {
    pub description: Seq<u8>,
    pub zone_relay: ZoneRelay,
    pub weight: u8,
    pub status: Status,
}

/// A watering zone.
#[derive(Debug)]
pub struct Zone {
    /// Description shown on the display.
    pub description: Vec<u8>,
    /// Relay that waters the zone.
    pub zone_relay: ZoneRelay,
    /// Order of watering: lighter zones go first.
    pub weight: u8,
    pub status: Status,
}

impl View for Zone {
    type V = ZoneView;

    open spec fn view(&self) -> ZoneView {
        ZoneView {
            description: self.description@,
            zone_relay: self.zone_relay,
            weight: self.weight,
            status: self.status,
        }
    }
}

impl Zone {
    /// An unnamed, inactive zone on `zone_relay`.
    pub fn new(zone_relay: ZoneRelay) -> (r: Zone)
        ensures
            r@ == (ZoneView { description: Seq::empty(), zone_relay, weight: 0, status: Status::UNACTIVE }),
    {
        Zone { description: Vec::new(), zone_relay, weight: 0, status: Status::UNACTIVE }
    }

    /// A copy of the zone.
    pub fn duplicate(&self) -> (r: Zone)
        ensures
            r@ == self@,
    {
        Zone {
            description: copy_bytes(&self.description),
            zone_relay: self.zone_relay,
            weight: self.weight,
            status: self.status,
        }
    }
}

/// The zones, in relay order, and the zone staged by `AT+ZN=` until `AT+ZN`
/// stores it.
#[derive(Debug)]
pub struct ZoneController {
    pub zones: Vec<Zone>,
    pub staged: Zone,
}

/// A zone's line in the answer to `AT+ZN?`: relay number, weight and quoted
/// description.
pub open spec fn zone_line(z: ZoneView) -> Seq<u8> {
    decimal_digits(relay_number(z.zone_relay) as nat) + seq![44u8] + decimal_digits(z.weight as nat)
        + seq![44u8, 34u8] + z.description + seq![34u8, 13u8, 10u8]
}

/// The content of a byte string after one byte was pushed onto it: a zero
/// byte only marks the end of the text and leaves it unchanged, and a full
/// string refuses the byte.
pub open spec fn pushed_byte(s: Seq<u8>, b: u8, cap: nat) -> Seq<u8> {
    if b == 0 || s.len() >= cap { s } else { s.push(b) }
}

impl ZoneController {
    /// The zones of a fresh controller: one per relay, in relay order, and
    /// an empty staged zone on relay 0.
    pub fn new() -> (r: ZoneController)
        ensures
            r@.len() == SIZE,
            forall|i: int| 0 <= i < 4 ==> #[trigger] r@[i] == (ZoneView { description: Seq::empty(), zone_relay: relay_of_number(i as u8), weight: 0, status: Status::UNACTIVE }),
            r.staged@ == (ZoneView { description: Seq::empty(), zone_relay: ZoneRelay::Relay0, weight: 0, status: Status::UNACTIVE }),
    {
        let mut zones: Vec<Zone> = Vec::new();
        zones.push(Zone::new(ZoneRelay::Relay0));
        zones.push(Zone::new(ZoneRelay::Relay1));
        zones.push(Zone::new(ZoneRelay::Relay2));
        zones.push(Zone::new(ZoneRelay::Relay3));
        ZoneController { zones, staged: Zone::new(ZoneRelay::Relay0) }
    }

    /// The zones, in order.
    pub open spec fn view(&self) -> Seq<ZoneView> {
        self.zones@.map_values(|z: Zone| z@)
    }

    /// Gives each zone its start-up values: the relay number pushed onto the
    /// description (see `pushed_byte`), the relay number as weight, inactive.
    pub fn apply_defaults(&mut self)
        ensures
            final(self)@.len() == old(self)@.len(),
            final(self).staged@ == old(self).staged@,
            forall|i: int| 0 <= i < old(self)@.len() ==> #[trigger] final(self)@[i] == (ZoneView {
                description: pushed_byte(old(self)@[i].description, relay_number(old(self)@[i].zone_relay), DESCRIPTION_MAX as nat),
                zone_relay: old(self)@[i].zone_relay,
                weight: relay_number(old(self)@[i].zone_relay),
                status: Status::UNACTIVE,
            }),
    {
        let n = self.zones.len();
        let mut i: usize = 0;
        while i < n
            invariant
                n == self.zones@.len(),
                n == old(self).zones@.len(),
                0 <= i <= n,
                self.staged@ == old(self).staged@,
                forall|j: int| i <= j < n ==> #[trigger] self.zones@[j]@ == old(self).zones@[j]@,
                forall|j: int| 0 <= j < i ==> #[trigger] self.zones@[j]@ == (ZoneView {
                    description: pushed_byte(old(self).zones@[j]@.description, relay_number(old(self).zones@[j]@.zone_relay), DESCRIPTION_MAX as nat),
                    zone_relay: old(self).zones@[j]@.zone_relay,
                    weight: relay_number(old(self).zones@[j]@.zone_relay),
                    status: Status::UNACTIVE,
                }),
            decreases n - i,
        {
            assert(self.zones@[i as int]@ == old(self).zones@[i as int]@);
            let relay = self.zones[i].zone_relay;
            let number = relay.to_u8();
            let mut description = copy_bytes(&self.zones[i].description);
            if number != 0 && description.len() < DESCRIPTION_MAX {
                description.push(number);
            }
            let zone = Zone { description, zone_relay: relay, weight: number, status: Status::UNACTIVE };
            assert(zone@ == (ZoneView {
                description: pushed_byte(old(self).zones@[i as int]@.description, relay_number(old(self).zones@[i as int]@.zone_relay), DESCRIPTION_MAX as nat),
                zone_relay: old(self).zones@[i as int]@.zone_relay,
                weight: relay_number(old(self).zones@[i as int]@.zone_relay),
                status: Status::UNACTIVE,
            }));
            self.zones.set(i, zone);
            i = i + 1;
        }
    }

    /// Position of the zone on `relay`, if there is one.
    fn find_relay(&self, relay: ZoneRelay) -> (r: Option<usize>)
        ensures
            match r {
                Some(i) => i < self@.len() && self@[i as int].zone_relay == relay
                    && forall|j: int| 0 <= j < i ==> #[trigger] self@[j].zone_relay != relay,
                None => forall|j: int| 0 <= j < self@.len() ==> #[trigger] self@[j].zone_relay != relay,
            },
    {
        let mut i: usize = 0;
        while i < self.zones.len()
            invariant
                0 <= i <= self.zones@.len(),
                forall|j: int| 0 <= j < i ==> #[trigger] self@[j].zone_relay != relay,
            decreases self.zones.len() - i,
        {
            if self.zones[i].zone_relay == relay {
                return Some(i);
            }
            i = i + 1;
        }
        None
    }

    /// `AT+ZN`: stores the staged weight and description into the zone on the
    /// staged relay, then resets the staged zone. Needs a logged-in user; a
    /// missing zone answers `InvalidArgs` and keeps the staged zone.
    pub fn exec(&mut self, logged: bool) -> (r: Result<(), CommandError>)
        ensures
            !logged ==> r == Err::<(), CommandError>(CommandError::NotLogged) && final(self)@ == old(self)@ && final(self).staged@ == old(self).staged@,
            logged ==> match first_zone_on(old(self)@, old(self).staged@.zone_relay) {
                Some(i) => r is Ok
                    && final(self)@ == old(self)@.update(i, ZoneView {
                        description: old(self).staged@.description,
                        weight: old(self).staged@.weight,
                        ..old(self)@[i]
                    })
                    && final(self).staged@ == (ZoneView { description: Seq::empty(), zone_relay: ZoneRelay::Relay0, weight: 0, status: Status::UNACTIVE }),
                None => r == Err::<(), CommandError>(CommandError::InvalidArgs) && final(self)@ == old(self)@ && final(self).staged@ == old(self).staged@,
            },
    {
        if !logged {
            return Err(CommandError::NotLogged);
        }
        match self.find_relay(self.staged.zone_relay) {
            Some(i) => {
                let old_zone = self.zones[i].duplicate();
                let zone = Zone {
                    description: copy_bytes(&self.staged.description),
                    zone_relay: old_zone.zone_relay,
                    weight: self.staged.weight,
                    status: old_zone.status,
                };
                self.zones.set(i, zone);
                self.staged = Zone::new(ZoneRelay::Relay0);
                assert(self@ =~= old(self)@.update(i as int, ZoneView {
                    description: old(self).staged@.description,
                    weight: old(self).staged@.weight,
                    ..old(self)@[i as int]
                }));
                Ok(())
            },
            None => Err(CommandError::InvalidArgs),
        }
    }

    /// `AT+ZN?`: the answer holds the line of the last zone only (each zone's
    /// line overwrites the previous one), cut to `RESPONSE_MAX` bytes. Needs a
    /// logged-in user.
    pub fn query(&self, logged: bool) -> (r: Result<Vec<u8>, CommandError>)
        ensures
            !logged ==> r == Err::<Vec<u8>, CommandError>(CommandError::NotLogged),
            logged ==> (r matches Ok(resp) && resp@ == (if self@.len() == 0 { Seq::<u8>::empty() } else { capped(zone_line(self@.last()), RESPONSE_MAX as nat) })),
    {
        if !logged {
            return Err(CommandError::NotLogged);
        }
        let mut response: Vec<u8> = Vec::new();
        let mut i: usize = 0;
        while i < self.zones.len()
            invariant
                0 <= i <= self.zones@.len(),
                response@ == (if i == 0 { Seq::<u8>::empty() } else { capped(zone_line(self@[i - 1]), RESPONSE_MAX as nat) }),
            decreases self.zones.len() - i,
        {
            let zone = &self.zones[i];
            let mut line: Vec<u8> = Vec::new();
            push_decimal(&mut line, zone.zone_relay.to_u8() as u64);
            line.push(44u8);
            push_decimal(&mut line, zone.weight as u64);
            line.push(44u8);
            line.push(34u8);
            let mut k: usize = 0;
            let ghost before = line@;
            while k < zone.description.len()
                invariant
                    0 <= k <= zone.description@.len(),
                    line@ == before + zone.description@.take(k as int),
                decreases zone.description.len() - k,
            {
                line.push(zone.description[k]);
                k = k + 1;
                assert(line@ =~= before + zone.description@.take(k as int));
            }
            assert(zone.description@.take(k as int) =~= zone.description@);
            line.push(34u8);
            line.push(13u8);
            line.push(10u8);
            assert(line@ =~= zone_line(self@[i as int]));
            let mut fresh: Vec<u8> = Vec::new();
            append_capped(&mut fresh, line.as_slice(), RESPONSE_MAX);
            assert(Seq::<u8>::empty() + line@ =~= line@);
            response = fresh;
            i = i + 1;
        }
        Ok(response)
    }

    /// `AT+ZN=?`: the forms the command takes.
    pub fn test(&self) -> (r: &'static str)
        ensures
            r@ == "<zone_relay>,weight,<value> | <zone_relay>,description,<value>"@,
    {
        "<zone_relay>,weight,<value> | <zone_relay>,description,<value>"
    }

    /// `AT+ZN=<relay>,weight,<n>` or `AT+ZN=<relay>,description,<text>`:
    /// copies the zone on the relay into the staged zone, then changes the
    /// staged weight or description. `args` are the command's first four
    /// arguments (see `set_args`).
    pub fn set(&mut self, raw: &str, logged: bool) -> (r: Result<(), CommandError>)
        ensures
            ({
                let args = Seq::new(4, |i: int| at_argument(raw@, i as usize));
                zone_set_spec(old(self)@, old(self).staged@, args, logged) == (r, final(self)@, final(self).staged@)
            }),
    {
        let args = command_args4(raw);
        let ghost spec_args = Seq::new(4, |i: int| at_argument(raw@, i as usize));
        assert(args@.map_values(|a: Option<Vec<u8>>| match a { Some(v) => Some(v@), None => None }) =~= spec_args);
        self.set_args(&args, logged)
    }

    /// The `AT+ZN=` command on already split arguments (see `zone_set_spec`).
    pub fn set_args(&mut self, args: &[Option<Vec<u8>>; 4], logged: bool) -> (r: Result<(), CommandError>)
        ensures
            zone_set_spec(old(self)@, old(self).staged@, args@.map_values(|a: Option<Vec<u8>>| match a { Some(v) => Some(v@), None => None }), logged)
                == (r, final(self)@, final(self).staged@),
    {
        let ghost sargs = args@.map_values(|a: Option<Vec<u8>>| match a { Some(v) => Some(v@), None => None });
        assert(sargs.len() == 4);
        assert(forall|i: int| 0 <= i < 4 ==> #[trigger] sargs[i] == (match args@[i] { Some(v) => Some(v@), None => None::<Seq<u8>> }));
        if !logged {
            return Err(CommandError::NotLogged);
        }
        let number: u8 = match &args[0] {
            Some(a) => match parse_unsigned(a, 255) {
                Some(v) => v as u8,
                None => { return Err(CommandError::InvalidArgs); },
            },
            None => { return Err(CommandError::InvalidArgs); },
        };
        let relay = ZoneRelay::from_u8(number);
        let cmd: &Vec<u8> = match &args[1] {
            Some(c) => c,
            None => { return Err(CommandError::InvalidArgs); },
        };
        let i = match self.find_relay(relay) {
            Some(i) => i,
            None => { return Err(CommandError::InvalidArgs); },
        };
        self.staged = self.zones[i].duplicate();
        let weight_word: Vec<u8> = vec![119u8, 101u8, 105u8, 103u8, 104u8, 116u8];
        let description_word: Vec<u8> = vec![100u8, 101u8, 115u8, 99u8, 114u8, 105u8, 112u8, 116u8, 105u8, 111u8, 110u8];
        if bytes_eq(cmd, &weight_word) {
            match &args[2] {
                Some(a) => match parse_unsigned(a, 255) {
                    Some(v) => { self.staged.weight = v as u8; },
                    None => { return Err(CommandError::InvalidArgs); },
                },
                None => { return Err(CommandError::InvalidArgs); },
            }
        } else if bytes_eq(cmd, &description_word) {
            match &args[2] {
                Some(a) => {
                    if a.len() > DESCRIPTION_MAX {
                        return Err(CommandError::DescriptionTooLong);
                    }
                    self.staged.description = copy_bytes(a);
                },
                None => { return Err(CommandError::InvalidArgs); },
            }
        } else {
            return Err(CommandError::InvalidArgs);
        }
        Ok(())
    }
}

/// Position of the first zone on `relay`.
pub open spec fn first_zone_on(zones: Seq<ZoneView>, relay: ZoneRelay) -> Option<int> {
    if exists|i: int| 0 <= i < zones.len() && zones[i].zone_relay == relay {
        let i = choose|i: int| 0 <= i < zones.len() && zones[i].zone_relay == relay
            && forall|j: int| 0 <= j < i ==> #[trigger] zones[j].zone_relay != relay;
        Some(i)
    } else {
        None
    }
}

/// The text `weight`.
pub open spec fn word_weight() -> Seq<u8> {
    seq![119u8, 101u8, 105u8, 103u8, 104u8, 116u8]
}

/// The text `description`.
pub open spec fn word_description() -> Seq<u8> {
    seq![100u8, 101u8, 115u8, 99u8, 114u8, 105u8, 112u8, 116u8, 105u8, 111u8, 110u8]
}

/// Outcome of `AT+ZN=` on the zones, the staged zone and the arguments
/// `args[0..4]`: the answer, then the zones and the staged zone afterwards.
/// The zones never change; once the relay and the sub-command are read, the
/// zone on that relay is copied into the staged zone whatever follows.
pub open spec fn zone_set_spec(zones: Seq<ZoneView>, staged: ZoneView, args: Seq<Option<Seq<u8>>>, logged: bool)
    -> (Result<(), CommandError>, Seq<ZoneView>, ZoneView)
{
    let invalid = (Err(CommandError::InvalidArgs), zones, staged);
    if !logged {
        (Err(CommandError::NotLogged), zones, staged)
    } else if args[0] is None || parse_unsigned_spec(args[0].unwrap(), 255) is None || args[1] is None {
        invalid
    } else {
        let relay = relay_of_number(parse_unsigned_spec(args[0].unwrap(), 255).unwrap() as u8);
        let cmd = args[1].unwrap();
        match first_zone_on(zones, relay) {
            None => invalid,
            Some(i) => {
                let copy = zones[i];
                if cmd == word_weight() {
                    if args[2] is None || parse_unsigned_spec(args[2].unwrap(), 255) is None {
                        (Err(CommandError::InvalidArgs), zones, copy)
                    } else {
                        (Ok(()), zones, ZoneView { weight: parse_unsigned_spec(args[2].unwrap(), 255).unwrap() as u8, ..copy })
                    }
                } else if cmd == word_description() {
                    if args[2] is None {
                        (Err(CommandError::InvalidArgs), zones, copy)
                    } else if args[2].unwrap().len() > DESCRIPTION_MAX {
                        (Err(CommandError::DescriptionTooLong), zones, copy)
                    } else {
                        (Ok(()), zones, ZoneView { description: args[2].unwrap(), ..copy })
                    }
                } else {
                    (Err(CommandError::InvalidArgs), zones, copy)
                }
            },
        }
    }
}

/// Abstract value of a schedule.
pub struct ScheduleView {
    pub minute: u8,
    pub hour: u8,
    pub days: u8,
    pub month: u16,
    pub description: Seq<u8>,
    pub zones: Seq<Option<(ZoneRelay, u8)>>,
    pub status: Status,
}

/// When and where to water.
#[derive(Debug)]
pub struct Schedule {
    /// Minute plus one, from 1 to 60, or 0 for every minute.
    pub minute: u8,
    /// Hour plus one, from 1 to 24, or 0 for every hour.
    pub hour: u8,
    /// Mask of `Day`s, or 0 for every day.
    pub days: u8,
    /// Mask of `Month`s, or 0 for every month.
    pub month: u16,
    /// Description shown on the display.
    pub description: Vec<u8>,
    /// Zones watered, each with its watering time in minutes.
    pub zones: Vec<Option<(ZoneRelay, u8)>>,
    pub status: Status,
}

impl View for Schedule {
    type V = ScheduleView;

    open spec fn view(&self) -> ScheduleView {
        ScheduleView {
            minute: self.minute,
            hour: self.hour,
            days: self.days,
            month: self.month,
            description: self.description@,
            zones: self.zones@,
            status: self.status,
        }
    }
}

/// A copy of a schedule's zone slots.
fn copy_slots(zs: &Vec<Option<(ZoneRelay, u8)>>) -> (r: Vec<Option<(ZoneRelay, u8)>>)
    ensures
        r@ == zs@,
{
    let mut r: Vec<Option<(ZoneRelay, u8)>> = Vec::new();
    let mut i: usize = 0;
    while i < zs.len()
        invariant
            0 <= i <= zs@.len(),
            r@ == zs@.take(i as int),
        decreases zs.len() - i,
    {
        r.push(zs[i]);
        i = i + 1;
        assert(r@ =~= zs@.take(i as int));
    }
    assert(zs@.take(i as int) =~= zs@);
    r
}

/// The schedule that nobody has edited.
pub open spec fn empty_schedule() -> ScheduleView {
    ScheduleView {
        minute: 0,
        hour: 0,
        days: 0,
        month: 0,
        description: Seq::empty(),
        zones: seq![None, None, None, None],
        status: Status::UNACTIVE,
    }
}

/// Whether a schedule is due at `now`: it is not running, and each of its
/// month, day, hour and minute is either unset or matches `now`. The month
/// and the day are matched by their position in the masks (January and
/// Sunday being bit 0) against `now.month` and `now.wday`.
pub open spec fn executable_spec(s: ScheduleView, now: DateTime) -> bool {
    &&& s.status != Status::RUN
    &&& (s.month == 0 || (now.month < 12 && bit16(s.month, now.month as int)))
    &&& (s.days == 0 || (now.wday < 7 && bit8(s.days, now.wday as int)))
    &&& (s.hour == 0 || s.hour - 1 == now.hour)
    &&& (s.minute == 0 || s.minute - 1 == now.minute)
}

impl Schedule {
    /// A schedule that nobody has edited.
    pub fn new() -> (r: Schedule)
        ensures
            r@ == empty_schedule(),
    {
        let mut zones: Vec<Option<(ZoneRelay, u8)>> = Vec::new();
        zones.push(None);
        zones.push(None);
        zones.push(None);
        zones.push(None);
        let r = Schedule { minute: 0, hour: 0, days: 0, month: 0, description: Vec::new(), zones, status: Status::UNACTIVE };
        assert(r@.zones =~= seq![None, None, None, None]);
        r
    }

    /// A copy of the schedule.
    pub fn duplicate(&self) -> (r: Schedule)
        ensures
            r@ == self@,
    {
        let zones = copy_slots(&self.zones);
        Schedule {
            minute: self.minute,
            hour: self.hour,
            days: self.days,
            month: self.month,
            description: copy_bytes(&self.description),
            zones,
            status: self.status,
        }
    }

    /// Whether the schedule differs from one that nobody has edited.
    pub fn is_modified(tmp: &Schedule) -> (r: bool)
        ensures
            r == (tmp@ != empty_schedule()),
    {
        let empty = Schedule::new();
        if tmp.minute != 0 || tmp.hour != 0 || tmp.days != 0 || tmp.month != 0 || tmp.description.len() != 0 {
            return true;
        }
        if tmp.status != Status::UNACTIVE || tmp.zones.len() != 4 {
            return true;
        }
        let mut k: usize = 0;
        while k < 4
            invariant
                tmp.zones@.len() == 4,
                0 <= k <= 4,
                forall|j: int| 0 <= j < k ==> #[trigger] tmp.zones@[j] is None,
            decreases 4 - k,
        {
            if tmp.zones[k].is_some() {
                return true;
            }
            k = k + 1;
        }
        assert(tmp@.zones =~= seq![None, None, None, None]);
        assert(tmp@.description =~= Seq::<u8>::empty());
        false
    }

    /// Whether the schedule is due at `now` (see `executable_spec`).
    pub fn executable(&self, now: &DateTime) -> (r: bool)
        ensures
            r == executable_spec(self@, *now),
    {
        if self.status == Status::RUN {
            return false;
        }
        let mut month_ok = true;
        if self.month != 0 {
            let months = Month::map(self.month);
            month_ok = false;
            let mut k: usize = 0;
            while k < 12
                invariant_except_break
                    !month_ok,
                invariant
                    months@.len() == 12,
                    0 <= k <= 12,
                    forall|i: int| 0 <= i < 12 ==> #[trigger] months@[i] == (if bit16(self.month, i) { Some(month_at(i)) } else { None }),
                    forall|i: int| 0 <= i < k ==> !(i == now.month && bit16(self.month, i)),
                ensures
                    month_ok == (now.month < 12 && bit16(self.month, now.month as int)),
                decreases 12 - k,
            {
                match months[k] {
                    Some(m) => {
                        assert(m == month_at(k as int));
                        if m.index() == now.month {
                            month_ok = true;
                            break;
                        }
                    },
                    None => {},
                }
                k = k + 1;
            }
        }
        let mut day_ok = true;
        if self.days != 0 {
            let days = Day::map(self.days);
            day_ok = false;
            let mut k: usize = 0;
            while k < 7
                invariant_except_break
                    !day_ok,
                invariant
                    days@.len() == 7,
                    0 <= k <= 7,
                    forall|i: int| 0 <= i < 7 ==> #[trigger] days@[i] == (if bit8(self.days, i) { Some(day_at(i)) } else { None }),
                    forall|i: int| 0 <= i < k ==> !(i == now.wday && bit8(self.days, i)),
                ensures
                    day_ok == (now.wday < 7 && bit8(self.days, now.wday as int)),
                decreases 7 - k,
            {
                match days[k] {
                    Some(d) => {
                        assert(d == day_at(k as int));
                        if d.index() == now.wday {
                            day_ok = true;
                            break;
                        }
                    },
                    None => {},
                }
                k = k + 1;
            }
        }
        let hour_ok = self.hour == 0 || self.hour - 1 == now.hour;
        let minute_ok = self.minute == 0 || self.minute - 1 == now.minute;
        month_ok && day_ok && hour_ok && minute_ok
    }
}

/// The schedules, the schedule staged by `AT+SCH=` and the position it will
/// be stored at by `AT+SCH`.
#[derive(Debug)]
pub struct ScheduleController {
    pub schedules: Vec<Schedule>,
    pub staged_index: usize,
    pub staged: Schedule,
}

/// The description `Schedule <n>` given to schedule `n` at start-up.
pub open spec fn default_schedule_name(n: nat) -> Seq<u8> {
    seq![83u8, 99u8, 104u8, 101u8, 100u8, 117u8, 108u8, 101u8, 32u8] + decimal_digits(n)
}

/// A zone entry of a schedule as `AT+SCH?` prints it: `Relay <n>=<minutes>`
/// or `None`.
pub open spec fn zone_entry_text(z: Option<(ZoneRelay, u8)>) -> Seq<u8> {
    match z {
        Some((relay, minutes)) => relay_name(relay) + seq![61u8] + decimal_digits(minutes as nat),
        None => seq![78u8, 111u8, 110u8, 101u8],
    }
}

/// The zone entries, each followed by `, `.
pub open spec fn zone_entries(zs: Seq<Option<(ZoneRelay, u8)>>) -> Seq<u8>
    decreases zs.len(),
{
    if zs.len() == 0 {
        Seq::empty()
    } else {
        zone_entries(zs.drop_last()) + zone_entry_text(zs.last()) + seq![44u8, 32u8]
    }
}

/// The zones of a schedule as `AT+SCH?` prints them: `[` and `]` around the
/// entries, separated by `, `.
pub open spec fn zones_text(zs: Seq<Option<(ZoneRelay, u8)>>) -> Seq<u8> {
    let body = seq![91u8] + zone_entries(zs);
    let trimmed = if body.len() >= 2 { body.take(body.len() - 2) } else { Seq::empty() };
    trimmed + seq![93u8]
}

/// The answer to `AT+SCH?` for the staged schedule at position `index`:
/// position, minute, hour, days, month, description and zones separated by
/// commas, cut to `RESPONSE_MAX` bytes.
pub open spec fn schedule_query_text(index: usize, s: ScheduleView) -> Seq<u8> {
    capped(
        decimal_digits(index as nat) + seq![44u8] + decimal_digits(s.minute as nat) + seq![44u8]
            + decimal_digits(s.hour as nat) + seq![44u8] + decimal_digits(s.days as nat) + seq![44u8]
            + decimal_digits(s.month as nat) + seq![44u8] + s.description + seq![44u8] + zones_text(s.zones),
        RESPONSE_MAX as nat,
    )
}

/// Position of the first schedule due at `now`.
pub open spec fn first_executable(ss: Seq<ScheduleView>, now: DateTime) -> Option<int> {
    if exists|i: int| 0 <= i < ss.len() && executable_spec(ss[i], now) {
        Some(choose|i: int| 0 <= i < ss.len() && executable_spec(ss[i], now)
            && forall|j: int| 0 <= j < i ==> !executable_spec(#[trigger] ss[j], now))
    } else {
        None
    }
}

/// Whether a zone slot waters `relay`.
pub open spec fn waters(z: Option<(ZoneRelay, u8)>, relay: ZoneRelay) -> bool {
    z matches Some((r, _)) && r == relay
}

/// Where `AT+SCH=<i>,zn,<relay>,<minutes>` puts the zone: the slot that
/// already waters `relay`, else the first free slot.
pub open spec fn zone_slot(zs: Seq<Option<(ZoneRelay, u8)>>, relay: ZoneRelay) -> Option<int> {
    if exists|i: int| 0 <= i < zs.len() && #[trigger] waters(zs[i], relay) {
        Some(choose|i: int| 0 <= i < zs.len() && #[trigger] waters(zs[i], relay)
            && forall|j: int| 0 <= j < i ==> !waters(#[trigger] zs[j], relay))
    } else if exists|i: int| 0 <= i < zs.len() && zs[i] is None {
        Some(choose|i: int| 0 <= i < zs.len() && zs[i] is None
            && forall|j: int| 0 <= j < i ==> !(#[trigger] zs[j] is None))
    } else {
        None
    }
}

/// Two-letter sub-commands of `AT+SCH=`.
pub open spec fn word2(a: u8, b: u8) -> Seq<u8> {
    seq![a, b]
}

/// Outcome of `AT+SCH=` on the staged position and schedule, given the
/// arguments `args[0..4]`: the answer (`Ok(true)` asks the caller to save
/// the schedules), then the staged position and schedule afterwards. The
/// staged position takes the first argument as soon as the first two
/// arguments are read, whatever follows.
pub open spec fn schedule_set_spec(index: usize, staged: ScheduleView, args: Seq<Option<Seq<u8>>>, logged: bool)
    -> (Result<bool, CommandError>, usize, ScheduleView)
{
    if !logged {
        (Err(CommandError::NotLogged), index, staged)
    } else if args[0] is None || parse_unsigned_spec(args[0].unwrap(), usize::MAX as nat) is None || args[1] is None {
        (Err(CommandError::InvalidArgs), index, staged)
    } else {
        let idx = parse_unsigned_spec(args[0].unwrap(), usize::MAX as nat).unwrap() as usize;
        let cmd = args[1].unwrap();
        let bad = (Err(CommandError::InvalidArgs), idx, staged);
        let num8 = if args[2] is Some { parse_unsigned_spec(args[2].unwrap(), 255) } else { None };
        if cmd == word2(109, 105) || cmd == word2(104, 114) || cmd == word2(100, 121) {
            match num8 {
                None => bad,
                Some(v) => (Ok(false), idx,
                    if cmd == word2(109, 105) { ScheduleView { minute: v as u8, ..staged } }
                    else if cmd == word2(104, 114) { ScheduleView { hour: v as u8, ..staged } }
                    else { ScheduleView { days: v as u8, ..staged } }),
            }
        } else if cmd == word2(109, 111) {
            if args[2] is None || parse_unsigned_spec(args[2].unwrap(), 0xFFFF) is None {
                bad
            } else {
                (Ok(false), idx, ScheduleView { month: parse_unsigned_spec(args[2].unwrap(), 0xFFFF).unwrap() as u16, ..staged })
            }
        } else if cmd == word2(100, 115) {
            if args[2] is None {
                bad
            } else if args[2].unwrap().len() > DESCRIPTION_MAX {
                (Err(CommandError::DescriptionTooLong), idx, staged)
            } else {
                (Ok(false), idx, ScheduleView { description: args[2].unwrap(), ..staged })
            }
        } else if cmd == word2(122, 110) {
            let minutes = if args[3] is Some { parse_unsigned_spec(args[3].unwrap(), 255) } else { None };
            match (num8, minutes) {
                (Some(r), Some(m)) => {
                    let relay = relay_of_number(r as u8);
                    match zone_slot(staged.zones, relay) {
                        Some(p) => (Ok(false), idx, ScheduleView { zones: staged.zones.update(p, Some((relay, m as u8))), ..staged }),
                        None => bad,
                    }
                },
                _ => bad,
            }
        } else if cmd == word2(115, 116) {
            match num8 {
                None => bad,
                Some(v) => (Ok(false), idx, ScheduleView { status: status_of_code(v as u8), ..staged }),
            }
        } else if cmd == word2(115, 118) {
            (Ok(true), idx, staged)
        } else {
            bad
        }
    }
}

/// The two-letter sub-command `ab`.
fn word(a: u8, b: u8) -> (r: Vec<u8>)
    ensures
        r@ == word2(a, b),
{
    let mut r: Vec<u8> = Vec::new();
    r.push(a);
    r.push(b);
    assert(r@ =~= word2(a, b));
    r
}

/// Reads an optional argument as a number no larger than `max`.
fn arg_number(a: &Option<Vec<u8>>, max: u64) -> (r: Option<u64>)
    ensures
        match a {
            Some(v) => match parse_unsigned_spec(v@, max as nat) {
                Some(n) => r == Some(n as u64),
                None => r is None,
            },
            None => r is None,
        },
{
    match a {
        Some(v) => parse_unsigned(v, max),
        None => None,
    }
}

impl ScheduleController {
    /// Four schedules that nobody has edited, and an empty staged schedule at
    /// position 0.
    pub fn new() -> (r: ScheduleController)
        ensures
            r@.len() == SIZE,
            forall|i: int| 0 <= i < 4 ==> #[trigger] r@[i] == empty_schedule(),
            r.staged_index == 0,
            r.staged@ == empty_schedule(),
    {
        let mut schedules: Vec<Schedule> = Vec::new();
        schedules.push(Schedule::new());
        schedules.push(Schedule::new());
        schedules.push(Schedule::new());
        schedules.push(Schedule::new());
        ScheduleController { schedules, staged_index: 0, staged: Schedule::new() }
    }

    /// The schedules, in order.
    pub open spec fn view(&self) -> Seq<ScheduleView> {
        self.schedules@.map_values(|s: Schedule| s@)
    }

    /// Gives each schedule its start-up description `Schedule <n>` and makes
    /// it inactive.
    pub fn apply_defaults(&mut self)
        ensures
            final(self)@.len() == old(self)@.len(),
            final(self).staged@ == old(self).staged@,
            final(self).staged_index == old(self).staged_index,
            forall|i: int| 0 <= i < old(self)@.len() ==> #[trigger] final(self)@[i] == (ScheduleView {
                description: default_schedule_name(i as nat),
                status: Status::UNACTIVE,
                ..old(self)@[i]
            }),
    {
        let n = self.schedules.len();
        let mut i: usize = 0;
        while i < n
            invariant
                n == self.schedules@.len(),
                n == old(self).schedules@.len(),
                0 <= i <= n,
                self.staged@ == old(self).staged@,
                self.staged_index == old(self).staged_index,
                forall|j: int| i <= j < n ==> #[trigger] self.schedules@[j]@ == old(self).schedules@[j]@,
                forall|j: int| 0 <= j < i ==> #[trigger] self.schedules@[j]@ == (ScheduleView {
                    description: default_schedule_name(j as nat),
                    status: Status::UNACTIVE,
                    ..old(self).schedules@[j]@
                }),
            decreases n - i,
        {
            assert(self.schedules@[i as int]@ == old(self).schedules@[i as int]@);
            let mut s = self.schedules[i].duplicate();
            let mut name: Vec<u8> = vec![83u8, 99u8, 104u8, 101u8, 100u8, 117u8, 108u8, 101u8, 32u8];
            push_decimal(&mut name, i as u64);
            s.description = name;
            s.status = Status::UNACTIVE;
            self.schedules.set(i, s);
            i = i + 1;
        }
    }

    /// `AT+SCH`: stores the staged schedule at the staged position, then
    /// resets both. Needs a logged-in user and a staged schedule that differs
    /// from an unedited one; a position past the end answers `InvalidArgs`
    /// and keeps the staged schedule.
    pub fn exec(&mut self, logged: bool) -> (r: Result<(), CommandError>)
        ensures
            !logged ==> r == Err::<(), CommandError>(CommandError::NotLogged),
            logged && old(self).staged@ == empty_schedule() ==> r == Err::<(), CommandError>(CommandError::NothingModified),
            logged && old(self).staged@ != empty_schedule() && old(self).staged_index >= old(self)@.len() ==> r == Err::<(), CommandError>(CommandError::InvalidArgs),
            r is Err ==> final(self)@ == old(self)@ && final(self).staged@ == old(self).staged@ && final(self).staged_index == old(self).staged_index,
            r is Ok ==> logged && old(self).staged_index < old(self)@.len()
                && final(self)@ == old(self)@.update(old(self).staged_index as int, old(self).staged@)
                && final(self).staged@ == empty_schedule() && final(self).staged_index == 0,
            logged && old(self).staged@ != empty_schedule() && old(self).staged_index < old(self)@.len() ==> r is Ok,
    {
        if !logged {
            return Err(CommandError::NotLogged);
        }
        if !Schedule::is_modified(&self.staged) {
            return Err(CommandError::NothingModified);
        }
        let idx = self.staged_index;
        if idx >= self.schedules.len() {
            return Err(CommandError::InvalidArgs);
        }
        let s = self.staged.duplicate();
        self.schedules.set(idx, s);
        self.staged = Schedule::new();
        self.staged_index = 0;
        assert(self@ =~= old(self)@.update(idx as int, old(self).staged@));
        Ok(())
    }

    /// `AT+SCH=?`: the forms the command takes.
    pub fn test(&self) -> (r: &'static str)
        ensures
            r@ == "<idx>,<mi|hr|dy|mo|ds|zn|st>,<value> | sv"@,
    {
        "<idx>,<mi|hr|dy|mo|ds|zn|st>,<value> | sv"
    }

    /// `AT+SCH?`: describes the staged schedule and its position (see
    /// `schedule_query_text`). Needs no login.
    pub fn query(&self) -> (r: Vec<u8>)
        ensures
            r@ == schedule_query_text(self.staged_index, self.staged@),
    {
        let s = &self.staged;
        let mut zones: Vec<u8> = vec![91u8];
        let mut k: usize = 0;
        assert(s.zones@.take(0) =~= Seq::<Option<(ZoneRelay, u8)>>::empty());
        assert(zones@ =~= seq![91u8] + zone_entries(s.zones@.take(0)));
        while k < s.zones.len()
            invariant
                0 <= k <= s.zones@.len(),
                zones@ == seq![91u8] + zone_entries(s.zones@.take(k as int)),
            decreases s.zones.len() - k,
        {
            let ghost prev = zones@;
            match s.zones[k] {
                Some((relay, minutes)) => {
                    relay.push_name(&mut zones);
                    zones.push(61u8);
                    push_decimal(&mut zones, minutes as u64);
                },
                None => {
                    zones.push(78u8);
                    zones.push(111u8);
                    zones.push(110u8);
                    zones.push(101u8);
                },
            }
            zones.push(44u8);
            zones.push(32u8);
            assert(s.zones@.take(k as int + 1).drop_last() =~= s.zones@.take(k as int));
            assert(zones@ =~= prev + zone_entry_text(s.zones@[k as int]) + seq![44u8, 32u8]);
            k = k + 1;
        }
        assert(s.zones@.take(k as int) =~= s.zones@);
        let ghost body = zones@;
        zones.pop();
        zones.pop();
        zones.push(93u8);
        assert(zones@ =~= zones_text(s.zones@));
        let mut full: Vec<u8> = Vec::new();
        push_decimal(&mut full, self.staged_index as u64);
        full.push(44u8);
        push_decimal(&mut full, s.minute as u64);
        full.push(44u8);
        push_decimal(&mut full, s.hour as u64);
        full.push(44u8);
        push_decimal(&mut full, s.days as u64);
        full.push(44u8);
        push_decimal(&mut full, s.month as u64);
        full.push(44u8);
        let mut d: usize = 0;
        let ghost before = full@;
        while d < s.description.len()
            invariant
                0 <= d <= s.description@.len(),
                full@ == before + s.description@.take(d as int),
            decreases s.description.len() - d,
        {
            full.push(s.description[d]);
            d = d + 1;
            assert(full@ =~= before + s.description@.take(d as int));
        }
        assert(s.description@.take(d as int) =~= s.description@);
        full.push(44u8);
        let ghost before_zones = full@;
        let mut z: usize = 0;
        while z < zones.len()
            invariant
                0 <= z <= zones@.len(),
                full@ == before_zones + zones@.take(z as int),
            decreases zones.len() - z,
        {
            full.push(zones[z]);
            z = z + 1;
            assert(full@ =~= before_zones + zones@.take(z as int));
        }
        assert(zones@.take(z as int) =~= zones@);
        let mut response: Vec<u8> = Vec::new();
        append_capped(&mut response, full.as_slice(), RESPONSE_MAX);
        assert(Seq::<u8>::empty() + full@ =~= full@);
        assert(full@ =~= decimal_digits(self.staged_index as nat) + seq![44u8] + decimal_digits(s.minute as nat) + seq![44u8]
            + decimal_digits(s.hour as nat) + seq![44u8] + decimal_digits(s.days as nat) + seq![44u8]
            + decimal_digits(s.month as nat) + seq![44u8] + s.description@ + seq![44u8] + zones_text(s.zones@));
        response
    }

    /// `AT+SCH=<i>,<mi|hr|dy|mo|ds|zn|st>,<value>[,<minutes>]` or
    /// `AT+SCH=<i>,sv`: edits the staged schedule (see `schedule_set_spec`).
    pub fn set(&mut self, raw: &str, logged: bool) -> (r: Result<bool, CommandError>)
        ensures
            ({
                let args = Seq::new(4, |i: int| at_argument(raw@, i as usize));
                schedule_set_spec(old(self).staged_index, old(self).staged@, args, logged)
                    == (r, final(self).staged_index, final(self).staged@)
            }),
            final(self)@ == old(self)@,
    {
        let args = command_args4(raw);
        let ghost spec_args = Seq::new(4, |i: int| at_argument(raw@, i as usize));
        assert(args@.map_values(|a: Option<Vec<u8>>| match a { Some(v) => Some(v@), None => None }) =~= spec_args);
        self.set_args(&args, logged)
    }

    /// The `AT+SCH=` command on already split arguments (see
    /// `schedule_set_spec`).
    pub fn set_args(&mut self, args: &[Option<Vec<u8>>; 4], logged: bool) -> (r: Result<bool, CommandError>)
        ensures
            schedule_set_spec(old(self).staged_index, old(self).staged@,
                args@.map_values(|a: Option<Vec<u8>>| match a { Some(v) => Some(v@), None => None }), logged)
                == (r, final(self).staged_index, final(self).staged@),
            final(self)@ == old(self)@,
    {
        let ghost sargs = args@.map_values(|a: Option<Vec<u8>>| match a { Some(v) => Some(v@), None => None });
        assert(sargs.len() == 4);
        assert(forall|i: int| 0 <= i < 4 ==> #[trigger] sargs[i] == (match args@[i] { Some(v) => Some(v@), None => None::<Seq<u8>> }));
        if !logged {
            return Err(CommandError::NotLogged);
        }
        let idx: usize = match arg_number(&args[0], usize::MAX as u64) {
            Some(v) => v as usize,
            None => { return Err(CommandError::InvalidArgs); },
        };
        let cmd: &Vec<u8> = match &args[1] {
            Some(c) => c,
            None => { return Err(CommandError::InvalidArgs); },
        };
        self.staged_index = idx;
        let num8 = arg_number(&args[2], 255);
        if bytes_eq(cmd, &word(109, 105)) || bytes_eq(cmd, &word(104, 114)) || bytes_eq(cmd, &word(100, 121)) {
            match num8 {
                None => { return Err(CommandError::InvalidArgs); },
                Some(v) => {
                    if bytes_eq(cmd, &word(109, 105)) {
                        self.staged.minute = v as u8;
                    } else if bytes_eq(cmd, &word(104, 114)) {
                        self.staged.hour = v as u8;
                    } else {
                        self.staged.days = v as u8;
                    }
                    assert(schedule_set_spec(old(self).staged_index, old(self).staged@, sargs, logged) == (Ok::<bool, CommandError>(false), self.staged_index, self.staged@));
                },
            }
        } else if bytes_eq(cmd, &word(109, 111)) {
            match arg_number(&args[2], 0xFFFF) {
                None => { return Err(CommandError::InvalidArgs); },
                Some(v) => { self.staged.month = v as u16; assert(schedule_set_spec(old(self).staged_index, old(self).staged@, sargs, logged) == (Ok::<bool, CommandError>(false), self.staged_index, self.staged@)); },
            }
        } else if bytes_eq(cmd, &word(100, 115)) {
            match &args[2] {
                None => { return Err(CommandError::InvalidArgs); },
                Some(a) => {
                    if a.len() > DESCRIPTION_MAX {
                        return Err(CommandError::DescriptionTooLong);
                    }
                    self.staged.description = copy_bytes(a);
                    assert(schedule_set_spec(old(self).staged_index, old(self).staged@, sargs, logged) == (Ok::<bool, CommandError>(false), self.staged_index, self.staged@));
                },
            }
        } else if bytes_eq(cmd, &word(122, 110)) {
            let minutes = arg_number(&args[3], 255);
            match (num8, minutes) {
                (Some(r), Some(m)) => {
                    let relay = ZoneRelay::from_u8(r as u8);
                    match Self::find_slot(&self.staged.zones, relay) {
                        Some(p) => {
                            self.staged.zones.set(p, Some((relay, m as u8)));
                            assert(schedule_set_spec(old(self).staged_index, old(self).staged@, sargs, logged) == (Ok::<bool, CommandError>(false), self.staged_index, self.staged@)); },
                        None => { return Err(CommandError::InvalidArgs); },
                    }
                },
                _ => { return Err(CommandError::InvalidArgs); },
            }
        } else if bytes_eq(cmd, &word(115, 116)) {
            match num8 {
                None => { return Err(CommandError::InvalidArgs); },
                Some(v) => { self.staged.status = Status::from_u8(v as u8); assert(schedule_set_spec(old(self).staged_index, old(self).staged@, sargs, logged) == (Ok::<bool, CommandError>(false), self.staged_index, self.staged@)); },
            }
        } else if bytes_eq(cmd, &word(115, 118)) {
            return Ok(true);
        } else {
            return Err(CommandError::InvalidArgs);
        }
        Ok(false)
    }

    /// The slot for `relay` (see `zone_slot`).
    fn find_slot(zs: &Vec<Option<(ZoneRelay, u8)>>, relay: ZoneRelay) -> (r: Option<usize>)
        ensures
            match zone_slot(zs@, relay) {
                Some(p) => 0 <= p < zs@.len() && (r matches Some(x) && x == p),
                None => r is None,
            },
            r matches Some(p) ==> p < zs@.len(),
    {
        let mut i: usize = 0;
        while i < zs.len()
            invariant
                0 <= i <= zs@.len(),
                forall|j: int| 0 <= j < i ==> !waters(#[trigger] zs@[j], relay),
            decreases zs.len() - i,
        {
            match zs[i] {
                Some((r, _)) => {
                    if r == relay {
                        proof {
                            assert(waters(zs@[i as int], relay));
                            let c = choose|c: int| 0 <= c < zs@.len() && #[trigger] waters(zs@[c], relay)
                                && forall|j: int| 0 <= j < c ==> !waters(#[trigger] zs@[j], relay);
                            if c < i { assert(!waters(zs@[c], relay)); }
                            if c > i { assert(!waters(zs@[i as int], relay)); }
                        }
                        return Some(i);
                    }
                },
                None => {},
            }
            i = i + 1;
        }
        let mut i: usize = 0;
        while i < zs.len()
            invariant
                0 <= i <= zs@.len(),
                forall|j: int| 0 <= j < zs@.len() ==> !waters(#[trigger] zs@[j], relay),
                forall|j: int| 0 <= j < i ==> !(#[trigger] zs@[j] is None),
            decreases zs.len() - i,
        {
            if zs[i].is_none() {
                proof {
                    assert(zs@[i as int] is None);
                    assert(!exists|c: int| 0 <= c < zs@.len() && #[trigger] waters(zs@[c], relay));
                    let c = choose|c: int| 0 <= c < zs@.len() && zs@[c] is None
                        && forall|j: int| 0 <= j < c ==> !(#[trigger] zs@[j] is None);
                    if c < i { assert(!(zs@[c] is None)); }
                    if c > i { assert(!(zs@[i as int] is None)); }
                }
                return Some(i);
            }
            i = i + 1;
        }
        assert(!exists|c: int| 0 <= c < zs@.len() && #[trigger] waters(zs@[c], relay));
        assert(!exists|c: int| 0 <= c < zs@.len() && zs@[c] is None);
        None
    }
}

/// Starts the watering of the first schedule that is due, unless a watering
/// is already in progress.
#[derive(Debug)]
pub struct Sprinkler {
    pub in_progress: bool,
}

impl Sprinkler {
    /// No watering in progress.
    pub fn new() -> (r: Sprinkler)
        ensures
            !r.in_progress,
    {
        Sprinkler { in_progress: false }
    }

    /// When no watering is in progress and a schedule is due at `now`, marks
    /// the first due schedule as running and the watering as in progress;
    /// otherwise changes nothing.
    pub fn check(&mut self, controller: &mut ScheduleController, now: &DateTime)
        ensures
            final(controller).staged@ == old(controller).staged@,
            final(controller).staged_index == old(controller).staged_index,
            old(self).in_progress ==> final(self).in_progress && final(controller)@ == old(controller)@,
            !old(self).in_progress ==> match first_executable(old(controller)@, *now) {
                Some(i) => final(self).in_progress
                    && final(controller)@ == old(controller)@.update(i, ScheduleView { status: Status::RUN, ..old(controller)@[i] }),
                None => !final(self).in_progress && final(controller)@ == old(controller)@,
            },
    {
        if self.in_progress {
            return;
        }
        let n = controller.schedules.len();
        let mut i: usize = 0;
        while i < n
            invariant
                n == controller.schedules@.len(),
                controller@ == old(controller)@,
                controller.staged@ == old(controller).staged@,
                controller.staged_index == old(controller).staged_index,
                0 <= i <= n,
                !self.in_progress,
                !old(self).in_progress,
                forall|j: int| 0 <= j < i ==> !executable_spec(#[trigger] old(controller)@[j], *now),
            decreases n - i,
        {
            if controller.schedules[i].executable(now) {
                proof {
                    let ss = old(controller)@;
                    assert(executable_spec(ss[i as int], *now));
                    let c = choose|c: int| 0 <= c < ss.len() && executable_spec(ss[c], *now)
                        && forall|j: int| 0 <= j < c ==> !executable_spec(#[trigger] ss[j], *now);
                    if c < i { assert(!executable_spec(ss[c], *now)); }
                    if c > i { assert(!executable_spec(ss[i as int], *now)); }
                }
                self.in_progress = true;
                let mut s = controller.schedules[i].duplicate();
                s.status = Status::RUN;
                controller.schedules.set(i, s);
                assert(controller@ =~= old(controller)@.update(i as int, ScheduleView { status: Status::RUN, ..old(controller)@[i as int] }));
                return;
            }
            i = i + 1;
        }
    }
}

/// A schedule is due at `now` exactly when it is not running and each of its
/// settings is unset (zero) or names `now`: the month mask has the bit of
/// `now.month` set, the day mask the bit of `now.wday` (Sunday being bit
/// 0), and the hour and the minute, stored plus one, are those of `now`. In
/// particular a schedule whose day mask leaves out today's bit is not due.
pub proof fn lemma_due_when_every_setting_matches(s: ScheduleView, now: DateTime)
    ensures
        executable_spec(s, now) <==> {
            &&& s.status != Status::RUN
            &&& (s.month == 0 || (now.month < 12 && s.month & (1u16 << now.month) != 0))
            &&& (s.days == 0 || (now.wday < 7 && s.days & (1u8 << now.wday) != 0))
            &&& (s.hour == 0 || now.hour + 1 == s.hour)
            &&& (s.minute == 0 || now.minute + 1 == s.minute)
        },
{
    let d = s.days;
    let w = now.wday;
    let m = s.month;
    let mo = now.month;
    assert(w < 7 ==> (((d >> w) & 1u8 == 1u8) <==> (d & (1u8 << w) != 0))) by (bit_vector);
    assert(mo < 12 ==> (((m >> (mo as u16)) & 1u16 == 1u16) <==> (m & (1u16 << mo) != 0))) by (bit_vector);
}

/// `AT+SCH=<i>,mi,<v>`, `AT+SCH=<i>,hr,<v>` and `AT+SCH=<i>,dy,<v>` from a
/// logged-in user, with a position `i` and a number `v` up to 255, answer
/// `Ok(false)`, stage position `i`, and set the minute, the hour or the day
/// mask of the staged schedule to `v`, keeping every other setting.
pub proof fn lemma_schedule_field_set(index: usize, staged: ScheduleView, args: Seq<Option<Seq<u8>>>, i: nat, v: nat)
    requires
        args.len() == 4,
        args[0] is Some && parse_unsigned_spec(args[0].unwrap(), usize::MAX as nat) == Some(i),
        args[2] is Some && parse_unsigned_spec(args[2].unwrap(), 255) == Some(v),
        args[1] == Some(seq![109u8, 105u8]) || args[1] == Some(seq![104u8, 114u8]) || args[1] == Some(seq![100u8, 121u8]),
    ensures
        ({
            let (res, idx, after) = schedule_set_spec(index, staged, args, true);
            &&& res == Ok::<bool, CommandError>(false)
            &&& idx == i
            &&& after.minute == if args[1] == Some(seq![109u8, 105u8]) { v as u8 } else { staged.minute }
            &&& after.hour == if args[1] == Some(seq![104u8, 114u8]) { v as u8 } else { staged.hour }
            &&& after.days == if args[1] == Some(seq![100u8, 121u8]) { v as u8 } else { staged.days }
            &&& after.month == staged.month
            &&& after.description == staged.description
            &&& after.zones == staged.zones
            &&& after.status == staged.status
        }),
{
    let cmd = args[1].unwrap();
    assert(seq![109u8, 105u8] != seq![104u8, 114u8]) by { assert(seq![109u8, 105u8][0] != seq![104u8, 114u8][0]); }
    assert(seq![109u8, 105u8] != seq![100u8, 121u8]) by { assert(seq![109u8, 105u8][0] != seq![100u8, 121u8][0]); }
    assert(seq![104u8, 114u8] != seq![100u8, 121u8]) by { assert(seq![104u8, 114u8][0] != seq![100u8, 121u8][0]); }
    assert(word2(109, 105) == seq![109u8, 105u8]);
    assert(word2(104, 114) == seq![104u8, 114u8]);
    assert(word2(100, 121) == seq![100u8, 121u8]);
}

/// A zone on `relay` at `k` means a first one exists at or before `k`.
proof fn lemma_first_zone_witness(zones: Seq<ZoneView>, relay: ZoneRelay, k: int) -> (j: int)
    requires
        0 <= k < zones.len(),
        zones[k].zone_relay == relay,
    ensures
        0 <= j <= k,
        zones[j].zone_relay == relay,
        forall|l: int| 0 <= l < j ==> #[trigger] zones[l].zone_relay != relay,
    decreases k,
{
    if exists|l: int| 0 <= l < k && zones[l].zone_relay == relay {
        let l = choose|l: int| 0 <= l < k && zones[l].zone_relay == relay;
        lemma_first_zone_witness(zones, relay, l)
    } else {
        k
    }
}

/// Some zone is on `relay` exactly when `first_zone_on` finds one, and the
/// one it finds is on `relay`.
proof fn lemma_first_zone_found(zones: Seq<ZoneView>, relay: ZoneRelay)
    ensures
        (exists|i: int| 0 <= i < zones.len() && zones[i].zone_relay == relay) <==> first_zone_on(zones, relay) is Some,
        first_zone_on(zones, relay) matches Some(i) ==> 0 <= i < zones.len() && zones[i].zone_relay == relay,
{
    if exists|i: int| 0 <= i < zones.len() && zones[i].zone_relay == relay {
        let k = choose|i: int| 0 <= i < zones.len() && zones[i].zone_relay == relay;
        let j = lemma_first_zone_witness(zones, relay, k);
        assert(0 <= j < zones.len() && zones[j].zone_relay == relay
            && forall|l: int| 0 <= l < j ==> #[trigger] zones[l].zone_relay != relay);
    }
}

/// `AT+ZN=<relay>,description,<text>` from a logged-in user, on a relay that
/// has a zone and with a text of at most `DESCRIPTION_MAX` bytes, succeeds;
/// whenever it succeeds, the zones are unchanged and the staged zone is the
/// zone on that relay with `<text>` as its description. `AT+ZN=<relay>,weight,<w>`
/// likewise stages that zone with weight `w`.
pub proof fn lemma_zone_text_and_weight_set(zones: Seq<ZoneView>, staged: ZoneView, args: Seq<Option<Seq<u8>>>, logged: bool)
    requires
        args.len() == 4,
    ensures
        ({
            let (res, zones_after, after) = zone_set_spec(zones, staged, args, logged);
            let n = parse_unsigned_spec(args[0].unwrap(), 255);
            let described = args[1] == Some(seq![100u8, 101u8, 115u8, 99u8, 114u8, 105u8, 112u8, 116u8, 105u8, 111u8, 110u8]);
            let weighed = args[1] == Some(seq![119u8, 101u8, 105u8, 103u8, 104u8, 116u8]);
            &&& res is Ok ==> logged && zones_after == zones && args[0] is Some && n is Some
                && (exists|i: int| 0 <= i < zones.len() && zones[i].zone_relay == relay_of_number(n.unwrap() as u8)
                    && after.zone_relay == zones[i].zone_relay && after.status == zones[i].status)
            &&& res is Ok && described ==> after.description == args[2].unwrap()
            &&& res is Ok && weighed ==> args[2] is Some && parse_unsigned_spec(args[2].unwrap(), 255) == Some(after.weight as nat)
            &&& (logged && args[0] is Some && n is Some && described && args[2] is Some
                && args[2].unwrap().len() <= DESCRIPTION_MAX
                && (exists|i: int| 0 <= i < zones.len() && zones[i].zone_relay == relay_of_number(n.unwrap() as u8)))
                ==> res is Ok
        }),
{
    if args[0] is Some && parse_unsigned_spec(args[0].unwrap(), 255) is Some {
        lemma_first_zone_found(zones, relay_of_number(parse_unsigned_spec(args[0].unwrap(), 255).unwrap() as u8));
    }
    assert(word_description() == seq![100u8, 101u8, 115u8, 99u8, 114u8, 105u8, 112u8, 116u8, 105u8, 111u8, 110u8]);
    assert(word_weight() == seq![119u8, 101u8, 105u8, 103u8, 104u8, 116u8]);
    assert(word_description() != word_weight()) by { assert(word_description().len() != word_weight().len()); }
}

} // verus!
