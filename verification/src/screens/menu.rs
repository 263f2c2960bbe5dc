//! The main menu: turning the encoder moves through the entries, a button
//! opens the entry shown.
use vstd::prelude::*;
use crate::signals::EventBits;
use crate::display::input::{raised, DRAW, ROTATED_CLOCKWISE, ROTATED_COUNTER_CLOCKWISE};
use crate::screens::nav::{Answer, Nav, ScreenId};

verus! {

/// Entries of the main menu, in rotation order.
#[derive(Clone, Copy, PartialEq, Eq, Debug, Structural)]
pub enum MenuItem {
    Info,
    DateTime,
    DaylightSavingTime,
    Wifi,
    User,
    Sprinkler,
}

/// Position of an entry in the rotation.
pub open spec fn menu_index(m: MenuItem) -> int {
    match m {
        MenuItem::Info => 0,
        MenuItem::DateTime => 1,
        MenuItem::DaylightSavingTime => 2,
        MenuItem::Wifi => 3,
        MenuItem::User => 4,
        MenuItem::Sprinkler => 5,
    }
}

/// The entry at position `i` of the rotation.
pub open spec fn menu_at(i: int) -> MenuItem {
    if i == 0 { MenuItem::Info }
    else if i == 1 { MenuItem::DateTime }
    else if i == 2 { MenuItem::DaylightSavingTime }
    else if i == 3 { MenuItem::Wifi }
    else if i == 4 { MenuItem::User }
    else { MenuItem::Sprinkler }
}

/// The label of an entry.
pub open spec fn menu_label(m: MenuItem) -> Seq<char> {
    match m {
        MenuItem::Info => "Info"@,
        MenuItem::DateTime => "Date Time"@,
        MenuItem::DaylightSavingTime => "Daylight Saving Time"@,
        MenuItem::Wifi => "Wifi"@,
        MenuItem::User => "User"@,
        MenuItem::Sprinkler => "Sprinkler"@,
    }
}

/// The screen an entry opens.
pub open spec fn menu_screen(m: MenuItem) -> ScreenId {
    match m {
        MenuItem::Info => ScreenId::Info,
        MenuItem::DateTime => ScreenId::DateTime,
        MenuItem::DaylightSavingTime => ScreenId::DaylightSavingTime,
        MenuItem::Wifi => ScreenId::Wifi,
        MenuItem::User => ScreenId::User,
        MenuItem::Sprinkler => ScreenId::Sprinkler,
    }
}

impl MenuItem {
    /// The entry's label.
    pub fn label(self) -> (r: &'static str)
        ensures
            r@ == menu_label(self),
    {
        match self {
            MenuItem::Info => "Info",
            MenuItem::DateTime => "Date Time",
            MenuItem::DaylightSavingTime => "Daylight Saving Time",
            MenuItem::Wifi => "Wifi",
            MenuItem::User => "User",
            MenuItem::Sprinkler => "Sprinkler",
        }
    }

    /// The entry's position in the rotation.
    pub fn index(self) -> (r: usize)
        ensures
            r == menu_index(self),
    {
        match self {
            MenuItem::Info => 0,
            MenuItem::DateTime => 1,
            MenuItem::DaylightSavingTime => 2,
            MenuItem::Wifi => 3,
            MenuItem::User => 4,
            MenuItem::Sprinkler => 5,
        }
    }

    /// The entry at position `i` of the rotation.
    fn at(i: usize) -> (r: MenuItem)
        requires
            i < 6,
        ensures
            r == menu_at(i as int),
    {
        let order = [MenuItem::Info, MenuItem::DateTime, MenuItem::DaylightSavingTime, MenuItem::Wifi,
            MenuItem::User, MenuItem::Sprinkler];
        assert(order@ == seq![MenuItem::Info, MenuItem::DateTime, MenuItem::DaylightSavingTime, MenuItem::Wifi,
            MenuItem::User, MenuItem::Sprinkler]);
        order[i]
    }

    /// The following entry, the last one followed by the first.
    pub fn next(self) -> (r: MenuItem)
        ensures
            r == menu_at((menu_index(self) + 1) % 6),
    {
        MenuItem::at((self.index() + 1) % 6)
    }

    /// The preceding entry, the first one preceded by the last.
    pub fn previous(self) -> (r: MenuItem)
        ensures
            r == menu_at((menu_index(self) + 6 - 1) % 6),
    {
        MenuItem::at((self.index() + 6 - 1) % 6)
    }

    /// The screen the entry opens.
    pub fn screen_id(self) -> (r: ScreenId)
        ensures
            r == menu_screen(self),
    {
        match self {
            MenuItem::Info => ScreenId::Info,
            MenuItem::DateTime => ScreenId::DateTime,
            MenuItem::DaylightSavingTime => ScreenId::DaylightSavingTime,
            MenuItem::Wifi => ScreenId::Wifi,
            MenuItem::User => ScreenId::User,
            MenuItem::Sprinkler => ScreenId::Sprinkler,
        }
    }
}

/// Moving forward then back through the menu, or back then forward, comes
/// back to the same entry; six moves forward go round the whole menu.
pub proof fn lemma_menu_rotation(m: MenuItem)
    ensures
        menu_at((menu_index(menu_at((menu_index(m) + 1) % 6)) + 6 - 1) % 6) == m,
        menu_at((menu_index(menu_at((menu_index(m) + 6 - 1) % 6)) + 1) % 6) == m,
        forall|i: int| 0 <= i < 6 ==> menu_index(#[trigger] menu_at(i)) == i,
        menu_at(menu_index(m) as int) == m,
{
}

/// The main menu.
#[derive(Debug)]
pub struct ScreenMenu {
    pub item: MenuItem,
}

impl ScreenMenu {
    /// The menu on its first entry.
    pub fn new() -> (r: ScreenMenu)
        ensures
            r.item == MenuItem::Info,
    {
        ScreenMenu::with_item(MenuItem::Info)
    }

    /// The menu on entry `item`.
    pub fn with_item(item: MenuItem) -> (r: ScreenMenu)
        ensures
            r.item == item,
    {
        ScreenMenu { item }
    }

    /// The screen's identity.
    pub fn id(&self) -> (r: ScreenId)
        ensures
            r == ScreenId::Menu,
    {
        ScreenId::Menu
    }

    /// Whether the menu is shown only to a logged-in user: it is not.
    pub fn requires_auth(&self) -> (r: bool)
        ensures
            !r,
    {
        false
    }

    /// A turn of the encoder moves to the following or preceding entry and
    /// asks for a draw.
    pub fn update_input(&mut self, signal: &mut EventBits)
        ensures
            raised(*old(signal), ROTATED_CLOCKWISE) ==> final(self).item == menu_at((menu_index(old(self).item) + 1) % 6)
                && *final(signal) == *old(signal) | DRAW,
            !raised(*old(signal), ROTATED_CLOCKWISE) && raised(*old(signal), ROTATED_COUNTER_CLOCKWISE)
                ==> final(self).item == menu_at((menu_index(old(self).item) + 6 - 1) % 6)
                && *final(signal) == *old(signal) | DRAW,
            !raised(*old(signal), ROTATED_CLOCKWISE) && !raised(*old(signal), ROTATED_COUNTER_CLOCKWISE)
                ==> final(self).item == old(self).item && *final(signal) == *old(signal),
    {
        if *signal & ROTATED_CLOCKWISE != 0 {
            self.item = self.item.next();
            *signal = *signal | DRAW;
        } else if *signal & ROTATED_COUNTER_CLOCKWISE != 0 {
            self.item = self.item.previous();
            *signal = *signal | DRAW;
        }
    }

    /// Where the answer of the entry's text leads: a confirmation opens the
    /// entry's screen, anything else stays.
    pub fn on_answer(&self, answer: Answer) -> (r: Nav)
        ensures
            r == if answer == Answer::Confirmed { Nav::Push(menu_screen(self.item)) } else { Nav::Stay },
    {
        match answer {
            Answer::Confirmed => Nav::Push(self.item.screen_id()),
            _ => Nav::Stay,
        }
    }
}

} // verus!
