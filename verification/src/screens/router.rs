//! The router: a stack of screens, the top one drawn. Until the first screen
//! is stacked it waits for the main state machine; protected screens are
//! replaced by the login screen while a local user exists and nobody is
//! logged in.
use vstd::prelude::*;
use crate::signals::{EventBits, StatusFlag, status_bits};
use crate::date_time::DateTime;
use crate::config::WifiConfig;
use crate::session::{Session, MAX_USERS};
use crate::sprinkler::ScheduleController;
use crate::display::input::{DRAW, ENCODER_BUTTON_RELEASED, blank_input, raised};
use crate::screens::nav::{Answer, Effect, Frame, Nav, ScreenId, ScreenTurn, text_answer};
use crate::screens::menu::{MenuItem, ScreenMenu, menu_label, menu_screen};
use crate::screens::login::{LoginState, ScreenLogin, login_turn};
use crate::screens::wifi::{ScreenWifi, WifiState, wifi_turn};
use crate::screens::user::{ScreenUser, UserState, saved_user, user_turn};
use crate::screens::date_time::{DateTimeState, ScreenDateTime, date_time_turn};
use crate::screens::misc::{ScreenDaylightSavingTime, ScreenInfo, ScreenSetConfig, dst_turn, info_text};
use crate::screens::sprinkler::{ScreenSprinkler, SprinklerState, sprinkler_turn};
use crate::text_format::ascii_bytes;

verus! {

/// The button events, cleared when the screen changes so that the new
/// screen does not see the press that opened it.
pub const BUTTON_MASK: u32 = 0x0F;

/// Turns of the status flag a stage must be seen in before the first screen
/// is stacked.
pub const CHECK_STATUS_THRESHOLD: u8 = 5;

/// A screen on the stack, with its state.
#[derive(Debug)]
pub enum Screen {
    SetConfig(ScreenSetConfig),
    Login(ScreenLogin),
    Menu(ScreenMenu),
    Info(ScreenInfo),
    DateTime(ScreenDateTime),
    DaylightSavingTime(ScreenDaylightSavingTime),
    Wifi(ScreenWifi),
    User(ScreenUser),
    Sprinkler(ScreenSprinkler),
}

/// The identity of a screen.
pub open spec fn screen_id(s: Screen) -> ScreenId {
    match s {
        Screen::SetConfig(_) => ScreenId::SetConfig,
        Screen::Login(_) => ScreenId::Login,
        Screen::Menu(_) => ScreenId::Menu,
        Screen::Info(_) => ScreenId::Info,
        Screen::DateTime(_) => ScreenId::DateTime,
        Screen::DaylightSavingTime(_) => ScreenId::DaylightSavingTime,
        Screen::Wifi(_) => ScreenId::Wifi,
        Screen::User(_) => ScreenId::User,
        Screen::Sprinkler(_) => ScreenId::Sprinkler,
    }
}

/// Whether a screen is shown only to a logged-in user: all but the menu,
/// the information and the login screens.
pub open spec fn requires_auth_spec(id: ScreenId) -> bool {
    !(id == ScreenId::Menu || id == ScreenId::Info || id == ScreenId::Login)
}

/// The identities of the stacked screens, bottom first.
pub open spec fn stack_ids(s: Seq<Screen>) -> Seq<ScreenId> {
    Seq::new(s.len(), |i: int| screen_id(s[i]))
}

/// The screen stacked for a request to open `id`: the login screen in place
/// of a protected screen while a local user exists and nobody is logged in.
pub open spec fn pushed_id(id: ScreenId, local_user: bool, logged: bool) -> ScreenId {
    if requires_auth_spec(id) && local_user && !logged { ScreenId::Login } else { id }
}

/// The stack after going back down to the first screen `id` from the top;
/// empty when there is none.
pub open spec fn popped_to(ids: Seq<ScreenId>, id: ScreenId) -> Seq<ScreenId>
    decreases ids.len(),
{
    if ids.len() == 0 || ids.last() == id { ids } else { popped_to(ids.drop_last(), id) }
}

/// The stack after a navigation.
pub open spec fn navigated(ids: Seq<ScreenId>, nav: Nav, local_user: bool, logged: bool) -> Seq<ScreenId> {
    match nav {
        Nav::Stay => ids,
        Nav::Push(id) => ids.push(pushed_id(id, local_user, logged)),
        Nav::Pop => if ids.len() > 0 { ids.drop_last() } else { ids },
        Nav::PopTo(id) => popped_to(ids, id),
        Nav::Replace(id) => (if ids.len() > 0 { ids.drop_last() } else { ids }).push(pushed_id(id, local_user, logged)),
    }
}

/// The event bits after a change of screen: the button events cleared and a
/// draw asked for.
pub open spec fn changed_bits(signal: EventBits) -> EventBits {
    (signal & !BUTTON_MASK) | DRAW
}

/// What the screens need to know of the rest of the controller for a turn.
#[derive(Debug)]
pub struct ScreenContext {
    /// The tick count.
    pub ticks: u32,
    /// The clock's date and time.
    pub now: DateTime,
    /// Whether daylight saving time is enabled.
    pub dst_enabled: bool,
    /// The IP address of the controller.
    pub ip: Vec<u8>,
}

impl Screen {
    /// The screen's state is well formed.
    pub open spec fn wf(&self) -> bool {
        match self {
            Screen::Login(s) => s.wf(),
            Screen::DateTime(s) => s.wf(),
            Screen::Wifi(s) => s.wf(),
            Screen::User(s) => s.wf(),
            Screen::Sprinkler(s) => s.wf(),
            _ => true,
        }
    }

    /// Whether a turn of the screen can be drawn: the screen shown while the
    /// configuration is missing has no drawing, and the date and time
    /// editors must keep their field within `i32`.
    pub open spec fn can_draw(&self, signal: EventBits, now: DateTime) -> bool {
        match self {
            Screen::SetConfig(_) => false,
            Screen::DateTime(s) => s.can_draw(signal, now),
            _ => true,
        }
    }

    /// Whether a turn of the screen can be drawn (see `can_draw`).
    pub fn can_draw_now(&self, signal: EventBits, now: &DateTime) -> (r: bool)
        requires
            self.wf(),
        ensures
            r == self.can_draw(signal, *now),
    {
        match self {
            Screen::SetConfig(_) => false,
            Screen::DateTime(s) => s.can_draw_now(signal, now),
            _ => true,
        }
    }

    /// The screen's identity.
    pub fn id(&self) -> (r: ScreenId)
        ensures
            r == screen_id(*self),
    {
        match self {
            Screen::SetConfig(_) => ScreenId::SetConfig,
            Screen::Login(_) => ScreenId::Login,
            Screen::Menu(_) => ScreenId::Menu,
            Screen::Info(_) => ScreenId::Info,
            Screen::DateTime(_) => ScreenId::DateTime,
            Screen::DaylightSavingTime(_) => ScreenId::DaylightSavingTime,
            Screen::Wifi(_) => ScreenId::Wifi,
            Screen::User(_) => ScreenId::User,
            Screen::Sprinkler(_) => ScreenId::Sprinkler,
        }
    }

    /// Whether the screen is shown only to a logged-in user.
    pub fn requires_auth(&self) -> (r: bool)
        ensures
            r == requires_auth_spec(screen_id(*self)),
    {
        match self {
            Screen::Menu(_) | Screen::Info(_) | Screen::Login(_) => false,
            _ => true,
        }
    }

    /// One turn of the screen (see each screen's `draw`); the menu shows the
    /// label of its entry and opens it on a confirmation.
    pub fn draw(&mut self, display_signal: &mut EventBits, ctx: &ScreenContext, wifi: &mut WifiConfig,
        controller: &ScheduleController, local_email: &Vec<u8>) -> (r: ScreenTurn)
        requires
            old(self).wf(),
            old(self).can_draw(*old(display_signal), ctx.now),
        ensures
            final(self).wf(),
            screen_id(*final(self)) == screen_id(*old(self)),
            r.effect is Login ==> (*old(self)) is Login,
            r.effect is SaveUser ==> (*old(self)) is User,
            r.effect is SaveWifi ==> (*old(self)) is Wifi,
            r.effect is SaveDst ==> (*old(self)) is DaylightSavingTime,
            r.effect is SetClock ==> (*old(self)) is DateTime,
            r.effect is Failed ==> (*old(self)) is DateTime || (*old(self)) is Wifi,
            !((*old(self)) is Wifi) ==> *final(wifi) == *old(wifi),
            (*old(self)) is SetConfig ==> r.nav == Nav::Stay && r.effect == Effect::Nothing,
            (*old(self)) matches Screen::Login(s) ==> (*final(self)) matches Screen::Login(s2)
                && login_turn(s, s2, *old(display_signal), r),
            (*old(self)) matches Screen::Wifi(s) ==> (*final(self)) matches Screen::Wifi(s2)
                && wifi_turn(s, s2, *old(wifi), *final(wifi), r),
            (*old(self)) matches Screen::User(s) ==> (*final(self)) matches Screen::User(s2)
                && user_turn(s, s2, *old(display_signal), *final(display_signal), ctx.ticks, local_email@, r),
            (*old(self)) matches Screen::DateTime(s) ==> (*final(self)) matches Screen::DateTime(s2)
                && date_time_turn(s, s2, r),
            (*old(self)) matches Screen::Sprinkler(s) ==> (*final(self)) matches Screen::Sprinkler(s2)
                && sprinkler_turn(s, s2, r) && r.effect == Effect::Nothing,
            (*old(self)) is DaylightSavingTime ==> dst_turn(r),
            (*old(self)) matches Screen::Info(_) ==> r.frame matches Frame::Text(t)
                && t@ == info_text(old(wifi).enabled, ctx.ip@) && r.effect == Effect::Nothing,
            (*old(self)) matches Screen::Menu(m) ==> (*final(self)) matches Screen::Menu(m2) && {
                &&& r.frame matches Frame::Text(t) && t@ == menu_label(m2.item).map_values(|c: char| c as u8)
                &&& r.nav == if raised(*final(display_signal), ENCODER_BUTTON_RELEASED) {
                        Nav::Push(menu_screen(m2.item))
                    } else {
                        Nav::Stay
                    }
                &&& r.effect == Effect::Nothing
            },
    {
        match self {
            Screen::SetConfig(_) => {
                ScreenTurn { title: "", frame: Frame::Text(Vec::new()), nav: Nav::Stay, effect: Effect::Nothing }
            },
            Screen::Login(s) => s.draw(display_signal, ctx.ticks),
            Screen::Menu(s) => {
                s.update_input(display_signal);
                let a = text_answer(*display_signal);
                let nav = s.on_answer(a);
                ScreenTurn { title: "", frame: Frame::Text(ascii_bytes(s.item.label())), nav, effect: Effect::Nothing }
            },
            Screen::Info(s) => s.draw(display_signal, wifi.is_enabled(), &ctx.ip),
            Screen::DateTime(s) => s.draw(display_signal, &ctx.now),
            Screen::DaylightSavingTime(s) => s.draw(display_signal, ctx.dst_enabled),
            Screen::Wifi(s) => s.draw(display_signal, ctx.ticks, wifi),
            Screen::User(s) => s.draw(display_signal, ctx.ticks, local_email),
            Screen::Sprinkler(s) => s.draw(display_signal, controller),
        }
    }
}

/// A fresh screen for `id`: well formed, on its first step, with nothing
/// entered yet (the menu on its first entry).
pub open spec fn fresh(s: Screen, id: ScreenId) -> bool {
    &&& screen_id(s) == id
    &&& s.wf()
    &&& match s {
        Screen::Login(l) => {
            &&& l.fsm_state == LoginState::Email
            &&& !l.logged
            &&& l.email.view() == blank_input()
            &&& l.email_passwd.view() == blank_input()
        },
        Screen::Menu(m) => m.item == MenuItem::Info,
        Screen::DateTime(d) => d.fsm_state == DateTimeState::Date,
        Screen::DaylightSavingTime(d) => d.enable_dst.checked is None && !d.enable_dst.icon_on,
        Screen::Wifi(w) => w.fsm_state == WifiState::Enable,
        Screen::User(u) => u.fsm_state == UserState::Email,
        Screen::Sprinkler(p) => p.fsm_state == SprinklerState::Schedule && p.selected_schedule == 0,
        _ => true,
    }
}

/// The e-mail and password typed on the login screen on top of `stack`,
/// when that screen is on top and both were entered.
pub open spec fn top_login_spec(stack: Seq<Screen>) -> Option<(Seq<u8>, Seq<u8>)> {
    if stack.len() == 0 {
        None
    } else {
        match stack.last() {
            Screen::Login(s) => match (s.email.view().text, s.email_passwd.view().text) {
                (Some(e), Some(p)) => Some((e, p)),
                _ => None,
            },
            _ => None,
        }
    }
}

/// The password typed on the user screen on top of `stack`, when that
/// screen is on top and the password was entered.
pub open spec fn top_user_spec(stack: Seq<Screen>) -> Option<Seq<u8>> {
    if stack.len() == 0 {
        None
    } else {
        match stack.last() {
            Screen::User(s) => s.passwd.view().text,
            _ => None,
        }
    }
}

/// The router.
#[derive(Debug)]
pub struct ScreenRoute {
    pub stack: Vec<Screen>,
    pub check_status_counter: u8,
}

impl ScreenRoute {
    /// The screens are well formed and the counter is below its threshold.
    pub open spec fn wf(&self) -> bool {
        &&& forall|i: int| 0 <= i < self.stack@.len() ==> (#[trigger] self.stack@[i]).wf()
        &&& self.check_status_counter < CHECK_STATUS_THRESHOLD
    }

    /// The identities of the stacked screens, bottom first.
    pub open spec fn ids(&self) -> Seq<ScreenId> {
        stack_ids(self.stack@)
    }

    /// No screen yet.
    pub fn new() -> (r: ScreenRoute)
        ensures
            r.wf(),
            r.ids().len() == 0,
            r.check_status_counter == 0,
    {
        let r = ScreenRoute { stack: Vec::new(), check_status_counter: 0 };
        assert(r.ids() =~= Seq::<ScreenId>::empty());
        r
    }

    /// A fresh screen for `id`.
    pub fn build(id: ScreenId) -> (r: Screen)
        ensures
            fresh(r, id),
    {
        match id {
            ScreenId::SetConfig => Screen::SetConfig(ScreenSetConfig::new()),
            ScreenId::Login => Screen::Login(ScreenLogin::new()),
            ScreenId::Menu => Screen::Menu(ScreenMenu::new()),
            ScreenId::Info => Screen::Info(ScreenInfo::new()),
            ScreenId::DateTime => Screen::DateTime(ScreenDateTime::new()),
            ScreenId::DaylightSavingTime => Screen::DaylightSavingTime(ScreenDaylightSavingTime::new()),
            ScreenId::Wifi => Screen::Wifi(ScreenWifi::new()),
            ScreenId::User => Screen::User(ScreenUser::new()),
            ScreenId::Sprinkler => Screen::Sprinkler(ScreenSprinkler::new()),
        }
    }

    /// Stacks `screen`.
    fn stack_push(&mut self, screen: Screen)
        requires
            old(self).wf(),
            screen.wf(),
        ensures
            final(self).wf(),
            final(self).ids() == old(self).ids().push(screen_id(screen)),
            final(self).stack@ == old(self).stack@.push(screen),
            final(self).check_status_counter == old(self).check_status_counter,
    {
        let ghost before = self.stack@;
        self.stack.push(screen);
        assert(self.ids() =~= stack_ids(before).push(screen_id(screen)));
    }

    /// Unstacks the top screen, if any.
    fn stack_pop(&mut self)
        requires
            old(self).wf(),
        ensures
            final(self).wf(),
            final(self).ids() == if old(self).ids().len() > 0 { old(self).ids().drop_last() } else { old(self).ids() },
            final(self).stack@ == if old(self).stack@.len() > 0 { old(self).stack@.drop_last() } else { old(self).stack@ },
            final(self).check_status_counter == old(self).check_status_counter,
    {
        if self.stack.len() > 0 {
            let ghost before = self.stack@;
            let _ = self.stack.pop();
            assert(self.ids() =~= stack_ids(before).drop_last());
        }
    }

    /// While no screen is stacked: once the status shows the configuration
    /// check, or readiness, for `CHECK_STATUS_THRESHOLD` turns in a row, the
    /// screen shown without configuration, or the menu, is stacked.
    pub fn handle_init(&mut self, status_signal: EventBits)
        requires
            old(self).wf(),
        ensures
            final(self).wf(),
            ({
                let check = status_signal & status_bits(StatusFlag::CheckConfig) != 0;
                let ready = status_signal & status_bits(StatusFlag::Ready) != 0;
                let counted = old(self).check_status_counter + 1;
                if check || ready {
                    if counted >= CHECK_STATUS_THRESHOLD {
                        &&& final(self).ids() == old(self).ids().push(if check { ScreenId::SetConfig } else { ScreenId::Menu })
                        &&& final(self).check_status_counter == 0
                    } else {
                        &&& final(self).ids() == old(self).ids()
                        &&& final(self).check_status_counter == counted
                    }
                } else {
                    final(self).ids() == old(self).ids() && final(self).check_status_counter == 0
                }
            }),
    {
        if StatusFlag::CheckConfig.check_signal(status_signal) {
            self.check_status_counter = self.check_status_counter + 1;
            if self.check_status_counter >= CHECK_STATUS_THRESHOLD {
                self.check_status_counter = 0;
                self.stack_push(Screen::SetConfig(ScreenSetConfig::new()));
            }
        } else if StatusFlag::Ready.check_signal(status_signal) {
            self.check_status_counter = self.check_status_counter + 1;
            if self.check_status_counter >= CHECK_STATUS_THRESHOLD {
                self.check_status_counter = 0;
                self.stack_push(Screen::Menu(ScreenMenu::new()));
            }
        } else {
            self.check_status_counter = 0;
        }
    }

    /// Stacks `screen`, or the login screen in its place when it is
    /// protected, a local user exists and nobody is logged in.
    pub fn push(&mut self, screen: Screen, session: &Session, status_signal: EventBits)
        requires
            old(self).wf(),
            screen.wf(),
            session@.users.len() == MAX_USERS,
        ensures
            final(self).wf(),
            final(self).ids() == old(self).ids().push(pushed_id(screen_id(screen),
                session@.users[1].email.len() > 0, status_signal & status_bits(StatusFlag::UserLogged) != 0)),
            ({
                let local = session@.users[1].email.len() > 0;
                let logged = status_signal & status_bits(StatusFlag::UserLogged) != 0;
                if requires_auth_spec(screen_id(screen)) && local && !logged {
                    &&& final(self).stack@.len() == old(self).stack@.len() + 1
                    &&& final(self).stack@.drop_last() == old(self).stack@
                    &&& final(self).stack@.last() is Login
                    &&& fresh(final(self).stack@.last(), ScreenId::Login)
                } else {
                    final(self).stack@ == old(self).stack@.push(screen)
                }
            }),
            final(self).check_status_counter == old(self).check_status_counter,
    {
        if screen.requires_auth() && session.is_set_user_local() && !StatusFlag::UserLogged.check_signal(status_signal) {
            self.stack_push(Screen::Login(ScreenLogin::new()));
        } else {
            self.stack_push(screen);
        }
    }

    /// Clears the button events and asks for a draw.
    pub fn on_screen_changed(display_signal: &mut EventBits)
        ensures
            *final(display_signal) == changed_bits(*old(display_signal)),
    {
        *display_signal = (*display_signal & !BUTTON_MASK) | DRAW;
    }

    /// Goes back down to the first screen `id` from the top.
    fn pop_to(&mut self, id: ScreenId)
        requires
            old(self).wf(),
        ensures
            final(self).wf(),
            final(self).ids() == popped_to(old(self).ids(), id),
            final(self).stack@ == old(self).stack@.take(popped_to(old(self).ids(), id).len() as int),
            final(self).check_status_counter == old(self).check_status_counter,
    {
        while self.stack.len() > 0 && self.stack[self.stack.len() - 1].id() != id
            invariant
                self.wf(),
                popped_to(self.ids(), id) == popped_to(old(self).ids(), id),
                self.stack@.len() <= old(self).stack@.len(),
                self.stack@ == old(self).stack@.take(self.stack@.len() as int),
                self.check_status_counter == old(self).check_status_counter,
            decreases self.stack.len(),
        {
            let ghost before = self.ids();
            assert(before.last() == screen_id(self.stack@[self.stack@.len() - 1]));
            self.stack_pop();
            assert(popped_to(before, id) == popped_to(before.drop_last(), id));
        }
        proof {
            let ids = self.ids();
            if ids.len() > 0 {
                assert(ids.last() == screen_id(self.stack@[self.stack@.len() - 1]));
            }
        }
    }

    /// Follows `nav` (see `navigated`); any move but staying changes the
    /// screen (`on_screen_changed`).
    pub fn navigate(&mut self, nav: Nav, display_signal: &mut EventBits, session: &Session, status_signal: EventBits)
        requires
            old(self).wf(),
            session@.users.len() == MAX_USERS,
        ensures
            final(self).wf(),
            final(self).ids() == navigated(old(self).ids(), nav, session@.users[1].email.len() > 0,
                status_signal & status_bits(StatusFlag::UserLogged) != 0),
            final(self).check_status_counter == old(self).check_status_counter,
            *final(display_signal) == if nav == Nav::Stay { *old(display_signal) } else { changed_bits(*old(display_signal)) },
            ({
                let kept = if old(self).stack@.len() > 0 { old(self).stack@.drop_last() } else { old(self).stack@ };
                let local = session@.users[1].email.len() > 0;
                let logged = status_signal & status_bits(StatusFlag::UserLogged) != 0;
                match nav {
                    Nav::Stay => final(self).stack@ == old(self).stack@,
                    Nav::Pop => final(self).stack@ == kept,
                    Nav::PopTo(id) => final(self).stack@ == old(self).stack@.take(popped_to(old(self).ids(), id).len() as int),
                    Nav::Push(id) => {
                        &&& final(self).stack@.len() == old(self).stack@.len() + 1
                        &&& final(self).stack@.drop_last() == old(self).stack@
                        &&& fresh(final(self).stack@.last(), pushed_id(id, local, logged))
                    },
                    Nav::Replace(id) => {
                        &&& final(self).stack@.len() == kept.len() + 1
                        &&& final(self).stack@.drop_last() == kept
                        &&& fresh(final(self).stack@.last(), pushed_id(id, local, logged))
                    },
                }
            }),
    {
        match nav {
            Nav::Stay => { return; },
            Nav::Push(id) => self.push(ScreenRoute::build(id), session, status_signal),
            Nav::Pop => self.stack_pop(),
            Nav::PopTo(id) => self.pop_to(id),
            Nav::Replace(id) => {
                self.stack_pop();
                self.push(ScreenRoute::build(id), session, status_signal);
            },
        }
        ScreenRoute::on_screen_changed(display_signal);
    }

    /// One turn of the display: while no screen is stacked, waits for the
    /// main state machine (`handle_init`); a screen just stacked changes the
    /// screen. The top screen then takes its turn and the router follows its
    /// navigation. `None` when there is still no screen.
    pub fn draw(&mut self, display_signal: &mut EventBits, status_signal: EventBits, session: &Session,
        ctx: &ScreenContext, wifi: &mut WifiConfig, controller: &ScheduleController) -> (r: Option<ScreenTurn>)
        requires
            old(self).wf(),
            session@.users.len() == MAX_USERS,
            old(self).stack@.len() > 0 ==> old(self).stack@.last().can_draw(*old(display_signal), ctx.now),
            old(self).stack@.len() == 0 ==> !(status_signal & status_bits(StatusFlag::CheckConfig) != 0
                && old(self).check_status_counter + 1 >= CHECK_STATUS_THRESHOLD),
        ensures
            final(self).wf(),
            ({
                let local = session@.users[1].email.len() > 0;
                let logged = status_signal & status_bits(StatusFlag::UserLogged) != 0;
                let ready = status_signal & status_bits(StatusFlag::Ready) != 0;
                let check = status_signal & status_bits(StatusFlag::CheckConfig) != 0;
                let stacked = old(self).ids().len() == 0 && !check && ready
                    && old(self).check_status_counter + 1 >= CHECK_STATUS_THRESHOLD;
                let ids1 = if stacked { seq![ScreenId::Menu] } else { old(self).ids() };
                let below = if stacked { Seq::<Screen>::empty() } else { old(self).stack@.drop_last() };
                match r {
                    None => {
                        &&& ids1.len() == 0
                        &&& final(self).ids().len() == 0
                        &&& *final(display_signal) == *old(display_signal)
                        &&& *final(wifi) == *old(wifi)
                        &&& final(self).check_status_counter == if check || ready { (old(self).check_status_counter + 1) as u8 } else { 0 }
                    },
                    Some(turn) => {
                        &&& ids1.len() > 0
                        &&& final(self).ids() == navigated(ids1, turn.nav, local, logged)
                        &&& forall|k: int| 0 <= k < final(self).stack@.len() && k < below.len()
                                ==> #[trigger] final(self).stack@[k] == below[k]
                        &&& (turn.nav matches Nav::Push(id) ==> fresh(final(self).stack@.last(), pushed_id(id, local, logged)))
                        &&& (turn.nav matches Nav::Replace(id) ==> fresh(final(self).stack@.last(), pushed_id(id, local, logged)))
                        &&& final(self).check_status_counter == if stacked { 0 } else { old(self).check_status_counter }
                        &&& turn.effect is Login ==> ids1.last() == ScreenId::Login
                        &&& turn.effect is SaveUser ==> ids1.last() == ScreenId::User
                        &&& turn.effect is SaveWifi ==> ids1.last() == ScreenId::Wifi
                        &&& turn.effect is SetClock ==> ids1.last() == ScreenId::DateTime
                        &&& turn.effect is SaveDst ==> ids1.last() == ScreenId::DaylightSavingTime
                        &&& ids1.last() != ScreenId::Wifi ==> *final(wifi) == *old(wifi)
                    },
                }
            }),
    {
        if self.stack.len() == 0 {
            self.handle_init(status_signal);
            assert(self.ids().len() == self.stack@.len());
            if self.stack.len() == 0 {
                return None;
            }
            assert(self.ids()[self.ids().len() - 1] == screen_id(self.stack@[self.stack@.len() - 1]));
            assert(self.ids() =~= seq![ScreenId::Menu]);
            ScreenRoute::on_screen_changed(display_signal);
        }
        let ghost ids1 = self.ids();
        assert(self.stack@.last().can_draw(*display_signal, ctx.now)) by {
            if old(self).stack@.len() == 0 {
                assert(screen_id(self.stack@.last()) == ScreenId::Menu);
            }
        }
        assert(self.stack@.last().wf());
        let ghost rest = self.stack@.drop_last();
        let mut top = self.stack.pop().unwrap();
        assert(self.stack@ == rest);
        assert(screen_id(top) == ids1.last());
        let turn = top.draw(display_signal, ctx, wifi, controller, &session.local.email);
        self.stack.push(top);
        assert(self.ids() =~= ids1);
        let ghost mid = self.stack@;
        assert(mid.drop_last() =~= rest);
        self.navigate(turn.nav, display_signal, session, status_signal);
        proof {
            assert forall|k: int| 0 <= k < self.stack@.len() && k < rest.len()
                implies #[trigger] self.stack@[k] == rest[k] by {
                assert(mid[k] == mid.drop_last()[k]);
                match turn.nav {
                    Nav::Stay => {
                        assert(self.stack@[k] == rest[k]);
                    },
                    Nav::Pop => {
                        assert(self.stack@[k] == rest[k]);
                    },
                    Nav::PopTo(id) => {
                        lemma_pop_to_lands(ids1, id);
                        assert(self.stack@[k] == mid.take(self.stack@.len() as int)[k]);
                        assert(self.stack@[k] == rest[k]);
                    },
                    Nav::Push(id) => {
                        assert(self.stack@[k] == self.stack@.drop_last()[k]);
                        assert(self.stack@[k] == rest[k]);
                    },
                    Nav::Replace(id) => {
                        assert(self.stack@[k] == self.stack@.drop_last()[k]);
                        assert(self.stack@[k] == rest[k]);
                    },
                }
            }
        }
        Some(turn)
    }

    /// The e-mail and password typed on the login screen on top, when both
    /// were entered.
    pub fn top_login_credentials(&self) -> (r: Option<(Vec<u8>, Vec<u8>)>)
        ensures
            match r {
                Some((e, p)) => top_login_spec(self.stack@) == Some((e@, p@)),
                None => top_login_spec(self.stack@) is None,
            },
    {
        let n = self.stack.len();
        if n == 0 {
            return None;
        }
        match &self.stack[n - 1] {
            Screen::Login(s) => match (s.email.get_value(), s.email_passwd.get_value()) {
                (Some(e), Some(p)) => Some((e, p)),
                _ => None,
            },
            _ => None,
        }
    }

    /// The password typed on the user screen on top, when it was entered.
    pub fn top_user_password(&self) -> (r: Option<Vec<u8>>)
        ensures
            match r {
                Some(p) => top_user_spec(self.stack@) == Some(p@),
                None => top_user_spec(self.stack@) is None,
            },
    {
        let n = self.stack.len();
        if n == 0 {
            return None;
        }
        match &self.stack[n - 1] {
            Screen::User(s) => s.passwd.get_value(),
            _ => None,
        }
    }

    /// Completes the login requested by the login screen on top
    /// (`Effect::Login`, see `ScreenLogin::complete_login`); answers whether
    /// that screen was on top.
    pub fn complete_login(&mut self, session: &mut Session, raw: &str, digest: Option<Vec<u8>>, display_signal: &mut EventBits) -> (r: bool)
        requires
            old(self).wf(),
        ensures
            final(self).wf(),
            final(self).ids() == old(self).ids(),
            r == (old(self).stack@.len() > 0 && old(self).stack@.last() is Login),
            !r ==> *final(session) == *old(session) && *final(display_signal) == *old(display_signal),
    {
        let n = self.stack.len();
        if n == 0 {
            return false;
        }
        let ghost ids0 = self.ids();
        let ghost rest = self.stack@.drop_last();
        let mut top = self.stack.pop().unwrap();
        assert(self.stack@ == rest);
        let is_login = match &mut top {
            Screen::Login(s) => {
                s.complete_login(session, raw, digest, display_signal);
                true
            },
            _ => false,
        };
        self.stack.push(top);
        assert(self.ids() =~= ids0);
        is_login
    }

    /// Stores the user entered on the user screen on top (`Effect::SaveUser`,
    /// see `ScreenUser::complete_save`) and, when stored, closes the screen.
    /// Answers whether the user was stored.
    pub fn complete_user_save(&mut self, session: &mut Session, digest: Option<Vec<u8>>, display_signal: &mut EventBits,
        status_signal: EventBits) -> (r: bool)
        requires
            old(self).wf(),
            old(session)@.users.len() == MAX_USERS,
        ensures
            final(self).wf(),
            final(session)@.users.len() == MAX_USERS,
            r == (old(self).stack@.len() > 0 && (old(self).stack@.last() matches Screen::User(s)
                && s.email.input is Some && s.passwd.input is Some) && digest is Some),
            r ==> (old(self).stack@.last() matches Screen::User(s)
                && final(session)@ == saved_user(old(session)@, s.email.view().text.unwrap(), digest.unwrap()@)),
            r ==> old(self).stack@.len() > 0 && old(self).stack@.last() is User
                && final(self).ids() == old(self).ids().drop_last()
                && *final(display_signal) == changed_bits(*old(display_signal)),
            !r ==> final(self).ids() == old(self).ids() && final(session)@ == old(session)@
                && *final(display_signal) == *old(display_signal),
    {
        let n = self.stack.len();
        if n == 0 {
            return false;
        }
        let saved = match &self.stack[n - 1] {
            Screen::User(s) => s.complete_save(session, digest),
            _ => false,
        };
        if saved {
            self.navigate(Nav::Pop, display_signal, session, status_signal);
        }
        saved
    }
}

/// Opening a screen and going back leaves the stack as it was.
pub proof fn lemma_push_then_pop(ids: Seq<ScreenId>, id: ScreenId, local_user: bool, logged: bool)
    ensures
        navigated(navigated(ids, Nav::Push(id), local_user, logged), Nav::Pop, local_user, logged) == ids,
{
    assert(ids.push(pushed_id(id, local_user, logged)).drop_last() =~= ids);
}

/// While a local user exists and nobody is logged in, no protected screen
/// is ever stacked; otherwise the screen asked for is stacked.
pub proof fn lemma_login_guards(id: ScreenId, local_user: bool, logged: bool)
    ensures
        local_user && !logged ==> !requires_auth_spec(pushed_id(id, local_user, logged)),
        !local_user || logged ==> pushed_id(id, local_user, logged) == id,
        !requires_auth_spec(id) ==> pushed_id(id, local_user, logged) == id,
{
}

/// Going back down to a screen leaves a bottom part of the stack, which is
/// empty or has that screen on top.
pub proof fn lemma_pop_to_lands(ids: Seq<ScreenId>, id: ScreenId)
    ensures
        popped_to(ids, id).len() <= ids.len(),
        popped_to(ids, id) == ids.take(popped_to(ids, id).len() as int),
        popped_to(ids, id).len() == 0 || popped_to(ids, id).last() == id,
    decreases ids.len(),
{
    if ids.len() == 0 || ids.last() == id {
        assert(ids.take(ids.len() as int) =~= ids);
    } else {
        lemma_pop_to_lands(ids.drop_last(), id);
        let p = popped_to(ids.drop_last(), id);
        assert(ids.drop_last().take(p.len() as int) =~= ids.take(p.len() as int));
    }
}

} // verus!
