//! Users and the login session, driven by `AT+SESS` (log in and out) and
//! `AT+USR` (edit the local user).
use vstd::prelude::*;
use crate::command_args::{command_arg, at_argument, bytes_eq};
use crate::signals::{EventBits, status_bits, StatusFlag};
use crate::sprinkler::CommandError;
use crate::text_format::{capped, copy_bytes};

verus! {

/// Longest e-mail address a user can hold, in bytes.
pub const EMAIL_MAX: usize = 32;

/// Length of a stored password: the hex text of its SHA-256 digest.
pub const PASSWORD_MAX: usize = 64;

/// Number of users: the system user, then the local user.
pub const MAX_USERS: usize = 2;

/// Abstract value of a user.
pub struct UserView {
    pub email: Seq<u8>,
    pub password: Seq<u8>,
}

/// A user: an e-mail address and the digest of its password.
#[derive(Debug)]
pub struct User {
    pub email: Vec<u8>,
    pub password: Vec<u8>,
}

impl View for User {
    type V = UserView;

    open spec fn view(&self) -> UserView {
        UserView { email: self.email@, password: self.password@ }
    }
}

/// The user with no e-mail and no password.
pub open spec fn empty_user() -> UserView {
    UserView { email: Seq::empty(), password: Seq::empty() }
}

impl User {
    /// The user with no e-mail and no password.
    pub fn new() -> (r: User)
        ensures
            r@ == empty_user(),
    {
        User { email: Vec::new(), password: Vec::new() }
    }

    /// A copy of the user.
    pub fn duplicate(&self) -> (r: User)
        ensures
            r@ == self@,
    {
        User { email: copy_bytes(&self.email), password: copy_bytes(&self.password) }
    }

    /// Forgets the e-mail and the password.
    pub fn clear(&mut self)
        ensures
            final(self)@ == empty_user(),
    {
        self.email = Vec::new();
        self.password = Vec::new();
    }

    /// The user's e-mail address.
    pub fn get_email(&self) -> (r: &Vec<u8>)
        ensures
            r@ == self@.email,
    {
        &self.email
    }

    /// Sets the e-mail address, cut to `EMAIL_MAX` bytes.
    pub fn set_email(&mut self, email: &[u8])
        ensures
            final(self)@ == (UserView { email: capped(email@, EMAIL_MAX as nat), ..old(self)@ }),
    {
        self.email = capped_copy(email, EMAIL_MAX);
    }

    /// Sets the stored password text, cut to `PASSWORD_MAX` bytes.
    pub fn set_password(&mut self, password: &[u8])
        ensures
            final(self)@ == (UserView { password: capped(password@, PASSWORD_MAX as nat), ..old(self)@ }),
    {
        self.password = capped_copy(password, PASSWORD_MAX);
    }
}

/// At most `cap` leading bytes of `s`, as a fixed-size byte string takes it.
pub fn capped_copy(s: &[u8], cap: usize) -> (r: Vec<u8>)
    ensures
        r@ == capped(s@, cap as nat),
{
    let mut r: Vec<u8> = Vec::new();
    let mut i: usize = 0;
    while i < s.len() && i < cap
        invariant
            0 <= i <= s@.len(),
            i <= cap,
            r@ == s@.take(i as int),
        decreases s.len() - i,
    {
        r.push(s[i]);
        i = i + 1;
        assert(r@ =~= s@.take(i as int));
    }
    if i == s.len() {
        assert(s@.take(i as int) =~= s@);
    }
    r
}

/// Abstract value of the session state.
pub struct SessionView {
    pub users: Seq<UserView>,
    pub local: UserView,
    pub logged: Option<UserView>,
    pub staged: UserView,
    pub status: EventBits,
}

/// The stored users, the local user being edited through `AT+USR`, the user
/// logged in (if any), the credentials staged by `AT+SESS=i,...`, and the
/// bits of the status event group that the session raises and lowers.
#[derive(Debug)]
pub struct Session {
    pub users: Vec<User>,
    pub local: User,
    pub logged: Option<User>,
    pub staged: User,
    pub status: EventBits,
}

/// The status bits of a logged-in user and of the command sources.
pub open spec fn session_bits() -> u32 {
    status_bits(StatusFlag::UserLogged) | status_bits(StatusFlag::UartCmd) | status_bits(StatusFlag::MqttCmd)
}

/// Whether `u` matches the staged credentials.
pub open spec fn same_credentials(u: UserView, staged: UserView) -> bool {
    u.email == staged.email && u.password == staged.password
}

/// How `AT+SESS=` reads its arguments.
#[derive(Debug)]
pub enum SessionCommand {
    /// `AT+SESS=i,<email>,<password>`: log in.
    Login { email: Vec<u8>, password: Vec<u8> },
    /// `AT+SESS=o`: log out.
    Logout,
}

/// What `AT+SESS` did.
#[derive(Clone, Copy, PartialEq, Eq, Debug, Structural)]
pub enum SessionOutcome {
    /// The staged credentials were empty: the session was closed.
    LoggedOut,
    /// The staged credentials matched a user, who is now logged in (the
    /// caller starts the session timer).
    LoggedIn,
}

/// The text `i`.
pub open spec fn word_login() -> Seq<u8> { seq![105u8] }

/// The text `o`.
pub open spec fn word_logout() -> Seq<u8> { seq![111u8] }

/// Decoding of `AT+SESS=` from its first three arguments.
pub open spec fn session_command_spec(args: Seq<Option<Seq<u8>>>) -> Option<(bool, Seq<u8>, Seq<u8>)> {
    if args[0] is None {
        None
    } else if args[0].unwrap() == word_login() {
        if args[1] is None || args[2] is None { None } else { Some((true, args[1].unwrap(), args[2].unwrap())) }
    } else if args[0].unwrap() == word_logout() {
        Some((false, Seq::empty(), Seq::empty()))
    } else {
        None
    }
}

/// How `AT+USR=<email>,<password>` is checked, from its first two
/// arguments: needs a logged-in user, then an e-mail and a password of at
/// most 32 bytes each.
pub open spec fn user_command_spec(args: Seq<Option<Seq<u8>>>, logged: bool) -> Result<(Seq<u8>, Seq<u8>), CommandError> {
    if !logged {
        Err(CommandError::NotLogged)
    } else if args[0] is None {
        Err(CommandError::InvalidArgs)
    } else if args[0].unwrap().len() > 32 {
        Err(CommandError::EmailTooLong)
    } else if args[1] is None {
        Err(CommandError::InvalidArgs)
    } else if args[1].unwrap().len() > 32 {
        Err(CommandError::PasswordTooLong)
    } else {
        Ok((args[0].unwrap(), args[1].unwrap()))
    }
}

impl Session {
    /// Two empty users, nobody logged in, nothing staged, no status bit.
    pub fn new() -> (r: Session)
        ensures
            r@ == (SessionView {
                users: seq![empty_user(), empty_user()],
                local: empty_user(),
                logged: None,
                staged: empty_user(),
                status: 0,
            }),
    {
        let mut users: Vec<User> = Vec::new();
        users.push(User::new());
        users.push(User::new());
        let r = Session { users, local: User::new(), logged: None, staged: User::new(), status: 0 };
        assert(r@.users =~= seq![empty_user(), empty_user()]);
        r
    }

    /// The state, as values.
    pub open spec fn view(&self) -> SessionView {
        SessionView {
            users: self.users@.map_values(|u: User| u@),
            local: self.local@,
            logged: match self.logged { Some(u) => Some(u@), None => None },
            staged: self.staged@,
            status: self.status,
        }
    }

    /// The local user, edited through `AT+USR`.
    pub fn get_user_local(&self) -> (r: &User)
        ensures
            r@ == self@.local,
    {
        &self.local
    }

    /// Whether somebody is logged in.
    pub fn is_logged(&self) -> (r: bool)
        ensures
            r == (self@.logged is Some),
    {
        self.logged.is_some()
    }

    /// Closes the session: nobody is logged in and the logged-in and
    /// command-source status bits are lowered.
    pub fn logout(&mut self)
        ensures
            final(self)@ == (SessionView { logged: None, status: old(self)@.status & !session_bits(), ..old(self)@ }),
    {
        self.logged = None;
        self.status = self.status & !StatusFlag::UserLogged.bits();
        self.status = self.status & !StatusFlag::UartCmd.bits();
        self.status = self.status & !StatusFlag::MqttCmd.bits();
        let ghost s = old(self).status;
        assert(((s & !0x0080_0000u32) & !0x0040_0000u32) & !0x0020_0000u32 == s & !(0x0080_0000u32 | 0x0040_0000u32 | 0x0020_0000u32)) by (bit_vector);
        assert(self@.users =~= old(self)@.users);
    }

    /// Position of the first stored user with the staged credentials.
    fn find_user(&self) -> (r: Option<usize>)
        ensures
            match r {
                Some(i) => i < self@.users.len() && same_credentials(self@.users[i as int], self@.staged)
                    && forall|j: int| 0 <= j < i ==> !same_credentials(#[trigger] self@.users[j], self@.staged),
                None => forall|j: int| 0 <= j < self@.users.len() ==> !same_credentials(#[trigger] self@.users[j], self@.staged),
            },
    {
        let mut i: usize = 0;
        while i < self.users.len()
            invariant
                0 <= i <= self.users@.len(),
                forall|j: int| 0 <= j < i ==> !same_credentials(#[trigger] self@.users[j], self@.staged),
            decreases self.users.len() - i,
        {
            let u = &self.users[i];
            if bytes_eq(&u.email, &self.staged.email) && bytes_eq(&u.password, &self.staged.password) {
                return Some(i);
            }
            i = i + 1;
        }
        None
    }

    /// `AT+SESS`: with empty staged credentials, logs out; otherwise logs in
    /// the staged user when a stored user has the same e-mail and password
    /// (raising the logged-in status bit) and answers with the e-mail. A
    /// failed login answers `InvalidArgs` and, when nobody is logged in,
    /// forgets the staged credentials.
    pub fn exec(&mut self) -> (r: Result<(SessionOutcome, Vec<u8>), CommandError>)
        ensures
            old(self)@.staged.email.len() == 0 || old(self)@.staged.password.len() == 0 ==>
                (r matches Ok((o, resp)) && o == SessionOutcome::LoggedOut && resp@.len() == 0
                && final(self)@ == (SessionView { logged: None, status: old(self)@.status & !session_bits(), ..old(self)@ })),
            old(self)@.staged.email.len() > 0 && old(self)@.staged.password.len() > 0 ==> (
                if exists|i: int| 0 <= i < old(self)@.users.len() && same_credentials(#[trigger] old(self)@.users[i], old(self)@.staged) {
                    (r matches Ok((o, resp)) && o == SessionOutcome::LoggedIn && resp@ == old(self)@.staged.email
                    && final(self)@ == (SessionView {
                        logged: Some(old(self)@.staged),
                        status: old(self)@.status | status_bits(StatusFlag::UserLogged),
                        ..old(self)@
                    }))
                } else {
                    r == Err::<(SessionOutcome, Vec<u8>), CommandError>(CommandError::InvalidArgs)
                    && final(self)@ == (if old(self)@.logged is None {
                        SessionView { staged: empty_user(), ..old(self)@ }
                    } else {
                        old(self)@
                    })
                }),
    {
        if self.staged.email.len() == 0 || self.staged.password.len() == 0 {
            self.logout();
            return Ok((SessionOutcome::LoggedOut, Vec::new()));
        }
        self.login()
    }

    /// Logs in the staged user (see `exec`).
    fn login(&mut self) -> (r: Result<(SessionOutcome, Vec<u8>), CommandError>)
        requires
            old(self)@.staged.email.len() > 0,
            old(self)@.staged.password.len() > 0,
        ensures
            if exists|i: int| 0 <= i < old(self)@.users.len() && same_credentials(#[trigger] old(self)@.users[i], old(self)@.staged) {
                (r matches Ok((o, resp)) && o == SessionOutcome::LoggedIn && resp@ == old(self)@.staged.email
                && final(self)@ == (SessionView {
                    logged: Some(old(self)@.staged),
                    status: old(self)@.status | status_bits(StatusFlag::UserLogged),
                    ..old(self)@
                }))
            } else {
                r == Err::<(SessionOutcome, Vec<u8>), CommandError>(CommandError::InvalidArgs)
                && final(self)@ == (if old(self)@.logged is None {
                    SessionView { staged: empty_user(), ..old(self)@ }
                } else {
                    old(self)@
                })
            },
    {
        match self.find_user() {
            Some(_) => {
                self.logged = Some(self.staged.duplicate());
                self.status = self.status | StatusFlag::UserLogged.bits();
                assert(self@.users =~= old(self)@.users);
                Ok((SessionOutcome::LoggedIn, copy_bytes(&self.staged.email)))
            },
            None => {
                if self.logged.is_none() {
                    self.staged.clear();
                }
                assert(self@.users =~= old(self)@.users);
                Err(CommandError::InvalidArgs)
            },
        }
    }

    /// `AT+SESS?`: the e-mail of the logged-in user; `InvalidArgs` when
    /// nobody is logged in.
    pub fn query(&self) -> (r: Result<Vec<u8>, CommandError>)
        ensures
            match self@.logged {
                Some(u) => (r matches Ok(resp) && resp@ == u.email),
                None => r == Err::<Vec<u8>, CommandError>(CommandError::InvalidArgs),
            },
    {
        match &self.logged {
            Some(u) => Ok(copy_bytes(&u.email)),
            None => Err(CommandError::InvalidArgs),
        }
    }

    /// `AT+SESS=?`: the forms the command takes.
    pub fn test(&self) -> (r: &'static str)
        ensures
            r@ == "<i|o>,<email>,<password>"@,
    {
        "<i|o>,<email>,<password>"
    }

    /// `AT+USR=?`: the forms the command takes.
    pub fn user_test(&self) -> (r: &'static str)
        ensures
            r@ == "<email>,<password>"@,
    {
        "<email>,<password>"
    }

    /// Decodes `AT+SESS=` (see `session_command_spec`).
    pub fn parse_command(raw: &str) -> (r: Option<SessionCommand>)
        ensures
            ({
                let args = Seq::new(3, |i: int| at_argument(raw@, i as usize));
                match session_command_spec(args) {
                    Some((true, e, p)) => (r matches Some(SessionCommand::Login { email, password }) && email@ == e && password@ == p),
                    Some((false, _, _)) => r matches Some(SessionCommand::Logout),
                    None => r is None,
                }
            }),
    {
        let a0 = command_arg(raw, 0);
        let a1 = command_arg(raw, 1);
        let a2 = command_arg(raw, 2);
        let ghost args = Seq::new(3, |i: int| at_argument(raw@, i as usize));
        assert(args[0] == at_argument(raw@, 0));
        assert(args[1] == at_argument(raw@, 1));
        assert(args[2] == at_argument(raw@, 2));
        let i_word: Vec<u8> = vec![105u8];
        let o_word: Vec<u8> = vec![111u8];
        assert(i_word@ =~= word_login());
        assert(o_word@ =~= word_logout());
        match a0 {
            None => None,
            Some(first) => {
                if bytes_eq(&first, &i_word) {
                    match (a1, a2) {
                        (Some(email), Some(password)) => Some(SessionCommand::Login { email, password }),
                        _ => None,
                    }
                } else if bytes_eq(&first, &o_word) {
                    Some(SessionCommand::Logout)
                } else {
                    None
                }
            },
        }
    }

    /// Stages the credentials of `AT+SESS=i,<email>,<password>`: the e-mail
    /// (cut to `EMAIL_MAX` bytes) always, and the password digest when it
    /// could be computed; without a digest the command answers `InvalidArgs`.
    pub fn stage_login(&mut self, email: &Vec<u8>, digest: Option<Vec<u8>>) -> (r: Result<(), CommandError>)
        ensures
            final(self)@ == (SessionView {
                staged: UserView {
                    email: capped(email@, EMAIL_MAX as nat),
                    password: match digest { Some(d) => capped(d@, PASSWORD_MAX as nat), None => old(self)@.staged.password },
                },
                ..old(self)@
            }),
            r is Ok <==> digest is Some,
            r is Err ==> r == Err::<(), CommandError>(CommandError::InvalidArgs),
    {
        self.staged.set_email(email.as_slice());
        assert(self@.users =~= old(self)@.users);
        match digest {
            Some(d) => {
                self.staged.set_password(d.as_slice());
                Ok(())
            },
            None => Err(CommandError::InvalidArgs),
        }
    }

    /// Forgets the staged credentials (`AT+SESS=o`).
    pub fn stage_logout(&mut self)
        ensures
            final(self)@ == (SessionView { staged: empty_user(), ..old(self)@ }),
    {
        self.staged.clear();
        assert(self@.users =~= old(self)@.users);
    }

    /// `AT+SESS=<args>`: decodes the arguments (see `session_command_spec`);
    /// a login stages the e-mail and `digest`, the digest of the password
    /// given (see `stage_login`); a logout forgets the staged credentials.
    /// Arguments that decode to neither answer `InvalidArgs`.
    pub fn set(&mut self, raw: &str, digest: Option<Vec<u8>>) -> (r: Result<(), CommandError>)
        ensures
            ({
                let args = Seq::new(3, |i: int| at_argument(raw@, i as usize));
                match session_command_spec(args) {
                    Some((true, e, p)) => {
                        &&& final(self)@ == (SessionView {
                                staged: UserView {
                                    email: capped(e, EMAIL_MAX as nat),
                                    password: match digest { Some(d) => capped(d@, PASSWORD_MAX as nat), None => old(self)@.staged.password },
                                },
                                ..old(self)@
                            })
                        &&& (r is Ok <==> digest is Some)
                        &&& (r is Err ==> r == Err::<(), CommandError>(CommandError::InvalidArgs))
                    },
                    Some((false, _, _)) => r is Ok && final(self)@ == (SessionView { staged: empty_user(), ..old(self)@ }),
                    None => r == Err::<(), CommandError>(CommandError::InvalidArgs) && final(self)@ == old(self)@,
                }
            }),
    {
        match Session::parse_command(raw) {
            Some(SessionCommand::Login { email, password: _ }) => self.stage_login(&email, digest),
            Some(SessionCommand::Logout) => {
                self.stage_logout();
                Ok(())
            },
            None => Err(CommandError::InvalidArgs),
        }
    }

    /// Stores `user` as the local user (the second one).
    pub fn set_user(&mut self, user: &User)
        requires
            old(self)@.users.len() == MAX_USERS,
        ensures
            final(self)@ == (SessionView { users: old(self)@.users.update(1, user@), ..old(self)@ }),
    {
        self.users.set(1, user.duplicate());
        assert(self@.users =~= old(self)@.users.update(1, user@));
    }

    /// Loads the stored local user into the user edited through `AT+USR`.
    pub fn set_user_local(&mut self)
        requires
            old(self)@.users.len() == MAX_USERS,
        ensures
            final(self)@ == (SessionView { local: old(self)@.users[1], ..old(self)@ }),
    {
        self.local = self.users[1].duplicate();
        assert(self@.users =~= old(self)@.users);
    }

    /// Whether a local user is stored (its e-mail is not empty).
    pub fn is_set_user_local(&self) -> (r: bool)
        requires
            self@.users.len() == MAX_USERS,
        ensures
            r == (self@.users[1].email.len() > 0),
    {
        self.users[1].email.len() > 0
    }

    /// Sets the system user (the first one); an empty e-mail or password is
    /// refused with `Empty`.
    pub fn set_system_user(&mut self, email: &[u8], password: &[u8]) -> (r: Result<(), CommandError>)
        requires
            old(self)@.users.len() == MAX_USERS,
        ensures
            email@.len() == 0 || password@.len() == 0 ==> r == Err::<(), CommandError>(CommandError::Empty)
                && final(self)@ == old(self)@,
            email@.len() > 0 && password@.len() > 0 ==> r is Ok && final(self)@ == (SessionView {
                users: old(self)@.users.update(0, UserView {
                    email: capped(email@, EMAIL_MAX as nat),
                    password: capped(password@, PASSWORD_MAX as nat),
                }),
                ..old(self)@
            }),
    {
        if email.len() == 0 || password.len() == 0 {
            return Err(CommandError::Empty);
        }
        let user = User { email: capped_copy(email, EMAIL_MAX), password: capped_copy(password, PASSWORD_MAX) };
        self.users.set(0, user);
        assert(self@.users =~= old(self)@.users.update(0, UserView {
            email: capped(email@, EMAIL_MAX as nat),
            password: capped(password@, PASSWORD_MAX as nat),
        }));
        Ok(())
    }

    /// `AT+USR`: stores the local user being edited as the second user and
    /// clears it. Needs a logged-in user.
    pub fn user_exec(&mut self) -> (r: Result<(), CommandError>)
        requires
            old(self)@.users.len() == MAX_USERS,
        ensures
            old(self)@.logged is None ==> r == Err::<(), CommandError>(CommandError::NotLogged) && final(self)@ == old(self)@,
            old(self)@.logged is Some ==> r is Ok && final(self)@ == (SessionView {
                users: old(self)@.users.update(1, old(self)@.local),
                local: empty_user(),
                ..old(self)@
            }),
    {
        if self.logged.is_none() {
            return Err(CommandError::NotLogged);
        }
        let local = self.local.duplicate();
        self.set_user(&local);
        self.local.clear();
        assert(self@.users =~= old(self)@.users.update(1, old(self)@.local));
        Ok(())
    }

    /// `AT+USR?`: the local user being edited, as `"<email>","<password>"`.
    /// Needs a logged-in user.
    pub fn user_query(&self) -> (r: Result<Vec<u8>, CommandError>)
        ensures
            self@.logged is None ==> r == Err::<Vec<u8>, CommandError>(CommandError::NotLogged),
            self@.logged is Some ==> (r matches Ok(resp)
                && resp@ == seq![34u8] + self@.local.email + seq![34u8, 44u8, 34u8] + self@.local.password + seq![34u8]),
    {
        if self.logged.is_none() {
            return Err(CommandError::NotLogged);
        }
        let mut out: Vec<u8> = Vec::new();
        out.push(34u8);
        append_all(&mut out, &self.local.email);
        out.push(34u8);
        out.push(44u8);
        out.push(34u8);
        append_all(&mut out, &self.local.password);
        out.push(34u8);
        assert(out@ =~= seq![34u8] + self@.local.email + seq![34u8, 44u8, 34u8] + self@.local.password + seq![34u8]);
        Ok(out)
    }

    /// Checks `AT+USR=<email>,<password>` (see `user_command_spec`) and
    /// hands back the e-mail and the password to digest.
    pub fn user_check(raw: &str, logged: bool) -> (r: Result<(Vec<u8>, Vec<u8>), CommandError>)
        ensures
            ({
                let args = Seq::new(2, |i: int| at_argument(raw@, i as usize));
                match user_command_spec(args, logged) {
                    Ok((e, p)) => (r matches Ok((email, password)) && email@ == e && password@ == p),
                    Err(err) => r == Err::<(Vec<u8>, Vec<u8>), CommandError>(err),
                }
            }),
    {
        let ghost args = Seq::new(2, |i: int| at_argument(raw@, i as usize));
        assert(args[0] == at_argument(raw@, 0));
        assert(args[1] == at_argument(raw@, 1));
        if !logged {
            return Err(CommandError::NotLogged);
        }
        let email = match command_arg(raw, 0) {
            Some(e) => e,
            None => { return Err(CommandError::InvalidArgs); },
        };
        if email.len() > 32 {
            return Err(CommandError::EmailTooLong);
        }
        let password = match command_arg(raw, 1) {
            Some(p) => p,
            None => { return Err(CommandError::InvalidArgs); },
        };
        if password.len() > 32 {
            return Err(CommandError::PasswordTooLong);
        }
        Ok((email, password))
    }

    /// Sets the local user being edited from `AT+USR=`: the e-mail, and the
    /// digest of the password when it could be computed (otherwise the
    /// command answers `InvalidArgs` and only the e-mail changed).
    pub fn user_set(&mut self, email: &Vec<u8>, digest: Option<Vec<u8>>) -> (r: Result<(), CommandError>)
        ensures
            final(self)@ == (SessionView {
                local: UserView {
                    email: capped(email@, EMAIL_MAX as nat),
                    password: match digest { Some(d) => capped(d@, PASSWORD_MAX as nat), None => old(self)@.local.password },
                },
                ..old(self)@
            }),
            r is Ok <==> digest is Some,
            r is Err ==> r == Err::<(), CommandError>(CommandError::InvalidArgs),
    {
        self.local.set_email(email.as_slice());
        assert(self@.users =~= old(self)@.users);
        match digest {
            Some(d) => {
                self.local.set_password(d.as_slice());
                Ok(())
            },
            None => Err(CommandError::InvalidArgs),
        }
    }
}

/// Appends all bytes of `s`.
pub fn append_all(out: &mut Vec<u8>, s: &Vec<u8>)
    ensures
        final(out)@ == old(out)@ + s@,
{
    let ghost start = out@;
    let mut i: usize = 0;
    while i < s.len()
        invariant
            0 <= i <= s@.len(),
            out@ == start + s@.take(i as int),
        decreases s.len() - i,
    {
        out.push(s[i]);
        i = i + 1;
        assert(out@ =~= start + s@.take(i as int));
    }
    assert(s@.take(i as int) =~= s@);
}

/// A stored user whose credentials are staged is found by `AT+SESS`: the
/// login branch of `Session::exec` applies and logs that user in.
pub proof fn lemma_stored_user_can_log_in(v: SessionView, i: int)
    requires
        0 <= i < v.users.len(),
        v.staged == v.users[i],
    ensures
        exists|j: int| 0 <= j < v.users.len() && same_credentials(#[trigger] v.users[j], v.staged),
{
    assert(same_credentials(v.users[i], v.staged));
}

/// After `AT+SESS` logged a user in, the logged-in status bit is raised.
pub proof fn lemma_login_raises_status(status: EventBits)
    ensures
        (status | status_bits(StatusFlag::UserLogged)) & status_bits(StatusFlag::UserLogged) != 0,
{
    assert((status | 0x0080_0000u32) & 0x0080_0000u32 != 0) by (bit_vector);
}

/// After a logout, neither the logged-in bit nor a command-source bit is
/// raised, and every other status bit is kept.
pub proof fn lemma_logout_lowers_status(status: EventBits)
    ensures
        (status & !session_bits()) & status_bits(StatusFlag::UserLogged) == 0,
        (status & !session_bits()) & status_bits(StatusFlag::UartCmd) == 0,
        (status & !session_bits()) & status_bits(StatusFlag::MqttCmd) == 0,
        (status & !session_bits()) | session_bits() == status | session_bits(),
{
    assert((status & !(0x0080_0000u32 | 0x0040_0000u32 | 0x0020_0000u32)) & 0x0080_0000u32 == 0) by (bit_vector);
    assert((status & !(0x0080_0000u32 | 0x0040_0000u32 | 0x0020_0000u32)) & 0x0040_0000u32 == 0) by (bit_vector);
    assert((status & !(0x0080_0000u32 | 0x0040_0000u32 | 0x0020_0000u32)) & 0x0020_0000u32 == 0) by (bit_vector);
    assert((status & !(0x0080_0000u32 | 0x0040_0000u32 | 0x0020_0000u32)) | (0x0080_0000u32 | 0x0040_0000u32 | 0x0020_0000u32)
        == status | (0x0080_0000u32 | 0x0040_0000u32 | 0x0020_0000u32)) by (bit_vector);
}

} // verus!
