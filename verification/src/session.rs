//! Login sessions.

use vstd::prelude::*;
use vstd::string::StringSliceAdditionalSpecFns;
use vstd::utf8::encode_utf8;
use crate::error::Error;
use crate::text::{
    bytes_eq, contains, ends_with, has_infix, has_prefix, has_suffix, lemma_ascii_bytes,
    starts_with,
};

verus! {

/// The kind of session that a login starts.
#[derive(Clone, Copy, Debug, PartialEq, Eq, Structural)]
pub enum LoginMode {
    Game,
    Desktop,
}

impl LoginMode {
    /// The name that this mode is written with.
    pub open spec fn spec_name(self) -> &'static str {
        match self {
            LoginMode::Game => "game",
            LoginMode::Desktop => "desktop",
        }
    }

    /// The mode that a text names, if it names one. Letter case counts.
    pub open spec fn parse(text: Seq<u8>) -> Option<LoginMode> {
        if text == "game".spec_bytes() {
            Some(LoginMode::Game)
        } else if text == "desktop".spec_bytes() {
            Some(LoginMode::Desktop)
        } else {
            None
        }
    }

    /// The name that this mode is written with.
    pub fn name(&self) -> (r: &'static str)
        ensures
            r@ == self.spec_name()@,
    {
        match self {
            LoginMode::Game => "game",
            LoginMode::Desktop => "desktop",
        }
    }

    /// The name that this mode is written with, as an owned string.
    pub fn to_string(&self) -> (r: String)
        ensures
            r@ == self.spec_name()@,
    {
        self.name().to_owned()
    }

    /// Reads a mode from its name. A text that names none is refused.
    pub fn from_str(s: &str) -> (r: Result<LoginMode, Error>)
        ensures
            r == match LoginMode::parse(s.spec_bytes()) {
                Some(v) => Ok::<LoginMode, Error>(v),
                None => Err(Error::InvalidData),
            },
    {
        LoginMode::from_bytes(s.as_bytes())
    }

    /// Reads a mode from the bytes of its name.
    pub fn from_bytes(text: &[u8]) -> (r: Result<LoginMode, Error>)
        ensures
            r == match LoginMode::parse(text@) {
                Some(v) => Ok::<LoginMode, Error>(v),
                None => Err(Error::InvalidData),
            },
    {
        if bytes_eq(text, "game".as_bytes()) {
            Ok(LoginMode::Game)
        } else if bytes_eq(text, "desktop".as_bytes()) {
            Ok(LoginMode::Desktop)
        } else {
            Err(Error::InvalidData)
        }
    }
}

/// Writing the name of a mode and reading it back gives the mode.
pub proof fn lemma_login_mode_round_trip(v: LoginMode)
    ensures
        LoginMode::parse(v.spec_name().spec_bytes()) == Some(v),
{
    reveal_strlit("game");
    reveal_strlit("desktop");
    lemma_ascii_bytes("game");
    lemma_ascii_bytes("desktop");
}

impl Default for LoginMode {
    fn default() -> (r: LoginMode)
        ensures
            r == LoginMode::Game,
    {
        LoginMode::Game
    }
}

/// A file name that may stand for a desktop session: it is not hidden, it
/// ends in `.desktop`, and it does not mention gamescope.
pub open spec fn valid_desktop_session_name(name: Seq<u8>) -> bool {
    &&& !has_prefix(name, ".".spec_bytes())
    &&& has_suffix(name, ".desktop".spec_bytes())
    &&& !has_infix(name, "gamescope".spec_bytes())
}

/// Tests whether a file name may stand for a desktop session.
pub fn is_valid_desktop_session_name(path: &str) -> (r: bool)
    ensures
        r == valid_desktop_session_name(path.spec_bytes()),
{
    let name = path.as_bytes();
    if starts_with(name, ".".as_bytes()) {
        return false;
    }
    if !ends_with(name, ".desktop".as_bytes()) {
        return false;
    }
    if contains(name, "gamescope".as_bytes()) {
        return false;
    }
    true
}

/// The session that a game mode login starts.
pub const GAME_SESSION: &'static str = "gamescope-wayland.desktop";

/// The desktop session of a machine on which none was chosen.
pub const DEFAULT_DESKTOP_SESSION: &'static str = "plasmax11.desktop";

/// The unit that runs while the machine is in game mode.
pub const GAME_UNIT: &'static str = "gamescope-session.service";

/// The name of a desktop session.
#[derive(Clone, Debug)]
pub struct DesktopSession(pub String);

impl DesktopSession {
    /// The desktop session of a machine on which none was chosen.
    pub fn default() -> (r: DesktopSession)
        ensures
            r.0@ == DEFAULT_DESKTOP_SESSION@,
    {
        DesktopSession(DEFAULT_DESKTOP_SESSION.to_owned())
    }

    /// The session that goes by `val`.
    pub fn from(val: String) -> (r: DesktopSession)
        ensures
            r.0@ == val@,
    {
        DesktopSession(val)
    }
}

/// What is remembered of sessions from one run of the daemon to the next.
#[derive(Clone, Debug)]
pub struct SessionManagerState {
    pub default_login_mode: LoginMode,
    pub desktop_session: Option<DesktopSession>,
}

/// The desktop session that a state stands for: the one chosen, or the
/// default where none was.
pub open spec fn desktop_session_of(state: SessionManagerState) -> Seq<char> {
    match state.desktop_session {
        Some(session) => session.0@,
        None => DEFAULT_DESKTOP_SESSION@,
    }
}

/// The session that a login of a mode starts.
pub open spec fn session_of(state: SessionManagerState, mode: LoginMode) -> Seq<char> {
    match mode {
        LoginMode::Game => GAME_SESSION@,
        LoginMode::Desktop => desktop_session_of(state),
    }
}

/// What choosing a desktop session comes to, given the mode that logins
/// start and whether the session exists: a session that does not exist is
/// refused, and otherwise the answer says whether logins start desktop mode.
pub open spec fn chosen(mode: LoginMode, exists: Result<bool, Error>) -> Result<bool, Error> {
    match exists {
        Err(e) => Err(e),
        Ok(false) => Err(Error::NotFound),
        Ok(true) => Ok(mode == LoginMode::Desktop),
    }
}

/// What asking a unit whether it is active came to.
#[derive(Clone, Copy, Debug, PartialEq, Eq, Structural)]
pub enum UnitProbe {
    Active(bool),
    /// The bus knows of no such unit.
    UnknownObject,
    /// Asking failed for another reason.
    Failed,
}

/// Whether a desktop session exists, given its name and whether a file of
/// that name lies among the Wayland sessions and among the X sessions. A
/// name that cannot stand for a desktop session does not exist, whatever
/// lies where; the X sessions are looked at only when the Wayland sessions
/// do not have it.
pub open spec fn desktop_session_exists(
    name: Seq<u8>,
    wayland: Result<bool, Error>,
    x: Result<bool, Error>,
) -> Result<bool, Error> {
    if !valid_desktop_session_name(name) {
        Ok(false)
    } else {
        match wayland {
            Err(e) => Err(e),
            Ok(true) => Ok(true),
            Ok(false) => match x {
                Err(e) => Err(e),
                Ok(found) => Ok(found),
            },
        }
    }
}

/// The names among `names`, in their order, that may stand for a desktop session.
pub open spec fn valid_names(names: Seq<String>) -> Seq<Seq<char>>
    decreases names.len(),
{
    if names.len() == 0 {
        Seq::empty()
    } else if valid_desktop_session_name(encode_utf8(names.last()@)) {
        valid_names(names.drop_last()).push(names.last()@)
    } else {
        valid_names(names.drop_last())
    }
}

/// Each string by its characters.
pub open spec fn string_views(names: Seq<String>) -> Seq<Seq<char>> {
    Seq::new(names.len(), |i: int| names[i]@)
}

/// The names of the files, among those of the session directories, that
/// stand for desktop sessions.
pub fn valid_desktop_sessions(names: &Vec<String>) -> (r: Vec<String>)
    ensures
        string_views(r@) == valid_names(names@),
{
    let mut sessions: Vec<String> = Vec::new();
    let mut i: usize = 0;
    assert(string_views(sessions@) =~= Seq::<Seq<char>>::empty());
    assert(names@.take(0) =~= Seq::<String>::empty());
    while i < names.len()
        invariant
            i <= names@.len(),
            string_views(sessions@) == valid_names(names@.take(i as int)),
        decreases names@.len() - i,
    {
        let ghost upto = names@.take(i + 1);
        assert(upto.drop_last() =~= names@.take(i as int));
        assert(upto.last() == names@[i as int]);
        if is_valid_desktop_session_name(names[i].as_str()) {
            let ghost before = string_views(sessions@);
            sessions.push(names[i].clone());
            assert(string_views(sessions@) =~= before.push(names@[i as int]@));
        }
        i += 1;
    }
    assert(names@.take(names@.len() as int) =~= names@);
    sessions
}

/// Tests whether a desktop session exists.
pub fn is_valid_desktop_session(session: &str, wayland: Result<bool, Error>, x: Result<bool, Error>)
    -> (r: Result<bool, Error>)
    ensures
        r == desktop_session_exists(session.spec_bytes(), wayland, x),
{
    if !is_valid_desktop_session_name(session) {
        return Ok(false);
    }
    match wayland {
        Err(e) => Err(e),
        Ok(true) => Ok(true),
        Ok(false) => match x {
            Err(e) => Err(e),
            Ok(found) => Ok(found),
        },
    }
}

/// Whether a unit is active: one that the bus does not know is not.
pub fn unit_is_active(probe: UnitProbe) -> (r: Result<bool, Error>)
    ensures
        r == match probe {
            UnitProbe::Active(active) => Ok::<bool, Error>(active),
            UnitProbe::UnknownObject => Ok(false),
            UnitProbe::Failed => Err(Error::Io),
        },
{
    match probe {
        UnitProbe::Active(active) => Ok(active),
        UnitProbe::UnknownObject => Ok(false),
        UnitProbe::Failed => Err(Error::Io),
    }
}

/// The mode that the machine is in: game mode while its unit is active.
pub fn current_login_mode(game_unit_active: bool) -> (r: LoginMode)
    ensures
        r == if game_unit_active {
            LoginMode::Game
        } else {
            LoginMode::Desktop
        },
{
    if game_unit_active {
        LoginMode::Game
    } else {
        LoginMode::Desktop
    }
}

impl SessionManagerState {
    /// The state of a machine on which nothing was chosen.
    pub open spec fn default_spec() -> SessionManagerState {
        SessionManagerState { default_login_mode: LoginMode::Game, desktop_session: None }
    }

    /// The state of a machine on which nothing was chosen: it logs into game mode.
    pub fn default() -> (r: SessionManagerState)
        ensures
            r == SessionManagerState::default_spec(),
    {
        SessionManagerState { default_login_mode: LoginMode::Game, desktop_session: None }
    }

    /// The desktop session: the one chosen, or the default.
    pub fn default_desktop_session(&self) -> (r: String)
        ensures
            r@ == desktop_session_of(*self),
    {
        match &self.desktop_session {
            Some(session) => session.0.clone(),
            None => DEFAULT_DESKTOP_SESSION.to_owned(),
        }
    }

    /// The mode that a login starts by default.
    pub fn default_login_mode(&self) -> (r: LoginMode)
        ensures
            r == self.default_login_mode,
    {
        self.default_login_mode
    }

    /// The session that a login of a mode starts.
    pub fn session_for_mode(&self, mode: LoginMode) -> (r: String)
        ensures
            r@ == session_of(*self, mode),
    {
        match mode {
            LoginMode::Game => GAME_SESSION.to_owned(),
            LoginMode::Desktop => self.default_desktop_session(),
        }
    }

    /// Chooses the desktop session, given whether it exists. A session that
    /// does not exist is refused and nothing changes. The answer says
    /// whether the session is also the one that logins start from now on,
    /// which it is while they start desktop mode.
    pub fn set_default_desktop_session(&mut self, session: &str, exists: Result<bool, Error>) -> (r:
        Result<bool, Error>)
        ensures
            final(self).default_login_mode == old(self).default_login_mode,
            r == chosen(old(self).default_login_mode, exists),
            r is Err ==> final(self).desktop_session == old(self).desktop_session,
            r is Ok ==> final(self).desktop_session is Some,
            r is Ok ==> desktop_session_of(*final(self)) == session@,
    {
        match exists {
            Err(e) => Err(e),
            Ok(false) => Err(Error::NotFound),
            Ok(true) => {
                self.desktop_session = Some(DesktopSession(session.to_owned()));
                Ok(matches!(self.default_login_mode, LoginMode::Desktop))
            },
        }
    }

    /// Chooses the mode that logins start, and gives the session that
    /// logins start from now on.
    pub fn set_default_login_mode(&mut self, mode: LoginMode) -> (r: String)
        ensures
            final(self).default_login_mode == mode,
            final(self).desktop_session == old(self).desktop_session,
            r@ == session_of(*old(self), mode),
    {
        self.default_login_mode = mode;
        self.session_for_mode(mode)
    }
}

/// The login manager's configuration that starts a session at the next
/// login.
pub open spec fn autologin_text(session: Seq<u8>) -> Seq<u8> {
    "[Autologin]\nSession=".spec_bytes() + session + "\n".spec_bytes()
}

/// Whether a byte occurs in a text.
pub open spec fn has_byte(s: Seq<u8>, b: u8) -> bool {
    exists|i: int| 0 <= i < s.len() && s[i] == b
}

fn contains_byte(s: &[u8], b: u8) -> (r: bool)
    ensures
        r == has_byte(s@, b),
{
    let mut i: usize = 0;
    while i < s.len()
        invariant
            i <= s.len(),
            forall|j: int| 0 <= j < i ==> s@[j] != b,
        decreases s.len() - i,
    {
        if s[i] == b {
            return true;
        }
        i += 1;
    }
    false
}

/// What to write to the login manager's configuration to start a session
/// at the next login. A name with a line feed in it is refused: it would
/// write a line of its own.
pub fn set_temporary_session(session: &str) -> (r: Result<Vec<u8>, Error>)
    ensures
        has_byte(session.spec_bytes(), 0x0a) ==> r == Err::<Vec<u8>, Error>(Error::InvalidData),
        !has_byte(session.spec_bytes(), 0x0a) ==> r is Ok && r->Ok_0@ == autologin_text(
            session.spec_bytes(),
        ),
{
    if contains_byte(session.as_bytes(), 0x0a) {
        return Err(Error::InvalidData);
    }
    let mut text: Vec<u8> = Vec::new();
    text.extend_from_slice("[Autologin]\nSession=".as_bytes());
    text.extend_from_slice(session.as_bytes());
    text.extend_from_slice("\n".as_bytes());
    Ok(text)
}

/// What to write to the login manager's configuration to start a session
/// at every login. A name with a line feed in it is refused.
pub fn set_default_session(session: &str) -> (r: Result<Vec<u8>, Error>)
    ensures
        has_byte(session.spec_bytes(), 0x0a) ==> r == Err::<Vec<u8>, Error>(Error::InvalidData),
        !has_byte(session.spec_bytes(), 0x0a) ==> r is Ok && r->Ok_0@ == autologin_text(
            session.spec_bytes(),
        ),
{
    set_temporary_session(session)
}

/// What removing the configuration of the next login came to.
#[derive(Clone, Copy, Debug, PartialEq, Eq, Structural)]
pub enum Removal {
    Removed,
    /// There was nothing to remove.
    NotFound,
    Failed,
}

/// What clearing the session of the next login comes to: to find nothing to
/// clear is no failure.
pub fn clean_temporary_sessions(removal: Removal) -> (r: Result<(), Error>)
    ensures
        removal == Removal::Failed ==> r == Err::<(), Error>(Error::Io),
        removal != Removal::Failed ==> r is Ok,
{
    match removal {
        Removal::Failed => Err(Error::Io),
        _ => Ok(()),
    }
}

} // verus!
