//! What the root daemon and the user daemon keep, and what their commands do.

use vstd::prelude::*;
use vstd::string::StringSliceAdditionalSpecFns;
use crate::daemon::DaemonCommand;
use crate::session::SessionManagerState;
use crate::text::{
    bytes_eq, fields, split_fields, trim_end, trimmed_end, views,
};

verus! {

/// Whether the inhibitor of DualSense input runs.
#[derive(Clone, Copy, Debug, PartialEq, Eq, Structural)]
pub struct DsInhibit {
    pub enabled: bool,
}

impl DsInhibit {
    /// The inhibitor runs unless it is switched off.
    pub fn default() -> (r: DsInhibit)
        ensures
            r.enabled,
    {
        DsInhibit { enabled: true }
    }
}

/// The state of the root daemon's services.
#[derive(Clone, Copy, Debug, PartialEq, Eq, Structural)]
pub struct RootServicesState {
    pub ds_inhibit: DsInhibit,
}

/// What the root daemon remembers from one run to the next.
#[derive(Clone, Copy, Debug, PartialEq, Eq, Structural)]
pub struct RootState {
    pub services: RootServicesState,
}

impl RootState {
    pub fn default() -> (r: RootState)
        ensures
            r.services.ds_inhibit.enabled,
    {
        RootState { services: RootServicesState { ds_inhibit: DsInhibit::default() } }
    }
}

/// A command for the root daemon's context.
#[derive(Clone, Copy, Debug, PartialEq, Eq, Structural)]
pub enum RootCommand {
    SetDsInhibit(bool),
    GetDsInhibit,
}

/// What has to happen to the inhibitor.
#[derive(Clone, Copy, Debug, PartialEq, Eq, Structural)]
pub enum InhibitStep {
    Nothing,
    /// Cancel the inhibitor's service.
    Cancel,
    /// Start the inhibitor's service, and report with `ds_inhibit_started`.
    Start,
}

/// What handling a command of the root daemon comes to.
#[derive(Clone, Copy, Debug, PartialEq, Eq, Structural)]
pub struct RootStep {
    pub inhibit: InhibitStep,
    /// The state is to be written out, once the inhibitor is dealt with.
    pub write_state: bool,
    /// The answer for the sender, where the command has one.
    pub reply: Option<bool>,
}

/// The root daemon's context.
pub struct RootContext {
    state: RootState,
    ds_inhibit: bool,
}

/// The root daemon's context, as contracts speak of it.
pub struct RootView {
    /// Whether the inhibitor is meant to run.
    pub enabled: bool,
    /// Whether the inhibitor's service runs.
    pub running: bool,
}

/// What has to happen to the inhibitor for it to run exactly when it is
/// meant to.
pub open spec fn inhibit_step(v: RootView) -> InhibitStep {
    if !v.enabled && v.running {
        InhibitStep::Cancel
    } else if v.enabled && !v.running {
        InhibitStep::Start
    } else {
        InhibitStep::Nothing
    }
}

impl RootContext {
    pub closed spec fn view(&self) -> RootView {
        RootView { enabled: self.state.services.ds_inhibit.enabled, running: self.ds_inhibit }
    }

    /// A context with the default state, whose inhibitor does not run yet.
    pub fn new() -> (r: RootContext)
        ensures
            r@ == (RootView { enabled: true, running: false }),
    {
        RootContext { state: RootState::default(), ds_inhibit: false }
    }

    /// The state to write out.
    pub fn state(&self) -> (r: RootState)
        ensures
            r.services.ds_inhibit.enabled == self@.enabled,
    {
        self.state
    }

    /// Takes the state that was read at the start.
    pub fn start(&mut self, state: RootState)
        ensures
            final(self)@ == (RootView {
                enabled: state.services.ds_inhibit.enabled,
                running: old(self)@.running,
            }),
    {
        self.state = state;
    }

    /// Says what has to happen to the inhibitor. A service that is to be
    /// cancelled counts as gone at once; one that is to be started counts
    /// as running only once `ds_inhibit_started` was called.
    pub fn reload_ds_inhibit(&mut self) -> (r: InhibitStep)
        ensures
            r == inhibit_step(old(self)@),
            final(self)@ == (RootView {
                running: old(self)@.running && r != InhibitStep::Cancel,
                ..old(self)@
            }),
    {
        if !self.state.services.ds_inhibit.enabled && self.ds_inhibit {
            self.ds_inhibit = false;
            InhibitStep::Cancel
        } else if self.state.services.ds_inhibit.enabled && !self.ds_inhibit {
            InhibitStep::Start
        } else {
            InhibitStep::Nothing
        }
    }

    /// Takes note that the inhibitor's service was started.
    pub fn ds_inhibit_started(&mut self)
        ensures
            final(self)@ == (RootView { running: true, ..old(self)@ }),
    {
        self.ds_inhibit = true;
    }

    /// Handles a command. Setting the inhibitor changes the state, deals
    /// with the service, and has the state written out; asking for it tells
    /// whether the service runs.
    pub fn handle_command(&mut self, cmd: RootCommand) -> (r: RootStep)
        ensures
            match cmd {
                RootCommand::SetDsInhibit(enable) => {
                    &&& r.inhibit == inhibit_step(RootView { enabled: enable, ..old(self)@ })
                    &&& r.write_state
                    &&& r.reply is None
                    &&& final(self)@ == (RootView {
                        enabled: enable,
                        running: old(self)@.running && r.inhibit != InhibitStep::Cancel,
                    })
                },
                RootCommand::GetDsInhibit => {
                    &&& r.inhibit == InhibitStep::Nothing
                    &&& !r.write_state
                    &&& r.reply == Some(old(self)@.running)
                    &&& final(self)@ == old(self)@
                },
            },
    {
        match cmd {
            RootCommand::SetDsInhibit(enable) => {
                self.state.services.ds_inhibit.enabled = enable;
                let inhibit = self.reload_ds_inhibit();
                RootStep { inhibit, write_state: true, reply: None }
            },
            RootCommand::GetDsInhibit => RootStep {
                inhibit: InhibitStep::Nothing,
                write_state: false,
                reply: Some(self.ds_inhibit),
            },
        }
    }
}

/// The inhibitor settles. After the step that a context asks for was
/// taken, and a start reported, nothing is left to do.
pub proof fn inhibitor_settles(v: RootView)
    ensures
        ({
            let step = inhibit_step(v);
            let after = RootView {
                enabled: v.enabled,
                running: if step == InhibitStep::Start {
                    true
                } else {
                    v.running && step != InhibitStep::Cancel
                },
            };
            &&& inhibit_step(after) == InhibitStep::Nothing
            &&& after.running == v.enabled
        }),
{
}

/// What the user daemon remembers from one run to the next.
#[derive(Clone, Debug)]
pub struct UserState {
    pub session_manager: SessionManagerState,
}

/// A command for the user daemon's context.
#[derive(Debug)]
pub enum UserCommand {
    SetSessionManagerState(SessionManagerState),
    GetSessionManagerState,
}

/// The user daemon's context.
pub struct UserContext {
    pub state: UserState,
}

impl UserContext {
    /// A context with the default state.
    pub fn new() -> (r: UserContext)
        ensures
            r.state.session_manager == SessionManagerState::default_spec(),
    {
        UserContext { state: UserState { session_manager: SessionManagerState::default() } }
    }

    /// Takes the state that was read at the start.
    pub fn start(&mut self, state: UserState)
        ensures
            final(self).state == state,
    {
        self.state = state;
    }

    /// Handles a command. Setting the state of the sessions replaces it and
    /// has the state written out, which the answer says; asking for it
    /// changes nothing.
    pub fn handle_command(&mut self, cmd: UserCommand) -> (write_state: bool)
        ensures
            write_state == (cmd is SetSessionManagerState),
            cmd is SetSessionManagerState ==> final(self).state.session_manager
                == cmd->SetSessionManagerState_0,
            cmd is GetSessionManagerState ==> final(self).state == old(self).state,
    {
        match cmd {
            UserCommand::SetSessionManagerState(state) => {
                self.state.session_manager = state;
                true
            },
            UserCommand::GetSessionManagerState => false,
        }
    }

    /// The command that has the supervisor write the state out.
    pub fn write_state_command<T>() -> (r: DaemonCommand<T>)
        ensures
            r == DaemonCommand::<T>::WriteState,
    {
        DaemonCommand::WriteState
    }
}

/// The part of a text before the first occurrence of a byte, and the part
/// after it; nothing for a text without the byte.
pub open spec fn key_value_at(text: Seq<u8>, separator: u8, at: int) -> Option<(Seq<u8>, Seq<u8>)>
    decreases text.len() - at,
{
    if at < 0 || at >= text.len() {
        None
    } else if text[at] == separator {
        Some((text.take(at), text.skip(at + 1)))
    } else {
        key_value_at(text, separator, at + 1)
    }
}

/// The value of the first parameter, from place `from` on, whose key is `path`.
pub open spec fn path_among(params: Seq<Seq<u8>>, from: int) -> Option<Seq<u8>>
    decreases params.len() - from,
{
    if from < 0 || from >= params.len() {
        None
    } else {
        match key_value_at(params[from], 0x3d, 0) {
            Some((key, value)) => if key == "path".spec_bytes() {
                Some(value)
            } else {
                path_among(params, from + 1)
            },
            None => path_among(params, from + 1),
        }
    }
}

/// The path of the socket that a bus address names. The address is a
/// transport, a colon, and parameters of the form `key=value` with commas
/// between them; white space that ends it does not count. The path is the
/// value of the first parameter whose key is `path`.
pub open spec fn socket_path_of(address: Seq<u8>) -> Option<Seq<u8>> {
    match key_value_at(trimmed_end(address), 0x3a, 0) {
        Some((_, params)) => path_among(fields(params, 0x2c), 0),
        None => None,
    }
}

fn split_once(text: &[u8], separator: u8) -> (r: Option<(&[u8], &[u8])>)
    ensures
        match key_value_at(text@, separator, 0) {
            Some((key, value)) => r is Some && r->Some_0.0@ == key && r->Some_0.1@ == value,
            None => r is None,
        },
{
    let mut i: usize = 0;
    while i < text.len()
        invariant
            i <= text.len(),
            key_value_at(text@, separator, 0) == key_value_at(text@, separator, i as int),
        decreases text.len() - i,
    {
        if text[i] == separator {
            let key = vstd::slice::slice_subrange(text, 0, i);
            let value = vstd::slice::slice_subrange(text, i + 1, text.len());
            assert(key@ =~= text@.take(i as int));
            assert(value@ =~= text@.skip(i + 1));
            return Some((key, value));
        }
        i += 1;
    }
    None
}

/// The path of the socket that a bus address names.
pub fn socket_path(address: &str) -> (r: Option<Vec<u8>>)
    ensures
        match socket_path_of(address.spec_bytes()) {
            Some(path) => r is Some && r->Some_0@ == path,
            None => r is None,
        },
{
    let text = trim_end(address.as_bytes());
    let params = match split_once(text, 0x3a) {
        Some((_, params)) => split_fields(params, 0x2c),
        None => {
            return None;
        },
    };
    let mut i: usize = 0;
    while i < params.len()
        invariant
            i <= params@.len(),
            socket_path_of(address.spec_bytes()) == path_among(views(params@), i as int),
        decreases params@.len() - i,
    {
        if let Some((key, value)) = split_once(params[i].as_slice(), 0x3d) {
            if bytes_eq(key, "path".as_bytes()) {
                return Some(vstd::slice::slice_to_vec(value));
            }
        }
        i += 1;
    }
    None
}

} // verus!
