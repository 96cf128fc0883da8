//! The session types that the login manager knows, and where the choice
//! among them is kept.

use vstd::prelude::*;
use vstd::string::StringSliceAdditionalSpecFns;
use vstd::utf8::encode_utf8;
use crate::error::Error;
use crate::text::{bytes_eq, trim_end_matches, without_suffixes};

verus! {

/// The persistent store. It applies unless a session for the next login is set.
pub const PERSISTENT_CONFIG_FILE: &'static str = "/etc/sddm.conf.d/yy-steamos-session.conf";

/// The store of the session for the next login. It is read after the
/// persistent one, and so overrides it.
pub const EPHEMERAL_CONFIG_FILE: &'static str = "/etc/sddm.conf.d/zz-steamos-autologin.conf";

pub const CONFIG_SECTION_STEAM: &'static str = "X-SteamOS";

pub const CONFIG_SECTION_AUTOLOGIN: &'static str = "Autologin";

pub const DEFAULT_DESKTOP_SESSION: &'static str = "plasmax11";

pub const DEFAULT_SESSION: &'static str = "gamescope-wayland";

pub const CONFIG_KEY_DEFAULT_DESKTOP_SESSION: &'static str = "DefaultDesktopSession";

pub const CONFIG_KEY_SESSION: &'static str = "Session";

/// The file that stands for a session type: the type without any `.desktop`
/// that ends it, and `.desktop`.
pub open spec fn session_file(ty: Seq<u8>) -> Seq<u8> {
    without_suffixes(ty, ".desktop".spec_bytes()) + ".desktop".spec_bytes()
}

/// Whether one of the names is the text looked for.
pub open spec fn has_name(names: Seq<String>, wanted: Seq<u8>) -> bool {
    exists|i: int| 0 <= i < names.len() && encode_utf8(names[i]@) == wanted
}

/// The file that stands for a session type.
pub fn session_file_name(ty: &str) -> (r: Vec<u8>)
    ensures
        r@ == session_file(ty.spec_bytes()),
{
    let mut expected = vstd::slice::slice_to_vec(
        trim_end_matches(ty.as_bytes(), ".desktop".as_bytes()),
    );
    expected.extend_from_slice(".desktop".as_bytes());
    expected
}

/// Looks for the file of a session type among the names of a directory's
/// entries, and gives the file's name.
pub fn find_type_in_dir(names: &Vec<String>, ty: &str) -> (r: Result<Vec<u8>, Error>)
    ensures
        has_name(names@, session_file(ty.spec_bytes())) ==> r is Ok && r->Ok_0@ == session_file(
            ty.spec_bytes(),
        ),
        !has_name(names@, session_file(ty.spec_bytes())) ==> r == Err::<Vec<u8>, Error>(
            Error::NotFound,
        ),
{
    let expected = session_file_name(ty);
    let mut i: usize = 0;
    while i < names.len()
        invariant
            i <= names@.len(),
            expected@ == session_file(ty.spec_bytes()),
            forall|j: int| 0 <= j < i ==> encode_utf8(names@[j]@) != expected@,
        decreases names@.len() - i,
    {
        if bytes_eq(names[i].as_str().as_bytes(), expected.as_slice()) {
            return Ok(expected);
        }
        i += 1;
    }
    Err(Error::NotFound)
}

/// Whether a directory has the file looked for; a directory that cannot be
/// listed has not.
pub open spec fn dir_has(names: Option<&Vec<String>>, wanted: Seq<u8>) -> bool {
    names is Some && has_name(names->Some_0@, wanted)
}

/// Makes sure that a session type exists, given the names of the entries of
/// the directory of Wayland sessions and of that of X sessions, as far as
/// they could be listed. A directory that could not be listed is passed
/// over.
pub fn ensure_session_exists(wayland: Option<&Vec<String>>, x: Option<&Vec<String>>, ty: &str) -> (r:
    Result<Vec<u8>, Error>)
    ensures
        (dir_has(wayland, session_file(ty.spec_bytes())) || dir_has(
            x,
            session_file(ty.spec_bytes()),
        )) ==> r is Ok && r->Ok_0@ == session_file(ty.spec_bytes()),
        !(dir_has(wayland, session_file(ty.spec_bytes())) || dir_has(
            x,
            session_file(ty.spec_bytes()),
        )) ==> r == Err::<Vec<u8>, Error>(Error::NotFound),
{
    if let Some(names) = wayland {
        if let Ok(session) = find_type_in_dir(names, ty) {
            return Ok(session);
        }
    }
    if let Some(names) = x {
        if let Ok(session) = find_type_in_dir(names, ty) {
            return Ok(session);
        }
    }
    Err(Error::NotFound)
}

/// What looking a key up in a configuration file came to.
#[derive(Debug)]
pub enum ConfigLookup {
    /// The file could not be read, or is no configuration.
    Unreadable,
    /// The file has no such section.
    NoSection,
    /// The section has no such key.
    NoKey,
    /// The key's value.
    Value(String),
}

/// The session type that a configuration file names: the value of the key
/// if the file holds one, and the default in every other case.
pub fn read_type_from_config(lookup: ConfigLookup, default_session: &str) -> (r: String)
    ensures
        r@ == match lookup {
            ConfigLookup::Value(session) => session@,
            _ => default_session@,
        },
{
    match lookup {
        ConfigLookup::Value(session) => session,
        _ => default_session.to_owned(),
    }
}

/// The units that are stopped to restart the session, in this order.
pub fn restart_session() -> (r: [&'static str; 2])
    ensures
        r@.len() == 2,
        r@[0]@ == "plasma-workspace.target"@,
        r@[1]@ == "gamescope-session.service"@,
{
    ["plasma-workspace.target", "gamescope-session.service"]
}

/// Where a session type is kept: the file, the section and the key.
#[derive(Clone, Copy, Debug, PartialEq, Eq)]
pub struct ConfigStore {
    pub file: &'static str,
    pub section: &'static str,
    pub key: &'static str,
}

/// A session type to write, and where.
#[derive(Debug)]
pub struct ConfigWrite {
    pub store: ConfigStore,
    pub session_name: String,
}

/// Where the desktop session of choice is kept.
pub open spec fn desktop_session_store() -> ConfigStore {
    ConfigStore {
        file: PERSISTENT_CONFIG_FILE,
        section: CONFIG_SECTION_STEAM,
        key: CONFIG_KEY_DEFAULT_DESKTOP_SESSION,
    }
}

/// Where the session that every login starts is kept.
pub open spec fn session_store() -> ConfigStore {
    ConfigStore {
        file: PERSISTENT_CONFIG_FILE,
        section: CONFIG_SECTION_AUTOLOGIN,
        key: CONFIG_KEY_SESSION,
    }
}

/// Where the session that the next login starts is kept.
pub open spec fn next_session_store() -> ConfigStore {
    ConfigStore {
        file: EPHEMERAL_CONFIG_FILE,
        section: CONFIG_SECTION_AUTOLOGIN,
        key: CONFIG_KEY_SESSION,
    }
}

/// What writing a session type comes to: the type is written as it was
/// given, to the store, if it exists as a session; otherwise nothing is
/// written.
pub open spec fn session_write(
    store: ConfigStore,
    wayland: Option<&Vec<String>>,
    x: Option<&Vec<String>>,
    ty: &str,
    r: Result<ConfigWrite, Error>,
) -> bool {
    if dir_has(wayland, session_file(ty.spec_bytes())) || dir_has(
        x,
        session_file(ty.spec_bytes()),
    ) {
        r is Ok && r->Ok_0.store == store && r->Ok_0.session_name@ == ty@
    } else {
        r is Err && r->Err_0 == Error::NotFound
    }
}

fn write_type_to_config(
    store: ConfigStore,
    wayland: Option<&Vec<String>>,
    x: Option<&Vec<String>>,
    ty: &str,
) -> (r: Result<ConfigWrite, Error>)
    ensures
        session_write(store, wayland, x, ty, r),
{
    match ensure_session_exists(wayland, x, ty) {
        Ok(_) => Ok(ConfigWrite { store, session_name: ty.to_owned() }),
        Err(e) => Err(e),
    }
}

/// Where the desktop session of choice is kept.
pub fn default_desktop_session_store() -> (r: ConfigStore)
    ensures
        r == desktop_session_store(),
{
    ConfigStore {
        file: PERSISTENT_CONFIG_FILE,
        section: CONFIG_SECTION_STEAM,
        key: CONFIG_KEY_DEFAULT_DESKTOP_SESSION,
    }
}

/// Where the session that every login starts is kept.
pub fn default_session_store() -> (r: ConfigStore)
    ensures
        r == session_store(),
{
    ConfigStore {
        file: PERSISTENT_CONFIG_FILE,
        section: CONFIG_SECTION_AUTOLOGIN,
        key: CONFIG_KEY_SESSION,
    }
}

/// Where the session that the next login starts is kept.
pub fn session_to_switch_to_store() -> (r: ConfigStore)
    ensures
        r == next_session_store(),
{
    ConfigStore {
        file: EPHEMERAL_CONFIG_FILE,
        section: CONFIG_SECTION_AUTOLOGIN,
        key: CONFIG_KEY_SESSION,
    }
}

/// The desktop session of choice, given what looking it up in its store
/// came to.
pub fn read_default_desktop_session_type(lookup: ConfigLookup) -> (r: String)
    ensures
        r@ == match lookup {
            ConfigLookup::Value(session) => session@,
            _ => DEFAULT_DESKTOP_SESSION@,
        },
{
    read_type_from_config(lookup, DEFAULT_DESKTOP_SESSION)
}

/// The session that every login starts, given what looking it up in its
/// store came to.
pub fn read_default_session_type(lookup: ConfigLookup) -> (r: String)
    ensures
        r@ == match lookup {
            ConfigLookup::Value(session) => session@,
            _ => DEFAULT_SESSION@,
        },
{
    read_type_from_config(lookup, DEFAULT_SESSION)
}

/// What to write to choose the desktop session.
pub fn write_default_desktop_session_type(
    wayland: Option<&Vec<String>>,
    x: Option<&Vec<String>>,
    ty: &str,
) -> (r: Result<ConfigWrite, Error>)
    ensures
        session_write(desktop_session_store(), wayland, x, ty, r),
{
    write_type_to_config(default_desktop_session_store(), wayland, x, ty)
}

/// What to write to choose the session that every login starts.
pub fn write_default_session_type(
    wayland: Option<&Vec<String>>,
    x: Option<&Vec<String>>,
    ty: &str,
) -> (r: Result<ConfigWrite, Error>)
    ensures
        session_write(session_store(), wayland, x, ty, r),
{
    write_type_to_config(default_session_store(), wayland, x, ty)
}

/// What to write to choose the session that the next login starts.
pub fn set_session_to_switch_to(wayland: Option<&Vec<String>>, x: Option<&Vec<String>>, ty: &str)
    -> (r: Result<ConfigWrite, Error>)
    ensures
        session_write(next_session_store(), wayland, x, ty, r),
{
    write_type_to_config(session_to_switch_to_store(), wayland, x, ty)
}

} // verus!
