//! What the platform's configuration offers: the scripts and services behind
//! factory reset, firmware updates, storage maintenance and fan control.

use vstd::prelude::*;
use crate::error::Error;

verus! {

/// A script and the arguments it is always run with.
#[derive(Clone, Debug)]
pub struct ScriptConfig {
    pub script: String,
    pub script_args: Vec<String>,
}

/// The scripts behind the kinds of factory reset.
#[derive(Clone, Debug)]
pub struct ResetConfig {
    pub all: ScriptConfig,
    pub os: ScriptConfig,
    pub user: ScriptConfig,
}

/// How a service is started, stopped and asked for its state.
#[derive(Clone, Debug)]
pub enum ServiceConfig {
    /// A systemd unit, by name.
    Systemd(String),
    /// Three scripts.
    Script { start: ScriptConfig, stop: ScriptConfig, status: ScriptConfig },
}

/// The script that formats a device, and the flags it understands.
#[derive(Clone, Debug)]
pub struct FormatDeviceConfig {
    pub script: String,
    pub script_args: Vec<String>,
    pub label_flag: String,
    pub device_flag: Option<String>,
    pub validate_flag: Option<String>,
    pub no_validate_flag: Option<String>,
}

/// The scripts behind storage maintenance.
#[derive(Clone, Debug)]
pub struct StorageConfig {
    pub trim_devices: ScriptConfig,
    pub format_device: FormatDeviceConfig,
}

/// Everything the platform's configuration offers.
#[derive(Clone, Debug)]
pub struct PlatformConfig {
    pub factory_reset: Option<ResetConfig>,
    pub update_bios: Option<ScriptConfig>,
    pub update_dock: Option<ScriptConfig>,
    pub storage: Option<StorageConfig>,
    pub fan_control: Option<ServiceConfig>,
}

/// What asking the file system about a script came to.
#[derive(Clone, Copy, Debug, PartialEq, Eq, Structural)]
pub enum Probe {
    /// There is no such file, or it may not be looked at.
    Missing,
    /// Asking failed for another reason.
    Failed,
    /// There is something at the path, with these permission bits.
    Found { is_file: bool, mode: u32 },
}

/// What asking whether the caller may execute a script came to.
#[derive(Clone, Copy, Debug, PartialEq, Eq, Structural)]
pub enum Access {
    Allowed,
    /// There is no such file, or the caller may not execute it.
    Denied,
    /// Asking failed for another reason.
    Failed,
}

/// Whether a script can be used. It has to be a regular file. The root
/// daemon has to be allowed to execute it; for anybody else it is enough
/// that somebody is. A file that is missing is of no use; a question that
/// failed is a failure.
pub open spec fn script_valid(probe: Probe, root: bool, access: Access) -> Result<bool, Error> {
    match probe {
        Probe::Missing => Ok(false),
        Probe::Failed => Err(Error::Io),
        Probe::Found { is_file, mode } => if !is_file {
            Ok(false)
        } else if root {
            match access {
                Access::Allowed => Ok(true),
                Access::Denied => Ok(false),
                Access::Failed => Err(Error::Io),
            }
        } else {
            Ok(mode & 0o111 != 0)
        },
    }
}

/// Both hold. The second is not looked at where the first fails or does not hold.
pub open spec fn both(first: Result<bool, Error>, second: Result<bool, Error>) -> Result<
    bool,
    Error,
> {
    match first {
        Err(e) => Err(e),
        Ok(false) => Ok(false),
        Ok(true) => second,
    }
}

/// Both hold.
pub fn and_valid(first: Result<bool, Error>, second: Result<bool, Error>) -> (r: Result<
    bool,
    Error,
>)
    ensures
        r == both(first, second),
{
    match first {
        Err(e) => Err(e),
        Ok(false) => Ok(false),
        Ok(true) => second,
    }
}

fn probe_valid(probe: Probe, root: bool, access: Access) -> (r: Result<bool, Error>)
    ensures
        r == script_valid(probe, root, access),
{
    match probe {
        Probe::Missing => Ok(false),
        Probe::Failed => Err(Error::Io),
        Probe::Found { is_file, mode } => {
            if !is_file {
                Ok(false)
            } else if root {
                match access {
                    Access::Allowed => Ok(true),
                    Access::Denied => Ok(false),
                    Access::Failed => Err(Error::Io),
                }
            } else {
                Ok(mode & 0o111 != 0)
            }
        },
    }
}

impl ScriptConfig {
    /// A configuration that names no script.
    pub fn default() -> (r: ScriptConfig)
        ensures
            r.script@.len() == 0,
            r.script_args@.len() == 0,
    {
        ScriptConfig { script: String::new(), script_args: Vec::new() }
    }

    /// Whether the script can be used, given what the file system says of it.
    pub fn is_valid(&self, probe: Probe, root: bool, access: Access) -> (r: Result<bool, Error>)
        ensures
            r == script_valid(probe, root, access),
    {
        probe_valid(probe, root, access)
    }
}

impl FormatDeviceConfig {
    /// A configuration that names no script and no flags.
    pub fn default() -> (r: FormatDeviceConfig)
        ensures
            r.script@.len() == 0,
            r.script_args@.len() == 0,
            r.label_flag@.len() == 0,
            r.device_flag is None,
            r.validate_flag is None,
            r.no_validate_flag is None,
    {
        FormatDeviceConfig {
            script: String::new(),
            script_args: Vec::new(),
            label_flag: String::new(),
            device_flag: None,
            validate_flag: None,
            no_validate_flag: None,
        }
    }

    /// Whether the script can be used, given what the file system says of it.
    pub fn is_valid(&self, probe: Probe, root: bool, access: Access) -> (r: Result<bool, Error>)
        ensures
            r == script_valid(probe, root, access),
    {
        probe_valid(probe, root, access)
    }
}

impl ResetConfig {
    /// A configuration that names no scripts, and no arguments for them.
    pub fn default() -> (r: ResetConfig)
        ensures
            r.all.script@.len() == 0,
            r.all.script_args@.len() == 0,
            r.os.script@.len() == 0,
            r.os.script_args@.len() == 0,
            r.user.script@.len() == 0,
            r.user.script_args@.len() == 0,
    {
        ResetConfig {
            all: ScriptConfig::default(),
            os: ScriptConfig::default(),
            user: ScriptConfig::default(),
        }
    }

    /// Whether all three scripts can be used, given whether each can.
    pub fn is_valid(
        &self,
        all: Result<bool, Error>,
        os: Result<bool, Error>,
        user: Result<bool, Error>,
    ) -> (r: Result<bool, Error>)
        ensures
            r == both(all, both(os, user)),
    {
        and_valid(all, and_valid(os, user))
    }
}

impl StorageConfig {
    /// A configuration that names no scripts, no arguments and no flags.
    pub fn default() -> (r: StorageConfig)
        ensures
            r.trim_devices.script@.len() == 0,
            r.trim_devices.script_args@.len() == 0,
            r.format_device.script@.len() == 0,
            r.format_device.script_args@.len() == 0,
            r.format_device.label_flag@.len() == 0,
            r.format_device.device_flag is None,
            r.format_device.validate_flag is None,
            r.format_device.no_validate_flag is None,
    {
        StorageConfig {
            trim_devices: ScriptConfig::default(),
            format_device: FormatDeviceConfig::default(),
        }
    }

    /// Whether both scripts can be used, given whether each can.
    pub fn is_valid(&self, trim_devices: Result<bool, Error>, format_device: Result<bool, Error>)
        -> (r: Result<bool, Error>)
        ensures
            r == both(trim_devices, format_device),
    {
        and_valid(trim_devices, format_device)
    }
}

impl ServiceConfig {
    /// Whether the service can be used: a unit if it exists, scripts if all
    /// three can be used.
    pub fn is_valid(
        &self,
        unit_exists: Result<bool, Error>,
        start: Result<bool, Error>,
        stop: Result<bool, Error>,
        status: Result<bool, Error>,
    ) -> (r: Result<bool, Error>)
        ensures
            r == match self {
                ServiceConfig::Systemd(_) => unit_exists,
                ServiceConfig::Script { .. } => both(start, both(stop, status)),
            },
    {
        match self {
            ServiceConfig::Systemd(_) => unit_exists,
            ServiceConfig::Script { .. } => and_valid(start, and_valid(stop, status)),
        }
    }
}

/// A script path after the stand-in was put in: an empty path becomes `exe`.
pub open spec fn filled(script: Seq<char>, exe: Seq<char>) -> Seq<char> {
    if script.len() == 0 {
        exe
    } else {
        script
    }
}

fn fill(script: &mut String, exe: &str)
    ensures
        final(script)@ == filled(old(script)@, exe@),
{
    if script.as_str().is_empty() {
        *script = exe.to_owned();
    }
}

impl PlatformConfig {
    /// A configuration that offers nothing.
    pub fn default() -> (r: PlatformConfig)
        ensures
            r.factory_reset is None,
            r.update_bios is None,
            r.update_dock is None,
            r.storage is None,
            r.fan_control is None,
    {
        PlatformConfig {
            factory_reset: None,
            update_bios: None,
            update_dock: None,
            storage: None,
            fan_control: None,
        }
    }

    /// Puts `exe` in place of every script path that is empty, so that a
    /// configuration written without paths can be tried out. Fan control is
    /// left alone.
    pub fn set_test_paths(&mut self, exe: &str)
        ensures
            match (old(self).factory_reset, final(self).factory_reset) {
                (Some(before), Some(after)) => {
                    &&& after.all.script@ == filled(before.all.script@, exe@)
                    &&& after.os.script@ == filled(before.os.script@, exe@)
                    &&& after.user.script@ == filled(before.user.script@, exe@)
                    &&& after.all.script_args == before.all.script_args
                    &&& after.os.script_args == before.os.script_args
                    &&& after.user.script_args == before.user.script_args
                },
                (None, None) => true,
                _ => false,
            },
            match (old(self).storage, final(self).storage) {
                (Some(before), Some(after)) => {
                    &&& after.trim_devices.script@ == filled(before.trim_devices.script@, exe@)
                    &&& after.format_device.script@ == filled(before.format_device.script@, exe@)
                    &&& after.trim_devices.script_args == before.trim_devices.script_args
                    &&& after.format_device.script_args == before.format_device.script_args
                    &&& after.format_device.label_flag == before.format_device.label_flag
                    &&& after.format_device.device_flag == before.format_device.device_flag
                    &&& after.format_device.validate_flag == before.format_device.validate_flag
                    &&& after.format_device.no_validate_flag
                        == before.format_device.no_validate_flag
                },
                (None, None) => true,
                _ => false,
            },
            match (old(self).update_bios, final(self).update_bios) {
                (Some(before), Some(after)) => {
                    &&& after.script@ == filled(before.script@, exe@)
                    &&& after.script_args == before.script_args
                },
                (None, None) => true,
                _ => false,
            },
            match (old(self).update_dock, final(self).update_dock) {
                (Some(before), Some(after)) => {
                    &&& after.script@ == filled(before.script@, exe@)
                    &&& after.script_args == before.script_args
                },
                (None, None) => true,
                _ => false,
            },
            final(self).fan_control == old(self).fan_control,
    {
        if let Some(factory_reset) = &mut self.factory_reset {
            fill(&mut factory_reset.all.script, exe);
            fill(&mut factory_reset.os.script, exe);
            fill(&mut factory_reset.user.script, exe);
        }
        if let Some(storage) = &mut self.storage {
            fill(&mut storage.trim_devices.script, exe);
            fill(&mut storage.format_device.script, exe);
        }
        if let Some(update_bios) = &mut self.update_bios {
            fill(&mut update_bios.script, exe);
        }
        if let Some(update_dock) = &mut self.update_dock {
            fill(&mut update_dock.script, exe);
        }
    }
}

} // verus!
