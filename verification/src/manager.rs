//! What the bus interfaces of the user daemon offer and answer.

use vstd::prelude::*;
use crate::error::Error;
use crate::hardware::DeviceConfig;
use crate::tdp_manager::configured_limit;

verus! {

/// The path at which the manager's interfaces live on the bus.
pub const MANAGER_PATH: &'static str = "/com/steampowered/SteamOSManager1";

/// Whether each part of the platform's configuration can be used; `None`
/// for a part that is not configured.
#[derive(Clone, Copy, Debug)]
pub struct PlatformChecks {
    pub factory_reset: Option<Result<bool, Error>>,
    pub fan_control: Option<Result<bool, Error>>,
    pub storage: Option<Result<bool, Error>>,
    pub update_bios: Option<Result<bool, Error>>,
    pub update_dock: Option<Result<bool, Error>>,
}

/// The interfaces that the platform's configuration stands behind.
#[derive(Clone, Copy, Debug, PartialEq, Eq, Structural)]
pub struct PlatformInterfaces {
    pub factory_reset: bool,
    pub fan_control: bool,
    pub storage: bool,
    pub update_bios: bool,
    pub update_dock: bool,
}

/// An interface is offered where its part of the configuration is there and
/// was found usable. A check that failed offers nothing.
pub open spec fn offered(check: Option<Result<bool, Error>>) -> bool {
    check == Some(Ok::<bool, Error>(true))
}

fn is_offered(check: Option<Result<bool, Error>>) -> (r: bool)
    ensures
        r == offered(check),
{
    match check {
        Some(Ok(valid)) => valid,
        _ => false,
    }
}

/// The interfaces to offer for the platform.
pub fn create_platform_interfaces(checks: &PlatformChecks) -> (r: PlatformInterfaces)
    ensures
        r == (PlatformInterfaces {
            factory_reset: offered(checks.factory_reset),
            fan_control: offered(checks.fan_control),
            storage: offered(checks.storage),
            update_bios: offered(checks.update_bios),
            update_dock: offered(checks.update_dock),
        }),
{
    PlatformInterfaces {
        factory_reset: is_offered(checks.factory_reset),
        fan_control: is_offered(checks.fan_control),
        storage: is_offered(checks.storage),
        update_bios: is_offered(checks.update_bios),
        update_dock: is_offered(checks.update_dock),
    }
}

/// The interfaces that the device's configuration stands behind.
#[derive(Clone, Copy, Debug, PartialEq, Eq, Structural)]
pub struct DeviceInterfaces {
    pub low_power_mode: bool,
    pub tdp_limit: bool,
    pub performance_profile: bool,
}

/// The interfaces to offer for the device. Without a configuration there
/// are none. Download mode is offered where the arbiter runs and a limit
/// for it is configured; the TDP limit where the arbiter runs and says that
/// its method is active; performance profiles where they are configured and
/// the platform has some.
pub open spec fn device_interfaces(
    config: Option<&DeviceConfig>,
    tdp_manager: bool,
    tdp_active: Result<bool, Error>,
    profiles: usize,
) -> DeviceInterfaces {
    match config {
        None => DeviceInterfaces {
            low_power_mode: false,
            tdp_limit: false,
            performance_profile: false,
        },
        Some(c) => DeviceInterfaces {
            low_power_mode: tdp_manager && configured_limit(config) is Some,
            tdp_limit: tdp_manager && tdp_active == Ok::<bool, Error>(true),
            performance_profile: c.performance_profile is Some && profiles > 0,
        },
    }
}

/// The interfaces to offer for the device.
pub fn create_device_interfaces(
    config: Option<&DeviceConfig>,
    tdp_manager: bool,
    tdp_active: Result<bool, Error>,
    profiles: usize,
) -> (r: DeviceInterfaces)
    ensures
        r == device_interfaces(config, tdp_manager, tdp_active, profiles),
{
    let c = match config {
        Some(c) => c,
        None => {
            return DeviceInterfaces {
                low_power_mode: false,
                tdp_limit: false,
                performance_profile: false,
            };
        },
    };
    let download_mode = match &c.tdp_limit {
        Some(limit) => match limit.download_mode_limit {
            Some(forced) => forced != 0,
            None => false,
        },
        None => false,
    };
    let active = match tdp_active {
        Ok(a) => a,
        Err(_) => false,
    };
    DeviceInterfaces {
        low_power_mode: tdp_manager && download_mode,
        tdp_limit: tdp_manager && active,
        performance_profile: c.performance_profile.is_some() && profiles > 0,
    }
}

/// What happens to the interface of the TDP limit after the performance
/// profile changed.
#[derive(Clone, Copy, Debug, PartialEq, Eq, Structural)]
pub enum InterfaceChange {
    Add,
    Remove,
}

/// The interface of the TDP limit is there exactly while the method is
/// active.
pub fn set_performance_profile(tdp_active: bool) -> (r: InterfaceChange)
    ensures
        r == if tdp_active {
            InterfaceChange::Add
        } else {
            InterfaceChange::Remove
        },
{
    if tdp_active {
        InterfaceChange::Add
    } else {
        InterfaceChange::Remove
    }
}

/// The TDP limit as the bus reports it: zero where the arbiter is gone, did
/// not answer, or could not tell.
pub fn tdp_limit(reply: Option<Result<u32, Error>>) -> (r: u32)
    ensures
        r == match reply {
            Some(Ok(limit)) => limit,
            _ => 0,
        },
{
    match reply {
        Some(Ok(limit)) => limit,
        _ => 0,
    }
}

/// The least TDP limit as the bus reports it, zero where it is not known.
pub fn tdp_limit_min(reply: Option<Result<(u32, u32), Error>>) -> (r: u32)
    ensures
        r == match reply {
            Some(Ok(range)) => range.0,
            _ => 0,
        },
{
    match reply {
        Some(Ok(range)) => range.0,
        _ => 0,
    }
}

/// The greatest TDP limit as the bus reports it, zero where it is not known.
pub fn tdp_limit_max(reply: Option<Result<(u32, u32), Error>>) -> (r: u32)
    ensures
        r == match reply {
            Some(Ok(range)) => range.1,
            _ => 0,
        },
{
    match reply {
        Some(Ok(range)) => range.1,
        _ => 0,
    }
}

/// What entering download mode comes to on the bus, given the arbiter's
/// answer if there was one: success hands the token on, and everything else
/// is a failure, the answer that download mode is not configured too.
pub fn enter_download_mode(reply: Option<Result<bool, Error>>) -> (r: Result<(), Error>)
    ensures
        r == match reply {
            None => Err::<(), Error>(Error::ChannelClosed),
            Some(Err(e)) => Err(e),
            Some(Ok(false)) => Err(Error::Config),
            Some(Ok(true)) => Ok(()),
        },
{
    match reply {
        None => Err(Error::ChannelClosed),
        Some(Err(e)) => Err(e),
        Some(Ok(false)) => Err(Error::Config),
        Some(Ok(true)) => Ok(()),
    }
}

} // verus!
