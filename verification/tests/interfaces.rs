use steamos_manager::error::Error;
use steamos_manager::hardware::{
    BatteryChargeLimitConfig, DeviceConfig, DeviceMatch, DmiMatch, PerformanceProfileConfig,
    RangeConfig, TdpLimitConfig,
};
use steamos_manager::manager::{
    create_device_interfaces, create_platform_interfaces, DeviceInterfaces, PlatformChecks,
    PlatformInterfaces,
};
use steamos_manager::platform::{
    Access, PlatformConfig, Probe, ResetConfig, ScriptConfig, ServiceConfig, StorageConfig,
};
use steamos_manager::power::TdpLimitingMethod;

fn all_platform_config() -> Option<PlatformConfig> {
    Some(PlatformConfig {
        factory_reset: Some(ResetConfig::default()),
        update_bios: Some(ScriptConfig::default()),
        update_dock: Some(ScriptConfig::default()),
        storage: Some(StorageConfig::default()),
        fan_control: Some(ServiceConfig::Systemd(String::from("jupiter-fan-control.service"))),
    })
}

fn all_device_config() -> Option<DeviceConfig> {
    Some(DeviceConfig {
        device: vec![DeviceMatch {
            dmi: Some(DmiMatch {
                sys_vendor: String::from("Valve"),
                board_name: Some(String::from("Galileo")),
                product_name: None,
            }),
            device: String::from("steam_deck"),
            variant: String::from("Galileo"),
        }],
        tdp_limit: Some(TdpLimitConfig {
            method: TdpLimitingMethod::AmdgpuHwmon,
            range: Some(RangeConfig::new(3, 15)),
            download_mode_limit: Some(6),
            firmware_attribute: None,
        }),
        gpu_clocks: Some(RangeConfig::new(200, 1600)),
        battery_charge_limit: Some(BatteryChargeLimitConfig {
            suggested_minimum_limit: Some(10),
            hwmon_name: String::from("steamdeck_hwmon"),
            attribute: String::from("max_battery_charge_level"),
        }),
        performance_profile: Some(PerformanceProfileConfig {
            platform_profile_name: String::from("power-driver"),
            suggested_default: String::from("balanced"),
        }),
    })
}

/// The file system of these tests: there is one script, `exe`, and the
/// caller may run it.
fn script_valid(script: &ScriptConfig) -> Result<bool, Error> {
    if script.script == "exe" {
        script.is_valid(Probe::Found { is_file: true, mode: 0o700 }, true, Access::Allowed)
    } else {
        script.is_valid(Probe::Missing, true, Access::Denied)
    }
}

fn platform(config: Option<PlatformConfig>) -> PlatformInterfaces {
    let mut checks = PlatformChecks {
        factory_reset: None,
        fan_control: None,
        storage: None,
        update_bios: None,
        update_dock: None,
    };
    if let Some(mut config) = config {
        config.set_test_paths("exe");
        checks.factory_reset = config.factory_reset.as_ref().map(|reset| {
            reset.is_valid(script_valid(&reset.all), script_valid(&reset.os), script_valid(&reset.user))
        });
        checks.fan_control = config
            .fan_control
            .as_ref()
            .map(|service| service.is_valid(Ok(true), Ok(false), Ok(false), Ok(false)));
        checks.storage = config.storage.as_ref().map(|storage| {
            let format = ScriptConfig {
                script: storage.format_device.script.clone(),
                script_args: Vec::new(),
            };
            storage.is_valid(script_valid(&storage.trim_devices), script_valid(&format))
        });
        checks.update_bios = config.update_bios.as_ref().map(script_valid);
        checks.update_dock = config.update_dock.as_ref().map(script_valid);
    }
    create_platform_interfaces(&checks)
}

/// The interfaces of the device, where the arbiter runs exactly if the
/// limit is configured, and the platform offers three profiles.
fn device(config: Option<DeviceConfig>, tdp_active: Result<bool, Error>) -> DeviceInterfaces {
    let tdp_manager = config.as_ref().is_some_and(|config| config.tdp_limit.is_some());
    create_device_interfaces(config.as_ref(), tdp_manager, tdp_active, 3)
}

fn invalid() -> ScriptConfig {
    ScriptConfig { script: String::from("oxo"), script_args: Vec::new() }
}

#[test]
fn interface_matches_factory_reset1() {
    assert!(platform(all_platform_config()).factory_reset);
}

#[test]
fn interface_missing_factory_reset1() {
    assert!(!platform(None).factory_reset);
}

#[test]
fn interface_missing_invalid_all_factory_reset1() {
    let mut config = all_platform_config().unwrap();
    config.factory_reset.as_mut().unwrap().all = invalid();
    assert!(!platform(Some(config)).factory_reset);
}

#[test]
fn interface_missing_invalid_os_factory_reset1() {
    let mut config = all_platform_config().unwrap();
    config.factory_reset.as_mut().unwrap().os = invalid();
    assert!(!platform(Some(config)).factory_reset);
}

#[test]
fn interface_missing_invalid_user_factory_reset1() {
    let mut config = all_platform_config().unwrap();
    config.factory_reset.as_mut().unwrap().user = invalid();
    assert!(!platform(Some(config)).factory_reset);
}

#[test]
fn interface_matches_fan_control1() {
    assert!(platform(all_platform_config()).fan_control);
}

#[test]
fn interface_missing_fan_control1() {
    assert!(!platform(None).fan_control);
}

#[test]
fn interface_matches_storage1() {
    assert!(platform(all_platform_config()).storage);
}

#[test]
fn interface_missing_storage1() {
    assert!(!platform(None).storage);
}

#[test]
fn interface_missing_invalid_trim_storage1() {
    let mut config = all_platform_config().unwrap();
    config.storage.as_mut().unwrap().trim_devices = invalid();
    assert!(!platform(Some(config)).storage);
}

#[test]
fn interface_missing_invalid_format_storage1() {
    let mut config = all_platform_config().unwrap();
    config.storage.as_mut().unwrap().format_device.script = String::from("oxo");
    assert!(!platform(Some(config)).storage);
}

#[test]
fn interface_matches_update_bios1() {
    assert!(platform(all_platform_config()).update_bios);
}

#[test]
fn interface_missing_update_bios1() {
    assert!(!platform(None).update_bios);
}

#[test]
fn interface_missing_invalid_update_bios1() {
    let mut config = all_platform_config().unwrap();
    config.update_bios = Some(invalid());
    assert!(!platform(Some(config)).update_bios);
}

#[test]
fn interface_matches_update_dock1() {
    assert!(platform(all_platform_config()).update_dock);
}

#[test]
fn interface_missing_update_dock1() {
    assert!(!platform(None).update_dock);
}

#[test]
fn interface_missing_invalid_update_dock1() {
    let mut config = all_platform_config().unwrap();
    config.update_dock = Some(invalid());
    assert!(!platform(Some(config)).update_dock);
}

#[test]
fn interface_matches_tdp_limit1() {
    assert!(device(all_device_config(), Ok(true)).tdp_limit);
}

#[test]
fn interface_missing_tdp_limit1() {
    assert!(!device(None, Ok(true)).tdp_limit);
}

#[test]
fn interface_inactive_tdp_limit1() {
    assert!(!device(all_device_config(), Ok(false)).tdp_limit);
}

#[test]
fn interface_matches_low_power_mode1() {
    assert!(device(all_device_config(), Ok(true)).low_power_mode);
}

#[test]
fn interface_missing_low_power_mode1() {
    assert!(!device(None, Ok(true)).low_power_mode);
}

#[test]
fn interface_matches_performance_profile1() {
    assert!(device(all_device_config(), Ok(true)).performance_profile);
}

#[test]
fn interface_missing_performance_profile1() {
    assert!(!device(None, Ok(true)).performance_profile);
}
