use steamos_manager::context::{
    socket_path, InhibitStep, RootCommand, RootContext, RootState, UserCommand, UserContext,
    UserState,
};
use steamos_manager::daemon::DaemonCommand;
use steamos_manager::error::Error;
use steamos_manager::manager::{
    create_device_interfaces, create_platform_interfaces, enter_download_mode,
    set_performance_profile, tdp_limit, tdp_limit_max, tdp_limit_min, InterfaceChange,
    PlatformChecks, MANAGER_PATH,
};
use steamos_manager::hardware::{
    DeviceConfig, PerformanceProfileConfig, RangeConfig, TdpLimitConfig,
};
use steamos_manager::power::TdpLimitingMethod;
use steamos_manager::session::{
    clean_temporary_sessions, current_login_mode, is_valid_desktop_session,
    is_valid_desktop_session_name, set_default_session, set_temporary_session, unit_is_active,
    valid_desktop_sessions, DesktopSession, LoginMode, Removal, SessionManagerState, UnitProbe,
};
use steamos_manager::session_management::{
    default_desktop_session_store, default_session_store, ensure_session_exists,
    find_type_in_dir, read_default_desktop_session_type, read_default_session_type,
    read_type_from_config, restart_session, session_file_name, session_to_switch_to_store,
    set_session_to_switch_to, write_default_desktop_session_type, write_default_session_type,
    ConfigLookup, DEFAULT_DESKTOP_SESSION, DEFAULT_SESSION,
};

fn names(items: &[&str]) -> Vec<String> {
    items.iter().map(|s| String::from(*s)).collect()
}

#[test]
fn test_valid_desktop_sessions() {
    let found = names(&[
        "plasma.desktop",
        "gamescope.desktop",
        "plasmax11.desktop",
        ".fake.desktop",
        "fake",
    ]);
    assert_eq!(valid_desktop_sessions(&found), names(&["plasma.desktop", "plasmax11.desktop"]));
    assert_eq!(valid_desktop_sessions(&names(&[])), names(&[]));
}

/// Whether a file of the name lies among the Wayland sessions and among the
/// X sessions of these tests.
fn lies(session: &str) -> (Result<bool, Error>, Result<bool, Error>) {
    let wayland = ["plasma.desktop", "gamescope.desktop"];
    let x = ["plasmax11.desktop", ".fake.desktop", "fake"];
    (Ok(wayland.contains(&session)), Ok(x.contains(&session)))
}

fn session_exists(session: &str) -> Result<bool, Error> {
    let (wayland, x) = lies(session);
    is_valid_desktop_session(session, wayland, x)
}

#[test]
fn test_is_valid_desktop_session() {
    assert!(session_exists("plasma.desktop").unwrap());
    assert!(session_exists("plasmax11.desktop").unwrap());
    assert!(!session_exists("gamescope.desktop").unwrap());
    assert!(!session_exists("doesnotexist.desktop").unwrap());
    assert!(!session_exists(".fake.desktop").unwrap());
    assert!(!session_exists("fake").unwrap());
}

#[test]
fn test_get_state() {
    let state = SessionManagerState {
        default_login_mode: LoginMode::Desktop,
        desktop_session: Some(DesktopSession::from(String::from("plasmax11.desktop"))),
    };
    assert_eq!(state.default_desktop_session(), "plasmax11.desktop");
    assert_eq!(state.default_login_mode(), LoginMode::Desktop);
}

#[test]
fn test_write_state() {
    let mut state = SessionManagerState::default();
    assert_eq!(state.default_desktop_session(), DesktopSession::default().0);
    assert_eq!(state.default_login_mode(), LoginMode::Game);
    assert!(state.desktop_session.is_none());

    state.set_default_login_mode(LoginMode::Desktop);
    assert_eq!(state.default_login_mode(), LoginMode::Desktop);
    assert_eq!(state.default_desktop_session(), DesktopSession::default().0);
    assert!(state.desktop_session.is_none());

    state.set_default_desktop_session("city17.desktop", session_exists("city17.desktop")).unwrap_err();
    assert_eq!(state.default_desktop_session(), DesktopSession::default().0);
    assert!(state.desktop_session.is_none());

    assert_eq!(state.set_default_desktop_session("city17.desktop", Ok(true)), Ok(true));
    assert_eq!(state.default_desktop_session(), "city17.desktop");
    assert_eq!(state.desktop_session.as_ref().map(|s| s.0.as_str()), Some("city17.desktop"));
}

#[test]
fn desktop_sessions_exist_where_a_file_lies() {
    assert_eq!(is_valid_desktop_session("plasma.desktop", Ok(true), Ok(false)), Ok(true));
    assert_eq!(is_valid_desktop_session("plasma.desktop", Ok(false), Ok(true)), Ok(true));
    assert_eq!(is_valid_desktop_session("plasma.desktop", Ok(false), Ok(false)), Ok(false));
    assert_eq!(is_valid_desktop_session("gamescope.desktop", Ok(true), Ok(true)), Ok(false));
    assert_eq!(is_valid_desktop_session("gamescope.desktop", Err(Error::Io), Ok(true)), Ok(false));
    assert_eq!(is_valid_desktop_session("plasma.desktop", Err(Error::Io), Ok(true)), Err(Error::Io));
    assert_eq!(is_valid_desktop_session("plasma.desktop", Ok(true), Err(Error::Io)), Ok(true));
    assert_eq!(is_valid_desktop_session("plasma.desktop", Ok(false), Err(Error::Io)), Err(Error::Io));
}

#[test]
fn desktop_session_names() {
    assert!(is_valid_desktop_session_name("a.desktop"));
    assert!(is_valid_desktop_session_name(".desktop") == false);
    assert!(!is_valid_desktop_session_name("desktop"));
    assert!(!is_valid_desktop_session_name("x.desktop.bak"));
    assert!(!is_valid_desktop_session_name("my-gamescope-session.desktop"));
    assert!(is_valid_desktop_session_name("Gamescope.desktop"));
    assert!(!is_valid_desktop_session_name(""));
}

#[test]
fn test_default_desktop_session() {
    let mut state = SessionManagerState::default();
    assert_eq!(state.default_login_mode(), LoginMode::Game);
    assert_eq!(state.default_desktop_session(), "plasmax11.desktop");
    assert_eq!(state.session_for_mode(LoginMode::Game), "gamescope-wayland.desktop");
    assert_eq!(state.session_for_mode(LoginMode::Desktop), "plasmax11.desktop");

    assert_eq!(state.set_default_desktop_session("plasma.desktop", Ok(false)), Err(Error::NotFound));
    assert_eq!(state.set_default_desktop_session("plasma.desktop", Err(Error::Io)), Err(Error::Io));
    assert_eq!(state.default_desktop_session(), "plasmax11.desktop");
    assert_eq!(state.set_default_desktop_session("plasma.desktop", Ok(true)), Ok(false));
    assert_eq!(state.default_desktop_session(), "plasma.desktop");
    assert_eq!(state.session_for_mode(LoginMode::Desktop), "plasma.desktop");
    assert_eq!(state.session_for_mode(LoginMode::Game), "gamescope-wayland.desktop");

    assert_eq!(state.set_default_login_mode(LoginMode::Desktop), "plasma.desktop");
    assert_eq!(state.default_login_mode(), LoginMode::Desktop);
    assert_eq!(state.set_default_desktop_session("kde.desktop", Ok(true)), Ok(true));
    assert_eq!(state.set_default_login_mode(LoginMode::Game), "gamescope-wayland.desktop");
    assert_eq!(state.default_desktop_session(), "kde.desktop");
    assert_eq!(DesktopSession::default().0, "plasmax11.desktop");
    assert_eq!(DesktopSession::from(String::from("x.desktop")).0, "x.desktop");
}

#[test]
fn test_login_mode() {
    assert_eq!(current_login_mode(true), LoginMode::Game);
    assert_eq!(current_login_mode(false), LoginMode::Desktop);
    assert_eq!(unit_is_active(UnitProbe::Active(true)), Ok(true));
    assert_eq!(unit_is_active(UnitProbe::Active(false)), Ok(false));
    assert_eq!(unit_is_active(UnitProbe::UnknownObject), Ok(false));
    assert_eq!(unit_is_active(UnitProbe::Failed), Err(Error::Io));
    assert_eq!(LoginMode::from_str("game"), Ok(LoginMode::Game));
    assert_eq!(LoginMode::from_str("desktop"), Ok(LoginMode::Desktop));
    assert!(LoginMode::from_str("Game").is_err());
    assert_eq!(LoginMode::Desktop.to_string(), "desktop");
    assert_eq!(LoginMode::default(), LoginMode::Game);
}

#[test]
fn test_temporary_session() {
    assert_eq!(
        set_temporary_session("plasma.desktop").unwrap(),
        b"[Autologin]\nSession=plasma.desktop\n"
    );
    assert_eq!(set_default_session("").unwrap(), b"[Autologin]\nSession=\n");
    assert_eq!(set_temporary_session("a\nUser=root"), Err(Error::InvalidData));
    assert_eq!(set_default_session("\n"), Err(Error::InvalidData));
    assert_eq!(clean_temporary_sessions(Removal::Removed), Ok(()));
    assert_eq!(clean_temporary_sessions(Removal::NotFound), Ok(()));
    assert_eq!(clean_temporary_sessions(Removal::Failed), Err(Error::Io));
}

#[test]
fn session_types_are_looked_up() {
    let wayland = names(&["plasma.desktop", "gamescope-wayland.desktop"]);
    let x = names(&["plasmax11.desktop", "plasma"]);
    assert_eq!(session_file_name("plasma"), b"plasma.desktop");
    assert_eq!(session_file_name("plasma.desktop"), b"plasma.desktop");
    assert_eq!(session_file_name("plasma.desktop.desktop"), b"plasma.desktop");
    assert_eq!(session_file_name(""), b".desktop");
    assert_eq!(find_type_in_dir(&wayland, "plasma").unwrap(), b"plasma.desktop");
    assert_eq!(find_type_in_dir(&wayland, "plasma.desktop").unwrap(), b"plasma.desktop");
    assert_eq!(find_type_in_dir(&wayland, "plasmax11"), Err(Error::NotFound));
    assert_eq!(find_type_in_dir(&x, "../plasma"), Err(Error::NotFound));
    assert_eq!(ensure_session_exists(Some(&wayland), Some(&x), "plasmax11").unwrap(), b"plasmax11.desktop");
    assert_eq!(ensure_session_exists(None, Some(&x), "plasmax11").unwrap(), b"plasmax11.desktop");
    assert_eq!(ensure_session_exists(Some(&wayland), None, "plasmax11"), Err(Error::NotFound));
    assert_eq!(ensure_session_exists(None, None, "plasma"), Err(Error::NotFound));
    assert_eq!(ensure_session_exists(Some(&wayland), Some(&x), "xfce"), Err(Error::NotFound));

    assert_eq!(read_type_from_config(ConfigLookup::Unreadable, DEFAULT_SESSION), "gamescope-wayland");
    assert_eq!(read_type_from_config(ConfigLookup::NoSection, DEFAULT_DESKTOP_SESSION), "plasmax11");
    assert_eq!(read_type_from_config(ConfigLookup::NoKey, "d"), "d");
    assert_eq!(read_type_from_config(ConfigLookup::Value(String::from("plasma")), "d"), "plasma");
    assert_eq!(restart_session(), ["plasma-workspace.target", "gamescope-session.service"]);
}

#[test]
fn root_context_runs_the_inhibitor() {
    let mut context = RootContext::new();
    assert!(context.state().services.ds_inhibit.enabled);
    assert_eq!(context.reload_ds_inhibit(), InhibitStep::Start);
    // Until the start is reported the service counts as not running.
    assert_eq!(context.handle_command(RootCommand::GetDsInhibit).reply, Some(false));
    context.ds_inhibit_started();
    assert_eq!(context.reload_ds_inhibit(), InhibitStep::Nothing);
    assert_eq!(context.handle_command(RootCommand::GetDsInhibit).reply, Some(true));

    let step = context.handle_command(RootCommand::SetDsInhibit(false));
    assert_eq!(step.inhibit, InhibitStep::Cancel);
    assert!(step.write_state);
    assert_eq!(step.reply, None);
    assert!(!context.state().services.ds_inhibit.enabled);
    assert_eq!(context.handle_command(RootCommand::GetDsInhibit).reply, Some(false));
    assert_eq!(context.handle_command(RootCommand::SetDsInhibit(false)).inhibit, InhibitStep::Nothing);
    assert_eq!(context.handle_command(RootCommand::SetDsInhibit(true)).inhibit, InhibitStep::Start);

    let mut stored = RootState::default();
    stored.services.ds_inhibit.enabled = false;
    let mut context = RootContext::new();
    context.start(stored);
    assert_eq!(context.reload_ds_inhibit(), InhibitStep::Nothing);
}

#[test]
fn user_context_keeps_the_session_state() {
    let mut context = UserContext::new();
    assert_eq!(context.state.session_manager.default_login_mode, LoginMode::Game);
    assert!(!context.handle_command(UserCommand::GetSessionManagerState));
    let mut state = SessionManagerState::default();
    state.default_login_mode = LoginMode::Desktop;
    assert!(context.handle_command(UserCommand::SetSessionManagerState(state)));
    assert_eq!(context.state.session_manager.default_login_mode, LoginMode::Desktop);
    context.start(UserState { session_manager: SessionManagerState::default() });
    assert_eq!(context.state.session_manager.default_login_mode, LoginMode::Game);
    assert!(matches!(UserContext::write_state_command::<UserCommand>(), DaemonCommand::WriteState));
}

#[test]
fn socket_path_is_read_from_the_address() {
    assert_eq!(
        socket_path("unix:path=/var/run/steamos-manager/bus,guid=0123\n").unwrap(),
        b"/var/run/steamos-manager/bus"
    );
    assert_eq!(socket_path("unix:guid=0123,path=/a=b,path=/c").unwrap(), b"/a=b");
    assert_eq!(socket_path("unix:abstract=/x,nopath,path=").unwrap(), b"");
    assert_eq!(socket_path("unix:abstract=/x"), None);
    assert_eq!(socket_path("path=/x"), None);
    assert_eq!(socket_path("unix:"), None);
    assert_eq!(socket_path(""), None);
    assert_eq!(socket_path("unix:Path=/x"), None);
    assert_eq!(socket_path("tcp:host=a:path=/x,path=/y").unwrap(), b"/y");
    assert_eq!(socket_path(" unix:path=/x").unwrap(), b"/x");
    assert_eq!(socket_path("unix:path=/x \n").unwrap(), b"/x");
}

#[test]
fn interfaces_follow_the_configuration() {
    let none = PlatformChecks {
        factory_reset: None,
        fan_control: None,
        storage: None,
        update_bios: None,
        update_dock: None,
    };
    let offered = create_platform_interfaces(&none);
    assert!(!offered.factory_reset && !offered.fan_control && !offered.storage);
    assert!(!offered.update_bios && !offered.update_dock);
    let some = PlatformChecks {
        factory_reset: Some(Ok(true)),
        fan_control: Some(Ok(false)),
        storage: Some(Err(Error::Io)),
        update_bios: Some(Ok(true)),
        update_dock: None,
    };
    let offered = create_platform_interfaces(&some);
    assert!(offered.factory_reset && offered.update_bios);
    assert!(!offered.fan_control && !offered.storage && !offered.update_dock);

    let mut config = DeviceConfig::default();
    let offered = create_device_interfaces(None, true, Ok(true), 3);
    assert!(!offered.low_power_mode && !offered.tdp_limit && !offered.performance_profile);
    let offered = create_device_interfaces(Some(&config), true, Ok(true), 3);
    assert!(!offered.low_power_mode && offered.tdp_limit && !offered.performance_profile);
    config.tdp_limit = Some(TdpLimitConfig {
        method: TdpLimitingMethod::AmdgpuHwmon,
        range: Some(RangeConfig { min: 3, max: 15 }),
        download_mode_limit: Some(6),
        firmware_attribute: None,
    });
    config.performance_profile = Some(PerformanceProfileConfig {
        suggested_default: String::from("balanced"),
        platform_profile_name: String::from("p"),
    });
    let offered = create_device_interfaces(Some(&config), true, Ok(false), 3);
    assert!(offered.low_power_mode && !offered.tdp_limit && offered.performance_profile);
    let offered = create_device_interfaces(Some(&config), false, Ok(true), 0);
    assert!(!offered.low_power_mode && !offered.tdp_limit && !offered.performance_profile);
    let offered = create_device_interfaces(Some(&config), true, Err(Error::Io), 1);
    assert!(offered.low_power_mode && !offered.tdp_limit && offered.performance_profile);
    config.tdp_limit.as_mut().unwrap().download_mode_limit = Some(0);
    assert!(!create_device_interfaces(Some(&config), true, Ok(true), 1).low_power_mode);

    assert_eq!(set_performance_profile(true), InterfaceChange::Add);
    assert_eq!(set_performance_profile(false), InterfaceChange::Remove);
    assert_eq!(MANAGER_PATH, "/com/steampowered/SteamOSManager1");
}

#[test]
fn bus_answers() {
    assert_eq!(tdp_limit(Some(Ok(15))), 15);
    assert_eq!(tdp_limit(Some(Err(Error::Io))), 0);
    assert_eq!(tdp_limit(None), 0);
    assert_eq!(tdp_limit_min(Some(Ok((3, 15)))), 3);
    assert_eq!(tdp_limit_max(Some(Ok((3, 15)))), 15);
    assert_eq!(tdp_limit_min(Some(Err(Error::Config))), 0);
    assert_eq!(tdp_limit_max(None), 0);
    assert_eq!(enter_download_mode(Some(Ok(true))), Ok(()));
    assert_eq!(enter_download_mode(Some(Ok(false))), Err(Error::Config));
    assert_eq!(enter_download_mode(Some(Err(Error::Io))), Err(Error::Io));
    assert_eq!(enter_download_mode(None), Err(Error::ChannelClosed));
}

#[test]
fn session_types_are_kept_in_their_stores() {
    let wayland = names(&["plasma.desktop", "gamescope-wayland.desktop"]);
    let store = default_desktop_session_store();
    assert_eq!(store.file, "/etc/sddm.conf.d/yy-steamos-session.conf");
    assert_eq!(store.section, "X-SteamOS");
    assert_eq!(store.key, "DefaultDesktopSession");
    let written = write_default_desktop_session_type(Some(&wayland), None, "plasma.desktop").unwrap();
    assert_eq!(written.store, store);
    assert_eq!(written.session_name, "plasma.desktop");
    let written = write_default_session_type(Some(&wayland), None, "gamescope-wayland").unwrap();
    assert_eq!(written.store, default_session_store());
    assert_eq!(written.store.section, "Autologin");
    assert_eq!(written.store.key, "Session");
    assert_eq!(written.session_name, "gamescope-wayland");
    let written = set_session_to_switch_to(None, Some(&wayland), "plasma").unwrap();
    assert_eq!(written.store, session_to_switch_to_store());
    assert_eq!(written.store.file, "/etc/sddm.conf.d/zz-steamos-autologin.conf");
    assert_eq!(written.session_name, "plasma");
    assert!(matches!(set_session_to_switch_to(Some(&wayland), None, "xfce"), Err(Error::NotFound)));
    assert!(matches!(write_default_session_type(None, None, "plasma"), Err(Error::NotFound)));
    assert_eq!(read_default_desktop_session_type(ConfigLookup::NoKey), "plasmax11");
    assert_eq!(read_default_session_type(ConfigLookup::Unreadable), "gamescope-wayland");
    assert_eq!(read_default_session_type(ConfigLookup::Value(String::from("plasma"))), "plasma");
}
