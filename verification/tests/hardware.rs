use steamos_manager::error::Error;
use steamos_manager::hardware::{
    steam_deck_variant, unknown_device, DeviceConfig, DeviceMatch, DmiMatch, FactoryResetKind,
    FanControl, FanControlAction, FanControlQuery, FanControlState, RangeConfig, SteamDeckVariant,
};
use steamos_manager::platform::{ScriptConfig, ServiceConfig};

fn device(vendor: &str, board: Option<&str>, product: Option<&str>, name: &str, variant: &str) -> DeviceMatch {
    DeviceMatch {
        dmi: Some(DmiMatch {
            sys_vendor: String::from(vendor),
            board_name: board.map(String::from),
            product_name: product.map(String::from),
        }),
        device: String::from(name),
        variant: String::from(variant),
    }
}

fn config() -> DeviceConfig {
    let mut config = DeviceConfig::default();
    config.device = vec![
        DeviceMatch { dmi: None, device: String::from("nothing"), variant: String::from("none") },
        device("ASUSTeK COMPUTER INC.", Some("RC71L"), None, "rog_ally", "RC71L"),
        device("ASUSTeK COMPUTER INC.", Some("RC72LA"), None, "rog_ally_x", "RC72LA"),
        device("LENOVO", None, Some("83E1"), "legion_go", "83E1"),
        device("LENOVO", None, Some("83L3"), "legion_go_s", "83L3"),
        device("LENOVO", None, Some("83N6"), "legion_go_s", "83N6"),
        device("LENOVO", None, Some("83Q2"), "legion_go_s", "83Q2"),
        device("LENOVO", None, Some("83Q3"), "legion_go_s", "83Q3"),
        device("LENOVO", None, Some("83N0"), "legion_go_2", "83N0"),
        device("LENOVO", None, Some("83N1"), "legion_go_2", "83N1"),
        device("ZOTAC", Some("G0A1W"), None, "zotac_gaming_zone", "G0A1W"),
        device("ZOTAC", Some("G1A1W"), None, "zotac_gaming_zone", "G1A1W"),
        device("Valve", Some("Jupiter"), None, "steam_deck", "Jupiter"),
        device("Valve", Some("Galileo"), Some("Jupiter"), "steam_deck", "Galileo"),
    ];
    config
}

fn variant(config: &DeviceConfig, vendor: &str, board: &str, product: &str) -> (String, String) {
    config.device_variant(vendor, board, product)
}

#[test]
fn board_lookup_invalid() {
    let config = config();
    assert_eq!(steam_deck_variant("ASUSTeK COMPUTER INC.\n", "INVALID\n"), SteamDeckVariant::Unknown);
    assert_eq!(
        variant(&config, "ASUSTeK COMPUTER INC.\n", "INVALID\n", "INVALID\n"),
        (String::from("unknown"), String::from("unknown"))
    );
    assert!(config.device_match("ASUSTeK COMPUTER INC.\n", "INVALID\n", "INVALID\n").is_none());
    assert_eq!(unknown_device(), (String::from("unknown"), String::from("unknown")));
}

#[test]
fn board_lookup_rog_ally() {
    let config = config();
    assert_eq!(steam_deck_variant("ASUSTeK COMPUTER INC.\n", "RC71L\n"), SteamDeckVariant::Unknown);
    assert_eq!(
        variant(&config, "ASUSTeK COMPUTER INC.\n", "RC71L\n", "INVALID\n"),
        (String::from("rog_ally"), String::from("RC71L"))
    );
}

#[test]
fn board_lookup_rog_ally_x() {
    let config = config();
    assert_eq!(
        variant(&config, "ASUSTeK COMPUTER INC.\n", "RC72LA\n", "INVALID\n"),
        (String::from("rog_ally_x"), String::from("RC72LA"))
    );
}

#[test]
fn board_lookup_legion_go() {
    let config = config();
    assert_eq!(steam_deck_variant("LENOVO\n", "INVALID\n"), SteamDeckVariant::Unknown);
    assert_eq!(
        variant(&config, "LENOVO\n", "INVALID\n", "83E1\n"),
        (String::from("legion_go"), String::from("83E1"))
    );
}

#[test]
fn board_lookup_steam_deck_jupiter() {
    let config = config();
    assert_eq!(steam_deck_variant("Valve\n", "Jupiter\n"), SteamDeckVariant::Jupiter);
    assert_eq!(
        variant(&config, "Valve\n", "Jupiter\n", "Jupiter\n"),
        (String::from("steam_deck"), String::from("Jupiter"))
    );
}

#[test]
fn board_lookup_steam_deck_galileo() {
    let config = config();
    assert_eq!(steam_deck_variant("Valve\n", "Galileo\n"), SteamDeckVariant::Galileo);
    assert_eq!(
        variant(&config, "Valve\n", "Galileo\n", "Galileo\n"),
        (String::from("steam_deck"), String::from("Galileo"))
    );
}

#[test]
fn board_lookup_legion_go_s_83l3() {
    let config = config();
    assert_eq!(steam_deck_variant("LENOVO\n", "INVALID\n"), SteamDeckVariant::Unknown);
    assert_eq!(
        variant(&config, "LENOVO\n", "INVALID\n", "83L3\n"),
        (String::from("legion_go_s"), String::from("83L3"))
    );
}

#[test]
fn board_lookup_legion_go_s_83n6() {
    let config = config();
    assert_eq!(steam_deck_variant("LENOVO\n", "INVALID\n"), SteamDeckVariant::Unknown);
    assert_eq!(
        variant(&config, "LENOVO\n", "INVALID\n", "83N6\n"),
        (String::from("legion_go_s"), String::from("83N6"))
    );
}

#[test]
fn board_lookup_legion_go_s_83q2() {
    let config = config();
    assert_eq!(steam_deck_variant("LENOVO\n", "INVALID\n"), SteamDeckVariant::Unknown);
    assert_eq!(
        variant(&config, "LENOVO\n", "INVALID\n", "83Q2\n"),
        (String::from("legion_go_s"), String::from("83Q2"))
    );
}

#[test]
fn board_lookup_legion_go_s_83q3() {
    let config = config();
    assert_eq!(steam_deck_variant("LENOVO\n", "INVALID\n"), SteamDeckVariant::Unknown);
    assert_eq!(
        variant(&config, "LENOVO\n", "INVALID\n", "83Q3\n"),
        (String::from("legion_go_s"), String::from("83Q3"))
    );
}

#[test]
fn board_lookup_legion_go_2_83n0() {
    let config = config();
    assert_eq!(steam_deck_variant("LENOVO\n", "INVALID\n"), SteamDeckVariant::Unknown);
    assert_eq!(
        variant(&config, "LENOVO\n", "INVALID\n", "83N0\n"),
        (String::from("legion_go_2"), String::from("83N0"))
    );
}

#[test]
fn board_lookup_legion_go_2_83n1() {
    let config = config();
    assert_eq!(steam_deck_variant("LENOVO\n", "INVALID\n"), SteamDeckVariant::Unknown);
    assert_eq!(
        variant(&config, "LENOVO\n", "INVALID\n", "83N1\n"),
        (String::from("legion_go_2"), String::from("83N1"))
    );
}

#[test]
fn board_lookup_zotac_gaming_zone_g0a1w() {
    let config = config();
    assert_eq!(steam_deck_variant("ZOTAC\n", "G0A1W\n"), SteamDeckVariant::Unknown);
    assert_eq!(
        variant(&config, "ZOTAC\n", "G0A1W\n", "INVALID\n"),
        (String::from("zotac_gaming_zone"), String::from("G0A1W"))
    );
}

#[test]
fn board_lookup_zotac_gaming_zone_g1a1w() {
    let config = config();
    assert_eq!(steam_deck_variant("ZOTAC\n", "G1A1W\n"), SteamDeckVariant::Unknown);
    assert_eq!(
        variant(&config, "ZOTAC\n", "G1A1W\n", "INVALID\n"),
        (String::from("zotac_gaming_zone"), String::from("G1A1W"))
    );
}

#[test]
fn board_lookup_invalid_valve() {
    let config = config();
    assert_eq!(steam_deck_variant("Valve\n", "Neptune\n"), SteamDeckVariant::Unknown);
    assert_eq!(
        variant(&config, "Valve\n", "Neptune\n", "Neptune\n"),
        (String::from("unknown"), String::from("unknown"))
    );
}

#[test]
fn device_match_details() {
    let config = config();
    // The first entry that matches counts, by board or by product.
    let found = config.device_match("Valve", "Saturn", "Jupiter").unwrap();
    assert_eq!(found.variant, "Galileo");
    // The vendor has to match whole; white space counts only at the end.
    assert!(config.device_match("Valve Inc", "Jupiter", "").is_none());
    assert!(config.device_match(" Valve", "Jupiter", "").is_none());
    assert!(config.device_match("Valve \t\n", "Jupiter\r\n", "").is_some());
    assert!(config.device_match("valve", "Jupiter", "").is_none());
    assert!(DeviceConfig::default().device_match("Valve", "Jupiter", "Jupiter").is_none());
    assert_eq!(steam_deck_variant("Valve", "jupiter"), SteamDeckVariant::Jupiter);
    assert_eq!(steam_deck_variant("Valve", "GALILEO\n"), SteamDeckVariant::Galileo);
    assert_eq!(steam_deck_variant("Valve", "unknown"), SteamDeckVariant::Unknown);
    assert_eq!(steam_deck_variant("Valve", "Neptune"), SteamDeckVariant::Unknown);
    assert_eq!(steam_deck_variant("valve", "Jupiter"), SteamDeckVariant::Unknown);
    assert_eq!(SteamDeckVariant::default(), SteamDeckVariant::Unknown);
    assert_eq!(SteamDeckVariant::Galileo.to_string(), "galileo");
}

#[test]
fn range_config_holds_its_bounds() {
    let range = RangeConfig::new(3u32, 15u32);
    assert_eq!(range.min, 3);
    assert_eq!(range.max, 15);
    let copy = range;
    assert_eq!(copy.min, range.min);
    let words = RangeConfig::new(String::from("a"), String::from("b"));
    assert_eq!(words.clone().max, "b");
}

#[test]
fn factory_reset_kind_roundtrip() {
    assert_eq!(FactoryResetKind::User.as_u32(), 1);
    assert_eq!(FactoryResetKind::OS.as_u32(), 2);
    assert_eq!(FactoryResetKind::All.as_u32(), 3);
    assert_eq!(FactoryResetKind::try_from(1).unwrap(), FactoryResetKind::User);
    assert_eq!(FactoryResetKind::try_from(2).unwrap(), FactoryResetKind::OS);
    assert_eq!(FactoryResetKind::try_from(3).unwrap(), FactoryResetKind::All);
    assert!(FactoryResetKind::try_from(0).is_err());
    assert!(FactoryResetKind::try_from(4).is_err());
    assert_eq!(FactoryResetKind::from_str("user").unwrap(), FactoryResetKind::User);
    assert_eq!(FactoryResetKind::from_str("os").unwrap(), FactoryResetKind::OS);
    assert_eq!(FactoryResetKind::from_str("ALL").unwrap(), FactoryResetKind::All);
    assert_eq!(FactoryResetKind::OS.to_string(), "OS");
    assert!(FactoryResetKind::from_str("everything").is_err());
}

#[test]
fn test_fan_control() {
    let unit = ServiceConfig::Systemd(String::from("jupiter-fan-control.service"));
    let fan_control = FanControl::new();
    match fan_control.state_query(Some(&unit)).unwrap() {
        FanControlQuery::UnitActive(name) => assert_eq!(name, "jupiter-fan-control.service"),
        other => panic!("unexpected query {other:?}"),
    }
    let unknown = Err(Error::NotFound);
    assert_eq!(fan_control.get_state(Some(&unit), Ok(false), unknown).unwrap(), FanControlState::Bios);
    match fan_control.set_state(Some(&unit), FanControlState::Os).unwrap() {
        FanControlAction::StartUnit(name) => assert_eq!(name, "jupiter-fan-control.service"),
        other => panic!("unexpected action {other:?}"),
    }
    assert_eq!(fan_control.get_state(Some(&unit), Ok(true), unknown).unwrap(), FanControlState::Os);
    match fan_control.set_state(Some(&unit), FanControlState::Bios).unwrap() {
        FanControlAction::StopUnit(name) => assert_eq!(name, "jupiter-fan-control.service"),
        other => panic!("unexpected action {other:?}"),
    }
}

#[test]
fn fan_control_by_scripts() {
    let script = |name: &str| ScriptConfig { script: String::from(name), script_args: vec![] };
    let scripts = ServiceConfig::Script {
        start: script("start"),
        stop: script("stop"),
        status: script("status"),
    };
    let fan_control = FanControl::new();
    match fan_control.state_query(Some(&scripts)).unwrap() {
        FanControlQuery::ScriptExitCode(s) => assert_eq!(s.script, "status"),
        other => panic!("unexpected query {other:?}"),
    }
    match fan_control.set_state(Some(&scripts), FanControlState::Os).unwrap() {
        FanControlAction::RunScript(s) => assert_eq!(s.script, "start"),
        other => panic!("unexpected action {other:?}"),
    }
    match fan_control.set_state(Some(&scripts), FanControlState::Bios).unwrap() {
        FanControlAction::RunScript(s) => assert_eq!(s.script, "stop"),
        other => panic!("unexpected action {other:?}"),
    }
    assert_eq!(fan_control.get_state(Some(&scripts), Err(Error::Io), Ok(1)), Ok(FanControlState::Os));
    assert_eq!(fan_control.get_state(Some(&scripts), Ok(true), Ok(0)), Ok(FanControlState::Bios));
    assert_eq!(fan_control.get_state(Some(&scripts), Ok(true), Err(Error::Io)), Err(Error::Io));
    assert_eq!(fan_control.get_state(None, Ok(true), Ok(0)), Err(Error::Config));
    assert_eq!(fan_control.state_of_unit(false), FanControlState::Bios);
    assert_eq!(fan_control.state_of_exit_code(0), Ok(FanControlState::Bios));
    assert_eq!(fan_control.state_of_exit_code(1), Ok(FanControlState::Os));
    assert_eq!(fan_control.state_of_exit_code(2), Err(Error::InvalidData));
    assert_eq!(fan_control.state_of_exit_code(-1), Err(Error::Io));
    assert!(matches!(fan_control.state_query(None), Err(Error::Config)));
    assert!(matches!(fan_control.set_state(None, FanControlState::Os), Err(Error::Config)));
}
