use steamos_manager::audio::{AudioManager, MONO_KEY};
use steamos_manager::error::Error;
use steamos_manager::json::Json;
use steamos_manager::screenreader::{
    OrcaManager, ENABLE_SETTING, PITCH_SETTING, RATE_SETTING, VOLUME_SETTING,
};

fn text(s: &str) -> Json {
    Json::String(String::from(s))
}

fn number(s: &str) -> Json {
    Json::Number(String::from(s))
}

fn object(members: Vec<(&str, Json)>) -> Json {
    Json::Object(members.into_iter().map(|(name, value)| (String::from(name), value)).collect())
}

/// Writes a document out, so that two documents can be held against each other.
fn show(json: &Json) -> String {
    match json {
        Json::Null => String::from("null"),
        Json::Bool(b) => format!("{b}"),
        Json::Number(n) => n.clone(),
        Json::String(s) => format!("{s:?}"),
        Json::Array(items) => {
            let shown: Vec<String> = items.iter().map(show).collect();
            format!("[{}]", shown.join(","))
        }
        Json::Object(members) => {
            let shown: Vec<String> =
                members.iter().map(|(name, value)| format!("{name:?}:{}", show(value))).collect();
            format!("{{{}}}", shown.join(","))
        }
    }
}

fn dump(key: &str) -> Json {
    Json::Array(vec![
        object(vec![("id", number("0")), ("type", text("PipeWire:Interface:Core"))]),
        object(vec![
            ("id", number("37")),
            (
                "metadata",
                Json::Array(vec![
                    object(vec![("subject", number("0")), ("key", text("log.level"))]),
                    object(vec![("key", number("7"))]),
                    object(vec![("subject", number("0")), ("key", text(key))]),
                ]),
            ),
        ]),
    ])
}

#[test]
fn mono_is_offered_where_the_setting_is_known() {
    assert_eq!(AudioManager::is_supported(Ok(true), Ok(&dump(MONO_KEY))), Ok(true));
    assert_eq!(AudioManager::is_supported(Ok(true), Ok(&dump("node.features.audio.stereo"))), Ok(false));
    assert_eq!(AudioManager::is_supported(Ok(false), Ok(&dump(MONO_KEY))), Ok(false));
    assert_eq!(AudioManager::is_supported(Ok(false), Err(Error::Io)), Ok(false));
    assert_eq!(AudioManager::is_supported(Ok(true), Err(Error::Io)), Err(Error::Io));
    assert_eq!(AudioManager::is_supported(Err(Error::Io), Ok(&dump(MONO_KEY))), Err(Error::Io));
    assert_eq!(AudioManager::is_supported(Ok(true), Ok(&Json::Array(vec![]))), Ok(false));
    assert_eq!(AudioManager::is_supported(Ok(true), Ok(&object(vec![("key", text(MONO_KEY))]))), Ok(false));
    let not_an_array = Json::Array(vec![object(vec![("metadata", object(vec![("key", text(MONO_KEY))]))])]);
    assert_eq!(AudioManager::is_supported(Ok(true), Ok(&not_an_array)), Ok(false));
    let strays = Json::Array(vec![Json::Null, text(MONO_KEY), Json::Array(vec![text(MONO_KEY)])]);
    assert_eq!(AudioManager::is_supported(Ok(true), Ok(&strays)), Ok(false));
    assert_eq!(MONO_KEY, "node.features.audio.mono");
}

#[test]
fn members_are_found_by_name() {
    let document = object(vec![
        ("a", number("1")),
        ("b", object(vec![("c", text("deep")), ("c", text("shadowed"))])),
        ("a", number("2")),
    ]);
    assert_eq!(show(document.get("a").unwrap()), "1");
    assert!(document.get("c").is_none());
    assert!(document.get("").is_none());
    assert_eq!(document.get_path(&["b", "c"]).unwrap().as_str(), Some("deep"));
    assert_eq!(show(document.get_path(&[]).unwrap()), show(&document));
    assert!(document.get_path(&["b", "c", "d"]).is_none());
    assert!(document.get_path(&["a", "b"]).is_none());
    assert!(text("x").get("x").is_none());
    assert!(Json::Array(vec![text("x")]).get("0").is_none());
    assert_eq!(number("1").as_str(), None);
    assert!(text("x").as_array().is_none());
    assert_eq!(Json::Array(vec![Json::Null]).as_array().unwrap().len(), 1);
    assert_eq!(show(&Json::object()), "{}");
}

#[test]
fn members_are_set_along_a_path() {
    let document = object(vec![("a", number("1")), ("b", object(vec![("c", text("x"))]))]);
    let changed = document.set_path(&[], "a", number("2")).unwrap();
    assert_eq!(show(&changed), r#"{"a":2,"b":{"c":"x"}}"#);
    let changed = changed.set_path(&[], "z", Json::Null).unwrap();
    assert_eq!(show(&changed), r#"{"a":2,"b":{"c":"x"},"z":null}"#);
    let changed = changed.set_path(&["b"], "c", Json::Bool(true)).unwrap();
    assert_eq!(show(&changed), r#"{"a":2,"b":{"c":true},"z":null}"#);
    let changed = changed.set_path(&["b", "new", "newer"], "d", number("4")).unwrap();
    assert_eq!(show(&changed), r#"{"a":2,"b":{"c":true,"new":{"newer":{"d":4}}},"z":null}"#);
    assert!(matches!(changed.set_path(&["a"], "d", Json::Null), Err(Error::InvalidData)));
    assert!(matches!(text("x").set_path(&[], "d", Json::Null), Err(Error::InvalidData)));
    let document = object(vec![("b", object(vec![("z", Json::Null)]))]);
    assert!(matches!(document.set_path(&["b", "z"], "d", Json::Null), Err(Error::InvalidData)));
}

#[test]
fn speech_is_switched_in_the_settings() {
    let document = object(vec![("general", object(vec![("enableSpeech", Json::Bool(true)), ("x", number("1"))]))]);
    let changed = OrcaManager::set_orca_enabled(document, false).unwrap();
    assert_eq!(show(&changed), r#"{"general":{"enableSpeech":false,"x":1}}"#);
    let changed = OrcaManager::set_orca_enabled(object(vec![("profiles", Json::object())]), true).unwrap();
    assert_eq!(show(&changed), r#"{"profiles":{},"general":{"enableSpeech":true}}"#);
    let changed = OrcaManager::set_orca_enabled(Json::object(), false).unwrap();
    assert_eq!(show(&changed), r#"{"general":{"enableSpeech":false}}"#);
    assert!(matches!(OrcaManager::set_orca_enabled(Json::Array(vec![]), true), Err(Error::InvalidData)));
    let odd = object(vec![("general", number("1"))]);
    assert!(matches!(OrcaManager::set_orca_enabled(odd, true), Err(Error::InvalidData)));
    assert_eq!(ENABLE_SETTING, "enableSpeech");
}

#[test]
fn voice_settings_are_set_in_the_settings() {
    let changed = OrcaManager::set_orca_option(Json::object(), PITCH_SETTING, number("5.0")).unwrap();
    assert_eq!(show(&changed), r#"{"profiles":{"default":{"voices":{"default":{"average-pitch":5.0}}}}}"#);
    let changed = OrcaManager::set_orca_option(changed, RATE_SETTING, number("50.0")).unwrap();
    let changed = OrcaManager::set_orca_option(changed, PITCH_SETTING, number("7.5")).unwrap();
    let changed = OrcaManager::set_orca_option(changed, VOLUME_SETTING, number("10.0")).unwrap();
    assert_eq!(
        show(&changed),
        r#"{"profiles":{"default":{"voices":{"default":{"average-pitch":7.5,"rate":50.0,"gain":10.0}}}}}"#
    );
    let voice = OrcaManager::default_voice(&changed).unwrap();
    assert_eq!(show(voice.get(PITCH_SETTING).unwrap()), "7.5");
    assert_eq!(show(voice.get(RATE_SETTING).unwrap()), "50.0");
    assert_eq!(show(voice.get(VOLUME_SETTING).unwrap()), "10.0");

    assert!(matches!(
        OrcaManager::set_orca_option(Json::object(), "speed", number("1")),
        Err(Error::InvalidData)
    ));
    let odd = object(vec![("profiles", object(vec![("default", text("none"))]))]);
    assert!(OrcaManager::default_voice(&odd).is_none());
    assert!(matches!(OrcaManager::set_orca_option(odd, RATE_SETTING, number("1")), Err(Error::InvalidData)));
    assert!(OrcaManager::default_voice(&Json::object()).is_none());
    assert!(OrcaManager::is_valid_option("average-pitch"));
    assert!(OrcaManager::is_valid_option("rate"));
    assert!(OrcaManager::is_valid_option("gain"));
    assert!(!OrcaManager::is_valid_option("Rate"));
    assert!(!OrcaManager::is_valid_option("enableSpeech"));
}
