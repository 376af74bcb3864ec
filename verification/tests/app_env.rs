use std::time::SystemTime;

use leafcast::app_env::{AppEnv, AppError, FileProbe, FileProbes, LogLevel, Rotation};
use leafcast::env_map::EnvMap;
use leafcast::zone::{eq_ignore_ascii_case, EnvTimeZone};

fn s(text: &str) -> String {
    text.to_owned()
}

fn map_of(pairs: &[(&str, &str)]) -> EnvMap {
    let mut map = EnvMap::new();
    for (k, v) in pairs {
        map.insert(s(k), s(v));
    }
    map
}

/// The variables of a process that sets none of the application's.
fn process_env() -> EnvMap {
    map_of(&[("HOME", "/root"), ("PATH", "/usr/bin")])
}

/// No location named by the variables was checked.
const NOTHING_CHECKED: FileProbes = FileProbes {
    images: FileProbe::Missing,
    log: FileProbe::Missing,
    ip_address: FileProbe::Missing,
};

fn full_map() -> EnvMap {
    map_of(&[
        ("LOCATION_IMAGES", "/photos"),
        ("LOCATION_LOG", "/logs"),
        ("LOCATION_IP_ADDRESS", "/ip.addr"),
        ("WS_ADDRESS", "wss://example.com"),
        ("WS_APIKEY", "key"),
        ("WS_TOKEN_ADDRESS", "https://example.com/token"),
        ("WS_PASSWORD", "password"),
    ])
}

const ALL_EXIST: FileProbes = FileProbes {
    images: FileProbe::Exists,
    log: FileProbe::Exists,
    ip_address: FileProbe::Exists,
};

#[test]
fn app_env_env_missing_env() {
    let mut map = EnvMap::new();
    map.insert(s("not_fish"), s("not_fish"));
    // ACTION
    let result = AppEnv::parse_string("fish", &map);

    // CHECK
    assert!(result.is_err());
    assert_eq!(result.unwrap_err().to_string(), "missing env: 'fish'");
}

#[test]
fn app_env_env_parse_string_valid() {
    let mut map = EnvMap::new();
    map.insert(s("LOCATION_SQLITE"), s("/alarms.db"));

    let result = AppEnv::parse_string("LOCATION_SQLITE", &map).unwrap();

    assert_eq!(result, "/alarms.db");
}

#[test]
fn app_env_env_parse_boolean_ok() {
    let mut map = EnvMap::new();
    map.insert(s("valid_true"), s("true"));
    map.insert(s("valid_false"), s("false"));
    map.insert(s("invalid_but_false"), s("as"));

    let result01 = AppEnv::parse_boolean("valid_true", &map);
    let result02 = AppEnv::parse_boolean("valid_false", &map);
    let result03 = AppEnv::parse_boolean("invalid_but_false", &map);
    let result04 = AppEnv::parse_boolean("missing", &map);

    assert!(result01);
    assert!(!result02);
    assert!(!result03);
    assert!(!result04);
}

#[test]
fn app_env_env_parse_rotation_ok() {
    let map = map_of(&[("ROTATION", "90")]);
    assert_eq!(AppEnv::parse_rotation(&map), Rotation::Ninety);

    let map = map_of(&[("ROTATION", "180")]);
    assert_eq!(AppEnv::parse_rotation(&map), Rotation::OneEighty);

    let map = map_of(&[("ROTATION", "270")]);
    assert_eq!(AppEnv::parse_rotation(&map), Rotation::TwoSeventy);

    let map = map_of(&[("ROTATION", "0")]);
    assert_eq!(AppEnv::parse_rotation(&map), Rotation::Zero);

    let map = map_of(&[("ROTATION", "181")]);
    assert_eq!(AppEnv::parse_rotation(&map), Rotation::Zero);

    let map = map_of(&[("ROTATION", "")]);
    assert_eq!(AppEnv::parse_rotation(&map), Rotation::Zero);

    let map = EnvMap::new();
    assert_eq!(AppEnv::parse_rotation(&map), Rotation::Zero);
}

#[test]
fn app_env_env_parse_timezone_ok() {
    let map = map_of(&[("TIMEZONE", "America/New_York")]);
    let result = AppEnv::parse_timezone(&map);
    assert_eq!(result.zone().iana_name(), Some("America/New_York"));

    let map = map_of(&[("TIMEZONE", "Europe/Berlin")]);
    let result = AppEnv::parse_timezone(&map);
    assert_eq!(result.zone().iana_name(), Some("Europe/Berlin"));

    let map = EnvMap::new();
    let result = AppEnv::parse_timezone(&map);
    assert_eq!(result.zone().iana_name(), Some("UTC"));
}

#[test]
fn app_env_env_parse_timezone_err() {
    let map = map_of(&[("TIMEZONE", "america/New__York")]);
    let result = AppEnv::parse_timezone(&map);
    assert_eq!(result.zone().iana_name(), Some("UTC"));

    let map = EnvMap::new();
    let result = AppEnv::parse_timezone(&map);
    assert_eq!(result.zone().iana_name(), Some("UTC"));
}

#[test]
fn env_parse_log_valid() {
    let map = map_of(&[("RANDOM_STRING", "123")]);
    assert_eq!(AppEnv::parse_log(&map), LogLevel::Info);

    let map = map_of(&[("LOG_DEBUG", "false")]);
    assert_eq!(AppEnv::parse_log(&map), LogLevel::Info);

    let map = map_of(&[("LOG_TRACE", "false")]);
    assert_eq!(AppEnv::parse_log(&map), LogLevel::Info);

    let map = map_of(&[("LOG_DEBUG", "false"), ("LOG_TRACE", "false")]);
    assert_eq!(AppEnv::parse_log(&map), LogLevel::Info);

    let map = map_of(&[("LOG_DEBUG", "true"), ("LOG_TRACE", "false")]);
    assert_eq!(AppEnv::parse_log(&map), LogLevel::Debug);

    let map = map_of(&[("LOG_DEBUG", "true"), ("LOG_TRACE", "true")]);
    assert_eq!(AppEnv::parse_log(&map), LogLevel::Trace);

    let map = map_of(&[("LOG_DEBUG", "false"), ("LOG_TRACE", "true")]);
    assert_eq!(AppEnv::parse_log(&map), LogLevel::Trace);
}

#[test]
fn app_env_env_panic_appenv() {
    let map = process_env();
    let result = AppEnv::generate(&map, NOTHING_CHECKED, SystemTime::now());
    assert_eq!(result.err().unwrap().to_string(), "missing env: 'LOCATION_IMAGES'");
}

#[test]
fn mod_env_missing_env() {
    let mut map = EnvMap::new();
    map.insert("not_fish".to_owned(), "not_fish".to_owned());
    let result = AppEnv::parse_string("fish", &map);
    assert!(result.is_err());
    assert_eq!(result.unwrap_err().to_string(), "missing env: 'fish'");
}

#[test]
fn mod_env_parse_string_valid() {
    let mut map = EnvMap::new();
    map.insert("LOCATION_SQLITE".to_owned(), "/alarms.db".to_owned());
    let result = AppEnv::parse_string("LOCATION_SQLITE", &map).unwrap();
    assert_eq!(result, "/alarms.db");
}

#[test]
fn mod_env_parse_boolean_ok() {
    let mut map = EnvMap::new();
    map.insert("valid_true".to_owned(), "true".to_owned());
    map.insert("valid_false".to_owned(), "false".to_owned());
    map.insert("invalid_but_false".to_owned(), "as".to_owned());

    assert!(AppEnv::parse_boolean("valid_true", &map));
    assert!(!AppEnv::parse_boolean("valid_false", &map));
    assert!(!AppEnv::parse_boolean("invalid_but_false", &map));
    assert!(!AppEnv::parse_boolean("missing", &map));
}

#[test]
fn mod_env_parse_rotation_ok() {
    let map = map_of(&[("ROTATION", "180")]);
    assert_eq!(AppEnv::parse_rotation(&map).degrees(), 180);

    let map = map_of(&[("ROTATION", "0")]);
    assert_eq!(AppEnv::parse_rotation(&map).degrees(), 0);

    let map = map_of(&[("ROTATION", "181")]);
    assert_eq!(AppEnv::parse_rotation(&map).degrees(), 0);

    let map = map_of(&[("ROTATION", "")]);
    assert_eq!(AppEnv::parse_rotation(&map).degrees(), 0);

    let map = EnvMap::new();
    assert_eq!(AppEnv::parse_rotation(&map).degrees(), 0);
}

#[test]
fn mod_env_panic_appenv() {
    let map = process_env();
    let result = AppEnv::generate(&map, NOTHING_CHECKED, SystemTime::now());
    assert!(result.is_err());
}

#[test]
fn env_map_insert_replaces_value() {
    let mut map = EnvMap::new();
    map.insert(s("KEY"), s("one"));
    map.insert(s("OTHER"), s("x"));
    map.insert(s("KEY"), s("two"));
    assert_eq!(map.len(), 2);
    assert_eq!(map.get("KEY").map(|v| v.as_str()), Some("two"));
    assert_eq!(map.get("OTHER").map(|v| v.as_str()), Some("x"));
    assert_eq!(map.get("missing"), None);
}

#[test]
fn rotation_to_string_is_degrees() {
    assert_eq!(Rotation::Zero.to_string(), "0");
    assert_eq!(Rotation::Ninety.to_string(), "90");
    assert_eq!(Rotation::OneEighty.to_string(), "180");
    assert_eq!(Rotation::TwoSeventy.to_string(), "270");
    for rotation in [Rotation::Zero, Rotation::Ninety, Rotation::OneEighty, Rotation::TwoSeventy] {
        let map = map_of(&[("ROTATION", &rotation.to_string())]);
        assert_eq!(AppEnv::parse_rotation(&map), rotation);
    }
}

#[test]
fn error_messages() {
    assert_eq!(AppError::FileNotFound(s("/x")).to_string(), "'/x' - file not found'");
    assert_eq!(AppError::IoError.to_string(), "IO Error");
    assert_eq!(AppError::Reqwest.to_string(), "Reqwest Error");
    assert_eq!(AppError::Tracing.to_string(), "Unable to set up tracing");
    assert_eq!(AppError::TungsteniteConnect(s("refused")).to_string(), "Ws Connect: 'refused'");
    assert_eq!(AppError::WsStatus.to_string(), "Invalid WS Status Code");
}

#[test]
fn generate_ok_with_all_settings() {
    let mut map = full_map();
    map.insert(s("ROTATION"), s("270"));
    map.insert(s("LOG_DEBUG"), s("true"));
    let env = AppEnv::generate(&map, ALL_EXIST, SystemTime::UNIX_EPOCH).unwrap();
    assert_eq!(env.location_images, "/photos");
    assert_eq!(env.location_log, "/logs");
    assert_eq!(env.location_ip_address, "/ip.addr");
    assert_eq!(env.ws_address, "wss://example.com");
    assert_eq!(env.ws_apikey, "key");
    assert_eq!(env.ws_token_address, "https://example.com/token");
    assert_eq!(env.ws_password, "password");
    assert_eq!(env.rotation, Rotation::TwoSeventy);
    assert_eq!(env.log_level, LogLevel::Debug);
    assert_eq!(env.start_time, SystemTime::UNIX_EPOCH);
    assert!(env.timezone.is_utc());
}

#[test]
fn generate_reports_first_fault() {
    let mut map = full_map();
    map.insert(s("TIMEZONE"), s("Europe/Berlin"));
    // A location that does not exist comes before a missing later variable.
    let mut partial = map_of(&[("LOCATION_IMAGES", "/photos"), ("LOCATION_LOG", "/logs")]);
    let probes = FileProbes { images: FileProbe::Exists, log: FileProbe::Missing, ip_address: FileProbe::Exists };
    let err = AppEnv::generate(&partial, probes, SystemTime::now()).err().unwrap();
    assert_eq!(err.to_string(), "'/logs' - file not found'");

    partial.insert(s("LOCATION_IP_ADDRESS"), s("/ip"));
    let probes = FileProbes { images: FileProbe::Failed, log: FileProbe::Missing, ip_address: FileProbe::Exists };
    let err = AppEnv::generate(&partial, probes, SystemTime::now()).err().unwrap();
    assert_eq!(err.to_string(), "IO Error");

    let err = AppEnv::generate(&partial, ALL_EXIST, SystemTime::now()).err().unwrap();
    assert_eq!(err.to_string(), "missing env: 'WS_ADDRESS'");

    let env = AppEnv::generate(&map, ALL_EXIST, SystemTime::now()).unwrap();
    assert_eq!(env.timezone.zone().iana_name(), Some("Europe/Berlin"));
}

#[test]
fn check_file_exists_outcomes() {
    assert_eq!(AppEnv::check_file_exists(s("/a"), FileProbe::Exists).unwrap(), "/a");
    assert_eq!(
        AppEnv::check_file_exists(s("/a"), FileProbe::Missing).err().unwrap().to_string(),
        "'/a' - file not found'"
    );
    assert_eq!(
        AppEnv::check_file_exists(s("/a"), FileProbe::Failed).err().unwrap().to_string(),
        "IO Error"
    );
}

#[test]
fn timezone_names_agree_up_to_case() {
    let map = map_of(&[("TIMEZONE", "europe/berlin")]);
    let zone = AppEnv::parse_timezone(&map);
    assert!(!zone.is_utc());
    assert_eq!(zone.iana_name(), Some("Europe/Berlin"));
    let map = map_of(&[("TIMEZONE", "Utc")]);
    let zone = AppEnv::parse_timezone(&map);
    assert!(!zone.is_utc());
    assert!(zone.is_utc_zone());
    assert_eq!(zone.iana_name(), Some("UTC"));
    let zone = AppEnv::parse_timezone(&EnvMap::new());
    assert!(zone.is_utc());
    assert_eq!(zone.iana_name(), Some("UTC"));
    assert!(eq_ignore_ascii_case("Asia/Tokyo", "ASIA/tokyo"));
    assert!(!eq_ignore_ascii_case("Asia/Tokyo", "Asia/Tokyo2"));
    assert!(!eq_ignore_ascii_case("é", "É"));
}

#[test]
fn generate_keeps_the_zone_given() {
    let map = full_map();
    let zone = EnvTimeZone::new("Asia/Tokyo");
    let env = AppEnv::generate_in_zone(&map, ALL_EXIST, SystemTime::UNIX_EPOCH, zone).unwrap();
    assert_eq!(env.timezone.iana_name(), Some("Asia/Tokyo"));
    assert_eq!(env.location_images, "/photos");
    let probes = FileProbes { images: FileProbe::Missing, log: FileProbe::Exists, ip_address: FileProbe::Exists };
    let err = AppEnv::generate_in_zone(&map, probes, SystemTime::UNIX_EPOCH, EnvTimeZone::utc()).err().unwrap();
    assert_eq!(err.to_string(), "'/photos' - file not found'");
}
