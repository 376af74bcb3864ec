//! The application's settings, read from environment variables.
use vstd::prelude::*;
use vstd::string::*;

use std::time::SystemTime;

use crate::env_map::EnvMap;
use crate::text::{decimal, decimal_string};
use crate::zone::EnvTimeZone;

verus! {

/// The rotation of the camera sensor, in degrees.
#[derive(Debug, Clone, Copy, PartialEq, Eq, Structural, Hash)]
pub enum Rotation {
    Zero,
    Ninety,
    OneEighty,
    TwoSeventy,
}

impl Rotation {
    pub open spec fn spec_degrees(&self) -> u16 {
        match self {
            Rotation::Zero => 0,
            Rotation::Ninety => 90,
            Rotation::OneEighty => 180,
            Rotation::TwoSeventy => 270,
        }
    }

    /// The rotation in degrees.
    #[verifier::when_used_as_spec(spec_degrees)]
    pub fn degrees(&self) -> (r: u16)
        ensures
            r == self.spec_degrees(),
    {
        match self {
            Rotation::Zero => 0,
            Rotation::Ninety => 90,
            Rotation::OneEighty => 180,
            Rotation::TwoSeventy => 270,
        }
    }

    /// The rotation as the camera command line takes it: the degrees in
    /// decimal.
    pub fn to_string(&self) -> (r: String)
        ensures
            r@ == decimal(self.spec_degrees() as nat),
    {
        decimal_string(self.degrees() as u64)
    }
}

/// How much the application logs, from least to most.
#[derive(Debug, Clone, Copy, PartialEq, Eq, Structural, Hash)]
pub enum LogLevel {
    Error,
    Warn,
    Info,
    Debug,
    Trace,
}

/// What went wrong, as the user is told.
#[derive(Debug)]
pub enum AppError {
    FileNotFound(String),
    IoError,
    MissingEnv(String),
    Reqwest,
    Tracing,
    TungsteniteConnect(String),
    WsStatus,
}

/// An [`AppError`] with its text as a sequence of characters.
pub enum ErrorKind {
    FileNotFound(Seq<char>),
    IoError,
    MissingEnv(Seq<char>),
    Reqwest,
    Tracing,
    TungsteniteConnect(Seq<char>),
    WsStatus,
}

impl View for AppError {
    type V = ErrorKind;

    open spec fn view(&self) -> ErrorKind {
        match self {
            AppError::FileNotFound(s) => ErrorKind::FileNotFound(s@),
            AppError::IoError => ErrorKind::IoError,
            AppError::MissingEnv(s) => ErrorKind::MissingEnv(s@),
            AppError::Reqwest => ErrorKind::Reqwest,
            AppError::Tracing => ErrorKind::Tracing,
            AppError::TungsteniteConnect(s) => ErrorKind::TungsteniteConnect(s@),
            AppError::WsStatus => ErrorKind::WsStatus,
        }
    }
}

/// The message shown for an error.
pub open spec fn error_message(e: ErrorKind) -> Seq<char> {
    match e {
        ErrorKind::FileNotFound(s) => "'"@ + s + "' - file not found'"@,
        ErrorKind::IoError => "IO Error"@,
        ErrorKind::MissingEnv(s) => "missing env: '"@ + s + "'"@,
        ErrorKind::Reqwest => "Reqwest Error"@,
        ErrorKind::Tracing => "Unable to set up tracing"@,
        ErrorKind::TungsteniteConnect(s) => "Ws Connect: '"@ + s + "'"@,
        ErrorKind::WsStatus => "Invalid WS Status Code"@,
    }
}

impl AppError {
    /// The message shown for the error.
    pub fn to_string(&self) -> (r: String)
        ensures
            r@ == error_message(self@),
    {
        match self {
            AppError::FileNotFound(s) => {
                let mut r = String::from_str("'");
                r.append(s.as_str());
                r.append("' - file not found'");
                r
            },
            AppError::IoError => String::from_str("IO Error"),
            AppError::MissingEnv(s) => {
                let mut r = String::from_str("missing env: '");
                r.append(s.as_str());
                r.append("'");
                r
            },
            AppError::Reqwest => String::from_str("Reqwest Error"),
            AppError::Tracing => String::from_str("Unable to set up tracing"),
            AppError::TungsteniteConnect(s) => {
                let mut r = String::from_str("Ws Connect: '");
                r.append(s.as_str());
                r.append("'");
                r
            },
            AppError::WsStatus => String::from_str("Invalid WS Status Code"),
        }
    }
}

/// What asking the file system whether a path exists gave.
#[derive(Debug, Clone, Copy, PartialEq, Eq, Structural)]
pub enum FileProbe {
    Exists,
    Missing,
    Failed,
}

/// Whether the paths named by `LOCATION_IMAGES`, `LOCATION_LOG` and
/// `LOCATION_IP_ADDRESS` exist.
#[derive(Debug, Clone, Copy, PartialEq, Eq, Structural)]
pub struct FileProbes {
    pub images: FileProbe,
    pub log: FileProbe,
    pub ip_address: FileProbe,
}

/// The application's settings.
pub struct AppEnv {
    pub location_images: String,
    pub location_ip_address: String,
    pub location_log: String,
    pub log_level: LogLevel,
    pub rotation: Rotation,
    pub start_time: SystemTime,
    pub timezone: EnvTimeZone,
    pub ws_address: String,
    pub ws_apikey: String,
    pub ws_password: String,
    pub ws_token_address: String,
}

impl Clone for AppEnv {
    /// A copy of the settings.
    fn clone(&self) -> (r: Self)
        ensures
            r.location_images@ == self.location_images@,
            r.location_ip_address@ == self.location_ip_address@,
            r.location_log@ == self.location_log@,
            r.log_level == self.log_level,
            r.rotation == self.rotation,
            r.start_time == self.start_time,
            r.timezone.requested() == self.timezone.requested(),
            r.timezone.spec_zone() == self.timezone.spec_zone(),
            r.ws_address@ == self.ws_address@,
            r.ws_apikey@ == self.ws_apikey@,
            r.ws_password@ == self.ws_password@,
            r.ws_token_address@ == self.ws_token_address@,
    {
        AppEnv {
            location_images: self.location_images.clone(),
            location_ip_address: self.location_ip_address.clone(),
            location_log: self.location_log.clone(),
            log_level: self.log_level,
            rotation: self.rotation,
            start_time: self.start_time.clone(),
            timezone: self.timezone.clone(),
            ws_address: self.ws_address.clone(),
            ws_apikey: self.ws_apikey.clone(),
            ws_password: self.ws_password.clone(),
            ws_token_address: self.ws_token_address.clone(),
        }
    }
}

/// Whether the variable `key` is set to exactly "true".
pub open spec fn spec_is_true(key: Seq<char>, map: Map<Seq<char>, Seq<char>>) -> bool {
    map.contains_key(key) && map[key] == "true"@
}

/// The log level that `LOG_TRACE` and `LOG_DEBUG` ask for.
pub open spec fn spec_log_level(map: Map<Seq<char>, Seq<char>>) -> LogLevel {
    if spec_is_true("LOG_TRACE"@, map) {
        LogLevel::Trace
    } else if spec_is_true("LOG_DEBUG"@, map) {
        LogLevel::Debug
    } else {
        LogLevel::Info
    }
}

/// The rotation that `ROTATION` asks for: 90, 180 or 270, else none.
pub open spec fn spec_rotation(map: Map<Seq<char>, Seq<char>>) -> Rotation {
    if !map.contains_key("ROTATION"@) {
        Rotation::Zero
    } else if map["ROTATION"@] == "90"@ {
        Rotation::Ninety
    } else if map["ROTATION"@] == "180"@ {
        Rotation::OneEighty
    } else if map["ROTATION"@] == "270"@ {
        Rotation::TwoSeventy
    } else {
        Rotation::Zero
    }
}

/// The first problem, in the order in which the settings are read, that
/// keeps the settings from being made: a variable that is not set, or a
/// location that does not exist or could not be checked.
pub open spec fn spec_env_fault(map: Map<Seq<char>, Seq<char>>, probes: FileProbes) -> Option<
    ErrorKind,
> {
    if !map.contains_key("LOCATION_IMAGES"@) {
        Some(ErrorKind::MissingEnv("LOCATION_IMAGES"@))
    } else if probes.images != FileProbe::Exists {
        Some(probe_fault(probes.images, map["LOCATION_IMAGES"@]))
    } else if !map.contains_key("LOCATION_LOG"@) {
        Some(ErrorKind::MissingEnv("LOCATION_LOG"@))
    } else if probes.log != FileProbe::Exists {
        Some(probe_fault(probes.log, map["LOCATION_LOG"@]))
    } else if !map.contains_key("LOCATION_IP_ADDRESS"@) {
        Some(ErrorKind::MissingEnv("LOCATION_IP_ADDRESS"@))
    } else if probes.ip_address != FileProbe::Exists {
        Some(probe_fault(probes.ip_address, map["LOCATION_IP_ADDRESS"@]))
    } else if !map.contains_key("WS_ADDRESS"@) {
        Some(ErrorKind::MissingEnv("WS_ADDRESS"@))
    } else if !map.contains_key("WS_APIKEY"@) {
        Some(ErrorKind::MissingEnv("WS_APIKEY"@))
    } else if !map.contains_key("WS_TOKEN_ADDRESS"@) {
        Some(ErrorKind::MissingEnv("WS_TOKEN_ADDRESS"@))
    } else if !map.contains_key("WS_PASSWORD"@) {
        Some(ErrorKind::MissingEnv("WS_PASSWORD"@))
    } else {
        None
    }
}

/// The error for a location whose check did not find it.
pub open spec fn probe_fault(probe: FileProbe, path: Seq<char>) -> ErrorKind {
    match probe {
        FileProbe::Failed => ErrorKind::IoError,
        _ => ErrorKind::FileNotFound(path),
    }
}

/// The settings can be made exactly when all seven variables are set and
/// the three locations were found.
pub proof fn law_generate_succeeds_iff(map: Map<Seq<char>, Seq<char>>, probes: FileProbes)
    ensures
        spec_env_fault(map, probes) is None <==> {
            &&& map.contains_key("LOCATION_IMAGES"@)
            &&& map.contains_key("LOCATION_LOG"@)
            &&& map.contains_key("LOCATION_IP_ADDRESS"@)
            &&& map.contains_key("WS_ADDRESS"@)
            &&& map.contains_key("WS_APIKEY"@)
            &&& map.contains_key("WS_TOKEN_ADDRESS"@)
            &&& map.contains_key("WS_PASSWORD"@)
            &&& probes.images == FileProbe::Exists
            &&& probes.log == FileProbe::Exists
            &&& probes.ip_address == FileProbe::Exists
        },
{
}

/// Writing a rotation's degrees into `ROTATION` and reading the rotation
/// back gives the same rotation.
pub proof fn law_rotation_round_trip(map: Map<Seq<char>, Seq<char>>, rotation: Rotation)
    ensures
        spec_rotation(map.insert("ROTATION"@, decimal(rotation.spec_degrees() as nat))) == rotation,
{
    reveal_strlit("90");
    reveal_strlit("180");
    reveal_strlit("270");
    reveal_with_fuel(decimal, 4);
    assert(decimal(0) =~= seq!['0']);
    assert(decimal(90) =~= seq!['9', '0']);
    assert(decimal(180) =~= seq!['1', '8', '0']);
    assert(decimal(270) =~= seq!['2', '7', '0']);
    assert("90"@ =~= seq!['9', '0']);
    assert("180"@ =~= seq!['1', '8', '0']);
    assert("270"@ =~= seq!['2', '7', '0']);
}

impl AppEnv {
    /// `filename`, if the check found it; else the error for it.
    pub fn check_file_exists(filename: String, probe: FileProbe) -> (r: Result<String, AppError>)
        ensures
            match r {
                Ok(name) => probe == FileProbe::Exists && name@ == filename@,
                Err(e) => probe != FileProbe::Exists && e@ == probe_fault(probe, filename@),
            },
    {
        match probe {
            FileProbe::Exists => Ok(filename),
            FileProbe::Missing => Err(AppError::FileNotFound(filename)),
            FileProbe::Failed => Err(AppError::IoError),
        }
    }

    /// Whether the variable `key` is set to "true"; any other value, or
    /// none, counts as false.
    pub fn parse_boolean(key: &str, map: &EnvMap) -> (r: bool)
        ensures
            r == spec_is_true(key@, map@),
    {
        match map.get(key) {
            Some(value) => {
                let t = String::from_str("true");
                *value == t
            },
            None => false,
        }
    }

    /// The log level: trace if `LOG_TRACE` is true, else debug if
    /// `LOG_DEBUG` is true, else info.
    pub fn parse_log(map: &EnvMap) -> (r: LogLevel)
        ensures
            r == spec_log_level(map@),
    {
        if Self::parse_boolean("LOG_TRACE", map) {
            LogLevel::Trace
        } else if Self::parse_boolean("LOG_DEBUG", map) {
            LogLevel::Debug
        } else {
            LogLevel::Info
        }
    }

    /// The camera rotation from `ROTATION`; anything but "90", "180" or
    /// "270" means no rotation.
    pub fn parse_rotation(map: &EnvMap) -> (r: Rotation)
        ensures
            r == spec_rotation(map@),
    {
        match map.get("ROTATION") {
            Some(data) => {
                if *data == String::from_str("90") {
                    Rotation::Ninety
                } else if *data == String::from_str("180") {
                    Rotation::OneEighty
                } else if *data == String::from_str("270") {
                    Rotation::TwoSeventy
                } else {
                    Rotation::Zero
                }
            },
            None => Rotation::Zero,
        }
    }

    /// The value of the variable `key`, or the error that it is missing.
    pub fn parse_string(key: &str, map: &EnvMap) -> (r: Result<String, AppError>)
        ensures
            match r {
                Ok(value) => map@.contains_key(key@) && value@ == map@[key@],
                Err(e) => !map@.contains_key(key@) && e@ == ErrorKind::MissingEnv(key@),
            },
    {
        match map.get(key) {
            Some(value) => Ok(value.clone()),
            None => Err(AppError::MissingEnv(String::from_str(key))),
        }
    }

    /// The time zone named by `TIMEZONE`, or UTC where it is not set or
    /// names no known zone.
    pub fn parse_timezone(map: &EnvMap) -> (r: EnvTimeZone)
        ensures
            spec_timezone_of(map@, r),
    {
        match map.get("TIMEZONE") {
            Some(name) => EnvTimeZone::new(name.as_str()),
            None => EnvTimeZone::utc(),
        }
    }

    /// The settings from the variables in `map`, where `probes` tells which
    /// of the three locations exist and `start_time` is when the
    /// application started; the time zone is the one `TIMEZONE` names. The
    /// first problem found, in the order of [`spec_env_fault`], is the
    /// error.
    pub fn generate(map: &EnvMap, probes: FileProbes, start_time: SystemTime) -> (r: Result<
        Self,
        AppError,
    >)
        ensures
            match r {
                Ok(env) => spec_settings_of(map@, probes, start_time, env) && spec_timezone_of(
                    map@,
                    env.timezone,
                ),
                Err(e) => spec_env_fault(map@, probes) == Some(e@),
            },
    {
        let timezone = Self::parse_timezone(map);
        Self::generate_in_zone(map, probes, start_time, timezone)
    }

    /// The settings as [`AppEnv::generate`] makes them, with `timezone`, the
    /// zone that `TIMEZONE` was looked up to, kept as it is.
    pub fn generate_in_zone(
        map: &EnvMap,
        probes: FileProbes,
        start_time: SystemTime,
        timezone: EnvTimeZone,
    ) -> (r: Result<Self, AppError>)
        ensures
            match r {
                Ok(env) => spec_settings_of(map@, probes, start_time, env) && env.timezone == timezone,
                Err(e) => spec_env_fault(map@, probes) == Some(e@),
            },
    {
        let location_images = Self::check_file_exists(
            Self::parse_string("LOCATION_IMAGES", map)?,
            probes.images,
        )?;
        let location_log = Self::check_file_exists(
            Self::parse_string("LOCATION_LOG", map)?,
            probes.log,
        )?;
        let location_ip_address = Self::check_file_exists(
            Self::parse_string("LOCATION_IP_ADDRESS", map)?,
            probes.ip_address,
        )?;
        let log_level = Self::parse_log(map);
        let rotation = Self::parse_rotation(map);
        let ws_address = Self::parse_string("WS_ADDRESS", map)?;
        let ws_apikey = Self::parse_string("WS_APIKEY", map)?;
        let ws_token_address = Self::parse_string("WS_TOKEN_ADDRESS", map)?;
        let ws_password = Self::parse_string("WS_PASSWORD", map)?;
        Ok(AppEnv {
            location_images,
            location_ip_address,
            location_log,
            log_level,
            rotation,
            start_time,
            timezone,
            ws_address,
            ws_apikey,
            ws_password,
            ws_token_address,
        })
    }
}

/// What the time zone looked up for `map` is: UTC where `TIMEZONE` is not
/// set, else the zone it names, or UTC where the lookup of that name found
/// none, with names that agree.
pub open spec fn spec_timezone_of(map: Map<Seq<char>, Seq<char>>, zone: EnvTimeZone) -> bool {
    &&& !map.contains_key("TIMEZONE"@) ==> zone.requested() is None
    &&& map.contains_key("TIMEZONE"@) ==> (zone.requested() is None || zone.requested() == Some(
        map["TIMEZONE"@],
    ))
    &&& map.contains_key("TIMEZONE"@) ==> (zone.requested() == Some(map["TIMEZONE"@])
        || zone.spec_missed() == Some(map["TIMEZONE"@]))
    &&& !map.contains_key("TIMEZONE"@) ==> zone.spec_missed() is None
    &&& zone.names_agree()
}

/// The time zone kept for `map`: without `TIMEZONE`, UTC, and no name was
/// looked up; with it, the zone its value names, and UTC only where the
/// lookup of exactly that value found no zone.
pub proof fn law_utc_only_for_unset_or_unknown(map: Map<Seq<char>, Seq<char>>, zone: EnvTimeZone)
    requires
        spec_timezone_of(map, zone),
    ensures
        !map.contains_key("TIMEZONE"@) ==> zone.requested() is None && zone.spec_missed() is None,
        map.contains_key("TIMEZONE"@) && zone.requested() is Some ==> zone.requested() == Some(
            map["TIMEZONE"@],
        ),
        map.contains_key("TIMEZONE"@) && zone.requested() is None ==> zone.spec_missed() == Some(
            map["TIMEZONE"@],
        ),
{
}

/// The settings other than the time zone, as the variables in `map` give
/// them, where no fault stops them.
pub open spec fn spec_settings_of(
    map: Map<Seq<char>, Seq<char>>,
    probes: FileProbes,
    start_time: SystemTime,
    env: AppEnv,
) -> bool {
    &&& spec_env_fault(map, probes) is None
    &&& env.location_images@ == map["LOCATION_IMAGES"@]
    &&& env.location_log@ == map["LOCATION_LOG"@]
    &&& env.location_ip_address@ == map["LOCATION_IP_ADDRESS"@]
    &&& env.log_level == spec_log_level(map)
    &&& env.rotation == spec_rotation(map)
    &&& env.start_time == start_time
    &&& env.ws_address@ == map["WS_ADDRESS"@]
    &&& env.ws_apikey@ == map["WS_APIKEY"@]
    &&& env.ws_token_address@ == map["WS_TOKEN_ADDRESS"@]
    &&& env.ws_password@ == map["WS_PASSWORD"@]
}

} // verus!
