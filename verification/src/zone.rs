//! Time zones and wall-clock time, through the `jiff` crate.
use vstd::prelude::*;

use jiff::tz::{Offset, TimeZone};
use jiff::Timestamp;

use crate::text::{decimal, pad2, padded_decimal, pad2_string, zero_pad};
use vstd::string::*;

verus! {

#[verifier::external_type_specification]
#[verifier::external_body]
pub struct ExTimeZone(jiff::tz::TimeZone);

#[verifier::external_type_specification]
#[verifier::external_body]
pub struct ExSystemTime(std::time::SystemTime);

/// `Clone` of `std::time::SystemTime`, which is `Copy`: the clone is the
/// same value.
pub assume_specification[ <std::time::SystemTime as Clone>::clone ](t: &std::time::SystemTime) -> (r: std::time::SystemTime)
    ensures
        r == *t,
;

/// `Clone` of `jiff::tz::TimeZone`, which is derived: the clone is the same
/// zone.
pub assume_specification[ <jiff::tz::TimeZone as Clone>::clone ](zone: &jiff::tz::TimeZone) -> (r: jiff::tz::TimeZone)
    ensures
        r == *zone,
;

#[verifier::external_type_specification]
#[verifier::external_body]
pub struct ExTimestamp(jiff::Timestamp);

/// The first and last second since the Unix epoch that a
/// `jiff::Timestamp` can hold: the civil range of years -9999 to 9999,
/// narrowed on each side by the largest zone offset, 93599 seconds.
pub const FIRST_SECOND: i64 = -377705023201;

pub const LAST_SECOND: i64 = 253402207200;

/// Whether `seconds` since the Unix epoch lies in the range of `jiff`.
pub open spec fn in_jiff_range(seconds: int) -> bool {
    FIRST_SECOND <= seconds <= LAST_SECOND
}

/// Whether `offset` seconds is a zone offset that `jiff` supports, from
/// -25:59:59 to 25:59:59.
pub open spec fn offset_in_range(offset: int) -> bool {
    -93599 <= offset <= 93599
}

/// `jiff::Timestamp::from_second`; by its documentation it fails exactly
/// outside `Timestamp::MIN` and `Timestamp::MAX`. Nothing is claimed of the
/// instant beyond that.
#[verifier::external_body]
fn timestamp_of(seconds: i64) -> (r: Option<Timestamp>)
    ensures
        r is Some <==> in_jiff_range(seconds as int),
{
    Timestamp::from_second(seconds).ok()
}

/// `jiff::tz::TimeZone::to_offset`, in seconds: the offset from UTC that the
/// zone's rules give at `timestamp`. The rules come from the time zone
/// database that `jiff` reads from the machine, so only the range that
/// `Offset::seconds` documents is claimed.
#[verifier::external_body]
fn zone_offset(zone: &TimeZone, timestamp: Timestamp) -> (r: i32)
    ensures
        offset_in_range(r as int),
{
    zone.to_offset(timestamp).seconds()
}

/// The proleptic Gregorian date, with a year zero, `days` days after
/// 1970-01-01, as (year, month, day).
pub open spec fn civil_from_days(days: int) -> (int, int, int) {
    let z = days + 719468;
    let era = z / 146097;
    let doe = z % 146097;
    let yoe = (doe - doe / 1460 + doe / 36524 - doe / 146096) / 365;
    let doy = doe - (365 * yoe + yoe / 4 - yoe / 100);
    let mp = (5 * doy + 2) / 153;
    let day = doy - (153 * mp + 2) / 5 + 1;
    let month = if mp < 10 {
        mp + 3
    } else {
        mp - 9
    };
    let year = yoe + era * 400 + if month <= 2 {
        1int
    } else {
        0int
    };
    (year, month, day)
}

/// The wall-clock time at `seconds` since the Unix epoch on a clock
/// `offset` seconds ahead of UTC, without leap seconds; 1970-01-01 was a
/// Thursday.
pub open spec fn civil_at_offset(seconds: int, offset: int) -> CivilTime {
    let local = seconds + offset;
    let days = local / 86400;
    let secs = local % 86400;
    let date = civil_from_days(days);
    CivilTime {
        year: date.0 as i16,
        month: date.1 as i8,
        day: date.2 as i8,
        hour: (secs / 3600) as i8,
        minute: (secs % 3600 / 60) as i8,
        second: (secs % 60) as i8,
        weekday: ((days % 7 + 3) % 7 + 1) as i8,
    }
}

/// `jiff::tz::Offset::to_datetime`, read field by field: the civil date and
/// time of the proleptic Gregorian calendar that `jiff` documents, without
/// leap seconds, in the field ranges it documents. The timestamp and the
/// offset are built from the plain numbers, which `requires` keeps in the
/// ranges where that cannot fail.
#[verifier::external_body]
fn wall_clock(seconds: i64, offset: i32) -> (r: CivilTime)
    requires
        in_jiff_range(seconds as int),
        offset_in_range(offset as int),
    ensures
        r == civil_at_offset(seconds as int, offset as int),
        r.valid(),
{
    let timestamp = Timestamp::from_second(seconds).expect("in range");
    let dt = Offset::from_seconds(offset).expect("in range").to_datetime(timestamp);
    CivilTime {
        year: dt.year(),
        month: dt.month(),
        day: dt.day(),
        hour: dt.hour(),
        minute: dt.minute(),
        second: dt.second(),
        weekday: dt.weekday().to_monday_one_offset(),
    }
}

/// A date and time of day on a wall clock; `weekday` counts from 1 for
/// Monday to 7 for Sunday.
#[derive(Debug, Clone, Copy, PartialEq, Eq, Structural)]
pub struct CivilTime {
    pub year: i16,
    pub month: i8,
    pub day: i8,
    pub hour: i8,
    pub minute: i8,
    pub second: i8,
    pub weekday: i8,
}

impl CivilTime {
    /// Each field in its range.
    pub open spec fn valid(&self) -> bool {
        &&& -9999 <= self.year <= 9999
        &&& 1 <= self.month <= 12
        &&& 1 <= self.day <= 31
        &&& 0 <= self.hour <= 23
        &&& 0 <= self.minute <= 59
        &&& 0 <= self.second <= 59
        &&& 1 <= self.weekday <= 7
    }

    /// The date as ISO 8601 writes it, "2024-03-05", with a minus sign
    /// before the four digits of a year before year zero: "-0044-03-15".
    pub open spec fn spec_date(&self) -> Seq<char> {
        let y = if self.year < 0 {
            -self.year
        } else {
            self.year as int
        };
        (if self.year < 0 {
            seq!['-']
        } else {
            Seq::<char>::empty()
        }) + zero_pad(decimal(y as nat), 4) + seq!['-'] + pad2(self.month as nat) + seq!['-'] + pad2(
            self.day as nat,
        )
    }

    /// The date, four digits of year, two of month and two of day.
    pub fn date_string(&self) -> (r: String)
        requires
            self.valid(),
        ensures
            r@ == self.spec_date(),
    {
        let mut r = String::new();
        let y: u64 = if self.year < 0 {
            r.append("-");
            (-(self.year as i32)) as u64
        } else {
            self.year as u64
        };
        proof {
            reveal_strlit("-");
        }
        let year = padded_decimal(y, 4);
        r.append(year.as_str());
        r.append("-");
        let month = pad2_string(self.month as u64);
        r.append(month.as_str());
        r.append("-");
        let day = pad2_string(self.day as u64);
        r.append(day.as_str());
        r
    }
}

/// The wall-clock time `seconds` after the Unix epoch in `zone`; `None`
/// where the instant lies outside the range of `jiff`. In UTC the offset is
/// zero; in another zone it is the one the zone's rules give then.
pub fn civil_time(zone: &EnvTimeZone, seconds: i64) -> (r: Option<CivilTime>)
    ensures
        r is Some <==> in_jiff_range(seconds as int),
        r matches Some(c) ==> c.valid() && exists|offset: int|
            zone.offset_allowed(offset) && c == #[trigger] civil_at_offset(seconds as int, offset),
{
    match timestamp_of(seconds) {
        Some(timestamp) => {
            let offset: i32 = if zone.is_utc_zone() {
                0
            } else {
                zone_offset(zone.zone(), timestamp)
            };
            let c = wall_clock(seconds, offset);
            assert(zone.offset_allowed(offset as int));
            Some(c)
        },
        None => None,
    }
}

/// Whether `c` is an ASCII capital letter.
pub open spec fn is_ascii_upper(c: char) -> bool {
    65 <= (c as int) <= 90
}

/// Whether two characters are equal once ASCII capitals are lowered.
pub open spec fn same_char_ignoring_ascii_case(x: char, y: char) -> bool {
    ||| x == y
    ||| is_ascii_upper(x) && (x as int) + 32 == (y as int)
    ||| is_ascii_upper(y) && (y as int) + 32 == (x as int)
}

/// Whether two texts are equal once ASCII capitals are lowered, as
/// `str::eq_ignore_ascii_case` decides.
pub open spec fn same_ignoring_ascii_case(a: Seq<char>, b: Seq<char>) -> bool {
    &&& a.len() == b.len()
    &&& forall|i: int| 0 <= i < a.len() ==> same_char_ignoring_ascii_case(#[trigger] a[i], b[i])
}

/// Whether `a` and `b` are equal once ASCII capitals are lowered.
pub fn eq_ignore_ascii_case(a: &str, b: &str) -> (r: bool)
    ensures
        r == same_ignoring_ascii_case(a@, b@),
{
    let n = a.unicode_len();
    if n != b.unicode_len() {
        return false;
    }
    let mut i: usize = 0;
    while i < n
        invariant
            n == a@.len(),
            n == b@.len(),
            0 <= i <= n,
            forall|j: int| 0 <= j < i ==> same_char_ignoring_ascii_case(#[trigger] a@[j], b@[j]),
        decreases n - i,
    {
        let u = a.get_char(i) as u32;
        let v = b.get_char(i) as u32;
        if !(u == v || (65 <= u && u <= 90 && u + 32 == v) || (65 <= v && v <= 90 && v + 32 == u)) {
            assert(!same_char_ignoring_ascii_case(a@[i as int], b@[i as int]));
            return false;
        }
        i += 1;
    }
    true
}

/// `jiff::tz::TimeZone::get`, with the IANA name of the zone found read by
/// `TimeZone::iana_name`. Which names are found depends on the time zone
/// database of the machine, so whether a zone comes back is not claimed.
/// Every database of `jiff` looks names up ignoring ASCII case and keeps
/// the name it has on record, so a name that comes back equals the one
/// asked for up to ASCII case; a name equal to "UTC" up to ASCII case gives
/// `TimeZone::UTC`, whose name is "UTC".
#[verifier::external_body]
fn lookup_zone(name: &str) -> (r: Option<(TimeZone, Option<String>)>)
    ensures
        r matches Some(found) ==> (found.1 matches Some(n) ==> same_ignoring_ascii_case(n@, name@)),
        r matches Some(found) ==> (same_ignoring_ascii_case(name@, "UTC"@) ==> opt_view(found.1)
            == Some("UTC"@)),
{
    match TimeZone::get(name) {
        Ok(zone) => {
            let iana = zone.iana_name().map(|n| n.to_string());
            Some((zone, iana))
        },
        Err(_) => None,
    }
}

/// `jiff::tz::TimeZone::UTC`, with its IANA name, "UTC".
#[verifier::external_body]
fn utc_zone() -> (r: (TimeZone, Option<String>))
    ensures
        opt_view(r.1) == Some("UTC"@),
{
    let zone = TimeZone::UTC;
    let iana = zone.iana_name().map(|n| n.to_string());
    (zone, iana)
}

/// The time zone of the configuration: a zone found by the name that the
/// environment gave, or UTC.
pub struct EnvTimeZone {
    name: Option<String>,
    iana: Option<String>,
    missed: Option<String>,
    zone: TimeZone,
}

/// The view of an optional text.
pub open spec fn opt_view(s: Option<String>) -> Option<Seq<char>> {
    match s {
        Some(t) => Some(t@),
        None => None,
    }
}

impl Clone for EnvTimeZone {
    /// A copy of the zone, asked for by the same name.
    fn clone(&self) -> (r: Self)
        ensures
            r.requested() == self.requested(),
            r.spec_iana() == self.spec_iana(),
            r.spec_missed() == self.spec_missed(),
            r.spec_zone() == self.spec_zone(),
    {
        EnvTimeZone {
            name: self.name.clone(),
            iana: self.iana.clone(),
            missed: self.missed.clone(),
            zone: self.zone.clone(),
        }
    }
}

impl EnvTimeZone {
    /// The name that was asked for and found, `None` where UTC stands in
    /// for a missing or unknown name.
    pub closed spec fn requested(&self) -> Option<Seq<char>> {
        opt_view(self.name)
    }

    /// The IANA name of the zone held, as `jiff` has it on record.
    pub closed spec fn spec_iana(&self) -> Option<Seq<char>> {
        opt_view(self.iana)
    }

    /// The name that was looked up and found no zone, where UTC stands in
    /// for it.
    pub closed spec fn spec_missed(&self) -> Option<Seq<char>> {
        opt_view(self.missed)
    }

    /// Whether the zone is UTC: none was asked for or found, or the name
    /// asked for is "UTC" up to ASCII case, which `jiff` answers with UTC.
    pub open spec fn spec_is_utc(&self) -> bool {
        ||| self.requested() is None
        ||| self.requested() matches Some(n) && same_ignoring_ascii_case(n, "UTC"@)
    }

    /// The IANA name of the zone agrees with the name asked for: equal up to
    /// ASCII case where it has one, and "UTC" where the name is "UTC" up to
    /// ASCII case or where UTC stands in.
    pub open spec fn names_agree(&self) -> bool {
        match self.requested() {
            None => self.spec_iana() == Some("UTC"@),
            Some(n) => {
                &&& (self.spec_iana() matches Some(i) ==> same_ignoring_ascii_case(i, n))
                &&& (same_ignoring_ascii_case(n, "UTC"@) ==> self.spec_iana() == Some("UTC"@))
            },
        }
    }

    /// UTC.
    pub fn utc() -> (r: Self)
        ensures
            r.requested() is None,
            r.spec_iana() == Some("UTC"@),
            r.spec_missed() is None,
    {
        let (zone, iana) = utc_zone();
        EnvTimeZone { name: None, iana, missed: None, zone }
    }

    /// The zone named `name`, or UTC where no zone of that name is known.
    /// The zone kept has `name` as its IANA name up to ASCII case, where it
    /// has one.
    pub fn new(name: &str) -> (r: Self)
        ensures
            r.requested() is None || r.requested() == Some(name@),
            r.requested() == Some(name@) || r.spec_missed() == Some(name@),
            r.names_agree(),
    {
        Self::from_lookup(name, lookup_zone(name))
    }

    /// The zone found for `name`, with its IANA name, or UTC where the
    /// lookup found none.
    pub fn from_lookup(name: &str, found: Option<(TimeZone, Option<String>)>) -> (r: Self)
        ensures
            found matches Some(f) ==> r.requested() == Some(name@) && r.spec_zone() == f.0
                && r.spec_iana() == opt_view(f.1) && r.spec_missed() is None,
            found is None ==> r.requested() is None && r.spec_iana() == Some("UTC"@)
                && r.spec_missed() == Some(name@),
    {
        match found {
            Some((zone, iana)) => EnvTimeZone {
                name: Some(String::from_str(name)),
                iana,
                missed: None,
                zone,
            },
            None => {
                let (zone, iana) = utc_zone();
                EnvTimeZone { name: None, iana, missed: Some(String::from_str(name)), zone }
            },
        }
    }

    /// Whether `offset` seconds can be this zone's offset: zero in UTC, and
    /// in the range of `jiff` in a named zone.
    pub open spec fn offset_allowed(&self, offset: int) -> bool {
        &&& offset_in_range(offset)
        &&& self.spec_is_utc() ==> offset == 0
    }

    /// Whether UTC stands in for the zone: no name was asked for, or none
    /// was found.
    pub fn is_utc(&self) -> (r: bool)
        ensures
            r == self.requested() is None,
    {
        self.name.is_none()
    }

    /// Whether the zone is UTC, by fallback or by name.
    pub fn is_utc_zone(&self) -> (r: bool)
        ensures
            r == self.spec_is_utc(),
    {
        proof {
            reveal_strlit("UTC");
        }
        match &self.name {
            None => true,
            Some(n) => eq_ignore_ascii_case(n.as_str(), "UTC"),
        }
    }

    /// The IANA name of the zone, as `jiff` has it on record.
    pub fn iana_name(&self) -> (r: Option<&str>)
        ensures
            r matches Some(n) ==> self.spec_iana() == Some(n@),
            r is None ==> self.spec_iana() is None,
    {
        match &self.iana {
            Some(n) => Some(n.as_str()),
            None => None,
        }
    }

    /// The `jiff` time zone.
    pub fn zone(&self) -> (r: &TimeZone)
        ensures
            *r == self.spec_zone(),
    {
        &self.zone
    }

    /// The `jiff` time zone.
    pub closed spec fn spec_zone(&self) -> TimeZone {
        self.zone
    }
}

} // verus!
