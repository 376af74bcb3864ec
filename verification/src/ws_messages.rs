//! Messages over the websocket: what a parsed request means, and the photo
//! response.
use vstd::prelude::*;
use vstd::string::*;

use base64::Engine;

use crate::sysinfo::SysInfo;
use crate::text::pad2;
use crate::text::pad2_string;
use crate::zone::CivilTime;

verus! {

/// A request: which photo the client wants.
#[derive(Debug, Clone, Copy, PartialEq, Eq, Structural)]
pub enum ParsedMessage {
    Photo,
    ForceUpdate,
}

/// An error that the server sent instead of a request.
#[derive(Debug)]
pub enum ErrorData {
    Something(String),
}

/// A request with the unique string that the reply must carry, or an error
/// from the server.
#[derive(Debug)]
pub enum MessageValues {
    Valid(ParsedMessage, String),
    Invalid(ErrorData),
}

/// A message in the shape the server sends: an optional request, an
/// optional error, and the unique string.
#[derive(Debug)]
pub struct StructuredMessage {
    pub data: Option<ParsedMessage>,
    pub error: Option<ErrorData>,
    pub unique: String,
}

/// What a message means, given how it parsed: `structured` where it parsed
/// as a [`StructuredMessage`], else `error_only` where it parsed as a bare
/// [`ErrorData`]. An error wins over a request; a message with neither
/// means nothing.
pub fn classify_message(structured: Option<StructuredMessage>, error_only: Option<ErrorData>) -> (r:
    Option<MessageValues>)
    ensures
        match structured {
            Some(m) => match m.error {
                Some(e) => r == Some(MessageValues::Invalid(e)),
                None => match m.data {
                    Some(d) => r matches Some(MessageValues::Valid(d2, u)) && d2 == d && u@
                        == m.unique@,
                    None => r is None,
                },
            },
            None => match error_only {
                Some(e) => r == Some(MessageValues::Invalid(e)),
                None => r is None,
            },
        },
{
    match structured {
        Some(message) => {
            if let Some(error) = message.error {
                return Some(MessageValues::Invalid(error));
            }
            if let Some(data) = message.data {
                return Some(MessageValues::Valid(data, message.unique));
            }
            None
        },
        None => match error_only {
            Some(error) => Some(MessageValues::Invalid(error)),
            None => None,
        },
    }
}

/// The base64 alphabet of RFC 4648: A-Z, a-z, 0-9, '+', '/'.
pub open spec fn base64_char(v: nat) -> char {
    if v < 26 {
        (65 + v) as char
    } else if v < 52 {
        (97 + v - 26) as char
    } else if v < 62 {
        (48 + v - 52) as char
    } else if v == 62 {
        '+'
    } else {
        '/'
    }
}

/// Standard base64 with '=' padding (RFC 4648, section 4): each three
/// bytes become four characters of six bits each.
pub open spec fn base64(bytes: Seq<u8>) -> Seq<char>
    decreases bytes.len(),
{
    if bytes.len() == 0 {
        Seq::empty()
    } else if bytes.len() == 1 {
        seq![base64_char(bytes[0] as nat / 4), base64_char((bytes[0] as nat % 4) * 16), '=', '=']
    } else if bytes.len() == 2 {
        seq![
            base64_char(bytes[0] as nat / 4),
            base64_char((bytes[0] as nat % 4) * 16 + bytes[1] as nat / 16),
            base64_char((bytes[1] as nat % 16) * 4),
            '=',
        ]
    } else {
        seq![
            base64_char(bytes[0] as nat / 4),
            base64_char((bytes[0] as nat % 4) * 16 + bytes[1] as nat / 16),
            base64_char((bytes[1] as nat % 16) * 4 + bytes[2] as nat / 64),
            base64_char(bytes[2] as nat % 64),
        ] + base64(bytes.skip(3))
    }
}

/// The length of the padded base64 text of `len` bytes.
pub open spec fn base64_len(len: nat) -> nat {
    len / 3 * 4 + if len % 3 > 0 {
        4nat
    } else {
        0nat
    }
}

/// Four characters for every three bytes or part of them.
pub proof fn law_base64_length(bytes: Seq<u8>)
    ensures
        base64(bytes).len() == base64_len(bytes.len()),
    decreases bytes.len(),
{
    if bytes.len() >= 3 {
        law_base64_length(bytes.skip(3));
        let n = bytes.len();
        assert((n - 3) / 3 == n / 3 - 1);
        assert((n - 3) % 3 == n % 3);
    }
}

/// `base64::engine::general_purpose::STANDARD.encode`: standard base64 with
/// padding. It panics where the length of the text would overflow a
/// `usize`, which the `requires` leaves out.
#[verifier::external_body]
fn encode_base64(bytes: &[u8]) -> (r: String)
    requires
        base64_len(bytes@.len()) <= usize::MAX,
    ensures
        r@ == base64(bytes@),
{
    base64::engine::general_purpose::STANDARD.encode(bytes)
}

/// The prefix of a WebP image as a data URI.
pub open spec fn data_uri_prefix() -> Seq<char> {
    "data:image/webp;base64,"@
}

/// The image as a data URI: "data:image/webp;base64," and the base64 of
/// the bytes.
pub fn webp_data_uri(bytes: &[u8]) -> (r: String)
    requires
        base64_len(bytes@.len()) <= usize::MAX,
    ensures
        r@ == data_uri_prefix() + base64(bytes@),
{
    let mut r = String::from_str("data:image/webp;base64,");
    let encoded = encode_base64(bytes);
    r.append(encoded.as_str());
    r
}

/// The English name of a weekday counted from 1 for Monday.
pub open spec fn weekday_name(day: int) -> Seq<char> {
    if day == 1 {
        "Monday"@
    } else if day == 2 {
        "Tuesday"@
    } else if day == 3 {
        "Wednesday"@
    } else if day == 4 {
        "Thursday"@
    } else if day == 5 {
        "Friday"@
    } else if day == 6 {
        "Saturday"@
    } else {
        "Sunday"@
    }
}

/// When a photo was taken, as shown to clients:
/// "Tuesday 2024-03-05 @ 07:08:09".
pub open spec fn spec_photo_timestamp(time: CivilTime) -> Seq<char> {
    weekday_name(time.weekday as int) + seq![' '] + time.spec_date() + " @ "@ + pad2(
        time.hour as nat,
    ) + seq![':'] + pad2(time.minute as nat) + seq![':'] + pad2(time.second as nat)
}

/// A photo's timestamp starts with the English name of its weekday and a
/// space: Monday for weekday 1, through Sunday for weekday 7.
pub proof fn law_timestamp_starts_with_weekday(time: CivilTime)
    requires
        time.valid(),
    ensures
        time.weekday == 1 ==> spec_photo_timestamp(time).take(7) == "Monday "@,
        time.weekday == 2 ==> spec_photo_timestamp(time).take(8) == "Tuesday "@,
        time.weekday == 3 ==> spec_photo_timestamp(time).take(10) == "Wednesday "@,
        time.weekday == 4 ==> spec_photo_timestamp(time).take(9) == "Thursday "@,
        time.weekday == 5 ==> spec_photo_timestamp(time).take(7) == "Friday "@,
        time.weekday == 6 ==> spec_photo_timestamp(time).take(9) == "Saturday "@,
        time.weekday == 7 ==> spec_photo_timestamp(time).take(7) == "Sunday "@,
{
    reveal_strlit("Monday");
    reveal_strlit("Tuesday");
    reveal_strlit("Wednesday");
    reveal_strlit("Thursday");
    reveal_strlit("Friday");
    reveal_strlit("Saturday");
    reveal_strlit("Sunday");
    reveal_strlit("Monday ");
    reveal_strlit("Tuesday ");
    reveal_strlit("Wednesday ");
    reveal_strlit("Thursday ");
    reveal_strlit("Friday ");
    reveal_strlit("Saturday ");
    reveal_strlit("Sunday ");
    let name = weekday_name(time.weekday as int);
    let full = spec_photo_timestamp(time);
    assert(full.take(name.len() as int + 1) =~= name + seq![' ']);
}

/// When a photo was taken, as shown to clients.
pub fn photo_timestamp(time: &CivilTime) -> (r: String)
    requires
        time.valid(),
    ensures
        r@ == spec_photo_timestamp(*time),
{
    let day = match time.weekday {
        1 => "Monday",
        2 => "Tuesday",
        3 => "Wednesday",
        4 => "Thursday",
        5 => "Friday",
        6 => "Saturday",
        _ => "Sunday",
    };
    let mut r = String::from_str(day);
    r.append(" ");
    let date = time.date_string();
    r.append(date.as_str());
    r.append(" @ ");
    let hour = pad2_string(time.hour as u64);
    r.append(hour.as_str());
    r.append(":");
    let minute = pad2_string(time.minute as u64);
    r.append(minute.as_str());
    r.append(":");
    let second = pad2_string(time.second as u64);
    r.append(second.as_str());
    proof {
        reveal_strlit(" ");
        reveal_strlit(":");
    }
    r
}

/// The photo reply: the image, facts about the Pi, when it was taken, and
/// the two sizes.
pub struct Photo {
    pub image: String,
    pub pi_info: SysInfo,
    pub timestamp: String,
    pub size_converted: usize,
    pub size_original: usize,
}

/// What the application sends.
pub enum Response {
    Photo(Photo),
}

impl Photo {
    /// The reply for a WebP photo taken at `time`, with the sizes of the
    /// web version and of the original.
    pub fn new(
        photo_webp: &[u8],
        time: &CivilTime,
        sizes: (usize, usize),
        pi_info: SysInfo,
    ) -> (r: Self)
        requires
            time.valid(),
            base64_len(photo_webp@.len()) <= usize::MAX,
        ensures
            r.image@ == data_uri_prefix() + base64(photo_webp@),
            r.timestamp@ == spec_photo_timestamp(*time),
            r.size_converted == sizes.0,
            r.size_original == sizes.1,
            r.pi_info == pi_info,
    {
        Photo {
            image: webp_data_uri(photo_webp),
            pi_info,
            timestamp: photo_timestamp(time),
            size_converted: sizes.0,
            size_original: sizes.1,
        }
    }
}

} // verus!
