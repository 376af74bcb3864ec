//! Facts about the Pi that are sent along with each photo.
use vstd::prelude::*;
use vstd::string::*;
use vstd::utf8::encode_utf8;

use crate::text::{decimal, digit_char, trim, trim_string};

verus! {

/// A file found in the images directory: its name, and its size where
/// reading its metadata worked.
pub struct DirEntryInfo {
    pub file_name: Vec<u8>,
    pub size: Option<u64>,
}

impl View for DirEntryInfo {
    type V = (Seq<u8>, Option<u64>);

    open spec fn view(&self) -> (Seq<u8>, Option<u64>) {
        (self.file_name@, self.size)
    }
}

/// The index of the last '.' in `name`.
pub open spec fn last_dot(name: Seq<u8>) -> Option<int>
    decreases name.len(),
{
    if name.len() == 0 {
        None
    } else if name.last() == 46 {
        Some(name.len() - 1)
    } else {
        last_dot(name.drop_last())
    }
}

/// The extension of a file name as `Path::extension` finds it: what follows
/// the last '.', unless that '.' starts the name or the name is "..".
pub open spec fn file_extension(name: Seq<u8>) -> Option<Seq<u8>> {
    if name == seq![46u8, 46u8] {
        None
    } else {
        match last_dot(name) {
            None => None,
            Some(i) => if i == 0 {
                None
            } else {
                Some(name.subrange(i + 1, name.len() as int))
            },
        }
    }
}

/// The byte in ASCII lower case.
pub open spec fn ascii_lower(b: u8) -> u8 {
    if 65 <= b <= 90 {
        (b + 32) as u8
    } else {
        b
    }
}

/// Whether the file name's extension is "jpg", in any case.
pub open spec fn is_jpg_name(name: Seq<u8>) -> bool {
    file_extension(name) matches Some(e) && e.len() == 3 && ascii_lower(e[0]) == 106
        && ascii_lower(e[1]) == 112 && ascii_lower(e[2]) == 103
}

/// The total size and the number of the JPEG files among `entries`; `None`
/// where the size of one of them could not be read.
pub open spec fn jpg_summary(entries: Seq<(Seq<u8>, Option<u64>)>) -> Option<(nat, nat)>
    decreases entries.len(),
{
    if entries.len() == 0 {
        Some((0, 0))
    } else {
        let rest = jpg_summary(entries.drop_last());
        let e = entries.last();
        if !is_jpg_name(e.0) {
            rest
        } else {
            match (rest, e.1) {
                (Some((total, count)), Some(size)) => Some(((total + size) as nat, count + 1)),
                _ => None,
            }
        }
    }
}

/// The names and sizes of a listing.
pub open spec fn listing_view(entries: Seq<DirEntryInfo>) -> Seq<(Seq<u8>, Option<u64>)> {
    entries.map_values(|e: DirEntryInfo| e@)
}

/// Whether the running totals over every prefix of the listing fit the
/// counters: the total in a `u64` and the count in a `u32`.
pub open spec fn summaries_fit(entries: Seq<(Seq<u8>, Option<u64>)>) -> bool {
    forall|k: int|
        0 <= k <= entries.len() ==> (#[trigger] jpg_summary(entries.take(k)) matches Some(
            (total, count),
        ) ==> total <= u64::MAX && count <= u32::MAX)
}

/// Once a JPEG's size is missing, no longer listing has a summary.
proof fn lemma_summary_none_extends(entries: Seq<(Seq<u8>, Option<u64>)>, k: int)
    requires
        0 <= k <= entries.len(),
        jpg_summary(entries.take(k)) is None,
    ensures
        jpg_summary(entries) is None,
    decreases entries.len() - k,
{
    if k < entries.len() {
        assert(entries.take(k + 1).drop_last() =~= entries.take(k));
        lemma_summary_none_extends(entries, k + 1);
    } else {
        assert(entries.take(k) =~= entries);
    }
}

/// The Pi's address from the text of its file (`None` where it could not
/// be read): trimmed, or "N/A" where the text has at most one byte.
pub open spec fn spec_ip_address(contents: Option<Seq<char>>) -> Seq<char> {
    let ip = match contents {
        Some(s) => s,
        None => "N/A"@,
    };
    if encode_utf8(ip).len() as usize > 1 {
        trim(ip)
    } else {
        "N/A"@
    }
}

/// The index of the first '.' in `s`.
pub open spec fn first_dot(s: Seq<char>) -> Option<int>
    decreases s.len(),
{
    if s.len() == 0 {
        None
    } else if s[0] == '.' {
        Some(0)
    } else {
        match first_dot(s.drop_first()) {
            Some(i) => Some(i + 1),
            None => None,
        }
    }
}

/// Whether `c` is an ASCII decimal digit.
pub open spec fn is_digit(c: char) -> bool {
    '0' <= c <= '9'
}

/// The value of a string of decimal digits.
pub open spec fn digits_value(s: Seq<char>) -> nat
    decreases s.len(),
{
    if s.len() == 0 {
        0
    } else {
        digits_value(s.drop_last()) * 10 + (s.last() as nat - 48) as nat
    }
}

/// The digits of a number, after the '+' that may come before them.
pub open spec fn unsigned_digits(s: Seq<char>) -> Seq<char> {
    if s.len() >= 2 && s[0] == '+' {
        s.drop_first()
    } else {
        s
    }
}

/// Whether every character of `s` is a decimal digit.
pub open spec fn all_digits(s: Seq<char>) -> bool {
    forall|i: int| 0 <= i < s.len() ==> is_digit(#[trigger] s[i])
}

/// What `usize::from_str` accepts: an optional '+' and then one or more
/// decimal digits; the value, before the check that it fits.
pub open spec fn parse_unsigned(s: Seq<char>) -> Option<nat> {
    let digits = unsigned_digits(s);
    if digits.len() > 0 && all_digits(digits) {
        Some(digits_value(digits))
    } else {
        None
    }
}

/// The whole seconds of `/proc/uptime`: what comes before its first '.',
/// parsed as a `usize`; 0 where there is no '.' or the number does not
/// parse or fit.
pub open spec fn spec_uptime(contents: Seq<char>) -> nat {
    let field = match first_dot(contents) {
        Some(i) => contents.take(i),
        None => Seq::<char>::empty(),
    };
    match parse_unsigned(field) {
        Some(v) => if v <= usize::MAX {
            v
        } else {
            0
        },
        None => 0,
    }
}

/// Appending digits never makes the value smaller.
proof fn lemma_digits_value_grows(s: Seq<char>, k: int)
    requires
        0 <= k <= s.len(),
    ensures
        digits_value(s.take(k)) <= digits_value(s),
    decreases s.len() - k,
{
    if k < s.len() {
        lemma_digits_value_grows(s, k + 1);
        assert(s.take(k + 1).drop_last() =~= s.take(k));
    } else {
        assert(s.take(k) =~= s);
    }
}

/// Whether a file name's extension is "jpg" in any case, as
/// `Path::extension` and `eq_ignore_ascii_case` decide.
pub fn has_jpg_extension(name: &[u8]) -> (r: bool)
    ensures
        r == is_jpg_name(name@),
{
    let n = name.len();
    if n == 2 && name[0] == 46 && name[1] == 46 {
        assert(name@ =~= seq![46u8, 46u8]);
        return false;
    }
    assert(name@ != seq![46u8, 46u8]);
    let mut i = n;
    assert(name@.take(n as int) =~= name@);
    while i > 0 && name[i - 1] != 46
        invariant
            i <= n,
            n == name@.len(),
            last_dot(name@) == last_dot(name@.take(i as int)),
        decreases i,
    {
        assert(name@.take(i as int).drop_last() =~= name@.take(i - 1));
        i = i - 1;
    }
    if i == 0 {
        assert(name@.take(0) =~= Seq::<u8>::empty());
        return false;
    }
    assert(last_dot(name@.take(i as int)) == Some(i - 1));
    if i == 1 {
        return false;
    }
    if n - i != 3 {
        return false;
    }
    let lower = |b: u8| -> (r: u8)
        ensures
            r == ascii_lower(b),
        { if 65 <= b && b <= 90 { b + 32 } else { b } };
    lower(name[i]) == 106 && lower(name[i + 1]) == 112 && lower(name[i + 2]) == 103
}

/// The size of a listing's JPEG files and how many there are: (0, 0) where
/// the directory could not be listed or a JPEG's size could not be read.
pub fn file_info(listing: &Option<Vec<DirEntryInfo>>) -> (r: (u64, u32))
    requires
        listing matches Some(entries) ==> summaries_fit(listing_view(entries@)),
    ensures
        r == match listing {
            None => (0u64, 0u32),
            Some(entries) => match jpg_summary(listing_view(entries@)) {
                Some((total, count)) => (total as u64, count as u32),
                None => (0u64, 0u32),
            },
        },
{
    match listing {
        None => (0, 0),
        Some(entries) => {
            let ghost view = listing_view(entries@);
            let mut total: u64 = 0;
            let mut count: u32 = 0;
            let n = entries.len();
            assert(view.take(0) =~= Seq::<(Seq<u8>, Option<u64>)>::empty());
            for i in 0..n
                invariant
                    n == entries@.len(),
                    view == listing_view(entries@),
                    listing matches Some(e) && e@ == entries@,
                    summaries_fit(view),
                    jpg_summary(view.take(i as int)) == Some((total as nat, count as nat)),
            {
                assert(view.take(i + 1).drop_last() =~= view.take(i as int));
                assert(view.take(i + 1).last() == view[i as int]);
                let entry = &entries[i];
                assert(view[i as int] == entry@);
                if has_jpg_extension(entry.file_name.as_slice()) {
                    match entry.size {
                        Some(size) => {
                            assert(jpg_summary(view.take(i + 1)) == Some(
                                ((total + size) as nat, (count + 1) as nat),
                            ));
                            total = total + size;
                            count = count + 1;
                        },
                        None => {
                            proof {
                                lemma_summary_none_extends(view, i + 1);
                            }
                            return (0, 0);
                        },
                    }
                }
            }
            assert(view.take(n as int) =~= view);
            (total, count)
        },
    }
}

/// The Pi's address as read from its file, trimmed; "N/A" where the file
/// could not be read or holds at most one byte.
pub fn ip_address(contents: Option<String>) -> (r: String)
    ensures
        r@ == spec_ip_address(
            match contents {
                Some(s) => Some(s@),
                None => None,
            },
        ),
{
    proof {
        reveal_strlit("N/A");
    }
    let na = String::from_str("N/A");
    let ip = match contents {
        Some(s) => s,
        None => na.clone(),
    };
    if ip.as_str().len() > 1 {
        trim_string(ip.as_str())
    } else {
        na
    }
}

/// The seconds since boot, from the text of `/proc/uptime`; 0 where it
/// could not be read.
pub fn uptime_seconds(contents: Option<String>) -> (r: usize)
    ensures
        r == match contents {
            Some(s) => spec_uptime(s@),
            None => spec_uptime(Seq::<char>::empty()),
        },
{
    let text = match contents {
        Some(s) => s,
        None => String::new(),
    };
    uptime_of(text.as_str())
}

/// The whole seconds in the text of `/proc/uptime`.
fn uptime_of(s: &str) -> (r: usize)
    ensures
        r == spec_uptime(s@),
{
    let n = s.unicode_len();
    let mut dot: usize = 0;
    while dot < n && s.get_char(dot) != '.'
        invariant
            dot <= n,
            n == s@.len(),
            forall|j: int| 0 <= j < dot ==> s@[j] != '.',
        decreases n - dot,
    {
        dot = dot + 1;
    }
    proof {
        lemma_first_dot(s@, dot as int);
    }
    if dot == n {
        assert(parse_unsigned(Seq::<char>::empty()) is None);
        return 0;
    }
    let ghost field = s@.take(dot as int);
    // An optional '+' before the digits.
    let start: usize = if dot >= 2 && s.get_char(0) == '+' {
        1
    } else {
        0
    };
    let ghost digits = field.subrange(start as int, dot as int);
    assert(digits =~= unsigned_digits(field));
    if start == dot {
        assert(digits.len() == 0);
        return 0;
    }
    let mut value: usize = 0;
    let mut i = start;
    while i < dot
        invariant
            start <= i <= dot,
            dot < n,
            n == s@.len(),
            field == s@.take(dot as int),
            digits == field.subrange(start as int, dot as int),
            forall|j: int| start <= j < i ==> is_digit(s@[j]),
            first_dot(s@) == Some(dot as int),
            digits == unsigned_digits(field),
            value == digits_value(field.subrange(start as int, i as int)),
        decreases dot - i,
    {
        let c = s.get_char(i);
        assert(field.subrange(start as int, i + 1).drop_last() =~= field.subrange(
            start as int,
            i as int,
        ));
        if !('0' <= c && c <= '9') {
            assert(!is_digit(digits[i - start]));
            assert(!all_digits(digits));
            return 0;
        }
        let d = (c as u32 - 48) as usize;
        match value.checked_mul(10) {
            Some(m) => match m.checked_add(d) {
                Some(v) => {
                    value = v;
                },
                None => {
                    proof {
                        lemma_digits_value_grows(digits, i + 1 - start);
                        assert(digits.take(i + 1 - start) =~= field.subrange(start as int, i + 1));
                    }
                    return 0;
                },
            },
            None => {
                proof {
                    lemma_digits_value_grows(digits, i + 1 - start);
                    assert(digits.take(i + 1 - start) =~= field.subrange(start as int, i + 1));
                }
                return 0;
            },
        }
        i = i + 1;
    }
    assert(field.subrange(start as int, dot as int) =~= digits);
    value
}

/// `first_dot` finds the first '.', at `dot`, or none where `dot` is the
/// length.
proof fn lemma_first_dot(s: Seq<char>, dot: int)
    requires
        0 <= dot <= s.len(),
        forall|j: int| 0 <= j < dot ==> s[j] != '.',
        dot < s.len() ==> s[dot] == '.',
    ensures
        first_dot(s) == if dot < s.len() {
            Some(dot)
        } else {
            None::<int>
        },
    decreases dot,
{
    if s.len() > 0 && dot > 0 {
        lemma_first_dot(s.drop_first(), dot - 1);
    }
}

/// The digits of a decimal representation are all digits.
proof fn lemma_decimal_digits(n: nat)
    ensures
        all_digits(decimal(n)),
        digits_value(decimal(n)) == n,
        decimal(n).len() >= 1,
        is_digit(decimal(n)[0]),
    decreases n,
{
    let last = digit_char(n % 10);
    assert(last as nat == 48 + n % 10);
    assert((last as nat - 48) as nat == n % 10);
    if n < 10 {
        assert(decimal(n).drop_last() =~= Seq::<char>::empty());
        assert(n % 10 == n);
        assert(decimal(n).last() == last);
        assert(digits_value(decimal(n).drop_last()) == 0);
    } else {
        lemma_decimal_digits(n / 10);
        let d = decimal(n);
        assert(d.drop_last() =~= decimal(n / 10));
        assert(d.last() == last);
        assert(n == (n / 10) * 10 + n % 10) by (nonlinear_arith);
        assert(digits_value(d) == digits_value(d.drop_last()) * 10 + (d.last() as nat - 48) as nat);
        assert forall|i: int| 0 <= i < d.len() implies is_digit(#[trigger] d[i]) by {
            if i < d.len() - 1 {
                assert(d[i] == decimal(n / 10)[i]);
            }
        }
    }
}

/// Reading `/proc/uptime` undoes writing the seconds in decimal: whatever
/// follows the '.', the whole seconds come back, as long as they fit a
/// `usize`.
pub proof fn law_uptime_reads_decimal(seconds: nat, rest: Seq<char>)
    requires
        seconds <= usize::MAX,
    ensures
        spec_uptime(decimal(seconds) + seq!['.'] + rest) == seconds,
{
    let d = decimal(seconds);
    let text = d + seq!['.'] + rest;
    lemma_decimal_digits(seconds);
    assert forall|j: int| 0 <= j < d.len() implies text[j] != '.' by {
        assert(text[j] == d[j]);
        assert(is_digit(d[j]));
    }
    assert(text[d.len() as int] == '.');
    lemma_first_dot(text, d.len() as int);
    assert(text.take(d.len() as int) =~= d);
    assert(unsigned_digits(d) == d);
}

/// Facts about the Pi: uptime, version, address, how long the application
/// and the connection have been up, and the stored photos.
pub struct SysInfo {
    pub uptime: usize,
    pub version: String,
    pub internal_ip: String,
    pub app_uptime: u64,
    pub websocket_uptime: u64,
    pub total_file_size: u64,
    pub number_images: u32,
}

impl SysInfo {
    /// The facts from what was read: the listing of the images directory,
    /// the texts of the address file and of `/proc/uptime` (`None` where
    /// unreadable), the seconds since the connection and the application
    /// started, and the application's version.
    pub fn new(
        listing: &Option<Vec<DirEntryInfo>>,
        ip_contents: Option<String>,
        uptime_contents: Option<String>,
        websocket_uptime: u64,
        app_uptime: u64,
        version: &str,
    ) -> (r: Self)
        requires
            listing matches Some(entries) ==> summaries_fit(listing_view(entries@)),
        ensures
            (r.total_file_size, r.number_images) == match listing {
                None => (0u64, 0u32),
                Some(entries) => match jpg_summary(listing_view(entries@)) {
                    Some((total, count)) => (total as u64, count as u32),
                    None => (0u64, 0u32),
                },
            },
            r.internal_ip@ == spec_ip_address(
                match ip_contents {
                    Some(s) => Some(s@),
                    None => None,
                },
            ),
            r.uptime == match uptime_contents {
                Some(s) => spec_uptime(s@),
                None => spec_uptime(Seq::<char>::empty()),
            },
            r.websocket_uptime == websocket_uptime,
            r.app_uptime == app_uptime,
            r.version@ == version@,
    {
        let (total_file_size, number_images) = file_info(listing);
        SysInfo {
            total_file_size,
            number_images,
            internal_ip: ip_address(ip_contents),
            uptime: uptime_seconds(uptime_contents),
            websocket_uptime,
            app_uptime,
            version: String::from_str(version),
        }
    }
}

} // verus!
