use vstd::prelude::*;
use chrono::Timelike;
use crate::common::constants::SLOTS_PER_MINUTE;

verus! {

/// The character of six-bit code `ord` (1 to 64) in the AIS alphabet
/// `@A..Z[\]^_ !"#..?`: codes 1 to 32 are `@` to `_`, codes 33 to 64 are ` ` to `?`.
pub open spec fn sixbit_char(ord: u8) -> char {
    if ord <= 32 {
        ((ord + 63) as u8) as char
    } else {
        ((ord - 1) as u8) as char
    }
}

/// The six-bit code of the byte `b`: its position, counted from 1, in the
/// AIS alphabet; 1 (the code of `@`) for a byte outside it.
pub open spec fn sixbit_ord(b: u8) -> u8 {
    if 64 <= b <= 95 {
        (b - 63) as u8
    } else if 32 <= b <= 63 {
        (b + 1) as u8
    } else {
        1
    }
}

/// The low byte of a character's code point.
pub open spec fn low_byte(c: char) -> u8 {
    ((c as u32) % 256) as u8
}

/// The character of six-bit code `ord`.
pub fn char6(ord: u8) -> (r: char)
    requires
        1 <= ord <= 64,
    ensures
        r == sixbit_char(ord),
{
    let b: u8 = if ord <= 32 {
        ord + 63
    } else {
        ord - 1
    };
    b as char
}

/// The six-bit code of a character, read from the low byte of its code point.
pub fn ord6(chr: char) -> (r: u8)
    ensures
        r == sixbit_ord(low_byte(chr)),
        1 <= r <= 64,
{
    let b: u8 = ((chr as u32) % 256) as u8;
    if 64 <= b && b <= 95 {
        b - 63
    } else if 32 <= b && b <= 63 {
        b + 1
    } else {
        1
    }
}

/// ASCII upper case of a character; any other character is left as it is.
pub open spec fn ascii_upper(c: char) -> char {
    if 'a' <= c <= 'z' {
        ((c as u32) - 32) as char
    } else {
        c
    }
}

/// ASCII upper case of a character: `a`..=`z` become `A`..=`Z`, every other
/// character is left as it is.
pub fn to_ascii_upper(c: char) -> (r: char)
    ensures
        r == ascii_upper(c),
{
    if 'a' <= c && c <= 'z' {
        let code: u32 = c as u32;
        let upper: u8 = (code - 32) as u8;
        upper as char
    } else {
        c
    }
}

/// `String::push` of std: appends one character.
#[verifier::external_body]
pub(crate) fn push_char(s: &mut String, c: char)
    ensures
        final(s)@ == old(s)@.push(c),
{
    s.push(c)
}

/// The local date and time, as the fields that the platform reads of it.
#[derive(Debug, Clone, Copy, PartialEq, Eq, Structural)]
pub struct LocalDateTime {
    /// Hour of the day, 0 to 23.
    pub hour: u32,
    /// Minute of the hour, 0 to 59.
    pub minute: u32,
    /// Second of the minute, 0 to 59.
    pub second: u32,
    /// Nanoseconds since the whole second; 1,000,000,000 and above during a leap second.
    pub nanosecond: u32,
    /// Seconds since the Unix epoch.
    pub timestamp: i64,
}

/// A local time as chrono reports it: hour, minute and second in range, the
/// nanoseconds below two seconds' worth.
pub open spec fn valid_time(dt: LocalDateTime) -> bool {
    &&& dt.hour < 24
    &&& dt.minute < 60
    &&& dt.second < 60
    &&& dt.nanosecond < 2_000_000_000
}

/// std's system time, which the contracts carry through.
#[verifier::external_type_specification]
#[verifier::external_body]
pub struct ExSystemTime(std::time::SystemTime);

/// std's `SystemTime::now`: the system clock's reading. Nothing is claimed
/// of it.
#[verifier::external_body]
fn system_time_now() -> (r: std::time::SystemTime) {
    std::time::SystemTime::now()
}

/// std's `SystemTime::duration_since` from `UNIX_EPOCH`, as the whole
/// seconds and the nanoseconds past them (`Duration::as_secs` and
/// `subsec_nanos`): `None` when `t` lies before the epoch, which is the
/// error std returns. std documents the nanoseconds as below one second.
#[verifier::external_body]
fn since_unix_epoch(t: std::time::SystemTime) -> (r: Option<(u64, u32)>)
    ensures
        r matches Some(d) ==> d.1 < 1_000_000_000,
{
    match t.duration_since(std::time::UNIX_EPOCH) {
        Ok(d) => Some((d.as_secs(), d.subsec_nanos())),
        Err(_) => None,
    }
}

/// The local time `secs` seconds and `nanos` nanoseconds after the Unix
/// epoch: chrono's `DateTime::from_timestamp` (`None` for an instant outside
/// chrono's calendar), moved to the machine's time zone by
/// `with_timezone(&Local)` and read through its `Timelike` accessors and
/// `timestamp`. What is claimed is the ranges that chrono documents for the
/// accessors, and that the timestamp is `secs`, a change of time zone
/// keeping the instant; the hour and minute depend on the machine's time
/// zone, of which nothing is said. chrono reads the time-zone data of the
/// machine (the `TZ` variable, else `/etc/localtime`, else UTC) and stops
/// only when those data give an offset of a day or more, which is left
/// unsaid here.
#[verifier::external_body]
fn local_time_at(secs: i64, nanos: u32) -> (r: Option<LocalDateTime>)
    ensures
        r matches Some(dt) ==> valid_time(dt) && dt.timestamp == secs,
{
    match chrono::DateTime::from_timestamp(secs, nanos) {
        Some(utc) => {
            let now = utc.with_timezone(&chrono::Local);
            Some(
                LocalDateTime {
                    hour: now.hour(),
                    minute: now.minute(),
                    second: now.second(),
                    nanosecond: now.nanosecond(),
                    timestamp: now.timestamp(),
                },
            )
        },
        None => None,
    }
}

/// The current local time, from the system clock: `None` when the clock
/// cannot be read as a time after the Unix epoch that chrono can place.
pub fn get_current_dt() -> (r: Option<LocalDateTime>)
    ensures
        r matches Some(dt) ==> valid_time(dt),
{
    match since_unix_epoch(system_time_now()) {
        Some((secs, nanos)) => {
            if secs <= 0x7fff_ffff_ffff_ffff {
                local_time_at(secs as i64, nanos)
            } else {
                None
            }
        },
        None => None,
    }
}

/// Seconds since the Unix epoch of `datetime`, by default of now; `None`
/// only when no time is given and the clock cannot be read.
pub fn get_timestamp(datetime: Option<LocalDateTime>) -> (r: Option<i64>)
    ensures
        datetime matches Some(dt) ==> r == Some(dt.timestamp),
{
    match datetime {
        Some(dt) => Some(dt.timestamp),
        None => match get_current_dt() {
            Some(dt) => Some(dt.timestamp),
            None => None,
        },
    }
}

/// Whether two texts hold the same characters.
pub fn str_eq(a: &str, b: &str) -> (r: bool)
    ensures
        r == (a@ == b@),
{
    let n = a.unicode_len();
    let m = b.unicode_len();
    if n != m {
        return false;
    }
    let mut i: usize = 0;
    while i < n
        invariant
            n == a@.len(),
            m == b@.len(),
            n == m,
            i <= n,
            forall|k: int| 0 <= k < i ==> a@[k] == b@[k],
        decreases n - i,
    {
        if a.get_char(i) != b.get_char(i) {
            return false;
        }
        i = i + 1;
    }
    assert(a@ =~= b@);
    true
}

/// The slot of the minute that a time falls in: `3 * ns / 80_000_000` where
/// `ns` counts the nanoseconds since the start of the minute, at most 2249.
pub open spec fn slot_of_time(dt: LocalDateTime) -> u16 {
    let ns = dt.second as int * 1_000_000_000 + dt.nanosecond as int;
    let si = ((ns * 3) / 80_000_000) as u16;
    if si < 2249 {
        si
    } else {
        2249
    }
}

/// The time's slot fits in the arithmetic.
pub open spec fn slot_time_in_range(dt: LocalDateTime) -> bool {
    (dt.second as int * 1_000_000_000 + dt.nanosecond as int) * 3 <= u64::MAX
}

/// The slot of `datetime` (by default of now) on each channel: its slot of
/// the minute, and the same plus 2250; `None` only when no time is given and
/// the clock cannot be read.
pub fn dt_to_slots_idx(datetime: Option<LocalDateTime>) -> (r: Option<[u16; 2]>)
    requires
        datetime matches Some(dt) ==> slot_time_in_range(dt),
    ensures
        datetime matches Some(dt) ==> r matches Some(a) && a@[0] == slot_of_time(dt),
        r matches Some(a) ==> a@[0] < SLOTS_PER_MINUTE && a@[1] == a@[0] + SLOTS_PER_MINUTE,
{
    let dt = match datetime {
        Some(dt) => dt,
        None => match get_current_dt() {
            Some(dt) => dt,
            None => return None,
        },
    };
    let ns_since_min_start: u64 = (dt.second as u64 * 1_000_000_000) + dt.nanosecond as u64;
    let si: u16 = ((ns_since_min_start * 3) / 80_000_000) as u16;
    let si: u16 = if si < SLOTS_PER_MINUTE - 1 {
        si
    } else {
        SLOTS_PER_MINUTE - 1
    };
    Some([si, si + SLOTS_PER_MINUTE])
}

} // verus!
