use crate::datatypes::TimeUnit;
use vstd::prelude::*;
use vstd::string::StringSliceAdditionalSpecFns;

verus! {

/// The whole seconds of a timestamp in the given unit: Euclidean division,
/// so the remainder handed to the nanosecond part is never negative.
pub open spec fn ts_split_secs(x: i64, unit: TimeUnit) -> int {
    match unit {
        TimeUnit::Second => x as int,
        TimeUnit::Millisecond => (x as int) / 1000,
        TimeUnit::Microsecond => (x as int) / 1000000,
        TimeUnit::Nanosecond => (x as int) / 1000000000,
    }
}

/// The nanoseconds within the second of a timestamp in the given unit.
pub open spec fn ts_split_nsecs(x: i64, unit: TimeUnit) -> int {
    match unit {
        TimeUnit::Second => 0,
        TimeUnit::Millisecond => ((x as int) % 1000) * 1000000,
        TimeUnit::Microsecond => ((x as int) % 1000000) * 1000,
        TimeUnit::Nanosecond => (x as int) % 1000000000,
    }
}

/// Splits a timestamp into whole seconds and nanoseconds within the second.
pub fn timestamp_to_secs_nsecs(x: i64, unit: TimeUnit) -> (r: (i64, u32))
    ensures
        r.0 == ts_split_secs(x, unit),
        r.1 == ts_split_nsecs(x, unit),
        0 <= r.1 < 1000000000,
{
    match unit {
        TimeUnit::Second => (x, 0),
        TimeUnit::Millisecond => {
            let secs = match x.checked_div_euclid(1000) {
                Some(q) => q,
                None => {
                    proof {
                        assert(false);
                    }
                    0
                },
            };
            let rem = match x.checked_rem_euclid(1000) {
                Some(m) => m,
                None => {
                    proof {
                        assert(false);
                    }
                    0
                },
            };
            (secs, (rem as u32) * 1000000)
        },
        TimeUnit::Microsecond => {
            let secs = match x.checked_div_euclid(1000000) {
                Some(q) => q,
                None => {
                    proof {
                        assert(false);
                    }
                    0
                },
            };
            let rem = match x.checked_rem_euclid(1000000) {
                Some(m) => m,
                None => {
                    proof {
                        assert(false);
                    }
                    0
                },
            };
            (secs, (rem as u32) * 1000)
        },
        TimeUnit::Nanosecond => {
            let secs = match x.checked_div_euclid(1000000000) {
                Some(q) => q,
                None => {
                    proof {
                        assert(false);
                    }
                    0
                },
            };
            let rem = match x.checked_rem_euclid(1000000000) {
                Some(m) => m,
                None => {
                    proof {
                        assert(false);
                    }
                    0
                },
            };
            (secs, rem as u32)
        },
    }
}

/// The offset in seconds that a fixed-offset time zone string of the shape
/// `+HH:MM` or `-HH:MM` denotes, where the hours are below 24 and the
/// minutes below 60; anything else denotes nothing.
pub open spec fn fixed_offset_spec(bytes: Seq<u8>) -> Option<int> {
    if bytes.len() == 6 && (bytes[0] == 43 || bytes[0] == 45) && is_digit(bytes[1]) && is_digit(
        bytes[2],
    ) && bytes[3] == 58 && is_digit(bytes[4]) && is_digit(bytes[5]) {
        let hours = (bytes[1] - 48) * 10 + (bytes[2] - 48);
        let minutes = (bytes[4] - 48) * 10 + (bytes[5] - 48);
        if hours < 24 && minutes < 60 {
            let total = hours * 3600 + minutes * 60;
            if bytes[0] == 43 {
                Some(total)
            } else {
                Some(-total)
            }
        } else {
            None
        }
    } else {
        None
    }
}

pub open spec fn is_digit(b: u8) -> bool {
    48 <= b <= 57
}

/// Parses a fixed-offset time zone string of the shape `+HH:MM` / `-HH:MM`
/// into its offset in seconds east of UTC.
pub fn parse_fixed_offset(tz: &str) -> (r: Option<i32>)
    ensures
        match r {
            Some(o) => fixed_offset_spec(tz.spec_bytes()) == Some(o as int) && -86400 < o < 86400,
            None => fixed_offset_spec(tz.spec_bytes()) is None,
        },
{
    let b = tz.as_bytes();
    if b.len() != 6 {
        return None;
    }
    let sign = b[0];
    if sign != 43 && sign != 45 {
        return None;
    }
    let h1 = b[1];
    let h2 = b[2];
    let m1 = b[4];
    let m2 = b[5];
    if b[3] != 58 {
        return None;
    }
    if h1 < 48 || h1 > 57 || h2 < 48 || h2 > 57 || m1 < 48 || m1 > 57 || m2 < 48 || m2 > 57 {
        return None;
    }
    let hours: i32 = (h1 - 48) as i32 * 10 + (h2 - 48) as i32;
    let minutes: i32 = (m1 - 48) as i32 * 10 + (m2 - 48) as i32;
    if hours >= 24 || minutes >= 60 {
        return None;
    }
    let total = hours * 3600 + minutes * 60;
    if sign == 43 {
        Some(total)
    } else {
        Some(-total)
    }
}

/// The textual form of a timestamp rendered without a zone, as chrono's
/// `NaiveDateTime` displays it; nothing where the instant is out of chrono's
/// range. A function of the seconds and nanoseconds alone.
pub uninterp spec fn naive_datetime_utf8(secs: i64, nsecs: u32) -> Option<Seq<u8>>;

/// Relies on chrono's `DateTime::from_timestamp`, `naive_utc` and the
/// `Display` of `NaiveDateTime`: the rendering depends on the instant alone,
/// and is absent exactly when chrono cannot represent the instant.
#[verifier::external_body]
pub(crate) fn render_naive(secs: i64, nsecs: u32) -> (r: Option<Vec<u8>>)
    ensures
        match r {
            Some(b) => naive_datetime_utf8(secs, nsecs) == Some(b@),
            None => naive_datetime_utf8(secs, nsecs) is None,
        },
{
    chrono::DateTime::from_timestamp(secs, nsecs).map(|d| d.naive_utc().to_string().into_bytes())
}

/// The textual form of a timestamp in a fixed-offset zone, in RFC 3339 form,
/// as chrono renders it; nothing where the instant or offset is out of
/// chrono's range. A function of the instant and the offset alone.
pub uninterp spec fn rfc3339_fixed_utf8(secs: i64, nsecs: u32, offset_seconds: i32) -> Option<
    Seq<u8>,
>;

/// Relies on chrono's `DateTime::from_timestamp`, `FixedOffset::east_opt`
/// and `to_rfc3339`: the rendering depends on the instant and the offset
/// alone, and is absent exactly when chrono cannot represent them.
#[verifier::external_body]
pub(crate) fn render_fixed(secs: i64, nsecs: u32, offset_seconds: i32) -> (r: Option<Vec<u8>>)
    ensures
        match r {
            Some(b) => rfc3339_fixed_utf8(secs, nsecs, offset_seconds) == Some(b@),
            None => rfc3339_fixed_utf8(secs, nsecs, offset_seconds) is None,
        },
{
    let dt = chrono::DateTime::from_timestamp(secs, nsecs)?;
    let tz = chrono::FixedOffset::east_opt(offset_seconds)?;
    Some(dt.with_timezone(&tz).to_rfc3339().into_bytes())
}

/// Whether the zone database embedded in chrono-tz knows a zone by this
/// name. A function of the name alone.
pub uninterp spec fn tz_known(name: Seq<u8>) -> bool;

/// Relies on chrono-tz's `FromStr` for `Tz`: the lookup walks a table
/// compiled into the crate, so it depends on the name alone.
#[verifier::external_body]
pub(crate) fn tz_exists(name: &str) -> (r: bool)
    ensures
        r == tz_known(name.spec_bytes()),
{
    name.parse::<chrono_tz::Tz>().is_ok()
}

/// The textual form of a timestamp in a named geopolitical zone, in RFC 3339
/// form, as chrono-tz renders it; nothing where the name is unknown or the
/// instant out of range. A function of the instant and the name alone.
pub uninterp spec fn tz_rendered_utf8(secs: i64, nsecs: u32, name: Seq<u8>) -> Option<Seq<u8>>;

/// Relies on chrono-tz's `FromStr` for `Tz` and chrono's
/// `DateTime::from_timestamp`, `with_timezone` and `to_rfc3339`: the zone
/// database is compiled into the crate, so the rendering depends on the
/// instant and the name alone; it is absent when the name is unknown or the
/// instant out of range.
#[verifier::external_body]
pub(crate) fn render_tz(secs: i64, nsecs: u32, name: &str) -> (r: Option<Vec<u8>>)
    ensures
        match r {
            Some(b) => tz_rendered_utf8(secs, nsecs, name.spec_bytes()) == Some(b@) && tz_known(
                name.spec_bytes(),
            ),
            None => tz_rendered_utf8(secs, nsecs, name.spec_bytes()) is None,
        },
{
    let tz: chrono_tz::Tz = match name.parse() {
        Ok(t) => t,
        Err(_) => return None,
    };
    let dt = chrono::DateTime::from_timestamp(secs, nsecs)?;
    Some(dt.with_timezone(&tz).to_rfc3339().into_bytes())
}

} // verus!
