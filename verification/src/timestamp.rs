//! Points in time, and the rules by which each container's raw creation time
//! becomes one.

use vstd::prelude::*;

verus! {

/// Nanoseconds in one second.
pub const NANOS_PER_SECOND: i128 = 1_000_000_000;

/// 1904-01-01T00:00:00Z, the instant from which MP4 counts, in seconds since
/// 1970-01-01T00:00:00Z: sixty-six years earlier, seventeen of them leap years.
pub const MP4_EPOCH_UNIX_SECONDS: i128 = -(66 * 365 + 17) * 86_400;

/// 2001-01-01T00:00:00Z, the instant from which Matroska counts, in seconds
/// since 1970-01-01T00:00:00Z: thirty-one years later, eight of them leap years.
pub const MKV_EPOCH_UNIX_SECONDS: i128 = (31 * 365 + 8) * 86_400;

/// An absolute point in time, as nanoseconds since 1970-01-01T00:00:00Z.
///
/// Every value is a valid instant; the range is wide enough for every raw time
/// that a container can hold.
#[derive(Clone, Copy, Debug, PartialEq, Eq, Structural)]
pub struct Timestamp {
    pub unix_nanos: i128,
}

impl View for Timestamp {
    type V = int;

    /// Nanoseconds since 1970-01-01T00:00:00Z.
    open spec fn view(&self) -> int {
        self.unix_nanos as int
    }
}

/// The instant that lies `seconds` whole seconds and `nanos` nanoseconds after
/// 1970-01-01T00:00:00Z, in nanoseconds.
pub open spec fn unix_time_nanos(seconds: int, nanos: int) -> int {
    seconds * 1_000_000_000 + nanos
}

/// The number of days from 1970-01-01 to a day of the Gregorian calendar,
/// negative for a day before it.
pub open spec fn days_from_civil(year: int, month: int, day: int) -> int {
    // The year is taken to begin in March, so that the leap day comes last.
    let y = if month <= 2 {
        year - 1
    } else {
        year
    };
    let era = y / 400;
    let year_of_era = y - era * 400;
    let month_from_march = (month + 9) % 12;
    let day_of_year = (153 * month_from_march + 2) / 5 + day - 1;
    let day_of_era = year_of_era * 365 + year_of_era / 4 - year_of_era / 100 + day_of_year;
    era * 146_097 + day_of_era - 719_468
}

/// The instant of a date and time of day in UTC, in seconds since
/// 1970-01-01T00:00:00Z.
pub open spec fn civil_unix_seconds(
    year: int,
    month: int,
    day: int,
    hour: int,
    minute: int,
    second: int,
) -> int {
    days_from_civil(year, month, day) * 86_400 + hour * 3_600 + minute * 60 + second
}

/// What an MP4 movie header's creation time stands for: nothing where it is
/// zero, else that many seconds after 1904-01-01T00:00:00Z.
pub open spec fn mp4_time(raw: u64) -> Option<Timestamp> {
    if raw == 0 {
        None
    } else {
        Some(
            Timestamp {
                unix_nanos: ((MP4_EPOCH_UNIX_SECONDS + raw) * NANOS_PER_SECOND) as i128,
            },
        )
    }
}

/// What a Matroska segment's date stands for: that many nanoseconds after (or,
/// where negative, before) 2001-01-01T00:00:00Z.
pub open spec fn mkv_time(raw: i64) -> Timestamp {
    Timestamp { unix_nanos: (MKV_EPOCH_UNIX_SECONDS * NANOS_PER_SECOND + raw) as i128 }
}

impl Timestamp {
    /// The instant `seconds` seconds and `nanos` nanoseconds after
    /// 1970-01-01T00:00:00Z. `nanos` may exceed one second; it is carried.
    pub fn from_unix_time(seconds: i64, nanos: u32) -> (t: Timestamp)
        ensures
            t@ == unix_time_nanos(seconds as int, nanos as int),
    {
        let whole: i128 = seconds as i128;
        let part: i128 = nanos as i128;
        Timestamp { unix_nanos: whole * NANOS_PER_SECOND + part }
    }

    /// Splits the instant into whole seconds since 1970-01-01T00:00:00Z, rounded
    /// down, and the nanoseconds that remain. `None` where the seconds do not
    /// fit in an `i64`.
    pub fn unix_time(&self) -> (parts: Option<(i64, u32)>)
        ensures
            match parts {
                Some((seconds, nanos)) => {
                    &&& nanos < 1_000_000_000
                    &&& self@ == unix_time_nanos(seconds as int, nanos as int)
                },
                None => {
                    ||| self@ < i64::MIN * 1_000_000_000
                    ||| self@ >= (i64::MAX + 1) * 1_000_000_000
                },
            },
    {
        let n: i128 = self.unix_nanos;
        let lowest: i128 = (i64::MIN as i128) * NANOS_PER_SECOND;
        let beyond: i128 = (i64::MAX as i128 + 1) * NANOS_PER_SECOND;
        if n < lowest || n >= beyond {
            return None;
        }
        if n >= 0 {
            let seconds: i128 = n / NANOS_PER_SECOND;
            let nanos: i128 = n % NANOS_PER_SECOND;
            Some((seconds as i64, nanos as u32))
        } else {
            let below: i128 = -(n + 1);
            let seconds: i128 = -(below / NANOS_PER_SECOND) - 1;
            let nanos: i128 = NANOS_PER_SECOND - 1 - below % NANOS_PER_SECOND;
            Some((seconds as i64, nanos as u32))
        }
    }
}

/// Decodes the creation time of an MP4 movie header.
pub fn convert_mp4_time(mp4_time: u64) -> (date: Option<Timestamp>)
    ensures
        date == self::mp4_time(mp4_time),
        mp4_time == 0 ==> date is None,
        mp4_time > 0 ==> date is Some && date->0@ == (MP4_EPOCH_UNIX_SECONDS + mp4_time)
            * 1_000_000_000,
{
    if mp4_time == 0 {
        return None;
    }
    let seconds: i128 = MP4_EPOCH_UNIX_SECONDS + mp4_time as i128;
    Some(Timestamp { unix_nanos: seconds * NANOS_PER_SECOND })
}

/// Decodes the date of a Matroska segment.
pub fn convert_mkv_time(mkv_time: i64) -> (date: Timestamp)
    ensures
        date == self::mkv_time(mkv_time),
        date@ == MKV_EPOCH_UNIX_SECONDS * 1_000_000_000 + mkv_time,
{
    Timestamp { unix_nanos: MKV_EPOCH_UNIX_SECONDS * NANOS_PER_SECOND + mkv_time as i128 }
}

/// The two constants are the instants that their names say, by the calendar.
pub proof fn epochs_by_the_calendar()
    ensures
        civil_unix_seconds(1970, 1, 1, 0, 0, 0) == 0,
        civil_unix_seconds(1904, 1, 1, 0, 0, 0) == MP4_EPOCH_UNIX_SECONDS,
        civil_unix_seconds(2001, 1, 1, 0, 0, 0) == MKV_EPOCH_UNIX_SECONDS,
{
}

/// An MP4 creation time other than zero is the instant that many seconds
/// after the first second of 1904; zero is no instant.
pub proof fn mp4_time_counts_from_1904(raw: u64)
    ensures
        raw == 0 <==> mp4_time(raw) is None,
        raw > 0 ==> mp4_time(raw)->0@ == (civil_unix_seconds(1904, 1, 1, 0, 0, 0) + raw)
            * 1_000_000_000,
{
}

/// A Matroska date is the instant that many nanoseconds after the first second
/// of 2001.
pub proof fn mkv_time_counts_from_2001(raw: i64)
    ensures
        mkv_time(raw)@ == civil_unix_seconds(2001, 1, 1, 0, 0, 0) * 1_000_000_000 + raw,
{
}

} // verus!
