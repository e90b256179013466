//! Boot-time arithmetic: the management interface reports the boot moment
//! as a packed civil datetime, which becomes a Unix timestamp and, against
//! the current time, an uptime.

use vstd::prelude::*;

use crate::error::NeofetchError;
use crate::error::Result;
use crate::strutil::all_digits;
use crate::strutil::digits_val;
use crate::strutil::find_from;
use crate::strutil::find_char;
use crate::strutil::parse_u64;
use crate::uptime::Time;

verus! {

/// Whether a year is a leap year in the proleptic Gregorian calendar.
pub open spec fn is_leap(y: int) -> bool {
    y % 4 == 0 && (y % 100 != 0 || y % 400 == 0)
}

/// The days of a month.
pub open spec fn days_in_month(y: int, m: int) -> int {
    if m == 2 {
        if is_leap(y) {
            29
        } else {
            28
        }
    } else if m == 4 || m == 6 || m == 9 || m == 11 {
        30
    } else {
        31
    }
}

/// Whether the fields name a real moment of a day in the supported years.
pub open spec fn valid_civil(y: int, mo: int, d: int, h: int, mi: int, s: int) -> bool {
    0 <= y <= 9999 && 1 <= mo <= 12 && 1 <= d <= days_in_month(y, mo) && 0 <= h < 24 && 0 <= mi
        < 60 && 0 <= s < 60
}

/// The days between the civil date and the Unix epoch, by era arithmetic
/// over the proleptic Gregorian calendar.
pub open spec fn days_from_civil(y: int, mo: int, d: int) -> int {
    let yy = if mo <= 2 {
        y - 1
    } else {
        y
    };
    let era = (if yy >= 0 {
        yy
    } else {
        yy - 399
    }) / 400;
    let yoe = yy - era * 400;
    let doy = (153 * (if mo > 2 {
        mo - 3
    } else {
        mo + 9
    }) + 2) / 5 + d - 1;
    let doe = yoe * 365 + yoe / 4 - yoe / 100 + doy;
    era * 146097 + doe - 719468
}

/// The Unix timestamp of a civil moment.
pub open spec fn unix_of(y: int, mo: int, d: int, h: int, mi: int, s: int) -> int {
    days_from_civil(y, mo, d) * 86400 + h * 3600 + mi * 60 + s
}

/// Relies on chrono's `NaiveDate::from_ymd_opt`, `NaiveDate::and_hms_opt`
/// and `DateTime::timestamp`: together they turn a civil moment of the
/// proleptic Gregorian calendar into its seconds since the Unix epoch, and
/// refuse exactly the field combinations that name no real moment.
#[verifier::external_body]
fn civil_to_unix(y: i32, mo: u32, d: u32, h: u32, mi: u32, s: u32) -> (r: Option<i64>)
    requires
        0 <= y <= 9999,
    ensures
        match r {
            Some(t) => valid_civil(y as int, mo as int, d as int, h as int, mi as int, s as int)
                && t == unix_of(y as int, mo as int, d as int, h as int, mi as int, s as int),
            None => !valid_civil(y as int, mo as int, d as int, h as int, mi as int, s as int),
        },
{
    match chrono::NaiveDate::from_ymd_opt(y, mo, d) {
        Some(date) => match date.and_hms_opt(h, mi, s) {
            Some(dt) => Some(dt.and_utc().timestamp()),
            None => None,
        },
        None => None,
    }
}

/// The value of a fixed-width digit field of `s`.
pub open spec fn field_val(s: Seq<char>, from: int, to: int) -> int {
    digits_val(s.subrange(from, to))
}

/// Whether the datetime part of a management timestamp is well formed: at
/// least fourteen digits before any dot, naming a valid civil moment.
pub open spec fn spec_boot_fields_ok(s: Seq<char>) -> bool {
    let dt = s.take(find_from(s, '.', 0));
    dt.len() >= 14 && all_digits(dt.take(14)) && valid_civil(
        field_val(dt, 0, 4),
        field_val(dt, 4, 6),
        field_val(dt, 6, 8),
        field_val(dt, 8, 10),
        field_val(dt, 10, 12),
        field_val(dt, 12, 14),
    )
}

/// The Unix timestamp a management timestamp's datetime part names.
pub open spec fn spec_boot_unix(s: Seq<char>) -> int {
    let dt = s.take(find_from(s, '.', 0));
    unix_of(
        field_val(dt, 0, 4),
        field_val(dt, 4, 6),
        field_val(dt, 6, 8),
        field_val(dt, 8, 10),
        field_val(dt, 10, 12),
        field_val(dt, 12, 14),
    )
}

fn parse_field(dt: &str, from: usize, to: usize) -> (r: Option<u64>)
    requires
        from < to <= dt@.len(),
        to - from <= 8,
    ensures
        match r {
            Some(v) => all_digits(dt@.subrange(from as int, to as int)) && v == field_val(
                dt@,
                from as int,
                to as int,
            ) && v < 100000000,
            None => !all_digits(dt@.subrange(from as int, to as int)),
        },
{
    let part: &str = dt.substring_char(from, to);
    proof {
        let sub = dt@.subrange(from as int, to as int);
        if all_digits(sub) {
            crate::strutil::lemma_digits_val_bound(sub);
            assert(crate::strutil::pow10(0) == 1);
            assert(crate::strutil::pow10(1) == 10);
            assert(crate::strutil::pow10(2) == 100);
            assert(crate::strutil::pow10(3) == 1000);
            assert(crate::strutil::pow10(4) == 10000);
            assert(crate::strutil::pow10(5) == 100000);
            assert(crate::strutil::pow10(6) == 1000000);
            assert(crate::strutil::pow10(7) == 10000000);
            assert(crate::strutil::pow10(8) == 100000000);
            if sub.len() < 8 {
                lemma_pow10_le(sub.len() as int, 8);
            }
            assert(digits_val(sub) < 100000000);
        }
    }
    parse_u64(part)
}

proof fn lemma_pow10_le(a: int, b: int)
    requires
        0 <= a <= b,
    ensures
        crate::strutil::pow10(a) <= crate::strutil::pow10(b),
    decreases b,
{
    if a < b {
        lemma_pow10_le(a, b - 1);
        assert(crate::strutil::pow10(b) == 10 * crate::strutil::pow10(b - 1));
        lemma_pow10_pos(b - 1);
    }
}

proof fn lemma_pow10_pos(n: int)
    ensures
        crate::strutil::pow10(n) >= 1,
    decreases n,
{
    if n > 0 {
        lemma_pow10_pos(n - 1);
    }
}

/// Turns a management timestamp into the Unix timestamp of its datetime
/// part: the packed `yyyymmddhhmmss` digits before the fractional dot. The
/// error names the length or the field combination that failed.
pub fn parse_wmi_datetime(datetime_str: &str) -> (r: Result<i64>)
    ensures
        match r {
            Ok(t) => spec_boot_fields_ok(datetime_str@) && t == spec_boot_unix(datetime_str@),
            Err(_) => !spec_boot_fields_ok(datetime_str@),
        },
{
    let len: usize = datetime_str.unicode_len();
    let cut: usize = match find_char(datetime_str, '.') {
        Some(i) => i,
        None => len,
    };
    let dt: &str = datetime_str.substring_char(0, cut);
    proof {
        assert(datetime_str@.subrange(0, cut as int) =~= datetime_str@.take(
            find_from(datetime_str@, '.', 0),
        ));
    }
    if cut < 14 {
        return Err(NeofetchError::parse_error("wmi_datetime", "insufficient length"));
    }
    let y: Option<u64> = parse_field(dt, 0, 4);
    let mo: Option<u64> = parse_field(dt, 4, 6);
    let d: Option<u64> = parse_field(dt, 6, 8);
    let h: Option<u64> = parse_field(dt, 8, 10);
    let mi: Option<u64> = parse_field(dt, 10, 12);
    let s: Option<u64> = parse_field(dt, 12, 14);
    match (y, mo, d, h, mi, s) {
        (Some(y), Some(mo), Some(d), Some(h), Some(mi), Some(s)) => {
            proof {
                crate::strutil::lemma_digits_val_bound(dt@.subrange(0, 4));
                assert(crate::strutil::pow10(0) == 1);
                assert(crate::strutil::pow10(1) == 10);
                assert(crate::strutil::pow10(2) == 100);
                assert(crate::strutil::pow10(3) == 1000);
                assert(crate::strutil::pow10(4) == 10000);
                assert(y < 10000);
                assert forall|k: int| 0 <= k < 14 implies crate::strutil::is_digit(
                    #[trigger] dt@.take(14)[k],
                ) by {
                    if k < 4 {
                        assert(dt@.subrange(0, 4)[k] == dt@.take(14)[k]);
                    } else if k < 6 {
                        assert(dt@.subrange(4, 6)[k - 4] == dt@.take(14)[k]);
                    } else if k < 8 {
                        assert(dt@.subrange(6, 8)[k - 6] == dt@.take(14)[k]);
                    } else if k < 10 {
                        assert(dt@.subrange(8, 10)[k - 8] == dt@.take(14)[k]);
                    } else if k < 12 {
                        assert(dt@.subrange(10, 12)[k - 10] == dt@.take(14)[k]);
                    } else {
                        assert(dt@.subrange(12, 14)[k - 12] == dt@.take(14)[k]);
                    }
                }
            }
            let res: Option<i64> = civil_to_unix(
                y as i32,
                mo as u32,
                d as u32,
                h as u32,
                mi as u32,
                s as u32,
            );
            proof {
                assert(all_digits(dt@.take(14)));
                assert(y == field_val(dt@, 0, 4));
                if res is Some {
                    assert(valid_civil(
                        field_val(dt@, 0, 4),
                        field_val(dt@, 4, 6),
                        field_val(dt@, 6, 8),
                        field_val(dt@, 8, 10),
                        field_val(dt@, 10, 12),
                        field_val(dt@, 12, 14),
                    ));
                    assert(spec_boot_fields_ok(datetime_str@));
                    assert(res->Some_0 == spec_boot_unix(datetime_str@));
                }
            }
            match res {
                Some(t) => Ok(t),
                None => {
                    proof {
                        assert(!spec_boot_fields_ok(datetime_str@));
                    }
                    Err(NeofetchError::parse_error("wmi_datetime", "invalid moment"))
                },
            }
        },
        _ => {
            proof {
                if all_digits(dt@.take(14)) {
                    assert forall|k: int| 0 <= k < 4 implies crate::strutil::is_digit(
                        #[trigger] dt@.subrange(0, 4)[k],
                    ) by {
                        assert(dt@.subrange(0, 4)[k] == dt@.take(14)[k]);
                    }
                    assert forall|k: int| 0 <= k < 2 implies crate::strutil::is_digit(
                        #[trigger] dt@.subrange(4, 6)[k],
                    ) by {
                        assert(dt@.subrange(4, 6)[k] == dt@.take(14)[k + 4]);
                    }
                    assert forall|k: int| 0 <= k < 2 implies crate::strutil::is_digit(
                        #[trigger] dt@.subrange(6, 8)[k],
                    ) by {
                        assert(dt@.subrange(6, 8)[k] == dt@.take(14)[k + 6]);
                    }
                    assert forall|k: int| 0 <= k < 2 implies crate::strutil::is_digit(
                        #[trigger] dt@.subrange(8, 10)[k],
                    ) by {
                        assert(dt@.subrange(8, 10)[k] == dt@.take(14)[k + 8]);
                    }
                    assert forall|k: int| 0 <= k < 2 implies crate::strutil::is_digit(
                        #[trigger] dt@.subrange(10, 12)[k],
                    ) by {
                        assert(dt@.subrange(10, 12)[k] == dt@.take(14)[k + 10]);
                    }
                    assert forall|k: int| 0 <= k < 2 implies crate::strutil::is_digit(
                        #[trigger] dt@.subrange(12, 14)[k],
                    ) by {
                        assert(dt@.subrange(12, 14)[k] == dt@.take(14)[k + 12]);
                    }
                    assert(false);
                }
            }
            Err(NeofetchError::parse_error("wmi_datetime", "invalid digits"))
        },
    }
}

/// The uptime that a current moment and a boot moment give: their distance
/// in seconds, and zero when the boot moment lies in the future.
pub open spec fn spec_uptime(now_unix: int, boot_unix: int) -> int {
    if now_unix >= boot_unix {
        now_unix - boot_unix
    } else {
        0
    }
}

/// Computes the uptime between a boot moment and the current moment.
pub fn uptime_from(now_unix: i64, boot_unix: i64) -> (t: Time)
    ensures
        t.0 == spec_uptime(now_unix as int, boot_unix as int),
{
    if now_unix >= boot_unix {
        let diff: i128 = (now_unix as i128) - (boot_unix as i128);
        proof {
            assert(0 <= diff <= u64::MAX);
        }
        Time(diff as u64)
    } else {
        Time(0)
    }
}

} // verus!
