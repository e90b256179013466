//! Uptime: a number of seconds and its tiered human-readable rendering.

use vstd::prelude::*;

use crate::strutil::dec_seq;
use crate::strutil::dec_str_u64;

verus! {

pub const ONE_MINUTE: u64 = 60;

pub const ONE_HOUR: u64 = 3600;

pub const ONE_DAY: u64 = 86400;

/// A duration in whole seconds.
#[derive(Debug, Clone, Copy, PartialEq, Eq, Structural)]
pub struct Time(pub u64);

/// A count with its unit word, pluralized only above one: `0 sec`, `1 sec`,
/// `2 secs`.
pub open spec fn with_unit_seq(n: int, unit: Seq<char>) -> Seq<char> {
    dec_seq(n) + " "@ + unit + if n > 1 {
        "s"@
    } else {
        Seq::empty()
    }
}

/// The tiered rendering of an uptime of `t` seconds. Under a minute only
/// seconds show; under an hour, minutes and seconds; under a day, hours,
/// minutes and seconds; from a day on, days, hours and minutes — the
/// seconds are deliberately dropped in the day tier.
pub open spec fn time_seq(t: int) -> Seq<char> {
    if t < 60 {
        with_unit_seq(t, "sec"@)
    } else if t < 3600 {
        with_unit_seq(t / 60, "min"@) + " "@ + with_unit_seq(t % 60, "sec"@)
    } else if t < 86400 {
        with_unit_seq(t / 3600, "hour"@) + ", "@ + with_unit_seq((t % 3600) / 60, "min"@) + ", "@
            + with_unit_seq(t % 60, "sec"@)
    } else {
        with_unit_seq(t / 86400, "day"@) + ", "@ + with_unit_seq((t % 86400) / 3600, "hour"@)
            + ", "@ + with_unit_seq((t % 3600) / 60, "min"@)
    }
}

fn with_unit(n: u64, unit: &str) -> (r: String)
    ensures
        r@ == with_unit_seq(n as int, unit@),
{
    let mut r: String = dec_str_u64(n);
    r.append(" ");
    r.append(unit);
    if n > 1 {
        r.append("s");
    }
    proof {
        assert(r@ =~= with_unit_seq(n as int, unit@));
    }
    r
}

impl Time {
    /// Renders the uptime in its tier, as the formatter prints it.
    pub fn render(&self) -> (r: String)
        ensures
            r@ == time_seq(self.0 as int),
    {
        let t: u64 = self.0;
        if t < ONE_MINUTE {
            with_unit(t, "sec")
        } else if t < ONE_HOUR {
            let mut r: String = with_unit(t / 60, "min");
            r.append(" ");
            r.append(with_unit(t % 60, "sec").as_str());
            proof {
                assert(r@ =~= time_seq(t as int));
            }
            r
        } else if t < ONE_DAY {
            let mut r: String = with_unit(t / 3600, "hour");
            r.append(", ");
            r.append(with_unit((t % 3600) / 60, "min").as_str());
            r.append(", ");
            r.append(with_unit(t % 60, "sec").as_str());
            proof {
                assert(r@ =~= time_seq(t as int));
            }
            r
        } else {
            let mut r: String = with_unit(t / 86400, "day");
            r.append(", ");
            r.append(with_unit((t % 86400) / 3600, "hour").as_str());
            r.append(", ");
            r.append(with_unit((t % 3600) / 60, "min").as_str());
            proof {
                assert(r@ =~= time_seq(t as int));
            }
            r
        }
    }
}

} // verus!
