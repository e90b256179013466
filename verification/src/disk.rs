//! The disk fact: a mounted filesystem's name and its used and total bytes.

use vstd::prelude::*;

use crate::size::human_seq;
use crate::size::human_size;
use crate::strutil::dec_seq;
use crate::strutil::dec_str_u64;

verus! {

/// One mounted filesystem. A disk whose total size is zero is suppressed by
/// the formatter rather than rendered.
#[derive(Debug, Clone)]
pub struct Disk {
    pub name: String,
    pub total: u64,
    pub used: u64,
}

/// The usage percentage, rounded to the nearest whole number with halves
/// up; zero when the total is zero, so that no division by zero can occur.
pub open spec fn percent_of(used: int, total: int) -> int {
    if total > 0 {
        (200 * used + total) / (2 * total)
    } else {
        0
    }
}

/// The line the formatter prints for a disk: used and total sizes in
/// human-readable units, and the usage percentage.
pub open spec fn disk_seq(used: int, total: int) -> Seq<char> {
    human_seq(used) + " / "@ + human_seq(total) + " ("@ + dec_seq(percent_of(used, total)) + "%)"@
}

/// Computes the usage percentage; never divides when the total is zero.
pub fn disk_percent(used: u64, total: u64) -> (p: u64)
    requires
        used <= total,
    ensures
        p == percent_of(used as int, total as int),
{
    if total == 0 {
        0
    } else {
        let p128: u128 = (200 * (used as u128) + (total as u128)) / (2 * (total as u128));
        proof {
            let ui = used as int;
            let ti = total as int;
            assert((200 * ui + ti) / (2 * ti) <= 100) by (nonlinear_arith)
                requires
                    0 <= ui <= ti,
                    ti >= 1,
            ;
            assert(p128 == (200 * ui + ti) / (2 * ti));
        }
        p128 as u64
    }
}

impl Disk {
    /// Renders the usage part of a disk line.
    pub fn render(&self) -> (r: String)
        requires
            self.used <= self.total,
        ensures
            r@ == disk_seq(self.used as int, self.total as int),
    {
        let mut r: String = human_size(self.used);
        r.append(" / ");
        r.append(human_size(self.total).as_str());
        r.append(" (");
        r.append(dec_str_u64(disk_percent(self.used, self.total)).as_str());
        r.append("%)");
        proof {
            assert(r@ =~= disk_seq(self.used as int, self.total as int));
        }
        r
    }
}

} // verus!
