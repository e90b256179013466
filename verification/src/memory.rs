//! The memory fact, rendered from kilobyte counts into one summary line.

use vstd::prelude::*;

use crate::error::NeofetchError;
use crate::error::Result;
use crate::size::human_seq;
use crate::size::human_size;
use crate::strutil::all_digits;
use crate::strutil::dec_seq;
use crate::strutil::dec_str_u64;
use crate::strutil::digits_val;
use crate::strutil::first_token;
use crate::strutil::parse_u64;
use crate::strutil::str_first_token;
use crate::utils::file::kv_lookup;
use crate::utils::file::kv_view;
use crate::utils::file::ProcMap;

verus! {

/// The used kilobytes: total minus free, and zero when free exceeds total.
pub open spec fn used_kb_of(total_kb: int, free_kb: int) -> int {
    if free_kb <= total_kb {
        total_kb - free_kb
    } else {
        0
    }
}

/// The memory line: used and total sizes in human-readable units.
pub open spec fn memory_seq(total_kb: int, free_kb: int) -> Seq<char> {
    human_seq(used_kb_of(total_kb, free_kb) * 1024) + " / "@ + human_seq(total_kb * 1024)
}

/// The memory line with a usage percentage appended: the whole part of
/// used over total, zero when the total is zero.
pub open spec fn memory_percent_of(total_kb: int, free_kb: int) -> int {
    if total_kb > 0 {
        100 * used_kb_of(total_kb, free_kb) / total_kb
    } else {
        0
    }
}

pub open spec fn memory_percent_seq(total_kb: int, free_kb: int) -> Seq<char> {
    memory_seq(total_kb, free_kb) + " ("@ + dec_seq(memory_percent_of(total_kb, free_kb)) + "%)"@
}

/// Renders the memory line from total and free kilobytes.
pub fn format_memory(total_kb: u64, free_kb: u64) -> (r: String)
    requires
        total_kb <= u64::MAX / 1024,
    ensures
        r@ == memory_seq(total_kb as int, free_kb as int),
{
    let used_kb: u64 = if free_kb <= total_kb {
        total_kb - free_kb
    } else {
        0
    };
    let mut r: String = human_size(used_kb * 1024);
    r.append(" / ");
    r.append(human_size(total_kb * 1024).as_str());
    proof {
        assert(r@ =~= memory_seq(total_kb as int, free_kb as int));
    }
    r
}

/// Renders the memory line with its usage percentage.
pub fn format_memory_percent(total_kb: u64, free_kb: u64) -> (r: String)
    requires
        total_kb <= u64::MAX / 1024,
    ensures
        r@ == memory_percent_seq(total_kb as int, free_kb as int),
{
    let used_kb: u64 = if free_kb <= total_kb {
        total_kb - free_kb
    } else {
        0
    };
    let p: u64 = if total_kb > 0 {
        let p128: u128 = 100 * (used_kb as u128) / (total_kb as u128);
        proof {
            let ui = used_kb as int;
            let ti = total_kb as int;
            assert(100 * ui / ti <= 100) by (nonlinear_arith)
                requires
                    ti >= 1,
                    0 <= ui <= ti,
            ;
            assert(p128 == 100 * ui / ti);
        }
        p128 as u64
    } else {
        0
    };
    let mut r: String = format_memory(total_kb, free_kb);
    r.append(" (");
    r.append(dec_str_u64(p).as_str());
    r.append("%)");
    proof {
        assert(r@ =~= memory_percent_seq(total_kb as int, free_kb as int));
    }
    r
}

/// The kilobyte count a meminfo entry names: the leading number of its
/// value, where it is a number that the arithmetic can scale.
pub open spec fn spec_kb(es: Seq<(Seq<char>, Seq<char>)>, key: Seq<char>) -> Option<int> {
    match kv_lookup(es, key) {
        Some(v) => {
            let tok = first_token(v);
            if tok.len() > 0 && all_digits(tok) && digits_val(tok) <= u64::MAX as int / 1024 {
                Some(digits_val(tok))
            } else {
                None
            }
        },
        None => None,
    }
}

/// Builds the memory line from a parsed meminfo file: total and free
/// kilobyte counts scaled to human-readable units. The error names the
/// entry that is missing or did not parse.
pub fn memory_from_meminfo(info: &ProcMap) -> (r: Result<String>)
    ensures
        match r {
            Ok(s) => spec_kb(kv_view(*info), "MemTotal"@) matches Some(t) && spec_kb(
                kv_view(*info),
                "MemFree"@,
            ) matches Some(f) && s@ == memory_seq(t, f),
            Err(_) => spec_kb(kv_view(*info), "MemTotal"@) is None || spec_kb(
                kv_view(*info),
                "MemFree"@,
            ) is None,
        },
{
    let total_kb: u64 = match info.get("MemTotal") {
        Some(v) => {
            let tok: &str = str_first_token(v.as_str());
            match parse_u64(tok) {
                Some(n) => if n <= u64::MAX / 1024 {
                    n
                } else {
                    return Err(NeofetchError::parse_error("MemTotal", "out of range"));
                },
                None => {
                    return Err(NeofetchError::parse_error("MemTotal", "invalid number"));
                },
            }
        },
        None => {
            return Err(NeofetchError::data_unavailable("MemTotal not found"));
        },
    };
    let free_kb: u64 = match info.get("MemFree") {
        Some(v) => {
            let tok: &str = str_first_token(v.as_str());
            match parse_u64(tok) {
                Some(n) => if n <= u64::MAX / 1024 {
                    n
                } else {
                    return Err(NeofetchError::parse_error("MemFree", "out of range"));
                },
                None => {
                    return Err(NeofetchError::parse_error("MemFree", "invalid number"));
                },
            }
        },
        None => {
            return Err(NeofetchError::data_unavailable("MemFree not found"));
        },
    };
    Ok(format_memory(total_kb, free_kb))
}

} // verus!
