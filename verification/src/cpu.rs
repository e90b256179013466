//! The processor fact: model name, core count, and clock speed.

use vstd::prelude::*;

use crate::error::NeofetchError;
use crate::error::Result;
use crate::strutil::all_digits;
use crate::strutil::dec_seq;
use crate::strutil::dec_str_u64;
use crate::strutil::digit_char;
use crate::strutil::digits_val;
use crate::strutil::find_from;
use crate::strutil::find_char;
use crate::strutil::parse_u32;
use crate::strutil::parse_u64;
use crate::utils::file::kv_lookup;
use crate::utils::file::kv_view;
use crate::utils::file::ProcMap;

verus! {

/// The processor fact. Speed is in MHz; zero means unknown, and an unknown
/// count or speed is left out of the rendering.
#[derive(Debug, Clone)]
pub struct Cpu {
    pub name: String,
    pub cores: u32,
    pub speed: u32,
}

/// A speed in MHz shown as GHz with two decimals, halves rounded up.
pub open spec fn ghz_seq(speed: int) -> Seq<char> {
    let h = (speed + 5) / 10;
    dec_seq(h / 100) + "."@ + seq![digit_char((h / 10) % 10), digit_char(h % 10)]
}

/// The line the formatter prints for a processor: the name, the core count
/// in parentheses when known, and the speed in GHz when known.
pub open spec fn cpu_seq(name: Seq<char>, cores: int, speed: int) -> Seq<char> {
    name + (if cores > 0 {
        " ("@ + dec_seq(cores) + ")"@
    } else {
        Seq::<char>::empty()
    }) + (if speed > 0 {
        " "@ + ghz_seq(speed) + " GHz"@
    } else {
        Seq::<char>::empty()
    })
}

fn digit_of(d: u64) -> (r: &'static str)
    requires
        d < 10,
    ensures
        r@ == seq![digit_char(d as int)],
{
    let r: &'static str = match d {
        0 => "0",
        1 => "1",
        2 => "2",
        3 => "3",
        4 => "4",
        5 => "5",
        6 => "6",
        7 => "7",
        8 => "8",
        _ => "9",
    };
    proof {
        reveal_strlit("0");
        reveal_strlit("1");
        reveal_strlit("2");
        reveal_strlit("3");
        reveal_strlit("4");
        reveal_strlit("5");
        reveal_strlit("6");
        reveal_strlit("7");
        reveal_strlit("8");
        reveal_strlit("9");
        assert(r@ =~= seq![digit_char(d as int)]);
    }
    r
}

impl Cpu {
    /// Renders the processor line.
    pub fn render(&self) -> (r: String)
        ensures
            r@ == cpu_seq(self.name@, self.cores as int, self.speed as int),
    {
        let mut r: String = String::new();
        r.append(self.name.as_str());
        if self.cores > 0 {
            r.append(" (");
            r.append(dec_str_u64(self.cores as u64).as_str());
            r.append(")");
        }
        if self.speed > 0 {
            let h: u64 = ((self.speed as u64) + 5) / 10;
            r.append(" ");
            r.append(dec_str_u64(h / 100).as_str());
            r.append(".");
            r.append(digit_of((h / 10) % 10));
            r.append(digit_of(h % 10));
            r.append(" GHz");
        }
        proof {
            assert(r@ =~= cpu_seq(self.name@, self.cores as int, self.speed as int));
        }
        r
    }
}

/// The model name a cpuinfo map gives: the model-name entry, or the
/// hardware entry when there is none.
pub open spec fn spec_cpu_name(es: Seq<(Seq<char>, Seq<char>)>) -> Option<Seq<char>> {
    match kv_lookup(es, "model name"@) {
        Some(v) => Some(v),
        None => kv_lookup(es, "Hardware"@),
    }
}

/// The speed in whole MHz that a frequency entry names: the digits before
/// any dot, clamped to the type's range; zero when the entry is missing or
/// does not look like a number.
pub open spec fn spec_cpu_speed(es: Seq<(Seq<char>, Seq<char>)>) -> int {
    match kv_lookup(es, "cpu MHz"@) {
        Some(v) => {
            let ip = v.take(find_from(v, '.', 0));
            let fp = v.skip(find_from(v, '.', 0) + 1);
            if ip.len() > 0 && all_digits(ip) && (find_from(v, '.', 0) == v.len() || all_digits(
                fp,
            )) {
                if digits_val(ip) > u32::MAX {
                    u32::MAX as int
                } else {
                    digits_val(ip)
                }
            } else {
                0
            }
        },
        None => 0,
    }
}

/// The core count a cpuinfo map gives; zero when the entry is missing or
/// does not parse.
pub open spec fn spec_cpu_cores(es: Seq<(Seq<char>, Seq<char>)>) -> int {
    match kv_lookup(es, "cpu cores"@) {
        Some(v) => if v.len() > 0 && all_digits(v) && digits_val(v) <= u32::MAX {
            digits_val(v)
        } else {
            0
        },
        None => 0,
    }
}

impl Cpu {
    /// Builds the processor fact from a parsed cpuinfo file: the model name
    /// is required, speed and cores are kept when they parse and left zero
    /// otherwise. The error says that no model name was found.
    pub fn from_cpuinfo(info: &ProcMap) -> (r: Result<Cpu>)
        ensures
            match r {
                Ok(c) => spec_cpu_name(kv_view(*info)) == Some(c.name@) && c.speed as int
                    == spec_cpu_speed(kv_view(*info)) && c.cores as int == spec_cpu_cores(
                    kv_view(*info),
                ),
                Err(_) => spec_cpu_name(kv_view(*info)) is None,
            },
    {
        let name: String = match info.get("model name") {
            Some(v) => v.clone(),
            None => match info.get("Hardware") {
                Some(v) => v.clone(),
                None => {
                    return Err(NeofetchError::data_unavailable("CPU model name not found"));
                },
            },
        };
        let speed: u32 = match info.get("cpu MHz") {
            Some(v) => {
                let s: &str = v.as_str();
                let len: usize = s.unicode_len();
                let cut: usize = match find_char(s, '.') {
                    Some(i) => i,
                    None => len,
                };
                let ip: &str = s.substring_char(0, cut);
                proof {
                    assert(s@.subrange(0, cut as int) =~= s@.take(find_from(s@, '.', 0)));
                }
                let frac_ok: bool = if cut == len {
                    true
                } else {
                    let fp: &str = s.substring_char(cut + 1, len);
                    proof {
                        assert(s@.subrange(cut + 1, len as int) =~= s@.skip(
                            find_from(s@, '.', 0) + 1,
                        ));
                    }
                    all_digits_exec(fp)
                };
                if frac_ok && ip.unicode_len() > 0 && all_digits_exec(ip) {
                    match parse_u64(ip) {
                        Some(v) => if v > u32::MAX as u64 {
                            u32::MAX
                        } else {
                            v as u32
                        },
                        None => u32::MAX,
                    }
                } else {
                    0
                }
            },
            None => 0,
        };
        let cores: u32 = match info.get("cpu cores") {
            Some(v) => match parse_u32(v.as_str()) {
                Some(c) => c,
                None => 0,
            },
            None => 0,
        };
        Ok(Cpu { name, cores, speed })
    }
}

fn all_digits_exec(s: &str) -> (r: bool)
    ensures
        r == (all_digits(s@) || s@.len() == 0),
        s@.len() > 0 ==> r == all_digits(s@),
{
    let len: usize = s.unicode_len();
    let mut i: usize = 0;
    while i < len
        invariant
            len == s@.len(),
            i <= len,
            forall|j: int| 0 <= j < i ==> crate::strutil::is_digit(#[trigger] s@[j]),
        decreases len - i,
    {
        let c: char = s.get_char(i);
        let u: u32 = c as u32;
        if !(48 <= u && u <= 57) {
            proof {
                assert(!crate::strutil::is_digit(s@[i as int]));
            }
            return false;
        }
        i = i + 1;
    }
    true
}

} // verus!
