//! The display fact: one entry per attached screen.

use vstd::prelude::*;

use crate::strutil::dec_seq;
use crate::strutil::dec_str_u64;

verus! {

/// One attached display. Every field is optional; absent fields are left
/// out of the rendering. Rates and rotations are whole numbers.
#[derive(Debug, Clone)]
pub struct Display {
    pub name: Option<String>,
    pub friendly_name: Option<String>,
    pub refresh_rate: Option<u32>,
    pub external: Option<bool>,
    pub resolution: Option<(u32, u32)>,
    pub scale_resolution: Option<(u32, u32)>,
    pub rotation: Option<u32>,
    pub primary: Option<bool>,
}

/// A width-by-height pair.
pub open spec fn res_seq(w: int, h: int) -> Seq<char> {
    dec_seq(w) + "x"@ + dec_seq(h)
}

/// Appends a part to a space-separated list.
pub open spec fn sp_part(acc: Seq<char>, part: Seq<char>) -> Seq<char> {
    if acc.len() == 0 {
        part
    } else {
        acc + " "@ + part
    }
}

/// The line the formatter prints for one display: resolution, refresh rate,
/// scaled resolution, an external mark, and a primary mark, each only when
/// known, separated by single spaces.
pub open spec fn display_seq(d: Display) -> Seq<char> {
    let a1 = match d.resolution {
        Some((w, h)) => sp_part(Seq::empty(), res_seq(w as int, h as int)),
        None => Seq::<char>::empty(),
    };
    let a2 = match d.refresh_rate {
        Some(r) => sp_part(a1, "@ "@ + dec_seq(r as int) + "Hz"@),
        None => a1,
    };
    let a3 = match d.scale_resolution {
        Some((w, h)) => sp_part(a2, "(as "@ + res_seq(w as int, h as int) + ")"@),
        None => a2,
    };
    let a4 = if d.external == Some(true) {
        sp_part(a3, "[External]"@)
    } else {
        a3
    };
    if d.primary == Some(true) {
        sp_part(a4, "*"@)
    } else {
        a4
    }
}

fn append_spaced(r: &mut String, part: &str)
    ensures
        final(r)@ == sp_part(old(r)@, part@),
{
    if r.as_str().unicode_len() > 0 {
        r.append(" ");
    }
    r.append(part);
    proof {
        if old(r)@.len() > 0 {
            assert(r@ =~= sp_part(old(r)@, part@));
        }
    }
}

impl Display {
    /// Renders the display line.
    pub fn render(&self) -> (r: String)
        ensures
            r@ == display_seq(*self),
    {
        let mut r: String = String::new();
        match &self.resolution {
            Some(wh) => {
                let mut part: String = dec_str_u64(wh.0 as u64);
                part.append("x");
                part.append(dec_str_u64(wh.1 as u64).as_str());
                proof {
                    assert(part@ =~= res_seq(wh.0 as int, wh.1 as int));
                }
                append_spaced(&mut r, part.as_str());
            },
            None => {},
        }
        match &self.refresh_rate {
            Some(rate) => {
                let mut part: String = String::from_str("@ ");
                part.append(dec_str_u64(*rate as u64).as_str());
                part.append("Hz");
                proof {
                    assert(part@ =~= "@ "@ + dec_seq(*rate as int) + "Hz"@);
                }
                append_spaced(&mut r, part.as_str());
            },
            None => {},
        }
        match &self.scale_resolution {
            Some(wh) => {
                let mut part: String = String::from_str("(as ");
                part.append(dec_str_u64(wh.0 as u64).as_str());
                part.append("x");
                part.append(dec_str_u64(wh.1 as u64).as_str());
                part.append(")");
                proof {
                    assert(part@ =~= "(as "@ + res_seq(wh.0 as int, wh.1 as int) + ")"@);
                }
                append_spaced(&mut r, part.as_str());
            },
            None => {},
        }
        let ext: bool = match &self.external {
            Some(b) => *b,
            None => false,
        };
        if ext {
            append_spaced(&mut r, "[External]");
        }
        let prim: bool = match &self.primary {
            Some(b) => *b,
            None => false,
        };
        if prim {
            append_spaced(&mut r, "*");
        }
        r
    }
}

} // verus!
