//! The screen-resolution fact, read out of tool output: the current mode in
//! a display server's status line, a mode list from the graphics subsystem,
//! or a management query's value column.

use vstd::prelude::*;

use crate::strutil::find_from;
use crate::strutil::find_sub_from;
use crate::strutil::lines_seq;
use crate::strutil::split_lines;
use crate::strutil::str_find;
use crate::strutil::str_trim;
use crate::strutil::trim_seq;

verus! {

/// The resolution named in a display-server status line: what stands
/// between the first `current ` and the following ` x `, and between that
/// and the following comma, joined with ` x `.
pub open spec fn spec_xrandr_resolution(s: Seq<char>) -> Option<Seq<char>> {
    let i = find_sub_from(s, "current "@, 0);
    if i < s.len() {
        let rest = s.skip(i + "current "@.len());
        let j = find_sub_from(rest, " x "@, 0);
        if j < rest.len() {
            let w = rest.take(j);
            let rest2 = rest.skip(j + " x "@.len());
            let k = find_from(rest2, ',', 0);
            if k < rest2.len() {
                Some(w + " x "@ + rest2.take(k))
            } else {
                None
            }
        } else {
            None
        }
    } else {
        None
    }
}

/// Reads the current resolution out of a display-server status line.
pub fn parse_xrandr_resolution(s: &str) -> (r: Option<String>)
    ensures
        match r {
            Some(v) => spec_xrandr_resolution(s@) == Some(v@),
            None => spec_xrandr_resolution(s@) is None,
        },
{
    let len: usize = s.unicode_len();
    proof {
        reveal_strlit("current ");
    }
    match str_find(s, "current ") {
        Some(i) => {
            let rest: &str = s.substring_char(i + 8, len);
            proof {
                assert(s@.subrange(i + 8, len as int) =~= s@.skip(i + "current "@.len()));
            }
            let rlen: usize = rest.unicode_len();
            proof {
                reveal_strlit(" x ");
            }
            match str_find(rest, " x ") {
                Some(j) => {
                    let w: &str = rest.substring_char(0, j);
                    let rest2: &str = rest.substring_char(j + 3, rlen);
                    proof {
                        assert(rest@.subrange(0, j as int) =~= rest@.take(j as int));
                        assert(rest@.subrange(j + 3, rlen as int) =~= rest@.skip(
                            j + " x "@.len(),
                        ));
                    }
                    let r2len: usize = rest2.unicode_len();
                    match crate::strutil::find_char(rest2, ',') {
                        Some(k) => {
                            let h: &str = rest2.substring_char(0, k);
                            let mut out: String = String::new();
                            out.append(w);
                            out.append(" x ");
                            out.append(h);
                            proof {
                                assert(rest2@.subrange(0, k as int) =~= rest2@.take(k as int));
                                assert(out@ =~= rest@.take(j as int) + " x "@ + rest2@.take(
                                    k as int,
                                ));
                            }
                            Some(out)
                        },
                        None => None,
                    }
                },
                None => None,
            }
        },
        None => None,
    }
}

/// The resolution named by the first line of a mode list: what stands
/// before the first `x` and what follows it up to the next `x` or the end,
/// joined with ` x `.
pub open spec fn spec_drm_resolution(s: Seq<char>) -> Option<Seq<char>> {
    if lines_seq(s).len() == 0 {
        None
    } else {
        let line = lines_seq(s)[0];
        let j = find_from(line, 'x', 0);
        if j < line.len() {
            let rest = line.skip(j + 1);
            let k = find_from(rest, 'x', 0);
            Some(line.take(j) + " x "@ + rest.take(k))
        } else {
            None
        }
    }
}

/// Reads a resolution out of the first line of a graphics mode list.
pub fn parse_drm_resolution(s: &str) -> (r: Option<String>)
    ensures
        match r {
            Some(v) => spec_drm_resolution(s@) == Some(v@),
            None => spec_drm_resolution(s@) is None,
        },
{
    let lines: Vec<String> = split_lines(s);
    if lines.len() == 0 {
        return None;
    }
    let line: &str = lines[0].as_str();
    proof {
        assert(line@ == lines_seq(s@)[0]);
    }
    let llen: usize = line.unicode_len();
    match crate::strutil::find_char(line, 'x') {
        Some(j) => {
            let w: &str = line.substring_char(0, j);
            let rest: &str = line.substring_char(j + 1, llen);
            proof {
                assert(line@.subrange(0, j as int) =~= line@.take(j as int));
                assert(line@.subrange(j + 1, llen as int) =~= line@.skip(j + 1));
            }
            let rlen: usize = rest.unicode_len();
            let k: usize = match crate::strutil::find_char(rest, 'x') {
                Some(k) => k,
                None => rlen,
            };
            let h: &str = rest.substring_char(0, k);
            let mut out: String = String::new();
            out.append(w);
            out.append(" x ");
            out.append(h);
            proof {
                assert(rest@.subrange(0, k as int) =~= rest@.take(k as int));
                assert(out@ =~= line@.take(j as int) + " x "@ + rest@.take(k as int));
            }
            Some(out)
        },
        None => None,
    }
}

/// The value in a management query's output: its last line, trimmed, after
/// the whole output is trimmed; nothing when the output is blank.
pub open spec fn spec_wmic_value(s: Seq<char>) -> Option<Seq<char>> {
    let t = trim_seq(s);
    if lines_seq(t).len() == 0 {
        None
    } else {
        Some(trim_seq(lines_seq(t).last()))
    }
}

/// Reads the value column out of a management query's tabular output.
pub fn parse_wmic_value(s: &str) -> (r: Option<String>)
    ensures
        match r {
            Some(v) => spec_wmic_value(s@) == Some(v@),
            None => spec_wmic_value(s@) is None,
        },
{
    let t: &str = str_trim(s);
    let lines: Vec<String> = split_lines(t);
    let n: usize = lines.len();
    if n == 0 {
        return None;
    }
    let last: &str = lines[n - 1].as_str();
    proof {
        assert(last@ == lines_seq(t@).last());
    }
    Some(str_trim(last).to_owned())
}

} // verus!
