//! Parsing of the Linux system files that probes read.

use vstd::prelude::*;

use crate::error::NeofetchError;
use crate::error::Result;
use crate::strutil::find_from;
use crate::strutil::find_char;
use crate::strutil::lines_seq;
use crate::strutil::parse_u32;
use crate::strutil::str_trim;
use crate::strutil::str_trim_char;
use crate::strutil::trim_char_seq;
use crate::strutil::trim_seq;
use crate::utils::file::kv_entries;
use crate::utils::file::kv_lookup;
use crate::utils::file::kv_view;
use crate::utils::file::parse_key_value;
use crate::utils::file::ProcMap;

verus! {

/// Each entry with the quotes stripped from its value.
pub open spec fn unquote_entries(es: Seq<(Seq<char>, Seq<char>)>) -> Seq<(Seq<char>, Seq<char>)>
    decreases es.len(),
{
    if es.len() == 0 {
        Seq::empty()
    } else {
        unquote_entries(es.drop_last()).push(
            (es.last().0, trim_char_seq(es.last().1, '"')),
        )
    }
}

/// The entries of an os-release file: its equals-separated entries with the
/// quotes stripped from each value.
pub open spec fn os_release_entries(content: Seq<char>) -> Seq<(Seq<char>, Seq<char>)> {
    unquote_entries(kv_entries(lines_seq(content), '=', lines_seq(content).len() as int))
}

/// Parses an os-release file: key=value lines, values unquoted.
pub fn parse_os_release(content: &str) -> (r: ProcMap)
    ensures
        kv_view(r) == os_release_entries(content@),
{
    let raw: ProcMap = parse_key_value(content, '=');
    let mut entries: Vec<(String, String)> = Vec::new();
    let n: usize = raw.entries.len();
    let mut i: usize = 0;
    proof {
        assert(kv_view(raw).take(0) =~= Seq::<(Seq<char>, Seq<char>)>::empty());
        assert(entries@.map_values(|p: (String, String)| (p.0@, p.1@)) =~= unquote_entries(
            kv_view(raw).take(0),
        ));
    }
    while i < n
        invariant
            n == raw.entries@.len(),
            n == kv_view(raw).len(),
            i <= n,
            entries@.map_values(|p: (String, String)| (p.0@, p.1@)) == unquote_entries(
                kv_view(raw).take(i as int),
            ),
        decreases n - i,
    {
        proof {
            assert(kv_view(raw)[i as int] == (
                raw.entries@[i as int].0@,
                raw.entries@[i as int].1@,
            ));
            assert(kv_view(raw).take(i + 1).drop_last() =~= kv_view(raw).take(i as int));
            assert(kv_view(raw).take(i + 1).last() == kv_view(raw)[i as int]);
        }
        let key: String = raw.entries[i].0.clone();
        let value: String = str_trim_char(raw.entries[i].1.as_str(), '"').to_owned();
        entries.push((key, value));
        proof {
            assert(entries@.map_values(|p: (String, String)| (p.0@, p.1@)) =~= unquote_entries(
                kv_view(raw).take(i + 1),
            ));
        }
        i = i + 1;
    }
    proof {
        assert(kv_view(raw).take(n as int) =~= kv_view(raw));
        assert(kv_view(raw) == kv_entries(
            lines_seq(content@),
            '=',
            lines_seq(content@).len() as int,
        ));
    }
    ProcMap { entries }
}

/// The distribution name an os-release map gives: the pretty name, or the
/// plain name when there is none.
pub open spec fn spec_distro_name(es: Seq<(Seq<char>, Seq<char>)>) -> Option<Seq<char>> {
    match kv_lookup(es, "PRETTY_NAME"@) {
        Some(v) => Some(v),
        None => kv_lookup(es, "NAME"@),
    }
}

/// Picks the distribution name out of a parsed os-release file; the error
/// says that no name was found.
pub fn get_distro_name(info: &ProcMap) -> (r: Result<String>)
    ensures
        match r {
            Ok(v) => spec_distro_name(kv_view(*info)) == Some(v@),
            Err(_) => spec_distro_name(kv_view(*info)) is None,
        },
{
    match info.get("PRETTY_NAME") {
        Some(v) => Ok(v.clone()),
        None => match info.get("NAME") {
            Some(v) => Ok(v.clone()),
            None => Err(NeofetchError::data_unavailable("Distribution name not found")),
        },
    }
}

/// The core count a cpu-present range names: one more than the distance
/// between the two numbers around the dash.
pub open spec fn spec_cpu_range(s: Seq<char>) -> Option<int> {
    let t = trim_seq(s);
    let j = find_from(t, '-', 0);
    if j < t.len() {
        let a = t.take(j);
        let b = t.skip(j + 1);
        if a.len() > 0 && crate::strutil::all_digits(a) && crate::strutil::digits_val(a)
            <= u32::MAX && b.len() > 0 && crate::strutil::all_digits(b)
            && crate::strutil::digits_val(b) <= u32::MAX && crate::strutil::digits_val(a)
            <= crate::strutil::digits_val(b) && crate::strutil::digits_val(b)
            - crate::strutil::digits_val(a) < u32::MAX {
            Some(crate::strutil::digits_val(b) - crate::strutil::digits_val(a) + 1)
        } else {
            None
        }
    } else {
        None
    }
}

/// Counts the cores a cpu-present range file names; each error names the
/// part that did not parse.
pub fn parse_cpu_range(content: &str) -> (r: Result<u32>)
    ensures
        match r {
            Ok(v) => spec_cpu_range(content@) == Some(v as int),
            Err(_) => spec_cpu_range(content@) is None,
        },
{
    let t: &str = str_trim(content);
    let tlen: usize = t.unicode_len();
    match find_char(t, '-') {
        Some(j) => {
            let a: &str = t.substring_char(0, j);
            let b: &str = t.substring_char(j + 1, tlen);
            proof {
                assert(t@.subrange(0, j as int) =~= t@.take(j as int));
                assert(t@.subrange(j + 1, tlen as int) =~= t@.skip(j + 1));
            }
            match (parse_u32(a), parse_u32(b)) {
                (Some(start), Some(end)) => {
                    if start <= end && end - start < u32::MAX {
                        Ok(end - start + 1)
                    } else {
                        Err(NeofetchError::parse_error("cpu_present", "invalid range"))
                    }
                },
                _ => Err(NeofetchError::parse_error("cpu_present", "invalid number")),
            }
        },
        None => Err(NeofetchError::parse_error("cpu_present", "invalid format")),
    }
}

} // verus!
