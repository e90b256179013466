//! Parsing of the colon- and equals-separated key/value files that probes
//! read, and path-name handling.

use vstd::prelude::*;

use crate::strutil::find_from;
use crate::strutil::find_char;
use crate::strutil::lines_seq;
use crate::strutil::replace_seq;
use crate::strutil::split_lines;
use crate::strutil::str_eq;
use crate::strutil::str_replace_char;
use crate::strutil::str_trim;
use crate::strutil::trim_seq;

verus! {

/// A parsed key/value file: its entries in file order. A lookup answers
/// with the last entry for a key, as the files' readers expect.
#[derive(Debug)]
pub struct ProcMap {
    pub entries: Vec<(String, String)>,
}

/// The entries a map holds, as character sequences.
pub open spec fn kv_view(m: ProcMap) -> Seq<(Seq<char>, Seq<char>)> {
    m.entries@.map_values(|p: (String, String)| (p.0@, p.1@))
}

/// The value of the last entry with the given key.
pub open spec fn kv_lookup(es: Seq<(Seq<char>, Seq<char>)>, key: Seq<char>) -> Option<Seq<char>>
    decreases es.len(),
{
    if es.len() == 0 {
        None
    } else if es.last().0 == key {
        Some(es.last().1)
    } else {
        kv_lookup(es.drop_last(), key)
    }
}

impl ProcMap {
    /// Looks a key up; answers with the value of its last entry.
    pub fn get(&self, key: &str) -> (r: Option<&String>)
        ensures
            match r {
                Some(v) => kv_lookup(kv_view(*self), key@) == Some(v@),
                None => kv_lookup(kv_view(*self), key@) is None,
            },
    {
        let ghost es = kv_view(*self);
        let mut i: usize = self.entries.len();
        proof {
            assert(es.take(i as int) =~= es);
        }
        while i > 0
            invariant
                es == kv_view(*self),
                i <= self.entries@.len(),
                es.len() == self.entries@.len(),
                kv_lookup(es, key@) == kv_lookup(es.take(i as int), key@),
            decreases i,
        {
            i = i - 1;
            proof {
                assert(es.take(i + 1).drop_last() =~= es.take(i as int));
                assert(es.take(i + 1).last() == es[i as int]);
            }
            if str_eq(self.entries[i].0.as_str(), key) {
                return Some(&self.entries[i].1);
            }
        }
        proof {
            assert(es.take(0) =~= Seq::<(Seq<char>, Seq<char>)>::empty());
        }
        None
    }
}

/// The entry a colon-separated line yields: the trimmed text on either side
/// of the first colon, or nothing when the line has no colon, no key or no
/// value.
pub open spec fn proc_entry(line: Seq<char>) -> Option<(Seq<char>, Seq<char>)> {
    let idx = find_from(line, ':', 0);
    if idx < line.len() {
        let k = trim_seq(line.take(idx));
        let v = trim_seq(line.skip(idx + 1));
        if k.len() > 0 && v.len() > 0 {
            Some((k, v))
        } else {
            None
        }
    } else {
        None
    }
}

/// The entries of the first `i` lines of a colon-separated file.
pub open spec fn proc_entries(ls: Seq<Seq<char>>, i: int) -> Seq<(Seq<char>, Seq<char>)>
    decreases i,
{
    if i <= 0 {
        Seq::empty()
    } else {
        proc_entries(ls, i - 1) + (match proc_entry(ls[i - 1]) {
            Some(e) => seq![e],
            None => Seq::empty(),
        })
    }
}

/// Parses a colon-separated key/value file, one entry per line; lines
/// without a colon, a key or a value are skipped.
pub fn parse_proc_file(content: &str) -> (r: ProcMap)
    ensures
        kv_view(r) == proc_entries(lines_seq(content@), lines_seq(content@).len() as int),
{
    let lines: Vec<String> = split_lines(content);
    let ghost ls = lines_seq(content@);
    let total: usize = lines.len();
    let mut entries: Vec<(String, String)> = Vec::new();
    let mut i: usize = 0;
    proof {
        assert(entries@.map_values(|p: (String, String)| (p.0@, p.1@)) =~= proc_entries(ls, 0));
    }
    while i < total
        invariant
            ls == lines_seq(content@),
            lines@.map_values(|t: String| t@) == ls,
            total == ls.len(),
            i <= total,
            entries@.map_values(|p: (String, String)| (p.0@, p.1@)) == proc_entries(ls, i as int),
        decreases total - i,
    {
        let line: &str = lines[i].as_str();
        let len: usize = line.unicode_len();
        match find_char(line, ':') {
            Some(idx) => {
                let key: &str = str_trim(line.substring_char(0, idx));
                let value: &str = str_trim(line.substring_char(idx + 1, len));
                proof {
                    assert(line@.subrange(0, idx as int) =~= line@.take(idx as int));
                    assert(line@.subrange(idx + 1, len as int) =~= line@.skip(idx + 1));
                }
                if key.unicode_len() > 0 && value.unicode_len() > 0 {
                    entries.push((key.to_owned(), value.to_owned()));
                    proof {
                        assert(entries@.map_values(|p: (String, String)| (p.0@, p.1@))
                            =~= proc_entries(ls, i + 1));
                    }
                } else {
                    proof {
                        assert(entries@.map_values(|p: (String, String)| (p.0@, p.1@))
                            =~= proc_entries(ls, i + 1));
                    }
                }
            },
            None => {
                proof {
                    assert(entries@.map_values(|p: (String, String)| (p.0@, p.1@))
                        =~= proc_entries(ls, i + 1));
                }
            },
        }
        i = i + 1;
    }
    ProcMap { entries }
}

/// The entry a separator-split line yields: the trimmed text on either side
/// of the first separator; only an absent separator or an empty key drops
/// the line.
pub open spec fn kv_entry(line: Seq<char>, sep: char) -> Option<(Seq<char>, Seq<char>)> {
    let idx = find_from(line, sep, 0);
    if idx < line.len() {
        let k = trim_seq(line.take(idx));
        let v = trim_seq(line.skip(idx + 1));
        if k.len() > 0 {
            Some((k, v))
        } else {
            None
        }
    } else {
        None
    }
}

/// The entries of the first `i` lines of a separator-split file.
pub open spec fn kv_entries(ls: Seq<Seq<char>>, sep: char, i: int) -> Seq<(Seq<char>, Seq<char>)>
    decreases i,
{
    if i <= 0 {
        Seq::empty()
    } else {
        kv_entries(ls, sep, i - 1) + (match kv_entry(ls[i - 1], sep) {
            Some(e) => seq![e],
            None => Seq::empty(),
        })
    }
}

/// Parses a key/value file with the given separator, one entry per line;
/// an empty value is kept, an empty key is not.
pub fn parse_key_value(content: &str, separator: char) -> (r: ProcMap)
    ensures
        kv_view(r) == kv_entries(
            lines_seq(content@),
            separator,
            lines_seq(content@).len() as int,
        ),
{
    let lines: Vec<String> = split_lines(content);
    let ghost ls = lines_seq(content@);
    let total: usize = lines.len();
    let mut entries: Vec<(String, String)> = Vec::new();
    let mut i: usize = 0;
    proof {
        assert(entries@.map_values(|p: (String, String)| (p.0@, p.1@)) =~= kv_entries(
            ls,
            separator,
            0,
        ));
    }
    while i < total
        invariant
            ls == lines_seq(content@),
            lines@.map_values(|t: String| t@) == ls,
            total == ls.len(),
            i <= total,
            entries@.map_values(|p: (String, String)| (p.0@, p.1@)) == kv_entries(
                ls,
                separator,
                i as int,
            ),
        decreases total - i,
    {
        let line: &str = lines[i].as_str();
        let len: usize = line.unicode_len();
        match find_char(line, separator) {
            Some(idx) => {
                let key: &str = str_trim(line.substring_char(0, idx));
                let value: &str = str_trim(line.substring_char(idx + 1, len));
                proof {
                    assert(line@.subrange(0, idx as int) =~= line@.take(idx as int));
                    assert(line@.subrange(idx + 1, len as int) =~= line@.skip(idx + 1));
                }
                if key.unicode_len() > 0 {
                    entries.push((key.to_owned(), value.to_owned()));
                    proof {
                        assert(entries@.map_values(|p: (String, String)| (p.0@, p.1@))
                            =~= kv_entries(ls, separator, i + 1));
                    }
                } else {
                    proof {
                        assert(entries@.map_values(|p: (String, String)| (p.0@, p.1@))
                            =~= kv_entries(ls, separator, i + 1));
                    }
                }
            },
            None => {
                proof {
                    assert(entries@.map_values(|p: (String, String)| (p.0@, p.1@)) =~= kv_entries(
                        ls,
                        separator,
                        i + 1,
                    ));
                }
            },
        }
        i = i + 1;
    }
    ProcMap { entries }
}

/// The last position of `c` in `s` at or before `i`; minus one when there
/// is none.
pub open spec fn rfind_at(s: Seq<char>, c: char, i: int) -> int
    decreases i + 1,
{
    if i < 0 || i >= s.len() {
        -1
    } else if s[i] == c {
        i
    } else {
        rfind_at(s, c, i - 1)
    }
}

/// The stem a path yields: what stands after its last slash and before the
/// first dot of that segment, trimmed. Backslashes count as slashes.
pub open spec fn spec_filename(path: Seq<char>) -> Seq<char> {
    let n = replace_seq(path, '\\', '/');
    let seg = n.skip(rfind_at(n, '/', n.len() - 1) + 1);
    trim_seq(seg.take(find_from(seg, '.', 0)))
}

/// The file stem of a path: the last path segment without its extension.
/// Every path yields one, possibly empty.
pub fn get_filename(path: &str) -> (r: Option<String>)
    ensures
        r matches Some(v) && v@ == spec_filename(path@),
{
    let norm: String = str_replace_char(path, '\\', '/');
    let n: &str = norm.as_str();
    let len: usize = n.unicode_len();
    let mut start: usize = len;
    while start > 0 && n.get_char(start - 1) != '/'
        invariant
            len == n@.len(),
            start <= len,
            rfind_at(n@, '/', len - 1) == rfind_at(n@, '/', start - 1),
        decreases start,
    {
        start = start - 1;
    }
    proof {
        if start > 0 {
            assert(rfind_at(n@, '/', start - 1) == start - 1);
        } else {
            assert(rfind_at(n@, '/', -1) == -1);
        }
    }
    let ghost seg = n@.skip(start as int);
    let mut end: usize = start;
    while end < len && n.get_char(end) != '.'
        invariant
            len == n@.len(),
            start <= end <= len,
            seg == n@.skip(start as int),
            find_from(seg, '.', 0) == find_from(seg, '.', end - start as int),
        decreases len - end,
    {
        end = end + 1;
    }
    proof {
        if end < len {
            assert(find_from(seg, '.', end - start as int) == end - start);
        } else {
            assert(find_from(seg, '.', end - start as int) == seg.len());
        }
        assert(seg.take(find_from(seg, '.', 0)) =~= n@.subrange(start as int, end as int));
    }
    let stem: &str = str_trim(n.substring_char(start, end));
    Some(stem.to_owned())
}

/// Relies on `std::path::Path::exists`: answers whether the path names an
/// entry on disk at this moment. Nothing more can be promised of it; no
/// proof rests on the answer.
#[verifier::external_body]
pub fn file_exists(path: &str) -> bool {
    std::path::Path::new(path).exists()
}

} // verus!
