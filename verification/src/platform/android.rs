//! Parsing of the Android system interfaces that probes read.

use vstd::prelude::*;

use crate::error::NeofetchError;
use crate::error::Result;
use crate::strutil::find_sub_from;
use crate::strutil::first_space_at;
use crate::strutil::str_find;

verus! {

/// The kernel version a version file names: what stands between
/// `Linux version ` and the next space.
pub open spec fn spec_kernel_version(content: Seq<char>) -> Option<Seq<char>> {
    let i = find_sub_from(content, "Linux version "@, 0);
    if i < content.len() {
        let rest = content.skip(i + "Linux version "@.len());
        let j = first_space_at(rest, 0);
        if j < rest.len() {
            Some(rest.take(j))
        } else {
            None
        }
    } else {
        None
    }
}

/// Reads the kernel version out of the version file's content; the error
/// names the field that did not parse.
pub fn parse_kernel_version(content: &str) -> (r: Result<String>)
    ensures
        match r {
            Ok(v) => spec_kernel_version(content@) == Some(v@),
            Err(_) => spec_kernel_version(content@) is None,
        },
{
    let len: usize = content.unicode_len();
    proof {
        reveal_strlit("Linux version ");
    }
    match str_find(content, "Linux version ") {
        Some(i) => {
            let rest: &str = content.substring_char(i + 14, len);
            proof {
                assert(content@.subrange(i + 14, len as int) =~= content@.skip(
                    i + "Linux version "@.len(),
                ));
            }
            let rlen: usize = rest.unicode_len();
            let mut j: usize = 0;
            while j < rlen && !is_space_at(rest, j)
                invariant
                    rlen == rest@.len(),
                    j <= rlen,
                    first_space_at(rest@, 0) == first_space_at(rest@, j as int),
                decreases rlen - j,
            {
                j = j + 1;
            }
            if j < rlen {
                proof {
                    assert(first_space_at(rest@, j as int) == j);
                    assert(rest@.subrange(0, j as int) =~= rest@.take(j as int));
                }
                Ok(rest.substring_char(0, j).to_owned())
            } else {
                proof {
                    assert(first_space_at(rest@, j as int) == rest@.len());
                }
                Err(NeofetchError::parse_error("kernel_version", "invalid format"))
            }
        },
        None => Err(NeofetchError::parse_error("kernel_version", "invalid format")),
    }
}

fn is_space_at(s: &str, i: usize) -> (r: bool)
    requires
        i < s@.len(),
    ensures
        r == crate::strutil::is_space(s@[i as int]),
{
    let c: char = s.get_char(i);
    c == ' ' || c == '\t' || c == '\r' || c == '\n'
}

} // verus!
