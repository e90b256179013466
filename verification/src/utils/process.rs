//! Parsing of process metadata that the probes read from the process
//! filesystem.

use vstd::prelude::*;

use crate::error::NeofetchError;
use crate::error::Result;
use crate::strutil::digits_val;
use crate::strutil::find_from;
use crate::strutil::find_char;
use crate::strutil::parse_u32;
use crate::strutil::trim_seq;
use crate::strutil::str_trim;

verus! {

/// The parent process id in a status line: the trimmed digits after the
/// first colon.
pub open spec fn spec_ppid(s: Seq<char>) -> Option<int> {
    let idx = find_from(s, ':', 0);
    if idx < s.len() {
        let v = trim_seq(s.skip(idx + 1));
        if v.len() > 0 && crate::strutil::all_digits(v) && digits_val(v) <= u32::MAX {
            Some(digits_val(v))
        } else {
            None
        }
    } else {
        None
    }
}

/// Reads the parent process id out of the matched status line: the number
/// after the colon. Errors name the field that failed.
pub fn parse_ppid_output(s: &str) -> (r: Result<u32>)
    ensures
        match r {
            Ok(v) => spec_ppid(s@) == Some(v as int),
            Err(_) => spec_ppid(s@) is None,
        },
{
    let len: usize = s.unicode_len();
    match find_char(s, ':') {
        Some(idx) => {
            let rest: &str = str_trim(s.substring_char(idx + 1, len));
            proof {
                assert(s@.subrange(idx + 1, len as int) =~= s@.skip(idx + 1));
            }
            match parse_u32(rest) {
                Some(v) => Ok(v),
                None => Err(NeofetchError::parse_error("PPid", "invalid number")),
            }
        },
        None => Err(NeofetchError::parse_error("PPid", "missing colon separator")),
    }
}

} // verus!
