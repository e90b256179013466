//! The desktop-environment heuristic. It reads nothing itself: it decides
//! from the already-resolved operating-system fact, so it can only ever be
//! present when that fact is.

use vstd::prelude::*;

use crate::os::OS;
use crate::strutil::contains_seq;
use crate::strutil::str_contains;

verus! {

/// The desktop environment named by an operating-system string: a Windows
/// name maps to its design language, and a Linux name yields GNOME exactly
/// when a GNOME session was detected.
pub open spec fn spec_de(s: Seq<char>, gnome_session: bool) -> Option<Seq<char>> {
    if contains_seq(s, "Windows 11"@) {
        Some("Fluent"@)
    } else if contains_seq(s, "Windows 10"@) {
        Some("Fluent"@)
    } else if contains_seq(s, "Windows 8"@) {
        Some("Metro"@)
    } else if contains_seq(s, "Windows"@) {
        Some("Aero"@)
    } else if contains_seq(s, "Linux"@) && gnome_session {
        Some("GNOME"@)
    } else {
        None
    }
}

/// Picks the desktop environment for a resolved operating system.
/// `gnome_session` reports whether the GNOME session variable is set in the
/// environment; the caller reads it, this function only decides.
pub fn get_de(os: &OS, gnome_session: bool) -> (r: Option<String>)
    ensures
        match r {
            Some(v) => spec_de(os.name@ + " "@ + os.arch@, gnome_session) == Some(v@),
            None => spec_de(os.name@ + " "@ + os.arch@, gnome_session) is None,
        },
{
    let s: String = os.render();
    if str_contains(s.as_str(), "Windows 11") {
        Some(String::from_str("Fluent"))
    } else if str_contains(s.as_str(), "Windows 10") {
        Some(String::from_str("Fluent"))
    } else if str_contains(s.as_str(), "Windows 8") {
        Some(String::from_str("Metro"))
    } else if str_contains(s.as_str(), "Windows") {
        Some(String::from_str("Aero"))
    } else if str_contains(s.as_str(), "Linux") && gnome_session {
        Some(String::from_str("GNOME"))
    } else {
        None
    }
}

} // verus!
