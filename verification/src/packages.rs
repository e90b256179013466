//! The package-count fact: how many packages each known manager has.

use vstd::prelude::*;

use crate::strutil::dec_seq;
use crate::strutil::dec_str;
use crate::strutil::lines_seq;
use crate::strutil::split_lines;
use crate::strutil::starts_with_seq;
use crate::strutil::str_starts_with;

verus! {

/// Package counts per manager; a zero count is left out of the rendering.
#[derive(Debug, Clone, Copy, PartialEq, Eq, Structural)]
pub struct Packages {
    pub snap: usize,
    pub dpkg: usize,
    pub pacman: usize,
    pub scoop: usize,
}

/// One count with its manager's name.
pub open spec fn pkg_part(n: int, manager: Seq<char>) -> Seq<char> {
    dec_seq(n) + " ("@ + manager + ")"@
}

/// Appends a part to a comma-separated list.
pub open spec fn join_part(acc: Seq<char>, n: int, manager: Seq<char>) -> Seq<char> {
    if n > 0 {
        if acc.len() == 0 {
            pkg_part(n, manager)
        } else {
            acc + ", "@ + pkg_part(n, manager)
        }
    } else {
        acc
    }
}

/// The packages line: the non-zero counts, each with its manager, separated
/// by commas, in the fixed order dpkg, snap, pacman, scoop. Empty when every
/// count is zero — the formatter then suppresses the line.
pub open spec fn packages_seq(p: Packages) -> Seq<char> {
    join_part(
        join_part(
            join_part(join_part(Seq::empty(), p.dpkg as int, "dpkg"@), p.snap as int, "snap"@),
            p.pacman as int,
            "pacman"@,
        ),
        p.scoop as int,
        "scoop"@,
    )
}

fn append_part(r: &mut String, n: usize, manager: &str)
    ensures
        final(r)@ == join_part(old(r)@, n as int, manager@),
{
    if n > 0 {
        if r.as_str().unicode_len() > 0 {
            r.append(", ");
        }
        r.append(dec_str(n).as_str());
        r.append(" (");
        r.append(manager);
        r.append(")");
        proof {
            assert(r@ =~= join_part(old(r)@, n as int, manager@));
        }
    }
}

impl Packages {
    /// Renders the packages line.
    pub fn render(&self) -> (r: String)
        ensures
            r@ == packages_seq(*self),
    {
        let mut r: String = String::new();
        append_part(&mut r, self.dpkg, "dpkg");
        append_part(&mut r, self.snap, "snap");
        append_part(&mut r, self.pacman, "pacman");
        append_part(&mut r, self.scoop, "scoop");
        r
    }
}

/// How many of the lines open a package record.
pub open spec fn dpkg_lines(ls: Seq<Seq<char>>) -> int
    decreases ls.len(),
{
    if ls.len() == 0 {
        0
    } else {
        dpkg_lines(ls.drop_last()) + if starts_with_seq(ls.last(), "Package:"@) {
            1int
        } else {
            0int
        }
    }
}

/// How many package records a package-status file holds: its lines that
/// open a record.
pub open spec fn spec_dpkg_count(content: Seq<char>) -> int {
    dpkg_lines(lines_seq(content))
}

/// Counts the package records in the content of a package-status file.
pub fn count_dpkg_packages(content: &str) -> (n: usize)
    ensures
        n == spec_dpkg_count(content@),
{
    let lines: Vec<String> = split_lines(content);
    let ghost ls = lines_seq(content@);
    let total: usize = lines.len();
    let mut n: usize = 0;
    let mut i: usize = 0;
    proof {
        assert(ls.take(0) =~= Seq::<Seq<char>>::empty());
    }
    while i < total
        invariant
            ls == lines_seq(content@),
            lines@.map_values(|t: String| t@) == ls,
            total == ls.len(),
            i <= total,
            n == dpkg_lines(ls.take(i as int)),
            n <= i,
        decreases total - i,
    {
        proof {
            assert(ls.take(i + 1).drop_last() =~= ls.take(i as int));
            assert(ls.take(i + 1).last() == ls[i as int]);
        }
        if str_starts_with(lines[i].as_str(), "Package:") {
            n = n + 1;
        }
        i = i + 1;
    }
    proof {
        assert(ls.take(total as int) =~= ls);
    }
    n
}

} // verus!
