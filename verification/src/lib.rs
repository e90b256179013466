//! A system-information display library: fallible probes feed one snapshot,
//! a formatter turns the snapshot into labelled lines, and a layout engine
//! joins distro art and info text into one two-column terminal buffer.

use vstd::prelude::*;

pub mod ansi;
pub mod color;
pub mod cpu;
pub mod disk;
pub mod display;
pub mod de;
pub mod error;
pub mod gpu;
pub mod icon;
pub mod memory;
pub mod network;
pub mod os;
pub mod packages;
pub mod platform;
pub mod resolution;
pub mod share;
pub mod size;
pub mod strutil;
pub mod system;
pub mod temperature;
pub mod terminal;
pub mod uptime;
pub mod utils;

use crate::ansi::ascii_len;
use crate::color::BLACK_BG;
use crate::color::BLUE_BG;
use crate::color::BOLD;
use crate::color::BRIGHT_BLACK_BG;
use crate::color::BRIGHT_BLUE_BG;
use crate::color::BRIGHT_CYAN_BG;
use crate::color::BRIGHT_GREEN_BG;
use crate::color::BRIGHT_MAGENTA_BG;
use crate::color::BRIGHT_RED_BG;
use crate::color::BRIGHT_WHITE_BG;
use crate::color::BRIGHT_YELLOW_BG;
use crate::color::CYAN_BG;
use crate::color::GREEN;
use crate::color::GREEN_BG;
use crate::color::MAGENTA_BG;
use crate::color::RED;
use crate::color::RED_BG;
use crate::color::RESET;
use crate::color::WHITE_BG;
use crate::color::YELLOW_BG;
use crate::cpu::Cpu;
use crate::cpu::cpu_seq;
use crate::de::get_de;
use crate::de::spec_de;
use crate::disk::Disk;
use crate::disk::disk_seq;
use crate::display::Display;
use crate::display::display_seq;
use crate::error::Result;
use crate::gpu::Gpu;
use crate::gpu::gpu_seq;
use crate::icon::icon_seq;
use crate::network::NetworkInfo;
use crate::network::active_of;
use crate::network::filter_active;
use crate::os::OS;
use crate::packages::Packages;
use crate::packages::packages_seq;
use crate::strutil::dec_seq;
use crate::strutil::dec_str_u64;
use crate::strutil::str_trim;
use crate::strutil::trim_seq;
use crate::temperature::TempSensor;
use crate::terminal::Terminal;
use crate::terminal::terminal_seq;
use crate::uptime::Time;
use crate::uptime::time_seq;
use crate::ansi::lemma_strip_len;
use crate::ansi::visible_width;
use crate::color::cursor_down;
use crate::color::cursor_down_seq;
use crate::color::cursor_forward;
use crate::color::cursor_forward_seq;
use crate::color::cursor_up;
use crate::color::cursor_up_seq;
use crate::strutil::lines_seq;
use crate::strutil::spaces;
use crate::strutil::spaces_seq;
use crate::strutil::split_lines;
use crate::strutil::split_nl_rec;

verus! {

/// Width of the blank gutter between the art column and the info column.
pub const GAP: usize = 3;

/// The widest visible width among the given lines.
pub open spec fn max_visible(lines: Seq<Seq<char>>) -> int
    decreases lines.len(),
{
    if lines.len() == 0 {
        0
    } else {
        let rest = max_visible(lines.drop_last());
        let last = visible_width(lines.last());
        if last > rest {
            last
        } else {
            rest
        }
    }
}

/// One row of the left column: the line, padded with spaces to `w + GAP`
/// visible columns, then a newline.
pub open spec fn left_row(line: Seq<char>, w: int) -> Seq<char> {
    line + spaces_seq(w + GAP - visible_width(line)) + "\n"@
}

/// The first `i` rows of the left column.
pub open spec fn left_rows(lines: Seq<Seq<char>>, w: int, i: int) -> Seq<char>
    decreases i,
{
    if i <= 0 {
        Seq::empty()
    } else {
        left_rows(lines, w, i - 1) + left_row(lines[i - 1], w)
    }
}

/// `n` blank rows of the left column's full width.
pub open spec fn blank_rows(w: int, n: int) -> Seq<char>
    decreases n,
{
    if n <= 0 {
        Seq::empty()
    } else {
        blank_rows(w, n - 1) + spaces_seq(w + GAP) + "\n"@
    }
}

/// The first `i` rows of the right column: each line is preceded by a
/// cursor-forward code that skips the left column.
pub open spec fn right_rows(lines: Seq<Seq<char>>, w: int, i: int) -> Seq<char>
    decreases i,
{
    if i <= 0 {
        Seq::empty()
    } else {
        right_rows(lines, w, i - 1) + cursor_forward_seq(w + GAP) + lines[i - 1] + "\n"@
    }
}

/// The number of rows of the combined block: the taller of the two columns.
pub open spec fn join_height(l: Seq<char>, r: Seq<char>) -> int {
    let lh = lines_seq(l).len() as int;
    let rh = lines_seq(r).len() as int;
    if lh > rh {
        lh
    } else {
        rh
    }
}

/// The full output of `join`: every left line padded to a common visible
/// width, blank rows for any height shortfall, then the cursor moved back up
/// and each right line written after a constant cursor-forward offset, and
/// finally the cursor left below the whole block.
pub open spec fn join_seq(l: Seq<char>, r: Seq<char>) -> Seq<char> {
    let ll = lines_seq(l);
    let rl = lines_seq(r);
    let w = max_visible(ll);
    let mh = join_height(l, r);
    left_rows(ll, w, ll.len() as int) + blank_rows(w, mh - ll.len()) + cursor_up_seq(mh)
        + right_rows(rl, w, rl.len() as int) + cursor_down_seq(mh - rl.len())
}

/// Splitting always yields at least one segment.
pub proof fn lemma_split_len_pos(s: Seq<char>, i: int, cur: Seq<char>)
    ensures
        split_nl_rec(s, i, cur).len() >= 1,
    decreases s.len() - i,
{
    if i < 0 || i >= s.len() {
    } else if s[i] == '\n' {
        lemma_split_len_pos(s, i + 1, Seq::empty());
    } else {
        lemma_split_len_pos(s, i + 1, cur.push(s[i]));
    }
}

proof fn lemma_split_elt_len(s: Seq<char>, i: int, cur: Seq<char>, k: int)
    requires
        0 <= k < split_nl_rec(s, i, cur).len(),
    ensures
        split_nl_rec(s, i, cur)[k].len() <= cur.len() + if 0 <= i <= s.len() {
            s.len() - i
        } else {
            0int
        },
    decreases s.len() - i,
{
    if i < 0 || i >= s.len() {
    } else if s[i] == '\n' {
        if k > 0 {
            lemma_split_elt_len(s, i + 1, Seq::empty(), k - 1);
        }
    } else {
        lemma_split_elt_len(s, i + 1, cur.push(s[i]), k);
    }
}

/// No line of a string is longer than the string.
pub proof fn lemma_line_len(s: Seq<char>, k: int)
    requires
        0 <= k < lines_seq(s).len(),
    ensures
        lines_seq(s)[k].len() <= s.len(),
{
    let parts = split_nl_rec(s, 0, Seq::<char>::empty());
    lemma_split_len_pos(s, 0, Seq::empty());
    assert(lines_seq(s)[k] == parts[k]);
    lemma_split_elt_len(s, 0, Seq::empty(), k);
}

/// Every line's visible width is bounded by the widest.
pub proof fn lemma_max_visible_ge(lines: Seq<Seq<char>>, k: int)
    requires
        0 <= k < lines.len(),
    ensures
        visible_width(lines[k]) <= max_visible(lines),
        max_visible(lines) >= 0,
    decreases lines.len(),
{
    lemma_strip_len(lines[k]);
    if k < lines.len() - 1 {
        assert(lines.drop_last()[k] == lines[k]);
        lemma_max_visible_ge(lines.drop_last(), k);
    } else if lines.len() > 1 {
        lemma_max_visible_ge(lines.drop_last(), 0);
    }
}

/// The widest visible width is no more than the longest line.
pub proof fn lemma_max_visible_le(s: Seq<char>)
    ensures
        0 <= max_visible(lines_seq(s)) <= s.len(),
{
    let ll = lines_seq(s);
    lemma_max_visible_le_rec(s, ll.len() as int);
    assert(ll.take(ll.len() as int) =~= ll);
}

proof fn lemma_max_visible_le_rec(s: Seq<char>, i: int)
    requires
        0 <= i <= lines_seq(s).len(),
    ensures
        0 <= max_visible(lines_seq(s).take(i)) <= s.len(),
    decreases i,
{
    let ll = lines_seq(s);
    if i == 0 {
        assert(ll.take(i).len() == 0);
    } else {
        lemma_max_visible_le_rec(s, i - 1);
        assert(ll.take(i).drop_last() =~= ll.take(i - 1));
        assert(ll.take(i).last() == ll[i - 1]);
        lemma_line_len(s, i - 1);
        lemma_strip_len(ll[i - 1]);
        if i == ll.len() {
            assert(ll.take(i) =~= ll);
        }
    }
}

/// How often the newline character occurs in `s`.
pub open spec fn count_nl(s: Seq<char>) -> int
    decreases s.len(),
{
    if s.len() == 0 {
        0
    } else {
        count_nl(s.drop_last()) + if s.last() == '\n' {
            1int
        } else {
            0int
        }
    }
}

proof fn lemma_count_nl_add(s: Seq<char>, t: Seq<char>)
    ensures
        count_nl(s + t) == count_nl(s) + count_nl(t),
    decreases t.len(),
{
    if t.len() == 0 {
        assert(s + t =~= s);
    } else {
        lemma_count_nl_add(s, t.drop_last());
        assert((s + t).drop_last() =~= s + t.drop_last());
        assert((s + t).last() == t.last());
    }
}

proof fn lemma_count_nl_one()
    ensures
        count_nl("\n"@) == 1,
{
    reveal_strlit("\n");
    assert("\n"@.drop_last() =~= Seq::<char>::empty());
    assert(count_nl(Seq::<char>::empty()) == 0);
    assert(count_nl("\n"@.drop_last()) == 0);
    assert("\n"@.last() == '\n');
}

proof fn lemma_count_nl_none(s: Seq<char>)
    requires
        forall|j: int| 0 <= j < s.len() ==> s[j] != '\n',
    ensures
        count_nl(s) == 0,
    decreases s.len(),
{
    if s.len() > 0 {
        lemma_count_nl_none(s.drop_last());
    }
}

proof fn lemma_split_no_nl(s: Seq<char>, i: int, cur: Seq<char>, k: int)
    requires
        0 <= k < split_nl_rec(s, i, cur).len(),
        forall|j: int| 0 <= j < cur.len() ==> cur[j] != '\n',
    ensures
        forall|j: int|
            0 <= j < split_nl_rec(s, i, cur)[k].len() ==> split_nl_rec(s, i, cur)[k][j] != '\n',
    decreases s.len() - i,
{
    if i < 0 || i >= s.len() {
    } else if s[i] == '\n' {
        if k > 0 {
            lemma_split_no_nl(s, i + 1, Seq::empty(), k - 1);
        }
    } else {
        assert(forall|j: int| 0 <= j < cur.push(s[i]).len() ==> cur.push(s[i])[j] != '\n');
        lemma_split_no_nl(s, i + 1, cur.push(s[i]), k);
    }
}

/// No line of a string holds a newline.
pub proof fn lemma_line_no_nl(s: Seq<char>, k: int)
    requires
        0 <= k < lines_seq(s).len(),
    ensures
        count_nl(lines_seq(s)[k]) == 0,
{
    lemma_split_len_pos(s, 0, Seq::empty());
    assert(lines_seq(s)[k] == split_nl_rec(s, 0, Seq::<char>::empty())[k]);
    lemma_split_no_nl(s, 0, Seq::empty(), k);
    lemma_count_nl_none(lines_seq(s)[k]);
}

proof fn lemma_left_rows_nl(lines: Seq<Seq<char>>, src: Seq<char>, w: int, i: int)
    requires
        lines == lines_seq(src),
        0 <= i <= lines.len(),
    ensures
        count_nl(left_rows(lines, w, i)) == i,
    decreases i,
{
    if i > 0 {
        lemma_left_rows_nl(lines, src, w, i - 1);
        lemma_line_no_nl(src, i - 1);
        let line = lines[i - 1];
        let pad = spaces_seq(w + GAP - visible_width(line));
        assert(forall|j: int| 0 <= j < pad.len() ==> pad[j] != '\n');
        lemma_count_nl_none(pad);
        lemma_count_nl_add(line, pad);
        lemma_count_nl_add(line + pad, "\n"@);
        lemma_count_nl_one();
        assert(left_row(line, w) =~= (line + pad) + "\n"@);
        lemma_count_nl_add(left_rows(lines, w, i - 1), left_row(line, w));
    }
}

proof fn lemma_blank_rows_nl(w: int, n: int)
    requires
        n >= 0,
        w + GAP >= 0,
    ensures
        count_nl(blank_rows(w, n)) == n,
    decreases n,
{
    if n > 0 {
        lemma_blank_rows_nl(w, n - 1);
        let pad = spaces_seq(w + GAP);
        assert(forall|j: int| 0 <= j < pad.len() ==> pad[j] != '\n');
        lemma_count_nl_none(pad);
        lemma_count_nl_one();
        lemma_count_nl_add(blank_rows(w, n - 1), pad);
        lemma_count_nl_add(blank_rows(w, n - 1) + pad, "\n"@);
        assert(blank_rows(w, n) =~= (blank_rows(w, n - 1) + pad) + "\n"@);
    }
}

/// Height reconciliation: the block that `join` prints before it moves the
/// cursor back up — every padded left line and every blank filler row —
/// holds exactly `max(lines(left), lines(right))` newline-terminated rows,
/// and the cursor codes that follow descend that same number of rows.
pub proof fn lemma_join_height(l: Seq<char>, r: Seq<char>)
    ensures
        join_height(l, r) == if lines_seq(l).len() >= lines_seq(r).len() {
            lines_seq(l).len() as int
        } else {
            lines_seq(r).len() as int
        },
        count_nl(
            left_rows(lines_seq(l), max_visible(lines_seq(l)), lines_seq(l).len() as int)
                + blank_rows(max_visible(lines_seq(l)), join_height(l, r) - lines_seq(l).len()),
        ) == join_height(l, r),
{
    let ll = lines_seq(l);
    let w = max_visible(ll);
    let mh = join_height(l, r);
    lemma_max_visible_le(l);
    lemma_left_rows_nl(ll, l, w, ll.len() as int);
    lemma_blank_rows_nl(w, mh - ll.len());
    lemma_count_nl_add(left_rows(ll, w, ll.len() as int), blank_rows(w, mh - ll.len()));
}

/// Visible-width invariant: in the block that `join` builds, the padding
/// after left line `k` is the common column count minus the line's width
/// with its escape codes stripped; the padded row then spans the same
/// number of visible columns whatever codes the line holds, so the right
/// block starts at one terminal column on every row.
pub proof fn lemma_join_visible_column(l: Seq<char>, r: Seq<char>, k: int)
    requires
        0 <= k < lines_seq(l).len(),
        crate::ansi::sgr_closed(lines_seq(l)[k]),
    ensures
        left_row(lines_seq(l)[k], max_visible(lines_seq(l))) == lines_seq(l)[k] + spaces_seq(
            max_visible(lines_seq(l)) + GAP - crate::ansi::strip_sgr(lines_seq(l)[k]).len(),
        ) + "\n"@,
        visible_width(
            lines_seq(l)[k] + spaces_seq(
                max_visible(lines_seq(l)) + GAP - crate::ansi::strip_sgr(lines_seq(l)[k]).len(),
            ),
        ) == max_visible(lines_seq(l)) + GAP,
{
    let ll = lines_seq(l);
    let line = ll[k];
    let w = max_visible(ll);
    lemma_max_visible_ge(ll, k);
    crate::ansi::lemma_strip_append_spaces(line, w + GAP - crate::ansi::strip_sgr(line).len());
}

/// Joins the art block and the info block side by side: each left line is
/// padded to the widest visible width plus the gutter, the cursor is moved
/// back to the top, and every right line is written at that constant column.
pub fn join(left: String, right: String) -> (out: String)
    requires
        left@.len() + GAP < usize::MAX,
    ensures
        out@ == join_seq(left@, right@),
{
    let left_lines: Vec<String> = split_lines(left.as_str());
    let right_lines: Vec<String> = split_lines(right.as_str());
    let ghost ll = lines_seq(left@);
    let ghost rl = lines_seq(right@);
    let left_h: usize = left_lines.len();
    let right_h: usize = right_lines.len();
    let max_h: usize = if left_h > right_h {
        left_h
    } else {
        right_h
    };
    proof {
        lemma_max_visible_le(left@);
    }
    let mut w: usize = 0;
    let mut i: usize = 0;
    while i < left_h
        invariant
            ll == lines_seq(left@),
            left_lines@.map_values(|t: String| t@) == ll,
            left_h == ll.len(),
            i <= left_h,
            w == max_visible(ll.take(i as int)),
            w <= left@.len(),
        decreases left_h - i,
    {
        let lw: usize = ascii_len(left_lines[i].as_str());
        proof {
            assert(ll.take(i + 1).drop_last() =~= ll.take(i as int));
            assert(ll.take(i + 1).last() == ll[i as int]);
            lemma_line_len(left@, i as int);
            lemma_strip_len(ll[i as int]);
        }
        if lw > w {
            w = lw;
        }
        i = i + 1;
    }
    proof {
        assert(ll.take(left_h as int) =~= ll);
    }
    let mut out: String = String::new();
    let mut i: usize = 0;
    while i < left_h
        invariant
            ll == lines_seq(left@),
            left_lines@.map_values(|t: String| t@) == ll,
            left_h == ll.len(),
            i <= left_h,
            w == max_visible(ll),
            w + GAP < usize::MAX,
            out@ == left_rows(ll, w as int, i as int),
        decreases left_h - i,
    {
        proof {
            lemma_max_visible_ge(ll, i as int);
            lemma_line_len(left@, i as int);
            lemma_strip_len(ll[i as int]);
        }
        let lw: usize = ascii_len(left_lines[i].as_str());
        out.append(left_lines[i].as_str());
        out.append(spaces(w + GAP - lw).as_str());
        out.append("\n");
        proof {
            assert(out@ =~= left_rows(ll, w as int, i + 1));
        }
        i = i + 1;
    }
    let mut i: usize = left_h;
    while i < max_h
        invariant
            left_h <= i <= max_h,
            w + GAP < usize::MAX,
            out@ == left_rows(ll, w as int, ll.len() as int) + blank_rows(
                w as int,
                i - left_h as int,
            ),
            left_h == ll.len(),
        decreases max_h - i,
    {
        out.append(spaces(w + GAP).as_str());
        out.append("\n");
        proof {
            assert(out@ =~= left_rows(ll, w as int, ll.len() as int) + blank_rows(
                w as int,
                i + 1 - left_h as int,
            ));
        }
        i = i + 1;
    }
    out.append(cursor_up(max_h).as_str());
    let ghost base = out@;
    let mut i: usize = 0;
    while i < right_h
        invariant
            right_lines@.map_values(|t: String| t@) == rl,
            right_h == rl.len(),
            i <= right_h,
            w + GAP < usize::MAX,
            out@ == base + right_rows(rl, w as int, i as int),
        decreases right_h - i,
    {
        out.append(cursor_forward(w + GAP).as_str());
        out.append(right_lines[i].as_str());
        out.append("\n");
        proof {
            assert(out@ =~= base + right_rows(rl, w as int, i + 1));
        }
        i = i + 1;
    }
    out.append(cursor_down(max_h - right_h).as_str());
    proof {
        assert(base =~= left_rows(ll, w as int, ll.len() as int) + blank_rows(
            w as int,
            max_h - ll.len(),
        ) + cursor_up_seq(max_h as int));
        assert(out@ =~= join_seq(left@, right@));
    }
    out
}

/// One labelled line of the info column: the label in bold green, then the
/// value, then a newline.
pub open spec fn info_line(label: Seq<char>, value: Seq<char>) -> Seq<char> {
    GREEN@ + BOLD@ + label + RESET@ + value + "\n"@
}

/// The header: user at hostname in bold red, then a separator row.
pub open spec fn header_seq(user: Seq<char>, hostname: Seq<char>) -> Seq<char> {
    RESET@ + RED@ + BOLD@ + user + RESET@ + "@"@ + RED@ + BOLD@ + hostname + RESET@ + "\n"@
        + "-------\n"@
}

/// A string-valued fact's line: present exactly when the probe succeeded.
pub open spec fn seg_str(label: Seq<char>, r: Result<String>) -> Seq<char> {
    match r {
        Ok(s) => info_line(label, s@),
        Err(_) => Seq::empty(),
    }
}

/// The operating-system line: present exactly when the probe succeeded.
pub open spec fn seg_os(r: Result<OS>) -> Seq<char> {
    match r {
        Ok(o) => info_line("OS: "@, o.name@ + " "@ + o.arch@),
        Err(_) => Seq::empty(),
    }
}

/// The uptime line: present when the probe succeeded and the uptime is not
/// zero seconds.
pub open spec fn seg_uptime(r: Result<Time>) -> Seq<char> {
    match r {
        Ok(t) => if t.0 > 0 {
            info_line("Uptime: "@, time_seq(t.0 as int))
        } else {
            Seq::empty()
        },
        Err(_) => Seq::empty(),
    }
}

/// The packages line: present when the probe succeeded and the rendered
/// summary is not blank.
pub open spec fn seg_packages(r: Result<Packages>) -> Seq<char> {
    match r {
        Ok(p) => if trim_seq(packages_seq(p)).len() > 0 {
            info_line("Packages: "@, packages_seq(p))
        } else {
            Seq::empty()
        },
        Err(_) => Seq::empty(),
    }
}

/// The label of one display line: the friendly name in parentheses where one
/// is known, else the plain name, else nothing.
pub open spec fn display_key(d: Display) -> Seq<char> {
    "Display"@ + (match d.friendly_name {
        Some(f) => "("@ + f@ + ")"@,
        None => match d.name {
            Some(n) => "("@ + n@ + ")"@,
            None => Seq::empty(),
        },
    })
}

/// The first `i` display lines.
pub open spec fn display_lines(v: Seq<Display>, i: int) -> Seq<char>
    decreases i,
{
    if i <= 0 {
        Seq::empty()
    } else {
        display_lines(v, i - 1) + info_line(display_key(v[i - 1]) + ": "@, display_seq(v[i - 1]))
    }
}

/// The display lines: one per display, present exactly when the probe
/// succeeded.
pub open spec fn seg_display(r: Result<Vec<Display>>) -> Seq<char> {
    match r {
        Ok(v) => display_lines(v@, v@.len() as int),
        Err(_) => Seq::empty(),
    }
}

/// The desktop-environment line: present exactly when one was derived.
pub open spec fn seg_de(de: Option<String>) -> Seq<char> {
    match de {
        Some(s) => info_line("DE: "@, s@),
        None => Seq::empty(),
    }
}

/// The window-manager lines: the manager when its probe succeeded, and its
/// theme only under a known manager.
pub open spec fn seg_wm(wm: Result<String>, theme: Result<String>) -> Seq<char> {
    match wm {
        Ok(w) => info_line("WM: "@, w@) + match theme {
            Ok(t) => info_line("WM Theme: "@, t@),
            Err(_) => Seq::empty(),
        },
        Err(_) => Seq::empty(),
    }
}

/// The terminal line: present exactly when the probe succeeded.
pub open spec fn seg_terminal(r: Result<Terminal>) -> Seq<char> {
    match r {
        Ok(t) => info_line("Terminal: "@, terminal_seq(t)),
        Err(_) => Seq::empty(),
    }
}

/// The first `i` disk lines; a disk with no reported capacity is skipped.
pub open spec fn disk_lines(v: Seq<Disk>, i: int) -> Seq<char>
    decreases i,
{
    if i <= 0 {
        Seq::empty()
    } else {
        disk_lines(v, i - 1) + if v[i - 1].total > 0 {
            info_line(
                "Disk("@ + v[i - 1].name@ + "): "@,
                disk_seq(v[i - 1].used as int, v[i - 1].total as int),
            )
        } else {
            Seq::empty()
        }
    }
}

/// The disk lines: one per disk with a known capacity.
pub open spec fn seg_disk(r: Result<Vec<Disk>>) -> Seq<char> {
    match r {
        Ok(v) => disk_lines(v@, v@.len() as int),
        Err(_) => Seq::empty(),
    }
}

/// The processor line: present exactly when the probe succeeded.
pub open spec fn seg_cpu(r: Result<Cpu>) -> Seq<char> {
    match r {
        Ok(c) => info_line("CPU: "@, cpu_seq(c.name@, c.cores as int, c.speed as int)),
        Err(_) => Seq::empty(),
    }
}

/// The first `i` graphics-adapter lines.
pub open spec fn gpu_lines(v: Seq<Gpu>, i: int) -> Seq<char>
    decreases i,
{
    if i <= 0 {
        Seq::empty()
    } else {
        gpu_lines(v, i - 1) + info_line(
            "GPU: "@,
            gpu_seq(v[i - 1].name@, v[i - 1].version@, v[i - 1].ram as int),
        )
    }
}

/// The graphics lines: one per adapter, present exactly when the probe
/// succeeded.
pub open spec fn seg_gpu(r: Result<Vec<Gpu>>) -> Seq<char> {
    match r {
        Ok(v) => gpu_lines(v@, v@.len() as int),
        Err(_) => Seq::empty(),
    }
}

/// How many entries of a list show: at most the first three.
pub open spec fn shown_count(len: int) -> int {
    if len < 3 {
        len
    } else {
        3
    }
}

/// The first `i` temperature lines; the first carries the label, the rest
/// carry blank padding of the same width.
pub open spec fn temp_lines(v: Seq<TempSensor>, i: int) -> Seq<char>
    decreases i,
{
    if i <= 0 {
        Seq::empty()
    } else {
        temp_lines(v, i - 1) + info_line(
            if i - 1 == 0 {
                "Temperature: "@
            } else {
                "            "@
            },
            crate::temperature::temp_seq(v[i - 1].label@, v[i - 1].milli_celsius as int),
        )
    }
}

/// The temperature lines: at most the first three sensors, present exactly
/// when the probe succeeded and found a sensor.
pub open spec fn seg_temperature(r: Result<Vec<TempSensor>>) -> Seq<char> {
    match r {
        Ok(v) => temp_lines(v@, shown_count(v@.len() as int)),
        Err(_) => Seq::empty(),
    }
}

/// The battery line: present exactly when the probe succeeded.
pub open spec fn seg_battery(r: Result<u32>) -> Seq<char> {
    match r {
        Ok(b) => info_line("Battery: "@, dec_seq(b as int)),
        Err(_) => Seq::empty(),
    }
}

/// One active interface's value: its name and its IPv4 address.
pub open spec fn net_value(n: NetworkInfo) -> Seq<char> {
    n.interface_name@ + " ("@ + (match n.ipv4_address {
        Some(ip) => ip@,
        None => Seq::empty(),
    }) + ")"@
}

/// The first `i` network lines over the active interfaces; the first
/// carries the label, the rest carry blank padding.
pub open spec fn net_lines(a: Seq<NetworkInfo>, i: int) -> Seq<char>
    decreases i,
{
    if i <= 0 {
        Seq::empty()
    } else {
        net_lines(a, i - 1) + info_line(
            if i - 1 == 0 {
                "Network: "@
            } else {
                "         "@
            },
            net_value(a[i - 1]),
        )
    }
}

/// The network lines: at most the first three active interfaces, present
/// exactly when the probe succeeded and some interface is active.
pub open spec fn seg_network(r: Result<Vec<NetworkInfo>>) -> Seq<char> {
    match r {
        Ok(v) => net_lines(active_of(v@), shown_count(active_of(v@).len() as int)),
        Err(_) => Seq::empty(),
    }
}

/// The two rows of background color swatches that close the info column.
pub open spec fn swatches_seq() -> Seq<char> {
    "\n"@ + BLACK_BG@ + "   "@ + RED_BG@ + "   "@ + GREEN_BG@ + "   "@ + YELLOW_BG@ + "   "@
        + BLUE_BG@ + "   "@ + MAGENTA_BG@ + "   "@ + CYAN_BG@ + "   "@ + WHITE_BG@ + "   "@ + RESET@
        + "\n"@ + BRIGHT_BLACK_BG@ + "   "@ + BRIGHT_RED_BG@ + "   "@ + BRIGHT_GREEN_BG@ + "   "@
        + BRIGHT_YELLOW_BG@ + "   "@ + BRIGHT_BLUE_BG@ + "   "@ + BRIGHT_MAGENTA_BG@ + "   "@
        + BRIGHT_CYAN_BG@ + "   "@ + BRIGHT_WHITE_BG@ + "   "@ + RESET@ + "\n"@
}

/// The system snapshot: one fallible fact per category, gathered once and
/// then only read. The desktop environment is derived from the resolved
/// operating system, never probed on its own.
#[derive(Debug)]
pub struct Neofetch {
    pub os: Result<OS>,
    pub user: Result<String>,
    pub host: Result<String>,
    pub hostname: Result<String>,
    pub rom: Result<String>,
    pub baseband: Result<String>,
    pub kernel: Result<String>,
    pub uptime: Result<Time>,
    pub packages: Result<Packages>,
    pub shell: Result<String>,
    pub display: Result<Vec<Display>>,
    pub de: Option<String>,
    pub wm: Result<String>,
    pub wm_theme: Result<String>,
    pub terminal: Result<Terminal>,
    pub disk: Result<Vec<Disk>>,
    pub cpu: Result<Cpu>,
    pub gpu: Result<Vec<Gpu>>,
    pub memory: Result<String>,
    pub battery: Result<u32>,
    pub locale: Result<String>,
    pub ip: Result<String>,
    pub temperature: Result<Vec<TempSensor>>,
    pub network: Result<Vec<NetworkInfo>>,
}

/// The value a string-valued fact contributes to the header: the value when
/// known, nothing otherwise.
pub open spec fn ok_or_empty(r: Result<String>) -> Seq<char> {
    match r {
        Ok(s) => s@,
        Err(_) => Seq::empty(),
    }
}

/// The whole info column of a snapshot: the header, one segment per fact in
/// the fixed display order, and the closing color swatches.
pub open spec fn info_seq(s: Neofetch) -> Seq<char> {
    header_seq(ok_or_empty(s.user), ok_or_empty(s.hostname)) + seg_os(s.os) + seg_str(
        "Host: "@,
        s.host,
    ) + seg_str("Rom: "@, s.rom) + seg_str("Baseband: "@, s.baseband) + seg_str(
        "Kernel: "@,
        s.kernel,
    ) + seg_uptime(s.uptime) + seg_packages(s.packages) + seg_str("Shell: "@, s.shell)
        + seg_display(s.display) + seg_de(s.de) + seg_wm(s.wm, s.wm_theme) + seg_terminal(
        s.terminal,
    ) + seg_disk(s.disk) + seg_cpu(s.cpu) + seg_gpu(s.gpu) + seg_str("Memory: "@, s.memory)
        + seg_temperature(s.temperature) + seg_battery(s.battery) + seg_str("Local IP: "@, s.ip)
        + seg_network(s.network) + seg_str("Locale: "@, s.locale) + swatches_seq()
}

/// The art column of a snapshot: the resolved distribution's banner, or
/// nothing while the operating system is unknown.
pub open spec fn icon_of(s: Neofetch) -> Seq<char> {
    match s.os {
        Ok(o) => icon_seq(o.distro),
        Err(_) => Seq::empty(),
    }
}

/// The art column as the renderer feeds it to the layout engine: dropped in
/// the unreachable case that it cannot be padded within address-space
/// limits.
pub open spec fn icon_guarded(s: Neofetch) -> Seq<char> {
    if icon_of(s).len() + GAP < usize::MAX {
        icon_of(s)
    } else {
        Seq::empty()
    }
}

/// The full render of a snapshot: its info column joined to the right of
/// its art column.
pub open spec fn render_seq(s: Neofetch) -> Seq<char> {
    join_seq(icon_guarded(s), info_seq(s))
}

/// What the renderer assumes of a snapshot; machine limits only. Every
/// value a real probe reports satisfies this.
pub open spec fn snapshot_wf(s: Neofetch) -> bool {
    &&& (s.disk matches Ok(v) ==> forall|i: int|
        0 <= i < v@.len() ==> (#[trigger] v@[i]).used <= v@[i].total)
    &&& (s.temperature matches Ok(v) ==> forall|i: int|
        0 <= i < v@.len() ==> i64::MIN + 50 < (#[trigger] v@[i]).milli_celsius < i64::MAX - 50)
}

fn push_line(info: &mut String, label: &str, value: &str)
    ensures
        final(info)@ == old(info)@ + info_line(label@, value@),
{
    info.append(GREEN);
    info.append(BOLD);
    info.append(label);
    info.append(RESET);
    info.append(value);
    info.append("\n");
    proof {
        assert(info@ =~= old(info)@ + info_line(label@, value@));
    }
}

fn push_header(info: &mut String, user: &Result<String>, hostname: &Result<String>)
    ensures
        final(info)@ == old(info)@ + header_seq(ok_or_empty(*user), ok_or_empty(*hostname)),
{
    info.append(RESET);
    info.append(RED);
    info.append(BOLD);
    match user {
        Ok(u) => info.append(u.as_str()),
        Err(_) => {},
    }
    info.append(RESET);
    info.append("@");
    info.append(RED);
    info.append(BOLD);
    match hostname {
        Ok(h) => info.append(h.as_str()),
        Err(_) => {},
    }
    info.append(RESET);
    info.append("\n");
    info.append("-------\n");
    proof {
        assert(info@ =~= old(info)@ + header_seq(ok_or_empty(*user), ok_or_empty(*hostname)));
    }
}

fn push_str_seg(info: &mut String, label: &str, r: &Result<String>)
    ensures
        final(info)@ == old(info)@ + seg_str(label@, *r),
{
    match r {
        Ok(s) => push_line(info, label, s.as_str()),
        Err(_) => {
            proof {
                assert(info@ =~= old(info)@ + seg_str(label@, *r));
            }
        },
    }
}

fn push_display_seg(info: &mut String, r: &Result<Vec<Display>>)
    ensures
        final(info)@ == old(info)@ + seg_display(*r),
{
    match r {
        Ok(v) => {
            let n: usize = v.len();
            let mut i: usize = 0;
            proof {
                assert(info@ =~= old(info)@ + display_lines(v@, 0));
            }
            while i < n
                invariant
                    n == v@.len(),
                    i <= n,
                    info@ == old(info)@ + display_lines(v@, i as int),
                decreases n - i,
            {
                let d: &Display = &v[i];
                let mut label: String = String::from_str("Display");
                match &d.friendly_name {
                    Some(f) => {
                        label.append("(");
                        label.append(f.as_str());
                        label.append(")");
                    },
                    None => {
                        match &d.name {
                            Some(nm) => {
                                label.append("(");
                                label.append(nm.as_str());
                                label.append(")");
                            },
                            None => {},
                        }
                    },
                }
                label.append(": ");
                proof {
                    assert(label@ =~= display_key(v@[i as int]) + ": "@);
                }
                let value: String = d.render();
                push_line(info, label.as_str(), value.as_str());
                proof {
                    assert(info@ =~= old(info)@ + display_lines(v@, i + 1));
                }
                i = i + 1;
            }
        },
        Err(_) => {
            proof {
                assert(info@ =~= old(info)@ + seg_display(*r));
            }
        },
    }
}

fn push_disk_seg(info: &mut String, r: &Result<Vec<Disk>>)
    requires
        r matches Ok(v) ==> forall|i: int|
            0 <= i < v@.len() ==> (#[trigger] v@[i]).used <= v@[i].total,
    ensures
        final(info)@ == old(info)@ + seg_disk(*r),
{
    match r {
        Ok(v) => {
            let n: usize = v.len();
            let mut i: usize = 0;
            proof {
                assert(info@ =~= old(info)@ + disk_lines(v@, 0));
            }
            while i < n
                invariant
                    n == v@.len(),
                    i <= n,
                    forall|k: int| 0 <= k < v@.len() ==> (#[trigger] v@[k]).used <= v@[k].total,
                    info@ == old(info)@ + disk_lines(v@, i as int),
                decreases n - i,
            {
                let d: &Disk = &v[i];
                if d.total > 0 {
                    let mut label: String = String::from_str("Disk(");
                    label.append(d.name.as_str());
                    label.append("): ");
                    proof {
                        assert(label@ =~= "Disk("@ + v@[i as int].name@ + "): "@);
                    }
                    let value: String = d.render();
                    push_line(info, label.as_str(), value.as_str());
                }
                proof {
                    assert(info@ =~= old(info)@ + disk_lines(v@, i + 1));
                }
                i = i + 1;
            }
        },
        Err(_) => {
            proof {
                assert(info@ =~= old(info)@ + seg_disk(*r));
            }
        },
    }
}

fn push_gpu_seg(info: &mut String, r: &Result<Vec<Gpu>>)
    ensures
        final(info)@ == old(info)@ + seg_gpu(*r),
{
    match r {
        Ok(v) => {
            let n: usize = v.len();
            let mut i: usize = 0;
            proof {
                assert(info@ =~= old(info)@ + gpu_lines(v@, 0));
            }
            while i < n
                invariant
                    n == v@.len(),
                    i <= n,
                    info@ == old(info)@ + gpu_lines(v@, i as int),
                decreases n - i,
            {
                let value: String = v[i].render();
                push_line(info, "GPU: ", value.as_str());
                proof {
                    assert(info@ =~= old(info)@ + gpu_lines(v@, i + 1));
                }
                i = i + 1;
            }
        },
        Err(_) => {
            proof {
                assert(info@ =~= old(info)@ + seg_gpu(*r));
            }
        },
    }
}

fn push_temp_seg(info: &mut String, r: &Result<Vec<TempSensor>>)
    requires
        r matches Ok(v) ==> forall|i: int|
            0 <= i < v@.len() ==> i64::MIN + 50 < (#[trigger] v@[i]).milli_celsius < i64::MAX - 50,
    ensures
        final(info)@ == old(info)@ + seg_temperature(*r),
{
    match r {
        Ok(v) => {
            let n: usize = v.len();
            let cnt: usize = if n < 3 {
                n
            } else {
                3
            };
            let mut i: usize = 0;
            proof {
                assert(info@ =~= old(info)@ + temp_lines(v@, 0));
            }
            while i < cnt
                invariant
                    n == v@.len(),
                    cnt == shown_count(n as int),
                    i <= cnt,
                    forall|k: int|
                        0 <= k < v@.len() ==> i64::MIN + 50 < (#[trigger] v@[k]).milli_celsius
                            < i64::MAX - 50,
                    info@ == old(info)@ + temp_lines(v@, i as int),
                decreases cnt - i,
            {
                let value: String = v[i].render();
                if i == 0 {
                    push_line(info, "Temperature: ", value.as_str());
                } else {
                    push_line(info, "            ", value.as_str());
                }
                proof {
                    assert(info@ =~= old(info)@ + temp_lines(v@, i + 1));
                }
                i = i + 1;
            }
        },
        Err(_) => {
            proof {
                assert(info@ =~= old(info)@ + seg_temperature(*r));
            }
        },
    }
}

fn push_network_seg(info: &mut String, r: &Result<Vec<NetworkInfo>>)
    ensures
        final(info)@ == old(info)@ + seg_network(*r),
{
    match r {
        Ok(v) => {
            let actives: Vec<NetworkInfo> = filter_active(v);
            let ghost a = active_of(v@);
            let n: usize = actives.len();
            let cnt: usize = if n < 3 {
                n
            } else {
                3
            };
            let mut i: usize = 0;
            proof {
                assert(info@ =~= old(info)@ + net_lines(a, 0));
            }
            while i < cnt
                invariant
                    actives@ == a,
                    n == a.len(),
                    cnt == shown_count(n as int),
                    i <= cnt,
                    info@ == old(info)@ + net_lines(a, i as int),
                decreases cnt - i,
            {
                let iface: &NetworkInfo = &actives[i];
                let mut value: String = String::new();
                value.append(iface.interface_name.as_str());
                value.append(" (");
                match &iface.ipv4_address {
                    Some(ip) => value.append(ip.as_str()),
                    None => {},
                }
                value.append(")");
                proof {
                    assert(value@ =~= net_value(a[i as int]));
                }
                if i == 0 {
                    push_line(info, "Network: ", value.as_str());
                } else {
                    push_line(info, "         ", value.as_str());
                }
                proof {
                    assert(info@ =~= old(info)@ + net_lines(a, i + 1));
                }
                i = i + 1;
            }
        },
        Err(_) => {
            proof {
                assert(info@ =~= old(info)@ + seg_network(*r));
            }
        },
    }
}


fn push_os_seg(info: &mut String, r: &Result<OS>) -> (icon: String)
    ensures
        final(info)@ == old(info)@ + seg_os(*r),
        icon@ == match *r {
            Ok(o) => icon_seq(o.distro),
            Err(_) => Seq::<char>::empty(),
        },
{
    match r {
        Ok(o) => {
            let value: String = o.render();
            push_line(info, "OS: ", value.as_str());
            o.distro.icon()
        },
        Err(_) => {
            proof {
                assert(info@ =~= old(info)@ + seg_os(*r));
            }
            String::new()
        },
    }
}

fn push_uptime_seg(info: &mut String, r: &Result<Time>)
    ensures
        final(info)@ == old(info)@ + seg_uptime(*r),
{
    match r {
        Ok(t) => {
            if t.0 > 0 {
                let value: String = t.render();
                push_line(info, "Uptime: ", value.as_str());
            } else {
                proof {
                    assert(info@ =~= old(info)@ + seg_uptime(*r));
                }
            }
        },
        Err(_) => {
            proof {
                assert(info@ =~= old(info)@ + seg_uptime(*r));
            }
        },
    }
}

fn push_packages_seg(info: &mut String, r: &Result<Packages>)
    ensures
        final(info)@ == old(info)@ + seg_packages(*r),
{
    match r {
        Ok(p) => {
            let value: String = p.render();
            if str_trim(value.as_str()).unicode_len() > 0 {
                push_line(info, "Packages: ", value.as_str());
            } else {
                proof {
                    assert(info@ =~= old(info)@ + seg_packages(*r));
                }
            }
        },
        Err(_) => {
            proof {
                assert(info@ =~= old(info)@ + seg_packages(*r));
            }
        },
    }
}

fn push_de_seg(info: &mut String, de: &Option<String>)
    ensures
        final(info)@ == old(info)@ + seg_de(*de),
{
    match de {
        Some(d) => push_line(info, "DE: ", d.as_str()),
        None => {
            proof {
                assert(info@ =~= old(info)@ + seg_de(*de));
            }
        },
    }
}

fn push_wm_seg(info: &mut String, wm: &Result<String>, theme: &Result<String>)
    ensures
        final(info)@ == old(info)@ + seg_wm(*wm, *theme),
{
    match wm {
        Ok(w) => {
            push_line(info, "WM: ", w.as_str());
            match theme {
                Ok(th) => push_line(info, "WM Theme: ", th.as_str()),
                Err(_) => {},
            }
            proof {
                assert(info@ =~= old(info)@ + seg_wm(*wm, *theme));
            }
        },
        Err(_) => {
            proof {
                assert(info@ =~= old(info)@ + seg_wm(*wm, *theme));
            }
        },
    }
}

fn push_terminal_seg(info: &mut String, r: &Result<Terminal>)
    ensures
        final(info)@ == old(info)@ + seg_terminal(*r),
{
    match r {
        Ok(t) => {
            let value: String = t.render();
            push_line(info, "Terminal: ", value.as_str());
        },
        Err(_) => {
            proof {
                assert(info@ =~= old(info)@ + seg_terminal(*r));
            }
        },
    }
}

fn push_cpu_seg(info: &mut String, r: &Result<Cpu>)
    ensures
        final(info)@ == old(info)@ + seg_cpu(*r),
{
    match r {
        Ok(c) => {
            let value: String = c.render();
            push_line(info, "CPU: ", value.as_str());
        },
        Err(_) => {
            proof {
                assert(info@ =~= old(info)@ + seg_cpu(*r));
            }
        },
    }
}

fn push_battery_seg(info: &mut String, r: &Result<u32>)
    ensures
        final(info)@ == old(info)@ + seg_battery(*r),
{
    match r {
        Ok(b) => {
            let value: String = dec_str_u64(*b as u64);
            push_line(info, "Battery: ", value.as_str());
        },
        Err(_) => {
            proof {
                assert(info@ =~= old(info)@ + seg_battery(*r));
            }
        },
    }
}

#[verifier::rlimit(60)]
fn push_swatches(info: &mut String)
    ensures
        final(info)@ == old(info)@ + swatches_seq(),
{
    info.append("\n");
    info.append(BLACK_BG);
    info.append("   ");
    info.append(RED_BG);
    info.append("   ");
    info.append(GREEN_BG);
    info.append("   ");
    info.append(YELLOW_BG);
    info.append("   ");
    info.append(BLUE_BG);
    info.append("   ");
    info.append(MAGENTA_BG);
    info.append("   ");
    info.append(CYAN_BG);
    info.append("   ");
    info.append(WHITE_BG);
    info.append("   ");
    info.append(RESET);
    info.append("\n");
    info.append(BRIGHT_BLACK_BG);
    info.append("   ");
    info.append(BRIGHT_RED_BG);
    info.append("   ");
    info.append(BRIGHT_GREEN_BG);
    info.append("   ");
    info.append(BRIGHT_YELLOW_BG);
    info.append("   ");
    info.append(BRIGHT_BLUE_BG);
    info.append("   ");
    info.append(BRIGHT_MAGENTA_BG);
    info.append("   ");
    info.append(BRIGHT_CYAN_BG);
    info.append("   ");
    info.append(BRIGHT_WHITE_BG);
    info.append("   ");
    info.append(RESET);
    info.append("\n");
    proof {
        assert(info@ =~= old(info)@ + swatches_seq());
    }
}

impl Neofetch {
    /// Renders the whole snapshot: the info column built in the fixed order
    /// with every absent fact suppressed, joined beside the distro art.
    #[verifier::rlimit(100)]
    pub fn render(&self) -> (out: String)
        requires
            snapshot_wf(*self),
        ensures
            out@ == render_seq(*self),
    {
        let mut info: String = String::new();
        push_header(&mut info, &self.user, &self.hostname);
        let icon: String = push_os_seg(&mut info, &self.os);
        push_str_seg(&mut info, "Host: ", &self.host);
        push_str_seg(&mut info, "Rom: ", &self.rom);
        push_str_seg(&mut info, "Baseband: ", &self.baseband);
        push_str_seg(&mut info, "Kernel: ", &self.kernel);
        push_uptime_seg(&mut info, &self.uptime);
        push_packages_seg(&mut info, &self.packages);
        push_str_seg(&mut info, "Shell: ", &self.shell);
        push_display_seg(&mut info, &self.display);
        push_de_seg(&mut info, &self.de);
        push_wm_seg(&mut info, &self.wm, &self.wm_theme);
        push_terminal_seg(&mut info, &self.terminal);
        push_disk_seg(&mut info, &self.disk);
        push_cpu_seg(&mut info, &self.cpu);
        push_gpu_seg(&mut info, &self.gpu);
        push_str_seg(&mut info, "Memory: ", &self.memory);
        push_temp_seg(&mut info, &self.temperature);
        push_battery_seg(&mut info, &self.battery);
        push_str_seg(&mut info, "Local IP: ", &self.ip);
        push_network_seg(&mut info, &self.network);
        push_str_seg(&mut info, "Locale: ", &self.locale);
        push_swatches(&mut info);
        proof {
            assert(info@ =~= info_seq(*self));
            assert(icon@ == icon_of(*self));
        }
        let icon_len: usize = icon.as_str().unicode_len();
        if icon_len < usize::MAX - GAP {
            join(icon, info)
        } else {
            join(String::new(), info)
        }
    }
}

/// A substring of a string is a substring of any extension of it.
pub proof fn lemma_contains_extend(a: Seq<char>, b: Seq<char>, p: Seq<char>)
    requires
        crate::strutil::contains_seq(a, p),
    ensures
        crate::strutil::contains_seq(a + b, p),
{
    let at = choose|at: int| crate::strutil::match_at(a, p, at);
    assert((a + b).subrange(at, at + p.len() as int) =~= a.subrange(at, at + p.len() as int));
    assert(crate::strutil::match_at(a + b, p, at));
}

impl Neofetch {
    /// Builds the snapshot from every probe's outcome. This never fails:
    /// each outcome, success or error, is stored as it came. The desktop
    /// environment is the one decision made here — derived from the
    /// resolved operating system and the GNOME session flag, and absent
    /// whenever the operating system is.
    pub fn assemble(
        os: Result<OS>,
        user: Result<String>,
        host: Result<String>,
        hostname: Result<String>,
        rom: Result<String>,
        baseband: Result<String>,
        kernel: Result<String>,
        uptime: Result<Time>,
        packages: Result<Packages>,
        shell: Result<String>,
        display: Result<Vec<Display>>,
        wm: Result<String>,
        wm_theme: Result<String>,
        terminal: Result<Terminal>,
        disk: Result<Vec<Disk>>,
        cpu: Result<Cpu>,
        gpu: Result<Vec<Gpu>>,
        memory: Result<String>,
        battery: Result<u32>,
        locale: Result<String>,
        ip: Result<String>,
        temperature: Result<Vec<TempSensor>>,
        network: Result<Vec<NetworkInfo>>,
        gnome_session: bool,
    ) -> (r: Neofetch)
        ensures
            r.os == os,
            r.user == user,
            r.host == host,
            r.hostname == hostname,
            r.rom == rom,
            r.baseband == baseband,
            r.kernel == kernel,
            r.uptime == uptime,
            r.packages == packages,
            r.shell == shell,
            r.display == display,
            r.wm == wm,
            r.wm_theme == wm_theme,
            r.terminal == terminal,
            r.disk == disk,
            r.cpu == cpu,
            r.gpu == gpu,
            r.memory == memory,
            r.battery == battery,
            r.locale == locale,
            r.ip == ip,
            r.temperature == temperature,
            r.network == network,
            match r.de {
                Some(d) => os matches Ok(o) && spec_de(
                    o.name@ + " "@ + o.arch@,
                    gnome_session,
                ) == Some(d@),
                None => os matches Err(_) || (os matches Ok(o) && spec_de(
                    o.name@ + " "@ + o.arch@,
                    gnome_session,
                ) is None),
            },
            os matches Err(_) ==> r.de is None,
            (os matches Ok(o) && crate::strutil::contains_seq(o.name@, "Windows 11"@)) ==> (
            r.de matches Some(d) && d@ == "Fluent"@),
    {
        let ghost osg = os;
        let de: Option<String> = match &os {
            Ok(o) => get_de(o, gnome_session),
            Err(_) => None,
        };
        proof {
            if osg is Ok && crate::strutil::contains_seq(osg->Ok_0.name@, "Windows 11"@) {
                let o = osg->Ok_0;
                lemma_contains_extend(o.name@, " "@ + o.arch@, "Windows 11"@);
                assert(o.name@ + (" "@ + o.arch@) =~= o.name@ + " "@ + o.arch@);
            }
        }
        Neofetch {
            os,
            user,
            host,
            hostname,
            rom,
            baseband,
            kernel,
            uptime,
            packages,
            shell,
            display,
            de,
            wm,
            wm_theme,
            terminal,
            disk,
            cpu,
            gpu,
            memory,
            battery,
            locale,
            ip,
            temperature,
            network,
        }
    }
}

proof fn lemma_disk_lines_zero(v: Seq<Disk>, i: int)
    requires
        forall|k: int| 0 <= k < v.len() ==> (#[trigger] v[k]).total == 0,
        i <= v.len(),
    ensures
        disk_lines(v, i).len() == 0,
    decreases i,
{
    if i > 0 {
        lemma_disk_lines_zero(v, i - 1);
    }
}

/// Suppression: a fact's lines are absent whenever its probe failed; an
/// uptime of zero seconds, a blank package summary, a disk without a
/// reported capacity, an empty sensor list and an interface list without an
/// active member are suppressed too; a processor with unknown speed keeps
/// its name but loses the speed part; and a percentage over a zero total is
/// zero without any division.
pub proof fn lemma_suppression(s: Neofetch)
    ensures
        s.os matches Err(_) ==> seg_os(s.os) == Seq::<char>::empty(),
        s.host matches Err(_) ==> seg_str("Host: "@, s.host) == Seq::<char>::empty(),
        s.kernel matches Err(_) ==> seg_str("Kernel: "@, s.kernel) == Seq::<char>::empty(),
        s.uptime matches Err(_) ==> seg_uptime(s.uptime) == Seq::<char>::empty(),
        s.uptime matches Ok(t) && t.0 == 0 ==> seg_uptime(s.uptime) == Seq::<char>::empty(),
        s.packages matches Err(_) ==> seg_packages(s.packages) == Seq::<char>::empty(),
        s.packages matches Ok(p) && trim_seq(packages_seq(p)).len() == 0 ==> seg_packages(
            s.packages,
        ) == Seq::<char>::empty(),
        s.display matches Err(_) ==> seg_display(s.display) == Seq::<char>::empty(),
        s.de is None ==> seg_de(s.de) == Seq::<char>::empty(),
        s.wm matches Err(_) ==> seg_wm(s.wm, s.wm_theme) == Seq::<char>::empty(),
        s.terminal matches Err(_) ==> seg_terminal(s.terminal) == Seq::<char>::empty(),
        s.disk matches Err(_) ==> seg_disk(s.disk) == Seq::<char>::empty(),
        s.disk matches Ok(v) && (forall|k: int|
            0 <= k < v@.len() ==> (#[trigger] v@[k]).total == 0) ==> seg_disk(s.disk)
            == Seq::<char>::empty(),
        s.cpu matches Err(_) ==> seg_cpu(s.cpu) == Seq::<char>::empty(),
        s.gpu matches Err(_) ==> seg_gpu(s.gpu) == Seq::<char>::empty(),
        s.memory matches Err(_) ==> seg_str("Memory: "@, s.memory) == Seq::<char>::empty(),
        s.temperature matches Err(_) ==> seg_temperature(s.temperature) == Seq::<char>::empty(),
        s.temperature matches Ok(v) && v@.len() == 0 ==> seg_temperature(s.temperature)
            == Seq::<char>::empty(),
        s.battery matches Err(_) ==> seg_battery(s.battery) == Seq::<char>::empty(),
        s.network matches Err(_) ==> seg_network(s.network) == Seq::<char>::empty(),
        s.network matches Ok(v) && active_of(v@).len() == 0 ==> seg_network(s.network)
            == Seq::<char>::empty(),
        s.locale matches Err(_) ==> seg_str("Locale: "@, s.locale) == Seq::<char>::empty(),
        forall|name: Seq<char>, cores: int|
            #[trigger] cpu_seq(name, cores, 0) == name + (if cores > 0 {
                " ("@ + dec_seq(cores) + ")"@
            } else {
                Seq::<char>::empty()
            }),
        forall|used: int| #[trigger] crate::disk::percent_of(used, 0) == 0,
{
    if s.disk matches Ok(v) && (forall|k: int|
        0 <= k < v@.len() ==> (#[trigger] v@[k]).total == 0) {
        let v = s.disk->Ok_0;
        lemma_disk_lines_zero(v@, v@.len() as int);
        assert(seg_disk(s.disk) =~= Seq::<char>::empty());
    }
    assert forall|name: Seq<char>, cores: int|
        #[trigger] cpu_seq(name, cores, 0) == name + (if cores > 0 {
            " ("@ + dec_seq(cores) + ")"@
        } else {
            Seq::<char>::empty()
        }) by {
        assert(cpu_seq(name, cores, 0) =~= name + (if cores > 0 {
            " ("@ + dec_seq(cores) + ")"@
        } else {
            Seq::<char>::empty()
        }));
    }
}

/// The aggregation never fails: however many probes failed — all of them
/// included — the snapshot is complete, and its rendering still holds the
/// header and the color swatches and nothing else in its info column.
pub proof fn lemma_render_all_absent(s: Neofetch)
    requires
        s.os is Err,
        s.user is Err,
        s.host is Err,
        s.hostname is Err,
        s.rom is Err,
        s.baseband is Err,
        s.kernel is Err,
        s.uptime is Err,
        s.packages is Err,
        s.shell is Err,
        s.display is Err,
        s.de is None,
        s.wm is Err,
        s.wm_theme is Err,
        s.terminal is Err,
        s.disk is Err,
        s.cpu is Err,
        s.gpu is Err,
        s.memory is Err,
        s.battery is Err,
        s.locale is Err,
        s.ip is Err,
        s.temperature is Err,
        s.network is Err,
    ensures
        info_seq(s) == header_seq(Seq::<char>::empty(), Seq::<char>::empty()) + swatches_seq(),
        icon_of(s) == Seq::<char>::empty(),
        render_seq(s) == join_seq(
            Seq::<char>::empty(),
            header_seq(Seq::<char>::empty(), Seq::<char>::empty()) + swatches_seq(),
        ),
{
    assert(info_seq(s) =~= header_seq(Seq::<char>::empty(), Seq::<char>::empty())
        + swatches_seq());
}

} // verus!
