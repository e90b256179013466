//! Visible width of terminal text: what remains of a string once its
//! select-graphic-rendition escape sequences are stripped.

use vstd::prelude::*;

use crate::strutil::spaces_seq;

verus! {

/// The escape character that opens a terminal control sequence.
pub open spec fn esc_char() -> char {
    '\u{1b}'
}

/// The characters of `s` from position `i` on that are outside
/// `ESC [ ... m` sequences; `in_esc` tells whether position `i` is inside one.
pub open spec fn strip_rec(s: Seq<char>, i: int, in_esc: bool) -> Seq<char>
    decreases s.len() - i,
{
    if i < 0 || i >= s.len() {
        Seq::empty()
    } else if in_esc {
        if s[i] == 'm' {
            strip_rec(s, i + 1, false)
        } else {
            strip_rec(s, i + 1, true)
        }
    } else if s[i] == esc_char() && i + 1 < s.len() && s[i + 1] == '[' {
        strip_rec(s, i + 2, true)
    } else {
        seq![s[i]] + strip_rec(s, i + 1, false)
    }
}

/// `s` with every `ESC [ ... m` sequence removed.
pub open spec fn strip_sgr(s: Seq<char>) -> Seq<char> {
    strip_rec(s, 0, false)
}

/// The number of terminal columns `s` occupies: its length once escape
/// sequences are stripped.
pub open spec fn visible_width(s: Seq<char>) -> int {
    strip_sgr(s).len() as int
}

/// Whether every escape sequence that starts in `s` also ends in it.
pub open spec fn sgr_closed_rec(s: Seq<char>, i: int, in_esc: bool) -> bool
    decreases s.len() - i,
{
    if i < 0 || i >= s.len() {
        !in_esc
    } else if in_esc {
        if s[i] == 'm' {
            sgr_closed_rec(s, i + 1, false)
        } else {
            sgr_closed_rec(s, i + 1, true)
        }
    } else if s[i] == esc_char() && i + 1 < s.len() && s[i + 1] == '[' {
        sgr_closed_rec(s, i + 2, true)
    } else {
        sgr_closed_rec(s, i + 1, false)
    }
}

/// Whether `s` holds no unterminated escape sequence, and no lone escape
/// character that the stripping would keep.
pub open spec fn sgr_closed(s: Seq<char>) -> bool {
    sgr_closed_rec(s, 0, false)
}

proof fn lemma_strip_rec_len(s: Seq<char>, i: int, in_esc: bool)
    requires
        0 <= i,
    ensures
        strip_rec(s, i, in_esc).len() <= if i >= s.len() {
            0int
        } else {
            s.len() - i
        },
    decreases s.len() - i,
{
    if i >= s.len() {
    } else if in_esc {
        lemma_strip_rec_len(s, i + 1, in_esc && s[i] != 'm');
    } else if s[i] == esc_char() && i + 1 < s.len() && s[i + 1] == '[' {
        lemma_strip_rec_len(s, i + 2, true);
    } else {
        lemma_strip_rec_len(s, i + 1, false);
    }
}

/// Stripping never lengthens a string.
pub proof fn lemma_strip_len(s: Seq<char>)
    ensures
        strip_sgr(s).len() <= s.len(),
        0 <= visible_width(s) <= s.len(),
{
    lemma_strip_rec_len(s, 0, false);
}

proof fn lemma_strip_rec_append(s: Seq<char>, t: Seq<char>, i: int, in_esc: bool)
    requires
        0 <= i <= s.len(),
        sgr_closed_rec(s, i, in_esc),
        forall|j: int| 0 <= j < t.len() ==> t[j] != esc_char(),
        t.len() == 0 || t[0] != '[',
    ensures
        strip_rec(s + t, i, in_esc) == strip_rec(s, i, in_esc) + t,
    decreases s.len() - i,
{
    let st = s + t;
    if i >= s.len() {
        assert(!in_esc);
        assert(strip_rec(s, i, in_esc) =~= Seq::empty());
        lemma_strip_shift(s, t, 0, false);
        assert(strip_rec(st, i, false) == strip_rec(t, 0, false));
        lemma_strip_all_plain(t, 0);
        assert(t.skip(0) =~= t);
        assert(strip_rec(s, i, in_esc) + t =~= t);
    } else if in_esc {
        lemma_strip_rec_append(s, t, i + 1, s[i] != 'm');
        assert(st[i] == s[i]);
    } else if s[i] == esc_char() && i + 1 < s.len() && s[i + 1] == '[' {
        lemma_strip_rec_append(s, t, i + 2, true);
        assert(st[i] == s[i] && st[i + 1] == s[i + 1]);
    } else {
        assert(st[i] == s[i]);
        if st[i] == esc_char() && i + 1 < st.len() && st[i + 1] == '[' {
            if i + 1 < s.len() {
                assert(false);
            } else {
                assert(t[0] == '[');
                assert(false);
            }
        }
        lemma_strip_rec_append(s, t, i + 1, false);
        assert(strip_rec(st, i, false) == seq![st[i]] + (strip_rec(s, i + 1, false) + t));
        assert(seq![st[i]] + (strip_rec(s, i + 1, false) + t) =~= (seq![s[i]] + strip_rec(
            s,
            i + 1,
            false,
        )) + t);
    }
}

proof fn lemma_strip_shift(s: Seq<char>, t: Seq<char>, k: int, in_esc: bool)
    requires
        0 <= k,
    ensures
        strip_rec(s + t, s.len() + k, in_esc) == strip_rec(t, k, in_esc),
    decreases t.len() - k,
{
    let st = s + t;
    let i = s.len() + k;
    if k >= t.len() {
        assert(i >= st.len());
    } else {
        assert(st[i] == t[k]);
        if in_esc {
            lemma_strip_shift(s, t, k + 1, in_esc && t[k] != 'm');
        } else if t[k] == esc_char() && k + 1 < t.len() && t[k + 1] == '[' {
            assert(st[i + 1] == t[k + 1]);
            lemma_strip_shift(s, t, k + 2, true);
        } else if t[k] == esc_char() && i + 1 < st.len() && st[i + 1] == '[' {
            assert(k + 1 < t.len() && st[i + 1] == t[k + 1]);
            assert(false);
        } else {
            lemma_strip_shift(s, t, k + 1, false);
        }
    }
}

proof fn lemma_strip_all_plain(t: Seq<char>, i: int)
    requires
        forall|j: int| 0 <= j < t.len() ==> t[j] != esc_char(),
    ensures
        0 <= i <= t.len() ==> strip_rec(t, i, false) == t.skip(i),
    decreases t.len() - i,
{
    if 0 <= i < t.len() {
        lemma_strip_all_plain(t, i + 1);
        assert(strip_rec(t, i, false) == seq![t[i]] + strip_rec(t, i + 1, false));
        assert(seq![t[i]] + t.skip(i + 1) =~= t.skip(i));
    } else if i == t.len() {
        assert(strip_rec(t, i, false) =~= t.skip(i));
    }
}

/// Stripping a well-formed string followed by plain padding strips the
/// string alone and keeps the padding.
pub proof fn lemma_strip_append_spaces(s: Seq<char>, n: int)
    requires
        sgr_closed(s),
        n >= 0,
    ensures
        strip_sgr(s + spaces_seq(n)) == strip_sgr(s) + spaces_seq(n),
        visible_width(s + spaces_seq(n)) == visible_width(s) + n,
{
    assert(forall|j: int| 0 <= j < spaces_seq(n).len() ==> spaces_seq(n)[j] != esc_char());
    lemma_strip_rec_append(s, spaces_seq(n), 0, false);
}

/// The number of terminal columns that `s` occupies: the length of `s` with
/// every `ESC [ ... m` escape sequence stripped out.
pub fn ascii_len(s: &str) -> (n: usize)
    ensures
        n == visible_width(s@),
{
    let len: usize = s.unicode_len();
    let mut n: usize = 0;
    let mut i: usize = 0;
    let mut in_esc: bool = false;
    proof {
        lemma_strip_rec_len(s@, 0, false);
    }
    while i < len
        invariant
            len == s@.len(),
            i <= len,
            n + strip_rec(s@, i as int, in_esc).len() == strip_sgr(s@).len(),
            n <= i,
        decreases len - i,
    {
        let c: char = s.get_char(i);
        if in_esc {
            if c == 'm' {
                in_esc = false;
            }
            i = i + 1;
        } else if c == '\u{1b}' && i + 1 < len && s.get_char(i + 1) == '[' {
            in_esc = true;
            i = i + 2;
        } else {
            proof {
                assert(strip_rec(s@, i as int, false) == seq![s@[i as int]] + strip_rec(
                    s@,
                    i + 1,
                    false,
                ));
            }
            n = n + 1;
            i = i + 1;
        }
    }
    proof {
        lemma_strip_len(s@);
    }
    n
}

/// Whether every escape sequence in `s` is terminated; the width arithmetic
/// of the layout laws assumes this of its inputs.
pub fn sgr_closed_exec(s: &str) -> (r: bool)
    ensures
        r == sgr_closed(s@),
{
    let len: usize = s.unicode_len();
    let mut i: usize = 0;
    let mut in_esc: bool = false;
    while i < len
        invariant
            len == s@.len(),
            i <= len,
            sgr_closed(s@) == sgr_closed_rec(s@, i as int, in_esc),
        decreases len - i,
    {
        let c: char = s.get_char(i);
        if in_esc {
            if c == 'm' {
                in_esc = false;
            }
            i = i + 1;
        } else if c == '\u{1b}' && i + 1 < len && s.get_char(i + 1) == '[' {
            in_esc = true;
            i = i + 2;
        } else {
            i = i + 1;
        }
    }
    !in_esc
}

} // verus!
