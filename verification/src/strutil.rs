//! Verified building blocks for text handling: decimal rendering, padding,
//! substring search, line splitting and digit parsing.

use vstd::prelude::*;

verus! {

/// A run of `n` space characters.
pub open spec fn spaces_seq(n: int) -> Seq<char> {
    Seq::new(n as nat, |i: int| ' ')
}

/// The character for one decimal digit.
pub open spec fn digit_char(d: int) -> char {
    if d == 0 {
        '0'
    } else if d == 1 {
        '1'
    } else if d == 2 {
        '2'
    } else if d == 3 {
        '3'
    } else if d == 4 {
        '4'
    } else if d == 5 {
        '5'
    } else if d == 6 {
        '6'
    } else if d == 7 {
        '7'
    } else if d == 8 {
        '8'
    } else {
        '9'
    }
}

/// The decimal numeral of a non-negative integer, most significant digit first.
pub open spec fn dec_seq(n: int) -> Seq<char>
    decreases n,
{
    if n < 10 {
        seq![digit_char(n)]
    } else {
        dec_seq(n / 10).push(digit_char(n % 10))
    }
}

pub fn spaces(n: usize) -> (s: String)
    ensures
        s@ == spaces_seq(n as int),
{
    let mut s: String = String::new();
    let mut i: usize = 0;
    proof {
        reveal_strlit(" ");
    }
    while i < n
        invariant
            i <= n,
            s@ == spaces_seq(i as int),
            " "@ == seq![' '],
        decreases n - i,
    {
        s.append(" ");
        i = i + 1;
        proof {
            assert(s@ =~= spaces_seq(i as int));
        }
    }
    s
}

fn digit_str(d: usize) -> (s: &'static str)
    requires
        d < 10,
    ensures
        s@ == seq![digit_char(d as int)],
{
    let s: &'static str = match d {
        0 => "0",
        1 => "1",
        2 => "2",
        3 => "3",
        4 => "4",
        5 => "5",
        6 => "6",
        7 => "7",
        8 => "8",
        _ => "9",
    };
    proof {
        reveal_strlit("0");
        reveal_strlit("1");
        reveal_strlit("2");
        reveal_strlit("3");
        reveal_strlit("4");
        reveal_strlit("5");
        reveal_strlit("6");
        reveal_strlit("7");
        reveal_strlit("8");
        reveal_strlit("9");
        assert(s@ =~= seq![digit_char(d as int)]);
    }
    s
}

/// Renders `n` in decimal.
pub fn dec_str_u64(n: u64) -> (s: String)
    ensures
        s@ == dec_seq(n as int),
    decreases n,
{
    if n < 10 {
        let mut s: String = String::new();
        s.append(digit_str((n % 10) as usize));
        proof {
            assert(s@ =~= dec_seq(n as int));
        }
        s
    } else {
        let mut s: String = dec_str_u64(n / 10);
        s.append(digit_str((n % 10) as usize));
        proof {
            assert(s@ =~= dec_seq(n as int));
        }
        s
    }
}

/// Renders `n` in decimal.
pub fn dec_str(n: usize) -> (s: String)
    ensures
        s@ == dec_seq(n as int),
{
    dec_str_u64(n as u64)
}

/// The decimal numeral of an integer, with a minus sign when it is negative.
pub open spec fn int_seq(n: int) -> Seq<char> {
    if n < 0 {
        "-"@ + dec_seq(-n)
    } else {
        dec_seq(n)
    }
}

/// Renders `n` in decimal, minus sign included.
pub fn int_str(n: i64) -> (s: String)
    requires
        n > i64::MIN,
    ensures
        s@ == int_seq(n as int),
{
    if n < 0 {
        let mut s: String = String::new();
        s.append("-");
        s.append(dec_str_u64((-n) as u64).as_str());
        proof {
            assert(s@ =~= int_seq(n as int));
        }
        s
    } else {
        dec_str_u64(n as u64)
    }
}

/// Whether two string slices hold the same characters.
pub fn str_eq(a: &str, b: &str) -> (r: bool)
    ensures
        r == (a@ == b@),
{
    let alen: usize = a.unicode_len();
    let blen: usize = b.unicode_len();
    if alen != blen {
        proof {
            assert(a@ != b@);
        }
        return false;
    }
    let mut i: usize = 0;
    while i < alen
        invariant
            alen == a@.len(),
            blen == b@.len(),
            alen == blen,
            i <= alen,
            forall|j: int| 0 <= j < i ==> a@[j] == b@[j],
        decreases alen - i,
    {
        if a.get_char(i) != b.get_char(i) {
            proof {
                assert(a@[i as int] != b@[i as int]);
            }
            return false;
        }
        i = i + 1;
    }
    proof {
        assert(a@ =~= b@);
    }
    true
}

/// Whether `p` occurs at the front of `s`.
pub open spec fn starts_with_seq(s: Seq<char>, p: Seq<char>) -> bool {
    p.len() <= s.len() && s.subrange(0, p.len() as int) == p
}

/// Whether `p` occurs in `s` at position `at`.
pub open spec fn match_at(s: Seq<char>, p: Seq<char>, at: int) -> bool {
    0 <= at && at + p.len() <= s.len() && s.subrange(at, at + p.len()) == p
}

/// Whether `p` occurs anywhere in `s`.
pub open spec fn contains_seq(s: Seq<char>, p: Seq<char>) -> bool {
    exists|at: int| match_at(s, p, at)
}

fn match_at_exec(s: &str, p: &str, at: usize, slen: usize, plen: usize) -> (r: bool)
    requires
        slen == s@.len(),
        plen == p@.len(),
        at + plen <= slen,
    ensures
        r == match_at(s@, p@, at as int),
{
    let mut j: usize = 0;
    while j < plen
        invariant
            slen == s@.len(),
            plen == p@.len(),
            at + plen <= slen,
            j <= plen,
            forall|k: int| 0 <= k < j ==> s@[at + k] == p@[k],
        decreases plen - j,
    {
        if s.get_char(at + j) != p.get_char(j) {
            proof {
                assert(s@.subrange(at as int, at + p@.len())[j as int] != p@[j as int]);
            }
            return false;
        }
        j = j + 1;
    }
    proof {
        assert(s@.subrange(at as int, at + p@.len()) =~= p@);
    }
    true
}

/// Whether `s` starts with `p`.
pub fn str_starts_with(s: &str, p: &str) -> (r: bool)
    ensures
        r == starts_with_seq(s@, p@),
{
    let slen: usize = s.unicode_len();
    let plen: usize = p.unicode_len();
    if plen > slen {
        return false;
    }
    match_at_exec(s, p, 0, slen, plen)
}

/// Whether `s` contains `p` as a substring.
pub fn str_contains(s: &str, p: &str) -> (r: bool)
    ensures
        r == contains_seq(s@, p@),
{
    let slen: usize = s.unicode_len();
    let plen: usize = p.unicode_len();
    if plen > slen {
        proof {
            assert(forall|at: int| !match_at(s@, p@, at));
        }
        return false;
    }
    if plen == 0 {
        proof {
            assert(s@.subrange(0, 0) =~= p@);
            assert(match_at(s@, p@, 0));
        }
        return true;
    }
    let mut i: usize = 0;
    while i <= slen - plen
        invariant
            slen == s@.len(),
            plen == p@.len(),
            0 < plen <= slen,
            i <= slen - plen + 1,
            forall|at: int| 0 <= at < i ==> !match_at(s@, p@, at),
        decreases slen - plen - i + 1,
    {
        if match_at_exec(s, p, i, slen, plen) {
            return true;
        }
        i = i + 1;
    }
    proof {
        assert(forall|at: int| !match_at(s@, p@, at));
    }
    false
}

/// The first position where `p` occurs in `s` at or after `i`; the length
/// when it does not.
pub open spec fn find_sub_from(s: Seq<char>, p: Seq<char>, i: int) -> int
    decreases s.len() - i,
{
    if i < 0 || p.len() == 0 || i > s.len() - p.len() {
        s.len() as int
    } else if s.subrange(i, i + p.len()) == p {
        i
    } else {
        find_sub_from(s, p, i + 1)
    }
}

/// Finds the first occurrence of `p` in `s`.
pub fn str_find(s: &str, p: &str) -> (r: Option<usize>)
    requires
        p@.len() > 0,
    ensures
        match r {
            Some(i) => i == find_sub_from(s@, p@, 0) && match_at(s@, p@, i as int),
            None => find_sub_from(s@, p@, 0) == s@.len() && forall|at: int| !match_at(s@, p@, at),
        },
{
    let slen: usize = s.unicode_len();
    let plen: usize = p.unicode_len();
    if plen > slen {
        proof {
            assert(forall|at: int| !match_at(s@, p@, at));
        }
        return None;
    }
    let mut i: usize = 0;
    while i <= slen - plen
        invariant
            slen == s@.len(),
            plen == p@.len(),
            0 < plen <= slen,
            i <= slen - plen + 1,
            find_sub_from(s@, p@, 0) == find_sub_from(s@, p@, i as int),
            forall|at: int| 0 <= at < i ==> !match_at(s@, p@, at),
        decreases slen - plen - i + 1,
    {
        if match_at_exec(s, p, i, slen, plen) {
            return Some(i);
        }
        i = i + 1;
    }
    proof {
        assert(forall|at: int| !match_at(s@, p@, at));
    }
    None
}

/// ASCII whitespace, as the trimming functions understand it.
pub open spec fn is_space(c: char) -> bool {
    c == ' ' || c == '\t' || c == '\r' || c == '\n'
}

pub open spec fn trim_start_seq(s: Seq<char>) -> Seq<char>
    decreases s.len(),
{
    if s.len() > 0 && is_space(s[0]) {
        trim_start_seq(s.drop_first())
    } else {
        s
    }
}

pub open spec fn trim_end_seq(s: Seq<char>) -> Seq<char>
    decreases s.len(),
{
    if s.len() > 0 && is_space(s.last()) {
        trim_end_seq(s.drop_last())
    } else {
        s
    }
}

/// `s` without leading and trailing ASCII whitespace.
pub open spec fn trim_seq(s: Seq<char>) -> Seq<char> {
    trim_end_seq(trim_start_seq(s))
}

fn is_space_exec(c: char) -> (r: bool)
    ensures
        r == is_space(c),
{
    c == ' ' || c == '\t' || c == '\r' || c == '\n'
}

/// Trims ASCII whitespace from both ends.
pub fn str_trim(s: &str) -> (r: &str)
    ensures
        r@ == trim_seq(s@),
{
    let len: usize = s.unicode_len();
    let mut start: usize = 0;
    proof {
        assert(s@.skip(0) =~= s@);
    }
    while start < len && is_space_exec(s.get_char(start))
        invariant
            len == s@.len(),
            start <= len,
            trim_start_seq(s@) == trim_start_seq(s@.skip(start as int)),
        decreases len - start,
    {
        proof {
            assert(s@.skip(start as int).drop_first() =~= s@.skip(start + 1));
        }
        start = start + 1;
    }
    proof {
        if start < len {
            assert(trim_start_seq(s@.skip(start as int)) == s@.skip(start as int));
        } else {
            assert(s@.skip(start as int) =~= Seq::<char>::empty());
        }
    }
    let mut end: usize = len;
    while end > start && is_space_exec(s.get_char(end - 1))
        invariant
            len == s@.len(),
            start <= end <= len,
            trim_start_seq(s@) == s@.skip(start as int) || s@.skip(start as int)
                =~= Seq::<char>::empty(),
            trim_end_seq(s@.subrange(start as int, len as int)) == trim_end_seq(
                s@.subrange(start as int, end as int),
            ),
        decreases end,
    {
        proof {
            assert(s@.subrange(start as int, end as int).drop_last() =~= s@.subrange(
                start as int,
                end - 1,
            ));
        }
        end = end - 1;
    }
    let r: &str = s.substring_char(start, end);
    proof {
        assert(s@.skip(start as int) =~= s@.subrange(start as int, len as int));
        if end > start {
            assert(trim_end_seq(s@.subrange(start as int, end as int)) == s@.subrange(
                start as int,
                end as int,
            ));
        } else {
            assert(s@.subrange(start as int, end as int) =~= Seq::<char>::empty());
        }
    }
    r
}

pub open spec fn trim_start_char_seq(s: Seq<char>, c: char) -> Seq<char>
    decreases s.len(),
{
    if s.len() > 0 && s[0] == c {
        trim_start_char_seq(s.drop_first(), c)
    } else {
        s
    }
}

pub open spec fn trim_end_char_seq(s: Seq<char>, c: char) -> Seq<char>
    decreases s.len(),
{
    if s.len() > 0 && s.last() == c {
        trim_end_char_seq(s.drop_last(), c)
    } else {
        s
    }
}

/// `s` without any leading or trailing run of the character `c`.
pub open spec fn trim_char_seq(s: Seq<char>, c: char) -> Seq<char> {
    trim_end_char_seq(trim_start_char_seq(s, c), c)
}

/// Trims every leading and trailing occurrence of `c` from both ends.
pub fn str_trim_char(s: &str, c: char) -> (r: &str)
    ensures
        r@ == trim_char_seq(s@, c),
{
    let len: usize = s.unicode_len();
    let mut start: usize = 0;
    proof {
        assert(s@.skip(0) =~= s@);
    }
    while start < len && s.get_char(start) == c
        invariant
            len == s@.len(),
            start <= len,
            trim_start_char_seq(s@, c) == trim_start_char_seq(s@.skip(start as int), c),
        decreases len - start,
    {
        proof {
            assert(s@.skip(start as int).drop_first() =~= s@.skip(start + 1));
        }
        start = start + 1;
    }
    proof {
        if start < len {
            assert(trim_start_char_seq(s@.skip(start as int), c) == s@.skip(start as int));
        } else {
            assert(s@.skip(start as int) =~= Seq::<char>::empty());
        }
    }
    let mut end: usize = len;
    while end > start && s.get_char(end - 1) == c
        invariant
            len == s@.len(),
            start <= end <= len,
            trim_start_char_seq(s@, c) == s@.skip(start as int) || s@.skip(start as int)
                =~= Seq::<char>::empty(),
            trim_end_char_seq(s@.subrange(start as int, len as int), c) == trim_end_char_seq(
                s@.subrange(start as int, end as int),
                c,
            ),
        decreases end,
    {
        proof {
            assert(s@.subrange(start as int, end as int).drop_last() =~= s@.subrange(
                start as int,
                end - 1,
            ));
        }
        end = end - 1;
    }
    let r: &str = s.substring_char(start, end);
    proof {
        assert(s@.skip(start as int) =~= s@.subrange(start as int, len as int));
        if end > start {
            assert(trim_end_char_seq(s@.subrange(start as int, end as int), c) == s@.subrange(
                start as int,
                end as int,
            ));
        } else {
            assert(s@.subrange(start as int, end as int) =~= Seq::<char>::empty());
        }
    }
    r
}

/// Whether `c` is a decimal digit.
pub open spec fn is_digit(c: char) -> bool {
    48 <= c as u32 <= 57
}

/// The numeric value of a digit character.
pub open spec fn digit_val(c: char) -> int {
    c as u32 - 48
}

/// Whether `s` consists of decimal digits only.
pub open spec fn all_digits(s: Seq<char>) -> bool {
    forall|i: int| 0 <= i < s.len() ==> is_digit(#[trigger] s[i])
}

/// The value of a run of decimal digits, most significant first.
pub open spec fn digits_val(s: Seq<char>) -> int
    decreases s.len(),
{
    if s.len() == 0 {
        0
    } else {
        digits_val(s.drop_last()) * 10 + digit_val(s.last())
    }
}

proof fn lemma_digits_val_nonneg(s: Seq<char>)
    requires
        all_digits(s),
    ensures
        digits_val(s) >= 0,
    decreases s.len(),
{
    if s.len() > 0 {
        assert(all_digits(s.drop_last()));
        lemma_digits_val_nonneg(s.drop_last());
    }
}

proof fn lemma_digits_val_take_le(s: Seq<char>, i: int)
    requires
        all_digits(s),
        0 <= i <= s.len(),
    ensures
        digits_val(s.take(i)) <= digits_val(s),
    decreases s.len() - i,
{
    if i == s.len() {
        assert(s.take(i) =~= s);
    } else {
        lemma_digits_val_take_le(s, i + 1);
        assert(s.take(i + 1).drop_last() =~= s.take(i));
        assert(all_digits(s.take(i)));
        lemma_digits_val_nonneg(s.take(i));
        assert(digits_val(s.take(i + 1)) == digits_val(s.take(i)) * 10 + digit_val(s[i]));
    }
}

fn digit_of(c: char) -> (r: Option<u64>)
    ensures
        r matches Some(v) ==> is_digit(c) && v == digit_val(c),
        r is None ==> !is_digit(c),
{
    let u: u32 = c as u32;
    if 48 <= u && u <= 57 {
        Some((u - 48) as u64)
    } else {
        None
    }
}

/// Parses a run of decimal digits as a `u64`. Returns `Some` exactly when the
/// string is non-empty, holds digits only, and its value fits.
pub fn parse_u64(s: &str) -> (r: Option<u64>)
    ensures
        r matches Some(v) ==> s@.len() > 0 && all_digits(s@) && v == digits_val(s@),
        r is None ==> s@.len() == 0 || !all_digits(s@) || digits_val(s@) > u64::MAX,
{
    let len: usize = s.unicode_len();
    if len == 0 {
        return None;
    }
    let mut acc: u64 = 0;
    let mut i: usize = 0;
    while i < len
        invariant
            len == s@.len(),
            i <= len,
            all_digits(s@.take(i as int)),
            acc == digits_val(s@.take(i as int)),
        decreases len - i,
    {
        let c: char = s.get_char(i);
        match digit_of(c) {
            None => {
                proof {
                    assert(!is_digit(s@[i as int]));
                }
                return None;
            },
            Some(d) => {
                if acc > (u64::MAX - d) / 10 {
                    proof {
                        assert(s@.take(i + 1).drop_last() =~= s@.take(i as int));
                        assert(s@.take(i + 1).last() == s@[i as int]);
                        assert(all_digits(s@.take(i + 1)));
                        assert(digits_val(s@.take(i + 1)) == acc * 10 + d);
                        if all_digits(s@) {
                            lemma_digits_val_take_le(s@, i + 1);
                            assert(digits_val(s@) > u64::MAX);
                        }
                    }
                    return None;
                }
                proof {
                    assert(s@.take(i + 1).drop_last() =~= s@.take(i as int));
                    assert(s@.take(i + 1).last() == s@[i as int]);
                }
                acc = acc * 10 + d;
                i = i + 1;
            },
        }
    }
    proof {
        assert(s@.take(len as int) =~= s@);
    }
    Some(acc)
}

/// Parses a run of decimal digits as a `u32`.
pub fn parse_u32(s: &str) -> (r: Option<u32>)
    ensures
        r matches Some(v) ==> s@.len() > 0 && all_digits(s@) && v == digits_val(s@),
        r is None ==> s@.len() == 0 || !all_digits(s@) || digits_val(s@) > u32::MAX,
{
    match parse_u64(s) {
        Some(v) => if v <= u32::MAX as u64 {
            Some(v as u32)
        } else {
            None
        },
        None => None,
    }
}

/// Relies on `String::push`: appends exactly the one character to the string.
#[verifier::external_body]
pub fn push_char(s: &mut String, c: char)
    ensures
        final(s)@ == old(s)@.push(c),
{
    s.push(c);
}

/// Ten to the `n`.
pub open spec fn pow10(n: int) -> int
    decreases n,
{
    if n <= 0 {
        1
    } else {
        10 * pow10(n - 1)
    }
}

/// A run of digits is worth less than ten to its length.
pub proof fn lemma_digits_val_bound(s: Seq<char>)
    requires
        all_digits(s),
    ensures
        0 <= digits_val(s) < pow10(s.len() as int),
    decreases s.len(),
{
    if s.len() == 0 {
    } else {
        assert(all_digits(s.drop_last()));
        lemma_digits_val_bound(s.drop_last());
        assert(is_digit(s.last()));
        assert(digit_val(s.last()) <= 9);
    }
}

/// Lower-cases one character, folding the ASCII range only.
pub open spec fn lower_char(c: char) -> char {
    if 65 <= c as u32 <= 90 {
        ((c as u8) + 32) as char
    } else {
        c
    }
}

/// Lower-cases the ASCII range of a string.
pub open spec fn lower_seq(s: Seq<char>) -> Seq<char> {
    s.map_values(|c: char| lower_char(c))
}

/// Lower-cases the ASCII letters of `s`, leaving every other character alone.
pub fn ascii_lower(s: &str) -> (r: String)
    ensures
        r@ == lower_seq(s@),
{
    let len: usize = s.unicode_len();
    let mut r: String = String::new();
    let mut i: usize = 0;
    while i < len
        invariant
            len == s@.len(),
            i <= len,
            r@ == lower_seq(s@.take(i as int)),
        decreases len - i,
    {
        let c: char = s.get_char(i);
        let u: u32 = c as u32;
        let lc: char = if 65 <= u && u <= 90 {
            ((c as u8) + 32) as char
        } else {
            c
        };
        push_char(&mut r, lc);
        proof {
            assert(r@ =~= lower_seq(s@.take(i + 1)));
        }
        i = i + 1;
    }
    proof {
        assert(s@.take(len as int) =~= s@);
    }
    r
}

/// The first position of `c` in `s` at or after `i`; the length when there
/// is none.
pub open spec fn find_from(s: Seq<char>, c: char, i: int) -> int
    decreases s.len() - i,
{
    if i < 0 || i >= s.len() {
        s.len() as int
    } else if s[i] == c {
        i
    } else {
        find_from(s, c, i + 1)
    }
}

proof fn lemma_find_from_bounds(s: Seq<char>, c: char, i: int)
    requires
        0 <= i <= s.len(),
    ensures
        i <= find_from(s, c, i) <= s.len(),
        find_from(s, c, i) < s.len() ==> s[find_from(s, c, i)] == c,
        forall|j: int| i <= j < find_from(s, c, i) ==> s[j] != c,
    decreases s.len() - i,
{
    if i < s.len() && s[i] != c {
        lemma_find_from_bounds(s, c, i + 1);
    }
}

/// Finds the first occurrence of `c` in `s`.
pub fn find_char(s: &str, c: char) -> (r: Option<usize>)
    ensures
        match r {
            Some(i) => i == find_from(s@, c, 0) && i < s@.len() && s@[i as int] == c,
            None => find_from(s@, c, 0) == s@.len(),
        },
{
    let len: usize = s.unicode_len();
    let mut i: usize = 0;
    while i < len
        invariant
            len == s@.len(),
            i <= len,
            find_from(s@, c, 0) == find_from(s@, c, i as int),
        decreases len - i,
    {
        if s.get_char(i) == c {
            return Some(i);
        }
        i = i + 1;
    }
    None
}

/// The first whitespace-delimited token of `s`: what stands between the
/// leading whitespace and the next whitespace after it.
pub open spec fn first_token(s: Seq<char>) -> Seq<char> {
    trim_start_seq(s).take(first_space_at(trim_start_seq(s), 0))
}

/// The first position of a whitespace character at or after `i`; the length
/// when there is none.
pub open spec fn first_space_at(s: Seq<char>, i: int) -> int
    decreases s.len() - i,
{
    if i < 0 || i >= s.len() {
        s.len() as int
    } else if is_space(s[i]) {
        i
    } else {
        first_space_at(s, i + 1)
    }
}

/// Takes the first whitespace-delimited token of `s`.
pub fn str_first_token(s: &str) -> (r: &str)
    ensures
        r@ == first_token(s@),
{
    let len: usize = s.unicode_len();
    let mut start: usize = 0;
    proof {
        assert(s@.skip(0) =~= s@);
    }
    while start < len && is_space_exec(s.get_char(start))
        invariant
            len == s@.len(),
            start <= len,
            trim_start_seq(s@) == trim_start_seq(s@.skip(start as int)),
        decreases len - start,
    {
        proof {
            assert(s@.skip(start as int).drop_first() =~= s@.skip(start + 1));
        }
        start = start + 1;
    }
    let ghost tail = s@.skip(start as int);
    proof {
        if start < len {
            assert(trim_start_seq(tail) == tail);
        } else {
            assert(tail =~= Seq::<char>::empty());
            assert(trim_start_seq(tail) == tail);
        }
    }
    let mut end: usize = start;
    while end < len && !is_space_exec(s.get_char(end))
        invariant
            len == s@.len(),
            start <= end <= len,
            tail == s@.skip(start as int),
            first_space_at(tail, 0) == first_space_at(tail, end - start as int),
        decreases len - end,
    {
        end = end + 1;
    }
    proof {
        if end < len {
            assert(first_space_at(tail, end - start as int) == end - start);
        } else {
            assert(first_space_at(tail, end - start as int) == tail.len());
            assert(tail.len() == len - start);
        }
        assert(tail.take(end - start as int) =~= s@.subrange(start as int, end as int));
    }
    s.substring_char(start, end)
}

/// `s` with every occurrence of `from` replaced by `to`.
pub open spec fn replace_seq(s: Seq<char>, from: char, to: char) -> Seq<char> {
    s.map_values(
        |c: char|
            if c == from {
                to
            } else {
                c
            },
    )
}

/// Replaces every occurrence of the character `from` with `to`.
pub fn str_replace_char(s: &str, from: char, to: char) -> (r: String)
    ensures
        r@ == replace_seq(s@, from, to),
{
    let len: usize = s.unicode_len();
    let mut r: String = String::new();
    let mut i: usize = 0;
    while i < len
        invariant
            len == s@.len(),
            i <= len,
            r@ == replace_seq(s@.take(i as int), from, to),
        decreases len - i,
    {
        let c: char = s.get_char(i);
        if c == from {
            push_char(&mut r, to);
        } else {
            push_char(&mut r, c);
        }
        proof {
            assert(r@ =~= replace_seq(s@.take(i + 1), from, to));
        }
        i = i + 1;
    }
    proof {
        assert(s@.take(len as int) =~= s@);
    }
    r
}

/// The whitespace-separated tokens of `s` from position `i` on, with `cur`
/// holding the token gathered so far.
pub open spec fn tokens_rec(s: Seq<char>, i: int, cur: Seq<char>) -> Seq<Seq<char>>
    decreases s.len() - i,
{
    if i < 0 || i >= s.len() {
        if cur.len() > 0 {
            seq![cur]
        } else {
            Seq::empty()
        }
    } else if is_space(s[i]) {
        if cur.len() > 0 {
            seq![cur] + tokens_rec(s, i + 1, Seq::empty())
        } else {
            tokens_rec(s, i + 1, Seq::empty())
        }
    } else {
        tokens_rec(s, i + 1, cur.push(s[i]))
    }
}

/// The whitespace-separated tokens of `s`.
pub open spec fn tokens_of(s: Seq<char>) -> Seq<Seq<char>> {
    tokens_rec(s, 0, Seq::empty())
}

/// Splits `s` into its whitespace-separated tokens.
pub fn split_tokens(s: &str) -> (v: Vec<String>)
    ensures
        v@.map_values(|t: String| t@) == tokens_of(s@),
{
    let len: usize = s.unicode_len();
    let mut out: Vec<String> = Vec::new();
    let mut cur: String = String::new();
    let mut i: usize = 0;
    proof {
        assert(out@.map_values(|t: String| t@) + tokens_rec(s@, 0, cur@) =~= tokens_of(s@));
    }
    while i < len
        invariant
            len == s@.len(),
            i <= len,
            tokens_of(s@) == out@.map_values(|t: String| t@) + tokens_rec(s@, i as int, cur@),
        decreases len - i,
    {
        let ghost prev_out = out@.map_values(|t: String| t@);
        let ghost prev_cur = cur@;
        let c: char = s.get_char(i);
        if c == ' ' || c == '\t' || c == '\r' || c == '\n' {
            if cur.as_str().unicode_len() > 0 {
                proof {
                    assert(tokens_rec(s@, i as int, prev_cur) == seq![prev_cur] + tokens_rec(
                        s@,
                        i + 1,
                        Seq::empty(),
                    ));
                }
                out.push(cur);
                cur = String::new();
                proof {
                    assert(out@.map_values(|t: String| t@) =~= prev_out.push(prev_cur));
                    assert(prev_out.push(prev_cur) + tokens_rec(s@, i + 1, cur@) =~= prev_out + (
                    seq![prev_cur] + tokens_rec(s@, i + 1, Seq::empty())));
                }
            } else {
                proof {
                    assert(tokens_rec(s@, i as int, prev_cur) == tokens_rec(
                        s@,
                        i + 1,
                        Seq::empty(),
                    ));
                    assert(prev_cur =~= Seq::<char>::empty());
                }
            }
        } else {
            push_char(&mut cur, c);
            proof {
                assert(tokens_rec(s@, i as int, prev_cur) == tokens_rec(s@, i + 1, cur@));
            }
        }
        i = i + 1;
    }
    if cur.as_str().unicode_len() > 0 {
        let ghost prev_out = out@.map_values(|t: String| t@);
        let ghost prev_cur = cur@;
        proof {
            assert(tokens_rec(s@, len as int, prev_cur) =~= seq![prev_cur]);
        }
        out.push(cur);
        proof {
            assert(out@.map_values(|t: String| t@) =~= prev_out.push(prev_cur));
            assert(prev_out.push(prev_cur) =~= prev_out + seq![prev_cur]);
        }
    } else {
        proof {
            assert(tokens_rec(s@, len as int, cur@) =~= Seq::<Seq<char>>::empty());
            assert(out@.map_values(|t: String| t@) + Seq::<Seq<char>>::empty() =~= out@.map_values(
                |t: String| t@,
            ));
        }
    }
    out
}

/// The segments of `s` between newline characters; processing position `i`
/// with `cur` holding the segment gathered so far.
pub open spec fn split_nl_rec(s: Seq<char>, i: int, cur: Seq<char>) -> Seq<Seq<char>>
    decreases s.len() - i,
{
    if i < 0 || i >= s.len() {
        seq![cur]
    } else if s[i] == '\n' {
        seq![cur] + split_nl_rec(s, i + 1, Seq::empty())
    } else {
        split_nl_rec(s, i + 1, cur.push(s[i]))
    }
}

/// `s` split at every newline; a trailing newline adds no empty segment,
/// and an empty string has no lines.
pub open spec fn lines_seq(s: Seq<char>) -> Seq<Seq<char>> {
    let parts = split_nl_rec(s, 0, Seq::empty());
    if parts.last().len() == 0 {
        parts.drop_last()
    } else {
        parts
    }
}

/// Splits `s` into its lines.
pub fn split_lines(s: &str) -> (v: Vec<String>)
    ensures
        v@.map_values(|t: String| t@) == lines_seq(s@),
{
    let len: usize = s.unicode_len();
    let mut out: Vec<String> = Vec::new();
    let mut cur: String = String::new();
    let mut i: usize = 0;
    while i < len
        invariant
            len == s@.len(),
            i <= len,
            split_nl_rec(s@, 0, Seq::empty()) == out@.map_values(|t: String| t@) + split_nl_rec(
                s@,
                i as int,
                cur@,
            ),
        decreases len - i,
    {
        let ghost prev_out = out@.map_values(|t: String| t@);
        let ghost prev_cur = cur@;
        let c: char = s.get_char(i);
        if c == '\n' {
            proof {
                assert(split_nl_rec(s@, i as int, prev_cur) == seq![prev_cur] + split_nl_rec(
                    s@,
                    i + 1,
                    Seq::empty(),
                ));
            }
            out.push(cur);
            cur = String::new();
            proof {
                assert(out@.map_values(|t: String| t@) =~= prev_out.push(prev_cur));
                assert(prev_out.push(prev_cur) + split_nl_rec(s@, i + 1, cur@) =~= prev_out + (seq![
                    prev_cur,
                ] + split_nl_rec(s@, i + 1, Seq::empty())));
            }
        } else {
            push_char(&mut cur, c);
            proof {
                assert(split_nl_rec(s@, i as int, prev_cur) == split_nl_rec(s@, i + 1, cur@));
            }
        }
        i = i + 1;
    }
    let ghost parts = split_nl_rec(s@, 0, Seq::empty());
    proof {
        assert(split_nl_rec(s@, len as int, cur@) == seq![cur@]);
        assert(parts.last() == cur@);
    }
    if cur.as_str().unicode_len() > 0 {
        let ghost prev_out = out@.map_values(|t: String| t@);
        out.push(cur);
        proof {
            assert(out@.map_values(|t: String| t@) =~= prev_out.push(cur@));
            assert(prev_out.push(cur@) =~= parts);
        }
    } else {
        proof {
            assert(out@.map_values(|t: String| t@) =~= parts.drop_last());
        }
    }
    out
}

} // verus!
