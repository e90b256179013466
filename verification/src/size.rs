//! Human-readable byte sizes: a byte count scaled into its binary unit with
//! one decimal place, the decimal dropped when it is zero.

use vstd::prelude::*;

use crate::strutil::dec_seq;
use crate::strutil::dec_str_u64;
use crate::strutil::digit_char;

verus! {

/// `1024^k`.
pub open spec fn pow1024(k: nat) -> int
    decreases k,
{
    if k == 0 {
        1
    } else {
        1024 * pow1024((k - 1) as nat)
    }
}

/// The unit exponent of a byte count: how often it can be divided by 1024
/// while staying at least 1.
pub open spec fn size_exp(b: int) -> nat
    decreases b,
{
    if b < 1024 {
        0
    } else {
        1 + size_exp(b / 1024)
    }
}

/// The byte count scaled to its unit, in tenths, rounded to the nearest
/// tenth with halves up.
pub open spec fn size_tenths(b: int) -> int {
    (10 * b + pow1024(size_exp(b)) / 2) / pow1024(size_exp(b))
}

/// The suffix for unit exponent `k`.
pub open spec fn suffix_seq(k: nat) -> Seq<char> {
    if k == 0 {
        " B"@
    } else if k == 1 {
        " KiB"@
    } else if k == 2 {
        " MiB"@
    } else if k == 3 {
        " GiB"@
    } else if k == 4 {
        " TiB"@
    } else if k == 5 {
        " PiB"@
    } else {
        " EiB"@
    }
}

/// The rendering of a byte count: the scaled value with one decimal place —
/// dropped when zero — and the unit suffix; zero bytes render as `0 B`.
pub open spec fn human_seq(b: int) -> Seq<char> {
    if b <= 0 {
        "0 B"@
    } else {
        let t = size_tenths(b);
        dec_seq(t / 10) + (if t % 10 == 0 {
            Seq::<char>::empty()
        } else {
            "."@ + seq![digit_char(t % 10)]
        }) + suffix_seq(size_exp(b))
    }
}

proof fn lemma_pow1024_pos(k: nat)
    ensures
        pow1024(k) >= 1,
    decreases k,
{
    if k > 0 {
        lemma_pow1024_pos((k - 1) as nat);
    }
}

proof fn lemma_size_exp_eq(b: int, k: nat)
    requires
        pow1024(k) <= b < pow1024(k + 1),
    ensures
        size_exp(b) == k,
    decreases k,
{
    lemma_pow1024_pos(k);
    if k == 0 {
        assert(pow1024(1) == 1024);
    } else {
        assert(pow1024(k) == 1024 * pow1024((k - 1) as nat));
        assert(pow1024(k + 1) == 1024 * pow1024(k));
        let p = pow1024((k - 1) as nat);
        let q = pow1024(k);
        assert(b / 1024 >= p) by (nonlinear_arith)
            requires
                b >= 1024 * p,
                p >= 1,
        ;
        assert(b / 1024 < q) by (nonlinear_arith)
            requires
                b < 1024 * q,
                q >= 1,
        ;
        assert(b >= 1024);
        lemma_size_exp_eq(b / 1024, (k - 1) as nat);
    }
}

fn suffix_str(k: usize) -> (r: &'static str)
    ensures
        r@ == suffix_seq(k as nat),
{
    match k {
        0 => " B",
        1 => " KiB",
        2 => " MiB",
        3 => " GiB",
        4 => " TiB",
        5 => " PiB",
        _ => " EiB",
    }
}

/// Renders a byte count in its human-readable binary unit.
pub fn human_size(bytes: u64) -> (r: String)
    ensures
        r@ == human_seq(bytes as int),
{
    if bytes == 0 {
        return String::from_str("0 B");
    }
    let mut d: u64 = 1;
    let mut k: usize = 0;
    proof {
        assert(pow1024(0) == 1);
    }
    while bytes / d >= 1024
        invariant
            bytes >= 1,
            d >= 1,
            d as int == pow1024(k as nat),
            d <= bytes,
            k <= 7,
        decreases bytes - d,
    {
        proof {
            assert(bytes >= 1024 * d) by (nonlinear_arith)
                requires
                    bytes / d >= 1024,
                    d >= 1,
                    bytes >= 1,
            ;
            if k >= 7 {
                assert(pow1024(0) == 1);
                assert(pow1024(1) == 1024);
                assert(pow1024(2) == 1024 * 1024);
                assert(pow1024(3) == 1024 * 1024 * 1024);
                assert(pow1024(4) == 1024 * 1024 * 1024 * 1024);
                assert(pow1024(5) == 1024 * 1024 * 1024 * 1024 * 1024);
                assert(pow1024(6) == 1024 * 1024 * 1024 * 1024 * 1024 * 1024);
                assert(pow1024(7) == 1024 * 1024 * 1024 * 1024 * 1024 * 1024 * 1024);
                assert(false);
            }
        }
        d = d * 1024;
        k = k + 1;
    }
    proof {
        assert(bytes < 1024 * d) by (nonlinear_arith)
            requires
                bytes / d < 1024,
                d >= 1,
                bytes >= 0,
        ;
        lemma_size_exp_eq(bytes as int, k as nat);
    }
    let t128: u128 = ((bytes as u128) * 10 + (d as u128) / 2) / (d as u128);
    let ghost bi = bytes as int;
    let ghost di = d as int;
    let ghost ti = t128 as int;
    proof {
        assert(ti == (bi * 10 + di / 2) / di);
        assert(ti <= 10240) by (nonlinear_arith)
            requires
                ti == (bi * 10 + di / 2) / di,
                bi < 1024 * di,
                di >= 1,
        ;
        assert(ti >= 0) by (nonlinear_arith)
            requires
                ti == (bi * 10 + di / 2) / di,
                bi >= 1,
                di >= 1,
        ;
        assert(ti == size_tenths(bi));
    }
    let t: u64 = t128 as u64;
    let mut r: String = dec_str_u64(t / 10);
    if t % 10 != 0 {
        r.append(".");
        let f: usize = (t % 10) as usize;
        let fs: &'static str = match f {
            1 => "1",
            2 => "2",
            3 => "3",
            4 => "4",
            5 => "5",
            6 => "6",
            7 => "7",
            8 => "8",
            _ => "9",
        };
        proof {
            reveal_strlit("1");
            reveal_strlit("2");
            reveal_strlit("3");
            reveal_strlit("4");
            reveal_strlit("5");
            reveal_strlit("6");
            reveal_strlit("7");
            reveal_strlit("8");
            reveal_strlit("9");
            assert(fs@ =~= seq![digit_char((t % 10) as int)]);
        }
        r.append(fs);
    }
    r.append(suffix_str(k));
    proof {
        assert(r@ =~= human_seq(bytes as int));
    }
    r
}

} // verus!
