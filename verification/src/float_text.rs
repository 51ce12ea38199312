//! The decimal text of a quotient as a 64-bit float shows it: the double
//! nearest `n / d`, written with a fixed number of decimals.
use vstd::prelude::*;
use crate::text::{dec, dec_padded, pow10, push_padded, u128_to_string};

verus! {

pub open spec fn pow2n(k: nat) -> nat
    decreases k,
{
    if k == 0 {
        1
    } else {
        2 * pow2n((k - 1) as nat)
    }
}

/// The exponent of the highest power of two not above `x` (0 for `x < 2`).
pub open spec fn floor_log2(x: nat) -> nat
    decreases x,
{
    if x < 2 {
        0
    } else {
        1 + floor_log2(x / 2)
    }
}

/// `x / y` rounded to the nearest integer, ties to the even one.
pub open spec fn div_round_even(x: nat, y: nat) -> nat {
    let q = x / y;
    let r = x % y;
    if 2 * r < y {
        q
    } else if 2 * r > y {
        q + 1
    } else if q % 2 == 0 {
        q
    } else {
        q + 1
    }
}

/// The double nearest `n`: `n` itself below 2^53, else `n` rounded to 53
/// significant bits, ties to even.
pub open spec fn double_of(n: nat) -> nat {
    if n < pow2n(53) {
        n
    } else {
        let k = (floor_log2(n) - 52) as nat;
        div_round_even(n, pow2n(k)) * pow2n(k)
    }
}

/// For `a >= d >= 1`: the double nearest `a / d` (53 significant bits, ties
/// to even), times `10^places`, rounded to an integer with ties to even.
pub open spec fn scaled_double_quotient(a: nat, d: nat, places: nat) -> nat {
    let e = floor_log2(a / d);
    if e <= 52 {
        // The double is m / 2^(52 - e).
        let m = div_round_even(a * pow2n((52 - e) as nat), d);
        div_round_even(m * pow10(places), pow2n((52 - e) as nat))
    } else {
        // The double is m * 2^(e - 52).
        let m = div_round_even(a, d * pow2n((e - 52) as nat));
        m * pow2n((e - 52) as nat) * pow10(places)
    }
}

/// What `format!("{:.places$}", n as f64 / d as f64)` writes, for `n >= d`
/// and `d` exact as a double.
pub open spec fn double_fixed(n: nat, d: nat, places: nat) -> Seq<char> {
    let r = scaled_double_quotient(double_of(n), d, places);
    dec(r / pow10(places)) + seq!['.'] + dec_padded(r % pow10(places), places)
}

proof fn lemma_pow2n_mono(i: nat, j: nat)
    requires
        i <= j,
    ensures
        1 <= pow2n(i) <= pow2n(j),
    decreases j,
{
    if j > 0 && i < j {
        lemma_pow2n_mono(i, (j - 1) as nat);
    } else if j > 0 {
        lemma_pow2n_mono(0, (j - 1) as nat);
    }
}

proof fn lemma_pow2n_values()
    ensures
        pow2n(52) == 0x10_0000_0000_0000,
        pow2n(53) == 0x20_0000_0000_0000,
        pow2n(64) == 0x1_0000_0000_0000_0000,
{
    reveal_with_fuel(pow2n, 65);
}

proof fn lemma_floor_log2(x: nat)
    requires
        x >= 1,
    ensures
        pow2n(floor_log2(x)) <= x < 2 * pow2n(floor_log2(x)),
    decreases x,
{
    if x >= 2 {
        lemma_floor_log2(x / 2);
    }
}

proof fn lemma_div_round_even_bound(x: nat, y: nat)
    requires
        y >= 1,
    ensures
        x / y <= div_round_even(x, y) <= x / y + 1,
        div_round_even(x, y) * y <= x + y,
        div_round_even(x, y) * y + y > x,
{
    let q = x / y;
    assert(q * y <= x) by (nonlinear_arith)
        requires
            q == x / y,
            y >= 1,
    ;
    assert((q + 1) * y == q * y + y) by (nonlinear_arith);
    assert(div_round_even(x, y) * y <= (q + 1) * y) by (nonlinear_arith)
        requires
            div_round_even(x, y) <= q + 1,
    ;
    assert(q * y + y > x) by (nonlinear_arith)
        requires
            q == x / y,
            y >= 1,
    ;
    assert(div_round_even(x, y) * y >= q * y) by (nonlinear_arith)
        requires
            div_round_even(x, y) >= q,
    ;
}

fn pow2_exec(k: u128) -> (p: u128)
    requires
        k <= 64,
    ensures
        p == pow2n(k as nat),
{
    let mut p: u128 = 1;
    let mut i: u128 = 0;
    while i < k
        invariant
            i <= k <= 64,
            p == pow2n(i as nat),
        decreases k - i,
    {
        proof {
            lemma_pow2n_mono(i as nat, 63);
            lemma_pow2n_mono(63, 64);
            lemma_pow2n_values();
            assert(pow2n(63) * 2 == pow2n(64));
        }
        p = p * 2;
        i = i + 1;
    }
    p
}

fn floor_log2_exec(x: u128) -> (r: u128)
    ensures
        r == floor_log2(x as nat),
{
    let mut y = x;
    let mut r: u128 = 0;
    while y >= 2
        invariant
            floor_log2(x as nat) == r + floor_log2(y as nat),
            r + y <= x,
        decreases y,
    {
        y = y / 2;
        r = r + 1;
    }
    r
}

fn div_round_even_exec(x: u128, y: u128) -> (r: u128)
    requires
        y >= 1,
        x / y < u128::MAX,
    ensures
        r == div_round_even(x as nat, y as nat),
{
    let q = x / y;
    let rem = x % y;
    if rem < y - rem {
        q
    } else if rem > y - rem {
        q + 1
    } else if q % 2 == 0 {
        q
    } else {
        q + 1
    }
}

/// `n / d` as a double, written with `places` decimals (two at most).
pub fn fmt_double_quotient(n: u64, d: u64, places: u32) -> (s: String)
    requires
        1 <= d <= 1_000_000_000,
        d <= n,
        places <= 2,
    ensures
        s@ == double_fixed(n as nat, d as nat, places as nat),
{
    proof {
        lemma_pow2n_values();
        reveal_with_fuel(pow10, 3);
    }
    // The double nearest n.
    let a: u128 = if (n as u128) < 0x20_0000_0000_0000 {
        n as u128
    } else {
        let l = floor_log2_exec(n as u128);
        proof {
            lemma_floor_log2(n as nat);
            if l >= 64 {
                lemma_pow2n_mono(64, l as nat);
            }
            if l < 53 {
                lemma_pow2n_mono(l as nat + 1, 53);
            }
        }
        let k = l - 52;
        let p = pow2_exec(k);
        proof {
            lemma_pow2n_mono(k as nat, 11);
            reveal_with_fuel(pow2n, 12);
            lemma_div_round_even_bound(n as nat, p as nat);
        }
        let v = div_round_even_exec(n as u128, p) * p;
        assert(v >= 1_000_000_000) by {
            assert(p <= 2048);
        }
        v
    };
    assert(a == double_of(n as nat));
    assert(a <= 0x1_0000_0000_0000_1000);
    let scale: u128 = if places == 0 {
        1
    } else if places == 1 {
        10
    } else {
        100
    };
    assert(scale == pow10(places as nat));
    let e = floor_log2_exec(a / (d as u128));
    proof {
        assert(a / (d as u128) >= 1) by (nonlinear_arith)
            requires
                a >= d,
                d >= 1,
        {
        }
        lemma_floor_log2((a / (d as u128)) as nat);
        assert(a / (d as u128) <= a) by (nonlinear_arith)
            requires
                d >= 1,
        ;
        if e >= 65 {
            lemma_pow2n_mono(65, e as nat);
        }
    }
    let r: u128 = if e <= 52 {
        let p = pow2_exec(52 - e);
        proof {
            lemma_pow2n_mono((52 - e) as nat, 52);
            assert(a * p <= 0x1_0000_0000_0000_1000 * 0x10_0000_0000_0000) by (nonlinear_arith)
                requires
                    a <= 0x1_0000_0000_0000_1000,
                    p <= 0x10_0000_0000_0000,
            ;
        }
        let ap = a * p;
        let dd = d as u128;
        assert(ap / dd <= ap) by (nonlinear_arith)
            requires
                dd >= 1,
        ;
        let m = div_round_even_exec(ap, dd);
        proof {
            lemma_div_round_even_bound(ap as nat, d as nat);
            assert(m * scale <= (0x1_0000_0000_0000_1000 * 0x10_0000_0000_0000 + 1) * 100) by (nonlinear_arith)
                requires
                    m <= ap + 1,
                    ap == a * p,
                    a * p <= 0x1_0000_0000_0000_1000 * 0x10_0000_0000_0000,
                    scale <= 100,
            ;
        }
        let ms = m * scale;
        assert(ms / p <= ms) by (nonlinear_arith)
            requires
                p >= 1,
        ;
        div_round_even_exec(ms, p)
    } else {
        proof {
            // a / d < 2^65, so the exponent is at most 64.
            assert(pow2n(65) == 2 * pow2n(64));
            lemma_pow2n_mono((e - 52) as nat, 12);
            reveal_with_fuel(pow2n, 13);
        }
        let p = pow2_exec(e - 52);
        proof {
            lemma_pow2n_mono(0, (e - 52) as nat);
        }
        assert(1 <= p <= 4096);
        assert(1 <= (d as u128) * p <= 1_000_000_000 * 4096) by (nonlinear_arith)
            requires
                1 <= d <= 1_000_000_000,
                1 <= p <= 4096,
        ;
        let dp = (d as u128) * p;
        assert(a / dp <= a) by (nonlinear_arith)
            requires
                dp >= 1,
        ;
        let m = div_round_even_exec(a, dp);
        proof {
            lemma_div_round_even_bound(a as nat, dp as nat);
            assert(m * p * scale <= (0x1_0000_0000_0000_1000 + 1) * 4096 * 100) by (nonlinear_arith)
                requires
                    m <= a + 1,
                    a <= 0x1_0000_0000_0000_1000,
                    p <= 4096,
                    scale <= 100,
            ;
        }
        m * p * scale
    };
    assert(r == scaled_double_quotient(a as nat, d as nat, places as nat));
    let mut s = u128_to_string(r / scale);
    s.push('.');
    push_padded(&mut s, r % scale, places);
    assert(s@ =~= double_fixed(n as nat, d as nat, places as nat));
    s
}

} // verus!
