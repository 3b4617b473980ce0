//! Wrapping position arithmetic on a cyclic track, over integers.
//!
//! Track positions live in `[0, m)` for a track of length `m`; moving
//! forward or backward wraps modulo `m`. `pos_mod` is the mathematical
//! (always non-negative) remainder that the executable helpers are proved
//! against.

use vstd::prelude::*;
use vstd::arithmetic::div_mod::lemma_fundamental_div_mod;
use vstd::arithmetic::div_mod::lemma_fundamental_div_mod_converse_mod;

verus! {

/// The non-negative remainder of `x` modulo `m`.
pub open spec fn pos_mod(x: int, m: int) -> int {
    if x % m < 0 {
        x % m + m
    } else {
        x % m
    }
}

/// For a positive modulus, `pos_mod` is the unique value in `[0, m)` that
/// differs from `x` by a multiple of `m`.
pub proof fn lemma_pos_mod_unique(x: int, q: int, r: int, m: int)
    requires
        m > 0,
        x == q * m + r,
        0 <= r < m,
    ensures
        pos_mod(x, m) == r,
{
    lemma_fundamental_div_mod_converse_mod(x, m, q, r);
}

/// Any value decomposes as a multiple of the modulus plus its `pos_mod`.
pub proof fn lemma_pos_mod_decompose(x: int, m: int) -> (q: int)
    requires
        m > 0,
    ensures
        x == q * m + pos_mod(x, m),
        0 <= pos_mod(x, m) < m,
{
    lemma_fundamental_div_mod(x, m);
    if x % m < 0 {
        let q = x / m - 1;
        assert(x == q * m + (x % m + m)) by (nonlinear_arith)
            requires
                x == m * (x / m) + x % m,
                q == x / m - 1,
        {}
        q
    } else {
        let q = x / m;
        assert(x == q * m + x % m) by (nonlinear_arith)
            requires
                x == m * (x / m) + x % m,
                q == x / m,
        {}
        q
    }
}

/// Subtracting first from the wrapped value or from the raw value gives the
/// same wrapped result.
pub proof fn lemma_pos_mod_sub(x: int, c: int, m: int)
    requires
        m > 0,
    ensures
        pos_mod(pos_mod(x, m) - c, m) == pos_mod(x - c, m),
{
    let q1 = lemma_pos_mod_decompose(x, m);
    let r1 = pos_mod(x, m);
    let q2 = lemma_pos_mod_decompose(r1 - c, m);
    let r2 = pos_mod(r1 - c, m);
    assert(x - c == (q1 + q2) * m + r2) by (nonlinear_arith)
        requires
            x == q1 * m + r1,
            r1 - c == q2 * m + r2,
    {}
    lemma_pos_mod_unique(x - c, q1 + q2, r2, m);
}

/// Moves a wrapped position backward by `b`, wrapping at the track length.
pub fn wrap_sub(a: u64, b: u64, m: u64) -> (r: u64)
    requires
        m > 0,
        a < m,
    ensures
        r < m,
        r == pos_mod(a - b, m as int),
{
    let br = b % m;
    proof {
        lemma_fundamental_div_mod(b as int, m as int);
        if a >= br {
            assert(a - b == (-((b as int) / (m as int))) * (m as int) + (a - br))
                by (nonlinear_arith)
                requires
                    b as int == (m as int) * ((b as int) / (m as int)) + (br as int),
                    br == b % m,
            {}
            lemma_pos_mod_unique(a - b, -((b as int) / (m as int)), a - br, m as int);
        } else {
            assert(a - b == (-((b as int) / (m as int)) - 1) * (m as int) + (a + m - br))
                by (nonlinear_arith)
                requires
                    b as int == (m as int) * ((b as int) / (m as int)) + (br as int),
                    br == b % m,
            {}
            lemma_pos_mod_unique(
                a - b,
                -((b as int) / (m as int)) - 1,
                a as int + m as int - br as int,
                m as int,
            );
        }
    }
    if a >= br {
        a - br
    } else {
        a + (m - br)
    }
}

/// Moves a wrapped position forward by `b`, wrapping at the track length.
pub fn wrap_add(a: u64, b: u64, m: u64) -> (r: u64)
    requires
        m > 0,
        a < m,
        b <= u64::MAX - m,
    ensures
        r < m,
        r == pos_mod(a + b, m as int),
{
    let s = a + b;
    proof {
        lemma_fundamental_div_mod(s as int, m as int);
        assert(s as int == ((s as int) / (m as int)) * (m as int) + (s as int) % (m as int))
            by (nonlinear_arith)
            requires
                s as int == (m as int) * ((s as int) / (m as int)) + (s as int) % (m as int),
        {}
        lemma_pos_mod_unique(
            s as int,
            (s as int) / (m as int),
            (s as int) % (m as int),
            m as int,
        );
    }
    s % m
}

} // verus!
