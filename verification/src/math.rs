use vstd::arithmetic::div_mod::lemma_fundamental_div_mod_converse;
use vstd::prelude::*;

verus! {

/// `q <= p` follows from `q * c <= p * c` for a positive `c`.
proof fn lemma_cancel(q: int, p: int, c: int)
    requires
        c > 0,
        q * c <= p * c,
    ensures
        q <= p,
{
    assert(q <= p) by (nonlinear_arith)
        requires
            c > 0,
            q * c <= p * c,
    ;
}

/// Quotient and remainder of `a * b` by `c`, for a factor `b` that is at
/// most `c`, so that the quotient is at most `a` and fits.
///
/// The product itself may not fit any machine integer. It is never formed:
/// the quotient and remainder for `a` are those for `a / 2`, doubled, with
/// `b` added once more for an odd `a`, and each time the remainder reaches
/// `c` one `c` moves over to the quotient.
fn mul_div_rem(a: u128, b: u128, c: u128) -> (qr: (u128, u128))
    requires
        c > 0,
        b <= c,
    ensures
        a * b == qr.0 * c + qr.1,
        qr.1 < c,
        qr.0 <= a,
    decreases a,
{
    if a == 0 {
        assert(0 * b == 0 * c + 0) by (nonlinear_arith);
        return (0, 0);
    }
    let half = a / 2;
    let (q, r) = mul_div_rem(half, b, c);
    let ghost even = 2 * half;
    let (q1, r1) = if r >= c - r {
        (2 * q + 1, r - (c - r))
    } else {
        (2 * q, 2 * r)
    };
    proof {
        assert(even * b == q1 * c + r1) by (nonlinear_arith)
            requires
                even == 2 * half,
                half * b == q * c + r,
                (q1 == 2 * q + 1 && r1 == 2 * r - c) || (q1 == 2 * q && r1 == 2 * r),
        ;
        assert(even * b <= even * c) by (nonlinear_arith)
            requires
                b <= c,
                even >= 0,
        ;
        lemma_cancel(q1 as int, even, c as int);
    }
    if a % 2 == 1 {
        let (q2, r2) = if r1 >= c - b {
            (q1 + 1, r1 - (c - b))
        } else {
            (q1, r1 + b)
        };
        proof {
            assert(a * b == q2 * c + r2) by (nonlinear_arith)
                requires
                    a == even + 1,
                    even * b == q1 * c + r1,
                    (q2 == q1 + 1 && r2 == r1 + b - c) || (q2 == q1 && r2 == r1 + b),
            ;
            assert(a * b <= a * c) by (nonlinear_arith)
                requires
                    b <= c,
                    a >= 0,
            ;
            lemma_cancel(q2 as int, a as int, c as int);
        }
        (q2, r2)
    } else {
        (q1, r1)
    }
}

/// The whole part of `a * b / c`, for `b` at most `c`.
pub fn mul_div(a: u128, b: u128, c: u128) -> (q: u128)
    requires
        c > 0,
        b <= c,
    ensures
        q == (a * b) / (c as int),
        q <= a,
{
    let (q, r) = mul_div_rem(a, b, c);
    proof {
        lemma_fundamental_div_mod_converse(a * b, c as int, q as int, r as int);
    }
    q
}

/// A larger factor gives no smaller a quotient.
pub proof fn lemma_mul_div_monotonic(a: int, b1: int, b2: int, c: int)
    requires
        0 <= a,
        0 <= b1 <= b2,
        0 < c,
    ensures
        (a * b1) / c <= (a * b2) / c,
        0 <= (a * b1) / c,
{
    assert(0 <= a * b1 <= a * b2) by (nonlinear_arith)
        requires
            0 <= a,
            0 <= b1 <= b2,
    ;
    vstd::arithmetic::div_mod::lemma_div_is_ordered(a * b1, a * b2, c);
    vstd::arithmetic::div_mod::lemma_div_is_ordered(0, a * b1, c);
}

} // verus!
