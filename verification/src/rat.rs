//! Exact rational scalars for the estimation core.
//!
//! Every sensor quantity handled by the filter and the tilt compensator is an
//! exact rational `n / d` with a positive denominator. Arithmetic is checked
//! and canonicalizing: an operation returns the exact result reduced by the
//! greatest common divisor of its components, and reports `None` exactly when
//! that reduced form has no representation within 64-bit numerator and
//! denominator bounds. A verified caller can therefore never overflow
//! silently or divide by zero.

use vstd::prelude::*;
use vstd::arithmetic::div_mod::{
    lemma_div_by_self, lemma_div_nonincreasing, lemma_div_of0, lemma_fundamental_div_mod,
    lemma_mod_multiples_vanish, lemma_mod_self_0, lemma_small_mod,
};

verus! {

/// Mathematical model of a rational number: an integer numerator over an
/// integer denominator, without any bound.
pub struct Q {
    pub n: int,
    pub d: int,
}

/// The absolute value of an integer, as a natural number.
pub open spec fn abs_int(n: int) -> nat {
    if n < 0 {
        (-n) as nat
    } else {
        n as nat
    }
}

/// Euclid's greatest common divisor.
pub open spec fn gcd(a: nat, b: nat) -> nat
    decreases b,
{
    if b == 0 {
        a
    } else {
        gcd(b, a % b)
    }
}

/// The canonical form of an exact rational: both components divided by the
/// greatest common divisor of their absolute values.
pub open spec fn canon(x: Q) -> Q {
    Q {
        n: x.n / (gcd(abs_int(x.n), abs_int(x.d)) as int),
        d: x.d / (gcd(abs_int(x.n), abs_int(x.d)) as int),
    }
}

/// The rational `i / 1`.
pub open spec fn q_int(i: int) -> Q {
    Q { n: i, d: 1 }
}

/// Exact sum: `a/b + c/d == (a*d + c*b) / (b*d)`.
pub open spec fn q_add(a: Q, b: Q) -> Q {
    Q { n: a.n * b.d + b.n * a.d, d: a.d * b.d }
}

/// Exact difference: `a/b - c/d == (a*d - c*b) / (b*d)`.
pub open spec fn q_sub(a: Q, b: Q) -> Q {
    Q { n: a.n * b.d - b.n * a.d, d: a.d * b.d }
}

/// Exact product.
pub open spec fn q_mul(a: Q, b: Q) -> Q {
    Q { n: a.n * b.n, d: a.d * b.d }
}

/// Exact negation.
pub open spec fn q_neg(a: Q) -> Q {
    Q { n: -a.n, d: a.d }
}

/// Exact quotient, with the sign moved into the numerator so that a quotient
/// of positive-denominator rationals keeps a positive denominator.
pub open spec fn q_div(a: Q, b: Q) -> Q {
    if a.d * b.n < 0 {
        Q { n: -(a.n * b.d), d: -(a.d * b.n) }
    } else {
        Q { n: a.n * b.d, d: a.d * b.n }
    }
}

/// The canonical exact sum, as the checked operations compute it.
pub open spec fn c_add(a: Q, b: Q) -> Q {
    canon(q_add(a, b))
}

/// The canonical exact difference.
pub open spec fn c_sub(a: Q, b: Q) -> Q {
    canon(q_sub(a, b))
}

/// The canonical exact product.
pub open spec fn c_mul(a: Q, b: Q) -> Q {
    canon(q_mul(a, b))
}

/// The canonical exact quotient.
pub open spec fn c_div(a: Q, b: Q) -> Q {
    canon(q_div(a, b))
}

/// Value equality by cross-multiplication; an equivalence on rationals with
/// nonzero denominators.
pub open spec fn q_eq(a: Q, b: Q) -> bool {
    a.n * b.d == b.n * a.d
}

/// Strict order by cross-multiplication; meaningful when both denominators
/// are positive.
pub open spec fn q_lt(a: Q, b: Q) -> bool {
    a.n * b.d < b.n * a.d
}

/// Whether an integer lies within the `i64` range.
pub open spec fn fits_i64(i: int) -> bool {
    -0x8000_0000_0000_0000 <= i && i <= 0x7fff_ffff_ffff_ffff
}

/// Whether the exact rational `x` is directly representable: both components
/// within the `i64` range. Checked operations succeed exactly when their
/// canonical result is such.
pub open spec fn q_repr(x: Q) -> bool {
    fits_i64(x.n) && fits_i64(x.d)
}

/// The scalar denoting a representable rational value.
pub open spec fn rat_of(x: Q) -> Rat {
    Rat { n: x.n as i64, d: x.d as i64 }
}

/// An exact rational scalar with a positive 64-bit denominator.
#[derive(Clone, Copy, Debug, PartialEq, Eq, Structural)]
pub struct Rat {
    pub n: i64,
    pub d: i64,
}

impl Rat {
    /// The rational value this scalar denotes.
    pub open spec fn q(self) -> Q {
        Q { n: self.n as int, d: self.d as int }
    }

    /// Well-formed scalars keep their denominator positive.
    pub open spec fn wf(self) -> bool {
        1 <= self.d
    }

    /// The integer `n` as a rational.
    pub fn from_int(n: i64) -> (r: Rat)
        ensures
            r.wf(),
            r.q() == q_int(n as int),
    {
        Rat { n, d: 1 }
    }

    /// The rational `n / d` for a positive denominator `d`.
    pub fn new(n: i64, d: i64) -> (r: Rat)
        requires
            1 <= d,
        ensures
            r.wf(),
            r.q() == (Q { n: n as int, d: d as int }),
    {
        Rat { n, d }
    }

    /// Checked sum; `None` exactly when the canonical exact sum is
    /// unrepresentable.
    pub fn add(self, rhs: Rat) -> (r: Option<Rat>)
        requires
            self.wf(),
            rhs.wf(),
        ensures
            r is Some <==> q_repr(c_add(self.q(), rhs.q())),
            r matches Some(v) ==> v.wf() && v.q() == c_add(self.q(), rhs.q()),
    {
        let n1 = wide_mul(self.n, rhs.d);
        let n2 = wide_mul(rhs.n, self.d);
        let d = wide_mul(self.d, rhs.d);
        proof {
            lemma_cross_term_bound(self.n as int, rhs.d as int);
            lemma_cross_term_bound(rhs.n as int, self.d as int);
            lemma_pos_product(self.d as int, rhs.d as int);
        }
        narrow(n1 + n2, d)
    }

    /// Checked difference; `None` exactly when the canonical exact
    /// difference is unrepresentable.
    pub fn sub(self, rhs: Rat) -> (r: Option<Rat>)
        requires
            self.wf(),
            rhs.wf(),
        ensures
            r is Some <==> q_repr(c_sub(self.q(), rhs.q())),
            r matches Some(v) ==> v.wf() && v.q() == c_sub(self.q(), rhs.q()),
    {
        let n1 = wide_mul(self.n, rhs.d);
        let n2 = wide_mul(rhs.n, self.d);
        let d = wide_mul(self.d, rhs.d);
        proof {
            lemma_cross_term_bound(self.n as int, rhs.d as int);
            lemma_cross_term_bound(rhs.n as int, self.d as int);
            lemma_pos_product(self.d as int, rhs.d as int);
        }
        narrow(n1 - n2, d)
    }

    /// Checked product; `None` exactly when the canonical exact product is
    /// unrepresentable.
    pub fn mul(self, rhs: Rat) -> (r: Option<Rat>)
        requires
            self.wf(),
            rhs.wf(),
        ensures
            r is Some <==> q_repr(c_mul(self.q(), rhs.q())),
            r matches Some(v) ==> v.wf() && v.q() == c_mul(self.q(), rhs.q()),
    {
        let n = wide_mul(self.n, rhs.n);
        let d = wide_mul(self.d, rhs.d);
        proof {
            lemma_wide_bound(self.n as int, rhs.n as int);
            lemma_pos_product(self.d as int, rhs.d as int);
        }
        narrow(n, d)
    }

    /// Checked negation; `None` only for the one unrepresentable numerator.
    pub fn neg(self) -> (r: Option<Rat>)
        requires
            self.wf(),
        ensures
            r is Some <==> q_repr(q_neg(self.q())),
            r matches Some(v) ==> v.wf() && v.q() == q_neg(self.q()),
    {
        if self.n == -0x8000_0000_0000_0000i64 {
            None
        } else {
            Some(Rat { n: -self.n, d: self.d })
        }
    }

    /// Checked quotient; `None` exactly when the divisor is zero or the
    /// canonical exact quotient is unrepresentable.
    pub fn div(self, rhs: Rat) -> (r: Option<Rat>)
        requires
            self.wf(),
            rhs.wf(),
        ensures
            r is Some <==> rhs.q().n != 0 && q_repr(c_div(self.q(), rhs.q())),
            r matches Some(v) ==> v.wf() && v.q() == c_div(self.q(), rhs.q()),
    {
        let n0 = wide_mul(self.n, rhs.d);
        let d0 = wide_mul(self.d, rhs.n);
        proof {
            lemma_wide_bound(self.n as int, rhs.d as int);
            lemma_wide_bound(self.d as int, rhs.n as int);
        }
        if d0 == 0 {
            proof {
                lemma_zero_product(self.d as int, rhs.n as int);
            }
            None
        } else if d0 < 0 {
            narrow(-n0, -d0)
        } else {
            narrow(n0, d0)
        }
    }

    /// Whether this scalar and `rhs` denote the same rational value.
    pub fn eq_value(self, rhs: Rat) -> (r: bool)
        requires
            self.wf(),
            rhs.wf(),
        ensures
            r == q_eq(self.q(), rhs.q()),
    {
        wide_mul(self.n, rhs.d) == wide_mul(rhs.n, self.d)
    }

    /// Whether this scalar denotes a strictly smaller value than `rhs`.
    pub fn lt_value(self, rhs: Rat) -> (r: bool)
        requires
            self.wf(),
            rhs.wf(),
        ensures
            r == q_lt(self.q(), rhs.q()),
    {
        wide_mul(self.n, rhs.d) < wide_mul(rhs.n, self.d)
    }

    /// Whether this scalar denotes exactly zero.
    pub fn is_zero(self) -> (r: bool)
        requires
            self.wf(),
        ensures
            r == q_eq(self.q(), q_int(0)),
    {
        self.n == 0
    }
}

/// The greatest common divisor of `a` and `b`, with the facts reduction
/// rests on: it is positive when `b` is, divides both arguments exactly, and
/// does not exceed a positive `b`.
proof fn lemma_gcd_props(a: nat, b: nat)
    requires
        1 <= b,
    ensures
        1 <= gcd(a, b),
        gcd(a, b) <= b,
        a as int % (gcd(a, b) as int) == 0,
        b as int % (gcd(a, b) as int) == 0,
    decreases b,
{
    let r = a % b;
    let g = gcd(a, b);
    assert(g == gcd(b, r));
    if r == 0 {
        assert(gcd(b, 0) == b);
        lemma_mod_self_0(b as int);
        lemma_small_mod(0, b);
        assert(a as int % (b as int) == 0);
    } else {
        lemma_gcd_props(b, r);
        // a == b*(a/b) + r, and b == g*(b/g) since g divides b
        lemma_fundamental_div_mod(a as int, b as int);
        lemma_fundamental_div_mod(b as int, g as int);
        let qa = a as int / b as int;
        let qb = b as int / g as int;
        assert(b as int * qa == g as int * (qb * qa)) by (nonlinear_arith)
            requires
                b as int == g as int * qb,
        ;
        lemma_mod_multiples_vanish(qb * qa, r as int, g as int);
        assert(a as int % (g as int) == r as int % (g as int));
    }
}

/// Dividing both components of a positive-denominator rational by their
/// greatest common divisor keeps its value, and keeps the denominator
/// positive.
pub proof fn lemma_canon_eq(x: Q)
    requires
        1 <= x.d,
    ensures
        q_eq(canon(x), x),
        1 <= canon(x).d,
{
    let g = gcd(abs_int(x.n), abs_int(x.d)) as int;
    lemma_gcd_props(abs_int(x.n), abs_int(x.d));
    lemma_fundamental_div_mod(x.d, g);
    assert(1 <= x.d / g) by (nonlinear_arith)
        requires
            x.d == g * (x.d / g),
            1 <= x.d,
            1 <= g,
    ;
    let a = abs_int(x.n) as int;
    lemma_fundamental_div_mod(a, g);
    let k = a / g;
    if x.n >= 0 {
        lemma_div_mul_exact(k, g);
    } else {
        lemma_div_mul_exact(-k, g);
        assert(g * (-k) == -(g * k)) by (nonlinear_arith);
    }
    assert(x.n == g * (x.n / g));
    assert((x.n / g) * x.d == x.n * (x.d / g)) by (nonlinear_arith)
        requires
            x.n == g * (x.n / g),
            x.d == g * (x.d / g),
            1 <= g,
    ;
}

/// A zero-valued rational with a positive denominator reduces to `0 / 1`.
pub proof fn lemma_canon_zero(x: Q)
    requires
        x.n == 0,
        1 <= x.d,
    ensures
        canon(x) == (Q { n: 0, d: 1 }),
{
    lemma_small_mod(0, x.d as nat);
    assert(gcd(0, abs_int(x.d)) == gcd(abs_int(x.d), 0));
    assert(gcd(abs_int(x.d), 0) == abs_int(x.d));
    lemma_div_of0(x.d);
    lemma_div_by_self(x.d);
}

/// An integer-valued rational with denominator one is already canonical.
pub proof fn lemma_canon_int(x: Q)
    requires
        x.d == 1,
    ensures
        canon(x) == x,
{
    lemma_small_mod(0, 1);
    assert(abs_int(x.n) % 1 == 0) by {
        lemma_mod_of_one(abs_int(x.n) as int);
    }
    assert(gcd(abs_int(x.n), 1) == gcd(1, abs_int(x.n) % 1));
    assert(gcd(1nat, 0nat) == 1);
    lemma_div_of_one(x.n);
    lemma_div_by_self(1);
}

/// Every integer is divisible by one.
proof fn lemma_mod_of_one(x: int)
    ensures
        x % 1 == 0,
{
    lemma_fundamental_div_mod(x, 1);
    lemma_div_of_one(x);
}

/// Dividing by one changes nothing.
proof fn lemma_div_of_one(x: int)
    ensures
        x / 1 == x,
{
    lemma_div_mul_exact(x, 1);
}

/// `(g * k) / g == k` for positive `g`.
proof fn lemma_div_mul_exact(k: int, g: int)
    requires
        1 <= g,
    ensures
        (g * k) / g == k,
{
    vstd::arithmetic::div_mod::lemma_div_multiples_vanish(k, g);
}




/// Value equality is transitive on rationals with positive denominators.
pub proof fn lemma_q_eq_trans(a: Q, b: Q, c: Q)
    requires
        1 <= a.d,
        1 <= b.d,
        1 <= c.d,
        q_eq(a, b),
        q_eq(b, c),
    ensures
        q_eq(a, c),
{
    assert(a.n * c.d == c.n * a.d) by (nonlinear_arith)
        requires
            1 <= b.d,
            a.n * b.d == b.n * a.d,
            b.n * c.d == c.n * b.d,
    ;
}

/// Adding a positive rational to a value equal to `a` gives something
/// strictly greater than `a`, also after canonicalization.
pub proof fn lemma_q_lt_add_pos(a: Q, b: Q, c: Q)
    requires
        1 <= a.d,
        1 <= b.d,
        1 <= c.d,
        q_eq(b, a),
        1 <= c.n,
    ensures
        q_lt(a, q_add(b, c)),
        q_lt(a, c_add(b, c)),
{
    assert(a.n * (b.d * c.d) < (b.n * c.d + c.n * b.d) * a.d) by (nonlinear_arith)
        requires
            1 <= a.d,
            1 <= b.d,
            1 <= c.d,
            1 <= c.n,
            b.n * a.d == a.n * b.d,
    ;
    let s = q_add(b, c);
    assert(1 <= b.d * c.d) by (nonlinear_arith)
        requires
            1 <= b.d,
            1 <= c.d,
    ;
    lemma_canon_eq(s);
    let t = canon(s);
    assert(a.n * t.d < t.n * a.d) by (nonlinear_arith)
        requires
            1 <= a.d,
            1 <= s.d,
            1 <= t.d,
            a.n * s.d < s.n * a.d,
            t.n * s.d == s.n * t.d,
    ;
}

/// Exact 128-bit product of two 64-bit integers; it always fits.
fn wide_mul(a: i64, b: i64) -> (r: i128)
    ensures
        r as int == (a as int) * (b as int),
{
    proof {
        assert(-0x4000_0000_0000_0000_0000_0000_0000_0000 <= (a as int) * (b as int)
            <= 0x4000_0000_0000_0000_0000_0000_0000_0000) by (nonlinear_arith)
            requires
                -0x8000_0000_0000_0000 <= a as int <= 0x7fff_ffff_ffff_ffff,
                -0x8000_0000_0000_0000 <= b as int <= 0x7fff_ffff_ffff_ffff,
        ;
    }
    (a as i128) * (b as i128)
}

/// A product of positive factors is positive.
pub proof fn lemma_pos_product(a: int, b: int)
    requires
        1 <= a,
        1 <= b,
    ensures
        1 <= a * b,
{
    assert(1 <= a * b) by (nonlinear_arith)
        requires
            1 <= a,
            1 <= b,
    ;
}

/// A product of an `i64` with a positive `i64` stays safely inside `i128`,
/// with room to add another such product.
proof fn lemma_cross_term_bound(a: int, d: int)
    requires
        -0x8000_0000_0000_0000 <= a <= 0x7fff_ffff_ffff_ffff,
        1 <= d <= 0x7fff_ffff_ffff_ffff,
    ensures
        -0x3fff_ffff_ffff_ffff_8000_0000_0000_0000 <= a * d
            <= 0x3fff_ffff_ffff_ffff_8000_0000_0000_0000,
{
    assert(-0x3fff_ffff_ffff_ffff_8000_0000_0000_0000 <= a * d
        <= 0x3fff_ffff_ffff_ffff_8000_0000_0000_0000) by (nonlinear_arith)
        requires
            -0x8000_0000_0000_0000 <= a <= 0x7fff_ffff_ffff_ffff,
            1 <= d <= 0x7fff_ffff_ffff_ffff,
    ;
}

/// A product of two 64-bit integers stays strictly inside the 128-bit range,
/// so it can also be negated there.
proof fn lemma_wide_bound(a: int, b: int)
    requires
        -0x8000_0000_0000_0000 <= a <= 0x7fff_ffff_ffff_ffff,
        -0x8000_0000_0000_0000 <= b <= 0x7fff_ffff_ffff_ffff,
    ensures
        -0x4000_0000_0000_0000_0000_0000_0000_0000 <= a * b
            <= 0x4000_0000_0000_0000_0000_0000_0000_0000,
{
    assert(-0x4000_0000_0000_0000_0000_0000_0000_0000 <= a * b
        <= 0x4000_0000_0000_0000_0000_0000_0000_0000) by (nonlinear_arith)
        requires
            -0x8000_0000_0000_0000 <= a <= 0x7fff_ffff_ffff_ffff,
            -0x8000_0000_0000_0000 <= b <= 0x7fff_ffff_ffff_ffff,
    ;
}

/// A product with a positive factor is zero only when the other factor is.
proof fn lemma_zero_product(a: int, b: int)
    requires
        1 <= a,
    ensures
        a * b == 0 <==> b == 0,
{
    assert(a * b == 0 <==> b == 0) by (nonlinear_arith)
        requires
            1 <= a,
    ;
}

/// Euclid's algorithm, mirroring the specification exactly.
fn gcd_u128(a: u128, b: u128) -> (g: u128)
    ensures
        g as nat == gcd(a as nat, b as nat),
    decreases b,
{
    if b == 0 {
        a
    } else {
        gcd_u128(b, a % b)
    }
}

/// Reduces an exact pair with positive denominator to canonical form and
/// narrows it back to a `Rat`; `None` exactly when a reduced component
/// leaves the `i64` range.
fn narrow(n: i128, d: i128) -> (r: Option<Rat>)
    requires
        1 <= d,
        -0x7fff_ffff_ffff_ffff_ffff_ffff_ffff_ffff <= n,
    ensures
        r is Some <==> q_repr(canon(Q { n: n as int, d: d as int })),
        r matches Some(v) ==> v.wf() && v.q() == canon(Q { n: n as int, d: d as int }),
{
    let neg = n < 0;
    let a: u128 = if neg {
        (-n) as u128
    } else {
        n as u128
    };
    let g: u128 = gcd_u128(a, d as u128);
    proof {
        lemma_gcd_props(a as nat, d as nat);
    }
    let an: u128 = a / g;
    let dn: u128 = (d as u128) / g;
    proof {
        lemma_div_nonincreasing(a as int, g as int);
        lemma_div_nonincreasing(d as int, g as int);
        let gi = g as int;
        lemma_fundamental_div_mod(d as int, gi);
        assert(1 <= d as int / gi) by (nonlinear_arith)
            requires
                d as int == gi * (d as int / gi),
                1 <= d as int,
                1 <= gi,
        ;
        lemma_fundamental_div_mod(a as int, gi);
        let k = a as int / gi;
        if neg {
            lemma_div_mul_exact(-k, gi);
            assert(gi * (-k) == -(gi * k)) by (nonlinear_arith);
            assert(n as int / gi == -k);
        } else {
            lemma_div_mul_exact(k, gi);
            assert(n as int / gi == k);
        }
    }
    let n2: i128 = if neg {
        -(an as i128)
    } else {
        an as i128
    };
    if -0x8000_0000_0000_0000i128 <= n2 && n2 <= 0x7fff_ffff_ffff_ffffi128
        && dn <= 0x7fff_ffff_ffff_ffffu128 {
        Some(Rat { n: n2 as i64, d: dn as i64 })
    } else {
        None
    }
}

} // verus!
