//! A unit-safe temperature scalar.
//!
//! A `Temperature` stores one canonical integer value and converts to and
//! from named units. All unit values are fixed-point numbers in tenths of a
//! degree (so `110` as Celsius means 11.0 degrees Celsius). The canonical
//! scale is one ninetieth of a degree Celsius: both a Celsius value in tenths
//! and a Fahrenheit value in tenths map onto it exactly, so converting a
//! value to the canonical scale and reading it back in the same unit is a
//! numeric identity. Reading a value out in a different unit rounds toward
//! zero to the nearest tenth of a degree.

use vstd::prelude::*;

verus! {

use vstd::arithmetic::div_mod::lemma_div_multiples_vanish;
use vstd::arithmetic::div_mod::lemma_div_pos_is_pos;
use vstd::arithmetic::div_mod::lemma_fundamental_div_mod;
use vstd::arithmetic::div_mod::lemma_fundamental_div_mod_converse;
use vstd::arithmetic::div_mod::lemma_mod_division_less_than_divisor;
use vstd::arithmetic::div_mod::lemma_mod_multiples_basic;

/// Largest magnitude, on the canonical scale, that a `Temperature` may hold.
pub const CANONICAL_LIMIT: i64 = 1_800_000_000_000_000_000;

/// Largest magnitude accepted for a Celsius value in tenths of a degree.
pub const CELSIUS_LIMIT: i64 = 100_000_000_000_000_000;

/// Largest magnitude accepted for a Fahrenheit value in tenths of a degree.
pub const FAHRENHEIT_LIMIT: i64 = 200_000_000_000_000_000;

/// Integer division rounding toward zero, for a positive divisor.
pub open spec fn tdiv(a: int, b: int) -> int
    recommends
        b > 0,
{
    if a >= 0 {
        a / b
    } else {
        -((-a) / b)
    }
}

/// Division toward zero is antisymmetric in its dividend.
pub proof fn lemma_tdiv_neg(a: int, b: int)
    requires
        b > 0,
    ensures
        tdiv(-a, b) == -tdiv(a, b),
{
    if a == 0 {
        vstd::arithmetic::div_mod::lemma_div_of0(b);
    }
}

/// Dividing an exact multiple toward zero recovers the factor.
pub proof fn lemma_tdiv_multiple(a: int, b: int)
    requires
        b > 0,
    ensures
        tdiv(b * a, b) == a,
{
    if a >= 0 {
        lemma_div_multiples_vanish(a, b);
        assert(b * a >= 0) by (nonlinear_arith)
            requires
                a >= 0,
                b > 0,
        ;
    } else {
        lemma_div_multiples_vanish(-a, b);
        assert(b * (-a) == -(b * a)) by (nonlinear_arith);
        assert(b * (-a) > 0) by (nonlinear_arith)
            requires
                a < 0,
                b > 0,
        ;
    }
}

/// Division toward zero never grows a value's magnitude.
pub proof fn lemma_tdiv_shrinks(a: int, b: int, limit: int)
    requires
        b >= 1,
        limit >= 0,
        -limit <= a <= limit,
    ensures
        -limit <= tdiv(a, b) <= limit,
{
    if a >= 0 {
        lemma_div_pos_is_pos(a, b);
        vstd::arithmetic::div_mod::lemma_div_nonincreasing(a, b);
    } else {
        lemma_div_pos_is_pos(-a, b);
        vstd::arithmetic::div_mod::lemma_div_nonincreasing(-a, b);
    }
}

fn div_trunc(a: i64, b: i64) -> (r: i64)
    requires
        1 <= b <= 1000,
        -CANONICAL_LIMIT <= a <= CANONICAL_LIMIT,
    ensures
        r as int == tdiv(a as int, b as int),
{
    if a >= 0 {
        proof {
            lemma_div_pos_is_pos(a as int, b as int);
            vstd::arithmetic::div_mod::lemma_div_nonincreasing(a as int, b as int);
        }
        a / b
    } else {
        proof {
            lemma_div_pos_is_pos(-(a as int), b as int);
            vstd::arithmetic::div_mod::lemma_div_nonincreasing(-(a as int), b as int);
        }
        -((-a) / b)
    }
}

/// A temperature unit: how values in this unit, given in tenths of a degree,
/// map to and from the canonical scale.
pub trait Unit {
    /// Largest magnitude accepted for a value in this unit.
    spec fn value_limit() -> int;

    /// The canonical value of `v` tenths of a degree in this unit.
    spec fn to_canonical(v: int) -> int;

    /// The value in tenths of a degree in this unit of canonical `k`,
    /// rounded toward zero.
    spec fn from_canonical(k: int) -> int;

    /// A value within this unit's limit sits within the canonical limit.
    proof fn canonical_in_range(v: int)
        requires
            -Self::value_limit() <= v <= Self::value_limit(),
        ensures
            -CANONICAL_LIMIT <= Self::to_canonical(v) <= CANONICAL_LIMIT,
    ;

    /// Reading a value back in the unit it was given in is exact.
    proof fn round_trip(v: int)
        requires
            -Self::value_limit() <= v <= Self::value_limit(),
        ensures
            Self::from_canonical(Self::to_canonical(v)) == v,
    ;

    /// Converts `v` tenths of a degree in this unit to the canonical scale.
    fn to_canonical_exec(v: i64) -> (k: i64)
        requires
            -Self::value_limit() <= v as int <= Self::value_limit(),
        ensures
            k as int == Self::to_canonical(v as int),
    ;

    /// Reads canonical `k` out in this unit, in tenths of a degree.
    fn from_canonical_exec(k: i64) -> (v: i64)
        requires
            -CANONICAL_LIMIT <= k <= CANONICAL_LIMIT,
        ensures
            v as int == Self::from_canonical(k as int),
    ;
}

/// The Celsius unit.
pub struct Celsius;

/// The Fahrenheit unit.
pub struct Fahrenheit;

impl Unit for Celsius {
    open spec fn value_limit() -> int {
        CELSIUS_LIMIT as int
    }

    open spec fn to_canonical(v: int) -> int {
        9 * v
    }

    open spec fn from_canonical(k: int) -> int {
        tdiv(k, 9)
    }

    proof fn canonical_in_range(v: int) {
    }

    proof fn round_trip(v: int) {
        lemma_tdiv_multiple(v, 9);
    }

    fn to_canonical_exec(v: i64) -> (k: i64) {
        9 * v
    }

    fn from_canonical_exec(k: i64) -> (v: i64) {
        div_trunc(k, 9)
    }
}

impl Unit for Fahrenheit {
    open spec fn value_limit() -> int {
        FAHRENHEIT_LIMIT as int
    }

    open spec fn to_canonical(v: int) -> int {
        5 * (v - 320)
    }

    open spec fn from_canonical(k: int) -> int {
        tdiv(k, 5) + 320
    }

    proof fn canonical_in_range(v: int) {
    }

    proof fn round_trip(v: int) {
        lemma_tdiv_multiple(v - 320, 5);
    }

    fn to_canonical_exec(v: i64) -> (k: i64) {
        5 * (v - 320)
    }

    fn from_canonical_exec(k: i64) -> (v: i64) {
        div_trunc(k, 5) + 320
    }
}

/// A temperature, stored on the canonical scale.
#[derive(Debug, Clone, Copy, PartialEq, Eq)]
pub struct Temperature {
    canonical: i64,
}

impl Temperature {
    #[verifier::type_invariant]
    spec fn inv(self) -> bool {
        -CANONICAL_LIMIT <= self.canonical <= CANONICAL_LIMIT
    }

    /// The canonical value this temperature holds.
    pub closed spec fn canon(self) -> int {
        self.canonical as int
    }

    /// Creates a temperature from `v` tenths of a degree in unit `U`.
    pub fn from<U: Unit>(v: i64) -> (t: Temperature)
        requires
            -U::value_limit() <= v as int <= U::value_limit(),
        ensures
            t.canon() == U::to_canonical(v as int),
    {
        let k = U::to_canonical_exec(v);
        proof {
            U::canonical_in_range(v as int);
        }
        Temperature { canonical: k }
    }

    /// Reads this temperature out in unit `U`, in tenths of a degree,
    /// rounded toward zero.
    pub fn to<U: Unit>(&self) -> (v: i64)
        ensures
            v as int == U::from_canonical(self.canon()),
    {
        proof {
            use_type_invariant(self);
        }
        U::from_canonical_exec(self.canonical)
    }

    /// Creates a temperature from a Celsius value in tenths of a degree.
    pub fn from_celsius(tenths: i64) -> (t: Temperature)
        requires
            -CELSIUS_LIMIT <= tenths <= CELSIUS_LIMIT,
        ensures
            t.canon() == 9 * tenths,
    {
        Temperature::from::<Celsius>(tenths)
    }

    /// This temperature as a Celsius value in tenths of a degree.
    pub fn as_celsius(&self) -> (tenths: i64)
        ensures
            tenths as int == tdiv(self.canon(), 9),
            -CANONICAL_LIMIT <= tenths <= CANONICAL_LIMIT,
    {
        proof {
            use_type_invariant(self);
            lemma_tdiv_shrinks(self.canon(), 9, CANONICAL_LIMIT as int);
        }
        self.to::<Celsius>()
    }

    /// This temperature as a Fahrenheit value in tenths of a degree.
    pub fn as_fahrenheit(&self) -> (tenths: i64)
        ensures
            tenths as int == tdiv(self.canon(), 5) + 320,
            -CANONICAL_LIMIT + 320 <= tenths as int <= CANONICAL_LIMIT + 320,
    {
        proof {
            use_type_invariant(self);
            lemma_tdiv_shrinks(self.canon(), 5, CANONICAL_LIMIT as int);
        }
        self.to::<Fahrenheit>()
    }
}

/// What converting a Celsius value in tenths of a degree to Fahrenheit
/// tenths yields.
pub open spec fn spec_celsius_to_fahrenheit(c: int) -> int {
    Fahrenheit::from_canonical(Celsius::to_canonical(c))
}

/// What converting a Fahrenheit value in tenths of a degree to Celsius
/// tenths yields.
pub open spec fn spec_fahrenheit_to_celsius(f: int) -> int {
    Celsius::from_canonical(Fahrenheit::to_canonical(f))
}

/// Converts a Celsius value in tenths of a degree to Fahrenheit tenths.
pub fn celsius_to_fahrenheit(c: i64) -> (f: i64)
    requires
        -CELSIUS_LIMIT <= c <= CELSIUS_LIMIT,
    ensures
        f as int == spec_celsius_to_fahrenheit(c as int),
        -FAHRENHEIT_LIMIT <= f <= FAHRENHEIT_LIMIT,
{
    let t = Temperature::from::<Celsius>(c);
    let f = t.to::<Fahrenheit>();
    proof {
        lemma_celsius_to_fahrenheit_in_range(c as int);
    }
    f
}

/// Converts a Fahrenheit value in tenths of a degree to Celsius tenths.
pub fn fahrenheit_to_celsius(f: i64) -> (c: i64)
    requires
        -FAHRENHEIT_LIMIT <= f <= FAHRENHEIT_LIMIT,
    ensures
        c as int == spec_fahrenheit_to_celsius(f as int),
{
    let t = Temperature::from::<Fahrenheit>(f);
    t.to::<Celsius>()
}

/// A Fahrenheit value converted from an in-range Celsius value stays within
/// the Fahrenheit limit.
proof fn lemma_celsius_to_fahrenheit_in_range(c: int)
    requires
        -CELSIUS_LIMIT <= c <= CELSIUS_LIMIT,
    ensures
        -FAHRENHEIT_LIMIT <= spec_celsius_to_fahrenheit(c) <= FAHRENHEIT_LIMIT,
{
    if 9 * c >= 0 {
        lemma_div_pos_is_pos(9 * c, 5);
        vstd::arithmetic::div_mod::lemma_div_nonincreasing(9 * c, 5);
    } else {
        lemma_div_pos_is_pos(-(9 * c), 5);
        vstd::arithmetic::div_mod::lemma_div_nonincreasing(-(9 * c), 5);
    }
}

/// Round-trip core, for a nonnegative Celsius value: scaling up to
/// Fahrenheit and back down loses at most one tenth of a degree, and is
/// exact when the value is a multiple of five tenths.
proof fn lemma_round_trip_nonneg(c: int)
    requires
        c >= 0,
    ensures
        c - 1 <= (5 * ((9 * c) / 5)) / 9 <= c,
        c % 5 == 0 ==> (5 * ((9 * c) / 5)) / 9 == c,
{
    let q = (9 * c) / 5;
    let r = (9 * c) % 5;
    lemma_fundamental_div_mod(9 * c, 5);
    lemma_mod_division_less_than_divisor(9 * c, 5);
    assert(5 * q == 9 * c - r);
    if r == 0 {
        assert(5 * q == 9 * c);
        lemma_div_multiples_vanish(c, 9);
        assert(9 * c == c * 9) by (nonlinear_arith);
        assert((5 * q) / 9 == c);
    } else {
        assert(5 * q == 9 * (c - 1) + (9 - r)) by (nonlinear_arith)
            requires
                5 * q == 9 * c - r,
        ;
        lemma_fundamental_div_mod_converse(5 * q, 9, c - 1, 9 - r);
    }
    if c % 5 == 0 {
        lemma_fundamental_div_mod(c, 5);
        assert(c == 5 * (c / 5));
        assert(9 * c == (9 * (c / 5)) * 5) by (nonlinear_arith)
            requires
                c == 5 * (c / 5),
        ;
        lemma_mod_multiples_basic(9 * (c / 5), 5);
    }
}

/// Round-trip law: converting a Celsius value in tenths of a degree to
/// Fahrenheit tenths and back yields the starting value up to one least
/// unit (a tenth of a degree), and yields it exactly whenever the value is
/// a multiple of five tenths (half a degree).
pub proof fn lemma_celsius_fahrenheit_round_trip(c: int)
    requires
        -CELSIUS_LIMIT <= c <= CELSIUS_LIMIT,
    ensures
        c - 1 <= spec_fahrenheit_to_celsius(spec_celsius_to_fahrenheit(c)) <= c + 1,
        c % 5 == 0 ==> spec_fahrenheit_to_celsius(spec_celsius_to_fahrenheit(c)) == c,
{
    if c >= 0 {
        let q = (9 * c) / 5;
        lemma_div_pos_is_pos(9 * c, 5);
        assert(tdiv(9 * c, 5) == q);
        assert(5 * ((q + 320) - 320) == 5 * q);
        assert(5 * q >= 0) by (nonlinear_arith)
            requires
                q >= 0,
        ;
        assert(tdiv(5 * q, 9) == (5 * q) / 9);
        lemma_round_trip_nonneg(c);
    } else {
        let d = -c;
        let qd = (9 * d) / 5;
        lemma_div_pos_is_pos(9 * d, 5);
        assert(-(9 * c) == 9 * d);
        assert(tdiv(9 * c, 5) == -qd);
        assert(5 * ((-qd + 320) - 320) == -(5 * qd));
        assert(5 * qd >= 0) by (nonlinear_arith)
            requires
                qd >= 0,
        ;
        lemma_tdiv_neg(5 * qd, 9);
        assert(tdiv(-(5 * qd), 9) == -((5 * qd) / 9));
        lemma_round_trip_nonneg(d);
        if c % 5 == 0 {
            lemma_fundamental_div_mod(c, 5);
            assert(c == 5 * (c / 5));
            assert(d == (-(c / 5)) * 5) by (nonlinear_arith)
                requires
                    d == -c,
                    c == 5 * (c / 5),
            ;
            lemma_mod_multiples_basic(-(c / 5), 5);
        }
    }
}

} // verus!
