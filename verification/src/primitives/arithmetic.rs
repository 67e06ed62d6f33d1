//! Deterministic arithmetic: 18-decimal fixed-point amounts, parts per
//! billion and per 65535, ratios, gas, and checked/saturating operations on
//! the unsigned integers.

use vstd::prelude::*;

verus! {

/// 10^18, the scale of `FixedU128`.
pub const FIXED_SCALE: u128 = 1_000_000_000_000_000_000;

/// A non-negative amount with 18 decimals, held as its raw scaled value.
#[derive(Clone, Copy, Debug, PartialEq, Eq, Structural)]
pub struct FixedU128 {
    raw: u128,
    decimals: u8,
}

impl FixedU128 {
    pub const DECIMALS: u8 = 18;

    /// The raw scaled value.
    pub closed spec fn raw_spec(&self) -> u128 {
        self.raw
    }

    /// The number of decimals (always 18).
    pub closed spec fn decimals_spec(&self) -> u8 {
        self.decimals
    }

    /// Every amount has 18 decimals.
    #[verifier::type_invariant]
    closed spec fn wf(&self) -> bool {
        self.decimals == 18
    }

    /// The amount whose raw value is `raw`.
    pub closed spec fn of_raw(raw: u128) -> Self {
        FixedU128 { raw, decimals: 18 }
    }

    pub proof fn lemma_of_raw(raw: u128)
        ensures
            Self::of_raw(raw).raw_spec() == raw,
            Self::of_raw(raw).decimals_spec() == 18,
    {
    }

    /// One.
    pub fn one() -> (r: Self)
        ensures
            r == Self::of_raw(FIXED_SCALE),
    {
        FixedU128 { raw: FIXED_SCALE, decimals: 18 }
    }

    /// Zero.
    pub fn zero() -> (r: Self)
        ensures
            r == Self::of_raw(0),
    {
        FixedU128 { raw: 0, decimals: 18 }
    }

    pub fn new(raw: u128) -> (r: Self)
        ensures
            r == Self::of_raw(raw),
    {
        FixedU128 { raw, decimals: 18 }
    }

    /// The amount `integer` plus `fraction` (modulo one) millionths of
    /// millionths of millionths.
    pub fn from_parts(integer: u128, fraction: u128) -> (r: Self)
        requires
            integer * FIXED_SCALE + fraction % FIXED_SCALE <= u128::MAX,
        ensures
            r == Self::of_raw((integer * FIXED_SCALE + fraction % FIXED_SCALE) as u128),
    {
        proof {
            assert(integer * FIXED_SCALE <= u128::MAX) by (nonlinear_arith)
                requires
                    integer * FIXED_SCALE + fraction % FIXED_SCALE <= u128::MAX,
                    fraction % FIXED_SCALE >= 0,
            ;
        }
        let raw = integer * FIXED_SCALE + fraction % FIXED_SCALE;
        FixedU128 { raw, decimals: 18 }
    }

    pub fn from_token_amount(amount: u128) -> (r: Self)
        ensures
            r == Self::of_raw(amount),
    {
        FixedU128 { raw: amount, decimals: 18 }
    }

    pub fn to_token_amount(&self) -> (r: u128)
        ensures
            r == self.raw_spec(),
    {
        self.raw
    }

    pub fn as_u128(&self) -> (r: u128)
        ensures
            r == self.raw_spec(),
    {
        self.raw
    }

    /// The whole units.
    pub fn integer_part(&self) -> (r: u128)
        ensures
            r == self.raw_spec() / FIXED_SCALE,
    {
        self.raw / FIXED_SCALE
    }

    /// What is left below one unit, in raw terms.
    pub fn fractional_part(&self) -> (r: u128)
        ensures
            r == self.raw_spec() % FIXED_SCALE,
    {
        self.raw % FIXED_SCALE
    }

    pub fn saturating_add(self, other: Self) -> (r: Self)
        ensures
            r.raw_spec() == self.raw_spec().saturating_add(other.raw_spec()),
            r.decimals_spec() == self.decimals_spec(),
    {
        proof {
            use_type_invariant(&self);
        }
        FixedU128 { raw: self.raw.saturating_add(other.raw), decimals: self.decimals }
    }

    pub fn saturating_sub(self, other: Self) -> (r: Self)
        ensures
            r.raw_spec() == self.raw_spec().saturating_sub(other.raw_spec()),
            r.decimals_spec() == self.decimals_spec(),
    {
        proof {
            use_type_invariant(&self);
        }
        FixedU128 { raw: self.raw.saturating_sub(other.raw), decimals: self.decimals }
    }

    /// The sum, when it fits.
    pub fn checked_add(self, other: Self) -> (r: Option<Self>)
        ensures
            r is Some <==> self.raw_spec() + other.raw_spec() <= u128::MAX,
            r matches Some(x) ==> x.raw_spec() == self.raw_spec() + other.raw_spec() && x.decimals_spec()
                == self.decimals_spec(),
    {
        proof {
            use_type_invariant(&self);
        }
        match self.raw.checked_add(other.raw) {
            Some(raw) => Some(FixedU128 { raw, decimals: self.decimals }),
            None => None,
        }
    }

    /// The difference, when it is not negative.
    pub fn checked_sub(self, other: Self) -> (r: Option<Self>)
        ensures
            r is Some <==> self.raw_spec() >= other.raw_spec(),
            r matches Some(x) ==> x.raw_spec() == self.raw_spec() - other.raw_spec() && x.decimals_spec()
                == self.decimals_spec(),
    {
        proof {
            use_type_invariant(&self);
        }
        match self.raw.checked_sub(other.raw) {
            Some(raw) => Some(FixedU128 { raw, decimals: self.decimals }),
            None => None,
        }
    }

    /// The product, rounded down.
    pub fn mul(self, other: Self) -> (r: Self)
        requires
            self.raw_spec() * other.raw_spec() <= u128::MAX,
        ensures
            r == Self::of_raw(((self.raw_spec() * other.raw_spec()) / (FIXED_SCALE as int)) as u128),
    {
        proof {
            use_type_invariant(&self);
        }
        let result = (self.raw * other.raw) / FIXED_SCALE;
        FixedU128 { raw: result, decimals: self.decimals }
    }

    /// The product, rounded down (as `mul`).
    pub fn mul_truncate(self, other: Self) -> (r: Self)
        requires
            self.raw_spec() * other.raw_spec() <= u128::MAX,
        ensures
            r == Self::of_raw(((self.raw_spec() * other.raw_spec()) / (FIXED_SCALE as int)) as u128),
    {
        proof {
            use_type_invariant(&self);
        }
        let result = (self.raw * other.raw) / FIXED_SCALE;
        FixedU128 { raw: result, decimals: self.decimals }
    }

    /// The quotient, rounded down; `None` for a zero divisor.
    pub fn div(self, other: Self) -> (r: Option<Self>)
        requires
            other.raw_spec() != 0 ==> self.raw_spec() * FIXED_SCALE <= u128::MAX,
        ensures
            r is Some <==> other.raw_spec() != 0,
            r matches Some(x) ==> x == Self::of_raw(((self.raw_spec() * FIXED_SCALE) / (other.raw_spec() as int)) as u128),
    {
        if other.raw == 0 {
            return None;
        }
        proof {
            use_type_invariant(&self);
        }
        let scaled = self.raw * FIXED_SCALE;
        let result = scaled / other.raw;
        Some(FixedU128 { raw: result, decimals: self.decimals })
    }

    /// `numerator / denominator` as an amount, rounded down; `None` for a
    /// zero denominator.
    pub fn ratio(numerator: u128, denominator: u128) -> (r: Option<Self>)
        requires
            denominator != 0 ==> numerator * FIXED_SCALE <= u128::MAX,
        ensures
            r is Some <==> denominator != 0,
            r matches Some(x) ==> x == Self::of_raw(((numerator * FIXED_SCALE) / (denominator as int)) as u128),
    {
        if denominator == 0 {
            return None;
        }
        let raw = (numerator * FIXED_SCALE) / denominator;
        Some(FixedU128 { raw, decimals: 18 })
    }

    /// `basis_points` hundredths (a percentage) as an amount.
    pub fn percentage(basis_points: u32) -> (r: Self)
        ensures
            r == Self::of_raw((basis_points * 10_000_000_000_000_000) as u128),
    {
        proof {
            assert(basis_points * 10_000_000_000_000_000 <= u128::MAX) by (nonlinear_arith)
                requires
                    basis_points <= u32::MAX,
            ;
        }
        FixedU128 { raw: basis_points as u128 * 10_000_000_000_000_000, decimals: 18 }
    }

    /// `bp` ten-thousandths as an amount.
    pub fn from_basis_points(bp: u16) -> (r: Self)
        ensures
            r == Self::of_raw((bp * 100_000_000_000_000) as u128),
    {
        proof {
            assert(bp * 100_000_000_000_000 <= u128::MAX) by (nonlinear_arith)
                requires
                    bp <= u16::MAX,
            ;
        }
        FixedU128 { raw: bp as u128 * 100_000_000_000_000, decimals: 18 }
    }

    /// The amount in ten-thousandths, truncated to 16 bits.
    pub fn to_basis_points(&self) -> (r: u16)
        ensures
            r == (self.raw_spec() / 100_000_000_000_000) as u16,
    {
        (self.raw / 100_000_000_000_000) as u16
    }
}

impl Default for FixedU128 {
    fn default() -> (r: Self)
        ensures
            r == FixedU128::of_raw(0),
    {
        FixedU128::zero()
    }
}

/// Adding and then taking away the same amount gives the amount back.
pub proof fn lemma_fixed_add_sub(a: FixedU128, b: FixedU128, sum: FixedU128, back: FixedU128)
    requires
        sum.raw_spec() == a.raw_spec() + b.raw_spec(),
        back.raw_spec() == sum.raw_spec() - b.raw_spec(),
    ensures
        back.raw_spec() == a.raw_spec(),
{
}

/// The whole units and the fraction of `from_parts(i, f)` are `i` and `f`
/// modulo one unit.
pub proof fn lemma_fixed_parts(integer: u128, fraction: u128)
    requires
        integer * FIXED_SCALE + fraction % FIXED_SCALE <= u128::MAX,
    ensures
        ((integer * FIXED_SCALE + fraction % FIXED_SCALE) as u128) / FIXED_SCALE == integer,
        ((integer * FIXED_SCALE + fraction % FIXED_SCALE) as u128) % FIXED_SCALE == fraction % FIXED_SCALE,
{
    let f = fraction % FIXED_SCALE;
    assert(0 <= f < FIXED_SCALE);
    assert((integer * FIXED_SCALE + f) / (FIXED_SCALE as int) == integer) by (nonlinear_arith)
        requires
            0 <= f < FIXED_SCALE,
            integer >= 0,
            FIXED_SCALE > 0,
    ;
    assert((integer * FIXED_SCALE + f) % (FIXED_SCALE as int) == f) by (nonlinear_arith)
        requires
            0 <= f < FIXED_SCALE,
            integer >= 0,
            FIXED_SCALE > 0,
    ;
}

/// Basis points survive the trip into an amount and back.
pub proof fn lemma_fixed_basis_points(bp: u16)
    ensures
        ((bp * 100_000_000_000_000) as u128) / 100_000_000_000_000 == bp,
{
    assert((bp * 100_000_000_000_000) / 100_000_000_000_000 == bp) by (nonlinear_arith)
        requires
            bp >= 0,
    ;
}

/// A marker for checked addition.
#[derive(Clone, Copy, Debug, PartialEq, Eq, Structural)]
pub struct CheckedAdd;

/// An unsigned machine integer, seen as a mathematical integer up to its
/// largest value.
pub trait UintValue: Sized {
    spec fn value(&self) -> int;

    spec fn bound() -> int;
}

/// Addition that reports or saturates on overflow.
pub trait SafeAdd: UintValue {
    fn checked_add(self, other: Self) -> (r: Option<Self>)
        ensures
            r is Some <==> self.value() + other.value() <= Self::bound(),
            r matches Some(x) ==> x.value() == self.value() + other.value(),
    ;

    fn saturating_add(self, other: Self) -> (r: Self)
        ensures
            r.value() == if self.value() + other.value() <= Self::bound() {
                self.value() + other.value()
            } else {
                Self::bound()
            },
    ;

    /// Adds a signed amount, whose magnitude is first cut to the width of
    /// the type (its low bits).
    fn checked_add_signed(self, other: i128) -> (r: Option<Self>)
        requires
            other != i128::MIN,
        ensures
            other >= 0 ==> (r is Some <==> self.value() + (other as int) % (Self::bound() + 1) <= Self::bound()),
            other >= 0 ==> (r matches Some(x) ==> x.value() == self.value() + (other as int) % (Self::bound() + 1)),
            other < 0 ==> (r is Some <==> self.value() >= (-(other as int)) % (Self::bound() + 1)),
            other < 0 ==> (r matches Some(x) ==> x.value() == self.value() - (-(other as int)) % (Self::bound() + 1)),
    ;
}

/// Subtraction that reports or saturates below zero.
pub trait SafeSub: UintValue {
    fn checked_sub(self, other: Self) -> (r: Option<Self>)
        ensures
            r is Some <==> self.value() >= other.value(),
            r matches Some(x) ==> x.value() == self.value() - other.value(),
    ;

    fn saturating_sub(self, other: Self) -> (r: Self)
        ensures
            r.value() == if self.value() >= other.value() {
                self.value() - other.value()
            } else {
                0
            },
    ;
}

/// Multiplication that reports or saturates on overflow.
pub trait SafeMul: UintValue {
    fn checked_mul(self, other: Self) -> (r: Option<Self>)
        ensures
            r is Some <==> self.value() * other.value() <= Self::bound(),
            r matches Some(x) ==> x.value() == self.value() * other.value(),
    ;

    fn saturating_mul(self, other: Self) -> (r: Self)
        ensures
            r.value() == if self.value() * other.value() <= Self::bound() {
                self.value() * other.value()
            } else {
                Self::bound()
            },
    ;
}

/// Division that reports, or gives 0, for a zero divisor.
pub trait SafeDiv: UintValue {
    fn checked_div(self, other: Self) -> (r: Option<Self>)
        ensures
            r is Some <==> other.value() != 0,
            r matches Some(x) ==> x.value() == self.value() / other.value(),
    ;

    fn saturating_div(self, other: Self) -> (r: Self)
        ensures
            r.value() == if other.value() == 0 {
                0
            } else {
                self.value() / other.value()
            },
    ;
}

impl UintValue for u8 {
    open spec fn value(&self) -> int {
        *self as int
    }

    open spec fn bound() -> int {
        255
    }
}

impl SafeAdd for u8 {
    fn checked_add(self, other: Self) -> (r: Option<Self>) {
        u8::checked_add(self, other)
    }

    fn saturating_add(self, other: Self) -> (r: Self) {
        u8::saturating_add(self, other)
    }

    fn checked_add_signed(self, other: i128) -> (r: Option<Self>) {
        if other >= 0 {
            u8::checked_add(self, (other % 256) as u8)
        } else {
            let abs = ((-other) % 256) as u8;
            u8::checked_sub(self, abs)
        }
    }
}

impl SafeSub for u8 {
    fn checked_sub(self, other: Self) -> (r: Option<Self>) {
        u8::checked_sub(self, other)
    }

    fn saturating_sub(self, other: Self) -> (r: Self) {
        u8::saturating_sub(self, other)
    }
}

impl SafeMul for u8 {
    fn checked_mul(self, other: Self) -> (r: Option<Self>) {
        u8::checked_mul(self, other)
    }

    fn saturating_mul(self, other: Self) -> (r: Self) {
        match u8::checked_mul(self, other) {
            Some(v) => v,
            None => u8::MAX,
        }
    }
}

impl SafeDiv for u8 {
    fn checked_div(self, other: Self) -> (r: Option<Self>) {
        if other == 0 {
            None
        } else {
            Some(self / other)
        }
    }

    fn saturating_div(self, other: Self) -> (r: Self) {
        if other == 0 {
            0
        } else {
            self / other
        }
    }
}

impl UintValue for u16 {
    open spec fn value(&self) -> int {
        *self as int
    }

    open spec fn bound() -> int {
        65535
    }
}

impl SafeAdd for u16 {
    fn checked_add(self, other: Self) -> (r: Option<Self>) {
        u16::checked_add(self, other)
    }

    fn saturating_add(self, other: Self) -> (r: Self) {
        u16::saturating_add(self, other)
    }

    fn checked_add_signed(self, other: i128) -> (r: Option<Self>) {
        if other >= 0 {
            u16::checked_add(self, (other % 65536) as u16)
        } else {
            let abs = ((-other) % 65536) as u16;
            u16::checked_sub(self, abs)
        }
    }
}

impl SafeSub for u16 {
    fn checked_sub(self, other: Self) -> (r: Option<Self>) {
        u16::checked_sub(self, other)
    }

    fn saturating_sub(self, other: Self) -> (r: Self) {
        u16::saturating_sub(self, other)
    }
}

impl SafeMul for u16 {
    fn checked_mul(self, other: Self) -> (r: Option<Self>) {
        u16::checked_mul(self, other)
    }

    fn saturating_mul(self, other: Self) -> (r: Self) {
        match u16::checked_mul(self, other) {
            Some(v) => v,
            None => u16::MAX,
        }
    }
}

impl SafeDiv for u16 {
    fn checked_div(self, other: Self) -> (r: Option<Self>) {
        if other == 0 {
            None
        } else {
            Some(self / other)
        }
    }

    fn saturating_div(self, other: Self) -> (r: Self) {
        if other == 0 {
            0
        } else {
            self / other
        }
    }
}

impl UintValue for u32 {
    open spec fn value(&self) -> int {
        *self as int
    }

    open spec fn bound() -> int {
        4294967295
    }
}

impl SafeAdd for u32 {
    fn checked_add(self, other: Self) -> (r: Option<Self>) {
        u32::checked_add(self, other)
    }

    fn saturating_add(self, other: Self) -> (r: Self) {
        u32::saturating_add(self, other)
    }

    fn checked_add_signed(self, other: i128) -> (r: Option<Self>) {
        if other >= 0 {
            u32::checked_add(self, (other % 4294967296) as u32)
        } else {
            let abs = ((-other) % 4294967296) as u32;
            u32::checked_sub(self, abs)
        }
    }
}

impl SafeSub for u32 {
    fn checked_sub(self, other: Self) -> (r: Option<Self>) {
        u32::checked_sub(self, other)
    }

    fn saturating_sub(self, other: Self) -> (r: Self) {
        u32::saturating_sub(self, other)
    }
}

impl SafeMul for u32 {
    fn checked_mul(self, other: Self) -> (r: Option<Self>) {
        u32::checked_mul(self, other)
    }

    fn saturating_mul(self, other: Self) -> (r: Self) {
        match u32::checked_mul(self, other) {
            Some(v) => v,
            None => u32::MAX,
        }
    }
}

impl SafeDiv for u32 {
    fn checked_div(self, other: Self) -> (r: Option<Self>) {
        if other == 0 {
            None
        } else {
            Some(self / other)
        }
    }

    fn saturating_div(self, other: Self) -> (r: Self) {
        if other == 0 {
            0
        } else {
            self / other
        }
    }
}

impl UintValue for u64 {
    open spec fn value(&self) -> int {
        *self as int
    }

    open spec fn bound() -> int {
        18446744073709551615
    }
}

impl SafeAdd for u64 {
    fn checked_add(self, other: Self) -> (r: Option<Self>) {
        u64::checked_add(self, other)
    }

    fn saturating_add(self, other: Self) -> (r: Self) {
        u64::saturating_add(self, other)
    }

    fn checked_add_signed(self, other: i128) -> (r: Option<Self>) {
        if other >= 0 {
            u64::checked_add(self, (other % 18446744073709551616) as u64)
        } else {
            let abs = ((-other) % 18446744073709551616) as u64;
            u64::checked_sub(self, abs)
        }
    }
}

impl SafeSub for u64 {
    fn checked_sub(self, other: Self) -> (r: Option<Self>) {
        u64::checked_sub(self, other)
    }

    fn saturating_sub(self, other: Self) -> (r: Self) {
        u64::saturating_sub(self, other)
    }
}

impl SafeMul for u64 {
    fn checked_mul(self, other: Self) -> (r: Option<Self>) {
        u64::checked_mul(self, other)
    }

    fn saturating_mul(self, other: Self) -> (r: Self) {
        match u64::checked_mul(self, other) {
            Some(v) => v,
            None => u64::MAX,
        }
    }
}

impl SafeDiv for u64 {
    fn checked_div(self, other: Self) -> (r: Option<Self>) {
        if other == 0 {
            None
        } else {
            Some(self / other)
        }
    }

    fn saturating_div(self, other: Self) -> (r: Self) {
        if other == 0 {
            0
        } else {
            self / other
        }
    }
}

impl UintValue for u128 {
    open spec fn value(&self) -> int {
        *self as int
    }

    open spec fn bound() -> int {
        340282366920938463463374607431768211455
    }
}

impl SafeAdd for u128 {
    fn checked_add(self, other: Self) -> (r: Option<Self>) {
        u128::checked_add(self, other)
    }

    fn saturating_add(self, other: Self) -> (r: Self) {
        u128::saturating_add(self, other)
    }

    fn checked_add_signed(self, other: i128) -> (r: Option<Self>) {
        if other >= 0 {
            u128::checked_add(self, other as u128)
        } else {
            let abs = (-other) as u128;
            u128::checked_sub(self, abs)
        }
    }
}

impl SafeSub for u128 {
    fn checked_sub(self, other: Self) -> (r: Option<Self>) {
        u128::checked_sub(self, other)
    }

    fn saturating_sub(self, other: Self) -> (r: Self) {
        u128::saturating_sub(self, other)
    }
}

impl SafeMul for u128 {
    fn checked_mul(self, other: Self) -> (r: Option<Self>) {
        u128::checked_mul(self, other)
    }

    fn saturating_mul(self, other: Self) -> (r: Self) {
        match u128::checked_mul(self, other) {
            Some(v) => v,
            None => u128::MAX,
        }
    }
}

impl SafeDiv for u128 {
    fn checked_div(self, other: Self) -> (r: Option<Self>) {
        if other == 0 {
            None
        } else {
            Some(self / other)
        }
    }

    fn saturating_div(self, other: Self) -> (r: Self) {
        if other == 0 {
            0
        } else {
            self / other
        }
    }
}

/// A fraction in parts per billion.
#[derive(Clone, Copy, Debug, PartialEq, Eq, Structural)]
pub struct Perbill(u32);

impl Perbill {
    /// The parts per billion.
    pub closed spec fn parts(&self) -> u32 {
        self.0
    }

    /// The fraction of `p` parts.
    pub closed spec fn of_parts(p: u32) -> Self {
        Perbill(p)
    }

    pub proof fn lemma_of_parts(p: u32)
        ensures
            Self::of_parts(p).parts() == p,
    {
    }

    /// Nothing.
    pub fn zero() -> (r: Self)
        ensures
            r.parts() == 0,
    {
        Perbill(0)
    }

    /// The whole.
    pub fn one() -> (r: Self)
        ensures
            r.parts() == 1_000_000_000,
    {
        Perbill(1_000_000_000)
    }

    /// `parts` parts, capped at the whole.
    pub fn from_parts(parts: u32) -> (r: Self)
        ensures
            r.parts() == if parts < 1_000_000_000 { parts } else { 1_000_000_000 },
    {
        Perbill(if parts < 1_000_000_000 { parts } else { 1_000_000_000 })
    }

    /// `x` percent (not capped: more than 100 percent is kept, up to the
    /// 32-bit limit).
    pub fn from_percent(x: u32) -> (r: Self)
        ensures
            r.parts() == if x * 10_000_000 <= u32::MAX { (x * 10_000_000) as u32 } else { u32::MAX },
    {
        Perbill(
            match x.checked_mul(10_000_000) {
                Some(v) => v,
                None => u32::MAX,
            },
        )
    }

    /// `x` ten-thousandths.
    pub fn from_basis_points(x: u16) -> (r: Self)
        ensures
            r.parts() == x * 10_000,
    {
        Perbill(x as u32 * 10_000)
    }

    /// `numer / denom`, rounded down and cut to 32 bits; zero for a zero
    /// numerator, `None` for a zero denominator otherwise.
    pub fn from_rational(numer: u32, denom: u32) -> (r: Option<Self>)
        ensures
            r is Some <==> numer == 0 || denom != 0,
            numer == 0 ==> r == Some(Perbill::of_parts(0)),
            numer != 0 && denom != 0 ==> r == Some(
                Perbill::of_parts(((numer * 1_000_000_000) / (denom as int)) as u32),
            ),
    {
        if numer == 0 {
            return Some(Perbill(0));
        }
        if denom == 0 {
            return None;
        }
        proof {
            assert(numer * 1_000_000_000 <= u64::MAX) by (nonlinear_arith)
                requires
                    numer <= u32::MAX,
            ;
        }
        let result = (numer as u64 * 1_000_000_000u64 / denom as u64) as u32;
        Some(Perbill(result))
    }

    pub fn as_u32(self) -> (r: u32)
        ensures
            r == self.parts(),
    {
        self.0
    }

    /// The whole percent.
    pub fn as_percent(self) -> (r: u32)
        ensures
            r == self.parts() / 10_000_000,
    {
        self.0 / 10_000_000
    }

    /// The whole ten-thousandths, cut to 16 bits.
    pub fn as_basis_points(self) -> (r: u16)
        ensures
            r == (self.parts() / 10_000) as u16,
    {
        (self.0 / 10_000) as u16
    }

    /// This fraction of `value`, rounded down.
    pub fn multiply(self, value: u128) -> (r: u128)
        requires
            value * self.parts() <= u128::MAX,
        ensures
            r == (value * self.parts()) / 1_000_000_000,
    {
        (value * self.0 as u128) / 1_000_000_000
    }

    /// This fraction of `value`, rounded up.
    pub fn multiply_ceil(self, value: u128) -> (r: u128)
        requires
            value * self.parts() + 1_000_000_000 <= u128::MAX,
        ensures
            r == (value * self.parts() + 999_999_999) / 1_000_000_000,
    {
        proof {
            assert(value * self.parts() >= 0) by (nonlinear_arith)
                requires
                    value >= 0,
                    self.parts() >= 0,
            ;
        }
        ((value * self.0 as u128) + 1_000_000_000 - 1) / 1_000_000_000
    }
}

/// A fraction of at most the whole never gives more than the value, and
/// rounding up adds at most one.
pub proof fn lemma_perbill_multiply_bounds(parts: u32, value: u128)
    requires
        parts <= 1_000_000_000,
        value * parts + 999_999_999 <= u128::MAX,
    ensures
        (value * parts) / 1_000_000_000 <= value,
        (value * parts) / 1_000_000_000 <= (value * parts + 999_999_999) / 1_000_000_000,
        (value * parts + 999_999_999) / 1_000_000_000 <= (value * parts) / 1_000_000_000 + 1,
{
    assert((value * parts) / 1_000_000_000 <= value) by (nonlinear_arith)
        requires
            parts <= 1_000_000_000,
            value >= 0,
            parts >= 0,
    ;
    assert((value * parts) / 1_000_000_000 <= (value * parts + 999_999_999) / 1_000_000_000) by (nonlinear_arith)
        requires
            value * parts >= 0,
    ;
    assert((value * parts + 999_999_999) / 1_000_000_000 <= (value * parts) / 1_000_000_000 + 1) by (nonlinear_arith)
        requires
            value * parts >= 0,
    ;
}

/// A fraction in parts per 65535.
#[derive(Clone, Copy, Debug, PartialEq, Eq, Structural)]
pub struct PerU16(u16);

impl PerU16 {
    /// The parts per 65535.
    pub closed spec fn parts(&self) -> u16 {
        self.0
    }

    /// The fraction of `p` parts.
    pub closed spec fn of_parts(p: u16) -> Self {
        PerU16(p)
    }

    pub proof fn lemma_of_parts(p: u16)
        ensures
            Self::of_parts(p).parts() == p,
    {
    }

    pub fn zero() -> (r: Self)
        ensures
            r.parts() == 0,
    {
        PerU16(0)
    }

    pub fn one() -> (r: Self)
        ensures
            r.parts() == 65535,
    {
        PerU16(65535)
    }

    /// `parts` parts (every 16-bit value is at most the whole).
    pub fn from_parts(parts: u16) -> (r: Self)
        ensures
            r.parts() == parts,
    {
        PerU16(parts)
    }

    /// `x` percent: `x · 65535 / 100` (the product saturating at 32 bits),
    /// cut to 16 bits.
    pub fn from_percent(x: u32) -> (r: Self)
        ensures
            r.parts() == ((if x * 65535 <= u32::MAX { x * 65535 } else { u32::MAX as int }) / 100) as u16,
    {
        let product: u32 = match x.checked_mul(65535) {
            Some(v) => v,
            None => u32::MAX,
        };
        PerU16((product / 100) as u16)
    }

    /// `x` ten-thousandths: `x · 65535 / 10000`, the product saturating at
    /// 16 bits.
    pub fn from_basis_points(x: u16) -> (r: Self)
        ensures
            r.parts() == (if x * 65535 <= u16::MAX { x * 65535 } else { u16::MAX as int }) / 10000,
    {
        let product: u16 = match x.checked_mul(65535) {
            Some(v) => v,
            None => u16::MAX,
        };
        PerU16(product / 10000)
    }

    /// `numer / denom` in parts per 65535, rounded down and cut to 16 bits;
    /// zero for a zero numerator, `None` for a zero denominator otherwise.
    pub fn from_rational(numer: u16, denom: u16) -> (r: Option<Self>)
        ensures
            r is Some <==> numer == 0 || denom != 0,
            numer == 0 ==> r == Some(PerU16::of_parts(0)),
            numer != 0 && denom != 0 ==> r == Some(PerU16::of_parts(((numer * 65535) / (denom as int)) as u16)),
    {
        if numer == 0 {
            return Some(PerU16(0));
        }
        if denom == 0 {
            return None;
        }
        proof {
            assert(numer * 65535 <= u32::MAX) by (nonlinear_arith)
                requires
                    numer <= u16::MAX,
            ;
        }
        let result = (numer as u32 * 65535u32 / denom as u32) as u16;
        Some(PerU16(result))
    }

    pub fn as_u16(self) -> (r: u16)
        ensures
            r == self.parts(),
    {
        self.0
    }

    pub fn as_percent(self) -> (r: u32)
        ensures
            r == (self.parts() * 100) / 65535,
    {
        (self.0 as u32 * 100) / 65535
    }

    pub fn as_basis_points(self) -> (r: u16)
        ensures
            r == ((self.parts() * 10000) / 65535) as u16,
    {
        proof {
            assert(self.parts() * 10000 <= u32::MAX) by (nonlinear_arith)
                requires
                    self.parts() <= u16::MAX,
            ;
        }
        (self.0 as u32 * 10000 / 65535) as u16
    }

    /// This fraction of `value`, rounded down.
    pub fn multiply(self, value: u128) -> (r: u128)
        requires
            value * self.parts() <= u128::MAX,
        ensures
            r == (value * self.parts()) / 65535,
    {
        (value * self.0 as u128) / 65535
    }
}

/// A ratio of two integers.
#[derive(Clone, Copy, Debug, PartialEq, Eq, Structural)]
pub struct Ratio {
    pub numerator: u128,
    pub denominator: u128,
}

impl Ratio {
    /// The ratio, unless the denominator is zero.
    pub fn new(numerator: u128, denominator: u128) -> (r: Option<Self>)
        ensures
            r is Some <==> denominator != 0,
            r matches Some(x) ==> x == (Ratio { numerator, denominator }),
    {
        if denominator == 0 {
            None
        } else {
            Some(Ratio { numerator, denominator })
        }
    }

    pub fn from_rational(numer: u128, denom: u128) -> (r: Option<Self>)
        ensures
            r is Some <==> denom != 0,
            r matches Some(x) ==> x == (Ratio { numerator: numer, denominator: denom }),
    {
        Self::new(numer, denom)
    }

    pub fn percent(x: u32) -> (r: Self)
        ensures
            r == (Ratio { numerator: x as u128, denominator: 100 }),
    {
        Ratio { numerator: x as u128, denominator: 100 }
    }

    pub fn basis_points(x: u16) -> (r: Self)
        ensures
            r == (Ratio { numerator: x as u128, denominator: 10000 }),
    {
        Ratio { numerator: x as u128, denominator: 10000 }
    }

    /// This ratio of `value`, rounded down.
    pub fn multiply(&self, value: u128) -> (r: u128)
        requires
            self.denominator != 0,
            value * self.numerator <= u128::MAX,
        ensures
            r == (value * self.numerator) / (self.denominator as int),
    {
        (value * self.numerator) / self.denominator
    }

    /// This ratio of `value`, rounded up.
    pub fn multiply_ceil(&self, value: u128) -> (r: u128)
        requires
            self.denominator != 0,
            value * self.numerator + self.denominator <= u128::MAX,
        ensures
            r == (value * self.numerator + self.denominator - 1) / (self.denominator as int),
    {
        proof {
            assert(value * self.numerator >= 0) by (nonlinear_arith)
                requires
                    value >= 0,
                    self.numerator >= 0,
            ;
        }
        ((value * self.numerator) + self.denominator - 1) / self.denominator
    }

    /// The ratio upside down, unless the numerator is zero.
    pub fn inverse(&self) -> (r: Option<Self>)
        ensures
            r is Some <==> self.numerator != 0,
            r matches Some(x) ==> x == (Ratio { numerator: self.denominator, denominator: self.numerator }),
    {
        Self::new(self.denominator, self.numerator)
    }
}

/// Inverting a valid ratio twice gives it back.
pub proof fn lemma_ratio_inverse_inverse(r: Ratio)
    requires
        r.numerator != 0,
        r.denominator != 0,
    ensures
        (Ratio { numerator: (Ratio { numerator: r.denominator, denominator: r.numerator }).denominator, denominator: (
        Ratio { numerator: r.denominator, denominator: r.numerator }).numerator }) == r,
{
}

impl Default for Ratio {
    fn default() -> (r: Self)
        ensures
            r == (Ratio { numerator: 1, denominator: 1 }),
    {
        Ratio { numerator: 1, denominator: 1 }
    }
}

/// An amount of gas.
#[derive(Clone, Copy, Debug, PartialEq, Eq, Structural)]
pub struct Gas {
    gas: u64,
}

impl Gas {
    /// The amount.
    pub closed spec fn amount(&self) -> u64 {
        self.gas
    }

    pub closed spec fn of_amount(g: u64) -> Self {
        Gas { gas: g }
    }

    pub proof fn lemma_of_amount(g: u64)
        ensures
            Self::of_amount(g).amount() == g,
    {
    }

    pub fn zero() -> (r: Self)
        ensures
            r.amount() == 0,
    {
        Gas { gas: 0 }
    }

    pub fn max() -> (r: Self)
        ensures
            r.amount() == u64::MAX,
    {
        Gas { gas: u64::MAX }
    }

    pub fn new(gas: u64) -> (r: Self)
        ensures
            r.amount() == gas,
    {
        Gas { gas }
    }

    pub fn as_u64(&self) -> (r: u64)
        ensures
            r == self.amount(),
    {
        self.gas
    }

    pub fn checked_add(self, other: Self) -> (r: Option<Self>)
        ensures
            r is Some <==> self.amount() + other.amount() <= u64::MAX,
            r matches Some(g) ==> g.amount() == self.amount() + other.amount(),
    {
        match self.gas.checked_add(other.gas) {
            Some(g) => Some(Gas { gas: g }),
            None => None,
        }
    }

    pub fn checked_sub(self, other: Self) -> (r: Option<Self>)
        ensures
            r is Some <==> self.amount() >= other.amount(),
            r matches Some(g) ==> g.amount() == self.amount() - other.amount(),
    {
        match self.gas.checked_sub(other.gas) {
            Some(g) => Some(Gas { gas: g }),
            None => None,
        }
    }

    pub fn saturating_add(self, other: Self) -> (r: Self)
        ensures
            r.amount() == self.amount().saturating_add(other.amount()),
    {
        Gas { gas: self.gas.saturating_add(other.gas) }
    }

    pub fn saturating_sub(self, other: Self) -> (r: Self)
        ensures
            r.amount() == self.amount().saturating_sub(other.amount()),
    {
        Gas { gas: self.gas.saturating_sub(other.gas) }
    }

    pub fn checked_mul(self, rhs: u64) -> (r: Option<Self>)
        ensures
            r is Some <==> self.amount() * rhs <= u64::MAX,
            r matches Some(g) ==> g.amount() == self.amount() * rhs,
    {
        match self.gas.checked_mul(rhs) {
            Some(g) => Some(Gas { gas: g }),
            None => None,
        }
    }

    pub fn saturating_mul(self, rhs: u64) -> (r: Self)
        ensures
            r.amount() == if self.amount() * rhs <= u64::MAX { (self.amount() * rhs) as u64 } else { u64::MAX },
    {
        match self.gas.checked_mul(rhs) {
            Some(g) => Gas { gas: g },
            None => Gas { gas: u64::MAX },
        }
    }
}

impl Default for Gas {
    fn default() -> (r: Self)
        ensures
            r.amount() == 0,
    {
        Gas::zero()
    }
}

} // verus!

verus! {

impl core::ops::Add for Gas {
    type Output = Gas;

    /// Saturating addition.
    fn add(self, other: Gas) -> (r: Gas) {
        self.saturating_add(other)
    }
}

impl vstd::std_specs::ops::AddSpecImpl for Gas {
    open spec fn obeys_add_spec() -> bool {
        true
    }

    open spec fn add_req(self, rhs: Gas) -> bool {
        true
    }

    open spec fn add_spec(self, rhs: Gas) -> Gas {
        Gas::of_amount(self.amount().saturating_add(rhs.amount()))
    }
}

impl core::ops::Sub for Gas {
    type Output = Gas;

    /// Saturating subtraction.
    fn sub(self, other: Gas) -> (r: Gas) {
        self.saturating_sub(other)
    }
}

impl vstd::std_specs::ops::SubSpecImpl for Gas {
    open spec fn obeys_sub_spec() -> bool {
        true
    }

    open spec fn sub_req(self, rhs: Gas) -> bool {
        true
    }

    open spec fn sub_spec(self, rhs: Gas) -> Gas {
        Gas::of_amount(self.amount().saturating_sub(rhs.amount()))
    }
}

impl core::ops::Mul<u64> for Gas {
    type Output = Gas;

    /// Saturating multiplication.
    fn mul(self, rhs: u64) -> (r: Gas) {
        self.saturating_mul(rhs)
    }
}

impl vstd::std_specs::ops::MulSpecImpl<u64> for Gas {
    open spec fn obeys_mul_spec() -> bool {
        true
    }

    open spec fn mul_req(self, rhs: u64) -> bool {
        true
    }

    open spec fn mul_spec(self, rhs: u64) -> Gas {
        Gas::of_amount(if self.amount() * rhs <= u64::MAX { (self.amount() * rhs) as u64 } else { u64::MAX })
    }
}

impl core::ops::Add for FixedU128 {
    type Output = FixedU128;

    /// Saturating addition.
    fn add(self, other: FixedU128) -> (r: FixedU128) {
        proof {
            use_type_invariant(&self);
        }
        self.saturating_add(other)
    }
}

impl vstd::std_specs::ops::AddSpecImpl for FixedU128 {
    open spec fn obeys_add_spec() -> bool {
        true
    }

    open spec fn add_req(self, rhs: FixedU128) -> bool {
        true
    }

    open spec fn add_spec(self, rhs: FixedU128) -> FixedU128 {
        FixedU128::of_raw(self.raw_spec().saturating_add(rhs.raw_spec()))
    }
}

impl core::ops::Sub for FixedU128 {
    type Output = FixedU128;

    /// Saturating subtraction.
    fn sub(self, other: FixedU128) -> (r: FixedU128) {
        proof {
            use_type_invariant(&self);
        }
        self.saturating_sub(other)
    }
}

impl vstd::std_specs::ops::SubSpecImpl for FixedU128 {
    open spec fn obeys_sub_spec() -> bool {
        true
    }

    open spec fn sub_req(self, rhs: FixedU128) -> bool {
        true
    }

    open spec fn sub_spec(self, rhs: FixedU128) -> FixedU128 {
        FixedU128::of_raw(self.raw_spec().saturating_sub(rhs.raw_spec()))
    }
}

impl core::ops::Mul for FixedU128 {
    type Output = FixedU128;

    /// The product, rounded down.
    fn mul(self, other: FixedU128) -> (r: FixedU128) {
        FixedU128::mul(self, other)
    }
}

impl vstd::std_specs::ops::MulSpecImpl for FixedU128 {
    open spec fn obeys_mul_spec() -> bool {
        true
    }

    open spec fn mul_req(self, rhs: FixedU128) -> bool {
        self.raw_spec() * rhs.raw_spec() <= u128::MAX
    }

    open spec fn mul_spec(self, rhs: FixedU128) -> FixedU128 {
        FixedU128::of_raw(((self.raw_spec() * rhs.raw_spec()) / (FIXED_SCALE as int)) as u128)
    }
}

impl core::ops::Div for FixedU128 {
    type Output = Option<FixedU128>;

    /// The quotient, rounded down; `None` for a zero divisor.
    fn div(self, other: FixedU128) -> (r: Option<FixedU128>) {
        FixedU128::div(self, other)
    }
}

impl vstd::std_specs::ops::DivSpecImpl for FixedU128 {
    open spec fn obeys_div_spec() -> bool {
        true
    }

    open spec fn div_req(self, rhs: FixedU128) -> bool {
        rhs.raw_spec() != 0 ==> self.raw_spec() * FIXED_SCALE <= u128::MAX
    }

    open spec fn div_spec(self, rhs: FixedU128) -> Option<FixedU128> {
        if rhs.raw_spec() == 0 {
            None
        } else {
            Some(FixedU128::of_raw(((self.raw_spec() * FIXED_SCALE) / (rhs.raw_spec() as int)) as u128))
        }
    }
}

impl core::ops::Mul<u128> for Perbill {
    type Output = u128;

    /// This fraction of `value`, rounded down.
    fn mul(self, value: u128) -> (r: u128) {
        self.multiply(value)
    }
}

impl vstd::std_specs::ops::MulSpecImpl<u128> for Perbill {
    open spec fn obeys_mul_spec() -> bool {
        true
    }

    open spec fn mul_req(self, value: u128) -> bool {
        value * self.parts() <= u128::MAX
    }

    open spec fn mul_spec(self, value: u128) -> u128 {
        ((value * self.parts()) / 1_000_000_000) as u128
    }
}

impl core::ops::Mul<u128> for PerU16 {
    type Output = u128;

    /// This fraction of `value`, rounded down.
    fn mul(self, value: u128) -> (r: u128) {
        self.multiply(value)
    }
}

impl vstd::std_specs::ops::MulSpecImpl<u128> for PerU16 {
    open spec fn obeys_mul_spec() -> bool {
        true
    }

    open spec fn mul_req(self, value: u128) -> bool {
        value * self.parts() <= u128::MAX
    }

    open spec fn mul_spec(self, value: u128) -> u128 {
        ((value * self.parts()) / 65535) as u128
    }
}

} // verus!
