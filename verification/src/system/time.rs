//! Spans of time.

use std::ops::{
    Add, AddAssign, Div, DivAssign, Mul, MulAssign, Rem, RemAssign, Sub, SubAssign,
};
use vstd::prelude::*;
use vstd::std_specs::ops::{AddSpecImpl, DivSpecImpl, MulSpecImpl, RemSpecImpl, SubSpecImpl};

verus! {

/// A span of time, counted in whole microseconds. It may be negative.
#[derive(Debug, Clone, Copy, PartialEq, Eq, Structural)]
pub struct Time {
    microseconds: i64,
}

/// The quotient of `a` by `b` rounded towards zero, for any `b` but zero
/// (`/` itself rounds so that the remainder is never negative).
pub open spec fn quotient_towards_zero(a: int, b: int) -> int {
    if a >= 0 {
        a / b
    } else {
        -((-a) / b)
    }
}

impl Time {
    /// The span in microseconds.
    pub closed spec fn micros(&self) -> int {
        self.microseconds as int
    }

    /// The span of `micros` microseconds, cut to 64 bits.
    pub closed spec fn of_micros(micros: int) -> Time {
        Time { microseconds: micros as i64 }
    }

    /// A span made of a number of microseconds that fits in 64 bits has
    /// that many microseconds.
    pub proof fn lemma_of_micros(micros: int)
        requires
            i64::MIN <= micros <= i64::MAX,
        ensures
            Time::of_micros(micros).micros() == micros,
    {
    }

    /// The span of `microseconds` microseconds.
    pub fn new(microseconds: i64) -> (time: Self)
        ensures
            time.micros() == microseconds,
            time == Time::of_micros(microseconds as int),
    {
        Self { microseconds }
    }

    /// The span in whole milliseconds, rounded towards zero and cut to the
    /// low 32 bits.
    pub fn as_milliseconds(&self) -> (amount: i32)
        ensures
            amount == quotient_towards_zero(self.micros(), 1000) as i32,
    {
        let whole: i64 = self.microseconds / 1000;
        #[verifier::truncate]
        (whole as i32)
    }

    /// The span in microseconds.
    pub fn as_microseconds(&self) -> (amount: i64)
        ensures
            amount == self.micros(),
    {
        self.microseconds
    }

    /// The span of `amount` milliseconds.
    pub fn milliseconds(amount: i32) -> (time: Self)
        ensures
            time.micros() == amount * 1000,
    {
        let wide: i64 = amount as i64;
        Self::new(wide * 1000)
    }

    /// The span of `amount` microseconds.
    pub fn microseconds(amount: i64) -> (time: Self)
        ensures
            time.micros() == amount,
            time == Time::of_micros(amount as int),
    {
        Self::new(amount)
    }
}

impl Default for Time {
    /// The empty span.
    fn default() -> (time: Self)
        ensures
            time.micros() == 0,
    {
        Self { microseconds: 0 }
    }
}

/// The remainder that goes with [`quotient_towards_zero`]: it has the sign
/// of `a`.
pub open spec fn remainder_towards_zero(a: int, b: int) -> int {
    if a >= 0 {
        a % b
    } else {
        -((-a) % b)
    }
}

/// The quotient of a value that is not negative lies between the value and
/// its negative, and strictly inside where the divisor is not a unit.
proof fn lemma_quotient_within(x: int, b: int)
    requires
        x >= 0,
        b != 0,
    ensures
        -x <= x / b <= x,
        x > 0 && b != 1 && b != -1 ==> -x < x / b < x,
{
    let q = x / b;
    let r = x % b;
    assert(x == b * q + r && 0 <= r && (b > 0 ==> r < b) && (b < 0 ==> r < -b)) by {
        vstd::arithmetic::div_mod::lemma_fundamental_div_mod(x, b);
        if b > 0 {
            vstd::arithmetic::div_mod::lemma_mod_bound(x, b);
        } else {
            assert(0 <= x % b < -b);
        }
    }
    assert(-x <= q <= x && (x > 0 && b != 1 && b != -1 ==> -x < q < x)) by (nonlinear_arith)
        requires
            x >= 0,
            b != 0,
            x == b * q + r,
            0 <= r,
            b > 0 ==> r < b,
            b < 0 ==> r < -b,
    ;
}

/// Dividing one 64-bit number by another gives a 64-bit number, but for
/// the least of them divided by minus one.
pub proof fn lemma_quotient_fits(a: i64, b: i64)
    requires
        b != 0,
        !(a == i64::MIN && b == -1),
    ensures
        i64::MIN <= quotient_towards_zero(a as int, b as int) <= i64::MAX,
{
    if a >= 0 {
        lemma_quotient_within(a as int, b as int);
    } else {
        lemma_quotient_within(-(a as int), b as int);
    }
}

impl Add for Time {
    type Output = Time;

    /// The two spans together.
    fn add(self, rhs: Time) -> (sum: Time)
        ensures
            sum.micros() == self.micros() + rhs.micros(),
    {
        Time::microseconds(self.microseconds + rhs.microseconds)
    }
}

impl AddSpecImpl for Time {
    open spec fn obeys_add_spec() -> bool {
        true
    }

    open spec fn add_req(self, rhs: Time) -> bool {
        i64::MIN <= self.micros() + rhs.micros() <= i64::MAX
    }

    open spec fn add_spec(self, rhs: Time) -> Time {
        Time::of_micros(self.micros() + rhs.micros())
    }
}

impl Mul<i64> for Time {
    type Output = Time;

    /// The span taken `rhs` times.
    fn mul(self, rhs: i64) -> (product: Time)
        ensures
            product.micros() == self.micros() * rhs,
    {
        Time::microseconds(self.microseconds * rhs)
    }
}

impl MulSpecImpl<i64> for Time {
    open spec fn obeys_mul_spec() -> bool {
        true
    }

    open spec fn mul_req(self, rhs: i64) -> bool {
        i64::MIN <= self.micros() * rhs <= i64::MAX
    }

    open spec fn mul_spec(self, rhs: i64) -> Time {
        Time::of_micros(self.micros() * rhs)
    }
}

impl Mul<Time> for i64 {
    type Output = Time;

    /// The span `rhs` taken `self` times.
    fn mul(self, rhs: Time) -> (product: Time)
        ensures
            product.micros() == rhs.micros() * self,
    {
        rhs * self
    }
}

impl MulSpecImpl<Time> for i64 {
    open spec fn obeys_mul_spec() -> bool {
        true
    }

    open spec fn mul_req(self, rhs: Time) -> bool {
        i64::MIN <= rhs.micros() * self <= i64::MAX
    }

    open spec fn mul_spec(self, rhs: Time) -> Time {
        Time::of_micros(rhs.micros() * self)
    }
}

impl Div<i64> for Time {
    type Output = Time;

    /// The span divided by `rhs`, rounded towards zero.
    fn div(self, rhs: i64) -> (quotient: Time)
        ensures
            quotient.micros() == quotient_towards_zero(self.micros(), rhs as int),
    {
        proof {
            lemma_quotient_fits(self.microseconds, rhs);
        }
        Time::microseconds(self.microseconds / rhs)
    }
}

impl DivSpecImpl<i64> for Time {
    open spec fn obeys_div_spec() -> bool {
        true
    }

    open spec fn div_req(self, rhs: i64) -> bool {
        rhs != 0 && !(self.micros() == i64::MIN && rhs == -1)
    }

    open spec fn div_spec(self, rhs: i64) -> Time {
        Time::of_micros(quotient_towards_zero(self.micros(), rhs as int))
    }
}

impl Rem for Time {
    type Output = Time;

    /// What is left of the span after taking out `rhs` as often as it
    /// goes; it has the sign of the span.
    fn rem(self, rhs: Time) -> (remainder: Time)
        ensures
            remainder.micros() == remainder_towards_zero(self.micros(), rhs.micros()),
    {
        Time::microseconds(self.microseconds % rhs.microseconds)
    }
}

impl RemSpecImpl for Time {
    open spec fn obeys_rem_spec() -> bool {
        true
    }

    open spec fn rem_req(self, rhs: Time) -> bool {
        rhs.micros() != 0 && !(self.micros() == i64::MIN && rhs.micros() == -1)
    }

    open spec fn rem_spec(self, rhs: Time) -> Time {
        Time::of_micros(remainder_towards_zero(self.micros(), rhs.micros()))
    }
}

impl AddAssign for Time {
    /// Lengthens the span by `rhs`.
    fn add_assign(&mut self, rhs: Time)
        requires
            i64::MIN <= old(self).micros() + rhs.micros() <= i64::MAX,
        ensures
            final(self).micros() == old(self).micros() + rhs.micros(),
    {
        let lhs = *self;
        *self = lhs + rhs;
    }
}

impl Sub for Time {
    type Output = Time;

    /// The span `rhs` reversed. The left operand plays no part in the
    /// result.
    fn sub(self, rhs: Time) -> (reversed: Time)
        ensures
            reversed.micros() == -rhs.micros(),
    {
        Time::microseconds(-rhs.microseconds)
    }
}

impl SubSpecImpl for Time {
    open spec fn obeys_sub_spec() -> bool {
        true
    }

    open spec fn sub_req(self, rhs: Time) -> bool {
        rhs.micros() != i64::MIN
    }

    open spec fn sub_spec(self, rhs: Time) -> Time {
        Time::of_micros(-rhs.micros())
    }
}

impl SubAssign for Time {
    /// Replaces the span by `rhs` reversed, as `-` does.
    fn sub_assign(&mut self, rhs: Time)
        requires
            rhs.micros() != i64::MIN,
        ensures
            final(self).micros() == -rhs.micros(),
    {
        let lhs = *self;
        *self = lhs - rhs;
    }
}

impl MulAssign<i64> for Time {
    /// Takes the span `rhs` times.
    fn mul_assign(&mut self, rhs: i64)
        requires
            i64::MIN <= old(self).micros() * rhs <= i64::MAX,
        ensures
            final(self).micros() == old(self).micros() * rhs,
    {
        let lhs = *self;
        *self = lhs * rhs;
    }
}

impl DivAssign<i64> for Time {
    /// Divides the span by `rhs`, rounding towards zero.
    fn div_assign(&mut self, rhs: i64)
        requires
            rhs != 0,
            !(old(self).micros() == i64::MIN && rhs == -1),
        ensures
            final(self).micros() == quotient_towards_zero(old(self).micros(), rhs as int),
    {
        let lhs = *self;
        *self = lhs / rhs;
    }
}

impl RemAssign for Time {
    /// Leaves of the span what remains after taking out `rhs` as often as
    /// it goes.
    fn rem_assign(&mut self, rhs: Time)
        requires
            rhs.micros() != 0,
            !(old(self).micros() == i64::MIN && rhs.micros() == -1),
        ensures
            final(self).micros() == remainder_towards_zero(old(self).micros(), rhs.micros()),
    {
        let lhs = *self;
        *self = lhs % rhs;
    }
}

} // verus!
