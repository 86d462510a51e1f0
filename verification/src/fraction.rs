//! Fractions of one, held as two integers.
//!
//! Both the rate at which a dead cell fades and the share of cells that start
//! alive are numbers between zero and one. They are kept exact, as a numerator
//! over a denominator, so that every result is an integer computed without
//! rounding error.

use vstd::prelude::*;

verus! {

/// The number of values a 32-bit draw can take.
pub const DRAW_RANGE: u64 = 0x1_0000_0000;

/// The fraction `numerator / denominator`.
#[derive(Clone, Copy, Debug, PartialEq, Eq, Structural)]
pub struct Fraction {
    pub numerator: u32,
    pub denominator: u32,
}

impl Fraction {
    /// A fraction is well formed when it lies between zero and one.
    pub open spec fn wf(self) -> bool {
        0 < self.denominator && self.numerator <= self.denominator
    }

    /// Whether the fraction is less than one.
    pub open spec fn is_proper(self) -> bool {
        self.numerator < self.denominator
    }

    /// `value` times the fraction, rounded down.
    pub open spec fn of(self, value: int) -> int {
        (value * self.numerator) / (self.denominator as int)
    }

    /// `value` after the fraction was taken of it `times` times, rounding down
    /// each time.
    pub open spec fn of_repeated(self, value: int, times: nat) -> int
        decreases times,
    {
        if times == 0 {
            value
        } else {
            self.of(self.of_repeated(value, (times - 1) as nat))
        }
    }

    /// Whether `draw / 2^32`, a point of the unit interval, lies above the
    /// fraction.
    pub open spec fn exceeded_by(self, draw: u32) -> bool {
        draw * self.denominator > self.numerator * DRAW_RANGE
    }

    /// The fraction `numerator / denominator`, if that lies between zero and
    /// one.
    pub fn new(numerator: u32, denominator: u32) -> (made: Option<Fraction>)
        ensures
            made is Some <==> 0 < denominator && numerator <= denominator,
            made is Some ==> made->0 == (Fraction { numerator, denominator }),
            made is Some ==> made->0.wf(),
    {
        if denominator == 0 || numerator > denominator {
            None
        } else {
            Some(Fraction { numerator, denominator })
        }
    }

    /// Tells whether the fraction is well formed.
    pub fn is_valid(&self) -> (ok: bool)
        ensures
            ok == self.wf(),
    {
        self.denominator > 0 && self.numerator <= self.denominator
    }

    /// Takes the fraction of a byte, rounding down.
    pub fn scale(&self, value: u8) -> (scaled: u8)
        requires
            self.wf(),
        ensures
            scaled == self.of(value as int),
            scaled <= value,
    {
        proof {
            self.lemma_of_bounds(value as int);
            assert(value as int * self.numerator as int <= 255 * 0xffff_ffff) by (nonlinear_arith)
                requires
                    0 <= value as int <= 255,
                    0 <= self.numerator as int <= 0xffff_ffff,
            ;
        }
        let product: u64 = (value as u64) * (self.numerator as u64);
        let quotient: u64 = product / (self.denominator as u64);
        quotient as u8
    }

    /// Tells whether `draw / 2^32` lies above the fraction.
    pub fn is_exceeded_by(&self, draw: u32) -> (above: bool)
        ensures
            above == self.exceeded_by(draw),
    {
        proof {
            assert(draw as int * self.denominator as int <= 0xffff_ffff * 0xffff_ffff)
                by (nonlinear_arith)
                requires
                    0 <= draw as int <= 0xffff_ffff,
                    0 <= self.denominator as int <= 0xffff_ffff,
            ;
        }
        let reach: u64 = (draw as u64) * (self.denominator as u64);
        let bound: u64 = (self.numerator as u64) * DRAW_RANGE;
        reach > bound
    }

    /// Taking a well-formed fraction of a non-negative value gives a
    /// non-negative value that is no larger.
    pub proof fn lemma_of_bounds(self, value: int)
        requires
            self.wf(),
            0 <= value,
        ensures
            0 <= self.of(value) <= value,
    {
        let n = self.numerator as int;
        let d = self.denominator as int;
        assert(0 <= value * n <= value * d) by (nonlinear_arith)
            requires
                0 <= value,
                0 <= n <= d,
        ;
        assert(0 <= (value * n) / d <= value) by (nonlinear_arith)
            requires
                0 < d,
                0 <= value * n <= value * d,
        ;
    }

    /// Taking a fraction less than one of a positive value gives a strictly
    /// smaller value.
    pub proof fn lemma_of_shrinks(self, value: int)
        requires
            self.wf(),
            self.is_proper(),
            0 < value,
        ensures
            0 <= self.of(value) < value,
    {
        let n = self.numerator as int;
        let d = self.denominator as int;
        assert(0 <= value * n < value * d) by (nonlinear_arith)
            requires
                0 < value,
                0 <= n < d,
        ;
        assert(0 <= (value * n) / d < value) by (nonlinear_arith)
            requires
                0 < d,
                0 <= value * n < value * d,
        ;
    }

    /// A fraction of zero is zero.
    pub proof fn lemma_of_zero(self)
        requires
            self.wf(),
        ensures
            self.of(0) == 0,
    {
        self.lemma_of_bounds(0);
    }

    /// Repeated fading never brightens: each further application gives a value
    /// between zero and the one before, and none exceeds the start.
    pub proof fn lemma_repeated_never_grows(self, value: int, times: nat)
        requires
            self.wf(),
            0 <= value,
        ensures
            0 <= self.of_repeated(value, times + 1) <= self.of_repeated(value, times) <= value,
        decreases times,
    {
        if times > 0 {
            self.lemma_repeated_never_grows(value, (times - 1) as nat);
        }
        self.lemma_of_bounds(self.of_repeated(value, times));
    }

    /// Repeated fading by a fraction less than one reaches zero: after as many
    /// applications as the start value counts, nothing is left.
    pub proof fn lemma_repeated_reaches_zero(self, value: int, times: nat)
        requires
            self.wf(),
            self.is_proper(),
            0 <= value <= times,
        ensures
            self.of_repeated(value, times) == 0,
    {
        self.lemma_repeated_loses_one_each(value, times);
    }

    /// Each application of a fraction less than one takes away at least one,
    /// until zero is reached.
    pub proof fn lemma_repeated_loses_one_each(self, value: int, times: nat)
        requires
            self.wf(),
            self.is_proper(),
            0 <= value,
        ensures
            0 <= self.of_repeated(value, times),
            self.of_repeated(value, times) <= value - times || self.of_repeated(value, times) == 0,
        decreases times,
    {
        if times > 0 {
            let before = self.of_repeated(value, (times - 1) as nat);
            self.lemma_repeated_loses_one_each(value, (times - 1) as nat);
            if before > 0 {
                self.lemma_of_shrinks(before);
            } else {
                self.lemma_of_zero();
            }
        }
    }
}

} // verus!
