//! The machine word: a fixed-width signed integer in two's complement.
//!
//! Every word has an integer [`value`](Word::value) between
//! [`min_value`](Word::min_value) and [`max_value`](Word::max_value).
//! Arithmetic wraps around at those bounds. The engine is generic over the
//! width; the trait is implemented for `i8`, `i16`, `i32` and `i64`.
use vstd::prelude::*;

verus! {

/// Folds `x` back into `min ..= max` by one turn of the range.
///
/// For `x` at most one range-width outside the bounds this is the
/// two's-complement wraparound of `x`.
pub open spec fn wrap(min: int, max: int, x: int) -> int {
    if x > max {
        x - (max - min + 1)
    } else if x < min {
        x + (max - min + 1)
    } else {
        x
    }
}

/// The low bits of `n`, read as a signed number in `min ..= max`.
pub open spec fn truncate(min: int, max: int, n: nat) -> int {
    let low = (n as int) % (max - min + 1);
    if low > max {
        low - (max - min + 1)
    } else {
        low
    }
}

/// A fixed-width signed integer with wraparound arithmetic.
pub trait Word: Copy + Sized {
    /// The integer this word stands for.
    spec fn value(self) -> int;

    /// The word that stands for `x`, for `x` within the bounds.
    spec fn of(x: int) -> Self;

    /// The least value of the width.
    spec fn min_value() -> int;

    /// The greatest value of the width.
    spec fn max_value() -> int;

    /// The bounds are those of two's complement, and every word lies within.
    proof fn lemma_bounds(self)
        ensures
            Self::max_value() >= 1,
            Self::min_value() == -Self::max_value() - 1,
            Self::min_value() <= self.value() <= Self::max_value(),
    ;

    /// A word is determined by its value.
    proof fn lemma_of_value(self)
        ensures
            Self::of(self.value()) == self,
    ;

    /// Every integer within the bounds is the value of a word.
    proof fn lemma_value_of(x: int)
        requires
            Self::min_value() <= x <= Self::max_value(),
        ensures
            Self::of(x).value() == x,
    ;

    /// The word 0.
    fn zero() -> (r: Self)
        ensures
            r == Self::of(0),
    ;

    /// The word 1.
    fn one() -> (r: Self)
        ensures
            r == Self::of(1),
    ;

    /// Whether the word is below zero.
    fn is_negative(self) -> (r: bool)
        ensures
            r == (self.value() < 0),
    ;

    /// Whether the word is zero.
    fn is_zero(self) -> (r: bool)
        ensures
            r == (self.value() == 0),
    ;

    /// The sum, wrapped around at the bounds.
    fn wrapping_add(self, rhs: Self) -> (r: Self)
        ensures
            r == Self::of(wrap(Self::min_value(), Self::max_value(), self.value() + rhs.value())),
    ;

    /// The difference, wrapped around at the bounds.
    fn wrapping_sub(self, rhs: Self) -> (r: Self)
        ensures
            r == Self::of(wrap(Self::min_value(), Self::max_value(), self.value() - rhs.value())),
    ;

    /// The bitwise complement; in two's complement that is `-x - 1`.
    fn complement(self) -> (r: Self)
        ensures
            r == Self::of(-self.value() - 1),
    ;

    /// The word as an index into memory: `None` when it is negative or does
    /// not fit in `usize`.
    fn to_index(self) -> (r: Option<usize>)
        ensures
            r == if 0 <= self.value() <= usize::MAX {
                Some(self.value() as usize)
            } else {
                None
            },
    ;

    /// The index cast to a word: its low bits, read as a signed number.
    fn from_index(n: usize) -> (r: Self)
        ensures
            r == Self::of(truncate(Self::min_value(), Self::max_value(), n as nat)),
    ;
}

impl Word for i8 {
    open spec fn value(self) -> int {
        self as int
    }

    open spec fn of(x: int) -> Self {
        x as i8
    }

    open spec fn min_value() -> int {
        i8::MIN as int
    }

    open spec fn max_value() -> int {
        i8::MAX as int
    }

    proof fn lemma_bounds(self) {
    }

    proof fn lemma_of_value(self) {
    }

    proof fn lemma_value_of(x: int) {
    }

    fn zero() -> (r: Self) {
        0
    }

    fn one() -> (r: Self) {
        1
    }

    fn is_negative(self) -> (r: bool) {
        self < 0
    }

    fn is_zero(self) -> (r: bool) {
        self == 0
    }

    fn wrapping_add(self, rhs: Self) -> (r: Self) {
        i8::wrapping_add(self, rhs)
    }

    fn wrapping_sub(self, rhs: Self) -> (r: Self) {
        i8::wrapping_sub(self, rhs)
    }

    fn complement(self) -> (r: Self) {
        let r: i8 = !self;
        assert(r == -self - 1) by (bit_vector)
            requires
                r == !self,
        ;
        r
    }

    fn to_index(self) -> (r: Option<usize>) {
        if self >= 0 {
            Some(self as usize)
        } else {
            None
        }
    }

    fn from_index(n: usize) -> (r: Self) {
        let low: usize = n % 256;
        if low > 127 {
            (low as i16 - 256) as i8
        } else {
            low as i8
        }
    }
}

impl Word for i16 {
    open spec fn value(self) -> int {
        self as int
    }

    open spec fn of(x: int) -> Self {
        x as i16
    }

    open spec fn min_value() -> int {
        i16::MIN as int
    }

    open spec fn max_value() -> int {
        i16::MAX as int
    }

    proof fn lemma_bounds(self) {
    }

    proof fn lemma_of_value(self) {
    }

    proof fn lemma_value_of(x: int) {
    }

    fn zero() -> (r: Self) {
        0
    }

    fn one() -> (r: Self) {
        1
    }

    fn is_negative(self) -> (r: bool) {
        self < 0
    }

    fn is_zero(self) -> (r: bool) {
        self == 0
    }

    fn wrapping_add(self, rhs: Self) -> (r: Self) {
        i16::wrapping_add(self, rhs)
    }

    fn wrapping_sub(self, rhs: Self) -> (r: Self) {
        i16::wrapping_sub(self, rhs)
    }

    fn complement(self) -> (r: Self) {
        let r: i16 = !self;
        assert(r == -self - 1) by (bit_vector)
            requires
                r == !self,
        ;
        r
    }

    fn to_index(self) -> (r: Option<usize>) {
        if self >= 0 {
            Some(self as usize)
        } else {
            None
        }
    }

    fn from_index(n: usize) -> (r: Self) {
        let low: usize = n % 65536;
        if low > 32767 {
            (low as i32 - 65536) as i16
        } else {
            low as i16
        }
    }
}

impl Word for i32 {
    open spec fn value(self) -> int {
        self as int
    }

    open spec fn of(x: int) -> Self {
        x as i32
    }

    open spec fn min_value() -> int {
        i32::MIN as int
    }

    open spec fn max_value() -> int {
        i32::MAX as int
    }

    proof fn lemma_bounds(self) {
    }

    proof fn lemma_of_value(self) {
    }

    proof fn lemma_value_of(x: int) {
    }

    fn zero() -> (r: Self) {
        0
    }

    fn one() -> (r: Self) {
        1
    }

    fn is_negative(self) -> (r: bool) {
        self < 0
    }

    fn is_zero(self) -> (r: bool) {
        self == 0
    }

    fn wrapping_add(self, rhs: Self) -> (r: Self) {
        i32::wrapping_add(self, rhs)
    }

    fn wrapping_sub(self, rhs: Self) -> (r: Self) {
        i32::wrapping_sub(self, rhs)
    }

    fn complement(self) -> (r: Self) {
        let r: i32 = !self;
        assert(r == -self - 1) by (bit_vector)
            requires
                r == !self,
        ;
        r
    }

    fn to_index(self) -> (r: Option<usize>) {
        if self >= 0 {
            Some(self as usize)
        } else {
            None
        }
    }

    fn from_index(n: usize) -> (r: Self) {
        let low: u64 = (n as u64) % 4294967296;
        if low > 2147483647 {
            (low as i64 - 4294967296) as i32
        } else {
            low as i32
        }
    }
}

impl Word for i64 {
    open spec fn value(self) -> int {
        self as int
    }

    open spec fn of(x: int) -> Self {
        x as i64
    }

    open spec fn min_value() -> int {
        i64::MIN as int
    }

    open spec fn max_value() -> int {
        i64::MAX as int
    }

    proof fn lemma_bounds(self) {
    }

    proof fn lemma_of_value(self) {
    }

    proof fn lemma_value_of(x: int) {
    }

    fn zero() -> (r: Self) {
        0
    }

    fn one() -> (r: Self) {
        1
    }

    fn is_negative(self) -> (r: bool) {
        self < 0
    }

    fn is_zero(self) -> (r: bool) {
        self == 0
    }

    fn wrapping_add(self, rhs: Self) -> (r: Self) {
        i64::wrapping_add(self, rhs)
    }

    fn wrapping_sub(self, rhs: Self) -> (r: Self) {
        i64::wrapping_sub(self, rhs)
    }

    fn complement(self) -> (r: Self) {
        let r: i64 = !self;
        assert(r == -self - 1) by (bit_vector)
            requires
                r == !self,
        ;
        r
    }

    fn to_index(self) -> (r: Option<usize>) {
        if self >= 0 && self as u64 <= usize::MAX as u64 {
            Some(self as usize)
        } else {
            None
        }
    }

    fn from_index(n: usize) -> (r: Self) {
        let low: u64 = n as u64;
        proof {
            vstd::arithmetic::div_mod::lemma_small_mod(n as nat, 0x1_0000_0000_0000_0000);
        }
        if low > 9223372036854775807 {
            (low - 9223372036854775808) as i64 + i64::MIN
        } else {
            low as i64
        }
    }
}

} // verus!
