//! Arithmetic on words, with the carry and overflow that it raises.
use crate::word::{wrap, Word};
use vstd::prelude::*;

verus! {

/// The outcome of an arithmetic step: the new word and the two flags.
#[derive(Debug)]
pub struct Flagged<W> {
    /// The result, wrapped around at the bounds of the width.
    pub value: W,
    /// Whether the sign of the result is wrong for the exact result.
    pub overflow: bool,
    /// The carry out of the step.
    pub carry: bool,
}

/// `x` wrapped around at the bounds of `W`.
pub open spec fn wrapped<W: Word>(x: int) -> int {
    wrap(W::min_value(), W::max_value(), x)
}

/// Adding one: overflow when a non-negative word turns negative, carry when
/// the result is zero.
pub open spec fn inc_spec<W: Word>(v: W) -> Flagged<W> {
    let new = wrapped::<W>(v.value() + 1);
    Flagged { value: W::of(new), overflow: v.value() >= 0 && new < 0, carry: new == 0 }
}

/// Subtracting one: overflow when a negative word turns non-negative, carry
/// unless the word was zero, which borrows.
pub open spec fn dec_spec<W: Word>(v: W) -> Flagged<W> {
    let new = wrapped::<W>(v.value() - 1);
    Flagged { value: W::of(new), overflow: v.value() < 0 && new >= 0, carry: v.value() != 0 }
}

/// Adding two words: overflow when both have one sign and the result has the
/// other, carry when both are negative and the result is not.
pub open spec fn add_spec<W: Word>(a: W, b: W) -> Flagged<W> {
    let new = wrapped::<W>(a.value() + b.value());
    Flagged {
        value: W::of(new),
        overflow: (a.value() < 0) == (b.value() < 0) && (new < 0) != (a.value() < 0),
        carry: a.value() < 0 && b.value() < 0 && new >= 0,
    }
}

/// The wrapped sum or difference of two words is the value of a word.
pub proof fn lemma_wrapped_in_bounds<W: Word>(a: W, b: W)
    ensures
        W::min_value() <= wrapped::<W>(a.value() + b.value()) <= W::max_value(),
        W::min_value() <= wrapped::<W>(a.value() - b.value()) <= W::max_value(),
        W::of(wrapped::<W>(a.value() + b.value())).value() == wrapped::<W>(a.value() + b.value()),
        W::of(wrapped::<W>(a.value() - b.value())).value() == wrapped::<W>(a.value() - b.value()),
{
    a.lemma_bounds();
    b.lemma_bounds();
    W::lemma_value_of(wrapped::<W>(a.value() + b.value()));
    W::lemma_value_of(wrapped::<W>(a.value() - b.value()));
}

/// Adds one to `v`.
pub fn inc<W: Word>(v: W) -> (r: Flagged<W>)
    ensures
        r == inc_spec(v),
{
    let one = W::one();
    let new = v.wrapping_add(one);
    proof {
        v.lemma_bounds();
        W::lemma_value_of(1);
        lemma_wrapped_in_bounds(v, one);
    }
    Flagged { value: new, overflow: !v.is_negative() && new.is_negative(), carry: new.is_zero() }
}

/// Subtracts one from `v`.
pub fn dec<W: Word>(v: W) -> (r: Flagged<W>)
    ensures
        r == dec_spec(v),
{
    let one = W::one();
    let new = v.wrapping_sub(one);
    proof {
        v.lemma_bounds();
        W::lemma_value_of(1);
        lemma_wrapped_in_bounds(v, one);
    }
    Flagged { value: new, overflow: v.is_negative() && !new.is_negative(), carry: !v.is_zero() }
}

/// Adds `a` and `b`.
pub fn add<W: Word>(a: W, b: W) -> (r: Flagged<W>)
    ensures
        r == add_spec(a, b),
{
    let new = a.wrapping_add(b);
    proof {
        lemma_wrapped_in_bounds(a, b);
    }
    let a_sign = a.is_negative();
    let b_sign = b.is_negative();
    let new_sign = new.is_negative();
    Flagged {
        value: new,
        overflow: a_sign == b_sign && new_sign != a_sign,
        carry: a_sign && b_sign && !new_sign,
    }
}

/// Adding one steps to the next value, and from the greatest to the least.
/// It overflows exactly at the greatest value and carries exactly at -1.
pub proof fn lemma_inc_exact<W: Word>(v: W)
    ensures
        inc_spec(v).value.value() == if v.value() == W::max_value() {
            W::min_value()
        } else {
            v.value() + 1
        },
        inc_spec(v).overflow == (v.value() == W::max_value()),
        inc_spec(v).carry == (v.value() == -1),
{
    v.lemma_bounds();
    W::lemma_value_of(wrapped::<W>(v.value() + 1));
}

/// Subtracting one steps to the value before, and from the least to the
/// greatest. It overflows exactly at the least value and carries exactly
/// when the word is not zero.
pub proof fn lemma_dec_exact<W: Word>(v: W)
    ensures
        dec_spec(v).value.value() == if v.value() == W::min_value() {
            W::max_value()
        } else {
            v.value() - 1
        },
        dec_spec(v).overflow == (v.value() == W::min_value()),
        dec_spec(v).carry == (v.value() != 0),
{
    v.lemma_bounds();
    W::lemma_value_of(wrapped::<W>(v.value() - 1));
}

/// The sum of two words is exact unless it leaves the bounds; then it is off
/// by the width of the range, and the overflow flag is set. The carry is set
/// exactly when the sum falls below the least value.
pub proof fn lemma_add_exact<W: Word>(a: W, b: W)
    ensures
        ({
            let sum = a.value() + b.value();
            let range = W::max_value() - W::min_value() + 1;
            &&& add_spec(a, b).overflow == (sum < W::min_value() || sum > W::max_value())
            &&& add_spec(a, b).carry == (sum < W::min_value())
            &&& add_spec(a, b).value.value() == if sum > W::max_value() {
                sum - range
            } else if sum < W::min_value() {
                sum + range
            } else {
                sum
            }
        }),
{
    a.lemma_bounds();
    b.lemma_bounds();
    lemma_wrapped_in_bounds(a, b);
}

/// Subtracting one undoes adding one, and adding one undoes subtracting one.
pub proof fn lemma_inc_dec_inverse<W: Word>(v: W)
    ensures
        dec_spec(inc_spec(v).value).value == v,
        inc_spec(dec_spec(v).value).value == v,
{
    v.lemma_bounds();
    v.lemma_of_value();
    W::lemma_value_of(wrapped::<W>(v.value() + 1));
    W::lemma_value_of(wrapped::<W>(v.value() - 1));
}

} // verus!
