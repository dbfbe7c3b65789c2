//! A record type holding one unsigned integer, with explicit duplication,
//! and a combining function that returns the sum of two records' values.
//!
//! Overflow policy: combining is checked. When the mathematical sum of the
//! two values exceeds `usize::MAX`, `sum` reports `CombineError::Overflow`
//! instead of wrapping silently.

use vstd::prelude::*;

verus! {

/// A single non-negative integral quantity. Records are immutable once
/// constructed; duplication yields an independent copy with the same value.
#[derive(Clone, Copy, PartialEq, Eq, Structural, Debug)]
pub struct Record {
    pub num: usize,
}

/// The one way combining can fail: the sum of the two values does not fit
/// in the representable range.
#[derive(Clone, Copy, PartialEq, Eq, Structural, Debug)]
pub enum CombineError {
    Overflow,
}

/// The record that construction yields: it stores `num` unchanged.
pub open spec fn constructed(num: usize) -> Record {
    Record { num }
}

/// The record that duplication yields: a full value copy, equal to the
/// original in every field.
pub open spec fn duplicated(r: Record) -> Record {
    r
}

/// The mathematical sum of two records' values, over unbounded integers.
pub open spec fn combined(a: Record, b: Record) -> int {
    a.num + b.num
}

impl Record {
    /// Creates a record holding `num`. Always succeeds; stores `num` unchanged.
    pub fn construct(num: usize) -> (r: Record)
        ensures
            r == constructed(num),
    {
        Record { num }
    }

    /// Produces an independent copy carrying the same value. Always succeeds;
    /// the copy shares no mutable state with the original.
    pub fn duplicate(&self) -> (r: Record)
        ensures
            r == duplicated(*self),
    {
        Record { num: self.num }
    }
}

/// Combines two records into the arithmetic sum of their values.
///
/// Succeeds exactly when the sum fits in `usize`; otherwise it reports
/// `CombineError::Overflow` rather than wrapping.
pub fn sum(x: Record, y: Record) -> (r: Result<usize, CombineError>)
    ensures
        combined(x, y) <= usize::MAX ==> r == Ok::<usize, CombineError>((x.num + y.num) as usize),
        combined(x, y) > usize::MAX ==> r == Err::<usize, CombineError>(CombineError::Overflow),
{
    if y.num <= usize::MAX - x.num {
        Ok(x.num + y.num)
    } else {
        Err(CombineError::Overflow)
    }
}

/// For all values `x` and `y` in the representable range, combining two
/// freshly constructed records yields exactly `x + y`.
pub proof fn lemma_combine_constructed(x: usize, y: usize)
    ensures
        combined(constructed(x), constructed(y)) == x + y,
{
}

/// Duplication is value-preserving: duplicating a record constructed from `x`
/// keeps the value `x`.
pub proof fn lemma_duplicate_preserves_value(x: usize)
    ensures
        duplicated(constructed(x)).num == x,
{
}

/// Duplication is independent: records are never mutated in place, so any two
/// duplicates of the same record agree on their value.
pub proof fn lemma_duplicates_agree(r: Record, d1: Record, d2: Record)
    requires
        d1 == duplicated(r),
        d2 == duplicated(r),
    ensures
        d1.num == d2.num,
{
}

/// Combining duplicated records yields the same result as combining the
/// originals.
pub proof fn lemma_combine_duplicates(a: Record, b: Record)
    ensures
        combined(duplicated(a), duplicated(b)) == combined(a, b),
{
}

} // verus!
