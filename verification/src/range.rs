//! Smallest and largest values of a batch of measurements.

use crate::scalar::Single;
use vstd::prelude::*;

verus! {

/// The smallest and the largest of the values noted so far.
#[derive(Clone, Copy, Debug, PartialEq, Eq, Structural)]
pub struct SingleRange {
    pub min: Option<Single>,
    pub max: Option<Single>,
}

/// The range of the values that are present in `values`.
pub open spec fn range_of(values: Seq<Option<Single>>) -> SingleRange
    decreases values.len(),
{
    if values.len() == 0 {
        SingleRange { min: None, max: None }
    } else {
        range_of(values.drop_last()).noting(values.last())
    }
}

/// `value`, unless it is infinite or a NaN.
pub open spec fn if_finite(value: Single) -> Option<Single> {
    if value.finite() {
        Some(value)
    } else {
        None
    }
}

/// The largest of `values` and zero.
pub open spec fn largest(values: Seq<Single>) -> Single
    decreases values.len(),
{
    if values.len() == 0 {
        Single { bits: 0 }
    } else {
        largest(values.drop_last()).larger(values.last())
    }
}

impl SingleRange {
    /// The range after one more measurement, which may be missing.
    pub open spec fn noting(self, value: Option<Single>) -> SingleRange {
        match value {
            None => self,
            Some(value) => SingleRange {
                min: match self.min {
                    None => Some(value),
                    Some(current) => Some(current.smaller(value)),
                },
                max: match self.max {
                    None => Some(value),
                    Some(current) => Some(current.larger(value)),
                },
            },
        }
    }

    pub fn empty() -> (r: SingleRange)
        ensures
            r == range_of(Seq::empty()),
    {
        SingleRange { min: None, max: None }
    }

    pub fn note(&mut self, value: Option<Single>)
        ensures
            *final(self) == old(self).noting(value),
    {
        if let Some(value) = value {
            self.min = match self.min {
                None => Some(value),
                Some(current) => Some(current.min(value)),
            };
            self.max = match self.max {
                None => Some(value),
                Some(current) => Some(current.max(value)),
            };
        }
    }
}

/// Both ends of a range are measurements of the batch, and no measurement lies outside.
/// The range is empty just when every measurement is missing.
pub proof fn range_is_tight(values: Seq<Option<Single>>)
    ensures
        range_of(values).min is None <==> range_of(values).max is None,
        range_of(values).min is Some ==> values.contains(range_of(values).min) && values.contains(
            range_of(values).max,
        ),
        forall|i: int|
            0 <= i < values.len() && #[trigger] values[i] is Some ==> {
                &&& range_of(values).min is Some
                &&& !values[i]->0.below(range_of(values).min->0)
                &&& !range_of(values).max->0.below(values[i]->0)
                &&& !values[i]->0.nan() ==> !range_of(values).min->0.nan() && !range_of(
                    values,
                ).max->0.nan()
            },
    decreases values.len(),
{
    if values.len() > 0 {
        let before = values.drop_last();
        range_is_tight(before);
        let (old_range, new_range) = (range_of(before), range_of(values));
        assert(forall|i: int| 0 <= i < before.len() ==> before[i] == values[i]);
        if new_range.min is Some {
            if before.contains(new_range.min) {
                let i = choose|i: int| 0 <= i < before.len() && before[i] == new_range.min;
                assert(values[i] == new_range.min);
            } else {
                assert(values[values.len() - 1] == new_range.min);
            }
            if before.contains(new_range.max) {
                let i = choose|i: int| 0 <= i < before.len() && before[i] == new_range.max;
                assert(values[i] == new_range.max);
            } else {
                assert(values[values.len() - 1] == new_range.max);
            }
        }
        assert forall|i: int|
            0 <= i < values.len() && #[trigger] values[i] is Some implies {
            &&& new_range.min is Some
            &&& !values[i]->0.below(new_range.min->0)
            &&& !new_range.max->0.below(values[i]->0)
            &&& !values[i]->0.nan() ==> !new_range.min->0.nan() && !new_range.max->0.nan()
        } by {
            if i < before.len() {
                assert(before[i] == values[i]);
            }
        }
    }
}

/// The largest value is no NaN, is not negative, and no measurement exceeds it.
pub proof fn largest_is_an_upper_bound(values: Seq<Single>)
    ensures
        !largest(values).nan(),
        largest(values).rank() >= 0,
        forall|i: int| 0 <= i < values.len() ==> !largest(values).below(#[trigger] values[i]),
        largest(values) == (Single { bits: 0 }) || values.contains(largest(values)),
    decreases values.len(),
{
    if values.len() > 0 {
        let before = values.drop_last();
        largest_is_an_upper_bound(before);
        assert forall|i: int| 0 <= i < values.len() implies !largest(values).below(
            #[trigger] values[i],
        ) by {
            if i < before.len() {
                assert(before[i] == values[i]);
            }
        }
        if before.contains(largest(values)) {
            let i = choose|i: int| 0 <= i < before.len() && before[i] == largest(values);
            assert(values[i] == largest(values));
        } else if largest(values) == values.last() {
            assert(values[values.len() - 1] == largest(values));
        }
    }
}

} // verus!
