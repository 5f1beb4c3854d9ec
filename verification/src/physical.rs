//! Checks that hold a whole array of quantities to strict positivity.

use vstd::prelude::*;
use crate::binary64::{positive, is_positive};
use crate::error::KernelError;

verus! {

/// Every quantity of the array is strictly positive.
pub open spec fn all_positive(values: Seq<u64>) -> bool {
    forall|i: int| 0 <= i < values.len() ==> positive(#[trigger] values[i])
}

/// `index` is the first place of the array whose quantity is not strictly
/// positive.
pub open spec fn first_not_positive(values: Seq<u64>, index: int) -> bool {
    &&& 0 <= index < values.len()
    &&& !positive(values[index])
    &&& forall|j: int| 0 <= j < index ==> positive(#[trigger] values[j])
}

/// Finds the first quantity that is zero, negative or a NaN.
pub fn find_not_positive(values: &Vec<u64>) -> (r: Option<usize>)
    ensures
        r is None <==> all_positive(values@),
        r matches Some(index) ==> first_not_positive(values@, index as int),
{
    let mut i: usize = 0;
    while i < values.len()
        invariant
            i <= values.len(),
            forall|j: int| 0 <= j < i ==> positive(#[trigger] values@[j]),
        decreases values.len() - i,
    {
        if !is_positive(values[i]) {
            return Some(i);
        }
        i += 1;
    }
    None
}

/// Accepts an array of divisors: fails at the first star whose quantity is
/// not strictly positive, and only then.
pub fn require_positive(values: &Vec<u64>) -> (r: Result<(), KernelError>)
    ensures
        r is Ok <==> all_positive(values@),
        r is Err ==> (r matches Err(KernelError::NonPhysicalInput { index })
            && first_not_positive(values@, index as int)),
{
    match find_not_positive(values) {
        None => Ok(()),
        Some(index) => Err(KernelError::NonPhysicalInput { index }),
    }
}

/// At most one place is the first that is not strictly positive, so the
/// error of `require_positive` is determined by the array.
pub proof fn lemma_first_not_positive_unique(values: Seq<u64>, i: int, j: int)
    requires
        first_not_positive(values, i),
        first_not_positive(values, j),
    ensures
        i == j,
{
    if i < j {
        assert(positive(values[i]));
    } else if j < i {
        assert(positive(values[j]));
    }
}

} // verus!
