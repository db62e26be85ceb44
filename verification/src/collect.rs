//! Collecting results, by way of `itertools`.

use itertools::Itertools;
use vstd::prelude::*;
use crate::item::Item;
use crate::query::Transform;

verus! {

/// `Itertools::try_collect` on the results in their order, into a vector:
/// `Ok` of all the values, in the same order, where every result is `Ok`;
/// else the error of the first result that is an `Err`.
#[verifier::external_body]
pub(crate) fn try_collect(results: Vec<Result<Transform, Item>>) -> (collected: Result<
    Vec<Transform>,
    Item,
>)
    ensures
        match collected {
            Ok(values) => {
                &&& values@.len() == results@.len()
                &&& forall|i: int|
                    0 <= i < results@.len() ==> results@[i] == Ok::<Transform, Item>(values@[i])
            },
            Err(error) => exists|k: int|
                {
                    &&& 0 <= k < results@.len()
                    &&& results@[k] == Err::<Transform, Item>(error)
                    &&& forall|j: int| 0 <= j < k ==> results@[j] is Ok
                },
        },
{
    Itertools::try_collect(results.into_iter())
}

} // verus!
