//! Checks made when the data of a native tensor is exposed as a Rust slice.
use vstd::prelude::*;

use crate::element_type::{ElementType, TensorElement};
use crate::error::{Error, OgaResult};

verus! {

/// The number of elements of a tensor with the given shape, computed as the
/// product of its dimensions from the first to the last.
///
/// It is `None` when a dimension is negative or does not fit in a `usize`, or when
/// a partial product, taken in that order, no longer fits in a `usize`.
pub open spec fn shape_element_count(shape: Seq<i64>) -> Option<int>
    decreases shape.len(),
{
    if shape.len() == 0 {
        Some(1)
    } else {
        match shape_element_count(shape.drop_last()) {
            None => None,
            Some(c) => {
                let d = shape.last();
                if d < 0 || d > usize::MAX || c * d > usize::MAX {
                    None
                } else {
                    Some(c * d)
                }
            },
        }
    }
}

/// The mathematical product of the dimensions of a shape.
pub open spec fn shape_product(shape: Seq<i64>) -> int
    decreases shape.len(),
{
    if shape.len() == 0 {
        1
    } else {
        shape_product(shape.drop_last()) * shape.last()
    }
}

/// Returns how many elements a tensor of the given shape holds.
///
/// Fails with `InvalidTensorShape` exactly when a dimension is negative or too large
/// for a `usize`, or a partial product of the dimensions overflows `usize`.
pub fn tensor_element_count(shape: &[i64]) -> (r: OgaResult<usize>)
    ensures
        match shape_element_count(shape@) {
            None => r matches Err(Error::InvalidTensorShape),
            Some(c) => r matches Ok(n) && n == c,
        },
        r is Ok <==> {
            &&& forall|i: int| 0 <= i < shape@.len() ==> 0 <= #[trigger] shape@[i] <= usize::MAX
            &&& forall|k: int| 0 <= k <= shape@.len() ==> #[trigger] shape_product(shape@.take(k)) <= usize::MAX
        },
        r matches Ok(n) ==> n == shape_product(shape@),
{
    let mut count: usize = 1;
    let mut i: usize = 0;
    while i < shape.len()
        invariant
            i <= shape@.len(),
            shape_element_count(shape@.take(i as int)) == Some(count as int),
        decreases shape@.len() - i,
    {
        proof {
            assert(shape@.take(i + 1).drop_last() =~= shape@.take(i as int));
            assert(shape@.take(i + 1).last() == shape@[i as int]);
        }
        let d = shape[i];
        if d < 0 {
            proof {
                lemma_count_none_extends(shape@, i as int + 1);
                lemma_element_count_exactly_when_products_fit(shape@);
            }
            return Err(Error::InvalidTensorShape);
        }
        let du = d as u64;
        if du > usize::MAX as u64 {
            proof {
                lemma_count_none_extends(shape@, i as int + 1);
                lemma_element_count_exactly_when_products_fit(shape@);
            }
            return Err(Error::InvalidTensorShape);
        }
        let dz = du as usize;
        match count.checked_mul(dz) {
            None => {
                proof {
                    lemma_count_none_extends(shape@, i as int + 1);
                    lemma_element_count_exactly_when_products_fit(shape@);
                }
                return Err(Error::InvalidTensorShape);
            },
            Some(c) => {
                count = c;
            },
        }
        i = i + 1;
    }
    proof {
        assert(shape@.take(shape@.len() as int) =~= shape@);
        lemma_element_count_exactly_when_products_fit(shape@);
    }
    Ok(count)
}

/// Once a prefix of a shape has no element count, no longer prefix has one.
proof fn lemma_count_none_extends(shape: Seq<i64>, k: int)
    requires
        0 <= k <= shape.len(),
        shape_element_count(shape.take(k)) is None,
    ensures
        shape_element_count(shape) is None,
    decreases shape.len() - k,
{
    if k < shape.len() {
        assert(shape.take(k + 1).drop_last() =~= shape.take(k));
        lemma_count_none_extends(shape, k + 1);
    } else {
        assert(shape.take(k) =~= shape);
    }
}

/// When a shape has an element count, it is the product of its dimensions.
pub proof fn lemma_element_count_is_product(shape: Seq<i64>)
    requires
        shape_element_count(shape) is Some,
    ensures
        shape_element_count(shape) == Some(shape_product(shape)),
    decreases shape.len(),
{
    if shape.len() > 0 {
        lemma_element_count_is_product(shape.drop_last());
    }
}

/// A shape has an element count exactly when each dimension is non-negative and
/// fits in a `usize`, and the product of every prefix of the dimensions fits in a
/// `usize`; the count is then the product of all the dimensions.
pub proof fn lemma_element_count_exactly_when_products_fit(shape: Seq<i64>)
    ensures
        shape_element_count(shape) is Some <==> {
            &&& forall|i: int| 0 <= i < shape.len() ==> 0 <= #[trigger] shape[i] <= usize::MAX
            &&& forall|k: int| 0 <= k <= shape.len() ==> #[trigger] shape_product(shape.take(k)) <= usize::MAX
        },
        shape_element_count(shape) is Some ==> shape_element_count(shape) == Some(shape_product(shape)),
    decreases shape.len(),
{
    if shape.len() == 0 {
        assert(shape.take(0) =~= shape);
    } else {
        let init = shape.drop_last();
        let d = shape.last();
        let n = shape.len() as int;
        lemma_element_count_exactly_when_products_fit(init);
        assert(shape.take(n) =~= shape);
        assert forall|k: int| 0 <= k <= init.len() implies shape.take(k) == init.take(k) by {
            assert(shape.take(k) =~= init.take(k));
        }
        if shape_element_count(shape) is Some {
            assert forall|i: int| 0 <= i < shape.len() implies 0 <= #[trigger] shape[i] <= usize::MAX by {
                if i < n - 1 {
                    assert(shape[i] == init[i]);
                }
            }
            assert forall|k: int| 0 <= k <= shape.len() implies #[trigger] shape_product(shape.take(k)) <= usize::MAX by {
                if k < n {
                    assert(shape.take(k) == init.take(k));
                }
            }
        }
        if (forall|i: int| 0 <= i < shape.len() ==> 0 <= #[trigger] shape[i] <= usize::MAX)
            && (forall|k: int| 0 <= k <= shape.len() ==> #[trigger] shape_product(shape.take(k)) <= usize::MAX) {
            assert forall|i: int| 0 <= i < init.len() implies 0 <= #[trigger] init[i] <= usize::MAX by {
                assert(shape[i] == init[i]);
            }
            assert forall|k: int| 0 <= k <= init.len() implies #[trigger] shape_product(init.take(k)) <= usize::MAX by {
                assert(shape.take(k) == init.take(k));
                assert(shape_product(shape.take(k)) <= usize::MAX);
            }
            assert(shape[n - 1] == d);
            assert(shape_product(shape.take(n)) <= usize::MAX);
        }
    }
}

/// A shape with a negative dimension has no element count.
pub proof fn lemma_negative_dimension_has_no_count(shape: Seq<i64>, k: int)
    requires
        0 <= k < shape.len(),
        shape[k] < 0,
    ensures
        shape_element_count(shape) is None,
    decreases shape.len(),
{
    if k == shape.len() - 1 {
        assert(shape.last() == shape[k]);
    } else {
        assert(shape.drop_last()[k] == shape[k]);
        lemma_negative_dimension_has_no_count(shape.drop_last(), k);
    }
}

/// Checks that a tensor whose native element type is `actual` can be read as
/// elements of type `expected`; fails with `TensorTypeMismatch` exactly when they
/// differ.
pub fn check_matching_element_type(actual: ElementType, expected: ElementType) -> (r: OgaResult<()>)
    ensures
        r is Ok <==> actual == expected,
        r matches Err(e) ==> e is TensorTypeMismatch,
{
    if actual == expected {
        Ok(())
    } else {
        Err(Error::TensorTypeMismatch)
    }
}

/// Checks that a tensor whose native element type is `actual` can be read as a
/// slice of `T`; fails with `TensorTypeMismatch` exactly when the types differ.
pub fn check_element_type<T: TensorElement>(actual: ElementType) -> (r: OgaResult<()>)
    ensures
        r is Ok <==> actual == T::spec_element_type(),
        r matches Err(e) ==> e is TensorTypeMismatch,
{
    check_matching_element_type(actual, T::element_type())
}

/// Checks the data pointer of a tensor with `element_count` elements: a tensor
/// that holds elements must have data, so a null pointer is then a `NulError`; an
/// empty tensor is read as an empty slice whatever its pointer.
pub fn check_tensor_data(element_count: usize, data_is_null: bool) -> (r: OgaResult<usize>)
    ensures
        element_count > 0 && data_is_null <==> r is Err,
        r matches Err(e) ==> e is NulError,
        r matches Ok(n) ==> n == element_count,
{
    if element_count > 0 && data_is_null {
        Err(Error::NulError)
    } else {
        Ok(element_count)
    }
}

} // verus!
