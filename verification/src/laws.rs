//! What holds of tensors across the operations that build them.

use vstd::prelude::*;
use crate::ident::IdCounter;
use crate::op::Operator;
use crate::tensor::Tensor;

verus! {

/// Two tensors that were built with one counter, one after the other, differ
/// in identity, and the later one has the greater identity. Between the two
/// constructions the counter may have served any number of others: it never
/// goes back.
pub proof fn law_identities_differ<T>(
    first: Tensor<T>,
    before_first: IdCounter,
    after_first: IdCounter,
    second: Tensor<T>,
    before_second: IdCounter,
    after_second: IdCounter,
)
    requires
        first.built_with(&before_first, &after_first),
        second.built_with(&before_second, &after_second),
        after_first@ <= before_second@,
    ensures
        first@.id < second@.id,
        first@.id != second@.id,
{
}

/// An operation leaves its operands as they were: what the result remembers
/// as its operands are the tensors that it was applied to, each with the
/// identity, the shape and the elements that it had before.
pub proof fn law_operands_kept<T>(result: Tensor<T>, op: Operator<T>, lhs: Tensor<T>, rhs: Tensor<T>)
    requires
        result.records(op, &lhs, &rhs),
    ensures
        result@.op is Some,
        result@.op.unwrap().operands().len() == 2,
        result@.op.unwrap().operands()[0]@ == lhs@,
        result@.op.unwrap().operands()[1]@ == rhs@,
{
}

} // verus!
