//! Run-time type identities, as std gives them.
use core::any::TypeId;
use vstd::prelude::*;

verus! {

#[verifier::external_type_specification]
#[verifier::external_body]
pub struct ExTypeId(TypeId);

/// `TypeId == TypeId`: std documents that two `TypeId`s are equal exactly when
/// they identify the same type, so the comparison agrees with equality of the values.
#[verifier::external_body]
pub(crate) fn same_type_id(a: &TypeId, b: &TypeId) -> (r: bool)
    ensures
        r == (*a == *b),
{
    *a == *b
}

} // verus!
