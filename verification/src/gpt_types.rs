//! Link to the partition-table collaborator.
//!
//! The `gpt` crate supplies the partition type values (`Type`, a type GUID
//! with a well-known OS label). This layer reads and carries those values but
//! never constructs or inspects them, so the type stays opaque here.

use vstd::prelude::*;

verus! {

#[verifier::external_type_specification]
#[verifier::external_body]
pub struct ExPartitionType(gpt::partition_types::Type);

/// Relies on the derived `Clone` of `gpt::partition_types::Type`: a
/// field-for-field copy, equal to the original.
#[verifier::external_body]
pub(crate) fn clone_part_type(t: &gpt::partition_types::Type) -> (r: gpt::partition_types::Type)
    ensures
        r == *t,
{
    t.clone()
}

} // verus!
