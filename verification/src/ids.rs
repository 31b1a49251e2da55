use vstd::prelude::*;

verus! {

/// Player and game identifiers are `uuid::Uuid` values, carried through
/// unread.
#[verifier::external_type_specification]
#[verifier::external_body]
pub struct ExUuid(uuid::Uuid);

} // verus!
