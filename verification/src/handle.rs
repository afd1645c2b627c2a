use io_extras::grip::OwnedGrip;
use std::sync::Arc;
use vstd::prelude::*;

verus! {

/// `io_extras::grip::OwnedGrip`, the owner of one open OS resource. Nothing is
/// claimed of what it holds: the library only carries it, behind an `Arc`, from
/// a value slot to a duplication record.
#[verifier::external_type_specification]
#[verifier::external_body]
pub struct ExOwnedGrip(OwnedGrip);

/// `Arc::clone` on a shared handle: one more reference to the same resource.
/// The claim is that the new reference denotes the handle it was made from;
/// the resource itself is neither duplicated nor closed.
#[verifier::external_body]
pub(crate) fn share(handle: &Arc<OwnedGrip>) -> (r: Arc<OwnedGrip>)
    ensures
        r == *handle,
{
    Arc::clone(handle)
}

} // verus!
