//! Who may do what.
use vstd::prelude::*;
use crate::error::RegistryError;
use crate::sets::StringSet;

verus! {

/// The caller may create children: it is the top-level owner or an
/// approved creator.
pub fn can_create(caller: &String, top_owner: &String, approved: &StringSet) -> (r: bool)
    ensures
        r == (caller@ == top_owner@ || approved@.contains(caller@)),
{
    *caller == *top_owner || approved.contains(caller)
}

/// The caller may administer a child: it is the child's recorded owner.
/// Approval to create grants nothing here.
pub fn can_administer(caller: &String, recorded_owner: &String) -> (r: bool)
    ensures
        r == (caller@ == recorded_owner@),
{
    *caller == *recorded_owner
}

/// Refuses any caller but the top-level owner.
pub fn assert_top_owner(caller: &String, top_owner: &String) -> (r: Result<(), RegistryError>)
    ensures
        r is Ok <==> caller@ == top_owner@,
        r is Err ==> r == Err::<(), RegistryError>(RegistryError::Unauthorized),
{
    if *caller == *top_owner {
        Ok(())
    } else {
        Err(RegistryError::Unauthorized)
    }
}

} // verus!
