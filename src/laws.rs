//! Properties of the registry that relate its entry points.
use vstd::prelude::*;
use crate::actions::{DelegateRequest, ManageRequest};
use crate::contract::{
    ContractModel, after_add_user, after_remove_user, child_verdict, create_verdict,
    delegate_well_formed, manage_well_formed, remove_verdict,
};
use crate::error::RegistryError;
use crate::names::{SEPARATOR, child_of};
use crate::registry::{children_of, owner_in};
use crate::sets::lemma_push_members;

verus! {

/// A name that holds the hierarchy separator is refused as `InvalidName` to
/// every caller allowed to create; `sub_create` then leaves the registry as
/// it was.
pub proof fn lemma_create_refuses_separator(
    m: ContractModel,
    caller: Seq<char>,
    name: Seq<char>,
    key: Option<Seq<char>>,
)
    requires
        name.contains(SEPARATOR),
        caller == m.owner || m.users.contains(caller),
    ensures
        create_verdict(m, caller, name, key) == Err::<(), RegistryError>(RegistryError::InvalidName),
{
}

/// A restricted name is refused as `NameRestricted` to every caller allowed
/// to create, unless the name is refused earlier for holding the separator.
pub proof fn lemma_create_refuses_restricted(
    m: ContractModel,
    caller: Seq<char>,
    name: Seq<char>,
    key: Option<Seq<char>>,
)
    requires
        m.restricted.contains(name),
        !name.contains(SEPARATOR),
        caller == m.owner || m.users.contains(caller),
    ensures
        create_verdict(m, caller, name, key) == Err::<(), RegistryError>(RegistryError::NameRestricted),
{
}

/// After a successful creation, the same creation again is refused as
/// `DuplicateIdentity`, and the registry holds exactly one record of the
/// child.
pub proof fn lemma_create_twice(
    m: ContractModel,
    caller: Seq<char>,
    name: Seq<char>,
    key: Option<Seq<char>>,
)
    requires
        m.wf(),
        create_verdict(m, caller, name, key) is Ok,
    ensures
        ({
            let child = child_of(name, m.parent);
            let next = m.with_records(m.records.push((child, caller)));
            &&& create_verdict(next, caller, name, key) == Err::<(), RegistryError>(
                RegistryError::DuplicateIdentity,
            )
            &&& next.wf()
            &&& children_of(next.records).contains(child)
            &&& forall|i: int, j: int|
                0 <= i < children_of(next.records).len() && 0 <= j < children_of(next.records).len()
                    && children_of(next.records)[i] == child && children_of(next.records)[j] == child
                    ==> i == j
        }),
{
    let child = child_of(name, m.parent);
    let next = m.with_records(m.records.push((child, caller)));
    lemma_push_members(m.records, (child, caller));
    assert(children_of(next.records) =~= children_of(m.records).push(child));
    assert(children_of(next.records)[children_of(m.records).len() as int] == child);
}

/// A protected child's record is never removed: every caller is refused,
/// and the top-level owner is refused as `ProtectedIdentity`.
pub proof fn lemma_protected_never_removed(m: ContractModel, caller: Seq<char>, child: Seq<char>)
    requires
        m.protected.contains(child),
    ensures
        remove_verdict(m, caller, child) is Err,
        caller == m.owner ==> remove_verdict(m, caller, child) == Err::<(), RegistryError>(
            RegistryError::ProtectedIdentity,
        ),
{
}

/// Anyone but the recorded owner of a child, the top-level owner included,
/// is refused as `Unauthorized` by `administer` and `act_on_behalf`,
/// whatever the request.
pub proof fn lemma_only_recorded_owner_acts(
    m: ContractModel,
    caller: Seq<char>,
    child: Seq<char>,
    manage: ManageRequest,
    delegate: DelegateRequest,
)
    requires
        owner_in(m.records, child) is Some,
        owner_in(m.records, child) != Some(caller),
    ensures
        child_verdict(m, caller, child, manage_well_formed(manage)) == Err::<(), RegistryError>(
            RegistryError::Unauthorized,
        ),
        child_verdict(m, caller, child, delegate_well_formed(delegate)) == Err::<(), RegistryError>(
            RegistryError::Unauthorized,
        ),
{
}

/// Approving an identity that was not approved and then withdrawing the
/// approval gives back the state before, whoever the caller.
pub proof fn lemma_user_round_trip(m: ContractModel, caller: Seq<char>, user: Seq<char>)
    requires
        !m.users.contains(user),
    ensures
        after_remove_user(after_add_user(m, caller, user), caller, user) == m,
{
    let added = m.users.push(user);
    added.index_of_first_ensures(user);
    assert(added[m.users.len() as int] == user);
    assert(added.remove(m.users.len() as int) =~= m.users);
    if after_add_user(m, caller, user) != m {
        assert(after_add_user(m, caller, user) == m.with_users(added));
        assert(after_remove_user(m.with_users(added), caller, user).users =~= m.users);
    }
}

} // verus!
