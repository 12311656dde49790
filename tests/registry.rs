use subaccounts::{
    Action, ComputeBudget, Contract, DelegateRequest, ManageRequest, OwnershipRegistry,
    RegistryError, StringSet, assert_top_owner, can_administer, can_create, child_id,
    contains_separator, validate_create,
};

const K1: &str = "ed25519:6E8sCci9badyRkXb3JoRpBj5p8C6Tw41ELDZoiihKEtp";
const K2: &str = "ed25519:11111111111111111111111111111111";

fn s(x: &str) -> String {
    x.to_string()
}

fn registry() -> Contract {
    Contract::new(s("master"), s("registry"), None).unwrap()
}

fn records(c: &Contract) -> Vec<(String, String)> {
    c.sub_list(0, 100)
}

#[test]
fn create_chain_with_two_default_keys() {
    let mut c = registry();
    c.manage_add_key(&s("master"), &s(K1)).unwrap();
    c.manage_add_key(&s("master"), &s(K2)).unwrap();
    let chain = c.sub_create(&s("master"), s("sub"), None, None, 5).unwrap();
    assert_eq!(
        chain,
        vec![
            Action::CreateAccount { id: s("sub.registry") },
            Action::Transfer { id: s("sub.registry"), amount: 5 },
            Action::AttachFullCredential { id: s("sub.registry"), credential: s(K1) },
            Action::AttachFullCredential { id: s("sub.registry"), credential: s(K2) },
        ]
    );
    assert_eq!(records(&c), vec![(s("sub.registry"), s("master"))]);
}

#[test]
fn create_chain_with_caller_key_and_code() {
    let mut c = Contract::new(s("master"), s("registry"), Some(s(K2))).unwrap();
    let chain = c
        .sub_create(&s("master"), s("app"), Some(s(K1)), Some(vec![0, 97, 115, 109]), 0)
        .unwrap();
    assert_eq!(
        chain,
        vec![
            Action::CreateAccount { id: s("app.registry") },
            Action::Transfer { id: s("app.registry"), amount: 0 },
            Action::AttachFullCredential { id: s("app.registry"), credential: s(K1) },
            Action::AttachFullCredential { id: s("app.registry"), credential: s(K2) },
            Action::DeployCode { id: s("app.registry"), code: vec![0, 97, 115, 109] },
        ]
    );
}

#[test]
fn create_refuses_separator() {
    let mut c = registry();
    assert_eq!(
        c.sub_create(&s("master"), s("a.b"), None, None, 0),
        Err(RegistryError::InvalidName)
    );
    assert_eq!(c.sub_create(&s("master"), s("."), None, None, 0), Err(RegistryError::InvalidName));
    assert!(records(&c).is_empty());
}

#[test]
fn create_refuses_restricted_name() {
    let mut c = registry();
    c.sub_restrict(&s("master"), s("admin")).unwrap();
    assert_eq!(c.sub_list_restricted(), vec![s("admin")]);
    assert_eq!(
        c.sub_create(&s("master"), s("admin"), None, None, 0),
        Err(RegistryError::NameRestricted)
    );
    assert!(records(&c).is_empty());
    c.sub_unrestrict(&s("master"), &s("admin")).unwrap();
    assert!(c.sub_list_restricted().is_empty());
    assert!(c.sub_create(&s("master"), s("admin"), None, None, 0).is_ok());
}

#[test]
fn create_twice_is_duplicate() {
    let mut c = registry();
    assert!(c.sub_create(&s("master"), s("sub"), None, None, 0).is_ok());
    assert_eq!(
        c.sub_create(&s("master"), s("sub"), None, None, 0),
        Err(RegistryError::DuplicateIdentity)
    );
    assert_eq!(records(&c), vec![(s("sub.registry"), s("master"))]);
}

#[test]
fn create_refuses_unapproved_caller() {
    let mut c = registry();
    assert_eq!(
        c.sub_create(&s("alice"), s("sub"), None, None, 0),
        Err(RegistryError::Unauthorized)
    );
    c.manage_add_user(&s("master"), s("alice")).unwrap();
    assert!(c.sub_create(&s("alice"), s("sub"), None, None, 0).is_ok());
    assert_eq!(records(&c), vec![(s("sub.registry"), s("alice"))]);
}

#[test]
fn create_refuses_name_that_is_no_account() {
    let mut c = registry();
    assert_eq!(c.sub_create(&s("master"), s("Sub"), None, None, 0), Err(RegistryError::InvalidArgument));
    assert_eq!(c.sub_create(&s("master"), s(""), None, None, 0), Err(RegistryError::InvalidArgument));
    assert!(records(&c).is_empty());
}

#[test]
fn create_refuses_malformed_key() {
    let mut c = registry();
    assert_eq!(
        c.sub_create(&s("master"), s("sub"), Some(s("ed25519:nokey")), None, 0),
        Err(RegistryError::InvalidArgument)
    );
    assert!(records(&c).is_empty());
}

#[test]
fn protected_child_is_never_removed() {
    let mut c = registry();
    c.sub_create(&s("master"), s("vault"), None, None, 0).unwrap();
    c.sub_protect(&s("master"), s("vault.registry")).unwrap();
    assert_eq!(c.sub_list_protected(), vec![s("vault.registry")]);
    assert_eq!(
        c.sub_remove(&s("master"), &s("vault.registry")),
        Err(RegistryError::ProtectedIdentity)
    );
    assert!(c.sub_remove(&s("alice"), &s("vault.registry")).is_err());
    assert_eq!(records(&c).len(), 1);
    c.sub_unprotect(&s("master"), &s("vault.registry")).unwrap();
    assert_eq!(c.sub_remove(&s("master"), &s("vault.registry")), Ok(()));
    assert!(records(&c).is_empty());
}

#[test]
fn remove_and_add_records() {
    let mut c = registry();
    assert_eq!(c.sub_remove(&s("master"), &s("x.registry")), Err(RegistryError::UnknownIdentity));
    assert_eq!(
        c.sub_add(&s("alice"), s("x.registry"), s("alice")),
        Err(RegistryError::Unauthorized)
    );
    assert_eq!(
        c.sub_add(&s("master"), s("X"), s("alice")),
        Err(RegistryError::InvalidArgument)
    );
    assert_eq!(c.sub_add(&s("master"), s("x.registry"), s("alice")), Ok(()));
    assert_eq!(
        c.sub_add(&s("master"), s("x.registry"), s("bob")),
        Err(RegistryError::DuplicateIdentity)
    );
    assert_eq!(c.sub_remove(&s("bob"), &s("x.registry")), Err(RegistryError::Unauthorized));
    assert_eq!(records(&c), vec![(s("x.registry"), s("alice"))]);
    assert_eq!(c.sub_remove(&s("master"), &s("x.registry")), Ok(()));
    assert!(records(&c).is_empty());
}

#[test]
fn only_recorded_owner_administers() {
    let mut c = registry();
    c.manage_add_user(&s("master"), s("alice")).unwrap();
    c.sub_create(&s("alice"), s("sub"), None, None, 0).unwrap();
    let child = s("sub.registry");
    assert_eq!(
        c.administer(&s("master"), &child, ManageRequest::Delete),
        Err(RegistryError::Unauthorized)
    );
    assert_eq!(
        c.act_on_behalf(&s("master"), &child, DelegateRequest::Deploy { code: vec![1] }),
        Err(RegistryError::Unauthorized)
    );
    assert_eq!(
        c.administer(&s("bob"), &child, ManageRequest::AddKey { key: s(K1) }),
        Err(RegistryError::Unauthorized)
    );
    assert_eq!(
        c.administer(&s("alice"), &child, ManageRequest::Delete),
        Ok(vec![Action::DeleteAccount { id: child.clone(), refund_to: s("alice") }])
    );
}

#[test]
fn administer_unknown_child() {
    let c = registry();
    assert_eq!(
        c.administer(&s("master"), &s("ghost.registry"), ManageRequest::Delete),
        Err(RegistryError::UnknownIdentity)
    );
    assert_eq!(
        c.act_on_behalf(&s("master"), &s("ghost.registry"), DelegateRequest::Deploy { code: vec![] }),
        Err(RegistryError::UnknownIdentity)
    );
}

#[test]
fn administer_keys() {
    let mut c = registry();
    c.sub_create(&s("master"), s("sub"), None, None, 0).unwrap();
    let child = s("sub.registry");
    assert_eq!(
        c.administer(&s("master"), &child, ManageRequest::AddKey { key: s(K1) }),
        Ok(vec![Action::AttachScopedCredential {
            id: child.clone(),
            credential: s(K1),
            allowed_methods: vec![s("act_on_behalf")],
            spender_id: s("registry"),
        }])
    );
    assert_eq!(
        c.administer(&s("master"), &child, ManageRequest::RemoveKey { key: s(K2) }),
        Ok(vec![Action::DetachCredential { id: child.clone(), credential: s(K2) }])
    );
    assert_eq!(
        c.administer(&s("master"), &child, ManageRequest::RemoveKey { key: s("garbage") }),
        Err(RegistryError::InvalidArgument)
    );
}

#[test]
fn act_on_behalf_requests() {
    let mut c = registry();
    c.sub_create(&s("master"), s("sub"), None, None, 0).unwrap();
    let child = s("sub.registry");
    assert_eq!(
        c.act_on_behalf(
            &s("master"),
            &child,
            DelegateRequest::Transfer { receiver_id: s("bob.near"), amount: 1000 }
        ),
        Ok(vec![Action::Transfer { id: s("bob.near"), amount: 1000 }])
    );
    assert_eq!(
        c.act_on_behalf(
            &s("master"),
            &child,
            DelegateRequest::Transfer { receiver_id: s("Bob!"), amount: 1 }
        ),
        Err(RegistryError::InvalidArgument)
    );
    assert_eq!(
        c.act_on_behalf(
            &s("master"),
            &child,
            DelegateRequest::Call {
                contract_id: s("token.near"),
                method: s("ft_transfer"),
                payload: vec![123, 125],
                deposit: 1,
                budget: ComputeBudget::Share(2),
            }
        ),
        Ok(vec![Action::Invoke {
            contract_id: s("token.near"),
            method: s("ft_transfer"),
            payload: vec![123, 125],
            attached_value: 1,
            budget: ComputeBudget::Share(2),
        }])
    );
    assert_eq!(
        c.act_on_behalf(
            &s("master"),
            &child,
            DelegateRequest::Call {
                contract_id: s("x"),
                method: s("go"),
                payload: vec![],
                deposit: 0,
                budget: ComputeBudget::Fixed(30),
            }
        ),
        Err(RegistryError::InvalidArgument)
    );
    assert_eq!(
        c.act_on_behalf(&s("master"), &child, DelegateRequest::Deploy { code: vec![7, 8] }),
        Ok(vec![Action::DeployCode { id: child.clone(), code: vec![7, 8] }])
    );
}

#[test]
fn list_pages_in_insertion_order() {
    let mut c = registry();
    for name in ["a", "b", "c"] {
        c.sub_create(&s("master"), s(&format!("{}{}", name, name)), None, None, 0).unwrap();
    }
    let a = (s("aa.registry"), s("master"));
    let b = (s("bb.registry"), s("master"));
    let cc = (s("cc.registry"), s("master"));
    assert_eq!(c.sub_list(0, 2), vec![a.clone(), b.clone()]);
    assert_eq!(c.sub_list(2, 2), vec![cc.clone()]);
    assert_eq!(c.sub_list(3, 2), vec![]);
    assert_eq!(c.sub_list(1, usize::MAX), vec![b, cc]);
    assert_eq!(c.sub_list(0, 0), vec![]);
}

#[test]
fn add_remove_user_round_trip() {
    let mut c = registry();
    c.manage_add_user(&s("master"), s("alice")).unwrap();
    let before = c.manage_list_users();
    c.manage_add_user(&s("master"), s("bob")).unwrap();
    assert_eq!(c.manage_list_users(), vec![s("alice"), s("bob")]);
    c.manage_remove_user(&s("master"), &s("bob")).unwrap();
    assert_eq!(c.manage_list_users(), before);
}

#[test]
fn user_management_is_owner_only() {
    let mut c = registry();
    assert_eq!(c.manage_add_user(&s("alice"), s("alice")), Err(RegistryError::Unauthorized));
    assert_eq!(c.manage_add_user(&s("master"), s("A")), Err(RegistryError::InvalidArgument));
    assert_eq!(c.manage_add_user(&s("master"), s("alice")), Ok(()));
    assert_eq!(c.manage_add_user(&s("master"), s("alice")), Ok(()));
    assert_eq!(c.manage_list_users(), vec![s("alice")]);
    assert_eq!(c.manage_remove_user(&s("alice"), &s("alice")), Err(RegistryError::Unauthorized));
    assert_eq!(c.sub_restrict(&s("alice"), s("x")), Err(RegistryError::Unauthorized));
    assert_eq!(c.sub_protect(&s("alice"), s("x.registry")), Err(RegistryError::Unauthorized));
    assert_eq!(c.manage_add_key(&s("alice"), &s(K1)), Err(RegistryError::Unauthorized));
}

#[test]
fn default_keys_are_kept_canonical() {
    let mut c = registry();
    c.manage_add_key(&s("master"), &s("11111111111111111111111111111111")).unwrap();
    c.manage_add_key(&s("master"), &s("ED25519:11111111111111111111111111111111")).unwrap();
    assert_eq!(c.manage_list_keys(), vec![s(K2)]);
    assert_eq!(c.manage_add_key(&s("master"), &s("ed25519:0")), Err(RegistryError::InvalidArgument));
    c.manage_remove_key(&s("master"), &s("11111111111111111111111111111111")).unwrap();
    assert!(c.manage_list_keys().is_empty());
}

#[test]
fn new_checks_its_arguments() {
    assert_eq!(
        Contract::new(s("Master"), s("registry"), None).err(),
        Some(RegistryError::InvalidArgument)
    );
    assert_eq!(
        Contract::new(s("master"), s("r"), None).err(),
        Some(RegistryError::InvalidArgument)
    );
    assert_eq!(
        Contract::new(s("master"), s("registry"), Some(s("key"))).err(),
        Some(RegistryError::InvalidArgument)
    );
    let c = Contract::new(s("master"), s("registry"), Some(s(K1))).unwrap();
    assert_eq!(c.manage_list_keys(), vec![s(K1)]);
    assert_eq!(c.owner_id(), "master");
    assert_eq!(c.account_id(), "registry");
    assert!(c.manage_list_users().is_empty());
}

#[test]
fn manage_request_from_op() {
    assert_eq!(ManageRequest::from_op(&s("delete"), None), Ok(ManageRequest::Delete));
    assert_eq!(
        ManageRequest::from_op(&s("add_key"), Some(s(K1))),
        Ok(ManageRequest::AddKey { key: s(K1) })
    );
    assert_eq!(
        ManageRequest::from_op(&s("remove_key"), Some(s(K2))),
        Ok(ManageRequest::RemoveKey { key: s(K2) })
    );
    assert_eq!(ManageRequest::from_op(&s("add_key"), None), Err(RegistryError::InvalidArgument));
    assert_eq!(ManageRequest::from_op(&s("transfer"), None), Err(RegistryError::InvalidAction));
}

#[test]
fn name_rules() {
    assert!(contains_separator(&s("a.b")));
    assert!(!contains_separator(&s("ab")));
    assert_eq!(child_id(&s("sub"), &s("registry")), "sub.registry");
    let mut restricted = StringSet::new();
    restricted.insert(s("root"));
    assert_eq!(validate_create(&s("root"), &restricted), Err(RegistryError::NameRestricted));
    assert_eq!(validate_create(&s("ro.ot"), &restricted), Err(RegistryError::InvalidName));
    assert_eq!(validate_create(&s("leaf"), &restricted), Ok(()));
}

#[test]
fn access_policy() {
    let mut approved = StringSet::new();
    approved.insert(s("alice"));
    assert!(can_create(&s("master"), &s("master"), &approved));
    assert!(can_create(&s("alice"), &s("master"), &approved));
    assert!(!can_create(&s("bob"), &s("master"), &approved));
    assert!(can_administer(&s("alice"), &s("alice")));
    assert!(!can_administer(&s("master"), &s("alice")));
    assert_eq!(assert_top_owner(&s("master"), &s("master")), Ok(()));
    assert_eq!(assert_top_owner(&s("alice"), &s("master")), Err(RegistryError::Unauthorized));
}

#[test]
fn string_set_keeps_order() {
    let mut set = StringSet::new();
    assert!(set.insert(s("x")));
    assert!(set.insert(s("y")));
    assert!(set.insert(s("z")));
    assert!(!set.insert(s("y")));
    assert!(set.remove(&s("y")));
    assert!(!set.remove(&s("y")));
    assert_eq!(set.to_vec(), vec![s("x"), s("z")]);
    assert_eq!(set.len(), 2);
    assert!(set.contains(&s("z")));
}

#[test]
fn ownership_registry_records() {
    let mut reg = OwnershipRegistry::new();
    assert_eq!(reg.insert(s("a.p"), s("o")), Ok(()));
    assert_eq!(reg.insert(s("a.p"), s("q")), Err(RegistryError::DuplicateIdentity));
    assert_eq!(reg.lookup(&s("a.p")), Ok(s("o")));
    assert_eq!(reg.lookup(&s("b.p")), Err(RegistryError::UnknownIdentity));
    assert_eq!(reg.remove(&s("b.p")), Err(RegistryError::UnknownIdentity));
    assert_eq!(reg.remove(&s("a.p")), Ok(()));
    assert_eq!(reg.len(), 0);
    assert!(!reg.contains(&s("a.p")));
}
