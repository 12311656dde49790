//! The registry and its entry points.
use vstd::prelude::*;
use crate::actions::{Action, ActionModel, ComputeBudget, DelegateRequest, ManageRequest, chain_view};
use crate::error::RegistryError;
use crate::names::{child_id, child_of, name_verdict, validate_create};
use crate::near::{account_id_valid, canonical_key, is_account_id, key_text, opt_view};
use crate::policy::{assert_top_owner, can_administer, can_create};
use crate::registry::{EntryText, OwnershipRegistry, children_of, entry_texts, owner_in, page, without_child};
use crate::sets::{StringSet, lemma_push_members, texts, without};

verus! {

/// The state of a registry, as text.
pub struct ContractModel {
    /// The top-level owner.
    pub owner: Seq<char>,
    /// The registry's own identity, the parent of every child.
    pub parent: Seq<char>,
    /// The approved creators.
    pub users: Seq<Seq<char>>,
    /// The credentials attached to every new child, in canonical form.
    pub keys: Seq<Seq<char>>,
    /// The ownership records, oldest first.
    pub records: Seq<EntryText>,
    /// The names under which no child may be created.
    pub restricted: Seq<Seq<char>>,
    /// The children whose records may not be removed.
    pub protected: Seq<Seq<char>>,
}

impl ContractModel {
    /// Every set holds its members once, every child has one record, and
    /// every identity held is a valid account identifier.
    pub open spec fn wf(self) -> bool {
        &&& self.users.no_duplicates()
        &&& self.keys.no_duplicates()
        &&& children_of(self.records).no_duplicates()
        &&& self.restricted.no_duplicates()
        &&& self.protected.no_duplicates()
        &&& is_account_id(self.owner)
        &&& is_account_id(self.parent)
        &&& forall|u: Seq<char>| #[trigger] self.users.contains(u) ==> is_account_id(u)
        &&& forall|e: EntryText| #[trigger]
            self.records.contains(e) ==> is_account_id(e.0) && is_account_id(e.1)
        &&& forall|p: Seq<char>| #[trigger] self.protected.contains(p) ==> is_account_id(p)
    }

    pub open spec fn with_users(self, users: Seq<Seq<char>>) -> ContractModel {
        ContractModel { users, ..self }
    }

    pub open spec fn with_keys(self, keys: Seq<Seq<char>>) -> ContractModel {
        ContractModel { keys, ..self }
    }

    pub open spec fn with_records(self, records: Seq<EntryText>) -> ContractModel {
        ContractModel { records, ..self }
    }

    pub open spec fn with_restricted(self, restricted: Seq<Seq<char>>) -> ContractModel {
        ContractModel { restricted, ..self }
    }

    pub open spec fn with_protected(self, protected: Seq<Seq<char>>) -> ContractModel {
        ContractModel { protected, ..self }
    }
}

/// `s` with `x` added at the end, unless it is a member already.
pub open spec fn set_add(s: Seq<Seq<char>>, x: Seq<char>) -> Seq<Seq<char>> {
    if s.contains(x) {
        s
    } else {
        s.push(x)
    }
}

/// The canonical text of an optional key; `None` where there is no key or
/// it does not read.
pub open spec fn key_opt(k: Option<Seq<char>>) -> Option<Seq<char>> {
    match k {
        Some(t) => key_text(t),
        None => None,
    }
}

/// The text of an optional byte vector.
pub open spec fn bytes_opt(v: Option<Vec<u8>>) -> Option<Seq<u8>> {
    match v {
        Some(b) => Some(b@),
        None => None,
    }
}

/// The outcome of a request that only the top-level owner may make, on an
/// argument that is well formed or not.
pub open spec fn owner_verdict(m: ContractModel, caller: Seq<char>, well_formed: bool) -> Result<
    (),
    RegistryError,
> {
    if caller != m.owner {
        Err(RegistryError::Unauthorized)
    } else if !well_formed {
        Err(RegistryError::InvalidArgument)
    } else {
        Ok(())
    }
}

/// The state after a request that only the top-level owner may make.
pub open spec fn guarded(
    m: ContractModel,
    caller: Seq<char>,
    well_formed: bool,
    next: ContractModel,
) -> ContractModel {
    if owner_verdict(m, caller, well_formed) is Ok {
        next
    } else {
        m
    }
}

/// The state after `manage_add_user`.
pub open spec fn after_add_user(m: ContractModel, caller: Seq<char>, user: Seq<char>) -> ContractModel {
    guarded(m, caller, is_account_id(user), m.with_users(set_add(m.users, user)))
}

/// The state after `manage_remove_user`.
pub open spec fn after_remove_user(m: ContractModel, caller: Seq<char>, user: Seq<char>) -> ContractModel {
    guarded(m, caller, is_account_id(user), m.with_users(without(m.users, user)))
}

/// The outcome of `new`.
pub open spec fn new_verdict(owner: Seq<char>, parent: Seq<char>, key: Option<Seq<char>>) -> Result<
    (),
    RegistryError,
> {
    if !is_account_id(owner) || !is_account_id(parent) {
        Err(RegistryError::InvalidArgument)
    } else if key is Some && key_opt(key) is None {
        Err(RegistryError::InvalidArgument)
    } else {
        Ok(())
    }
}

/// The outcome of `sub_create`, checked in order: the caller, the name, that
/// the child's identity is a valid account identifier, the key, and that the
/// child has no record yet.
pub open spec fn create_verdict(
    m: ContractModel,
    caller: Seq<char>,
    name: Seq<char>,
    key: Option<Seq<char>>,
) -> Result<(), RegistryError> {
    if !(caller == m.owner || m.users.contains(caller)) {
        Err(RegistryError::Unauthorized)
    } else if name_verdict(name, m.restricted) is Err {
        name_verdict(name, m.restricted)
    } else if !is_account_id(child_of(name, m.parent)) {
        Err(RegistryError::InvalidArgument)
    } else if key is Some && key_opt(key) is None {
        Err(RegistryError::InvalidArgument)
    } else if children_of(m.records).contains(child_of(name, m.parent)) {
        Err(RegistryError::DuplicateIdentity)
    } else {
        Ok(())
    }
}

/// Attaching each of `keys` with full access to `id`, in order.
pub open spec fn attach_all(id: Seq<char>, keys: Seq<Seq<char>>) -> Seq<ActionModel> {
    keys.map_values(|k: Seq<char>| ActionModel::AttachFullCredential { id, credential: k })
}

/// The chain that creates a child: create the account, fund it, attach the
/// caller's key if there is one, attach every default key, deploy the code
/// if there is some.
pub open spec fn create_chain(
    child: Seq<char>,
    deposit: u128,
    key: Option<Seq<char>>,
    defaults: Seq<Seq<char>>,
    code: Option<Seq<u8>>,
) -> Seq<ActionModel> {
    seq![ActionModel::CreateAccount { id: child }, ActionModel::Transfer { id: child, amount: deposit }]
        + match key {
        Some(k) => seq![ActionModel::AttachFullCredential { id: child, credential: k }],
        None => Seq::empty(),
    } + attach_all(child, defaults) + match code {
        Some(c) => seq![ActionModel::DeployCode { id: child, code: c }],
        None => Seq::empty(),
    }
}

/// The methods that a credential attached through `administer` may call.
pub open spec fn scoped_methods() -> Seq<Seq<char>> {
    seq!["act_on_behalf"@]
}

/// The outcome of a request about `child` that only its recorded owner may
/// make, on arguments that are well formed or not.
pub open spec fn child_verdict(
    m: ContractModel,
    caller: Seq<char>,
    child: Seq<char>,
    well_formed: bool,
) -> Result<(), RegistryError> {
    match owner_in(m.records, child) {
        None => Err(RegistryError::UnknownIdentity),
        Some(o) => if o != caller {
            Err(RegistryError::Unauthorized)
        } else if !well_formed {
            Err(RegistryError::InvalidArgument)
        } else {
            Ok(())
        },
    }
}

/// Whether the arguments of a management request are well formed.
pub open spec fn manage_well_formed(req: ManageRequest) -> bool {
    match req {
        ManageRequest::Delete => true,
        ManageRequest::AddKey { key } => key_text(key@) is Some,
        ManageRequest::RemoveKey { key } => key_text(key@) is Some,
    }
}

/// The chain that carries out a management request on `child`.
pub open spec fn manage_chain(
    m: ContractModel,
    caller: Seq<char>,
    child: Seq<char>,
    req: ManageRequest,
) -> Seq<ActionModel> {
    match req {
        ManageRequest::Delete => seq![ActionModel::DeleteAccount { id: child, refund_to: caller }],
        ManageRequest::AddKey { key } => seq![
            ActionModel::AttachScopedCredential {
                id: child,
                credential: key_text(key@).unwrap(),
                allowed_methods: scoped_methods(),
                spender_id: m.parent,
            },
        ],
        ManageRequest::RemoveKey { key } => seq![
            ActionModel::DetachCredential { id: child, credential: key_text(key@).unwrap() },
        ],
    }
}

/// Whether the arguments of a delegated request are well formed.
pub open spec fn delegate_well_formed(req: DelegateRequest) -> bool {
    match req {
        DelegateRequest::Transfer { receiver_id, .. } => is_account_id(receiver_id@),
        DelegateRequest::Call { contract_id, .. } => is_account_id(contract_id@),
        DelegateRequest::Deploy { .. } => true,
    }
}

/// The chain that carries out a delegated request for `child`.
pub open spec fn delegate_chain(child: Seq<char>, req: DelegateRequest) -> Seq<ActionModel> {
    match req {
        DelegateRequest::Transfer { receiver_id, amount } => seq![
            ActionModel::Transfer { id: receiver_id@, amount },
        ],
        DelegateRequest::Call { contract_id, method, payload, deposit, budget } => seq![
            ActionModel::Invoke {
                contract_id: contract_id@,
                method: method@,
                payload: payload@,
                attached_value: deposit,
                budget,
            },
        ],
        DelegateRequest::Deploy { code } => seq![ActionModel::DeployCode { id: child, code: code@ }],
    }
}

/// The outcome of `sub_remove`: the caller, then protection, then the record.
pub open spec fn remove_verdict(m: ContractModel, caller: Seq<char>, child: Seq<char>) -> Result<
    (),
    RegistryError,
> {
    if caller != m.owner {
        Err(RegistryError::Unauthorized)
    } else if m.protected.contains(child) {
        Err(RegistryError::ProtectedIdentity)
    } else if !children_of(m.records).contains(child) {
        Err(RegistryError::UnknownIdentity)
    } else {
        Ok(())
    }
}

/// The outcome of `sub_add`.
pub open spec fn add_verdict(
    m: ContractModel,
    caller: Seq<char>,
    child: Seq<char>,
    owner: Seq<char>,
) -> Result<(), RegistryError> {
    if owner_verdict(m, caller, is_account_id(child) && is_account_id(owner)) is Err {
        owner_verdict(m, caller, is_account_id(child) && is_account_id(owner))
    } else if children_of(m.records).contains(child) {
        Err(RegistryError::DuplicateIdentity)
    } else {
        Ok(())
    }
}

/// A registry of child identities: who owns each child, who may create
/// children, and the policies that apply when they do.
pub struct Contract {
    owner_id: String,
    account_id: String,
    approved_users: StringSet,
    default_public_keys: StringSet,
    created_subaccounts: OwnershipRegistry,
    restricted_names: StringSet,
    protected_accounts: StringSet,
}

impl View for Contract {
    type V = ContractModel;

    closed spec fn view(&self) -> ContractModel {
        ContractModel {
            owner: self.owner_id@,
            parent: self.account_id@,
            users: self.approved_users@,
            keys: self.default_public_keys@,
            records: self.created_subaccounts@,
            restricted: self.restricted_names@,
            protected: self.protected_accounts@,
        }
    }
}

impl Contract {
    /// The state is well formed.
    pub open spec fn wf(&self) -> bool {
        self@.wf()
    }
}

impl Contract {
    /// A registry owned by `owner_id` whose own identity is `account_id`,
    /// with `initial_public_key`, if given, as its one default credential.
    pub fn new(owner_id: String, account_id: String, initial_public_key: Option<String>) -> (r:
        Result<Contract, RegistryError>)
        ensures
            match r {
                Ok(c) => {
                    &&& new_verdict(owner_id@, account_id@, opt_view(initial_public_key)) is Ok
                    &&& c.wf()
                    &&& c@ == (ContractModel {
                        owner: owner_id@,
                        parent: account_id@,
                        users: Seq::empty(),
                        keys: match key_opt(opt_view(initial_public_key)) {
                            Some(k) => seq![k],
                            None => Seq::empty(),
                        },
                        records: Seq::empty(),
                        restricted: Seq::empty(),
                        protected: Seq::empty(),
                    })
                },
                Err(e) => new_verdict(owner_id@, account_id@, opt_view(initial_public_key)) == Err::<
                    (),
                    RegistryError,
                >(e),
            },
    {
        if !account_id_valid(&owner_id) || !account_id_valid(&account_id) {
            return Err(RegistryError::InvalidArgument);
        }
        let mut keys = StringSet::new();
        match initial_public_key {
            Some(k) => match canonical_key(&k) {
                Some(c) => {
                    keys.insert(c);
                },
                None => {
                    return Err(RegistryError::InvalidArgument);
                },
            },
            None => {},
        }
        Ok(Contract {
            owner_id,
            account_id,
            approved_users: StringSet::new(),
            default_public_keys: keys,
            created_subaccounts: OwnershipRegistry::new(),
            restricted_names: StringSet::new(),
            protected_accounts: StringSet::new(),
        })
    }

    /// Creates the child `<name>.<parent>` for `caller`, who must be the
    /// top-level owner or an approved creator, records `caller` as its
    /// owner, and returns the chain that creates and sets up the account.
    pub fn sub_create(
        &mut self,
        caller: &String,
        name: String,
        public_key: Option<String>,
        contract_code: Option<Vec<u8>>,
        deposit: u128,
    ) -> (r: Result<Vec<Action>, RegistryError>)
        requires
            old(self).wf(),
        ensures
            final(self).wf(),
            match r {
                Ok(chain) => {
                    &&& create_verdict(old(self)@, caller@, name@, opt_view(public_key)) is Ok
                    &&& final(self)@ == old(self)@.with_records(
                        old(self)@.records.push((child_of(name@, old(self)@.parent), caller@)),
                    )
                    &&& chain_view(chain@) == create_chain(
                        child_of(name@, old(self)@.parent),
                        deposit,
                        key_opt(opt_view(public_key)),
                        old(self)@.keys,
                        bytes_opt(contract_code),
                    )
                },
                Err(e) => {
                    &&& create_verdict(old(self)@, caller@, name@, opt_view(public_key)) == Err::<
                        (),
                        RegistryError,
                    >(e)
                    &&& final(self)@ == old(self)@
                },
            },
    {
        if !can_create(caller, &self.owner_id, &self.approved_users) {
            return Err(RegistryError::Unauthorized);
        }
        match validate_create(&name, &self.restricted_names) {
            Ok(()) => {},
            Err(e) => {
                return Err(e);
            },
        }
        let child = child_id(&name, &self.account_id);
        if !account_id_valid(&child) {
            return Err(RegistryError::InvalidArgument);
        }
        let key = match public_key {
            Some(k) => match canonical_key(&k) {
                Some(c) => Some(c),
                None => {
                    return Err(RegistryError::InvalidArgument);
                },
            },
            None => None,
        };
        match self.created_subaccounts.insert(child.clone(), caller.clone()) {
            Ok(()) => {},
            Err(e) => {
                return Err(e);
            },
        }
        let ghost c = child@;
        let mut chain: Vec<Action> = Vec::new();
        chain.push(Action::CreateAccount { id: child.clone() });
        chain.push(Action::Transfer { id: child.clone(), amount: deposit });
        match key {
            Some(k) => {
                chain.push(Action::AttachFullCredential { id: child.clone(), credential: k });
            },
            None => {},
        }
        let ghost head = chain_view(chain@);
        let ghost keypart = match key_opt(opt_view(public_key)) {
            Some(k) => seq![ActionModel::AttachFullCredential { id: c, credential: k }],
            None => Seq::empty(),
        };
        assert(head =~= seq![
            ActionModel::CreateAccount { id: c },
            ActionModel::Transfer { id: c, amount: deposit },
        ] + keypart);
        assert(self.default_public_keys@ == old(self)@.keys);
        let defaults = self.default_public_keys.to_vec();
        let mut i: usize = 0;
        while i < defaults.len()
            invariant
                i <= defaults@.len(),
                child@ == c,
                chain_view(chain@) =~= head + attach_all(c, texts(defaults@).subrange(0, i as int)),
            decreases defaults@.len() - i,
        {
            let ghost before = chain@;
            chain.push(Action::AttachFullCredential { id: child.clone(), credential: defaults[i].clone() });
            assert(chain_view(chain@) =~= chain_view(before).push(
                ActionModel::AttachFullCredential { id: c, credential: texts(defaults@)[i as int] },
            ));
            assert(texts(defaults@).subrange(0, i + 1) =~= texts(defaults@).subrange(0, i as int).push(
                texts(defaults@)[i as int],
            ));
            i = i + 1;
        }
        assert(texts(defaults@).subrange(0, i as int) =~= texts(defaults@));
        let ghost mid = chain_view(chain@);
        let ghost codepart = match bytes_opt(contract_code) {
            Some(b) => seq![ActionModel::DeployCode { id: c, code: b }],
            None => Seq::empty(),
        };
        match contract_code {
            Some(code) => {
                chain.push(Action::DeployCode { id: child, code });
            },
            None => {},
        }
        assert(chain_view(chain@) =~= mid + codepart);
        assert(chain_view(chain@) =~= create_chain(
            c,
            deposit,
            key_opt(opt_view(public_key)),
            old(self)@.keys,
            bytes_opt(contract_code),
        ));
        assert(self@ =~= old(self)@.with_records(
            old(self)@.records.push((child_of(name@, old(self)@.parent), caller@)),
        ));
        proof {
            lemma_push_members(old(self)@.records, (child_of(name@, old(self)@.parent), caller@));
        }
        Ok(chain)
    }
}

impl Contract {
    /// Looks up the recorded owner of `child` and checks that it is `caller`.
    fn check_owner(&self, caller: &String, child: &String) -> (r: Result<(), RegistryError>)
        requires
            self.wf(),
        ensures
            r == child_verdict(self@, caller@, child@, true),
    {
        match self.created_subaccounts.lookup(child) {
            Ok(owner) => if can_administer(caller, &owner) {
                Ok(())
            } else {
                Err(RegistryError::Unauthorized)
            },
            Err(e) => Err(e),
        }
    }

    /// Carries out a management request of the recorded owner of `child`:
    /// delete it, or attach or detach a credential. Changes no record.
    pub fn administer(&self, caller: &String, child: &String, request: ManageRequest) -> (r: Result<
        Vec<Action>,
        RegistryError,
    >)
        requires
            self.wf(),
        ensures
            match r {
                Ok(chain) => {
                    &&& child_verdict(self@, caller@, child@, manage_well_formed(request)) is Ok
                    &&& chain_view(chain@) == manage_chain(self@, caller@, child@, request)
                },
                Err(e) => child_verdict(self@, caller@, child@, manage_well_formed(request)) == Err::<
                    (),
                    RegistryError,
                >(e),
            },
    {
        match self.check_owner(caller, child) {
            Ok(()) => {},
            Err(e) => {
                return Err(e);
            },
        }
        let mut chain: Vec<Action> = Vec::new();
        match request {
            ManageRequest::Delete => {
                chain.push(Action::DeleteAccount { id: child.clone(), refund_to: caller.clone() });
            },
            ManageRequest::AddKey { key } => match canonical_key(&key) {
                Some(k) => {
                    let method = "act_on_behalf";
                    let mut methods: Vec<String> = Vec::new();
                    methods.push(method.to_owned());
                    assert(methods@.map_values(|m: String| m@) =~= scoped_methods());
                    chain.push(
                        Action::AttachScopedCredential {
                            id: child.clone(),
                            credential: k,
                            allowed_methods: methods,
                            spender_id: self.account_id.clone(),
                        },
                    );
                },
                None => {
                    return Err(RegistryError::InvalidArgument);
                },
            },
            ManageRequest::RemoveKey { key } => match canonical_key(&key) {
                Some(k) => {
                    chain.push(Action::DetachCredential { id: child.clone(), credential: k });
                },
                None => {
                    return Err(RegistryError::InvalidArgument);
                },
            },
        }
        assert(chain_view(chain@) =~= manage_chain(self@, caller@, child@, request));
        Ok(chain)
    }

    /// Carries out a request of the recorded owner of `child` that the child
    /// act: send value, call a contract, or replace its own code. Changes no
    /// record.
    pub fn act_on_behalf(&self, caller: &String, child: &String, request: DelegateRequest) -> (r:
        Result<Vec<Action>, RegistryError>)
        requires
            self.wf(),
        ensures
            match r {
                Ok(chain) => {
                    &&& child_verdict(self@, caller@, child@, delegate_well_formed(request)) is Ok
                    &&& chain_view(chain@) == delegate_chain(child@, request)
                },
                Err(e) => child_verdict(self@, caller@, child@, delegate_well_formed(request))
                    == Err::<(), RegistryError>(e),
            },
    {
        match self.check_owner(caller, child) {
            Ok(()) => {},
            Err(e) => {
                return Err(e);
            },
        }
        let mut chain: Vec<Action> = Vec::new();
        match request {
            DelegateRequest::Transfer { receiver_id, amount } => {
                if !account_id_valid(&receiver_id) {
                    return Err(RegistryError::InvalidArgument);
                }
                chain.push(Action::Transfer { id: receiver_id, amount });
            },
            DelegateRequest::Call { contract_id, method, payload, deposit, budget } => {
                if !account_id_valid(&contract_id) {
                    return Err(RegistryError::InvalidArgument);
                }
                chain.push(
                    Action::Invoke {
                        contract_id,
                        method,
                        payload,
                        attached_value: deposit,
                        budget,
                    },
                );
            },
            DelegateRequest::Deploy { code } => {
                chain.push(Action::DeployCode { id: child.clone(), code });
            },
        }
        assert(chain_view(chain@) =~= delegate_chain(child@, request));
        Ok(chain)
    }

    /// Takes out the record of `child`. Only the top-level owner may, and
    /// never for a protected child. The account itself is left alone.
    pub fn sub_remove(&mut self, caller: &String, account_id: &String) -> (r: Result<(), RegistryError>)
        requires
            old(self).wf(),
        ensures
            final(self).wf(),
            r == remove_verdict(old(self)@, caller@, account_id@),
            r is Ok ==> final(self)@ == old(self)@.with_records(
                without_child(old(self)@.records, account_id@),
            ),
            r is Err ==> final(self)@ == old(self)@,
    {
        match assert_top_owner(caller, &self.owner_id) {
            Ok(()) => {},
            Err(e) => {
                return Err(e);
            },
        }
        if self.protected_accounts.contains(account_id) {
            return Err(RegistryError::ProtectedIdentity);
        }
        let r = self.created_subaccounts.remove(account_id);
        assert(self@ =~= old(self)@.with_records(self.created_subaccounts@));
        match r {
            Ok(()) => Ok(()),
            Err(e) => Err(e),
        }
    }

    /// Records `owner_id` as the owner of `account_id`, which must have no
    /// record. Only the top-level owner may.
    pub fn sub_add(&mut self, caller: &String, account_id: String, owner_id: String) -> (r: Result<
        (),
        RegistryError,
    >)
        requires
            old(self).wf(),
        ensures
            final(self).wf(),
            r == add_verdict(old(self)@, caller@, account_id@, owner_id@),
            r is Ok ==> final(self)@ == old(self)@.with_records(
                old(self)@.records.push((account_id@, owner_id@)),
            ),
            r is Err ==> final(self)@ == old(self)@,
    {
        match assert_top_owner(caller, &self.owner_id) {
            Ok(()) => {},
            Err(e) => {
                return Err(e);
            },
        }
        if !account_id_valid(&account_id) || !account_id_valid(&owner_id) {
            return Err(RegistryError::InvalidArgument);
        }
        let ghost (a, o) = (account_id@, owner_id@);
        proof {
            lemma_push_members(old(self)@.records, (a, o));
        }
        let r = self.created_subaccounts.insert(account_id, owner_id);
        assert(self@ =~= old(self)@.with_records(self.created_subaccounts@));
        assert(is_account_id(a) && is_account_id(o));
        match r {
            Ok(()) => Ok(()),
            Err(e) => Err(e),
        }
    }

    /// At most `limit` ownership records, as (child, owner), from position
    /// `offset` on, oldest first.
    pub fn sub_list(&self, offset: usize, limit: usize) -> (r: Vec<(String, String)>)
        ensures
            entry_texts(r@) == page(self@.records, offset as int, limit as int),
    {
        self.created_subaccounts.list(offset, limit)
    }
}

impl Contract {
    /// Approves `account_id` as a creator of children. Only the top-level owner may.
    pub fn manage_add_user(&mut self, caller: &String, account_id: String) -> (r: Result<(), RegistryError>)
        requires
            old(self).wf(),
        ensures
            final(self).wf(),
            r == owner_verdict(old(self)@, caller@, is_account_id(account_id@)),
            final(self)@ == after_add_user(old(self)@, caller@, account_id@),
    {
        match assert_top_owner(caller, &self.owner_id) {
            Ok(()) => {},
            Err(e) => {
                return Err(e);
            },
        }
        if !account_id_valid(&account_id) {
            return Err(RegistryError::InvalidArgument);
        }
        proof {
            lemma_push_members(old(self)@.users, account_id@);
        }
        self.approved_users.insert(account_id);
        assert(self@ =~= old(self)@.with_users(self.approved_users@));
        Ok(())
    }

    /// Withdraws the approval of `account_id`. Only the top-level owner may.
    pub fn manage_remove_user(&mut self, caller: &String, account_id: &String) -> (r: Result<(), RegistryError>)
        requires
            old(self).wf(),
        ensures
            final(self).wf(),
            r == owner_verdict(old(self)@, caller@, is_account_id(account_id@)),
            final(self)@ == after_remove_user(old(self)@, caller@, account_id@),
    {
        match assert_top_owner(caller, &self.owner_id) {
            Ok(()) => {},
            Err(e) => {
                return Err(e);
            },
        }
        if !account_id_valid(account_id) {
            return Err(RegistryError::InvalidArgument);
        }
        self.approved_users.remove(account_id);
        assert(self@ =~= old(self)@.with_users(self.approved_users@));
        Ok(())
    }

    /// The approved creators, in the order in which they were approved.
    pub fn manage_list_users(&self) -> (r: Vec<String>)
        requires
            self.wf(),
        ensures
            texts(r@) == self@.users,
            texts(r@).no_duplicates(),
    {
        self.approved_users.to_vec()
    }

    /// Adds a credential, in canonical form, to those attached to every new child. Only the top-level owner may.
    pub fn manage_add_key(&mut self, caller: &String, public_key: &String) -> (r: Result<(), RegistryError>)
        requires
            old(self).wf(),
        ensures
            final(self).wf(),
            r == owner_verdict(old(self)@, caller@, key_text(public_key@) is Some),
            final(self)@ == guarded(
                old(self)@,
                caller@,
                key_text(public_key@) is Some,
                old(self)@.with_keys(set_add(old(self)@.keys, key_text(public_key@).unwrap())),
            ),
    {
        match assert_top_owner(caller, &self.owner_id) {
            Ok(()) => {},
            Err(e) => {
                return Err(e);
            },
        }
        let k = match canonical_key(public_key) {
            Some(k) => k,
            None => {
                return Err(RegistryError::InvalidArgument);
            },
        };
        self.default_public_keys.insert(k);
        assert(self@ =~= old(self)@.with_keys(self.default_public_keys@));
        Ok(())
    }

    /// Takes a credential out of those attached to every new child. Only the top-level owner may.
    pub fn manage_remove_key(&mut self, caller: &String, public_key: &String) -> (r: Result<(), RegistryError>)
        requires
            old(self).wf(),
        ensures
            final(self).wf(),
            r == owner_verdict(old(self)@, caller@, key_text(public_key@) is Some),
            final(self)@ == guarded(
                old(self)@,
                caller@,
                key_text(public_key@) is Some,
                old(self)@.with_keys(without(old(self)@.keys, key_text(public_key@).unwrap())),
            ),
    {
        match assert_top_owner(caller, &self.owner_id) {
            Ok(()) => {},
            Err(e) => {
                return Err(e);
            },
        }
        let k = match canonical_key(public_key) {
            Some(k) => k,
            None => {
                return Err(RegistryError::InvalidArgument);
            },
        };
        self.default_public_keys.remove(&k);
        assert(self@ =~= old(self)@.with_keys(self.default_public_keys@));
        Ok(())
    }

    /// The credentials attached to every new child, in the order in which they are attached.
    pub fn manage_list_keys(&self) -> (r: Vec<String>)
        requires
            self.wf(),
        ensures
            texts(r@) == self@.keys,
            texts(r@).no_duplicates(),
    {
        self.default_public_keys.to_vec()
    }

    /// Forbids creating a child named `name`. Only the top-level owner may.
    pub fn sub_restrict(&mut self, caller: &String, name: String) -> (r: Result<(), RegistryError>)
        requires
            old(self).wf(),
        ensures
            final(self).wf(),
            r == owner_verdict(old(self)@, caller@, true),
            final(self)@ == guarded(
                old(self)@,
                caller@,
                true,
                old(self)@.with_restricted(set_add(old(self)@.restricted, name@)),
            ),
    {
        match assert_top_owner(caller, &self.owner_id) {
            Ok(()) => {},
            Err(e) => {
                return Err(e);
            },
        }
        self.restricted_names.insert(name);
        assert(self@ =~= old(self)@.with_restricted(self.restricted_names@));
        Ok(())
    }

    /// Allows again creating a child named `name`. Only the top-level owner may.
    pub fn sub_unrestrict(&mut self, caller: &String, name: &String) -> (r: Result<(), RegistryError>)
        requires
            old(self).wf(),
        ensures
            final(self).wf(),
            r == owner_verdict(old(self)@, caller@, true),
            final(self)@ == guarded(
                old(self)@,
                caller@,
                true,
                old(self)@.with_restricted(without(old(self)@.restricted, name@)),
            ),
    {
        match assert_top_owner(caller, &self.owner_id) {
            Ok(()) => {},
            Err(e) => {
                return Err(e);
            },
        }
        self.restricted_names.remove(name);
        assert(self@ =~= old(self)@.with_restricted(self.restricted_names@));
        Ok(())
    }

    /// The restricted names.
    pub fn sub_list_restricted(&self) -> (r: Vec<String>)
        requires
            self.wf(),
        ensures
            texts(r@) == self@.restricted,
            texts(r@).no_duplicates(),
    {
        self.restricted_names.to_vec()
    }

    /// Protects the record of `account_id` from removal. Only the top-level owner may.
    pub fn sub_protect(&mut self, caller: &String, account_id: String) -> (r: Result<(), RegistryError>)
        requires
            old(self).wf(),
        ensures
            final(self).wf(),
            r == owner_verdict(old(self)@, caller@, is_account_id(account_id@)),
            final(self)@ == guarded(
                old(self)@,
                caller@,
                is_account_id(account_id@),
                old(self)@.with_protected(set_add(old(self)@.protected, account_id@)),
            ),
    {
        match assert_top_owner(caller, &self.owner_id) {
            Ok(()) => {},
            Err(e) => {
                return Err(e);
            },
        }
        if !account_id_valid(&account_id) {
            return Err(RegistryError::InvalidArgument);
        }
        proof {
            lemma_push_members(old(self)@.protected, account_id@);
        }
        self.protected_accounts.insert(account_id);
        assert(self@ =~= old(self)@.with_protected(self.protected_accounts@));
        Ok(())
    }

    /// Lifts the protection of `account_id`. Only the top-level owner may.
    pub fn sub_unprotect(&mut self, caller: &String, account_id: &String) -> (r: Result<(), RegistryError>)
        requires
            old(self).wf(),
        ensures
            final(self).wf(),
            r == owner_verdict(old(self)@, caller@, is_account_id(account_id@)),
            final(self)@ == guarded(
                old(self)@,
                caller@,
                is_account_id(account_id@),
                old(self)@.with_protected(without(old(self)@.protected, account_id@)),
            ),
    {
        match assert_top_owner(caller, &self.owner_id) {
            Ok(()) => {},
            Err(e) => {
                return Err(e);
            },
        }
        if !account_id_valid(account_id) {
            return Err(RegistryError::InvalidArgument);
        }
        self.protected_accounts.remove(account_id);
        assert(self@ =~= old(self)@.with_protected(self.protected_accounts@));
        Ok(())
    }

    /// The protected children.
    pub fn sub_list_protected(&self) -> (r: Vec<String>)
        requires
            self.wf(),
        ensures
            texts(r@) == self@.protected,
            texts(r@).no_duplicates(),
    {
        self.protected_accounts.to_vec()
    }

    /// The top-level owner.
    pub fn owner_id(&self) -> (r: &String)
        ensures
            r@ == self@.owner,
    {
        &self.owner_id
    }

    /// The registry's own identity, the parent of every child.
    pub fn account_id(&self) -> (r: &String)
        ensures
            r@ == self@.parent,
    {
        &self.account_id
    }
}

} // verus!
