//! The external actions that the registry hands to the runtime, and the
//! requests that owners make of their children.
use vstd::prelude::*;
use crate::error::RegistryError;

verus! {

/// How much of the available compute budget an invocation gets.
#[derive(Clone, Copy, Debug, PartialEq, Eq, Structural)]
pub enum ComputeBudget {
    /// An explicit amount of gas.
    Fixed(u64),
    /// A weight: the share of the unused budget relative to the other calls.
    Share(u64),
}

/// One step of an action chain, as the runtime executes it.
#[derive(Clone, Debug, PartialEq, Eq)]
pub enum Action {
    /// Create the account `id`.
    CreateAccount { id: String },
    /// Send `amount` to `id`.
    Transfer { id: String, amount: u128 },
    /// Attach a credential with full access to `id`.
    AttachFullCredential { id: String, credential: String },
    /// Attach a credential to `id` that may only call `allowed_methods`
    /// on `spender_id`.
    AttachScopedCredential {
        id: String,
        credential: String,
        allowed_methods: Vec<String>,
        spender_id: String,
    },
    /// Detach a credential from `id`.
    DetachCredential { id: String, credential: String },
    /// Delete the account `id`, sending what it holds to `refund_to`.
    DeleteAccount { id: String, refund_to: String },
    /// Replace the code of `id`.
    DeployCode { id: String, code: Vec<u8> },
    /// Call `method` on `contract_id`.
    Invoke {
        contract_id: String,
        method: String,
        payload: Vec<u8>,
        attached_value: u128,
        budget: ComputeBudget,
    },
}

/// An action with its strings read as text and its bytes as a sequence.
pub enum ActionModel {
    CreateAccount { id: Seq<char> },
    Transfer { id: Seq<char>, amount: u128 },
    AttachFullCredential { id: Seq<char>, credential: Seq<char> },
    AttachScopedCredential {
        id: Seq<char>,
        credential: Seq<char>,
        allowed_methods: Seq<Seq<char>>,
        spender_id: Seq<char>,
    },
    DetachCredential { id: Seq<char>, credential: Seq<char> },
    DeleteAccount { id: Seq<char>, refund_to: Seq<char> },
    DeployCode { id: Seq<char>, code: Seq<u8> },
    Invoke {
        contract_id: Seq<char>,
        method: Seq<char>,
        payload: Seq<u8>,
        attached_value: u128,
        budget: ComputeBudget,
    },
}

impl View for Action {
    type V = ActionModel;

    open spec fn view(&self) -> ActionModel {
        match self {
            Action::CreateAccount { id } => ActionModel::CreateAccount { id: id@ },
            Action::Transfer { id, amount } => ActionModel::Transfer { id: id@, amount: *amount },
            Action::AttachFullCredential { id, credential } => ActionModel::AttachFullCredential {
                id: id@,
                credential: credential@,
            },
            Action::AttachScopedCredential { id, credential, allowed_methods, spender_id } => {
                ActionModel::AttachScopedCredential {
                    id: id@,
                    credential: credential@,
                    allowed_methods: allowed_methods@.map_values(|m: String| m@),
                    spender_id: spender_id@,
                }
            },
            Action::DetachCredential { id, credential } => ActionModel::DetachCredential {
                id: id@,
                credential: credential@,
            },
            Action::DeleteAccount { id, refund_to } => ActionModel::DeleteAccount {
                id: id@,
                refund_to: refund_to@,
            },
            Action::DeployCode { id, code } => ActionModel::DeployCode { id: id@, code: code@ },
            Action::Invoke { contract_id, method, payload, attached_value, budget } => {
                ActionModel::Invoke {
                    contract_id: contract_id@,
                    method: method@,
                    payload: payload@,
                    attached_value: *attached_value,
                    budget: *budget,
                }
            },
        }
    }
}

/// The models of a chain of actions, in order.
pub open spec fn chain_view(v: Seq<Action>) -> Seq<ActionModel> {
    v.map_values(|a: Action| a@)
}

/// What the owner of a child asks to be done to the child's account.
#[derive(Clone, Debug, PartialEq, Eq)]
pub enum ManageRequest {
    /// Delete the child, refunding what it holds to the owner.
    Delete,
    /// Attach a credential scoped to the registry's delegated entry point.
    AddKey { key: String },
    /// Detach a credential.
    RemoveKey { key: String },
}

/// What the owner of a child asks the child to do.
#[derive(Clone, Debug, PartialEq, Eq)]
pub enum DelegateRequest {
    /// Send `amount` to `receiver_id`.
    Transfer { receiver_id: String, amount: u128 },
    /// Call `method` on `contract_id` with `payload`, `deposit` and `budget`.
    Call {
        contract_id: String,
        method: String,
        payload: Vec<u8>,
        deposit: u128,
        budget: ComputeBudget,
    },
    /// Replace the child's code.
    Deploy { code: Vec<u8> },
}

impl ManageRequest {
    /// Reads a management request from its operation name (`delete`,
    /// `add_key` or `remove_key`) and the key that the last two need.
    pub fn from_op(op: &String, key: Option<String>) -> (r: Result<ManageRequest, RegistryError>)
        ensures
            op@ == "delete"@ ==> r == Ok::<ManageRequest, RegistryError>(ManageRequest::Delete),
            op@ == "add_key"@ ==> r == match key {
                Some(k) => Ok::<ManageRequest, RegistryError>(ManageRequest::AddKey { key: k }),
                None => Err(RegistryError::InvalidArgument),
            },
            op@ == "remove_key"@ ==> r == match key {
                Some(k) => Ok::<ManageRequest, RegistryError>(ManageRequest::RemoveKey { key: k }),
                None => Err(RegistryError::InvalidArgument),
            },
            op@ != "delete"@ && op@ != "add_key"@ && op@ != "remove_key"@ ==> r == Err::<
                ManageRequest,
                RegistryError,
            >(RegistryError::InvalidAction),
    {
        proof {
            reveal_strlit("delete");
            reveal_strlit("add_key");
            reveal_strlit("remove_key");
            assert("delete"@.len() == 6 && "add_key"@.len() == 7 && "remove_key"@.len() == 10);
        }
        let delete = "delete".to_owned();
        let add_key = "add_key".to_owned();
        let remove_key = "remove_key".to_owned();
        if *op == delete {
            Ok(ManageRequest::Delete)
        } else if *op == add_key {
            match key {
                Some(k) => Ok(ManageRequest::AddKey { key: k }),
                None => Err(RegistryError::InvalidArgument),
            }
        } else if *op == remove_key {
            match key {
                Some(k) => Ok(ManageRequest::RemoveKey { key: k }),
                None => Err(RegistryError::InvalidArgument),
            }
        } else {
            Err(RegistryError::InvalidAction)
        }
    }
}

} // verus!
