//! A delegated-authority registry of child identities.
//!
//! A top-level owner, and the creators it approves, create named child
//! identities under the registry's own identity. Each child records the
//! identity that created it, and only that identity may administer the child
//! or act on its behalf. Every entry point decides whether a request is
//! authorized, updates the registry, and returns the ordered chain of
//! external actions that the runtime is to perform.

mod actions;
mod contract;
mod error;
mod laws;
mod names;
mod near;
mod policy;
mod registry;
mod sets;

pub use actions::{Action, ActionModel, ComputeBudget, DelegateRequest, ManageRequest, chain_view};
pub use contract::{
    Contract, ContractModel, add_verdict, after_add_user, after_remove_user, attach_all,
    bytes_opt, child_verdict, create_chain, create_verdict, delegate_chain, delegate_well_formed,
    guarded, key_opt, manage_chain, manage_well_formed, new_verdict, owner_verdict,
    remove_verdict, scoped_methods, set_add,
};
pub use error::RegistryError;
pub use laws::{
    lemma_create_refuses_restricted, lemma_create_refuses_separator, lemma_create_twice,
    lemma_only_recorded_owner_acts, lemma_protected_never_removed, lemma_user_round_trip,
};
pub use names::{SEPARATOR, child_id, child_of, contains_separator, name_verdict, validate_create};
pub use near::{is_account_id, is_id_char, is_id_separator, key_text, opt_view};
pub use policy::{assert_top_owner, can_administer, can_create};
pub use registry::{
    EntryText, OwnershipRegistry, children_of, entry_texts, lemma_index_of_unique, owner_in, page,
    without_child,
};
pub use sets::{StringSet, lemma_push_members, texts, without};
