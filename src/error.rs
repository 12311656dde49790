use vstd::prelude::*;

verus! {

/// Why a request to the registry was refused.
///
/// Every refusal is decided before the registry is changed, so a refused
/// request leaves no trace.
#[derive(Clone, Copy, Debug, PartialEq, Eq, Structural)]
pub enum RegistryError {
    /// The caller is not allowed to perform the request.
    Unauthorized,
    /// The proposed child name is structurally invalid.
    InvalidName,
    /// The proposed child name is on the restricted list.
    NameRestricted,
    /// The child identity already has an ownership record.
    DuplicateIdentity,
    /// The child identity has no ownership record.
    UnknownIdentity,
    /// The child identity is protected from removal.
    ProtectedIdentity,
    /// The operation name is not one of the known operations.
    InvalidAction,
    /// An identity, credential or other argument is malformed.
    InvalidArgument,
}

} // verus!
