//! Rules on the names of child identities.
use vstd::prelude::*;
use crate::error::RegistryError;
use crate::sets::StringSet;

verus! {

/// The character that joins a child's name to its parent identity.
pub const SEPARATOR: char = '.';

/// The identity of the child `name` under `parent`: `<name>.<parent>`.
pub open spec fn child_of(name: Seq<char>, parent: Seq<char>) -> Seq<char> {
    name + seq![SEPARATOR] + parent
}

/// What checking a proposed name against the restricted names gives.
pub open spec fn name_verdict(name: Seq<char>, restricted: Seq<Seq<char>>) -> Result<(), RegistryError> {
    if name.contains(SEPARATOR) {
        Err(RegistryError::InvalidName)
    } else if restricted.contains(name) {
        Err(RegistryError::NameRestricted)
    } else {
        Ok(())
    }
}

/// Whether the name holds the hierarchy separator.
pub fn contains_separator(name: &String) -> (r: bool)
    ensures
        r == name@.contains(SEPARATOR),
{
    let s = name.as_str();
    let n = s.unicode_len();
    let mut i: usize = 0;
    while i < n
        invariant
            n == s@.len(),
            s@ == name@,
            i <= n,
            forall|j: int| 0 <= j < i ==> s@[j] != SEPARATOR,
        decreases n - i,
    {
        if s.get_char(i) == SEPARATOR {
            return true;
        }
        i = i + 1;
    }
    false
}

/// Builds the identity `<name>.<parent>` of a child.
pub fn child_id(name: &String, parent: &String) -> (r: String)
    ensures
        r@ == child_of(name@, parent@),
{
    let mut r = name.clone();
    let dot = ".";
    proof {
        reveal_strlit(".");
    }
    r.append(dot);
    r.append(parent.as_str());
    assert(r@ =~= child_of(name@, parent@));
    r
}

/// Checks a proposed child name: it must not hold the separator, and must
/// not be one of the restricted names. Changes nothing.
pub fn validate_create(name: &String, restricted: &StringSet) -> (r: Result<(), RegistryError>)
    ensures
        r == name_verdict(name@, restricted@),
{
    if contains_separator(name) {
        Err(RegistryError::InvalidName)
    } else if restricted.contains(name) {
        Err(RegistryError::NameRestricted)
    } else {
        Ok(())
    }
}

} // verus!
