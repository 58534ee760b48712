//! One-shot classification support: looking a classification up by its
//! identifier, and the failure of the built-in label list.

use vstd::prelude::*;

use crate::codes::status;
use crate::error::SAError;

verus! {

/// Whether `i` is the first position of `identifiers` that holds `wanted`.
pub open spec fn is_first_match(identifiers: Seq<&str>, wanted: Seq<char>, i: int) -> bool {
    &&& 0 <= i < identifiers.len()
    &&& identifiers[i]@ == wanted
    &&& forall|j: int| 0 <= j < i ==> identifiers[j]@ != wanted
}

/// The position of the first classification, among those with the given
/// identifiers (in the order the framework returned them), whose identifier
/// is `wanted`.
pub fn first_index_of(identifiers: &[&str], wanted: &str) -> (r: Option<usize>)
    ensures
        match r {
            Some(i) => is_first_match(identifiers@, wanted@, i as int),
            None => forall|j: int| 0 <= j < identifiers@.len() ==> identifiers@[j]@ != wanted@,
        },
{
    let target = String::from_str(wanted);
    let n = identifiers.len();
    let mut i: usize = 0;
    while i < n
        invariant
            n == identifiers@.len(),
            i <= n,
            target@ == wanted@,
            forall|j: int| 0 <= j < i ==> identifiers@[j]@ != wanted@,
        decreases n - i,
    {
        let candidate = String::from_str(identifiers[i]);
        if candidate == target {
            return Some(i);
        }
        i = i + 1;
    }
    None
}

/// The lookup finds the earliest classification with the identifier: any
/// position that holds it is at or after the one found.
pub proof fn lemma_first_match_is_earliest(identifiers: Seq<&str>, wanted: Seq<char>, i: int, k: int)
    requires
        is_first_match(identifiers, wanted, i),
        0 <= k < identifiers.len(),
        identifiers[k]@ == wanted,
    ensures
        i <= k,
{
}

/// Message of the failure of the built-in classifier's label list.
pub open spec fn builtin_unavailable_message() -> Seq<char> {
    "built-in classifier unavailable"@
}

/// The outcome of asking the bridge for the built-in classifier's labels:
/// any status but success means the classifier could not be created.
pub fn check_builtin_status(bridge_status: i32) -> (r: Result<(), SAError>)
    ensures
        bridge_status == status::OK <==> r is Ok,
        r is Err ==> (r matches Err(SAError::RequestCreateFailed(m)) && m@
            == builtin_unavailable_message()),
{
    if bridge_status != status::OK {
        return Err(SAError::RequestCreateFailed(String::from_str("built-in classifier unavailable")));
    }
    Ok(())
}

} // verus!
