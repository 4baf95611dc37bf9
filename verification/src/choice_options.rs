//! The rules of the choice options form.

use vstd::prelude::*;

verus! {

/// The action key and value inputs of a choice are disabled while its
/// action type is empty; their edits are then not passed on.
pub fn action_inputs_disabled(t: &str) -> (r: bool)
    ensures
        r == (t@.len() == 0),
{
    t.is_empty()
}

} // verus!
