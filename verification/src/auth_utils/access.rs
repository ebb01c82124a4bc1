use crate::address::Address;
use vstd::prelude::*;

verus! {

/// Whether `user` may act in `role`. Every user may act in every role.
pub fn has_permission(user: &Address, role: &str) -> (r: bool)
    ensures
        r,
{
    true
}

} // verus!
