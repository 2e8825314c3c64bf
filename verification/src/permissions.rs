//! The dashboard's capability gate: an operator may manage a guild only when
//! the roles they hold carry the administrator permission.

use vstd::prelude::*;

verus! {

/// The administrator bit of the platform's permission flags.
pub const ADMINISTRATOR: u64 = 8;

/// Whether any held role carries the administrator bit.
pub open spec fn has_admin(perms: Seq<u64>) -> bool {
    exists|k: int| 0 <= k < perms.len() && (#[trigger] perms[k]) & ADMINISTRATOR != 0
}

/// Decides the dashboard's permission gate from the permission flags of the
/// roles the operator holds in the guild: pass exactly when some role
/// carries the administrator bit.
pub fn permission_checker(role_permissions: &Vec<u64>) -> (r: bool)
    ensures
        r == has_admin(role_permissions@),
{
    let mut i: usize = 0;
    while i < role_permissions.len()
        invariant
            i <= role_permissions@.len(),
            forall|k: int| 0 <= k < i ==> (#[trigger] role_permissions@[k]) & ADMINISTRATOR == 0,
        decreases role_permissions@.len() - i,
    {
        if role_permissions[i] & ADMINISTRATOR != 0 {
            return true;
        }
        i = i + 1;
    }
    false
}

} // verus!
