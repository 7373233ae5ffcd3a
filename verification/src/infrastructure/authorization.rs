//! Permissions of users, kept as bits of one number.

use vstd::prelude::*;

verus! {

/// What a user may be allowed to do.
#[derive(Clone, Copy, Debug, PartialEq, Eq, Structural)]
pub enum Permission {
    PostComment,
    UpdateComment,
    DeleteComment,
    UpdateProfiles,
    DeleteProfiles,
    ServerAdmin,
}

impl Permission {
    /// The bit that stands for the permission.
    pub open spec fn spec_bitmask(self) -> u32 {
        match self {
            Permission::PostComment => 0b0000_0001,
            Permission::UpdateComment => 0b0000_0010,
            Permission::DeleteComment => 0b0000_0100,
            Permission::UpdateProfiles => 0b0000_1000,
            Permission::DeleteProfiles => 0b0001_0000,
            Permission::ServerAdmin => 0b1000_0000,
        }
    }

    /// The bit that stands for the permission.
    pub fn as_bitmask(&self) -> (mask: u32)
        ensures
            mask == self.spec_bitmask(),
    {
        match self {
            Permission::PostComment => 0b0000_0001,
            Permission::UpdateComment => 0b0000_0010,
            Permission::DeleteComment => 0b0000_0100,
            Permission::UpdateProfiles => 0b0000_1000,
            Permission::DeleteProfiles => 0b0001_0000,
            Permission::ServerAdmin => 0b1000_0000,
        }
    }
}

/// The bits of all the given permissions.
pub open spec fn combined(permissions: Seq<Permission>) -> u32
    decreases permissions.len(),
{
    if permissions.len() == 0 {
        0
    } else {
        combined(permissions.drop_last()) | permissions.last().spec_bitmask()
    }
}

/// True when `permissions` holds the bit of `permission`.
pub open spec fn grants(permissions: u32, permission: Permission) -> bool {
    permissions & permission.spec_bitmask() != 0
}

/// True when `permissions` holds the bit of every permission of `required`.
pub open spec fn grants_all(permissions: u32, required: Seq<Permission>) -> bool {
    forall|i: int| 0 <= i < required.len() ==> grants(permissions, #[trigger] required[i])
}

/// Combines and tests permissions.
pub struct AuthorizationService;

impl AuthorizationService {
    /// The bits of all the given permissions.
    pub fn combine_permissions(permissions: &[Permission]) -> (bits: u32)
        ensures
            bits == combined(permissions@),
    {
        let mut bits: u32 = 0;
        let mut i: usize = 0;
        assert(permissions@.take(0) =~= Seq::empty());
        while i < permissions.len()
            invariant
                i <= permissions.len(),
                bits == combined(permissions@.take(i as int)),
            decreases permissions.len() - i,
        {
            assert(permissions@.take(i + 1).drop_last() =~= permissions@.take(i as int));
            bits = bits | permissions[i].as_bitmask();
            i = i + 1;
        }
        assert(permissions@.take(permissions.len() as int) =~= permissions@);
        bits
    }

    /// The permissions of a new user: to post comments.
    pub fn default_permissions() -> (bits: u32)
        ensures
            bits == combined(seq![Permission::PostComment]),
            bits == Permission::PostComment.spec_bitmask(),
    {
        proof {
            lemma_single_permission(Permission::PostComment);
        }
        let permissions = [Permission::PostComment];
        assert(permissions@ =~= seq![Permission::PostComment]);
        AuthorizationService::combine_permissions(permissions.as_slice())
    }

    /// True when `permissions` holds `permission`.
    pub fn has_permission(permissions: u32, permission: Permission) -> (granted: bool)
        ensures
            granted == grants(permissions, permission),
    {
        permissions & permission.as_bitmask() != 0
    }

    /// True when `permissions` holds every permission of `required_permissions`.
    pub fn has_permissions(permissions: u32, required_permissions: &[Permission]) -> (granted: bool)
        ensures
            granted == grants_all(permissions, required_permissions@),
    {
        let mut i: usize = 0;
        while i < required_permissions.len()
            invariant
                i <= required_permissions.len(),
                forall|k: int| 0 <= k < i ==> grants(permissions, #[trigger] required_permissions@[k]),
            decreases required_permissions.len() - i,
        {
            if permissions & required_permissions[i].as_bitmask() == 0 {
                return false;
            }
            i = i + 1;
        }
        true
    }
}

/// The bits of one permission alone are its own bit.
pub proof fn lemma_single_permission(permission: Permission)
    ensures
        combined(seq![permission]) == permission.spec_bitmask(),
{
    let one = seq![permission];
    assert(one.drop_last() =~= Seq::<Permission>::empty());
    assert(combined(one.drop_last()) == 0);
    let mask = permission.spec_bitmask();
    assert(0u32 | mask == mask) by (bit_vector);
}

/// The bit of a permission is held by the bits of another permission
/// exactly when both are the same permission.
pub proof fn lemma_bits_are_distinct(a: Permission, b: Permission)
    ensures
        grants(a.spec_bitmask(), b) <==> a == b,
{
    let x = a.spec_bitmask();
    let y = b.spec_bitmask();
    assert((x == 1 || x == 2 || x == 4 || x == 8 || x == 16 || x == 128) && (y == 1 || y == 2 || y
        == 4 || y == 8 || y == 16 || y == 128) ==> ((x & y != 0) <==> x == y)) by (bit_vector);
}

/// Combined permissions grant exactly the permissions that were combined.
pub proof fn lemma_combined_grants_exactly(permissions: Seq<Permission>, permission: Permission)
    ensures
        grants(combined(permissions), permission) <==> permissions.contains(permission),
    decreases permissions.len(),
{
    let mask = permission.spec_bitmask();
    if permissions.len() == 0 {
        assert(0u32 & mask == 0) by (bit_vector);
    } else {
        let front = permissions.drop_last();
        let last = permissions.last();
        lemma_combined_grants_exactly(front, permission);
        lemma_bits_are_distinct(last, permission);
        let a = combined(front);
        let b = last.spec_bitmask();
        assert(((a | b) & mask != 0) <==> (a & mask != 0 || b & mask != 0)) by (bit_vector);
        if permissions.contains(permission) {
            let i = choose|i: int| 0 <= i < permissions.len() && permissions[i] == permission;
            if i < permissions.len() - 1 {
                assert(front[i] == permission);
            }
        }
        if front.contains(permission) {
            let i = choose|i: int| 0 <= i < front.len() && front[i] == permission;
            assert(permissions[i] == permission);
        }
        if last == permission {
            assert(permissions[permissions.len() - 1] == permission);
        }
    }
}

} // verus!
