//! The links of a role to its permissions, and their builder.
use vstd::prelude::*;
use crate::gameevent::event::{msg_if, texts};

verus! {

/// Collects the permissions to link to a role.
pub struct RolePermissionBuilder {
    pub role_id: i32,
    pub permission_ids: Vec<i32>,
}

/// What is wrong with a builder: at least one permission is needed.
pub open spec fn role_permission_missing(b: RolePermissionBuilder) -> Seq<Seq<char>> {
    msg_if(b.permission_ids@.len() == 0, "at least one permission_id is required"@)
}

impl RolePermissionBuilder {
    /// The links of role `role_id`, none yet.
    pub fn new(role_id: i32) -> (r: Self)
        ensures
            r.role_id == role_id,
            r.permission_ids@ == Seq::<i32>::empty(),
    {
        RolePermissionBuilder { role_id, permission_ids: Vec::new() }
    }

    /// One more permission for the role.
    pub fn add(self, permission_id: i32) -> (r: Self)
        ensures
            r.role_id == self.role_id,
            r.permission_ids@ == self.permission_ids@.push(permission_id),
    {
        let mut ids = self.permission_ids;
        ids.push(permission_id);
        RolePermissionBuilder { role_id: self.role_id, permission_ids: ids }
    }

    /// More permissions for the role, in order.
    pub fn add_many(self, permission_ids: Vec<i32>) -> (r: Self)
        ensures
            r.role_id == self.role_id,
            r.permission_ids@ == self.permission_ids@ + permission_ids@,
    {
        let mut ids = self.permission_ids;
        let ghost start = ids@;
        let mut i: usize = 0;
        while i < permission_ids.len()
            invariant
                i <= permission_ids@.len(),
                ids@ == start + permission_ids@.take(i as int),
            decreases permission_ids@.len() - i,
        {
            ids.push(permission_ids[i]);
            proof {
                assert(permission_ids@.take(i + 1) =~= permission_ids@.take(i as int).push(permission_ids@[i as int]));
            }
            i = i + 1;
        }
        proof {
            assert(permission_ids@.take(permission_ids@.len() as int) =~= permission_ids@);
        }
        RolePermissionBuilder { role_id: self.role_id, permission_ids: ids }
    }

    /// `Ok` when there is a permission to link, else the error.
    pub fn validate(&self) -> (r: Result<(), Vec<String>>)
        ensures
            r is Ok <==> self.permission_ids@.len() > 0,
            r matches Err(v) ==> texts(v@) == role_permission_missing(*self),
    {
        if self.permission_ids.len() == 0 {
            let mut v: Vec<String> = Vec::new();
            v.push(String::from_str("at least one permission_id is required"));
            proof {
                assert(texts(v@) =~= role_permission_missing(*self));
            }
            Err(v)
        } else {
            Ok(())
        }
    }
}

} // verus!
