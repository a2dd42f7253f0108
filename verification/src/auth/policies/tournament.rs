//! Who may change a tournament: its owner, or a super user. Anyone may create one.
use vstd::prelude::*;
use crate::auth::policies::{Policy, PolicyContext, UserView};
use crate::models::role::{role_text, AppRole};
use crate::models::tournament::Tournament;
use crate::text::contains_str;

verus! {

/// Whether the user holds the super user role.
pub open spec fn is_super_user(u: UserView) -> bool {
    u.roles.contains(role_text(AppRole::SuperUser))
}

/// The owner and super users change a tournament.
pub open spec fn changes_tournament(u: UserView, t: Tournament) -> bool {
    u.user_id == t.owner_id || is_super_user(u)
}

/// Whether `user` holds the super user role.
pub fn user_is_super_user(user: &crate::auth::policies::UserContext) -> (r: bool)
    ensures
        r == is_super_user(user@),
{
    let r = contains_str(&user.roles, AppRole::SuperUser.as_str());
    proof {
        if r {
            let i = choose|i: int| 0 <= i < user.roles@.len() && user.roles@[i]@ == role_text(AppRole::SuperUser);
            assert(user@.roles[i] == role_text(AppRole::SuperUser));
        } else {
            assert forall|i: int| 0 <= i < user@.roles.len() implies user@.roles[i] != role_text(AppRole::SuperUser) by {
                assert(user@.roles[i] == user.roles@[i]@);
            }
        }
    }
    r
}

impl Policy<Tournament> for PolicyContext<Tournament> {
    open spec fn update_allowed(&self, resource: &Tournament) -> bool {
        changes_tournament(self.user@, *resource)
    }

    fn can_update(&self, resource: &Tournament) -> (r: bool)
        ensures
            r == changes_tournament(self.user@, *resource),
    {
        self.user.user_id == resource.owner_id || user_is_super_user(&self.user)
    }

    open spec fn delete_allowed(&self, resource: &Tournament) -> bool {
        changes_tournament(self.user@, *resource)
    }

    fn can_delete(&self, resource: &Tournament) -> (r: bool)
        ensures
            r == changes_tournament(self.user@, *resource),
    {
        self.user.user_id == resource.owner_id || user_is_super_user(&self.user)
    }
}

} // verus!
