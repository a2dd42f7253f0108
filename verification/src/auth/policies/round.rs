//! Who may manage rounds: the tournament's owner and its admins.
use vstd::prelude::*;
use crate::auth::policies::{Policy, PolicyContext};
use crate::models::tournament::Tournament;

verus! {

/// What a round decision reads: the tournament, and whether the user is one of its admins.
pub struct RoundPolicyResource {
    pub tournament: Tournament,
    pub user_is_tournament_admin: bool,
}

/// The tournament's owner and admins manage its rounds.
pub open spec fn manages_rounds(user_id: u128, r: RoundPolicyResource) -> bool {
    user_id == r.tournament.owner_id || r.user_is_tournament_admin
}

impl Policy<RoundPolicyResource> for PolicyContext<RoundPolicyResource> {
    fn can_create(&self, resource: &RoundPolicyResource) -> (r: bool)
        ensures
            r == manages_rounds(self.user.user_id, *resource),
    {
        self.user.user_id == resource.tournament.owner_id || resource.user_is_tournament_admin
    }

    open spec fn update_allowed(&self, resource: &RoundPolicyResource) -> bool {
        manages_rounds(self.user.user_id, *resource)
    }

    fn can_update(&self, resource: &RoundPolicyResource) -> (r: bool)
        ensures
            r == manages_rounds(self.user.user_id, *resource),
    {
        self.user.user_id == resource.tournament.owner_id || resource.user_is_tournament_admin
    }

    open spec fn delete_allowed(&self, resource: &RoundPolicyResource) -> bool {
        manages_rounds(self.user.user_id, *resource)
    }

    fn can_delete(&self, resource: &RoundPolicyResource) -> (r: bool)
        ensures
            r == manages_rounds(self.user.user_id, *resource),
    {
        self.user.user_id == resource.tournament.owner_id || resource.user_is_tournament_admin
    }
}

} // verus!
