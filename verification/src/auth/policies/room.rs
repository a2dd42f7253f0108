//! Who may manage rooms: the tournament's owner and its admins.
use vstd::prelude::*;
use crate::auth::policies::{Policy, PolicyContext};
use crate::models::tournament::Tournament;

verus! {

/// What a room decision reads: the tournament, and whether the user is one of its admins.
pub struct RoomPolicyResource {
    pub tournament: Tournament,
    pub user_is_tournament_admin: bool,
}

/// The tournament's owner and admins manage its rooms.
pub open spec fn manages_rooms(user_id: u128, r: RoomPolicyResource) -> bool {
    user_id == r.tournament.owner_id || r.user_is_tournament_admin
}

impl Policy<RoomPolicyResource> for PolicyContext<RoomPolicyResource> {
    fn can_create(&self, resource: &RoomPolicyResource) -> (r: bool)
        ensures
            r == manages_rooms(self.user.user_id, *resource),
    {
        self.user.user_id == resource.tournament.owner_id || resource.user_is_tournament_admin
    }

    open spec fn update_allowed(&self, resource: &RoomPolicyResource) -> bool {
        manages_rooms(self.user.user_id, *resource)
    }

    fn can_update(&self, resource: &RoomPolicyResource) -> (r: bool)
        ensures
            r == manages_rooms(self.user.user_id, *resource),
    {
        self.user.user_id == resource.tournament.owner_id || resource.user_is_tournament_admin
    }

    open spec fn delete_allowed(&self, resource: &RoomPolicyResource) -> bool {
        manages_rooms(self.user.user_id, *resource)
    }

    fn can_delete(&self, resource: &RoomPolicyResource) -> (r: bool)
        ensures
            r == manages_rooms(self.user.user_id, *resource),
    {
        self.user.user_id == resource.tournament.owner_id || resource.user_is_tournament_admin
    }
}

} // verus!
