//! Who may manage games: the tournament's owner and its admins.
use vstd::prelude::*;
use crate::auth::policies::{Policy, PolicyContext};
use crate::models::tournament::Tournament;

verus! {

/// What a game decision reads: the tournament, and whether the user is one of its admins.
pub struct GamePolicyResource {
    pub tournament: Tournament,
    pub user_is_tournament_admin: bool,
}

/// The tournament's owner and admins manage its games.
pub open spec fn manages_games(user_id: u128, r: GamePolicyResource) -> bool {
    user_id == r.tournament.owner_id || r.user_is_tournament_admin
}

impl Policy<GamePolicyResource> for PolicyContext<GamePolicyResource> {
    fn can_create(&self, resource: &GamePolicyResource) -> (r: bool)
        ensures
            r == manages_games(self.user.user_id, *resource),
    {
        self.user.user_id == resource.tournament.owner_id || resource.user_is_tournament_admin
    }

    open spec fn update_allowed(&self, resource: &GamePolicyResource) -> bool {
        manages_games(self.user.user_id, *resource)
    }

    fn can_update(&self, resource: &GamePolicyResource) -> (r: bool)
        ensures
            r == manages_games(self.user.user_id, *resource),
    {
        self.user.user_id == resource.tournament.owner_id || resource.user_is_tournament_admin
    }

    open spec fn delete_allowed(&self, resource: &GamePolicyResource) -> bool {
        manages_games(self.user.user_id, *resource)
    }

    fn can_delete(&self, resource: &GamePolicyResource) -> (r: bool)
        ensures
            r == manages_games(self.user.user_id, *resource),
    {
        self.user.user_id == resource.tournament.owner_id || resource.user_is_tournament_admin
    }
}

} // verus!
