//! Who may manage teams: the tournament's owner and its admins, and a team's coach may
//! update it.
use vstd::prelude::*;
use crate::auth::policies::{Policy, PolicyContext};
use crate::models::tournament::Tournament;

verus! {

/// What a team decision reads: the tournament, whether the user is one of its admins, and
/// whether the user coaches the team.
pub struct TeamPolicyResource {
    pub tournament: Tournament,
    pub user_is_tournament_admin: bool,
    pub user_is_team_coach: bool,
}

/// The tournament's owner and admins manage its teams.
pub open spec fn manages_teams(user_id: u128, r: TeamPolicyResource) -> bool {
    user_id == r.tournament.owner_id || r.user_is_tournament_admin
}

impl Policy<TeamPolicyResource> for PolicyContext<TeamPolicyResource> {
    fn can_create(&self, resource: &TeamPolicyResource) -> (r: bool)
        ensures
            r == manages_teams(self.user.user_id, *resource),
    {
        self.user.user_id == resource.tournament.owner_id || resource.user_is_tournament_admin
    }

    open spec fn update_allowed(&self, resource: &TeamPolicyResource) -> bool {
        (manages_teams(self.user.user_id, *resource) || resource.user_is_team_coach)
    }

    fn can_update(&self, resource: &TeamPolicyResource) -> (r: bool)
        ensures
            r == (manages_teams(self.user.user_id, *resource) || resource.user_is_team_coach),
    {
        self.user.user_id == resource.tournament.owner_id || resource.user_is_tournament_admin
            || resource.user_is_team_coach
    }

    open spec fn delete_allowed(&self, resource: &TeamPolicyResource) -> bool {
        manages_teams(self.user.user_id, *resource)
    }

    fn can_delete(&self, resource: &TeamPolicyResource) -> (r: bool)
        ensures
            r == manages_teams(self.user.user_id, *resource),
    {
        self.user.user_id == resource.tournament.owner_id || resource.user_is_tournament_admin
    }
}

} // verus!
