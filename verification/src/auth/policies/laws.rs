//! Who may change what, stated per resource over the user and the resource alone.
use vstd::prelude::*;
use crate::auth::policies::{Policy, PolicyContext};
use crate::auth::policies::game::{manages_games, GamePolicyResource};
use crate::auth::policies::room::{manages_rooms, RoomPolicyResource};
use crate::auth::policies::round::{manages_rounds, RoundPolicyResource};
use crate::auth::policies::team::{manages_teams, TeamPolicyResource};
use crate::models::tournament::Tournament;

verus! {

/// The owner of a round's tournament may create, update and delete the round, and so may
/// an admin of the tournament; nobody else may do any of the three. (`can_create` returns
/// `manages_rounds`; `can_update` and `can_delete` return the policy's update and delete
/// decisions.)
pub proof fn law_round_owner_and_admins_only(ctx: PolicyContext<RoundPolicyResource>, res: RoundPolicyResource)
    ensures
        ctx.user.user_id == res.tournament.owner_id ==> manages_rounds(ctx.user.user_id, res)
            && ctx.update_allowed(&res) && ctx.delete_allowed(&res),
        res.user_is_tournament_admin ==> manages_rounds(ctx.user.user_id, res) && ctx.update_allowed(&res)
            && ctx.delete_allowed(&res),
        ctx.user.user_id != res.tournament.owner_id && !res.user_is_tournament_admin
            ==> !manages_rounds(ctx.user.user_id, res) && !ctx.update_allowed(&res) && !ctx.delete_allowed(&res),
{
}

/// The owner of a game's tournament may create, update and delete the game, and so may an
/// admin of the tournament; nobody else may do any of the three.
pub proof fn law_game_owner_and_admins_only(ctx: PolicyContext<GamePolicyResource>, res: GamePolicyResource)
    ensures
        ctx.user.user_id == res.tournament.owner_id ==> manages_games(ctx.user.user_id, res)
            && ctx.update_allowed(&res) && ctx.delete_allowed(&res),
        res.user_is_tournament_admin ==> manages_games(ctx.user.user_id, res) && ctx.update_allowed(&res)
            && ctx.delete_allowed(&res),
        ctx.user.user_id != res.tournament.owner_id && !res.user_is_tournament_admin
            ==> !manages_games(ctx.user.user_id, res) && !ctx.update_allowed(&res) && !ctx.delete_allowed(&res),
{
}

/// The owner of a room's tournament may create, update and delete the room, and so may an
/// admin of the tournament; nobody else may do any of the three.
pub proof fn law_room_owner_and_admins_only(ctx: PolicyContext<RoomPolicyResource>, res: RoomPolicyResource)
    ensures
        ctx.user.user_id == res.tournament.owner_id ==> manages_rooms(ctx.user.user_id, res)
            && ctx.update_allowed(&res) && ctx.delete_allowed(&res),
        res.user_is_tournament_admin ==> manages_rooms(ctx.user.user_id, res) && ctx.update_allowed(&res)
            && ctx.delete_allowed(&res),
        ctx.user.user_id != res.tournament.owner_id && !res.user_is_tournament_admin
            ==> !manages_rooms(ctx.user.user_id, res) && !ctx.update_allowed(&res) && !ctx.delete_allowed(&res),
{
}

/// The owner of a team's tournament may create, update and delete the team, and so may an
/// admin of the tournament; the team's coach may update it but neither create nor delete
/// it; nobody else may do any of the three.
pub proof fn law_team_owner_admins_and_coach(ctx: PolicyContext<TeamPolicyResource>, res: TeamPolicyResource)
    ensures
        ctx.user.user_id == res.tournament.owner_id ==> manages_teams(ctx.user.user_id, res)
            && ctx.update_allowed(&res) && ctx.delete_allowed(&res),
        res.user_is_tournament_admin ==> manages_teams(ctx.user.user_id, res) && ctx.update_allowed(&res)
            && ctx.delete_allowed(&res),
        res.user_is_team_coach ==> ctx.update_allowed(&res),
        ctx.user.user_id != res.tournament.owner_id && !res.user_is_tournament_admin
            ==> !manages_teams(ctx.user.user_id, res) && !ctx.delete_allowed(&res)
            && (ctx.update_allowed(&res) <==> res.user_is_team_coach),
{
}

/// A tournament's owner may update and delete it, and so may a user with the super user
/// role; nobody else may do either.
pub proof fn law_tournament_owner_and_super_users_only(ctx: PolicyContext<Tournament>, t: Tournament)
    ensures
        ctx.user.user_id == t.owner_id ==> ctx.update_allowed(&t) && ctx.delete_allowed(&t),
        ctx.user@.roles.contains("super_user"@) ==> ctx.update_allowed(&t) && ctx.delete_allowed(&t),
        ctx.user.user_id != t.owner_id && !ctx.user@.roles.contains("super_user"@)
            ==> !ctx.update_allowed(&t) && !ctx.delete_allowed(&t),
{
}

} // verus!
