use backend::auth::policies::game::GamePolicyResource;
use backend::auth::policies::room::RoomPolicyResource;
use backend::auth::policies::round::RoundPolicyResource;
use backend::auth::policies::team::TeamPolicyResource;
use backend::auth::policies::{Policy, PolicyContext, UserContext};
use backend::auth::{abac_action, abac_decision, is_abac_authorized, AbacAction};
use backend::errors::AppError;
use backend::models::common::PaginationParams;
use backend::models::permission::{AppAction, AppResource, PermissionBuilder};
use backend::models::role::{AppRole, RoleBuilder};
use backend::models::tournament::Tournament;

fn user(id: u128, roles: &[&str], permissions: &[&str]) -> UserContext {
    UserContext::new(
        id,
        roles.iter().map(|s| s.to_string()).collect(),
        permissions.iter().map(|s| s.to_string()).collect(),
    )
}

#[test]
fn game_policy_allows_owner_and_admins_only() {
    let t = Tournament { tid: 1, owner_id: 7 };
    let owner = PolicyContext { user: user(7, &[], &[]), resource: GamePolicyResource { tournament: t, user_is_tournament_admin: false } };
    assert!(owner.can_create(&owner.resource));
    assert!(owner.can_update(&owner.resource));
    assert!(owner.can_delete(&owner.resource));
    let stranger = PolicyContext { user: user(8, &[], &[]), resource: GamePolicyResource { tournament: t, user_is_tournament_admin: false } };
    assert!(!stranger.can_create(&stranger.resource));
    assert!(!stranger.can_update(&stranger.resource));
    assert!(!stranger.can_delete(&stranger.resource));
    let admin = PolicyContext { user: user(8, &[], &[]), resource: RoomPolicyResource { tournament: t, user_is_tournament_admin: true } };
    assert!(admin.can_update(&admin.resource));
    let round = PolicyContext { user: user(9, &[], &[]), resource: RoundPolicyResource { tournament: t, user_is_tournament_admin: false } };
    assert!(!round.can_delete(&round.resource));
}

#[test]
fn team_coach_may_update_but_not_delete() {
    let t = Tournament { tid: 1, owner_id: 7 };
    let coach = PolicyContext {
        user: user(8, &[], &[]),
        resource: TeamPolicyResource { tournament: t, user_is_tournament_admin: false, user_is_team_coach: true },
    };
    assert!(coach.can_update(&coach.resource));
    assert!(!coach.can_delete(&coach.resource));
    assert!(!coach.can_create(&coach.resource));
}

#[test]
fn tournament_policy_allows_owner_and_super_users() {
    let t = Tournament { tid: 1, owner_id: 7 };
    let owner = PolicyContext { user: user(7, &["member"], &[]), resource: t };
    assert!(owner.can_update(&owner.resource));
    assert!(owner.can_create(&owner.resource));
    let other = PolicyContext { user: user(8, &["member"], &[]), resource: t };
    assert!(!other.can_update(&other.resource));
    assert!(!other.can_delete(&other.resource));
    let su = PolicyContext { user: user(8, &["member", "super_user"], &[]), resource: t };
    assert!(su.can_delete(&su.resource));
}

#[test]
fn edit_and_delete_ask_the_policy() {
    let t = Tournament { tid: 1, owner_id: 7 };
    let other = PolicyContext { user: user(8, &["tournament_manager"], &["tournament:edit", "tournament:delete", "tournament:read"]), resource: t };
    assert_eq!(is_abac_authorized(&other, "tournament:edit", "tournament"), Err(AppError::Forbidden));
    assert_eq!(is_abac_authorized(&other, "tournament:delete", "tournament"), Err(AppError::Forbidden));
    assert_eq!(is_abac_authorized(&other, "tournament:read", "tournament"), Ok(()));
    let owner = PolicyContext { user: user(7, &["tournament_manager"], &["tournament:edit"]), resource: t };
    assert_eq!(is_abac_authorized(&owner, "tournament:edit", "tournament"), Ok(()));
    assert_eq!(is_abac_authorized(&owner, "tournament:delete", "tournament"), Err(AppError::Forbidden));
}

#[test]
fn abac_actions_and_decisions() {
    assert_eq!(abac_action("game:edit", "game"), AbacAction::Edit);
    assert_eq!(abac_action("game:delete", "game"), AbacAction::Delete);
    assert_eq!(abac_action("game:create", "game"), AbacAction::Other);
    assert_eq!(abac_action("game:edit", "room"), AbacAction::Other);
    assert_eq!(abac_decision(true, false, AbacAction::Edit, false), Ok(()));
    assert_eq!(abac_decision(false, false, AbacAction::Other, true), Err(AppError::Forbidden));
    assert_eq!(abac_decision(false, true, AbacAction::Delete, false), Err(AppError::Forbidden));
    assert_eq!(abac_decision(false, true, AbacAction::Other, false), Ok(()));
}

#[test]
fn app_errors_answer_with_their_status_and_text() {
    assert_eq!(AppError::Unauthorized.status_code(), 401);
    assert_eq!(AppError::Forbidden.status_code(), 403);
    assert_eq!(AppError::NotFound.status_code(), 404);
    assert_eq!(AppError::Internal.status_code(), 500);
    assert_eq!(AppError::NotFound.to_string(), "Not Found");
    assert_eq!(AppError::Internal.to_string(), "Internal Server Error");
}

#[test]
fn pagination_caps_the_page_size() {
    assert_eq!(PaginationParams { page: 2, page_size: 50 }.limit_and_offset(), (50, 100));
    assert_eq!(PaginationParams { page: 3, page_size: 5000 }.limit_and_offset(), (1000, 3000));
    assert_eq!(PaginationParams { page: 0, page_size: 1000 }.limit_and_offset(), (1000, 0));
}

#[test]
fn role_and_permission_names() {
    assert_eq!(AppRole::Member.as_str(), "member");
    assert_eq!(AppRole::TournamentManager.as_str(), "tournament_manager");
    assert_eq!(AppRole::SuperUser.description(), "Unrestricted access to all resources and actions");
    assert_eq!(AppResource::RoomMonitor.as_str(), "roommonitor");
    assert_eq!(AppAction::Delete.as_str(), "delete");
}

#[test]
fn role_builder_requires_a_name() {
    let err = RoleBuilder::new(" \t ").description("x").build();
    assert_eq!(err.err().unwrap(), vec!["name is required".to_string()]);
    let (role, ids) = RoleBuilder::new("admin").description("all").with_permission(3).with_permissions(vec![4, 5]).build().ok().unwrap();
    assert_eq!(role.name, "admin");
    assert_eq!(role.description, Some("all".to_string()));
    assert_eq!(ids, vec![3, 4, 5]);
}

#[test]
fn permission_builder_keeps_resource_and_action() {
    let p = PermissionBuilder::new("post:create").resource("post").action("create").build().ok().unwrap();
    assert_eq!(p.name, "post:create");
    assert_eq!(p.resource, Some("post".to_string()));
    assert_eq!(p.action, Some("create".to_string()));
    assert!(PermissionBuilder::new("").build().is_err());
}
