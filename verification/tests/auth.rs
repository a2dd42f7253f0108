use backend::auth::{access_claims, bearer_token, parse_id, user_context_of};
use backend::auth::is_abac_authorized;
use backend::auth::policies::{Policy, PolicyContext, UserContext};
use backend::models::role::AppRole;
use uuid::Uuid;

struct DummyResource;

impl Policy<DummyResource> for PolicyContext<DummyResource> {
    fn update_allowed(&self, _: &DummyResource) -> bool {
        false
    }
    fn delete_allowed(&self, _: &DummyResource) -> bool {
        false
    }
    fn can_update(&self, _: &DummyResource) -> bool {
        false
    }
    fn can_delete(&self, _: &DummyResource) -> bool {
        false
    }
}

fn make_ctx(roles: Vec<&str>, permissions: Vec<&str>) -> PolicyContext<DummyResource> {
    PolicyContext {
        user: UserContext::new(
            Uuid::new_v4().as_u128(),
            roles.into_iter().map(str::to_string).collect(),
            permissions.into_iter().map(str::to_string).collect(),
        ),
        resource: DummyResource,
    }
}

#[test]
fn super_user_bypasses_rbac_and_abac() {
    let ctx = make_ctx(vec![AppRole::SuperUser.as_str()], vec![]);
    // No permissions in the token, yet every check must pass.
    assert!(is_abac_authorized(&ctx, "tournament:create", "tournament").is_ok());
    assert!(is_abac_authorized(&ctx, "tournament:edit", "tournament").is_ok());
    assert!(is_abac_authorized(&ctx, "tournament:delete", "tournament").is_ok());
    assert!(is_abac_authorized(&ctx, "user:delete", "user").is_ok());
    assert!(is_abac_authorized(&ctx, "anything:unknown", "anything").is_ok());
}

#[test]
fn non_super_user_without_permission_is_forbidden() {
    let ctx = make_ctx(vec!["member"], vec![]);
    assert!(is_abac_authorized(&ctx, "tournament:create", "tournament").is_err());
}

#[test]
fn non_super_user_with_permission_is_allowed() {
    let ctx = make_ctx(vec!["tournament_manager"], vec!["tournament:create"]);
    assert!(is_abac_authorized(&ctx, "tournament:create", "tournament").is_ok());
}

#[test]
fn access_claims_expire_in_an_hour_and_list_each_permission_once() {
    let roles = vec!["member".to_string(), "tournament_manager".to_string()];
    let granted = vec![
        "tournament:read".to_string(),
        "game:read".to_string(),
        "tournament:read".to_string(),
        "tournament:create".to_string(),
        "game:read".to_string(),
    ];
    let c = access_claims(0x67e5504410b1426f9247bb680e5fe0c8, 1_700_000_000, roles.clone(), &granted);
    assert_eq!(c.sub, "67e55044-10b1-426f-9247-bb680e5fe0c8");
    assert_eq!(c.exp, 1_700_003_600);
    assert_eq!(c.roles, roles);
    assert_eq!(c.permissions, vec!["tournament:read".to_string(), "game:read".to_string(), "tournament:create".to_string()]);
    assert!(access_claims(0, 0, vec![], &vec![]).permissions.is_empty());
}

struct EditableResource;

impl Policy<EditableResource> for PolicyContext<EditableResource> {
    fn update_allowed(&self, _: &EditableResource) -> bool {
        true
    }
    fn delete_allowed(&self, _: &EditableResource) -> bool {
        false
    }
    fn can_update(&self, _: &EditableResource) -> bool {
        true
    }
    fn can_delete(&self, _: &EditableResource) -> bool {
        false
    }
}

#[test]
fn edit_and_delete_follow_the_resource_policy() {
    let ctx = PolicyContext {
        user: UserContext::new(7, vec!["tournament_manager".to_string()], vec!["tournament:edit".to_string(), "tournament:delete".to_string()]),
        resource: EditableResource,
    };
    assert!(is_abac_authorized(&ctx, "tournament:edit", "tournament").is_ok());
    assert!(is_abac_authorized(&ctx, "tournament:delete", "tournament").is_err());
    let denied = make_ctx(vec!["tournament_manager"], vec!["tournament:edit"]);
    assert!(is_abac_authorized(&denied, "tournament:edit", "tournament").is_err());
}

#[test]
fn bearer_tokens_and_subjects_are_read() {
    assert_eq!(bearer_token("Bearer abc.def"), Some("abc.def".to_string()));
    assert_eq!(bearer_token("Bearer "), Some(String::new()));
    assert_eq!(bearer_token("bearer abc"), None);
    assert_eq!(bearer_token("Token"), None);
    assert_eq!(parse_id("67e55044-10b1-426f-9247-bb680e5fe0c8"), Some(0x67e5504410b1426f9247bb680e5fe0c8));
    assert_eq!(parse_id("not an id"), None);
    let u = user_context_of("67e55044-10b1-426f-9247-bb680e5fe0c8", vec!["member".to_string()], vec!["game:read".to_string()]).unwrap();
    assert_eq!(u.user_id, 0x67e5504410b1426f9247bb680e5fe0c8);
    assert_eq!(u.roles, vec!["member".to_string()]);
    assert_eq!(u.permissions, vec!["game:read".to_string()]);
    assert!(user_context_of("x", vec![], vec![]).is_none());
}
