//! Authorization: role-based permissions first, then the resource's own policy.
use vstd::prelude::*;
use crate::auth::policies::tournament::{is_super_user, user_is_super_user};
use crate::auth::policies::{Policy, PolicyContext, UserContext, UserView};
use crate::errors::AppError;
use crate::clock::{id_text, id_text_of};
use crate::gameevent::event::texts;
use crate::text::{contains_str, str_eq, substring};

pub mod policies;

verus! {

/// The name of the cookie that carries the refresh token.
pub const REFRESH_COOKIE: &'static str = "refresh_token";
/// How long an access token lasts, in hours.
pub const ACCESS_EXPIRY_HOURS: i64 = 1;
/// How long a refresh token lasts, in days.
pub const REFRESH_EXPIRY_DAYS: i64 = 30;
/// How long a password reset lasts, in hours.
pub const RESET_EXPIRY_HOURS: i64 = 24;

/// What an access token claims: whose it is (the text of the user's id), when it expires
/// (seconds since the Unix epoch), and the user's roles and permissions by name.
pub struct Claims {
    pub sub: String,
    pub exp: usize,
    pub roles: Vec<String>,
    pub permissions: Vec<String>,
}

/// Each name once, where it first occurs.
pub open spec fn first_occurrences(names: Seq<Seq<char>>) -> Seq<Seq<char>>
    decreases names.len(),
{
    if names.len() == 0 {
        seq![]
    } else {
        let rest = first_occurrences(names.drop_last());
        if rest.contains(names.last()) {
            rest
        } else {
            rest.push(names.last())
        }
    }
}

/// The claims of an access token for `user_id`, issued at `now_secs`: it expires an hour
/// later; it carries the names of the user's roles as given, and the names of the
/// permissions those roles grant, each once, in the order first granted.
pub fn access_claims(user_id: u128, now_secs: i64, roles: Vec<String>, permission_names: &Vec<String>) -> (c: Claims)
    requires
        now_secs <= i64::MAX - 3600,
    ensures
        c.sub@ == id_text_of(user_id),
        c.exp == (now_secs + ACCESS_EXPIRY_HOURS * 3600) as usize,
        c.roles == roles,
        texts(c.permissions@) == first_occurrences(texts(permission_names@)),
{
    let mut permissions: Vec<String> = Vec::new();
    let mut i: usize = 0;
    while i < permission_names.len()
        invariant
            i <= permission_names@.len(),
            texts(permissions@) == first_occurrences(texts(permission_names@.take(i as int))),
        decreases permission_names@.len() - i,
    {
        let name = &permission_names[i];
        proof {
            assert(texts(permission_names@.take(i + 1)).drop_last() =~= texts(permission_names@.take(i as int)));
            assert(texts(permission_names@.take(i + 1)).last() == name@);
        }
        let seen = contains_str(&permissions, name.as_str());
        proof {
            let t = texts(permissions@);
            if seen {
                let k = choose|k: int| 0 <= k < permissions@.len() && permissions@[k]@ == name@;
                assert(t[k] == name@);
            }
            if t.contains(name@) {
                let k = choose|k: int| 0 <= k < t.len() && t[k] == name@;
                assert(permissions@[k]@ == name@);
            }
        }
        if !seen {
            let ghost before = permissions@;
            permissions.push(name.clone());
            proof {
                assert(texts(permissions@) =~= texts(before).push(name@));
            }
        }
        i = i + 1;
    }
    proof {
        assert(permission_names@.take(permission_names@.len() as int) =~= permission_names@);
    }
    let exp = (now_secs + ACCESS_EXPIRY_HOURS * 3600) as usize;
    Claims { sub: id_text(user_id), exp, roles, permissions }
}

/// Which policy question a permission asks of the resource.
#[derive(Debug, Clone, Copy, PartialEq, Eq, Structural)]
pub enum AbacAction {
    /// "<resource>:edit": may the user update it?
    Edit,
    /// "<resource>:delete": may the user delete it?
    Delete,
    /// Any other permission: the role-based check alone decides.
    Other,
}

/// The policy question of a permission on a resource.
pub open spec fn abac_action_of(permission: Seq<char>, resource_name: Seq<char>) -> AbacAction {
    if permission == resource_name + ":edit"@ {
        AbacAction::Edit
    } else if permission == resource_name + ":delete"@ {
        AbacAction::Delete
    } else {
        AbacAction::Other
    }
}

/// The decision: super users may do anything; others need the permission, and, for editing
/// and deleting, the resource's policy must allow it.
pub open spec fn abac_result(super_user: bool, has_permission: bool, action: AbacAction, policy_allows: bool) -> Result<(), AppError> {
    if super_user {
        Ok(())
    } else if !has_permission {
        Err(AppError::Forbidden)
    } else if action != AbacAction::Other && !policy_allows {
        Err(AppError::Forbidden)
    } else {
        Ok(())
    }
}

/// The policy question that `permission` asks of `resource_name`.
pub fn abac_action(permission: &str, resource_name: &str) -> (r: AbacAction)
    ensures
        r == abac_action_of(permission@, resource_name@),
{
    let edit = String::from_str(resource_name).concat(":edit");
    if str_eq(permission, edit.as_str()) {
        return AbacAction::Edit;
    }
    let delete = String::from_str(resource_name).concat(":delete");
    if str_eq(permission, delete.as_str()) {
        return AbacAction::Delete;
    }
    AbacAction::Other
}

/// Decides a request from what was found of the user and what the policy answered.
pub fn abac_decision(super_user: bool, has_permission: bool, action: AbacAction, policy_allows: bool) -> (r: Result<(), AppError>)
    ensures
        r == abac_result(super_user, has_permission, action, policy_allows),
{
    if super_user {
        return Ok(());
    }
    if !has_permission {
        return Err(AppError::Forbidden);
    }
    let allowed = match action {
        AbacAction::Edit => policy_allows,
        AbacAction::Delete => policy_allows,
        AbacAction::Other => true,
    };
    if !allowed {
        return Err(AppError::Forbidden);
    }
    Ok(())
}

/// Whether the user's token grants `permission`.
pub open spec fn has_permission(u: UserView, permission: Seq<char>) -> bool {
    u.permissions.contains(permission)
}

/// Authorizes `permission` on the context's resource (named `resource_name` in permission
/// names): super users always pass; others are forbidden without the permission; with it,
/// editing passes exactly when the policy allows updating, deleting exactly when it allows
/// deleting, and anything else passes.
pub fn is_abac_authorized<R>(ctx: &PolicyContext<R>, permission: &str, resource_name: &str) -> (r: Result<(), AppError>)
    where
        PolicyContext<R>: Policy<R>,
    ensures
        is_super_user(ctx.user@) ==> r is Ok,
        !is_super_user(ctx.user@) && !has_permission(ctx.user@, permission@) ==> r == Err::<(), AppError>(AppError::Forbidden),
        !is_super_user(ctx.user@) && has_permission(ctx.user@, permission@)
            && abac_action_of(permission@, resource_name@) == AbacAction::Other ==> r is Ok,
        !is_super_user(ctx.user@) && has_permission(ctx.user@, permission@)
            && abac_action_of(permission@, resource_name@) == AbacAction::Edit
            ==> (r is Ok <==> ctx.update_allowed(&ctx.resource)),
        !is_super_user(ctx.user@) && has_permission(ctx.user@, permission@)
            && abac_action_of(permission@, resource_name@) == AbacAction::Delete
            ==> (r is Ok <==> ctx.delete_allowed(&ctx.resource)),
        r is Ok || r == Err::<(), AppError>(AppError::Forbidden),
{
    let super_user = user_is_super_user(&ctx.user);
    if super_user {
        return abac_decision(true, false, AbacAction::Other, true);
    }
    let granted = contains_str(&ctx.user.permissions, permission);
    proof {
        if granted {
            let i = choose|i: int| 0 <= i < ctx.user.permissions@.len() && ctx.user.permissions@[i]@ == permission@;
            assert(ctx.user@.permissions[i] == permission@);
        } else {
            assert forall|i: int| 0 <= i < ctx.user@.permissions.len() implies ctx.user@.permissions[i] != permission@ by {
                assert(ctx.user@.permissions[i] == ctx.user.permissions@[i]@);
            }
        }
    }
    if !granted {
        return abac_decision(false, false, AbacAction::Other, true);
    }
    let action = abac_action(permission, resource_name);
    let allowed = match action {
        AbacAction::Edit => ctx.can_update(&ctx.resource),
        AbacAction::Delete => ctx.can_delete(&ctx.resource),
        AbacAction::Other => true,
    };
    abac_decision(false, true, action, allowed)
}

// ─── Reading who the caller is ──────────────────────────────────────────────

/// The id that a text names, when it reads as one (the 128 bits of the UUID, most
/// significant first).
pub uninterp spec fn parsed_id(text: Seq<char>) -> Option<u128>;

/// Reads an id with `uuid::Uuid::parse_str`, which takes the simple, hyphenated, braced and
/// URN forms of a UUID: the result is `parsed_id` of the text, the id as a 128-bit integer
/// (`Uuid::as_u128`) when it reads as one.
#[verifier::external_body]
pub fn parse_id(text: &str) -> (r: Option<u128>)
    ensures
        r == parsed_id(text@),
{
    uuid::Uuid::parse_str(text).ok().map(|u| u.as_u128())
}

/// The token of an `Authorization` header value: what follows "Bearer ", when the value
/// starts with it.
pub fn bearer_token(header: &str) -> (r: Option<String>)
    ensures
        r is Some <==> (header@.len() >= 7 && header@.subrange(0, 7) == "Bearer "@),
        r matches Some(t) ==> t@ == header@.subrange(7, header@.len() as int),
{
    proof {
        reveal_strlit("Bearer ");
    }
    let n = header.unicode_len();
    if n < 7 {
        return None;
    }
    let prefix = substring(header, 0, 7);
    if !str_eq(prefix.as_str(), "Bearer ") {
        return None;
    }
    Some(substring(header, 7, n))
}

/// The caller named by a token's claims: the user whose id the subject text names, with the
/// token's roles and permissions; `None` when the subject does not read as an id.
pub fn user_context_of(sub: &str, roles: Vec<String>, permissions: Vec<String>) -> (r: Option<UserContext>)
    ensures
        r is Some <==> parsed_id(sub@) is Some,
        r matches Some(u) ==> parsed_id(sub@) == Some(u.user_id) && u.roles == roles && u.permissions == permissions,
{
    match parse_id(sub) {
        Some(id) => Some(UserContext::new(id, roles, permissions)),
        None => None,
    }
}

} // verus!
