//! Attribute-based access policies: who may create, update and delete what.
use vstd::prelude::*;

pub mod game;
pub mod laws;
pub mod room;
pub mod round;
pub mod team;
pub mod tournament;

verus! {

/// The requesting user: id (as a 128-bit integer), role names and permission names.
#[derive(Debug, Clone)]
pub struct UserContext {
    pub user_id: u128,
    pub roles: Vec<String>,
    pub permissions: Vec<String>,
}

/// A user as values.
pub struct UserView {
    pub user_id: u128,
    pub roles: Seq<Seq<char>>,
    pub permissions: Seq<Seq<char>>,
}

impl View for UserContext {
    type V = UserView;

    open spec fn view(&self) -> UserView {
        UserView {
            user_id: self.user_id,
            roles: self.roles@.map_values(|s: String| s@),
            permissions: self.permissions@.map_values(|s: String| s@),
        }
    }
}

impl UserContext {
    /// The user `user_id` with the given roles and permissions.
    pub fn new(user_id: u128, roles: Vec<String>, permissions: Vec<String>) -> (r: Self)
        ensures
            r.user_id == user_id,
            r.roles == roles,
            r.permissions == permissions,
    {
        UserContext { user_id, roles, permissions }
    }
}

/// Decides what a user may do to a resource. Creating is allowed unless a policy says
/// otherwise.
pub trait Policy<Resource> {
    fn can_create(&self, _resource: &Resource) -> (r: bool)
        default_ensures
            r,
    {
        true
    }

    /// Whether the policy lets the user update the resource.
    spec fn update_allowed(&self, resource: &Resource) -> bool;

    /// Whether the policy lets the user delete the resource.
    spec fn delete_allowed(&self, resource: &Resource) -> bool;

    fn can_update(&self, resource: &Resource) -> (r: bool)
        ensures
            r == self.update_allowed(resource);

    fn can_delete(&self, resource: &Resource) -> (r: bool)
        ensures
            r == self.delete_allowed(resource);
}

/// A user and the resource of a request.
pub struct PolicyContext<R> {
    pub user: UserContext,
    pub resource: R,
}

} // verus!
