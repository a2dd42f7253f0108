//! The resources and actions that permissions name, and the builder of a permission record.
use vstd::prelude::*;
use crate::models::role::{check_name, name_errors};
use crate::text::is_blank;

verus! {

/// The resources a permission can be about.
#[derive(Debug, Clone, Copy, PartialEq, Eq, Structural)]
pub enum AppResource {
    Tournament,
    Division,
    Round,
    Room,
    RoomMonitor,
    Game,
    Team,
    User,
}

/// The name of a resource in permission names.
pub open spec fn resource_text(r: AppResource) -> Seq<char> {
    match r {
        AppResource::Tournament => "tournament"@,
        AppResource::Division => "division"@,
        AppResource::Round => "round"@,
        AppResource::Room => "room"@,
        AppResource::RoomMonitor => "roommonitor"@,
        AppResource::Game => "game"@,
        AppResource::Team => "team"@,
        AppResource::User => "user"@,
    }
}

impl AppResource {
    /// The resource's name.
    pub fn as_str(&self) -> (r: &'static str)
        ensures
            r@ == resource_text(*self),
    {
        match self {
            AppResource::Tournament => "tournament",
            AppResource::Division => "division",
            AppResource::Round => "round",
            AppResource::Room => "room",
            AppResource::RoomMonitor => "roommonitor",
            AppResource::Game => "game",
            AppResource::Team => "team",
            AppResource::User => "user",
        }
    }
}

/// The actions a permission can allow.
#[derive(Debug, Clone, Copy, PartialEq, Eq, Structural)]
pub enum AppAction {
    Create,
    Read,
    Update,
    Delete,
}

/// The name of an action in permission names.
pub open spec fn action_text(a: AppAction) -> Seq<char> {
    match a {
        AppAction::Create => "create"@,
        AppAction::Read => "read"@,
        AppAction::Update => "update"@,
        AppAction::Delete => "delete"@,
    }
}

impl AppAction {
    /// The action's name.
    pub fn as_str(&self) -> (r: &'static str)
        ensures
            r@ == action_text(*self),
    {
        match self {
            AppAction::Create => "create",
            AppAction::Read => "read",
            AppAction::Update => "update",
            AppAction::Delete => "delete",
        }
    }
}

/// A permission record to insert: its name ("resource:action") and, apart, its resource and
/// action.
#[derive(Debug, Clone)]
pub struct NewPermission {
    pub name: String,
    pub resource: Option<String>,
    pub action: Option<String>,
}

/// Collects a permission's name, resource and action.
pub struct PermissionBuilder {
    pub name: String,
    pub resource: Option<String>,
    pub action: Option<String>,
}

impl PermissionBuilder {
    /// A permission named `name` with no resource or action given.
    pub fn new(name: &str) -> (r: Self)
        ensures
            r.name@ == name@,
            r.resource is None,
            r.action is None,
    {
        PermissionBuilder { name: String::from_str(name), resource: None, action: None }
    }

    /// The permission about `resource`.
    pub fn resource(self, resource: &str) -> (r: Self)
        ensures
            r.name == self.name,
            r.resource matches Some(x) && x@ == resource@,
            r.action == self.action,
    {
        PermissionBuilder { resource: Some(String::from_str(resource)), ..self }
    }

    /// The permission for `action`.
    pub fn action(self, action: &str) -> (r: Self)
        ensures
            r.name == self.name,
            r.resource == self.resource,
            r.action matches Some(x) && x@ == action@,
    {
        PermissionBuilder { action: Some(String::from_str(action)), ..self }
    }

    /// The permission record; a blank name is an error.
    pub fn build(self) -> (r: Result<NewPermission, Vec<String>>)
        ensures
            r is Ok <==> !is_blank(self.name@),
            r matches Ok(p) ==> p.name == self.name && p.resource == self.resource && p.action == self.action,
            r matches Err(v) ==> v@.map_values(|s: String| s@) == name_errors(self.name@),
    {
        match check_name(self.name.as_str()) {
            Ok(()) => Ok(NewPermission { name: self.name, resource: self.resource, action: self.action }),
            Err(v) => Err(v),
        }
    }
}

} // verus!
