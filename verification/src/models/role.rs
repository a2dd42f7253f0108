//! The application's roles, and the builder of a role record with its permissions.
use vstd::prelude::*;
use crate::text::is_blank;

verus! {

/// The roles a user can hold; every role record corresponds to one.
#[derive(Debug, Clone, Copy, PartialEq, Eq, Structural)]
pub enum AppRole {
    Member,
    TournamentManager,
    TournamentAdmin,
    SuperUser,
}

/// The name under which a role is stored.
pub open spec fn role_text(r: AppRole) -> Seq<char> {
    match r {
        AppRole::Member => "member"@,
        AppRole::TournamentManager => "tournament_manager"@,
        AppRole::TournamentAdmin => "tournament_admin"@,
        AppRole::SuperUser => "super_user"@,
    }
}

/// What a role allows, in words.
pub open spec fn role_description(r: AppRole) -> Seq<char> {
    match r {
        AppRole::Member => "View all resources; no write access"@,
        AppRole::TournamentManager => "Create, update, and delete tournaments (assign alongside member)"@,
        AppRole::TournamentAdmin => "Tournament Manager except for creating Tournaments"@,
        AppRole::SuperUser => "Unrestricted access to all resources and actions"@,
    }
}

impl AppRole {
    /// The role's stored name.
    pub fn as_str(&self) -> (r: &'static str)
        ensures
            r@ == role_text(*self),
    {
        match self {
            AppRole::Member => "member",
            AppRole::TournamentManager => "tournament_manager",
            AppRole::TournamentAdmin => "tournament_admin",
            AppRole::SuperUser => "super_user",
        }
    }

    /// What the role allows.
    pub fn description(&self) -> (r: &'static str)
        ensures
            r@ == role_description(*self),
    {
        match self {
            AppRole::Member => "View all resources; no write access",
            AppRole::TournamentManager => "Create, update, and delete tournaments (assign alongside member)",
            AppRole::TournamentAdmin => "Tournament Manager except for creating Tournaments",
            AppRole::SuperUser => "Unrestricted access to all resources and actions",
        }
    }
}

/// A role record to insert.
#[derive(Debug, Clone)]
pub struct NewRole {
    pub name: String,
    pub description: Option<String>,
}

/// Collects a role's name, description and the permissions (ids as 128-bit integers) to link
/// to it.
pub struct RoleBuilder {
    pub name: String,
    pub description: Option<String>,
    pub permission_ids: Vec<u128>,
}

/// The errors of a role or permission with the given name: a name is required.
pub open spec fn name_errors(name: Seq<char>) -> Seq<Seq<char>> {
    if is_blank(name) { seq!["name is required"@] } else { seq![] }
}

/// Whether the name of a record is blank, and the error that says so.
pub fn check_name(name: &str) -> (r: Result<(), Vec<String>>)
    ensures
        r is Ok <==> !is_blank(name@),
        r matches Err(v) ==> v@.map_values(|s: String| s@) == name_errors(name@),
{
    if crate::text::str_is_blank(name) {
        let mut v: Vec<String> = Vec::new();
        v.push(String::from_str("name is required"));
        proof {
            assert(v@.map_values(|s: String| s@) =~= name_errors(name@));
        }
        Err(v)
    } else {
        Ok(())
    }
}

impl RoleBuilder {
    /// A role named `name` with no description and no permissions.
    pub fn new(name: &str) -> (r: Self)
        ensures
            r.name@ == name@,
            r.description is None,
            r.permission_ids@ == Seq::<u128>::empty(),
    {
        RoleBuilder { name: String::from_str(name), description: None, permission_ids: Vec::new() }
    }

    /// The role with description `desc`.
    pub fn description(self, desc: &str) -> (r: Self)
        ensures
            r.name == self.name,
            r.description matches Some(d) && d@ == desc@,
            r.permission_ids == self.permission_ids,
    {
        RoleBuilder { description: Some(String::from_str(desc)), ..self }
    }

    /// The role with one more permission.
    pub fn with_permission(self, permission_id: u128) -> (r: Self)
        ensures
            r.name == self.name,
            r.description == self.description,
            r.permission_ids@ == self.permission_ids@.push(permission_id),
    {
        let mut ids = self.permission_ids;
        ids.push(permission_id);
        RoleBuilder { permission_ids: ids, ..self }
    }

    /// The role with the given permissions added, in order.
    pub fn with_permissions(self, permission_ids: Vec<u128>) -> (r: Self)
        ensures
            r.name == self.name,
            r.description == self.description,
            r.permission_ids@ == self.permission_ids@ + permission_ids@,
    {
        let mut ids = self.permission_ids;
        let ghost start = ids@;
        let mut i: usize = 0;
        while i < permission_ids.len()
            invariant
                i <= permission_ids@.len(),
                ids@ == start + permission_ids@.take(i as int),
            decreases permission_ids@.len() - i,
        {
            ids.push(permission_ids[i]);
            proof {
                assert(permission_ids@.take(i + 1) =~= permission_ids@.take(i as int).push(permission_ids@[i as int]));
            }
            i = i + 1;
        }
        proof {
            assert(permission_ids@.take(permission_ids@.len() as int) =~= permission_ids@);
        }
        RoleBuilder { permission_ids: ids, ..self }
    }

    /// The role record and the permissions to link to it; a blank name is an error.
    pub fn build(self) -> (r: Result<(NewRole, Vec<u128>), Vec<String>>)
        ensures
            r is Ok <==> !is_blank(self.name@),
            r matches Ok((role, ids)) ==> role.name == self.name && role.description == self.description
                && ids@ == self.permission_ids@,
            r matches Err(v) ==> v@.map_values(|s: String| s@) == name_errors(self.name@),
    {
        match check_name(self.name.as_str()) {
            Ok(()) => Ok((NewRole { name: self.name, description: self.description }, self.permission_ids)),
            Err(v) => Err(v),
        }
    }
}

} // verus!
