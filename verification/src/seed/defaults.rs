//! The baseline every database starts from: one permission per resource and action, the four
//! roles with their permission trees, and the super user.
use vstd::prelude::*;
use crate::models::permission::{action_text, resource_text, AppAction, AppResource, NewPermission, PermissionBuilder};
use crate::models::role::{role_description, role_text, AppRole, NewRole, RoleBuilder};

verus! {

/// The password that seeded users start with.
pub const DEFAULT_PASSWORD: &'static str = "Password123!";

/// A user to insert, the password in clear (it is hashed when the record is written), with
/// the roles to assign.
#[derive(Debug, Clone)]
pub struct UserSeed {
    pub fname: String,
    pub lname: String,
    pub username: String,
    pub password: String,
    pub email: String,
    pub activated: bool,
    pub roles: Vec<AppRole>,
}

/// A user seed as values.
pub struct UserSeedView {
    pub fname: Seq<char>,
    pub lname: Seq<char>,
    pub username: Seq<char>,
    pub password: Seq<char>,
    pub email: Seq<char>,
    pub activated: bool,
    pub roles: Seq<AppRole>,
}

impl View for UserSeed {
    type V = UserSeedView;

    open spec fn view(&self) -> UserSeedView {
        UserSeedView {
            fname: self.fname@,
            lname: self.lname@,
            username: self.username@,
            password: self.password@,
            email: self.email@,
            activated: self.activated,
            roles: self.roles@,
        }
    }
}

/// An activated user with the default password.
pub open spec fn user_seed(fname: Seq<char>, lname: Seq<char>, username: Seq<char>, email: Seq<char>, roles: Seq<AppRole>) -> UserSeedView {
    UserSeedView { fname, lname, username, password: DEFAULT_PASSWORD@, email, activated: true, roles }
}

pub(crate) fn make_user_seed(fname: &str, lname: &str, username: &str, email: &str, roles: Vec<AppRole>) -> (r: UserSeed)
    ensures
        r@ == user_seed(fname@, lname@, username@, email@, roles@),
{
    UserSeed {
        fname: String::from_str(fname),
        lname: String::from_str(lname),
        username: String::from_str(username),
        password: String::from_str(DEFAULT_PASSWORD),
        email: String::from_str(email),
        activated: true,
        roles: roles,
    }
}

/// The super user: a member and a super user.
pub open spec fn super_user_seed() -> UserSeedView {
    user_seed("Super"@, "User"@, "superuser"@, "superuser@fakeemail.com"@, seq![AppRole::Member, AppRole::SuperUser])
}

/// The super user to insert.
pub fn add_super_user() -> (r: UserSeed)
    ensures
        r@ == super_user_seed(),
{
    let mut roles: Vec<AppRole> = Vec::new();
    roles.push(AppRole::Member);
    roles.push(AppRole::SuperUser);
    proof {
        assert(roles@ =~= seq![AppRole::Member, AppRole::SuperUser]);
    }
    make_user_seed("Super", "User", "superuser", "superuser@fakeemail.com", roles)
}

/// Every resource, in declaration order.
pub open spec fn all_resources() -> Seq<AppResource> {
    seq![
        AppResource::Tournament, AppResource::Division, AppResource::Round, AppResource::Room,
        AppResource::RoomMonitor, AppResource::Game, AppResource::Team, AppResource::User,
    ]
}

/// Every action, in declaration order.
pub open spec fn all_actions() -> Seq<AppAction> {
    seq![AppAction::Create, AppAction::Read, AppAction::Update, AppAction::Delete]
}

/// A permission, as its resource and action.
pub type PermissionKey = (AppResource, AppAction);

/// The permissions about one resource, one per action.
pub open spec fn keys_of(r: AppResource, actions: Seq<AppAction>) -> Seq<PermissionKey> {
    actions.map_values(|a: AppAction| (r, a))
}

/// The permissions about the first `n` resources, resource by resource.
pub open spec fn keys_upto(resources: Seq<AppResource>, actions: Seq<AppAction>, n: int) -> Seq<PermissionKey>
    decreases n,
{
    if n <= 0 {
        seq![]
    } else {
        keys_upto(resources, actions, n - 1) + keys_of(resources[n - 1], actions)
    }
}

/// Every permission: each resource with each action.
pub open spec fn permission_keys() -> Seq<PermissionKey> {
    keys_upto(all_resources(), all_actions(), 8)
}

/// A tournament manager's permissions: creating, updating and deleting tournaments (reading
/// comes with the member role).
pub open spec fn manager_keys() -> Seq<PermissionKey> {
    seq![
        (AppResource::Tournament, AppAction::Create),
        (AppResource::Tournament, AppAction::Update),
        (AppResource::Tournament, AppAction::Delete),
    ]
}

/// A tournament admin's permissions: a tournament manager's but creating tournaments.
pub open spec fn admin_keys() -> Seq<PermissionKey> {
    seq![(AppResource::Tournament, AppAction::Update), (AppResource::Tournament, AppAction::Delete)]
}

/// The permissions of each role: members read everything; managers create, update and delete
/// tournaments; admins update and delete them; super users hold every permission.
pub open spec fn role_keys(r: AppRole) -> Seq<PermissionKey> {
    match r {
        AppRole::Member => all_resources().map_values(|x: AppResource| (x, AppAction::Read)),
        AppRole::TournamentManager => manager_keys(),
        AppRole::TournamentAdmin => admin_keys(),
        AppRole::SuperUser => permission_keys(),
    }
}

/// A permission is among those of the first `n` resources exactly when its resource is one
/// of them and its action is one of the actions.
pub proof fn lemma_keys_upto_contains(rs: Seq<AppResource>, acts: Seq<AppAction>, n: int, k: PermissionKey)
    requires
        0 <= n <= rs.len(),
    ensures
        keys_upto(rs, acts, n).contains(k) <==> (rs.take(n).contains(k.0) && acts.contains(k.1)),
    decreases n,
{
    if n > 0 {
        lemma_keys_upto_contains(rs, acts, n - 1, k);
        let a = keys_upto(rs, acts, n - 1);
        let b = keys_of(rs[n - 1], acts);
        assert(rs.take(n) =~= rs.take(n - 1).push(rs[n - 1]));
        if keys_upto(rs, acts, n).contains(k) {
            let i = choose|i: int| 0 <= i < (a + b).len() && (a + b)[i] == k;
            if i >= a.len() {
                assert(b[i - a.len()] == k);
                assert(acts[i - a.len()] == k.1);
                assert(rs.take(n)[n - 1] == k.0);
            } else {
                assert(a[i] == k);
                assert(a.contains(k));
                let j = choose|j: int| 0 <= j < rs.take(n - 1).len() && #[trigger] rs.take(n - 1)[j] == k.0;
                assert(rs.take(n)[j] == k.0);
            }
        }
        if rs.take(n).contains(k.0) && acts.contains(k.1) {
            let j = choose|j: int| 0 <= j < rs.take(n).len() && #[trigger] rs.take(n)[j] == k.0;
            let m = choose|m: int| 0 <= m < acts.len() && #[trigger] acts[m] == k.1;
            if j == n - 1 {
                assert(b[m] == k);
                assert((a + b)[a.len() + m] == k);
            } else {
                assert(rs.take(n - 1)[j] == k.0);
                assert(a.contains(k));
                let i = choose|i: int| 0 <= i < a.len() && a[i] == k;
                assert((a + b)[i] == k);
            }
        }
    }
}

/// Which permissions a tournament manager holds, which a tournament admin holds, and which a
/// super user holds.
proof fn lemma_role_contains(k: PermissionKey)
    ensures
        manager_keys().contains(k) <==> (k.0 == AppResource::Tournament && k.1 != AppAction::Read),
        admin_keys().contains(k) <==> (k.0 == AppResource::Tournament && (k.1 == AppAction::Update || k.1 == AppAction::Delete)),
        permission_keys().contains(k) <==> (all_resources().contains(k.0) && all_actions().contains(k.1)),
{
    lemma_keys_upto_contains(all_resources(), all_actions(), 8, k);
    assert(all_resources().take(8) =~= all_resources());
    let m = manager_keys();
    let d = admin_keys();
    if m.contains(k) {
        let i = choose|i: int| 0 <= i < m.len() && m[i] == k;
        assert(m[i] == k);
    }
    if d.contains(k) {
        let i = choose|i: int| 0 <= i < d.len() && d[i] == k;
        assert(d[i] == k);
    }
    if k.0 == AppResource::Tournament {
        match k.1 {
            AppAction::Create => { assert(m[0] == k); },
            AppAction::Update => { assert(m[1] == k); assert(d[0] == k); },
            AppAction::Delete => { assert(m[2] == k); assert(d[1] == k); },
            AppAction::Read => {},
        }
    }
    lemma_resource_lists(k.0);
    lemma_action_lists(k.1);
}

proof fn lemma_resource_lists(r: AppResource)
    ensures
        all_resources().contains(r),
{
    let a = all_resources();
    match r {
        AppResource::Tournament => { assert(a[0] == r); },
        AppResource::Division => { assert(a[1] == r); },
        AppResource::Round => { assert(a[2] == r); },
        AppResource::Room => { assert(a[3] == r); },
        AppResource::RoomMonitor => { assert(a[4] == r); },
        AppResource::Game => { assert(a[5] == r); },
        AppResource::Team => { assert(a[6] == r); },
        AppResource::User => { assert(a[7] == r); },
    }
}

proof fn lemma_action_lists(x: AppAction)
    ensures
        all_actions().contains(x),
{
    match x {
        AppAction::Create => {
            assert(all_actions()[0] == x);
        },
        AppAction::Read => {
            assert(all_actions()[1] == x);
        },
        AppAction::Update => {
            assert(all_actions()[2] == x);
        },
        AppAction::Delete => {
            assert(all_actions()[3] == x);
        },
    }
}

/// The role tree: every role's permissions are among the super user's, who holds every
/// permission; members only read; tournament managers hold exactly creating, updating and
/// deleting tournaments; tournament admins hold exactly the tournament managers' permissions
/// but creating tournaments.
pub proof fn law_role_tree(k: PermissionKey)
    ensures
        permission_keys().contains(k),
        role_keys(AppRole::TournamentManager).contains(k) <==> (k.0 == AppResource::Tournament && k.1 != AppAction::Read),
        forall|r: AppRole| #[trigger] role_keys(r).contains(k) ==> role_keys(AppRole::SuperUser).contains(k),
        role_keys(AppRole::Member).contains(k) ==> k.1 == AppAction::Read,
        role_keys(AppRole::TournamentAdmin).contains(k) <==> (role_keys(AppRole::TournamentManager).contains(k)
            && k != (AppResource::Tournament, AppAction::Create)),
{
    lemma_role_contains(k);
    if role_keys(AppRole::Member).contains(k) {
        let m = all_resources().map_values(|x: AppResource| (x, AppAction::Read));
        let i = choose|i: int| 0 <= i < m.len() && m[i] == k;
        assert(m[i] == (all_resources()[i], AppAction::Read));
    }
}

/// The name of a permission: "resource:action".
pub open spec fn permission_name(k: PermissionKey) -> Seq<char> {
    resource_text(k.0) + ":"@ + action_text(k.1)
}

/// A permission to insert, with the key it stands for.
pub struct PermissionSeed {
    pub key: PermissionKey,
    pub record: NewPermission,
}

/// Whether a permission record is the one of `key`.
pub open spec fn permission_record_of(p: NewPermission, key: PermissionKey) -> bool {
    &&& p.name@ == permission_name(key)
    &&& p.resource matches Some(x) && x@ == resource_text(key.0)
    &&& p.action matches Some(x) && x@ == action_text(key.1)
}

/// A role to insert, with the permissions to link to it.
pub struct RoleSeed {
    pub role: AppRole,
    pub record: NewRole,
    pub permissions: Vec<PermissionKey>,
}

/// Whether a role seed is the one of `role`.
pub open spec fn role_seed_of(s: RoleSeed, role: AppRole) -> bool {
    &&& s.role == role
    &&& s.record.name@ == role_text(role)
    &&& s.record.description matches Some(d) && d@ == role_description(role)
    &&& s.permissions@ == role_keys(role)
}

/// The roles, in declaration order.
pub open spec fn all_roles() -> Seq<AppRole> {
    seq![AppRole::Member, AppRole::TournamentManager, AppRole::TournamentAdmin, AppRole::SuperUser]
}

fn resources_list() -> (v: Vec<AppResource>)
    ensures
        v@ == all_resources(),
{
    let v = vec![
        AppResource::Tournament, AppResource::Division, AppResource::Round, AppResource::Room,
        AppResource::RoomMonitor, AppResource::Game, AppResource::Team, AppResource::User,
    ];
    proof {
        assert(v@ =~= all_resources());
    }
    v
}

fn actions_list() -> (v: Vec<AppAction>)
    ensures
        v@ == all_actions(),
{
    let v = vec![AppAction::Create, AppAction::Read, AppAction::Update, AppAction::Delete];
    proof {
        assert(v@ =~= all_actions());
    }
    v
}

/// The keys of every resource in `resources` with every action in `actions`.
fn keys_product(resources: &Vec<AppResource>, actions: &Vec<AppAction>) -> (v: Vec<PermissionKey>)
    ensures
        v@ == keys_upto(resources@, actions@, resources@.len() as int),
{
    let mut v: Vec<PermissionKey> = Vec::new();
    let mut i: usize = 0;
    while i < resources.len()
        invariant
            i <= resources@.len(),
            v@ == keys_upto(resources@, actions@, i as int),
        decreases resources@.len() - i,
    {
        let ghost start = v@;
        let mut j: usize = 0;
        while j < actions.len()
            invariant
                i < resources@.len(),
                j <= actions@.len(),
                v@ == start + keys_of(resources@[i as int], actions@).take(j as int),
            decreases actions@.len() - j,
        {
            v.push((resources[i], actions[j]));
            proof {
                assert(keys_of(resources@[i as int], actions@).take(j + 1)
                    =~= keys_of(resources@[i as int], actions@).take(j as int).push((resources@[i as int], actions@[j as int])));
            }
            j = j + 1;
        }
        proof {
            assert(keys_of(resources@[i as int], actions@).take(actions@.len() as int) =~= keys_of(resources@[i as int], actions@));
        }
        i = i + 1;
    }
    v
}

/// The permissions of a role.
fn keys_of_role(role: AppRole) -> (v: Vec<PermissionKey>)
    ensures
        v@ == role_keys(role),
{
    match role {
        AppRole::Member => {
            let rs = resources_list();
            let mut v: Vec<PermissionKey> = Vec::new();
            let mut i: usize = 0;
            while i < rs.len()
                invariant
                    i <= rs@.len(),
                    rs@ == all_resources(),
                    v@ == all_resources().map_values(|x: AppResource| (x, AppAction::Read)).take(i as int),
                decreases rs@.len() - i,
            {
                v.push((rs[i], AppAction::Read));
                proof {
                    assert(all_resources().map_values(|x: AppResource| (x, AppAction::Read)).take(i + 1)
                        =~= v@);
                }
                i = i + 1;
            }
            proof {
                assert(all_resources().map_values(|x: AppResource| (x, AppAction::Read)).take(8)
                    =~= all_resources().map_values(|x: AppResource| (x, AppAction::Read)));
            }
            v
        },
        AppRole::SuperUser => {
            let rs = resources_list();
            let acts = actions_list();
            keys_product(&rs, &acts)
        },
        AppRole::TournamentManager => {
            let v = vec![
                (AppResource::Tournament, AppAction::Create),
                (AppResource::Tournament, AppAction::Update),
                (AppResource::Tournament, AppAction::Delete),
            ];
            proof {
                assert(v@ =~= manager_keys());
            }
            v
        },
        AppRole::TournamentAdmin => {
            let v = vec![(AppResource::Tournament, AppAction::Update), (AppResource::Tournament, AppAction::Delete)];
            proof {
                assert(v@ =~= admin_keys());
            }
            v
        },
    }
}

/// The permission record of a key.
fn permission_record(key: PermissionKey) -> (r: NewPermission)
    ensures
        permission_record_of(r, key),
{
    let name = String::from_str(key.0.as_str()).concat(":").concat(key.1.as_str());
    let b = PermissionBuilder::new(name.as_str()).resource(key.0.as_str()).action(key.1.as_str());
    NewPermission { name: b.name, resource: b.resource, action: b.action }
}

/// Every permission record, and the four roles with their permission trees.
pub fn init_roles_and_permissions() -> (r: (Vec<PermissionSeed>, Vec<RoleSeed>))
    ensures
        r.0@.len() == permission_keys().len(),
        forall|k: int| 0 <= k < r.0@.len() ==> (#[trigger] r.0@[k]).key == permission_keys()[k]
            && permission_record_of(r.0@[k].record, permission_keys()[k]),
        r.1@.len() == 4,
        forall|k: int| 0 <= k < 4 ==> role_seed_of(#[trigger] r.1@[k], all_roles()[k]),
{
    let keys = keys_of_role(AppRole::SuperUser);
    let mut perms: Vec<PermissionSeed> = Vec::new();
    let mut i: usize = 0;
    while i < keys.len()
        invariant
            i <= keys@.len(),
            keys@ == permission_keys(),
            perms@.len() == i,
            forall|k: int| 0 <= k < i ==> (#[trigger] perms@[k]).key == permission_keys()[k]
                && permission_record_of(perms@[k].record, permission_keys()[k]),
        decreases keys@.len() - i,
    {
        let key = keys[i];
        perms.push(PermissionSeed { key: key, record: permission_record(key) });
        i = i + 1;
    }
    let roles = vec![AppRole::Member, AppRole::TournamentManager, AppRole::TournamentAdmin, AppRole::SuperUser];
    proof {
        assert(roles@ =~= all_roles());
    }
    let mut seeds: Vec<RoleSeed> = Vec::new();
    let mut j: usize = 0;
    while j < 4
        invariant
            j <= 4,
            roles@ == all_roles(),
            seeds@.len() == j,
            forall|k: int| 0 <= k < j ==> role_seed_of(#[trigger] seeds@[k], all_roles()[k]),
        decreases 4 - j,
    {
        let role = roles[j];
        let record = NewRole {
            name: String::from_str(role.as_str()),
            description: Some(String::from_str(role.description())),
        };
        seeds.push(RoleSeed { role: role, record: record, permissions: keys_of_role(role) });
        j = j + 1;
    }
    (perms, seeds)
}

/// Everything a fresh database starts with.
pub struct SystemDefaultData {
    pub permissions: Vec<PermissionSeed>,
    pub roles: Vec<RoleSeed>,
    pub super_user: UserSeed,
}

/// The baseline of a fresh database: every permission, the four roles with their permission
/// trees, and the super user (a member and a super user).
pub fn insert_system_default_data() -> (r: SystemDefaultData)
    ensures
        r.permissions@.len() == permission_keys().len(),
        forall|k: int| 0 <= k < r.permissions@.len() ==> (#[trigger] r.permissions@[k]).key == permission_keys()[k]
            && permission_record_of(r.permissions@[k].record, permission_keys()[k]),
        r.roles@.len() == 4,
        forall|k: int| 0 <= k < 4 ==> role_seed_of(#[trigger] r.roles@[k], all_roles()[k]),
        r.super_user@ == super_user_seed(),
{
    let (permissions, roles) = init_roles_and_permissions();
    SystemDefaultData { permissions, roles, super_user: add_super_user() }
}

} // verus!
