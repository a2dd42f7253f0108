//! Demonstration data: applicants for running tournaments, and the quizzer names of a team.
use vstd::prelude::*;
use crate::models::role::AppRole;
use crate::seed::defaults::{make_user_seed, user_seed, UserSeed, UserSeedView};
use crate::text::{contains_str, trim, trim_str};

verus! {

/// A user who asked to run tournaments, the answer so far, and what they wrote.
pub struct ApplicantSeed {
    pub user: UserSeed,
    pub status: String,
    pub request_context: Option<String>,
}

/// An applicant as values.
pub struct ApplicantView {
    pub user: UserSeedView,
    pub status: Seq<char>,
    pub request_context: Option<Seq<char>>,
}

impl View for ApplicantSeed {
    type V = ApplicantView;

    open spec fn view(&self) -> ApplicantView {
        ApplicantView {
            user: self.user@,
            status: self.status@,
            request_context: match self.request_context {
                Some(s) => Some(s@),
                None => None,
            },
        }
    }
}

/// The three applicants: one pending and one declined (members), one approved (a member and
/// a tournament manager); each user is also the applicant's last modifier.
pub open spec fn applicants() -> Seq<ApplicantView> {
    seq![
        ApplicantView {
            user: user_seed("Alex"@, "Torres"@, "alex.torres"@, "alex.torres@fakeemail.com"@, seq![AppRole::Member]),
            status: "pending"@,
            request_context: Some("I would like to host a regional tournament for my area."@),
        },
        ApplicantView {
            user: user_seed("Jordan"@, "Blake"@, "jordan.blake"@, "jordan.blake@fakeemail.com"@, seq![AppRole::Member]),
            status: "declined"@,
            request_context: Some("Requesting to run a small invitational tournament."@),
        },
        ApplicantView {
            user: user_seed("Casey"@, "Morgan"@, "casey.morgan"@, "casey.morgan@fakeemail.com"@,
                seq![AppRole::Member, AppRole::TournamentManager]),
            status: "approved"@,
            request_context: Some("Looking to organize a national qualifier event for our division."@),
        },
    ]
}

fn applicant(fname: &str, lname: &str, username: &str, email: &str, roles: Vec<AppRole>, status: &str, context: &str) -> (r: ApplicantSeed)
    ensures
        r@ == (ApplicantView {
            user: user_seed(fname@, lname@, username@, email@, roles@),
            status: status@,
            request_context: Some(context@),
        }),
{
    ApplicantSeed {
        user: make_user_seed(fname, lname, username, email, roles),
        status: String::from_str(status),
        request_context: Some(String::from_str(context)),
    }
}

/// The applicants for running tournaments that the demonstration data holds.
pub fn create_tournament_applicants() -> (r: Vec<ApplicantSeed>)
    ensures
        r@.len() == 3,
        forall|i: int| 0 <= i < 3 ==> (#[trigger] r@[i])@ == applicants()[i],
{
    let mut r: Vec<ApplicantSeed> = Vec::new();
    let mut member = Vec::new();
    member.push(AppRole::Member);
    r.push(applicant("Alex", "Torres", "alex.torres", "alex.torres@fakeemail.com", member, "pending",
        "I would like to host a regional tournament for my area."));
    let mut member = Vec::new();
    member.push(AppRole::Member);
    r.push(applicant("Jordan", "Blake", "jordan.blake", "jordan.blake@fakeemail.com", member, "declined",
        "Requesting to run a small invitational tournament."));
    let mut manager = Vec::new();
    manager.push(AppRole::Member);
    manager.push(AppRole::TournamentManager);
    proof {
        assert(manager@ =~= seq![AppRole::Member, AppRole::TournamentManager]);
    }
    r.push(applicant("Casey", "Morgan", "casey.morgan", "casey.morgan@fakeemail.com", manager, "approved",
        "Looking to organize a national qualifier event for our division."));
    proof {
        assert(r@[0].user.roles@ =~= seq![AppRole::Member]);
        assert(r@[1].user.roles@ =~= seq![AppRole::Member]);
    }
    r
}

/// The display name of a user: first and last name, trimmed.
pub open spec fn display_name(fname: Seq<char>, lname: Seq<char>) -> Seq<char> {
    trim(fname + " "@ + lname)
}

/// The names of the users in a team's six seats (`None` where a seat is empty or its user
/// cannot be read), in seat order, without blanks and without repeats.
pub open spec fn quizzer_names(users: Seq<Option<(Seq<char>, Seq<char>)>>) -> Seq<Seq<char>>
    decreases users.len(),
{
    if users.len() == 0 {
        seq![]
    } else {
        let names = quizzer_names(users.drop_last());
        match users.last() {
            Some((f, l)) => {
                let n = display_name(f, l);
                if n.len() == 0 || names.contains(n) { names } else { names.push(n) }
            },
            None => names,
        }
    }
}

/// A team's quizzer names are distinct and none is blank.
pub proof fn law_quizzer_names_distinct(users: Seq<Option<(Seq<char>, Seq<char>)>>)
    ensures
        forall|i: int, j: int| 0 <= i < j < quizzer_names(users).len() ==> quizzer_names(users)[i] != quizzer_names(users)[j],
        forall|i: int| 0 <= i < quizzer_names(users).len() ==> (#[trigger] quizzer_names(users)[i]).len() > 0,
    decreases users.len(),
{
    if users.len() > 0 {
        law_quizzer_names_distinct(users.drop_last());
        let names = quizzer_names(users.drop_last());
        match users.last() {
            Some((f, l)) => {
                let n = display_name(f, l);
                if !(n.len() == 0 || names.contains(n)) {
                    let r = names.push(n);
                    assert forall|i: int, j: int| 0 <= i < j < r.len() implies r[i] != r[j] by {
                        if j == r.len() - 1 {
                            assert(r[i] == names[i]);
                            assert(r[j] == n);
                        }
                    }
                }
            },
            None => {},
        }
    }
}

/// The users of a list as values.
pub open spec fn users_view(users: Seq<Option<(String, String)>>) -> Seq<Option<(Seq<char>, Seq<char>)>> {
    users.map_values(|u: Option<(String, String)>| match u {
        Some((f, l)) => Some((f@, l@)),
        None => None,
    })
}

/// The distinct display names of the users seated on a team, given each seat's user as its
/// first and last name (`None` for an empty or unreadable seat), in seat order.
pub fn team_quizzer_names(users: &Vec<Option<(String, String)>>) -> (r: Vec<String>)
    ensures
        r@.map_values(|s: String| s@) == quizzer_names(users_view(users@)),
{
    let ghost u = users_view(users@);
    let mut names: Vec<String> = Vec::new();
    let mut i: usize = 0;
    while i < users.len()
        invariant
            i <= users@.len(),
            u == users_view(users@),
            names@.map_values(|s: String| s@) == quizzer_names(u.take(i as int)),
        decreases users@.len() - i,
    {
        proof {
            assert(u.take(i + 1).drop_last() =~= u.take(i as int));
            assert(u.take(i + 1).last() == u[i as int]);
        }
        match &users[i] {
            Some((f, l)) => {
                let full = String::from_str(f.as_str()).concat(" ").concat(l.as_str());
                let name = trim_str(full.as_str());
                let ghost before = names@.map_values(|s: String| s@);
                if name.unicode_len() > 0 && !contains_str(&names, name.as_str()) {
                    names.push(name);
                    proof {
                        assert(names@.map_values(|s: String| s@) =~= before.push(name@));
                    }
                } else {
                    proof {
                        if name@.len() > 0 {
                            let k = choose|k: int| 0 <= k < names@.len() && names@[k]@ == name@;
                            assert(before[k] == name@);
                        }
                    }
                }
            },
            None => {},
        }
        i = i + 1;
    }
    proof {
        assert(u.take(users@.len() as int) =~= u);
    }
    names
}

} // verus!
