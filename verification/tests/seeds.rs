use backend::gameevent::code::GameEventCode;
use backend::seed::game_events::seed_game_events;
use backend::models::permission::{AppAction, AppResource};
use backend::models::role::AppRole;
use backend::seed::defaults::{add_super_user, insert_system_default_data, DEFAULT_PASSWORD};
use backend::seed::demo::{create_tournament_applicants, team_quizzer_names};

#[test]
fn applicants_are_pending_declined_and_approved() {
    let a = create_tournament_applicants();
    assert_eq!(a.len(), 3);
    assert_eq!(a[0].status, "pending");
    assert_eq!(a[0].user.username, "alex.torres");
    assert_eq!(a[0].user.roles, vec![AppRole::Member]);
    assert_eq!(a[1].status, "declined");
    assert_eq!(a[1].user.email, "jordan.blake@fakeemail.com");
    assert_eq!(a[2].status, "approved");
    assert_eq!(a[2].user.roles, vec![AppRole::Member, AppRole::TournamentManager]);
    assert_eq!(a[2].request_context, Some("Looking to organize a national qualifier event for our division.".to_string()));
    assert_eq!(a[2].user.password, DEFAULT_PASSWORD);
}

#[test]
fn default_data_has_every_permission_and_four_roles() {
    let d = insert_system_default_data();
    assert_eq!(d.permissions.len(), 32);
    assert_eq!(d.permissions[0].record.name, "tournament:create");
    assert_eq!(d.permissions[5].record.name, "division:read");
    assert_eq!(d.permissions[31].key, (AppResource::User, AppAction::Delete));
    assert_eq!(d.roles.len(), 4);
    assert_eq!(d.roles[0].record.name, "member");
    assert_eq!(d.roles[0].permissions.len(), 8);
    assert!(d.roles[0].permissions.iter().all(|(_, a)| *a == AppAction::Read));
    assert_eq!(d.roles[1].permissions, vec![
        (AppResource::Tournament, AppAction::Create),
        (AppResource::Tournament, AppAction::Update),
        (AppResource::Tournament, AppAction::Delete),
    ]);
    assert!(!d.roles[1].permissions.contains(&(AppResource::Division, AppAction::Create)));
    assert_eq!(d.roles[2].permissions, vec![
        (AppResource::Tournament, AppAction::Update),
        (AppResource::Tournament, AppAction::Delete),
    ]);
    assert_eq!(d.roles[3].permissions.len(), 32);
    assert_eq!(d.super_user.username, "superuser");
    assert_eq!(d.super_user.roles, vec![AppRole::Member, AppRole::SuperUser]);
}

#[test]
fn super_user_is_a_member_and_a_super_user() {
    let u = add_super_user();
    assert_eq!(u.fname, "Super");
    assert_eq!(u.lname, "User");
    assert_eq!(u.email, "superuser@fakeemail.com");
    assert!(u.activated);
}

#[test]
fn quizzer_names_are_trimmed_distinct_and_in_seat_order() {
    let users = vec![
        Some(("Ann".to_string(), "Lee".to_string())),
        None,
        Some(("  Bo".to_string(), "".to_string())),
        Some(("Ann".to_string(), "Lee".to_string())),
        Some(("".to_string(), "".to_string())),
        Some(("Cy".to_string(), "Po ".to_string())),
    ];
    assert_eq!(team_quizzer_names(&users), vec!["Ann Lee".to_string(), "Bo".to_string(), "Cy Po".to_string()]);
    assert!(team_quizzer_names(&vec![None, None]).is_empty());
}

#[test]
fn seeded_game_events_follow_the_generator() {
    let left = vec!["Ann Lee".to_string(), "Bo Kim".to_string()];
    let right = vec!["Cy Dee".to_string()];
    let evs = seed_game_events(7, "Eagles", &left, "Hawks", &right);
    assert_eq!(evs.len(), 36);
    let codes: Vec<GameEventCode> = evs.iter().take(10).map(|e| e.code).collect();
    assert_eq!(codes, vec![
        GameEventCode::RM, GameEventCode::QT, GameEventCode::TN, GameEventCode::QN,
        GameEventCode::QN, GameEventCode::SC, GameEventCode::SS, GameEventCode::TN,
        GameEventCode::QN, GameEventCode::SC,
    ]);
    assert_eq!(evs[7].name, "Hawks");
    assert_eq!(evs[7].eventnum, 7);
    assert_eq!(evs[9].name, "Cy Dee");
    assert_eq!((evs[10].question, evs[10].eventnum, evs[10].code), (1, 10, GameEventCode::TC));
    assert_eq!((evs[10].name.as_str(), evs[10].team, evs[10].quizzer), ("Bo Kim", 0, 1));
    assert_eq!((evs[11].question, evs[11].eventnum, evs[11].code), (2, 0, GameEventCode::NJ));
    assert_eq!(evs[11].name, "No Jump");
    assert_eq!((evs[16].question, evs[16].code, evs[16].team, evs[16].quizzer), (7, GameEventCode::TE, 0, 1));
    assert_eq!((evs[17].question, evs[17].eventnum, evs[17].code), (7, 1, GameEventCode::BC));
    assert_eq!((evs[17].name.as_str(), evs[17].team, evs[17].quizzer), ("Cy Dee", 1, 0));
    assert_eq!((evs[35].question, evs[35].code, evs[35].name.as_str()), (20, GameEventCode::BC, "Bo Kim"));
    // Each event is stamped one minute after the one before.
    for k in 1..evs.len() {
        assert_eq!(evs[k].clientts - evs[k - 1].clientts, 60_000_000);
    }
    assert!(evs[0].clientts > 1_600_000_000_000_000);
}

#[test]
fn no_events_are_seeded_without_quizzers_on_both_sides() {
    let left = vec!["Ann Lee".to_string()];
    let none: Vec<String> = Vec::new();
    assert!(seed_game_events(7, "Eagles", &left, "Hawks", &none).is_empty());
    assert!(seed_game_events(7, "Eagles", &none, "Hawks", &left).is_empty());
}

#[test]
fn every_seeded_toss_up_names_the_quizzer_in_its_seat() {
    let left = vec!["Ann Lee".to_string(), "Bo Kim".to_string(), "Cal Ng".to_string()];
    let right = vec!["Cy Dee".to_string(), "Di Fox".to_string()];
    for gid in [1u128, 99, 0xffff_0000_ffff_0000_1234_5678_9abc_def0] {
        let evs = seed_game_events(gid, "Eagles", &left, "Hawks", &right);
        let setup = 2 + (1 + 3 + 2) + (1 + 2 + 2);
        assert_eq!(evs[setup].question, 1);
        assert_eq!(evs[setup].eventnum, setup as i32);
        for e in &evs[setup..] {
            if e.code == GameEventCode::NJ {
                assert_eq!((e.name.as_str(), e.team, e.quizzer), ("No Jump", 0, 0));
            } else {
                let list = if e.team == 0 { &left } else { &right };
                assert!(e.team == 0 || e.team == 1);
                assert_eq!(e.name, list[e.quizzer as usize]);
            }
        }
        assert_eq!(evs.last().unwrap().question, 20);
    }
}
