use backend::models::game::{compute_room_sequence, create_refusal, placed_game, GameBuilder};
use backend::models::gameevent_import::{
    game_has_records_beyond_initialization, missing_games, parse_groups, parse_i32_text, parse_ts, plan_import,
    split_line_fields, validate_sequence, GameLookup, GameRef, Group,
};
use backend::gameevent::event::GameEvent;

fn row(q: i32, e: i32, code: &str) -> String {
    format!("G,Tour,Div A,Room 1,1,{},{},Red,0,1,{},p1,p2,2024-01-02-03.04.05.000", q, e, code)
}

#[test]
fn fields_split_at_commas_outside_quotes() {
    assert_eq!(split_line_fields("a,'b,c',d"), vec!["a".to_string(), "b,c".to_string(), "d".to_string()]);
    assert_eq!(split_line_fields(""), vec!["".to_string()]);
    assert_eq!(split_line_fields("x,,"), vec!["x".to_string(), "".to_string(), "".to_string()]);
}

#[test]
fn integers_read_as_i32_reads_them() {
    assert_eq!(parse_i32_text("42"), Some(42));
    assert_eq!(parse_i32_text("-7"), Some(-7));
    assert_eq!(parse_i32_text("+3"), Some(3));
    assert_eq!(parse_i32_text("2147483647"), Some(i32::MAX));
    assert_eq!(parse_i32_text("-2147483648"), Some(i32::MIN));
    assert_eq!(parse_i32_text("2147483648"), None);
    assert_eq!(parse_i32_text("99999999999999999999"), None);
    assert_eq!(parse_i32_text("-"), None);
    assert_eq!(parse_i32_text(""), None);
    assert_eq!(parse_i32_text("1a"), None);
    assert_eq!(parse_i32_text(" 1"), None);
}

#[test]
fn export_times_read_as_utc_microseconds() {
    assert_eq!(parse_ts(" 2024-01-02-03.04.05.000 "), 1_704_164_645_000_000);
    assert_eq!(parse_ts("2024-01-02-03.04.05.5"), 1_704_164_645_500_000);
}

#[test]
fn rows_group_by_game_in_key_order() {
    let csv = format!(
        "{}\n\n{}\r\n{}\nG,Tour,Div A,Room 0,1,x,0,Red,0,1,TC,,,t\nshort,row\nG,Tour,Div A,Room 0,1,1,0,Red,0,1,ZZ,,,t\n",
        row(1, 0, "TC"), row(1, 1, "BC"), row(2, 0, "NJ")
    );
    let groups = parse_groups(&csv);
    assert_eq!(groups.len(), 3);
    // The empty key sorts first.
    assert_eq!(groups[0].tournament, "");
    assert_eq!(groups[0].parse_errors, vec!["expected 14 columns but found 2".to_string()]);
    assert_eq!(groups[1].room, "Room 0");
    assert_eq!(
        groups[1].parse_errors,
        vec!["question number 'x' is not an integer".to_string(), "unknown event code 'ZZ'".to_string()]
    );
    assert_eq!(groups[2].room, "Room 1");
    assert_eq!(groups[2].rows.len(), 3);
    assert_eq!(groups[2].rows[1].event_code, "BC");
    assert_eq!(groups[2].rows[2].question, 2);
    assert_eq!(groups[2].rows[0].client_ts, "2024-01-02-03.04.05.000");
    assert!(groups[2].parse_errors.is_empty());
}

fn group_of(rows: &[(i32, i32)]) -> Group {
    let csv: Vec<String> = rows.iter().map(|(q, e)| row(*q, *e, "TC")).collect();
    parse_groups(&csv.join("\n")).pop().unwrap()
}

#[test]
fn numbering_must_run_without_gaps() {
    assert_eq!(validate_sequence(&group_of(&[(1, 0), (1, 1), (2, 0)])), None);
    assert_eq!(
        validate_sequence(&group_of(&[(2, 0), (3, 0)])),
        Some("question numbers are not sequential (a gap was found near question 2)".to_string())
    );
    assert_eq!(
        validate_sequence(&group_of(&[(1, 0), (2, 0), (4, 0)])),
        Some("question numbers are not sequential (a gap was found near question 3)".to_string())
    );
    assert_eq!(
        validate_sequence(&group_of(&[(1, 0), (1, 0)])),
        Some("question 1 has duplicate event numbers".to_string())
    );
    assert_eq!(
        validate_sequence(&group_of(&[(1, 0), (1, 2)])),
        Some("question 1 is missing event number 1".to_string())
    );
}

#[test]
fn import_plan_sorts_games_by_fate() {
    let csv = format!("{}\n{}\nG,Other,Div A,Room 2,1,1,0,Red,0,1,TC,,,t\nG,Tour,Div B,Room 3,1,2,0,Red,0,1,TC,,,t", row(1, 0, "TC"), row(1, 1, "NJ"));
    let groups = parse_groups(&csv);
    assert_eq!(groups.len(), 3);
    let lookups = vec![
        GameLookup::Found { gid: 11, roomid: 21, beyond_initialization: false },
        GameLookup::Found { gid: 12, roomid: 22, beyond_initialization: false },
        GameLookup::Found { gid: 13, roomid: 23, beyond_initialization: false },
    ];
    let plan = plan_import(&groups, "Tour", &lookups);
    // In key order: the other tournament's game, then Div A, then Div B.
    assert_eq!(plan.importable.len(), 1);
    assert_eq!(plan.importable[0].gid, 12);
    assert_eq!(plan.importable[0].event_count, 2);
    assert_eq!(plan.inserts[0].1[1].event, "NJ");
    assert_eq!(plan.inserts[0].1[0].clientts, 1_704_164_645_000_000);
    assert_eq!(plan.errors.len(), 1);
    assert_eq!(plan.errors[0].division, "Div B");
    assert_eq!(plan.errors[0].message, "question numbers are not sequential (a gap was found near question 2)");
    assert_eq!(plan.games_not_found.len(), 1);
    assert_eq!(plan.games_not_found[0].room, "Room 2");
    assert_eq!(plan.found_gids, vec![12, 13]);
    assert_eq!(plan.referenced_rooms, vec![22, 23]);
    let refused = plan_import(&groups, "Tour", &vec![
        GameLookup::NotFound,
        GameLookup::Found { gid: 11, roomid: 21, beyond_initialization: true },
        GameLookup::NotFound,
    ]);
    assert_eq!(refused.errors[0].message, "This game already has game events beyond initialization; import skipped.");
    assert_eq!(refused.games_not_found.len(), 2);
}

#[test]
fn parse_errors_are_reported_joined() {
    let groups = parse_groups("G,T,D,R,1,a,b\nG,T,D,R,1,x,0,N,0,1,TC,,,t");
    let plan = plan_import(&groups, "T", &vec![GameLookup::NotFound]);
    assert_eq!(plan.errors[0].message, "Parsing error: expected 14 columns but found 7; question number 'x' is not an integer");
}

#[test]
fn missing_games_are_those_not_matched() {
    let r = |d: &str| GameRef { division: d.to_string(), room: "R".to_string(), round: "1".to_string() };
    let left = missing_games(&vec![(1, r("a")), (2, r("b")), (3, r("c"))], &vec![2]);
    assert_eq!(left.len(), 2);
    assert_eq!(left[0].division, "a");
    assert_eq!(left[1].division, "c");
}

fn event(code: &str) -> GameEvent {
    GameEvent {
        gid: 1, question: 1, eventnum: 0, name: String::new(), team: 0, quizzer: 0, event: code.to_string(),
        parm1: String::new(), parm2: String::new(), clientts: 0, serverts: 0, md5digest: String::new(),
    }
}

#[test]
fn setup_events_are_not_records_beyond_initialization() {
    assert!(!game_has_records_beyond_initialization(&vec![event("RM"), event("QT"), event("TN"), event("SS")]));
    assert!(game_has_records_beyond_initialization(&vec![event("RM"), event("TC")]));
    assert!(!game_has_records_beyond_initialization(&vec![]));
}

#[test]
fn game_builder_requires_its_fields() {
    let err = GameBuilder::new(1, 2).build().err().unwrap();
    assert_eq!(err, vec![
        "org is required".to_string(), "ignore is required".to_string(), "ruleset is required".to_string(),
        "leftteamid is required".to_string(), "rightteamid is required".to_string(), "quizmasterid is required".to_string(),
    ]);
    let g = GameBuilder::new_default(1, 2).set_leftteamid(3).set_rightteamid(4).set_quizmasterid(5).build().ok().unwrap();
    assert_eq!(g.org, "Nazarene");
    assert_eq!(g.ruleset, "Tournament");
    assert_eq!(g.poolbracket_id, 0);
    assert_eq!(g.last_modified_user, 5);
    assert_eq!(g.creator_id, 5);
    assert_eq!(g.clientkey, "");
    let g2 = GameBuilder::new_default(1, 2).set_leftteamid(3).set_rightteamid(4).set_quizmasterid(5).set_creator_id(9).build().ok().unwrap();
    assert_eq!(g2.creator_id, 9);
}

#[test]
fn games_are_numbered_within_their_rooms() {
    let games = vec![(30, 1, Some(200)), (10, 1, None), (20, 1, Some(100)), (40, 2, None), (5, 1, Some(200))];
    assert_eq!(compute_room_sequence(&games), vec![(30, 3), (10, 4), (20, 1), (40, 1), (5, 2)]);
}

#[test]
fn splitting_a_quote_free_line_and_joining_gives_it_back() {
    for line in ["a,b,,c", "", ",", "GUID,Tournament,Senior,Room 1,1,3,0,Red,0,2,TC,,,2024-01-02-03.04.05.000"] {
        let f = split_line_fields(line);
        assert_eq!(f.join(","), line);
        assert_eq!(f.len(), 1 + line.matches(',').count());
    }
}

#[test]
fn a_new_game_is_refused_for_the_first_failing_check() {
    // GameBuilder::new_default(room, round)
    let g = GameBuilder::new_default(0x20, 0x67e5504410b1426f9247bb680e5fe0c8).set_leftteamid(3).set_rightteamid(4).set_quizmasterid(5).build().ok().unwrap();
    assert_eq!(create_refusal(&g, false, false, true, true, true), Some("Error: Round with ID 67e55044-10b1-426f-9247-bb680e5fe0c8 does not exist".to_string()));
    assert_eq!(create_refusal(&g, true, false, true, true, true), Some("Error: Room with ID 00000000-0000-0000-0000-000000000020 does not exist".to_string()));
    assert_eq!(create_refusal(&g, true, true, true, true, false), Some("Error: User (QuizMaster) with ID 00000000-0000-0000-0000-000000000005 does not exist".to_string()));
    assert_eq!(create_refusal(&g, true, true, true, true, true), None);
    let same = GameBuilder::new_default(1, 2).set_leftteamid(3).set_rightteamid(3).set_quizmasterid(5).build().ok().unwrap();
    assert_eq!(create_refusal(&same, true, true, true, true, true), Some("leftteamid and rightteamid cannot be the same".to_string()));
    let center = GameBuilder::new_default(1, 2).set_leftteamid(3).set_rightteamid(4).set_centerteamid(Some(4)).set_quizmasterid(5).build().ok().unwrap();
    assert_eq!(create_refusal(&center, true, true, true, true, true), Some("centerteamid and rightteamid cannot be the same".to_string()));
    let placed = placed_game(g, 70, 80);
    assert_eq!((placed.tournamentid, placed.divisionid), (Some(80), Some(70)));
    let with_tournament = GameBuilder::new_default(1, 2).set_tournamentid(Some(9)).set_leftteamid(3).set_rightteamid(4).set_quizmasterid(5).build().ok().unwrap();
    let placed = placed_game(with_tournament, 70, 80);
    assert_eq!((placed.tournamentid, placed.divisionid), (Some(9), Some(70)));
}
