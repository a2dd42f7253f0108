use backend::models::game::{
    build_game_rows, enrich_games_with_names, game_statuses, Game, GameChangeset, GameRecordFacts,
};

const TOURNAMENT: u128 = 0x10;
const ROOM_A: u128 = 0xa1;
const ROOM_B: u128 = 0xb1;
const ROUND_1: u128 = 0x101;
const ROUND_2: u128 = 0x102;
const QM: u128 = 0x67e5504410b1426f9247bb680e5fe0c8;

fn game(gid: u128, room: u128, round: u128, left: u128, right: u128) -> Game {
    Game {
        gid,
        org: "Nazarene".to_string(),
        tournamentid: TOURNAMENT,
        divisionid: 0xd1,
        roomid: room,
        roundid: round,
        ignore: false,
        ruleset: "standard".to_string(),
        leftteamid: left,
        centerteamid: None,
        rightteamid: right,
        quizmasterid: QM,
        contentjudgeid: None,
        created_at: 100,
        updated_at: 200,
        clientkey: String::new(),
        resend_gameevents_request_ts: None,
        resend_gameevents_response: None,
        resend_request_sent_ts: None,
        last_modified_user: QM,
        creator_id: 0x77,
        del_fl: false,
        poolbracket_id: 0x99,
    }
}

fn names(pairs: &[(u128, &str)]) -> Vec<(u128, String)> {
    pairs.iter().map(|(k, v)| (*k, v.to_string())).collect()
}

#[test]
fn rows_carry_names_starts_and_room_numbers() {
    let g1 = game(1, ROOM_A, ROUND_2, 0x201, 0x202);
    let g2 = game(2, ROOM_A, ROUND_1, 0x203, 0x201);
    let mut g3 = game(3, ROOM_B, ROUND_1, 0x202, 0x203);
    g3.centerteamid = Some(0x204);
    let all = vec![(1, ROOM_A, ROUND_2), (2, ROOM_A, ROUND_1), (3, ROOM_B, ROUND_1), (4, ROOM_A, 0x999)];
    let starts = vec![(ROUND_1, Some(1_000)), (ROUND_2, Some(2_000))];
    let rows = build_game_rows(
        &vec![g1, g3],
        &all,
        &starts,
        &names(&[(0xd1, "Senior")]),
        &names(&[(ROOM_A, "Room A"), (ROOM_B, "Room B")]),
        &names(&[(0x201, "Eagles"), (0x202, "Hawks"), (0x204, "Owls")]),
        &names(&[]),
    );
    assert_eq!(rows.len(), 2);
    // Game 1 starts after game 2 in room A, and the unscheduled game 4 comes last.
    assert_eq!(rows[0].round_number, Some(2));
    assert_eq!(rows[0].scheduled_start_time, Some(2_000));
    assert_eq!(rows[0].division_name, "Senior");
    assert_eq!(rows[0].room_name, "Room A");
    assert_eq!((rows[0].left_team_name.as_str(), rows[0].right_team_name.as_str()), ("Eagles", "Hawks"));
    assert_eq!(rows[0].center_team_name, None);
    // No name for the last modifier: the text of the id.
    assert_eq!(rows[0].last_modified_user_name, "67e55044-10b1-426f-9247-bb680e5fe0c8");
    assert_eq!(rows[1].round_number, Some(1));
    assert_eq!(rows[1].room_name, "Room B");
    // A team without a name gets the empty text.
    assert_eq!(rows[1].right_team_name, "");
    assert_eq!(rows[1].center_team_name, Some("Owls".to_string()));
}

#[test]
fn a_game_missing_from_the_tournament_list_has_no_number() {
    let g = game(9, ROOM_A, ROUND_1, 1, 2);
    let rows = build_game_rows(&vec![g], &vec![], &vec![], &vec![], &vec![], &vec![], &names(&[(QM, "Pat Quizmaster")]));
    assert_eq!(rows[0].round_number, None);
    assert_eq!(rows[0].scheduled_start_time, None);
    assert_eq!(rows[0].last_modified_user_name, "Pat Quizmaster");
}

#[test]
fn games_without_a_listed_tournament_are_left_out_of_the_named_list() {
    let mut other = game(5, ROOM_A, ROUND_1, 0x201, 0x202);
    other.tournamentid = 0x11;
    let kept = game(6, ROOM_B, ROUND_2, 0x202, 0x201);
    let tournaments = vec![(TOURNAMENT, ("Nationals".to_string(), 738_000, 738_003))];
    let out = enrich_games_with_names(
        &vec![other, kept],
        &tournaments,
        &names(&[(0x201, "Eagles"), (0x202, "Hawks")]),
        &names(&[(0x77, "Chris Creator")]),
    );
    assert_eq!(out.len(), 1);
    assert_eq!(out[0].gid, 6);
    assert_eq!(out[0].tournament_name, "Nationals");
    assert_eq!((out[0].tournament_fromdate, out[0].tournament_todate), (738_000, 738_003));
    assert_eq!((out[0].left_team_name.as_str(), out[0].right_team_name.as_str()), ("Hawks", "Eagles"));
    assert_eq!(out[0].creator_name, "Chris Creator");
    assert_eq!(out[0].last_modified_user_name, "67e55044-10b1-426f-9247-bb680e5fe0c8");
    assert!(enrich_games_with_names(&vec![], &tournaments, &vec![], &vec![]).is_empty());
}

fn facts(questions: &[i32], latest: Option<i64>, has_gaps: bool, ranks: Option<Vec<i32>>) -> GameRecordFacts {
    GameRecordFacts { questions: questions.to_vec(), latest_serverts: latest, has_gaps, ranks }
}

#[test]
fn statuses_follow_data_questions_ranks_and_later_games() {
    let a = game(1, ROOM_A, ROUND_1, 0x201, 0x202);
    let b = game(2, ROOM_A, ROUND_2, 0x201, 0x203);
    let c = game(3, ROOM_B, ROUND_1, 0x204, 0x205);
    let d = game(4, ROOM_B, ROUND_2, 0x206, 0x207);
    let e = game(5, ROOM_B, ROUND_2, 0x208, 0x209);
    let st = game_statuses(
        &vec![a, b, c, d, e],
        &vec![
            // Tied ranks, but team 0x201 plays game 2, recorded later: done.
            facts(&[1, 20, 21], Some(50), false, Some(vec![1, 1])),
            facts(&[1, 5], Some(90), false, Some(vec![1, 2])),
            // Distinct ranks and question 20: done.
            facts(&[20, 3], Some(10), false, Some(vec![2, 1])),
            // A gap: data not OK, not done.
            facts(&[20], Some(10), true, Some(vec![1, 2])),
            // No events.
            facts(&[], None, false, None),
        ],
    );
    assert_eq!(st.len(), 5);
    assert!(st[0].done && st[0].data_ok);
    assert_eq!(st[0].next_question, Some(22));
    assert!(!st[1].done && st[1].data_ok);
    assert_eq!(st[1].next_question, Some(6));
    assert!(st[2].done);
    assert_eq!(st[2].next_question, Some(21));
    assert!(!st[3].done && !st[3].data_ok);
    assert!(!st[4].done && !st[4].data_ok);
    assert_eq!(st[4].next_question, None);
    assert_eq!(st[4].gid, 5);
}

#[test]
fn tied_ranks_without_a_later_game_are_not_done() {
    let a = game(1, ROOM_A, ROUND_1, 0x201, 0x202);
    let b = game(2, ROOM_A, ROUND_2, 0x201, 0x203);
    let st = game_statuses(
        &vec![a, b],
        &vec![facts(&[20], Some(50), false, Some(vec![1, 1])), facts(&[1], Some(40), false, None)],
    );
    assert!(!st[0].done && st[0].data_ok);
    assert!(!st[1].data_ok);
}

#[test]
fn the_empty_changeset_changes_nothing() {
    let c = GameChangeset::empty();
    assert!(c.org.is_none() && c.tournamentid.is_none() && c.roomid.is_none() && c.ruleset.is_none());
    assert!(c.quizmasterid.is_none() && c.resend_request_sent_ts.is_none() && c.poolbracket_id.is_none());
}
