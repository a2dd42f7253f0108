use backend::gameevent::calculator::{
    update_team_rankings_using_competitive_ranking, update_team_rankings_using_dense_ranking, GameEventCalculator,
    QuizzerForGameEventCalculator, TeamForGameEventCalculator,
};
use backend::gameevent::event::GameEvent;
use backend::gameevent::stream::GameEventStreamBuilder;
use backend::gameevent::validator::GameEventStreamValidator;
use uuid::Uuid;

/// The quizzer in seat `seat` of a calculated team.
fn quizzer(team: &TeamForGameEventCalculator, seat: i32) -> &QuizzerForGameEventCalculator {
    &team.quizzers.iter().find(|(s, _)| *s == seat).unwrap().1
}

#[test]
fn game_event_calculation_scenario_one_normal_quiz_works() {

    // Scenario 1: Normal quiz (with as many miscellaneous scenarios included in it as possible)
    
    // ARRANGE:

    let game_id = Uuid::new_v4().as_u128();

    let seat_one = 0;
    let seat_two = 1;
    let seat_three = 2;

    let left_team = 0;
    let center_team = 1;

    let jacob = ("Jacob", left_team);
    let taran = ("Taran", left_team);
    let lily = ("Lily", left_team);

    let audrey = ("Audrey", center_team);
    let jesse = ("Jesse", center_team);
    let kenzie = ("Kenzie", center_team);

    let (game_events, _) = GameEventStreamBuilder::new(game_id)
        .then_add_RM("Tournament")
        .then_add_QT("Nazarene")
        
        .then_add_TN("Red Team", left_team).unwrap()
        .then_add_QN_plus_if_SC_or_SS(jacob.0, jacob.1, seat_one, true, false).unwrap()
        .then_add_QN_plus_if_SC_or_SS(taran.0, taran.1, seat_two, false, true).unwrap()
        .then_add_QN_plus_if_SC_or_SS(lily.0, lily.1, seat_three, false, false).unwrap()
         
        .then_add_TN("Blue Team", center_team).unwrap()
        .then_add_QN_plus_if_SC_or_SS(audrey.0, audrey.1, seat_one, true, false).unwrap()
        .then_add_QN_plus_if_SC_or_SS(jesse.0, jesse.1, seat_two, false, true).unwrap()
        .then_add_QN_plus_if_SC_or_SS(kenzie.0, kenzie.1, seat_three, false, false).unwrap()
        
        .then_add_TC(audrey.0, audrey.1).unwrap()
        // Red Team: 0 { total_fouls: 0, jacob: 0/0, taran: 0/0, lily: 0/0 }, Blue Team: 20 { total_fouls: 0, audrey: 1/0, jesse: 0/0, kenzie: 0/0 }
        .then_add_TC(jacob.0, jacob.1).unwrap()
        // Red Team: 20 { total_fouls: 0, jacob: 1/0, taran: 0/0, lily: 0/0 }, Blue Team: 20 { total_fouls: 0, audrey: 1/0, jesse: 0/0, kenzie: 0/0 }
        .then_add_TC(taran.0, taran.1).unwrap()
        // Red Team: 40 { total_fouls: 0, jacob: 1/0, taran: 1/0, lily: 0/0 }, Blue Team: 20 { total_fouls: 0, audrey: 1/0, jesse: 0/0, kenzie: 0/0 }
        .then_add_TC(jacob.0, jacob.1).unwrap()
        // Red Team: 60 { total_fouls: 0, jacob: 2/0, taran: 1/0, lily: 0/0 }, Blue Team: 20 { total_fouls: 0, audrey: 1/0, jesse: 0/0, kenzie: 0/0 }
        .then_add_TE_and_bonuses(kenzie.0, kenzie.1, true, true).unwrap()
        // Red Team: 70 { total_fouls: 0, jacob: 2/0, taran: 1/0, lily: 0/0 }, Blue Team: 20 { total_fouls: 0, audrey: 1/0, jesse: 0/0, kenzie: 0/1 }
        
        .then_add_TC(audrey.0, audrey.1).unwrap()
        // Red Team: 70 { total_fouls: 0, jacob: 2/0, taran: 1/0, lily: 0/0 }, Blue Team: 40 { total_fouls: 0, audrey: 2/0, jesse: 0/0, kenzie: 0/1 }
        .then_add_TE_and_bonuses(lily.0, lily.1, false, false).unwrap()
        // Red Team: 70 { total_fouls: 0, jacob: 2/0, taran: 1/0, lily: 0/1 }, Blue Team: 40 { total_fouls: 0, audrey: 2/0, jesse: 0/0, kenzie: 0/1 }
        .then_add_TC(taran.0, taran.1).unwrap()
        .then_add_Cminus(audrey.0, audrey.1).unwrap()
        .then_add_FC(true, left_team).unwrap()
        // Red Team: 90 { total_fouls: 1, jacob: 2/0, taran: 2/0, lily: 0/1 }, Blue Team: 40 { total_fouls: 0, audrey: 2/0, jesse: 0/0, kenzie: 0/1 }
        .then_add_TC(jacob.0, jacob.1).unwrap()
        // Red Team: 110 { total_fouls: 1, jacob: 3/0, taran: 2/0, lily: 0/1 }, Blue Team: 40 { total_fouls: 0, audrey: 2/0, jesse: 0/0, kenzie: 0/1 }
        .then_add_TC(audrey.0, audrey.1).unwrap()
        .then_add_TO(center_team).unwrap()
        // Red Team: 110 { total_fouls: 1, jacob: 3/0, taran: 2/0, lily: 0/1 }, Blue Team: 60 { total_fouls: 0, audrey: 3/0, jesse: 0/0, kenzie: 0/1 }
        
        .then_add_NJ().unwrap()
        .then_add_Fminus(jesse.0, jesse.1).unwrap()
        .then_add_TE_and_bonuses(jesse.0, jesse.1, false, false).unwrap()
        // Red Team: 110 { total_fouls: 1, jacob: 3/0, taran: 2/0, lily: 0/1 }, Blue Team: 60 { total_fouls: 1, audrey: 3/0, jesse: 0/1, kenzie: 0/1 }
        .then_add_TE_and_bonuses(kenzie.0, kenzie.1, false, false).unwrap()
        // Red Team: 110 { total_fouls: 1, jacob: 3/0, taran: 2/0, lily: 0/1 }, Blue Team: 60 { total_fouls: 1, audrey: 3/0, jesse: 0/1, kenzie: 0/2 }
        .then_add_TE_and_bonuses(jesse.0, jesse.1, false, false).unwrap()
        .then_add_TO(center_team).unwrap()
        // Red Team: 110 { total_fouls: 1, jacob: 3/0, taran: 2/0, lily: 0/1 }, Blue Team: 60 { total_fouls: 1, audrey: 3/0, jesse: 0/2, kenzie: 0/2 }
        .then_add_TC(lily.0, lily.1).unwrap()
        // Red Team: 140 { total_fouls: 1, jacob: 3/0, taran: 2/0, lily: 1/1 }, Blue Team: 60 { total_fouls: 1, audrey: 3/0, jesse: 0/2, kenzie: 0/2 }

        .then_add_TE_and_bonuses(audrey.0, audrey.1, false, false).unwrap()
        // Red Team: 140 { total_fouls: 1, jacob: 3/0, taran: 2/0, lily: 1/1 }, Blue Team: 50 { total_fouls: 1, audrey: 3/1, jesse: 0/2, kenzie: 0/2 }
        .then_add_TC(jacob.0, jacob.1).unwrap()
        .then_add_TO(left_team).unwrap()
        // Red Team: 170 { total_fouls: 1, jacob: 4/0, taran: 2/0, lily: 1/1 }, Blue Team: 50 { total_fouls: 1, audrey: 3/0, jesse: 0/2, kenzie: 0/2 }
        .then_add_TE_and_bonuses(audrey.0, audrey.1, false, false).unwrap()
        // Red Team: 170 { total_fouls: 1, jacob: 4/0, taran: 2/0, lily: 1/1 }, Blue Team: 40 { total_fouls: 1, audrey: 3/1, jesse: 0/2, kenzie: 0/2 }
        .then_challenge_accepted(audrey.0, audrey.1, false, false).unwrap()
        // Red Team: 170 { total_fouls: 1, jacob: 4/0, taran: 2/0, lily: 1/1 }, Blue Team: 70 { total_fouls: 1, audrey: 4/1, jesse: 0/2, kenzie: 0/2 }
        .then_add_TC(jesse.0, jesse.1).unwrap()
        // Red Team: 170 { total_fouls: 1, jacob: 4/0, taran: 2/0, lily: 1/1 }, Blue Team: 90 { total_fouls: 1, audrey: 4/1, jesse: 1/2, kenzie: 0/2 }
        .then_challenge_accepted(taran.0, taran.1, true, true).unwrap()
        // Red Team: 180 { total_fouls: 1, jacob: 4/0, taran: 2/0, lily: 1/1 }, Blue Team: 60 { total_fouls: 1, audrey: 4/1, jesse: 0/3, kenzie: 0/2 }
        .then_add_FC(false, center_team).unwrap()
        // Red Team: 180 { total_fouls: 1, jacob: 4/0, taran: 2/0, lily: 1/1 }, Blue Team: 50 { total_fouls: 2, audrey: 4/1, jesse: 0/3, kenzie: 0/2 }
        .then_add_TC(kenzie.0, kenzie.1).unwrap()
        // Red Team: 180 { total_fouls: 1, jacob: 4/0, taran: 2/0, lily: 1/1 }, Blue Team: 70 { total_fouls: 1, audrey: 4/1, jesse: 0/3, kenzie: 1/2 }

        .to_game_events();

    let mut counter = 0;
    for event in game_events.iter() {
        println!["{}: {:?}", counter, event];
        counter += 1;
    }



    // ACT:

    let calculated_game_events = GameEventCalculator::new(game_id, game_events)
        .calculate_current_game_scores_and_counts()
        .unwrap();
    
    // ASSERT:

    let check_left_team = calculated_game_events.team(0).unwrap();
    let check_center_team = calculated_game_events.team(1).unwrap();
    
    // Current Question is accurate:
    assert_eq![calculated_game_events.current_question, 21];

    // Team Names are accurate:
    assert_eq![check_left_team.name, "Red Team"];
    assert_eq![check_center_team.name, "Blue Team"];

    // Team Scores are accurate:
    assert_eq![check_left_team.score, 180];
    assert_eq![check_center_team.score, 70];

    // Team Timeouts are accurate:
    assert_eq![check_left_team.timeouts_taken, vec![18]];
    assert_eq![check_center_team.timeouts_taken, vec![11, 15]];

    // Team Challenges are accurate (what if this was a Vec of objects showing what question and if it was accepted or overruled?):
    assert_eq![check_left_team.overruled_challenges, Vec::<i32>::new()];
    assert_eq![check_center_team.overruled_challenges, vec![8]];  // question #
    // Team Fouls is accurate
    assert_eq![check_left_team.team_and_coach_fouls_received, vec![(9,true)]];  // ((question), (is_coach))
    assert_eq![check_center_team.team_and_coach_fouls_received, vec![(20,false)]];

    // Team Captain and CoCaptains (*for current question!) are correct:
    assert_eq![check_left_team.captain, (0,false)];  // ((seat number), (is currently operational captain))
    assert_eq![check_left_team.cocaptain, (1,true)];
    assert_eq![check_center_team.captain, (0,false)];
    assert_eq![check_center_team.cocaptain, (1,false)];

    // Quizzer Toss-up counts (TCs && TEs), Bonus counts (BCs && BEs), QOs and EOs are accurate and quizzer fouls are accurate:
    // 0 Jacob
    let check_jacob = quizzer(check_left_team, 0);
    assert_eq![check_jacob.correct_tossups, vec![2, 4, 9, 17]];
    assert_eq![check_jacob.errors_on_tossups, Vec::<i32>::new()];
    assert_eq![check_jacob.question_quizzed_out_on, 17];
    assert_eq![check_jacob.question_errored_out_on, -1];
    assert_eq![check_jacob.question_fouled_out_on, -1];
    assert_eq![check_jacob.fouls_received, Vec::<i32>::new()];
    assert_eq![check_jacob.correct_bonuses, Vec::<i32>::new()];
    assert_eq![check_jacob.errors_on_bonuses, vec![16]];
    // 1 Taran
    let check_taran = quizzer(check_left_team, 1);
    assert_eq![check_taran.correct_tossups, vec![3, 8]];
    assert_eq![check_taran.errors_on_tossups, Vec::<i32>::new()];
    assert_eq![check_taran.question_quizzed_out_on, -1];
    assert_eq![check_taran.question_errored_out_on, -1];
    assert_eq![check_taran.question_fouled_out_on, -1];
    assert_eq![check_taran.fouls_received, Vec::<i32>::new()];
    assert_eq![check_taran.correct_bonuses, vec![19]];
    assert_eq![check_taran.errors_on_bonuses, vec![12, 14]];
    // 2 Lily
    let check_lily = quizzer(check_left_team, 2);
    assert_eq![check_lily.correct_tossups, vec![15]];
    assert_eq![check_lily.errors_on_tossups, vec![7]];
    assert_eq![check_lily.question_quizzed_out_on, -1];
    assert_eq![check_lily.question_errored_out_on, -1];
    assert_eq![check_lily.question_fouled_out_on, -1];
    assert_eq![check_lily.fouls_received, Vec::<i32>::new()];
    assert_eq![check_lily.correct_bonuses, vec![5]];
    assert_eq![check_lily.errors_on_bonuses, vec![13]];
    // 0 Audrey
    let check_audrey = quizzer(check_center_team, 0);
    assert_eq![check_audrey.correct_tossups, vec![1, 6, 10, 18]];
    assert_eq![check_audrey.errors_on_tossups, vec![16]];
    assert_eq![check_audrey.question_quizzed_out_on, 18];
    assert_eq![check_audrey.question_errored_out_on, -1];
    assert_eq![check_audrey.question_fouled_out_on, -1];
    assert_eq![check_audrey.fouls_received, Vec::<i32>::new()];
    assert_eq![check_audrey.correct_bonuses, Vec::<i32>::new()];
    assert_eq![check_audrey.errors_on_bonuses, Vec::<i32>::new()];
    // 1 Jesse
    let check_jesse = quizzer(check_center_team, 1);
    assert_eq![check_jesse.correct_tossups, Vec::<i32>::new()];
    assert_eq![check_jesse.errors_on_tossups, vec![12, 14, 19]];
    assert_eq![check_jesse.question_quizzed_out_on, -1];
    assert_eq![check_jesse.question_errored_out_on, 19];
    assert_eq![check_jesse.question_fouled_out_on, -1];
    assert_eq![check_jesse.fouls_received, vec![12]];
    assert_eq![check_jesse.correct_bonuses, Vec::<i32>::new()];
    assert_eq![check_jesse.errors_on_bonuses, Vec::<i32>::new()];
    // 2 Kenzie
    let check_kenzie = quizzer(check_center_team, 2);
    assert_eq![check_kenzie.correct_tossups, vec![20]];
    assert_eq![check_kenzie.errors_on_tossups, vec![5, 13]];
    assert_eq![check_kenzie.question_quizzed_out_on, -1];
    assert_eq![check_kenzie.question_errored_out_on, -1];
    assert_eq![check_kenzie.question_fouled_out_on, -1];
    assert_eq![check_kenzie.fouls_received, Vec::<i32>::new()];
    assert_eq![check_kenzie.correct_bonuses, Vec::<i32>::new()];
    assert_eq![check_kenzie.errors_on_bonuses, vec![7]];
}

#[test]
fn game_event_calculation_scenario_two_tiebreaker_works() {

    // Scenario 2: Tie Breaker (with multiple OT questions)
    // Two variations:
    // (1) TC ends the Game and TC quizzer's team wins
    // (2) TE ends the Game TE quizzer's team loses

    // ARRANGE:

    let game_id = Uuid::new_v4().as_u128();

    let seat_one = 0;

    let left_team = 0;
    let center_team = 1;

    let jacob = ("Jacob", left_team);

    let audrey = ("Audrey", center_team);

    let base_game_event_stream_builder = GameEventStreamBuilder::new(game_id)
        .then_add_RM("Tournament")
        .then_add_QT("Nazarene")
        
        .then_add_TN("Red Team", left_team).unwrap()
        .then_add_QN_plus_if_SC_or_SS(jacob.0, jacob.1, seat_one, true, false).unwrap()
         
        .then_add_TN("Blue Team", center_team).unwrap()
        .then_add_QN_plus_if_SC_or_SS(audrey.0, audrey.1, seat_one, true, false).unwrap()
        
        .then_add_TC(audrey.0, audrey.1).unwrap()
        // Red Team: 0 { jacob: 0/0 }, Blue Team: 20 { audrey: 1/0 }
        .then_add_TC(jacob.0, jacob.1).unwrap()
        // Red Team: 20 { jacob: 1/0 }, Blue Team: 20 { audrey: 1/0 }
        .then_add_NJ().unwrap()
        .then_add_NJ().unwrap()
        .then_add_NJ().unwrap()

        .then_add_NJ().unwrap()
        .then_add_NJ().unwrap()
        .then_add_NJ().unwrap()
        .then_add_NJ().unwrap()
        .then_add_NJ().unwrap()

        .then_add_NJ().unwrap()
        .then_add_NJ().unwrap()
        .then_add_NJ().unwrap()
        .then_add_NJ().unwrap()
        .then_add_NJ().unwrap()

        .then_add_NJ().unwrap()
        .then_add_NJ().unwrap()
        .then_add_NJ().unwrap()
        .then_add_NJ().unwrap()
        .then_add_NJ().unwrap()
        // Red Team: 20 { jacob: 1/0 }, Blue Team: 20 { audrey: 1/0 }

        // Sudden-death Tie breaker starts here:
        .then_add_NJ().unwrap()
        .then_add_NJ().unwrap();

    let (game_events_TC_win, _) = base_game_event_stream_builder.clone()
        .then_add_TC(audrey.0, audrey.1).unwrap()
        // Red Team: 20 { jacob: 1/0 }, Blue Team: 20 { audrey: 2/0 } - scores don't change but winner is determined; last TC doesn't count toward individual score
        .to_game_events();

    let (game_events_TE_loss, _) = base_game_event_stream_builder
        .then_add_TE_and_bonuses(audrey.0, audrey.1, false, false).unwrap()
        // Red Team: 20 { jacob: 1/0 }, Blue Team: 20 { audrey: 1/1 } - scores don't change but winner is determined; last TC doesn't count toward individual score
        .to_game_events();

    let mut counter = 0;
    for event in game_events_TC_win.iter() {
    // for event in game_events_TE_loss.iter() {
        println!["{}: {:?}", counter, event];
        counter += 1;
    }

    // ACT:

    let calculated_game_events_for_TC_win = GameEventCalculator::new(game_id, game_events_TC_win)
        .calculate_current_game_scores_and_counts()
        .unwrap();

    let calculated_game_events_for_TE_loss = GameEventCalculator::new(game_id, game_events_TE_loss)
        .calculate_current_game_scores_and_counts()
        .unwrap();
    
    // ASSERT:

    // Variation 1:

    let check_left_team_for_TC_win = calculated_game_events_for_TC_win.team(0).unwrap();
    let check_center_team_for_TC_win = calculated_game_events_for_TC_win.team(1).unwrap();
    
    // Current Question is accurate:
    assert_eq![calculated_game_events_for_TC_win.current_question, 24];

    // Team Names are accurate (sanity check):
    assert_eq![check_left_team_for_TC_win.name, "Red Team"];
    assert_eq![check_center_team_for_TC_win.name, "Blue Team"];

    // Team Scores are accurate:
    assert_eq![check_left_team_for_TC_win.score, 20];
    assert_eq![check_center_team_for_TC_win.score, 20];

    // Ending positions for each team:
    assert_eq![check_left_team_for_TC_win.rank, 2];
    assert_eq![check_center_team_for_TC_win.rank, 1];

    // Variation 2:

    let check_left_team_for_TE_loss = calculated_game_events_for_TE_loss.team(0).unwrap();
    let check_center_team_for_TE_loss = calculated_game_events_for_TE_loss.team(1).unwrap();
    
    // Current Question is accurate:
    assert_eq![calculated_game_events_for_TE_loss.current_question, 24];

    // Team Names are accurate (sanity check):
    assert_eq![check_left_team_for_TE_loss.name, "Red Team"];
    assert_eq![check_center_team_for_TE_loss.name, "Blue Team"];

    // Team Scores are accurate:
    assert_eq![check_left_team_for_TE_loss.score, 20];
    assert_eq![check_center_team_for_TE_loss.score, 20];

    // Ending positions for each team:
    assert_eq![check_left_team_for_TE_loss.rank, 1];
    assert_eq![check_center_team_for_TE_loss.rank, 2];
}

// #[test]
// fn game_event_calculation_scenario_three_works() {

//     // Scenario 3: All Quizzers become inelligible and there is a tie
//     // NOTE: Currently QuizMachine does not handle this situation; it is a manual process to resolve the tie and there are no rules for this from NYI either

//     // ARRANGE:
//     // ACT:
//     // ASSERT:
// }

#[test]
fn game_event_calculation_scenario_four_captain_cocaptain_inelligibility_works() {

    // Scenario 4: The following eight scenarios modify data correctly:
    // A: Captain QO, then Cocaptain QO
    // B: Captain QO, then Cocaptain EO
    // C: Captain EO, then Cocaptain EO
    // D: Captain EO, then Cocaptain QO
    // E: Cocaptain QO, then Captain QO
    // F: Cocaptain QO, then Captain EO
    // G: Cocaptain EO, then Captain EO
    // H: Cocaptain EO, then Captain QO
    // I: Captain QO
    // J: Captain EO
    // K: Cocaptain QO
    // L: Cocaptain EO

    // ARRANGE:

    let game_id = Uuid::new_v4().as_u128();

    let seat_one = 0;
    let seat_two = 1;

    let left_team = 0;
    let center_team = 1;

    // using these two as cap and cocap:
    let jacob = ("Jacob", left_team);
    let taran = ("Taran", left_team);

    let audrey = ("Audrey", center_team);
    let jesse = ("Jesse", center_team);

    let base_game_event_stream_builder = GameEventStreamBuilder::new(game_id)
    .then_add_RM("Tournament")
    .then_add_QT("Nazarene")
        
        .then_add_TN("Red Team", left_team).unwrap()
        .then_add_QN_plus_if_SC_or_SS(jacob.0, jacob.1, seat_one, true, false).unwrap()
        .then_add_QN_plus_if_SC_or_SS(taran.0, taran.1, seat_two, false, true).unwrap()
         
        .then_add_TN("Blue Team", center_team).unwrap()
        .then_add_QN_plus_if_SC_or_SS(audrey.0, audrey.1, seat_one, true, false).unwrap()
        .then_add_QN_plus_if_SC_or_SS(jesse.0, jesse.1, seat_two, false, true).unwrap()
        
        // 12 No Jumps as base (leaving 8 modifiable questions (max = 2 QOs = 8 questions)):
        .then_add_NJ().unwrap()
        .then_add_NJ().unwrap()
        .then_add_NJ().unwrap()
        .then_add_NJ().unwrap()
        .then_add_NJ().unwrap()
        .then_add_NJ().unwrap()
        .then_add_NJ().unwrap()
        .then_add_NJ().unwrap()
        .then_add_NJ().unwrap()
        .then_add_NJ().unwrap()
        .then_add_NJ().unwrap()
        .then_add_NJ().unwrap();
    
    // A: Captain QO, then Cocaptain QO
    let (game_events_cap_QO_then_cocap_QO, _) = base_game_event_stream_builder.clone()
        .then_add_TC(jacob.0, jacob.1).unwrap()
        .then_add_TC(jacob.0, jacob.1).unwrap()
        .then_add_TC(jacob.0, jacob.1).unwrap()
        .then_add_TC(jacob.0, jacob.1).unwrap()
        .then_add_TC(taran.0, taran.1).unwrap()
        .then_add_TC(taran.0, taran.1).unwrap()
        .then_add_TC(taran.0, taran.1).unwrap()
        .then_add_TC(taran.0, taran.1).unwrap()
        .to_game_events();
    
    // B: Captain QO, then Cocaptain EO
    let (game_events_cap_QO_then_cocap_EO, _) = base_game_event_stream_builder.clone()
        .then_add_TC(jacob.0, jacob.1).unwrap()
        .then_add_TC(jacob.0, jacob.1).unwrap()
        .then_add_TC(jacob.0, jacob.1).unwrap()
        .then_add_TC(jacob.0, jacob.1).unwrap()
        .then_add_TE_and_bonuses(taran.0, taran.1, false, false).unwrap()
        .then_add_TE_and_bonuses(taran.0, taran.1, false, false).unwrap()
        .then_add_TE_and_bonuses(taran.0, taran.1, false, false).unwrap()
        .then_add_NJ().unwrap()
        .to_game_events();
    
    // C: Captain EO, then Cocaptain EO
    let (game_events_cap_EO_then_cocap_EO, _) = base_game_event_stream_builder.clone()
        .then_add_TE_and_bonuses(jacob.0, jacob.1, false, false).unwrap()
        .then_add_TE_and_bonuses(jacob.0, jacob.1, false, false).unwrap()
        .then_add_TE_and_bonuses(jacob.0, jacob.1, false, false).unwrap()
        .then_add_TE_and_bonuses(taran.0, taran.1, false, false).unwrap()
        .then_add_TE_and_bonuses(taran.0, taran.1, false, false).unwrap()
        .then_add_TE_and_bonuses(taran.0, taran.1, false, false).unwrap()
        .then_add_NJ().unwrap()
        .then_add_NJ().unwrap()
        .to_game_events();
    
    // D: Captain EO, then Cocaptain QO
    let (game_events_cap_EO_then_cocap_QO, _) = base_game_event_stream_builder.clone()
        .then_add_TE_and_bonuses(jacob.0, jacob.1, false, false).unwrap()
        .then_add_TE_and_bonuses(jacob.0, jacob.1, false, false).unwrap()
        .then_add_TE_and_bonuses(jacob.0, jacob.1, false, false).unwrap()
        .then_add_TC(taran.0, taran.1).unwrap()
        .then_add_TC(taran.0, taran.1).unwrap()
        .then_add_TC(taran.0, taran.1).unwrap()
        .then_add_TC(taran.0, taran.1).unwrap()
        .then_add_NJ().unwrap()
        .to_game_events();
    
    // E: Cocaptain QO, then Captain QO
    let (game_events_cocap_QO_then_cap_QO, _) = base_game_event_stream_builder.clone()
        .then_add_TC(taran.0, taran.1).unwrap()
        .then_add_TC(taran.0, taran.1).unwrap()
        .then_add_TC(taran.0, taran.1).unwrap()
        .then_add_TC(taran.0, taran.1).unwrap()
        .then_add_TC(jacob.0, jacob.1).unwrap()
        .then_add_TC(jacob.0, jacob.1).unwrap()
        .then_add_TC(jacob.0, jacob.1).unwrap()
        .then_add_TC(jacob.0, jacob.1).unwrap()
        .to_game_events();
    
    // F: Cocaptain QO, then Captain EO
    let (game_events_cocap_QO_then_cap_EO, _) = base_game_event_stream_builder.clone()
        .then_add_TC(taran.0, taran.1).unwrap()
        .then_add_TC(taran.0, taran.1).unwrap()
        .then_add_TC(taran.0, taran.1).unwrap()
        .then_add_TC(taran.0, taran.1).unwrap()
        .then_add_TE_and_bonuses(jacob.0, jacob.1, false, false).unwrap()
        .then_add_TE_and_bonuses(jacob.0, jacob.1, false, false).unwrap()
        .then_add_TE_and_bonuses(jacob.0, jacob.1, false, false).unwrap()
        .then_add_NJ().unwrap()
        .to_game_events();
    
    // G: Cocaptain EO, then Captain EO
    let (game_events_cocap_EO_then_cap_EO, _) = base_game_event_stream_builder.clone()
        .then_add_TE_and_bonuses(taran.0, taran.1, false, false).unwrap()
        .then_add_TE_and_bonuses(taran.0, taran.1, false, false).unwrap()
        .then_add_TE_and_bonuses(taran.0, taran.1, false, false).unwrap()
        .then_add_TE_and_bonuses(jacob.0, jacob.1, false, false).unwrap()
        .then_add_TE_and_bonuses(jacob.0, jacob.1, false, false).unwrap()
        .then_add_TE_and_bonuses(jacob.0, jacob.1, false, false).unwrap()
        .then_add_NJ().unwrap()
        .then_add_NJ().unwrap()
        .to_game_events();
    
    // H: Cocaptain EO, then Captain QO
    let (game_events_cocap_EO_then_cap_QO, _) = base_game_event_stream_builder.clone()
        .then_add_TE_and_bonuses(taran.0, taran.1, false, false).unwrap()
        .then_add_TE_and_bonuses(taran.0, taran.1, false, false).unwrap()
        .then_add_TE_and_bonuses(taran.0, taran.1, false, false).unwrap()
        .then_add_TC(jacob.0, jacob.1).unwrap()
        .then_add_TC(jacob.0, jacob.1).unwrap()
        .then_add_TC(jacob.0, jacob.1).unwrap()
        .then_add_TC(jacob.0, jacob.1).unwrap()
        .then_add_NJ().unwrap()
        .to_game_events();
    
    // I: Captain QO
    let (game_events_cap_QO, _) = base_game_event_stream_builder.clone()
        .then_add_NJ().unwrap()
        .then_add_NJ().unwrap()
        .then_add_NJ().unwrap()
        .then_add_NJ().unwrap()
        .then_add_TC(jacob.0, jacob.1).unwrap()
        .then_add_TC(jacob.0, jacob.1).unwrap()
        .then_add_TC(jacob.0, jacob.1).unwrap()
        .then_add_TC(jacob.0, jacob.1).unwrap()
        .to_game_events();
    
    // J: Captain EO
    let (game_events_cap_EO, _) = base_game_event_stream_builder.clone()
        .then_add_NJ().unwrap()
        .then_add_NJ().unwrap()
        .then_add_NJ().unwrap()
        .then_add_NJ().unwrap()
        .then_add_NJ().unwrap()
        .then_add_TE_and_bonuses(jacob.0, jacob.1, false, false).unwrap()
        .then_add_TE_and_bonuses(jacob.0, jacob.1, false, false).unwrap()
        .then_add_TE_and_bonuses(jacob.0, jacob.1, false, false).unwrap()
        .to_game_events();
    
    // K: Cocaptain QO
    let (game_events_cocap_QO, _) = base_game_event_stream_builder.clone()
        .then_add_NJ().unwrap()
        .then_add_NJ().unwrap()
        .then_add_NJ().unwrap()
        .then_add_NJ().unwrap()
        .then_add_TC(taran.0, taran.1).unwrap()
        .then_add_TC(taran.0, taran.1).unwrap()
        .then_add_TC(taran.0, taran.1).unwrap()
        .then_add_TC(taran.0, taran.1).unwrap()
        .to_game_events();
    
    // L: Cocaptain EO
    let (game_events_cocap_EO, _) = base_game_event_stream_builder.clone()
        .then_add_NJ().unwrap()
        .then_add_NJ().unwrap()
        .then_add_NJ().unwrap()
        .then_add_NJ().unwrap()
        .then_add_NJ().unwrap()
        .then_add_TE_and_bonuses(taran.0, taran.1, false, false).unwrap()
        .then_add_TE_and_bonuses(taran.0, taran.1, false, false).unwrap()
        .then_add_TE_and_bonuses(taran.0, taran.1, false, false).unwrap()
        .to_game_events();

    // let mut counter = 0;
    // for event in game_events.iter() {
    //     println!["{}: {:?}", counter, event];
    //     counter += 1;
    // }

    // ACT:

    let calculated_game_events_A = GameEventCalculator::new(game_id, game_events_cap_QO_then_cocap_QO)
        .calculate_current_game_scores_and_counts()
        .unwrap();

    let calculated_game_events_B = GameEventCalculator::new(game_id, game_events_cap_QO_then_cocap_EO)
        .calculate_current_game_scores_and_counts()
        .unwrap();

    let calculated_game_events_C = GameEventCalculator::new(game_id, game_events_cap_EO_then_cocap_EO)
        .calculate_current_game_scores_and_counts()
        .unwrap();

    let calculated_game_events_D = GameEventCalculator::new(game_id, game_events_cap_EO_then_cocap_QO)
        .calculate_current_game_scores_and_counts()
        .unwrap();

    let calculated_game_events_E = GameEventCalculator::new(game_id, game_events_cocap_QO_then_cap_QO)
        .calculate_current_game_scores_and_counts()
        .unwrap();

    let calculated_game_events_F = GameEventCalculator::new(game_id, game_events_cocap_QO_then_cap_EO)
        .calculate_current_game_scores_and_counts()
        .unwrap();

    let calculated_game_events_G = GameEventCalculator::new(game_id, game_events_cocap_EO_then_cap_EO)
        .calculate_current_game_scores_and_counts()
        .unwrap();

    let calculated_game_events_H = GameEventCalculator::new(game_id, game_events_cocap_EO_then_cap_QO)
        .calculate_current_game_scores_and_counts()
        .unwrap();

    let calculated_game_events_I = GameEventCalculator::new(game_id, game_events_cap_QO)
        .calculate_current_game_scores_and_counts()
        .unwrap();

    let calculated_game_events_J = GameEventCalculator::new(game_id, game_events_cap_EO)
        .calculate_current_game_scores_and_counts()
        .unwrap();

    let calculated_game_events_K = GameEventCalculator::new(game_id, game_events_cocap_QO)
        .calculate_current_game_scores_and_counts()
        .unwrap();

    let calculated_game_events_L = GameEventCalculator::new(game_id, game_events_cocap_EO)
        .calculate_current_game_scores_and_counts()
        .unwrap();
    
    // ASSERT:

    // A: Captain QO, then Cocaptain QO
    let check_left_team = calculated_game_events_A.team(0).unwrap();
    let check_jacob = quizzer(check_left_team, 0);
    let check_taran = quizzer(check_left_team, 1);

    assert_eq![check_left_team.captain, (0,false)];  // ((seat number), (is currently operational captain))
    assert_eq![check_left_team.cocaptain, (1,false)];
    assert_eq![check_jacob.question_quizzed_out_on, 16];
    assert_eq![check_jacob.question_errored_out_on, -1];
    assert_eq![check_taran.question_quizzed_out_on, 20];
    assert_eq![check_taran.question_errored_out_on, -1];

    // B: Captain QO, then Cocaptain EO
    let check_left_team = calculated_game_events_B.team(0).unwrap();
    let check_jacob = quizzer(check_left_team, 0);
    let check_taran = quizzer(check_left_team, 1);

    assert_eq![check_left_team.captain, (0,false)];  // ((seat number), (is currently operational captain))
    assert_eq![check_left_team.cocaptain, (1,false)];
    assert_eq![check_jacob.question_quizzed_out_on, 16];
    assert_eq![check_jacob.question_errored_out_on, -1];
    assert_eq![check_taran.question_quizzed_out_on, -1];
    assert_eq![check_taran.question_errored_out_on, 19];

    // C: Captain EO, then Cocaptain EO
    let check_left_team = calculated_game_events_C.team(0).unwrap();
    let check_jacob = quizzer(check_left_team, 0);
    let check_taran = quizzer(check_left_team, 1);

    assert_eq![check_left_team.captain, (0,false)];  // ((seat number), (is currently operational captain))
    assert_eq![check_left_team.cocaptain, (1,false)];
    assert_eq![check_jacob.question_quizzed_out_on, -1];
    assert_eq![check_jacob.question_errored_out_on, 15];
    assert_eq![check_taran.question_quizzed_out_on, -1];
    assert_eq![check_taran.question_errored_out_on, 18];

    // D: Captain EO, then Cocaptain QO
    let check_left_team = calculated_game_events_D.team(0).unwrap();
    let check_jacob = quizzer(check_left_team, 0);
    let check_taran = quizzer(check_left_team, 1);

    assert_eq![check_left_team.captain, (0,false)];  // ((seat number), (is currently operational captain))
    assert_eq![check_left_team.cocaptain, (1,false)];
    assert_eq![check_jacob.question_quizzed_out_on, -1];
    assert_eq![check_jacob.question_errored_out_on, 15];
    assert_eq![check_taran.question_quizzed_out_on, 19];
    assert_eq![check_taran.question_errored_out_on, -1];

    // E: Cocaptain QO, then Captain QO
    let check_left_team = calculated_game_events_E.team(0).unwrap();
    let check_jacob = quizzer(check_left_team, 0);
    let check_taran = quizzer(check_left_team, 1);

    assert_eq![check_left_team.captain, (0,false)];  // ((seat number), (is currently operational captain))
    assert_eq![check_left_team.cocaptain, (1,false)];
    assert_eq![check_jacob.question_quizzed_out_on, 20];
    assert_eq![check_jacob.question_errored_out_on, -1];
    assert_eq![check_taran.question_quizzed_out_on, 16];
    assert_eq![check_taran.question_errored_out_on, -1];

    // F: Cocaptain QO, then Captain EO
    let check_left_team = calculated_game_events_F.team(0).unwrap();
    let check_jacob = quizzer(check_left_team, 0);
    let check_taran = quizzer(check_left_team, 1);

    assert_eq![check_left_team.captain, (0,false)];  // ((seat number), (is currently operational captain))
    assert_eq![check_left_team.cocaptain, (1,false)];
    assert_eq![check_jacob.question_quizzed_out_on, -1];
    assert_eq![check_jacob.question_errored_out_on, 19];
    assert_eq![check_taran.question_quizzed_out_on, 16];
    assert_eq![check_taran.question_errored_out_on, -1];

    // G: Cocaptain EO, then Captain EO
    let check_left_team = calculated_game_events_G.team(0).unwrap();
    let check_jacob = quizzer(check_left_team, 0);
    let check_taran = quizzer(check_left_team, 1);

    assert_eq![check_left_team.captain, (0,false)];  // ((seat number), (is currently operational captain))
    assert_eq![check_left_team.cocaptain, (1,false)];
    assert_eq![check_jacob.question_quizzed_out_on, -1];
    assert_eq![check_jacob.question_errored_out_on, 18];
    assert_eq![check_taran.question_quizzed_out_on, -1];
    assert_eq![check_taran.question_errored_out_on, 15];

    // H: Cocaptain EO, then Captain QO
    let check_left_team = calculated_game_events_H.team(0).unwrap();
    let check_jacob = quizzer(check_left_team, 0);
    let check_taran = quizzer(check_left_team, 1);

    assert_eq![check_left_team.captain, (0,false)];  // ((seat number), (is currently operational captain))
    assert_eq![check_left_team.cocaptain, (1,false)];
    assert_eq![check_jacob.question_quizzed_out_on, 19];
    assert_eq![check_jacob.question_errored_out_on, -1];
    assert_eq![check_taran.question_quizzed_out_on, -1];
    assert_eq![check_taran.question_errored_out_on, 15];

    // I: Captain QO
    let check_left_team = calculated_game_events_I.team(0).unwrap();
    let check_jacob = quizzer(check_left_team, 0);
    let check_taran = quizzer(check_left_team, 1);

    assert_eq![check_left_team.captain, (0,false)];  // ((seat number), (is currently operational captain))
    assert_eq![check_left_team.cocaptain, (1,true)];
    assert_eq![check_jacob.question_quizzed_out_on, 20];
    assert_eq![check_jacob.question_errored_out_on, -1];
    assert_eq![check_taran.question_quizzed_out_on, -1];
    assert_eq![check_taran.question_errored_out_on, -1];

    // J: Captain EO
    let check_left_team = calculated_game_events_J.team(0).unwrap();
    let check_jacob = quizzer(check_left_team, 0);
    let check_taran = quizzer(check_left_team, 1);

    assert_eq![check_left_team.captain, (0,false)];  // ((seat number), (is currently operational captain))
    assert_eq![check_left_team.cocaptain, (1,true)];
    assert_eq![check_jacob.question_quizzed_out_on, -1];
    assert_eq![check_jacob.question_errored_out_on, 20];
    assert_eq![check_taran.question_quizzed_out_on, -1];
    assert_eq![check_taran.question_errored_out_on, -1];

    // K: Cocaptain QO
    let check_left_team = calculated_game_events_K.team(0).unwrap();
    let check_jacob = quizzer(check_left_team, 0);
    let check_taran = quizzer(check_left_team, 1);

    assert_eq![check_left_team.captain, (0,true)];  // ((seat number), (is currently operational captain))
    assert_eq![check_left_team.cocaptain, (1,false)];
    assert_eq![check_jacob.question_quizzed_out_on, -1];
    assert_eq![check_jacob.question_errored_out_on, -1];
    assert_eq![check_taran.question_quizzed_out_on, 20];
    assert_eq![check_taran.question_errored_out_on, -1];

    // L: Cocaptain EO
    let check_left_team = calculated_game_events_L.team(0).unwrap();
    let check_jacob = quizzer(check_left_team, 0);
    let check_taran = quizzer(check_left_team, 1);

    assert_eq![check_left_team.captain, (0,true)];  // ((seat number), (is currently operational captain))
    assert_eq![check_left_team.cocaptain, (1,false)];
    assert_eq![check_jacob.question_quizzed_out_on, -1];
    assert_eq![check_jacob.question_errored_out_on, -1];
    assert_eq![check_taran.question_quizzed_out_on, -1];
    assert_eq![check_taran.question_errored_out_on, 20];
}
#[test]
fn game_event_calculation_scenario_five_removing_questions_works() {

    // Scenario 5: Questions are removed/fixed and events are correct

    // ARRANGE:

    let game_id = Uuid::new_v4().as_u128();

    let seat_one = 0;
    let seat_two = 1;
    let seat_three = 2;

    let left_team = 0;
    let center_team = 1;

    let jacob = ("Jacob", left_team);
    let taran = ("Taran", left_team);
    let lily = ("Lily", left_team);

    let audrey = ("Audrey", center_team);
    let jesse = ("Jesse", center_team);
    let kenzie = ("Kenzie", center_team);

    let (game_events, _) = GameEventStreamBuilder::new(game_id)
        .then_add_RM("Tournament")
        .then_add_QT("Nazarene")
        
        .then_add_TN("Red Team", left_team).unwrap()
        .then_add_QN_plus_if_SC_or_SS(jacob.0, jacob.1, seat_one, true, false).unwrap()
        .then_add_QN_plus_if_SC_or_SS(taran.0, taran.1, seat_two, false, true).unwrap()
        .then_add_QN_plus_if_SC_or_SS(lily.0, lily.1, seat_three, false, false).unwrap()
         
        .then_add_TN("Blue Team", center_team).unwrap()
        .then_add_QN_plus_if_SC_or_SS(audrey.0, audrey.1, seat_one, true, false).unwrap()
        .then_add_QN_plus_if_SC_or_SS(jesse.0, jesse.1, seat_two, false, true).unwrap()
        .then_add_QN_plus_if_SC_or_SS(kenzie.0, kenzie.1, seat_three, false, false).unwrap()
        
        .then_add_TC(audrey.0, audrey.1).unwrap()
        // Red Team: 0 { total_fouls: 0, jacob: 0/0, taran: 0/0, lily: 0/0 }, Blue Team: 20 { total_fouls: 0, audrey: 1/0, jesse: 0/0, kenzie: 0/0 }
        .then_add_TC(jacob.0, jacob.1).unwrap()
        // Red Team: 20 { total_fouls: 0, jacob: 1/0, taran: 0/0, lily: 0/0 }, Blue Team: 20 { total_fouls: 0, audrey: 1/0, jesse: 0/0, kenzie: 0/0 }
        .then_add_TC(taran.0, taran.1).unwrap()
        // Red Team: 40 { total_fouls: 0, jacob: 1/0, taran: 1/0, lily: 0/0 }, Blue Team: 20 { total_fouls: 0, audrey: 1/0, jesse: 0/0, kenzie: 0/0 }
        .then_add_TC(jacob.0, jacob.1).unwrap()
        // Red Team: 60 { total_fouls: 0, jacob: 2/0, taran: 1/0, lily: 0/0 }, Blue Team: 20 { total_fouls: 0, audrey: 1/0, jesse: 0/0, kenzie: 0/0 }
        .then_add_TE_and_bonuses(kenzie.0, kenzie.1, true, true).unwrap()
        // Red Team: 70 { total_fouls: 0, jacob: 2/0, taran: 1/0, lily: 0/0 }, Blue Team: 20 { total_fouls: 0, audrey: 1/0, jesse: 0/0, kenzie: 0/1 }
        
        .then_remove_questions(2).unwrap()
        // Red Team: 0 { total_fouls: 0, jacob: 0/0, taran: 0/0, lily: 0/0 }, Blue Team: 20 { total_fouls: 0, audrey: 1/0, jesse: 0/0, kenzie: 0/0 }
        
        .then_add_TE_and_bonuses(lily.0, lily.1, false, false).unwrap()
        // Red Team: 0 { total_fouls: 0, jacob: 0/0, taran: 0/0, lily: 0/1 }, Blue Team: 20 { total_fouls: 0, audrey: 1/0, jesse: 0/0, kenzie: 0/0 }
        .then_add_TE_and_bonuses(lily.0, lily.1, false, false).unwrap()
        // Red Team: 0 { total_fouls: 0, jacob: 0/0, taran: 0/0, lily: 0/2 }, Blue Team: 20 { total_fouls: 0, audrey: 1/0, jesse: 0/0, kenzie: 0/0 }
        .then_add_TE_and_bonuses(lily.0, lily.1, false, false).unwrap()
        // Red Team: -10 { total_fouls: 0, jacob: 0/0, taran: 0/0, lily: 0/3 }, Blue Team: 20 { total_fouls: 0, audrey: 1/0, jesse: 0/0, kenzie: 0/0 }
        .then_add_TC(jacob.0, jacob.1).unwrap()
        // Red Team: 10 { total_fouls: 0, jacob: 1/0, taran: 0/0, lily: 0/3 }, Blue Team: 20 { total_fouls: 0, audrey: 1/0, jesse: 0/1, kenzie: 0/0 }
        .to_game_events();
        
    let mut counter = 0;
    for event in game_events.iter() {
        println!["{}: {:?}", counter, event];
        counter += 1;
    }

    // ACT:

    let calculated_game_events = GameEventCalculator::new(game_id, game_events)
        .calculate_current_game_scores_and_counts()
        .unwrap();
    
    // ASSERT:

    let check_left_team = calculated_game_events.team(0).unwrap();
    let check_center_team = calculated_game_events.team(1).unwrap();
    
    // Current Question is accurate:
    assert_eq![calculated_game_events.current_question, 6];

    // Team Scores are accurate:
    assert_eq![check_left_team.score, 10];
    assert_eq![check_center_team.score, 20];

    // Quizzer Toss-up counts (TCs && TEs), Bonus counts (BCs && BEs), QOs and EOs are accurate and quizzer fouls are accurate:
    // 0 Jacob
    let check_jacob = quizzer(check_left_team, 0);
    assert_eq![check_jacob.correct_tossups, vec![5]];
    assert_eq![check_jacob.errors_on_tossups, Vec::<i32>::new()];
    assert_eq![check_jacob.question_quizzed_out_on, -1];
    assert_eq![check_jacob.question_errored_out_on, -1];
    assert_eq![check_jacob.question_fouled_out_on, -1];
    assert_eq![check_jacob.fouls_received, Vec::<i32>::new()];
    assert_eq![check_jacob.correct_bonuses, Vec::<i32>::new()];
    assert_eq![check_jacob.errors_on_bonuses, Vec::<i32>::new()];
    // 1 Taran
    let check_taran = quizzer(check_left_team, 1);
    assert_eq![check_taran.correct_tossups, Vec::<i32>::new()];
    assert_eq![check_taran.errors_on_tossups, Vec::<i32>::new()];
    assert_eq![check_taran.question_quizzed_out_on, -1];
    assert_eq![check_taran.question_errored_out_on, -1];
    assert_eq![check_taran.question_fouled_out_on, -1];
    assert_eq![check_taran.fouls_received, Vec::<i32>::new()];
    assert_eq![check_taran.correct_bonuses, Vec::<i32>::new()];
    assert_eq![check_taran.errors_on_bonuses, Vec::<i32>::new()];
    // 2 Lily
    let check_lily = quizzer(check_left_team, 2);
    assert_eq![check_lily.correct_tossups, Vec::<i32>::new()];
    assert_eq![check_lily.errors_on_tossups, vec![2, 3, 4]];
    assert_eq![check_lily.question_quizzed_out_on, -1];
    assert_eq![check_lily.question_errored_out_on, 4];
    assert_eq![check_lily.question_fouled_out_on, -1];
    assert_eq![check_lily.fouls_received, Vec::<i32>::new()];
    assert_eq![check_lily.correct_bonuses, Vec::<i32>::new()];
    assert_eq![check_lily.errors_on_bonuses, Vec::<i32>::new()];
    // 0 Audrey
    let check_audrey = quizzer(check_center_team, 0);
    assert_eq![check_audrey.correct_tossups, vec![1]];
    assert_eq![check_audrey.errors_on_tossups, Vec::<i32>::new()];
    assert_eq![check_audrey.question_quizzed_out_on, -1];
    assert_eq![check_audrey.question_errored_out_on, -1];
    assert_eq![check_audrey.question_fouled_out_on, -1];
    assert_eq![check_audrey.fouls_received, Vec::<i32>::new()];
    assert_eq![check_audrey.correct_bonuses, Vec::<i32>::new()];
    assert_eq![check_audrey.errors_on_bonuses, Vec::<i32>::new()];
    // 1 Jesse
    let check_jesse = quizzer(check_center_team, 1);
    assert_eq![check_jesse.correct_tossups, Vec::<i32>::new()];
    assert_eq![check_jesse.errors_on_tossups, Vec::<i32>::new()];
    assert_eq![check_jesse.question_quizzed_out_on, -1];
    assert_eq![check_jesse.question_errored_out_on, -1];
    assert_eq![check_jesse.question_fouled_out_on, -1];
    assert_eq![check_jesse.fouls_received, Vec::<i32>::new()];
    assert_eq![check_jesse.correct_bonuses, Vec::<i32>::new()];
    assert_eq![check_jesse.errors_on_bonuses, Vec::<i32>::new()];
    // 2 Kenzie
    let check_kenzie = quizzer(check_center_team, 2);
    assert_eq![check_kenzie.correct_tossups, Vec::<i32>::new()];
    assert_eq![check_kenzie.errors_on_tossups, Vec::<i32>::new()];
    assert_eq![check_kenzie.question_quizzed_out_on, -1];
    assert_eq![check_kenzie.question_errored_out_on, -1];
    assert_eq![check_kenzie.question_fouled_out_on, -1];
    assert_eq![check_kenzie.fouls_received, Vec::<i32>::new()];
    assert_eq![check_kenzie.correct_bonuses, Vec::<i32>::new()];
    assert_eq![check_kenzie.errors_on_bonuses, vec![2, 3, 4]];
}

// Situation these tests don't cover:
// - when both captain and cocaptain become inelligible and new ones need to be specified (needs to be bult into stream builder or else panic if next ruling happens before these are specified)
//     currently if QuizMachine's captain and cocaptain both become inelligible, then when an appeal by their team is accepted the 'quizzer' of the game event = -1 and QuizMachine asks the quizmaster to specify captain and cocaptain; QuizMachine doesn't record replacement captain and cocaptains other than in-memory, so this cannot currently be checked/validated

// Begin Validations unit tests:
#[test]
fn validation_check_RM_and_QT_events_are_present_in_game_event_stream_works() {
    // ARRANGE:

    let game_id = Uuid::new_v4().as_u128();

    let seat_one = 0;

    let left_team = 0;
    let center_team = 1;

    let jacob = ("Jacob", left_team);

    let audrey = ("Audrey", center_team);

    let base_game_event_stream_builder = GameEventStreamBuilder::new(game_id)
        .then_add_TN("Red Team", left_team).unwrap()
        .then_add_QN_plus_if_SC_or_SS(jacob.0, jacob.1, seat_one, true, false).unwrap()
         
        .then_add_TN("Blue Team", center_team).unwrap()
        .then_add_QN_plus_if_SC_or_SS(audrey.0, audrey.1, seat_one, true, false).unwrap()
        
        .then_add_TC(audrey.0, audrey.1).unwrap()
        .then_add_TC(jacob.0, jacob.1).unwrap();


    let (game_events_with_RM, _) = base_game_event_stream_builder.clone()
        .then_add_RM("Tournament")
        .to_game_events();

    let (game_events_with_QT, _) = base_game_event_stream_builder.clone()
        .then_add_QT("Nazarene")
        .to_game_events();

    let (game_events_with_both_RM_and_QT, _) = base_game_event_stream_builder.clone()
        .then_add_RM("Tournament")
        .then_add_QT("Nazarene")
        .to_game_events();
    
    // ACT

    let only_RM_specific = GameEventStreamValidator::new(game_events_with_RM.clone())
        .check_for_has_RM_and_QT()
        .validate();
    let only_RM_everything_check = GameEventStreamValidator::new(game_events_with_RM)
        .check_for_everything()
        .validate();

    let only_QT_specific = GameEventStreamValidator::new(game_events_with_QT.clone())
        .check_for_has_RM_and_QT()
        .validate();
    let only_QT_everything_check = GameEventStreamValidator::new(game_events_with_QT)
        .check_for_everything()
        .validate();

    let both_RM_and_QT_specific = GameEventStreamValidator::new(game_events_with_both_RM_and_QT.clone())
        .check_for_has_RM_and_QT()
        .validate();
    let both_RM_and_QT_everything_check = GameEventStreamValidator::new(game_events_with_both_RM_and_QT)
        .check_for_everything()
        .validate();

    // ASSERT

    assert![only_RM_specific.is_err()];
    assert![only_RM_everything_check.is_err()];

    assert![only_QT_specific.is_err()];
    assert![only_QT_everything_check.is_err()];

    assert![both_RM_and_QT_specific.is_ok()];
    assert![both_RM_and_QT_everything_check.is_ok()];
}

#[test]
fn validation_check_sort_order_works() {
    // ARRANGE:

    let game_id = Uuid::new_v4().as_u128();

    let seat_one = 0;

    let left_team = 0;
    let center_team = 1;

    let jacob = ("Jacob", left_team);

    let audrey = ("Audrey", center_team);

    let (game_events, _) = GameEventStreamBuilder::new(game_id)
        .then_add_RM("Tournament")
        .then_add_QT("Nazarene")
        
        .then_add_TN("Red Team", left_team).unwrap()
        .then_add_QN_plus_if_SC_or_SS(jacob.0, jacob.1, seat_one, true, false).unwrap()
         
        .then_add_TN("Blue Team", center_team).unwrap()
        .then_add_QN_plus_if_SC_or_SS(audrey.0, audrey.1, seat_one, true, false).unwrap()
        
        .then_add_TC(audrey.0, audrey.1).unwrap()
        .then_add_TC(jacob.0, jacob.1).unwrap()
        .then_add_TE_and_bonuses(jacob.0, jacob.1, false, false).unwrap()
        .then_add_TE_and_bonuses(jacob.0, jacob.1, false, false).unwrap()
        .then_add_TC(jacob.0, jacob.1).unwrap()

        .then_add_TC(jacob.0, jacob.1).unwrap()
        .then_add_TC(audrey.0, audrey.1).unwrap()
        .then_add_TC(audrey.0, audrey.1).unwrap()
        .then_add_TE_and_bonuses(audrey.0, audrey.1, false, false).unwrap()
        .then_add_TC(audrey.0, audrey.1).unwrap()

        .to_game_events();
    
    let mut game_event_missing_eventnum: Vec<GameEvent> = game_events.clone();
    game_event_missing_eventnum.retain(|e| e.question != 3 || e.eventnum != 0);
    let game_event_missing_eventnum = game_event_missing_eventnum;

    let game_event_missing_question: Vec<GameEvent> = game_events
        .iter()
        .filter(|e| e.question != 2)
        .cloned()
        .collect();
    
    let mut game_event_eventnum_out_of_order = game_events.clone();
    for event in game_event_eventnum_out_of_order.iter_mut() {
        if event.question == 3 && event.eventnum == 0 {
            event.eventnum = 1;
            continue;
        }
        if event.question == 3 && event.eventnum == 1 {
            event.eventnum = 0;
            break;
        }
    }
    let game_event_eventnum_out_of_order = game_event_eventnum_out_of_order;

    let mut game_event_question_out_of_order = game_events.clone();
    for event in game_event_question_out_of_order.iter_mut() {
        if event.question == 6 {
            event.question = 7;
            continue;
        }
        if event.question == 7 {
            event.question = 6;
            break;
        }
    }
    let game_event_question_out_of_order = game_event_question_out_of_order;
    
    let mut game_event_question_eventnum_duplicate = game_events.clone();
    for event in game_event_question_eventnum_duplicate.iter_mut() {
        if event.question == 10 && event.eventnum == 0 {
            event.question = 1;
            break;
        }
    }
    let game_event_question_eventnum_duplicate = game_event_question_eventnum_duplicate;

    // for event in game_event_eventnum_out_of_order.clone() {
    //     println!["{:?}", event];
    // }
    
    // ACT

    // control group:
    let game_events_specific = GameEventStreamValidator::new(game_events.clone())
        .check_for_sort_order()
        .validate();
    let game_events_everything = GameEventStreamValidator::new(game_events.clone())
        .check_for_everything()
        .validate();


    let game_event_missing_eventnum_specific = GameEventStreamValidator::new(game_event_missing_eventnum.clone())
        .check_for_sort_order()
        .validate();
    let game_event_missing_eventnum_everything = GameEventStreamValidator::new(game_event_missing_eventnum.clone())
        .check_for_everything()
        .validate();

    let game_event_missing_question_specific = GameEventStreamValidator::new(game_event_missing_question.clone())
        .check_for_sort_order()
        .validate();
    let game_event_missing_question_everything = GameEventStreamValidator::new(game_event_missing_question.clone())
        .check_for_everything()
        .validate();

    let game_event_eventnum_out_of_order_specific = GameEventStreamValidator::new(game_event_eventnum_out_of_order.clone())
        .check_for_sort_order()
        .validate();
    let game_event_eventnum_out_of_order_everything = GameEventStreamValidator::new(game_event_eventnum_out_of_order.clone())
        .check_for_everything()
        .validate();

    let game_event_question_out_of_order_specific = GameEventStreamValidator::new(game_event_question_out_of_order.clone())
        .check_for_sort_order()
        .validate();
    let game_event_question_out_of_order_everything = GameEventStreamValidator::new(game_event_question_out_of_order.clone())
        .check_for_everything()
        .validate();

    let game_event_question_eventnum_duplicate_specific = GameEventStreamValidator::new(game_event_question_eventnum_duplicate.clone())
        .check_for_sort_order()
        .validate();
    let game_event_question_eventnum_duplicate_everything = GameEventStreamValidator::new(game_event_question_eventnum_duplicate.clone())
        .check_for_everything()
        .validate();

    // ASSERT

    // control:
    assert![game_events_specific.is_ok()];
    assert![game_events_everything.is_ok()];

    assert![game_event_missing_eventnum_specific.is_err()];
    assert![game_event_missing_eventnum_everything.is_err()];

    assert![game_event_missing_question_specific.is_err()];
    assert![game_event_missing_question_everything.is_err()];

    assert![game_event_eventnum_out_of_order_specific.is_ok()];
    assert![game_event_eventnum_out_of_order_everything.is_ok()];

    assert![game_event_question_out_of_order_specific.is_ok()];
    assert![game_event_question_out_of_order_everything.is_ok()];

    assert![game_event_question_eventnum_duplicate_specific.is_err()];
    assert![game_event_question_eventnum_duplicate_everything.is_err()];
}

#[test]
fn validation_check_min_one_team_and_min_one_quizzer_per_team_works() {
    // ARRANGE:

    let game_id = Uuid::new_v4().as_u128();

    let seat_one = 0;

    let left_team = 0;

    let jacob = ("Jacob", left_team);

    let base_game_events_stream = GameEventStreamBuilder::new(game_id)
        .then_add_RM("Tournament")
        .then_add_QT("Nazarene");

    let (game_events_no_team_or_quizzers, _) = base_game_events_stream.clone()
        .to_game_events();
        
    let (game_events_team_no_quizzers, _) = base_game_events_stream.clone()
        .then_add_TN("Red Team", left_team).unwrap()
        .to_game_events();

    let (game_events_team_and_quizzer, _) = base_game_events_stream.clone()
        .then_add_TN("Red Team", left_team).unwrap()
        .then_add_QN_plus_if_SC_or_SS(jacob.0, jacob.1, seat_one, true, false).unwrap()
        .to_game_events();

    for event in game_events_team_and_quizzer.clone() {
        println!["{:?}", event];
    }
    
    // ACT

    // control group:
    let game_events_team_and_quizzer_specific = GameEventStreamValidator::new(game_events_team_and_quizzer.clone())
        .check_for_min_one_team_and_min_one_quizzer_per_team()
        .validate();
    let game_events_team_and_quizzer_everything = GameEventStreamValidator::new(game_events_team_and_quizzer.clone())
        .check_for_everything()
        .validate();

    let game_events_no_team_or_quizzers_specific = GameEventStreamValidator::new(game_events_no_team_or_quizzers.clone())
        .check_for_min_one_team_and_min_one_quizzer_per_team()
        .validate();
    let game_events_no_team_or_quizzers_everything = GameEventStreamValidator::new(game_events_no_team_or_quizzers.clone())
        .check_for_everything()
        .validate();

    let game_events_team_no_quizzers_specific = GameEventStreamValidator::new(game_events_team_no_quizzers.clone())
        .check_for_min_one_team_and_min_one_quizzer_per_team()
        .validate();
    let game_events_team_no_quizzers_everything = GameEventStreamValidator::new(game_events_team_no_quizzers.clone())
        .check_for_everything()
        .validate();

    // ASSERT

    // control:
    assert![game_events_team_and_quizzer_specific.is_ok()];
    assert![game_events_team_and_quizzer_everything.is_ok()];

    assert![game_events_no_team_or_quizzers_specific.is_err()];
    assert![game_events_no_team_or_quizzers_everything.is_err()];

    assert![game_events_team_no_quizzers_specific.is_err()];
    assert![game_events_team_no_quizzers_everything.is_err()];
}

#[test]
fn validation_check_captains_and_cocaptains_are_accurate_based_on_number_of_quizzers_on_team_works() {
    // ARRANGE:

    let game_id = Uuid::new_v4().as_u128();

    let seat_one = 0;
    let seat_two = 1;
    let seat_three = 2;

    let left_team = 0;

    let jacob = ("Jacob", left_team);
    let taran: (&str, i32) = ("Taran", left_team);
    let lily: (&str, i32) = ("Lily", left_team);

    let base_game_events_stream = GameEventStreamBuilder::new(game_id)
        .then_add_RM("Tournament")
        .then_add_QT("Nazarene")
        .then_add_TN("Red Team", left_team).unwrap();

    let (game_events_has_captain_and_cocaptain, _) = base_game_events_stream.clone()
        .then_add_QN_plus_if_SC_or_SS(jacob.0, jacob.1, seat_one, true, false).unwrap()
        .then_add_QN_plus_if_SC_or_SS(taran.0, taran.1, seat_two, false, true).unwrap()
        .to_game_events();

    let (game_events_no_captain, _) = base_game_events_stream.clone()
        .then_add_QN_plus_if_SC_or_SS(jacob.0, jacob.1, seat_one, false, false).unwrap()
        .then_add_QN_plus_if_SC_or_SS(taran.0, taran.1, seat_two, false, true).unwrap()
        .to_game_events();

    let (game_events_no_cocaptain, _) = base_game_events_stream.clone()
        .then_add_QN_plus_if_SC_or_SS(jacob.0, jacob.1, seat_one, true, false).unwrap()
        .then_add_QN_plus_if_SC_or_SS(taran.0, taran.1, seat_two, false, false).unwrap()
        .to_game_events();

    let (game_events_same_captain_as_cocaptain, _) = base_game_events_stream.clone()
        .then_add_QN_plus_if_SC_or_SS(jacob.0, jacob.1, seat_one, true, false).unwrap()
        .then_add_QN_plus_if_SC_or_SS(jacob.0, jacob.1, seat_two, true, false).unwrap()
        .to_game_events();

    let (game_events_multiple_captains, _) = base_game_events_stream.clone()
        .then_add_QN_plus_if_SC_or_SS(jacob.0, jacob.1, seat_one, true, false).unwrap()
        .then_add_QN_plus_if_SC_or_SS(taran.0, taran.1, seat_two, true, false).unwrap()
        .then_add_QN_plus_if_SC_or_SS(lily.0, lily.1, seat_three, false, true).unwrap()
        .to_game_events();

    let (game_events_multiple_cocaptains, _) = base_game_events_stream.clone()
        .then_add_QN_plus_if_SC_or_SS(jacob.0, jacob.1, seat_one, true, false).unwrap()
        .then_add_QN_plus_if_SC_or_SS(taran.0, taran.1, seat_two, false, true).unwrap()
        .then_add_QN_plus_if_SC_or_SS(lily.0, lily.1, seat_three, false, true).unwrap()
        .to_game_events();

    let (mut game_events_captain_not_a_quizzer_on_team, _) = base_game_events_stream.clone()
        .then_add_QN_plus_if_SC_or_SS(jacob.0, jacob.1, seat_one, true, false).unwrap()
        .then_add_QN_plus_if_SC_or_SS(taran.0, taran.1, seat_two, false, true).unwrap()
        .to_game_events();
    game_events_captain_not_a_quizzer_on_team.iter_mut().for_each(|e| {
        if e.event == "SC".to_string() { e.name = "Sandy".to_string(); }
    });
    let game_events_captain_not_a_quizzer_on_team = game_events_captain_not_a_quizzer_on_team;

    let (mut game_events_cocaptain_not_a_quizzer_on_team, _) = base_game_events_stream.clone()
        .then_add_QN_plus_if_SC_or_SS(jacob.0, jacob.1, seat_one, true, false).unwrap()
        .then_add_QN_plus_if_SC_or_SS(taran.0, taran.1, seat_two, false, true).unwrap()
        .to_game_events();
    game_events_cocaptain_not_a_quizzer_on_team.iter_mut().for_each(|e| {
        if e.event == "SS".to_string() { e.name = "Sandy".to_string(); }
    });
    let game_events_cocaptain_not_a_quizzer_on_team = game_events_cocaptain_not_a_quizzer_on_team;

    for event in game_events_has_captain_and_cocaptain.clone() {
        println!["{:?}", event];
    }
    
    // ACT

    // control group:
    let game_events_has_captain_and_cocaptain_specific = GameEventStreamValidator::new(game_events_has_captain_and_cocaptain.clone())
        .check_for_captains_and_cocaptains_are_accurate_based_on_number_of_quizzers_on_team()
        .validate();
    let game_events_has_captain_and_cocaptain_everything = GameEventStreamValidator::new(game_events_has_captain_and_cocaptain.clone())
        .check_for_everything()
        .validate();

    let game_events_no_captain_specific = GameEventStreamValidator::new(game_events_no_captain.clone())
        .check_for_captains_and_cocaptains_are_accurate_based_on_number_of_quizzers_on_team()
        .validate();
    let game_events_no_captain_everything = GameEventStreamValidator::new(game_events_no_captain.clone())
        .check_for_everything()
        .validate();

    let game_events_no_cocaptain_specific = GameEventStreamValidator::new(game_events_no_cocaptain.clone())
        .check_for_captains_and_cocaptains_are_accurate_based_on_number_of_quizzers_on_team()
        .validate();
    let game_events_no_cocaptain_everything = GameEventStreamValidator::new(game_events_no_cocaptain.clone())
        .check_for_everything()
        .validate();

    let game_events_same_captain_as_cocaptain_specific = GameEventStreamValidator::new(game_events_same_captain_as_cocaptain.clone())
        .check_for_captains_and_cocaptains_are_accurate_based_on_number_of_quizzers_on_team()
        .validate();
    let game_events_same_captain_as_cocaptain_everything = GameEventStreamValidator::new(game_events_same_captain_as_cocaptain.clone())
        .check_for_everything()
        .validate();

    let game_events_multiple_captains_specific = GameEventStreamValidator::new(game_events_multiple_captains.clone())
        .check_for_captains_and_cocaptains_are_accurate_based_on_number_of_quizzers_on_team()
        .validate();
    let game_events_multiple_captains_everything = GameEventStreamValidator::new(game_events_multiple_captains.clone())
        .check_for_everything()
        .validate();

    let game_events_multiple_cocaptains_specific = GameEventStreamValidator::new(game_events_multiple_cocaptains.clone())
        .check_for_captains_and_cocaptains_are_accurate_based_on_number_of_quizzers_on_team()
        .validate();
    let game_events_multiple_cocaptains_everything = GameEventStreamValidator::new(game_events_multiple_cocaptains.clone())
        .check_for_everything()
        .validate();

    let game_events_captain_not_a_quizzer_on_team_specific = GameEventStreamValidator::new(game_events_captain_not_a_quizzer_on_team.clone())
        .check_for_captains_and_cocaptains_are_accurate_based_on_number_of_quizzers_on_team()
        .validate();
    let game_events_captain_not_a_quizzer_on_team_everything = GameEventStreamValidator::new(game_events_captain_not_a_quizzer_on_team.clone())
        .check_for_everything()
        .validate();

    let game_events_cocaptain_not_a_quizzer_on_team_specific = GameEventStreamValidator::new(game_events_cocaptain_not_a_quizzer_on_team.clone())
        .check_for_captains_and_cocaptains_are_accurate_based_on_number_of_quizzers_on_team()
        .validate();
    let game_events_cocaptain_not_a_quizzer_on_team_everything = GameEventStreamValidator::new(game_events_cocaptain_not_a_quizzer_on_team.clone())
        .check_for_everything()
        .validate();

    // ASSERT

    // control:
    assert![game_events_has_captain_and_cocaptain_specific.is_ok()];
    assert![game_events_has_captain_and_cocaptain_everything.is_ok()];

    assert![game_events_no_captain_specific.is_err()];
    assert![game_events_no_captain_everything.is_err()];

    assert![game_events_no_cocaptain_specific.is_err()];
    assert![game_events_no_cocaptain_everything.is_err()];

    assert![game_events_same_captain_as_cocaptain_specific.is_err()];
    assert![game_events_same_captain_as_cocaptain_everything.is_err()];

    assert![game_events_multiple_captains_specific.is_err()];
    assert![game_events_multiple_captains_everything.is_err()];

    assert![game_events_multiple_cocaptains_specific.is_err()];
    assert![game_events_multiple_cocaptains_everything.is_err()];

    assert![game_events_captain_not_a_quizzer_on_team_specific.is_err()];
    assert![game_events_captain_not_a_quizzer_on_team_everything.is_err()];

    assert![game_events_cocaptain_not_a_quizzer_on_team_specific.is_err()];
    assert![game_events_cocaptain_not_a_quizzer_on_team_everything.is_err()];
}

#[test]
fn validation_check_no_team_name_duplicates() {
    // ARRANGE:

    let game_id = Uuid::new_v4().as_u128();

    let seat_one = 0;

    let left_team = 0;
    let center_team = 1;
    let right_team = 2;

    let jacob: (&str, i32) = ("Jacob", left_team);
    let taran: (&str, i32) = ("Taran", center_team);
    let lily: (&str, i32) = ("Lily", right_team);

    let base_game_events_stream = GameEventStreamBuilder::new(game_id)
        .then_add_RM("Tournament")
        .then_add_QT("Nazarene");
    
    let (game_events_all_are_unique, _) = base_game_events_stream.clone()
        .then_add_TN("Red Team", left_team).unwrap()
        .then_add_QN_plus_if_SC_or_SS(jacob.0, jacob.1, seat_one, true, false).unwrap()
        .then_add_TN("Blue Team", center_team).unwrap()
        .then_add_QN_plus_if_SC_or_SS(taran.0, taran.1, seat_one, true, false).unwrap()
        .then_add_TN("Green Team", right_team).unwrap()
        .then_add_QN_plus_if_SC_or_SS(lily.0, lily.1, seat_one, true, false).unwrap()
        .to_game_events();
    
    let (game_events_left_and_center_match, _) = base_game_events_stream.clone()
        .then_add_TN("Red Team", left_team).unwrap()
        .then_add_QN_plus_if_SC_or_SS(jacob.0, jacob.1, seat_one, true, false).unwrap()
        .then_add_TN("Red Team", center_team).unwrap()
        .then_add_QN_plus_if_SC_or_SS(taran.0, taran.1, seat_one, true, false).unwrap()
        .then_add_TN("Blue Team", right_team).unwrap()
        .then_add_QN_plus_if_SC_or_SS(lily.0, lily.1, seat_one, true, false).unwrap()
        .to_game_events();
    
    let (game_events_center_and_right_match, _) = base_game_events_stream.clone()
        .then_add_TN("Blue Team", left_team).unwrap()
        .then_add_QN_plus_if_SC_or_SS(jacob.0, jacob.1, seat_one, true, false).unwrap()
        .then_add_TN("Red Team", center_team).unwrap()
        .then_add_QN_plus_if_SC_or_SS(taran.0, taran.1, seat_one, true, false).unwrap()
        .then_add_TN("Red Team", right_team).unwrap()
        .then_add_QN_plus_if_SC_or_SS(lily.0, lily.1, seat_one, true, false).unwrap()
        .to_game_events();
    
    let (game_events_left_and_right_match, _) = base_game_events_stream.clone()
        .then_add_TN("Blue Team", left_team).unwrap()
        .then_add_QN_plus_if_SC_or_SS(jacob.0, jacob.1, seat_one, true, false).unwrap()
        .then_add_TN("Red Team", center_team).unwrap()
        .then_add_QN_plus_if_SC_or_SS(taran.0, taran.1, seat_one, true, false).unwrap()
        .then_add_TN("Blue Team", right_team).unwrap()
        .then_add_QN_plus_if_SC_or_SS(lily.0, lily.1, seat_one, true, false).unwrap()
        .to_game_events();

    // for event in game_events_team_and_quizzer.clone() {
    //     println!["{:?}", event];
    // }
    
    // ACT

    // control group:
    let game_events_all_are_unique_specific = GameEventStreamValidator::new(game_events_all_are_unique.clone())
        .check_for_no_team_name_duplicates()
        .validate();
    let game_events_all_are_unique_everything = GameEventStreamValidator::new(game_events_all_are_unique.clone())
        .check_for_everything()
        .validate();

    let game_events_left_and_center_match_specific = GameEventStreamValidator::new(game_events_left_and_center_match.clone())
        .check_for_no_team_name_duplicates()
        .validate();
    let game_events_left_and_center_match_everything = GameEventStreamValidator::new(game_events_left_and_center_match.clone())
        .check_for_everything()
        .validate();

    let game_events_center_and_right_match_specific = GameEventStreamValidator::new(game_events_center_and_right_match.clone())
        .check_for_no_team_name_duplicates()
        .validate();
    let game_events_center_and_right_match_everything = GameEventStreamValidator::new(game_events_center_and_right_match.clone())
        .check_for_everything()
        .validate();

    let game_events_left_and_right_match_specific = GameEventStreamValidator::new(game_events_left_and_right_match.clone())
        .check_for_no_team_name_duplicates()
        .validate();
    let game_events_left_and_right_match_everything = GameEventStreamValidator::new(game_events_left_and_right_match.clone())
        .check_for_everything()
        .validate();

    // ASSERT

    // control:
    assert![game_events_all_are_unique_specific.is_ok()];
    assert![game_events_all_are_unique_everything.is_ok()];

    assert![game_events_left_and_center_match_specific.is_err()];
    assert![game_events_left_and_center_match_everything.is_err()];

    assert![game_events_center_and_right_match_specific.is_err()];
    assert![game_events_center_and_right_match_everything.is_err()];

    assert![game_events_left_and_right_match_specific.is_err()];
    assert![game_events_left_and_right_match_everything.is_err()];
}

#[test]
fn validation_check_no_quizzer_name_duplicates_within_team() {
    // ARRANGE:

    let game_id = Uuid::new_v4().as_u128();

    let seat_one = 0;
    let seat_two = 1;
    let seat_three = 2;

    let left_team = 0;

    let jacob: (&str, i32) = ("Jacob", left_team);
    let taran: (&str, i32) = ("Taran", left_team);
    let lily: (&str, i32) = ("Lily", left_team);

    let base_game_events_stream = GameEventStreamBuilder::new(game_id)
        .then_add_RM("Tournament")
        .then_add_QT("Nazarene")
        .then_add_TN("Red Team", left_team).unwrap();
    
    let (game_events_all_names_appear_once, _) = base_game_events_stream.clone()
        .then_add_QN_plus_if_SC_or_SS(jacob.0, jacob.1, seat_one, true, false).unwrap()
        .then_add_QN_plus_if_SC_or_SS(taran.0, taran.1, seat_two, false, true).unwrap()
        .then_add_QN_plus_if_SC_or_SS(lily.0, lily.1, seat_three, false, false).unwrap()
        .to_game_events();
    
    let (game_events_two_names_are_same, _) = base_game_events_stream.clone()
        .then_add_QN_plus_if_SC_or_SS(jacob.0, jacob.1, seat_one, true, false).unwrap()
        .then_add_QN_plus_if_SC_or_SS(taran.0, taran.1, seat_two, false, true).unwrap()
        .then_add_QN_plus_if_SC_or_SS(jacob.0, jacob.1, seat_three, false, false).unwrap()
        .to_game_events();

    for event in game_events_two_names_are_same.clone() {
        println!["{:?}", event];
    }
    
    // ACT

    // control group:
    let game_events_all_names_appear_once_specific = GameEventStreamValidator::new(game_events_all_names_appear_once.clone())
        .check_for_no_quizzer_name_duplicates_within_team()
        .validate();
    let game_events_all_names_appear_once_everything = GameEventStreamValidator::new(game_events_all_names_appear_once.clone())
        .check_for_everything()
        .validate();

    let game_events_two_names_are_same_specific = GameEventStreamValidator::new(game_events_two_names_are_same.clone())
        .check_for_no_quizzer_name_duplicates_within_team()
        .validate();
    let game_events_two_names_are_same_everything = GameEventStreamValidator::new(game_events_two_names_are_same.clone())
        .check_for_everything()
        .validate();

    // ASSERT

    // control:
    assert![game_events_all_names_appear_once_specific.is_ok()];
    assert![game_events_all_names_appear_once_everything.is_ok()];

    assert![game_events_two_names_are_same_specific.is_err()];
    assert![game_events_two_names_are_same_everything.is_err()];
}

#[test]
fn competitive_and_dense_rankings_differ_after_a_tie() {
    let team = |score: i32| {
        let mut t = TeamForGameEventCalculator::new();
        t.score = score;
        t
    };
    let mut teams = vec![(0, team(100)), (1, team(100)), (2, team(60))];
    update_team_rankings_using_competitive_ranking(&mut teams);
    assert_eq!(teams.iter().map(|(_, t)| t.rank).collect::<Vec<i32>>(), vec![1, 1, 3]);
    update_team_rankings_using_dense_ranking(&mut teams);
    assert_eq!(teams.iter().map(|(_, t)| t.rank).collect::<Vec<i32>>(), vec![1, 1, 2]);
}

fn short_stream(game_id: u128, remove: bool) -> Vec<GameEvent> {
    let b = GameEventStreamBuilder::new(game_id)
        .then_add_RM("Tournament")
        .then_add_QT("Nazarene")
        .then_add_TN("Red Team", 0).unwrap()
        .then_add_QN_plus_if_SC_or_SS("Jacob", 0, 0, true, false).unwrap()
        .then_add_QN_plus_if_SC_or_SS("Taran", 0, 1, false, true).unwrap()
        .then_add_TN("Blue Team", 1).unwrap()
        .then_add_QN_plus_if_SC_or_SS("Audrey", 1, 0, true, false).unwrap()
        .then_add_TC("Audrey", 1).unwrap()
        .then_add_TC("Jacob", 0).unwrap()
        .then_add_TE_and_bonuses("Taran", 0, true, false).unwrap();
    let b = if remove { b.then_remove_questions(2).unwrap().then_add_TC("Taran", 0).unwrap() } else { b };
    b.to_game_events().0
}

#[test]
fn scoring_ignores_the_order_events_come_in() {
    let events = short_stream(5, false);
    let mut reversed = events.clone();
    reversed.reverse();
    let a = GameEventCalculator::new(5, events).calculate_current_game_scores_and_counts().unwrap();
    let b = GameEventCalculator::new(5, reversed).calculate_current_game_scores_and_counts().unwrap();
    assert_eq!(a.current_question, b.current_question);
    assert_eq!(a.team(0).unwrap().score, b.team(0).unwrap().score);
    assert_eq!(a.team(1).unwrap().score, b.team(1).unwrap().score);
    assert_eq!(a.team(0).unwrap().score, 20);
}

#[test]
fn scoring_ignores_removed_events() {
    let events = short_stream(6, true);
    assert!(events.iter().any(|e| e.event == "DE"));
    let live: Vec<GameEvent> = events.iter().filter(|e| e.event != "DE").cloned().collect();
    let a = GameEventCalculator::new(6, events).calculate_current_game_scores_and_counts().unwrap();
    let b = GameEventCalculator::new(6, live).calculate_current_game_scores_and_counts().unwrap();
    assert_eq!(a.current_question, b.current_question);
    assert_eq!(a.team(0).unwrap().score, b.team(0).unwrap().score);
    assert_eq!(a.team(1).unwrap().score, b.team(1).unwrap().score);
    assert_eq!((a.team(0).unwrap().score, a.team(1).unwrap().score), (20, 20));
}

#[test]
fn more_checks_never_pass_a_failing_stream() {
    let mut events = short_stream(7, false);
    events.swap(0, 3);
    let fewer = GameEventStreamValidator::new(events.clone()).check_for_has_RM_and_QT().validate();
    let more = GameEventStreamValidator::new(events.clone()).check_for_everything().validate();
    assert!(fewer.is_ok());
    assert!(more.is_ok());
    let no_rm: Vec<GameEvent> = events.iter().filter(|e| e.event != "RM").cloned().collect();
    let fewer = GameEventStreamValidator::new(no_rm.clone()).check_for_has_RM_and_QT().validate();
    let more = GameEventStreamValidator::new(no_rm).check_for_everything().validate();
    assert!(fewer.is_err());
    let (f, m) = (fewer.unwrap_err(), more.unwrap_err());
    assert!(f.iter().all(|msg| m.contains(msg)));
}

#[test]
fn the_validator_says_when_it_can_read_the_events() {
    let mut events = short_stream(8, false);
    assert!(GameEventStreamValidator::new(events.clone()).check_for_everything().can_validate());
    events[3].event = "ZZ".to_string();
    assert!(GameEventStreamValidator::new(events.clone()).can_validate());
    assert!(GameEventStreamValidator::new(events.clone()).check_for_sort_order().can_validate());
    assert!(!GameEventStreamValidator::new(events.clone()).check_for_has_RM_and_QT().can_validate());
    let mut far = short_stream(8, false);
    far[2].team = 3;
    assert!(far[2].event == "TN");
    assert!(!GameEventStreamValidator::new(far.clone()).check_for_no_team_name_duplicates().can_validate());
    assert!(GameEventStreamValidator::new(far).check_for_sort_order().can_validate());
}

#[test]
fn checked_scoring_says_when_events_cannot_be_scored() {
    let events = short_stream(9, false);
    let ok = GameEventCalculator::new(9, events.clone()).calculate_checked();
    assert_eq!(ok.unwrap().unwrap().team(0).unwrap().score, 20);
    let mut stray = events.clone();
    let mut e = stray.last().unwrap().clone();
    e.question = 4;
    e.eventnum = 0;
    e.event = "TC".to_string();
    e.team = 2;
    e.quizzer = 0;
    stray.push(e.clone());
    let calc = GameEventCalculator::new(9, stray.clone());
    assert!(calc.step_gets_stuck(&e, 16));
    assert!(GameEventCalculator::new(9, stray).calculate_checked().is_none());
    let mut unknown = events;
    unknown[5].event = "ZZ".to_string();
    assert!(GameEventCalculator::new(9, unknown).calculate_checked().is_none());
}
