//! What the score calculator computes: a state after each event of a game, read in order.
use vstd::prelude::*;
use crate::gameevent::code::{code_of, GameEventCode};
use crate::gameevent::event::{sort_events, GameEventView};
use crate::seats::{seat_get, seat_has, seat_insert, seat_remove};
use crate::text::int_text;

verus! {

/// Questions in regulation play; a toss-up after them breaks a tie.
pub const DEFAULT_QUESTIONS_PER_GAME: i32 = 20;
/// The seat a substituted quizzer waits in.
pub const DEFAULT_INTERIM_SUBSTITUTION_SEAT: i32 = 1000;
pub const DEFAULT_QUIZ_OUT: i32 = 4;
pub const DEFAULT_ERROR_OUT: i32 = 3;
pub const DEFAULT_FOUL_OUT: i32 = 3;
pub const DEFAULT_2_TEAM_TIMEOUTS: i32 = 3;
pub const DEFAULT_3_TEAM_TIMEOUTS: i32 = 2;
pub const DEFAULT_TEAM_ERROR_BEGIN_DEDUCTION_COUNT: i32 = 5;
pub const DEFAULT_INDIVIDUAL_ERROR_BEGIN_DEDUCTION_COUNT: i32 = 3;
pub const DEFAULT_POINT_AWARD_FOR_CORRECT_TOSSUP: i32 = 20;
pub const DEFAULT_POINT_AWARD_FOR_QUIZZING_OUT: i32 = 10;
pub const DEFAULT_POINT_DEDUCATED_FOR_ERROR_ON_TOSSUP: i32 = 10;
pub const DEFAULT_POINT_AWARD_FOR_CORRECT_BONUS: i32 = 10;
pub const DEFAULT_START_ERROR_ZONE_DEDUCTIONS: i32 = 16;
pub const DEFAULT_COUNT_OF_TEAM_ERRORS_THAT_BEGIN_TEAM_POINT_DEDUCTIONS: i32 = 5;
pub const DEFAULT_THIRD_FOURTH_AND_FIFTH_PERSON_BONUS_AWARD_AMOUNT: i32 = 10;
pub const DEFAULT_ATTEMPT_TRY_WHEN_DEDUCATIONS_BEGIN_FOR_OVERRULED_CHALLENGES_BY_A_TEAM: i32 = 2;
pub const DEFAULT_OVERRULED_CHALLENGE_POINT_DEDUCTION_AMOUNT: i32 = 10;
pub const DEFAULT_FOUL_COUNT_WHERE_TEAM_POINT_DEDUCTIONS_BEGIN: i32 = 2;
pub const DEFAULT_TEAM_FOUL_DEDUCTION_AMOUNT: i32 = 10;

/// The rules in force while a game is scored.
#[derive(Clone, Copy, Debug, PartialEq, Eq, Structural)]
pub struct OptionsForGameEventCalculator {
    pub is_tournament: bool,
    pub quiz_out: i32,
    pub error_out: i32,
    pub foul_out: i32,
    pub team_error_begin_deduction_count: i32,
    pub individual_begin_deduction_count: i32,
    pub point_award_for_correct_tossup: i32,
    pub point_award_for_quizzing_out: i32,
    pub point_deduction_for_error_on_tossup: i32,
    pub point_award_for_correct_bonus: i32,
    pub start_error_zone_deductions: i32,
    pub third_fourth_and_fifth_person_bonus_award_amount: i32,
    pub attempt_try_when_deductions_begin_for_overruled_challenges_by_a_team: i32,
    pub overruled_challenge_point_deduction_amount: i32,
    pub foul_count_where_team_point_deductions_begin: i32,
    pub team_foul_deduction_amount: i32,
    pub individual_error_begin_deduction_count: i32,
}

/// The default rules.
pub open spec fn default_options() -> OptionsForGameEventCalculator {
    OptionsForGameEventCalculator {
        is_tournament: true,
        quiz_out: DEFAULT_QUIZ_OUT,
        error_out: DEFAULT_ERROR_OUT,
        foul_out: DEFAULT_FOUL_OUT,
        team_error_begin_deduction_count: DEFAULT_TEAM_ERROR_BEGIN_DEDUCTION_COUNT,
        individual_begin_deduction_count: DEFAULT_TEAM_ERROR_BEGIN_DEDUCTION_COUNT,
        point_award_for_correct_tossup: DEFAULT_POINT_AWARD_FOR_CORRECT_TOSSUP,
        point_award_for_quizzing_out: DEFAULT_POINT_AWARD_FOR_QUIZZING_OUT,
        point_deduction_for_error_on_tossup: DEFAULT_POINT_DEDUCATED_FOR_ERROR_ON_TOSSUP,
        point_award_for_correct_bonus: DEFAULT_POINT_AWARD_FOR_CORRECT_BONUS,
        start_error_zone_deductions: DEFAULT_START_ERROR_ZONE_DEDUCTIONS,
        third_fourth_and_fifth_person_bonus_award_amount: DEFAULT_THIRD_FOURTH_AND_FIFTH_PERSON_BONUS_AWARD_AMOUNT,
        attempt_try_when_deductions_begin_for_overruled_challenges_by_a_team: DEFAULT_ATTEMPT_TRY_WHEN_DEDUCATIONS_BEGIN_FOR_OVERRULED_CHALLENGES_BY_A_TEAM,
        overruled_challenge_point_deduction_amount: DEFAULT_OVERRULED_CHALLENGE_POINT_DEDUCTION_AMOUNT,
        foul_count_where_team_point_deductions_begin: DEFAULT_FOUL_COUNT_WHERE_TEAM_POINT_DEDUCTIONS_BEGIN,
        team_foul_deduction_amount: DEFAULT_TEAM_FOUL_DEDUCTION_AMOUNT,
        individual_error_begin_deduction_count: DEFAULT_INDIVIDUAL_ERROR_BEGIN_DEDUCTION_COUNT,
    }
}

/// A quizzer's record: the question numbers of each ruling, and the question of a quiz,
/// error or foul out (-1 when none).
pub struct QuizzerView {
    pub name: Seq<char>,
    pub correct_tossups: Seq<i32>,
    pub errors_on_tossups: Seq<i32>,
    pub correct_bonuses: Seq<i32>,
    pub errors_on_bonuses: Seq<i32>,
    pub fouls_received: Seq<i32>,
    pub question_quizzed_out_on: i32,
    pub question_errored_out_on: i32,
    pub question_fouled_out_on: i32,
}

/// A team's record. `quizzers` maps seats to quizzers; `captain` and `cocaptain` are a seat
/// and whether that quizzer may still act; `rank` is -1 until a tie is broken.
pub struct TeamView {
    pub name: Seq<char>,
    pub score: int,
    pub timeouts_taken: Seq<i32>,
    pub overruled_challenges: Seq<i32>,
    pub team_and_coach_fouls_received: Seq<(i32, bool)>,
    pub quizzers: Seq<(i32, QuizzerView)>,
    pub captain: (i32, bool),
    pub cocaptain: (i32, bool),
    pub substitutions: Seq<(i32, i32)>,
    pub rank: int,
}

/// The calculator's state: the question in play, the teams by number, the rules.
pub struct CalcState {
    pub current_question: int,
    pub teams: Seq<(i32, TeamView)>,
    pub options: OptionsForGameEventCalculator,
}

/// The outcome of reading one event: the next state with the messages it adds, a failure
/// with its message, or an event that the calculator cannot read (it names a team or a seat
/// that has no record, or carries no code).
pub enum CalcStep {
    Next(CalcState, Seq<Seq<char>>),
    Fatal(Seq<Seq<char>>),
    Stuck,
}

/// The outcome of reading a list of events.
pub enum CalcOutcome {
    Done(CalcState, Seq<Seq<char>>),
    Fatal(Seq<Seq<char>>),
    Stuck,
}

pub open spec fn new_quizzer(name: Seq<char>) -> QuizzerView {
    QuizzerView {
        name: name,
        correct_tossups: seq![],
        errors_on_tossups: seq![],
        correct_bonuses: seq![],
        errors_on_bonuses: seq![],
        fouls_received: seq![],
        question_quizzed_out_on: -1i32,
        question_errored_out_on: -1i32,
        question_fouled_out_on: -1i32,
    }
}

pub open spec fn new_team(name: Seq<char>) -> TeamView {
    TeamView {
        name: name,
        score: 0,
        timeouts_taken: seq![],
        overruled_challenges: seq![],
        team_and_coach_fouls_received: seq![],
        quizzers: seq![],
        captain: (-1i32, false),
        cocaptain: (-1i32, false),
        substitutions: seq![],
        rank: -1,
    }
}

pub open spec fn initial_state() -> CalcState {
    CalcState { current_question: 1, teams: seq![], options: default_options() }
}

// ─── Team tallies ───────────────────────────────────────────────────────────

/// The toss-up errors of all quizzers.
pub open spec fn tossup_error_total(qs: Seq<(i32, QuizzerView)>) -> nat
    decreases qs.len(),
{
    if qs.len() == 0 {
        0
    } else {
        tossup_error_total(qs.drop_last()) + qs.last().1.errors_on_tossups.len()
    }
}

/// The number of quizzers with at least one correct toss-up.
pub open spec fn scoring_quizzer_count(qs: Seq<(i32, QuizzerView)>) -> nat
    decreases qs.len(),
{
    if qs.len() == 0 {
        0
    } else {
        scoring_quizzer_count(qs.drop_last()) + if qs.last().1.correct_tossups.len() > 0 { 1nat } else { 0nat }
    }
}

/// The fouls on all quizzers.
pub open spec fn quizzer_foul_total(qs: Seq<(i32, QuizzerView)>) -> nat
    decreases qs.len(),
{
    if qs.len() == 0 {
        0
    } else {
        quizzer_foul_total(qs.drop_last()) + qs.last().1.fouls_received.len()
    }
}

/// Every foul of a team: on the team or coach, and on its quizzers.
pub open spec fn team_foul_total(t: TeamView) -> nat {
    t.team_and_coach_fouls_received.len() + quizzer_foul_total(t.quizzers)
}

/// Whether the team's toss-up errors have reached the count at which each costs the team.
pub open spec fn errors_cost_team(t: TeamView) -> bool {
    tossup_error_total(t.quizzers) >= DEFAULT_COUNT_OF_TEAM_ERRORS_THAT_BEGIN_TEAM_POINT_DEDUCTIONS
}

// ─── Rankings and ties ──────────────────────────────────────────────────────

/// The number of teams whose score is higher than `x`.
pub open spec fn count_higher(ts: Seq<(i32, TeamView)>, x: int) -> nat
    decreases ts.len(),
{
    if ts.len() == 0 {
        0
    } else {
        count_higher(ts.drop_last(), x) + if ts.last().1.score > x { 1nat } else { 0nat }
    }
}

/// Competitive ranking: each team's rank is one more than the number of teams ahead of it.
pub open spec fn competitive_ranks(ts: Seq<(i32, TeamView)>) -> Seq<(i32, TeamView)> {
    Seq::new(ts.len(), |i: int| (ts[i].0, TeamView { rank: 1 + count_higher(ts, ts[i].1.score) as int, ..ts[i].1 }))
}

/// The number of distinct scores higher than `x`, each counted where it first occurs.
pub open spec fn count_distinct_higher(ts: Seq<(i32, TeamView)>, x: int) -> nat
    decreases ts.len(),
{
    if ts.len() == 0 {
        0
    } else {
        let rest = ts.drop_last();
        let s = ts.last().1.score;
        count_distinct_higher(rest, x) + if s > x && !(exists|j: int| 0 <= j < rest.len() && rest[j].1.score == s) { 1nat } else { 0nat }
    }
}

/// Dense ranking: each team's rank is one more than the number of distinct higher scores.
pub open spec fn dense_ranks(ts: Seq<(i32, TeamView)>) -> Seq<(i32, TeamView)> {
    Seq::new(ts.len(), |i: int| (ts[i].0, TeamView { rank: 1 + count_distinct_higher(ts, ts[i].1.score) as int, ..ts[i].1 }))
}

/// Two teams share a score.
pub open spec fn tie_exists(ts: Seq<(i32, TeamView)>) -> bool {
    exists|i: int, j: int| 0 <= i < j < ts.len() && ts[i].1.score == ts[j].1.score
}

// ─── Messages ───────────────────────────────────────────────────────────────

pub open spec fn msg_not_nazarene(name: Seq<char>) -> Seq<char> {
    "Game type is something other than 'Nazarene' but rules are implemented only for 'Nazarene'. Specified organization: "@ + name
}

pub open spec fn msg_option_blank() -> Seq<char> {
    "GameEvent code/type 'OP' was specified but option name provided was blank."@
}

pub open spec fn msg_option_unknown(name: Seq<char>) -> Seq<char> {
    "GameEvent code/type 'OP' was specified but option name provided was not found among acceptable options. Option specified: '"@ + name + "'"@
}

pub open spec fn msg_no_tie_tc() -> Seq<char> {
    "In the absence of a tied score after regulation questions, a TC event was found which is invalid."@
}

pub open spec fn msg_no_tie_te() -> Seq<char> {
    "In the absence of a tied score after regulation questions, a TE event was found which is invalid."@
}

/// The message when a quizzer to be moved is not in the expected seat.
pub open spec fn msg_seat_empty(team: i32, seat: i32, question: i32) -> Seq<char> {
    "Tried to change quizzer's seat location for substitution but quizzer wasn't found at that seat. Team: '"@
        + int_text(team as int) + "', Quizzer seat: '"@ + int_text(seat as int) + "', Question: '"@
        + int_text(question as int) + "'"@
}

// ─── One event ──────────────────────────────────────────────────────────────

/// The position of the first quizzer with the given name (the length if none).
pub open spec fn first_named(qs: Seq<(i32, QuizzerView)>, name: Seq<char>) -> int
    decreases qs.len(),
{
    if qs.len() == 0 {
        0
    } else if qs[0].1.name == name {
        0
    } else {
        1 + first_named(qs.drop_first(), name)
    }
}

pub open spec fn with_team(st: CalcState, k: i32, t: TeamView) -> CalcState {
    CalcState { teams: seat_insert(st.teams, k, t), ..st }
}

pub open spec fn with_question(st: CalcState, q: int) -> CalcState {
    CalcState { current_question: q, ..st }
}

pub open spec fn with_quizzer(t: TeamView, k: i32, qz: QuizzerView) -> TeamView {
    TeamView { quizzers: seat_insert(t.quizzers, k, qz), ..t }
}

pub open spec fn with_score(t: TeamView, s: int) -> TeamView {
    TeamView { score: s, ..t }
}

/// The captain and co-captain after the quizzer in `seat` is out: the first of the two that
/// sits there can no longer act.
pub open spec fn retire_leader(t: TeamView, seat: i32) -> TeamView {
    if t.captain.0 == seat {
        TeamView { captain: (seat, false), ..t }
    } else if t.cocaptain.0 == seat {
        TeamView { cocaptain: (seat, false), ..t }
    } else {
        t
    }
}

/// The state after an option event.
pub open spec fn step_option(st: CalcState, e: GameEventView) -> CalcStep {
    let o = st.options;
    if e.name == "QuizOut"@ {
        CalcStep::Next(CalcState { options: OptionsForGameEventCalculator { quiz_out: e.quizzer, ..o }, ..st }, seq![])
    } else if e.name == "ErrorOut"@ {
        CalcStep::Next(CalcState { options: OptionsForGameEventCalculator { error_out: e.quizzer, ..o }, ..st }, seq![])
    } else if e.name == "FoulOut"@ {
        CalcStep::Next(CalcState { options: OptionsForGameEventCalculator { foul_out: e.quizzer, ..o }, ..st }, seq![])
    } else if e.name == "QuizzerDeduct"@ {
        CalcStep::Next(CalcState { options: OptionsForGameEventCalculator { team_error_begin_deduction_count: e.quizzer, ..o }, ..st }, seq![])
    } else if e.name == "TeamDeduct"@ {
        CalcStep::Next(CalcState { options: OptionsForGameEventCalculator { individual_begin_deduction_count: e.quizzer, ..o }, ..st }, seq![])
    } else if e.name == Seq::<char>::empty() {
        CalcStep::Next(st, seq![msg_option_blank()])
    } else {
        CalcStep::Next(st, seq![msg_option_unknown(e.name)])
    }
}

/// The state after a quizzer-name event: a new quizzer is seated, or a quizzer already on the
/// team (the first by seat with that name) moves to the seat named.
pub open spec fn step_quizzer_name(st: CalcState, e: GameEventView) -> CalcStep {
    if !seat_has(st.teams, e.team) {
        CalcStep::Stuck
    } else {
        let t = seat_get(st.teams, e.team);
        let p = first_named(t.quizzers, e.name);
        if p >= t.quizzers.len() {
            CalcStep::Next(with_team(st, e.team, with_quizzer(t, e.quizzer, new_quizzer(e.name))), seq![])
        } else {
            let seat = t.quizzers[p].0;
            if !seat_has(t.quizzers, seat) {
                CalcStep::Fatal(seq![msg_seat_empty(e.team, e.quizzer, e.question)])
            } else {
                let qz = seat_get(t.quizzers, seat);
                let t2 = TeamView { quizzers: seat_insert(seat_remove(t.quizzers, seat), e.quizzer, qz), ..t };
                CalcStep::Next(with_team(st, e.team, t2), seq![])
            }
        }
    }
}

/// The bonus for a team whose third, fourth or fifth quizzer answers a first toss-up.
pub open spec fn new_scorer_bonus(before: nat, after: nat) -> bool {
    (before == 2 && after == 3) || (before == 3 && after == 4) || (before == 4 && after == 5)
}

/// The state after a correct toss-up.
pub open spec fn step_tossup_correct(st: CalcState, e: GameEventView) -> CalcStep {
    if !seat_has(st.teams, e.team) {
        CalcStep::Stuck
    } else {
        let t = seat_get(st.teams, e.team);
        let before = scoring_quizzer_count(t.quizzers);
        let award = st.options.point_award_for_correct_tossup as int;
        if st.current_question > DEFAULT_QUESTIONS_PER_GAME {
            if !tie_exists(st.teams) {
                CalcStep::Fatal(seq![msg_no_tie_tc()])
            } else {
                // The winner of the tie ranks ahead, while the score shown stays tied.
                let up = seat_insert(st.teams, e.team, with_score(t, t.score + award));
                let ranked = competitive_ranks(up);
                let t2 = seat_get(ranked, e.team);
                let t3 = with_score(t2, t2.score - award);
                if !seat_has(t3.quizzers, e.quizzer) {
                    CalcStep::Stuck
                } else {
                    let qz = seat_get(t3.quizzers, e.quizzer);
                    let qz2 = QuizzerView { correct_tossups: qz.correct_tossups.push(e.question), ..qz };
                    let st2 = CalcState { teams: seat_insert(ranked, e.team, with_quizzer(t3, e.quizzer, qz2)), ..st };
                    CalcStep::Next(with_question(st2, e.question + 1), seq![])
                }
            }
        } else if !seat_has(t.quizzers, e.quizzer) {
            CalcStep::Stuck
        } else {
            let qz = seat_get(t.quizzers, e.quizzer);
            let qz2 = QuizzerView { correct_tossups: qz.correct_tossups.push(e.question), ..qz };
            let t2 = with_quizzer(t, e.quizzer, qz2);
            let t3 = with_score(t2, t2.score + award);
            let after = scoring_quizzer_count(t3.quizzers);
            let t4 = if new_scorer_bonus(before, after) {
                with_score(t3, t3.score + st.options.third_fourth_and_fifth_person_bonus_award_amount)
            } else {
                t3
            };
            CalcStep::Next(with_question(with_team(st, e.team, t4), e.question + 1), seq![])
        }
    }
}

/// The state after a toss-up error. `zone` is the question from which every error costs.
pub open spec fn step_tossup_error(st: CalcState, e: GameEventView, zone: int) -> CalcStep {
    let deduction = st.options.point_deduction_for_error_on_tossup as int;
    if st.current_question > DEFAULT_QUESTIONS_PER_GAME {
        if !tie_exists(st.teams) {
            CalcStep::Fatal(seq![msg_no_tie_te()])
        } else if !seat_has(st.teams, e.team) {
            CalcStep::Stuck
        } else {
            // The team in error ranks behind, while the score shown stays tied.
            let t = seat_get(st.teams, e.team);
            let down = seat_insert(st.teams, e.team, with_score(t, t.score - deduction));
            let ranked = competitive_ranks(down);
            let t2 = seat_get(ranked, e.team);
            let t3 = with_score(t2, t2.score + deduction);
            if !seat_has(t3.quizzers, e.quizzer) {
                CalcStep::Stuck
            } else {
                let qz = seat_get(t3.quizzers, e.quizzer);
                let qz2 = QuizzerView { errors_on_tossups: qz.errors_on_tossups.push(e.question), ..qz };
                let st2 = CalcState { teams: seat_insert(ranked, e.team, with_quizzer(t3, e.quizzer, qz2)), ..st };
                CalcStep::Next(with_question(st2, e.question + 1), seq![])
            }
        }
    } else if !seat_has(st.teams, e.team) {
        CalcStep::Stuck
    } else {
        let t = seat_get(st.teams, e.team);
        if !seat_has(t.quizzers, e.quizzer) {
            CalcStep::Stuck
        } else {
            let qz = seat_get(t.quizzers, e.quizzer);
            let qz2 = QuizzerView { errors_on_tossups: qz.errors_on_tossups.push(e.question), ..qz };
            let t2 = with_quizzer(t, e.quizzer, qz2);
            let costs = e.question >= zone || errors_cost_team(t2)
                || qz2.errors_on_tossups.len() >= st.options.individual_error_begin_deduction_count;
            let t3 = if costs { with_score(t2, t2.score - deduction) } else { t2 };
            CalcStep::Next(with_question(with_team(st, e.team, t3), e.question as int), seq![])
        }
    }
}

/// The state after an event that changes one quizzer's record and the team's record:
/// `f` gives the new quizzer record, `g` the new team record from the team with that
/// quizzer record in place.
pub open spec fn step_on_quizzer(
    st: CalcState,
    e: GameEventView,
    f: spec_fn(QuizzerView) -> QuizzerView,
    g: spec_fn(TeamView, QuizzerView) -> TeamView,
    next_question: int,
) -> CalcStep {
    if !seat_has(st.teams, e.team) {
        CalcStep::Stuck
    } else {
        let t = seat_get(st.teams, e.team);
        if !seat_has(t.quizzers, e.quizzer) {
            CalcStep::Stuck
        } else {
            let qz2 = f(seat_get(t.quizzers, e.quizzer));
            let t2 = g(with_quizzer(t, e.quizzer, qz2), qz2);
            CalcStep::Next(CalcState { teams: seat_insert(st.teams, e.team, t2), current_question: next_question, ..st }, seq![])
        }
    }
}

/// The state after an event that changes the team's record only.
pub open spec fn step_on_team(st: CalcState, e: GameEventView, g: spec_fn(TeamView) -> TeamView, next_question: int) -> CalcStep {
    if !seat_has(st.teams, e.team) {
        CalcStep::Stuck
    } else {
        let t = seat_get(st.teams, e.team);
        CalcStep::Next(CalcState { teams: seat_insert(st.teams, e.team, g(t)), current_question: next_question, ..st }, seq![])
    }
}

/// The state after a foul on a quizzer.
pub open spec fn fminus_team(t: TeamView, qz: QuizzerView, seat: i32, o: OptionsForGameEventCalculator) -> TeamView {
    let t2 = if qz.fouls_received.len() >= DEFAULT_FOUL_OUT {
        if t.captain.0 == seat {
            TeamView { captain: (seat, false), ..t }
        } else if t.cocaptain.0 == seat {
            TeamView { cocaptain: (seat, false), ..t }
        } else {
            t
        }
    } else {
        t
    };
    if team_foul_total(t2) >= o.foul_count_where_team_point_deductions_begin {
        with_score(t2, t2.score - o.team_foul_deduction_amount)
    } else {
        t2
    }
}

/// The state after a substitution: the quizzer in the seat named waits in the interim seat.
pub open spec fn step_substitution(st: CalcState, e: GameEventView) -> CalcStep {
    if !seat_has(st.teams, e.team) {
        CalcStep::Stuck
    } else {
        let t = seat_get(st.teams, e.team);
        if !seat_has(t.quizzers, e.quizzer) {
            CalcStep::Fatal(seq![msg_seat_empty(e.team, e.quizzer, e.question)])
        } else {
            let qz = seat_get(t.quizzers, e.quizzer);
            let t2 = TeamView {
                quizzers: seat_insert(seat_remove(t.quizzers, e.quizzer), DEFAULT_INTERIM_SUBSTITUTION_SEAT, qz),
                substitutions: t.substitutions.push((e.question, e.quizzer)),
                ..t
            };
            CalcStep::Next(with_team(st, e.team, t2), seq![])
        }
    }
}

/// What one event does to the state.
pub open spec fn calc_step(st: CalcState, e: GameEventView, zone: int) -> CalcStep {
    let o = st.options;
    let q = e.question as int;
    match code_of(e.event) {
        None => CalcStep::Stuck,
        Some(c) => match c {
            GameEventCode::RM => CalcStep::Next(with_question(st, q), seq![]),
            GameEventCode::QT => CalcStep::Next(
                st,
                if e.name != "Nazarene"@ { seq![msg_not_nazarene(e.name)] } else { seq![] },
            ),
            GameEventCode::IP => CalcStep::Next(
                if e.name == "Practice"@ {
                    CalcState { options: OptionsForGameEventCalculator { is_tournament: false, ..o }, ..st }
                } else {
                    st
                },
                seq![],
            ),
            GameEventCode::OP => step_option(st, e),
            GameEventCode::TN => CalcStep::Next(with_team(st, e.team, new_team(e.name)), seq![]),
            GameEventCode::QN => step_quizzer_name(st, e),
            GameEventCode::SC => step_on_team(st, e, |t: TeamView| TeamView { captain: (e.quizzer, true), ..t }, st.current_question),
            GameEventCode::SS => step_on_team(st, e, |t: TeamView| TeamView { cocaptain: (e.quizzer, true), ..t }, st.current_question),
            GameEventCode::TC => step_tossup_correct(st, e),
            GameEventCode::TE => step_tossup_error(st, e, zone),
            GameEventCode::NJ => CalcStep::Next(with_question(st, q + 1), seq![]),
            GameEventCode::BC => step_on_quizzer(
                st, e,
                |qz: QuizzerView| QuizzerView { correct_bonuses: qz.correct_bonuses.push(e.question), ..qz },
                |t: TeamView, qz: QuizzerView| with_score(t, t.score + o.point_award_for_correct_bonus),
                q + 1,
            ),
            GameEventCode::BE => step_on_quizzer(
                st, e,
                |qz: QuizzerView| QuizzerView { errors_on_bonuses: qz.errors_on_bonuses.push(e.question), ..qz },
                |t: TeamView, qz: QuizzerView| t,
                q + 1,
            ),
            GameEventCode::QO => step_on_quizzer(
                st, e,
                |qz: QuizzerView| QuizzerView { question_quizzed_out_on: e.question, ..qz },
                |t: TeamView, qz: QuizzerView| retire_leader(
                    if qz.errors_on_tossups.len() == 0 { with_score(t, t.score + o.point_award_for_quizzing_out) } else { t },
                    e.quizzer,
                ),
                q + 1,
            ),
            GameEventCode::EO => step_on_quizzer(
                st, e,
                |qz: QuizzerView| QuizzerView { question_errored_out_on: e.question, ..qz },
                |t: TeamView, qz: QuizzerView| retire_leader(t, e.quizzer),
                q + 1,
            ),
            GameEventCode::Cminus => step_on_team(st, e, |t: TeamView| {
                let t2 = TeamView { overruled_challenges: t.overruled_challenges.push(e.question), ..t };
                if t2.overruled_challenges.len() >= o.attempt_try_when_deductions_begin_for_overruled_challenges_by_a_team {
                    with_score(t2, t2.score - o.overruled_challenge_point_deduction_amount)
                } else {
                    t2
                }
            }, q + 1),
            GameEventCode::Aplus => CalcStep::Next(with_question(st, q), seq![]),
            GameEventCode::Aminus => CalcStep::Next(with_question(st, q + 1), seq![]),
            GameEventCode::FC => step_on_team(st, e, |t: TeamView| {
                let t2 = TeamView {
                    team_and_coach_fouls_received: t.team_and_coach_fouls_received.push((e.question, e.quizzer == 5)),
                    ..t
                };
                if team_foul_total(t2) >= o.foul_count_where_team_point_deductions_begin {
                    with_score(t2, t2.score - o.team_foul_deduction_amount)
                } else {
                    t2
                }
            }, st.current_question),
            GameEventCode::Fminus => step_on_quizzer(
                st, e,
                |qz: QuizzerView| QuizzerView { fouls_received: qz.fouls_received.push(e.question), ..qz },
                |t: TeamView, qz: QuizzerView| fminus_team(t, qz, e.quizzer, o),
                st.current_question,
            ),
            GameEventCode::SB => step_substitution(st, e),
            GameEventCode::TO => step_on_team(st, e, |t: TeamView| TeamView { timeouts_taken: t.timeouts_taken.push(e.question), ..t }, st.current_question),
            GameEventCode::DE => CalcStep::Next(st, seq![]),
        },
    }
}

/// Reading events in turn from `st`, with the messages gathered so far.
pub open spec fn calc_run(st: CalcState, events: Seq<GameEventView>, msgs: Seq<Seq<char>>, zone: int) -> CalcOutcome
    decreases events.len(),
{
    if events.len() == 0 {
        CalcOutcome::Done(st, msgs)
    } else {
        match calc_step(st, events[0], zone) {
            CalcStep::Next(st2, m) => calc_run(st2, events.drop_first(), msgs + m, zone),
            CalcStep::Fatal(m) => CalcOutcome::Fatal(msgs + m),
            CalcStep::Stuck => CalcOutcome::Stuck,
        }
    }
}

/// What scoring a game's events gives: the events are read in order of question and event
/// number, from the initial state.
pub open spec fn calculate(events: Seq<GameEventView>, zone: int) -> CalcOutcome {
    calc_run(initial_state(), sort_events(events), seq![], zone)
}

} // verus!
