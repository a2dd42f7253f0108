//! The score calculator: reads a game's events in order and keeps each team's and each
//! quizzer's record, as `calc_spec` states.
use vstd::prelude::*;
use crate::gameevent::calc_spec::{
    CalcState, CalcStep, msg_option_blank, CalcOutcome, calculate, default_options, initial_state, DEFAULT_QUIZ_OUT, DEFAULT_ERROR_OUT, DEFAULT_TEAM_ERROR_BEGIN_DEDUCTION_COUNT, DEFAULT_START_ERROR_ZONE_DEDUCTIONS, with_score, DEFAULT_QUESTIONS_PER_GAME, msg_no_tie_tc, msg_no_tie_te, DEFAULT_INTERIM_SUBSTITUTION_SEAT, first_named, DEFAULT_FOUL_OUT, fminus_team, retire_leader, with_quizzer, calc_step, competitive_ranks, count_distinct_higher, dense_ranks, msg_not_nazarene, msg_option_unknown, msg_seat_empty, with_team, DEFAULT_ATTEMPT_TRY_WHEN_DEDUCATIONS_BEGIN_FOR_OVERRULED_CHALLENGES_BY_A_TEAM, DEFAULT_COUNT_OF_TEAM_ERRORS_THAT_BEGIN_TEAM_POINT_DEDUCTIONS, DEFAULT_FOUL_COUNT_WHERE_TEAM_POINT_DEDUCTIONS_BEGIN, DEFAULT_INDIVIDUAL_ERROR_BEGIN_DEDUCTION_COUNT, DEFAULT_OVERRULED_CHALLENGE_POINT_DEDUCTION_AMOUNT, DEFAULT_POINT_AWARD_FOR_CORRECT_BONUS, DEFAULT_POINT_AWARD_FOR_CORRECT_TOSSUP, DEFAULT_POINT_AWARD_FOR_QUIZZING_OUT, DEFAULT_POINT_DEDUCATED_FOR_ERROR_ON_TOSSUP, DEFAULT_TEAM_FOUL_DEDUCTION_AMOUNT, DEFAULT_THIRD_FOURTH_AND_FIFTH_PERSON_BONUS_AWARD_AMOUNT, OptionsForGameEventCalculator, QuizzerView, TeamView, count_higher, errors_cost_team, new_quizzer, new_team, quizzer_foul_total, scoring_quizzer_count, team_foul_total, tie_exists, tossup_error_total,
};
use crate::gameevent::code::{code_of, GameEventCode};
use crate::gameevent::event::{events_view, texts, GameEvent, GameEventView};
use crate::seats::{
    find_seat, lemma_remove_insert, lemma_seats_view_remove, put_seat, take_seat, lemma_seats_view, lemma_seats_view_put_at, lemma_seats_view_insert, lemma_seats_view_update, seat_get,
    seat_has, seat_insert, seat_pos, seats_view,
};

verus! {

/// A quizzer's record while a game is scored.
#[derive(Debug)]
pub struct QuizzerForGameEventCalculator {
    pub name: String,
    /// The question of each correct toss-up.
    pub correct_tossups: Vec<i32>,
    /// The question of each toss-up error.
    pub errors_on_tossups: Vec<i32>,
    /// The question of each correct bonus.
    pub correct_bonuses: Vec<i32>,
    /// The question of each bonus error.
    pub errors_on_bonuses: Vec<i32>,
    /// The question of each foul.
    pub fouls_received: Vec<i32>,
    pub question_quizzed_out_on: i32,
    pub question_errored_out_on: i32,
    pub question_fouled_out_on: i32,
}

/// A team's record while a game is scored. `quizzers` holds (seat, quizzer) in seat order.
#[derive(Debug)]
pub struct TeamForGameEventCalculator {
    pub name: String,
    pub score: i32,
    pub timeouts_taken: Vec<i32>,
    pub overruled_challenges: Vec<i32>,
    /// (question, whether the foul was on the coach rather than the team)
    pub team_and_coach_fouls_received: Vec<(i32, bool)>,
    pub quizzers: Vec<(i32, QuizzerForGameEventCalculator)>,
    /// (seat, whether the captain may still act)
    pub captain: (i32, bool),
    /// (seat, whether the co-captain may still act)
    pub cocaptain: (i32, bool),
    /// (question, seat) of each substitution
    pub substitutions: Vec<(i32, i32)>,
    pub rank: i32,
}

/// The scores and counts of a game, worked out from its events. `teams` holds
/// (team number, team) in number order.
pub struct GameEventCalculator {
    pub game_id: u128,
    pub current_question: i32,
    pub teams: Vec<(i32, TeamForGameEventCalculator)>,
    pub options: OptionsForGameEventCalculator,
    pub game_events: Vec<GameEvent>,
}

impl View for QuizzerForGameEventCalculator {
    type V = QuizzerView;

    open spec fn view(&self) -> QuizzerView {
        QuizzerView {
            name: self.name@,
            correct_tossups: self.correct_tossups@,
            errors_on_tossups: self.errors_on_tossups@,
            correct_bonuses: self.correct_bonuses@,
            errors_on_bonuses: self.errors_on_bonuses@,
            fouls_received: self.fouls_received@,
            question_quizzed_out_on: self.question_quizzed_out_on,
            question_errored_out_on: self.question_errored_out_on,
            question_fouled_out_on: self.question_fouled_out_on,
        }
    }
}

impl View for TeamForGameEventCalculator {
    type V = TeamView;

    open spec fn view(&self) -> TeamView {
        TeamView {
            name: self.name@,
            score: self.score as int,
            timeouts_taken: self.timeouts_taken@,
            overruled_challenges: self.overruled_challenges@,
            team_and_coach_fouls_received: self.team_and_coach_fouls_received@,
            quizzers: seats_view(self.quizzers@),
            captain: self.captain,
            cocaptain: self.cocaptain,
            substitutions: self.substitutions@,
            rank: self.rank as int,
        }
    }
}

/// The scores stay within what the events read so far can reach, and the point amounts are
/// the default ones.
pub open spec fn calc_fits(st: CalcState, n: int) -> bool {
    &&& 0 <= n
    &&& st.teams.len() <= n
    &&& forall|i: int| 0 <= i < st.teams.len() ==> -30 * n <= #[trigger] st.teams[i].1.score <= 30 * n
    &&& st.options.point_award_for_correct_tossup == DEFAULT_POINT_AWARD_FOR_CORRECT_TOSSUP
    &&& st.options.point_award_for_quizzing_out == DEFAULT_POINT_AWARD_FOR_QUIZZING_OUT
    &&& st.options.point_deduction_for_error_on_tossup == DEFAULT_POINT_DEDUCATED_FOR_ERROR_ON_TOSSUP
    &&& st.options.point_award_for_correct_bonus == DEFAULT_POINT_AWARD_FOR_CORRECT_BONUS
    &&& st.options.third_fourth_and_fifth_person_bonus_award_amount == DEFAULT_THIRD_FOURTH_AND_FIFTH_PERSON_BONUS_AWARD_AMOUNT
    &&& st.options.attempt_try_when_deductions_begin_for_overruled_challenges_by_a_team == DEFAULT_ATTEMPT_TRY_WHEN_DEDUCATIONS_BEGIN_FOR_OVERRULED_CHALLENGES_BY_A_TEAM
    &&& st.options.overruled_challenge_point_deduction_amount == DEFAULT_OVERRULED_CHALLENGE_POINT_DEDUCTION_AMOUNT
    &&& st.options.foul_count_where_team_point_deductions_begin == DEFAULT_FOUL_COUNT_WHERE_TEAM_POINT_DEDUCTIONS_BEGIN
    &&& st.options.team_foul_deduction_amount == DEFAULT_TEAM_FOUL_DEDUCTION_AMOUNT
    &&& st.options.individual_error_begin_deduction_count == DEFAULT_INDIVIDUAL_ERROR_BEGIN_DEDUCTION_COUNT
}

/// The number of events the calculator reads at most: beyond it a score could leave `i32`.
pub const MAX_GAME_EVENTS: usize = 71_500_000;

/// The events can be scored without leaving the integer range: not too many, and no
/// question number at the top of `i32`.
pub open spec fn calc_inputs_fit(events: Seq<crate::gameevent::event::GameEventView>) -> bool {
    &&& events.len() <= MAX_GAME_EVENTS
    &&& forall|i: int| 0 <= i < events.len() ==> #[trigger] events[i].question < i32::MAX
}

impl QuizzerForGameEventCalculator {
    /// A quizzer with no rulings.
    pub fn new(name: &str) -> (r: Self)
        ensures
            r@ == new_quizzer(name@),
    {
        QuizzerForGameEventCalculator {
            name: String::from_str(name),
            correct_tossups: Vec::new(),
            errors_on_tossups: Vec::new(),
            correct_bonuses: Vec::new(),
            errors_on_bonuses: Vec::new(),
            fouls_received: Vec::new(),
            question_quizzed_out_on: -1,
            question_errored_out_on: -1,
            question_fouled_out_on: -1,
        }
    }
}

/// Whether the toss-up errors of the quizzers reach `limit`.
fn tossup_errors_reach(qs: &Vec<(i32, QuizzerForGameEventCalculator)>, limit: u128) -> (r: bool)
    requires
        limit <= u64::MAX,
    ensures
        r == (tossup_error_total(seats_view(qs@)) >= limit),
{
    let ghost v = seats_view(qs@);
    let mut acc: u128 = 0;
    let mut j: usize = 0;
    while j < qs.len()
        invariant
            j <= qs@.len(),
            v == seats_view(qs@),
            limit <= u64::MAX,
            tossup_error_total(v.take(j as int)) < limit ==> acc == tossup_error_total(v.take(j as int)),
            tossup_error_total(v.take(j as int)) >= limit ==> acc >= limit,
            acc < limit + 0x1_0000_0000_0000_0000,
        decreases qs@.len() - j,
    {
        proof {
            assert(v.take(j + 1).drop_last() =~= v.take(j as int));
        }
        if acc < limit {
            acc = acc + qs[j].1.errors_on_tossups.len() as u128;
        }
        j = j + 1;
    }
    proof {
        assert(v.take(qs@.len() as int) =~= v);
    }
    acc >= limit
}

/// Whether the fouls on the quizzers, with `base` more, reach `limit`.
fn quizzer_fouls_reach(qs: &Vec<(i32, QuizzerForGameEventCalculator)>, base: usize, limit: u128) -> (r: bool)
    requires
        limit <= u64::MAX,
    ensures
        r == (base + quizzer_foul_total(seats_view(qs@)) >= limit),
{
    let ghost v = seats_view(qs@);
    let mut acc: u128 = base as u128;
    let mut j: usize = 0;
    while j < qs.len()
        invariant
            j <= qs@.len(),
            v == seats_view(qs@),
            limit <= u64::MAX,
            base + quizzer_foul_total(v.take(j as int)) < limit ==> acc == base + quizzer_foul_total(v.take(j as int)),
            base + quizzer_foul_total(v.take(j as int)) >= limit ==> acc >= limit,
            acc < limit + 0x1_0000_0000_0000_0000,
        decreases qs@.len() - j,
    {
        proof {
            assert(v.take(j + 1).drop_last() =~= v.take(j as int));
        }
        if acc < limit {
            acc = acc + qs[j].1.fouls_received.len() as u128;
        }
        j = j + 1;
    }
    proof {
        assert(v.take(qs@.len() as int) =~= v);
    }
    acc >= limit
}

/// The number of quizzers with at least one correct toss-up.
fn count_scoring_quizzers(qs: &Vec<(i32, QuizzerForGameEventCalculator)>) -> (r: usize)
    ensures
        r == scoring_quizzer_count(seats_view(qs@)),
        r <= qs@.len(),
{
    let ghost v = seats_view(qs@);
    let mut acc: usize = 0;
    let mut j: usize = 0;
    while j < qs.len()
        invariant
            j <= qs@.len(),
            v == seats_view(qs@),
            acc == scoring_quizzer_count(v.take(j as int)),
            acc <= j,
        decreases qs@.len() - j,
    {
        proof {
            assert(v.take(j + 1).drop_last() =~= v.take(j as int));
        }
        if qs[j].1.correct_tossups.len() > 0 {
            acc = acc + 1;
        }
        j = j + 1;
    }
    proof {
        assert(v.take(qs@.len() as int) =~= v);
    }
    acc
}

impl TeamForGameEventCalculator {
    /// A team with no name, no score and no quizzers.
    pub fn new() -> (r: Self)
        ensures
            r@ == new_team(Seq::<char>::empty()),
    {
        let r = TeamForGameEventCalculator {
            name: String::new(),
            score: 0,
            timeouts_taken: Vec::new(),
            overruled_challenges: Vec::new(),
            team_and_coach_fouls_received: Vec::new(),
            quizzers: Vec::new(),
            captain: (-1, false),
            cocaptain: (-1, false),
            substitutions: Vec::new(),
            rank: -1,
        };
        proof {
            assert(seats_view(r.quizzers@) =~= Seq::<(i32, QuizzerView)>::empty());
        }
        r
    }

    /// Whether the team's toss-up errors have reached the count at which each costs points.
    pub fn errors_result_in_team_point_deduction(&self) -> (r: bool)
        ensures
            r == errors_cost_team(self@),
    {
        tossup_errors_reach(&self.quizzers, DEFAULT_COUNT_OF_TEAM_ERRORS_THAT_BEGIN_TEAM_POINT_DEDUCTIONS as u128)
    }

    /// The number of the team's quizzers with at least one correct toss-up.
    pub fn quizzers_with_at_least_one_correct_tossup(&self) -> (r: i32)
        requires
            self.quizzers@.len() <= i32::MAX,
        ensures
            r == scoring_quizzer_count(self@.quizzers),
    {
        count_scoring_quizzers(&self.quizzers) as i32
    }

    /// Every foul the team has received: on the team or coach, and on its quizzers.
    pub fn count_of_all_fouls_received_by_the_team(&self) -> (r: i32)
        requires
            team_foul_total(self@) <= i32::MAX,
        ensures
            r == team_foul_total(self@),
    {
        let mut total: u128 = self.team_and_coach_fouls_received.len() as u128;
        let ghost v = seats_view(self.quizzers@);
        let mut j: usize = 0;
        while j < self.quizzers.len()
            invariant
                j <= self.quizzers@.len(),
                v == seats_view(self.quizzers@),
                total == self.team_and_coach_fouls_received@.len() + quizzer_foul_total(v.take(j as int)),
                team_foul_total(self@) <= i32::MAX,
            decreases self.quizzers@.len() - j,
        {
            proof {
                assert(v.take(j + 1).drop_last() =~= v.take(j as int));
                lemma_foul_total_prefix(v, j as int + 1);
            }
            total = total + self.quizzers[j].1.fouls_received.len() as u128;
            j = j + 1;
        }
        proof {
            assert(v.take(self.quizzers@.len() as int) =~= v);
        }
        total as i32
    }
}

/// The fouls on a prefix of the quizzers are no more than on all of them.
proof fn lemma_foul_total_prefix(v: Seq<(i32, QuizzerView)>, j: int)
    requires
        0 <= j <= v.len(),
    ensures
        quizzer_foul_total(v.take(j)) <= quizzer_foul_total(v),
    decreases v.len() - j,
{
    if j < v.len() {
        lemma_foul_total_prefix(v, j + 1);
        assert(v.take(j + 1).drop_last() =~= v.take(j));
    } else {
        assert(v.take(j) =~= v);
    }
}

/// The number of teams whose score is higher than `x`.
fn count_higher_exec(ts: &Vec<(i32, TeamForGameEventCalculator)>, x: i32) -> (r: usize)
    ensures
        r == count_higher(seats_view(ts@), x as int),
        r <= ts@.len(),
{
    let ghost v = seats_view(ts@);
    let mut acc: usize = 0;
    let mut j: usize = 0;
    while j < ts.len()
        invariant
            j <= ts@.len(),
            v == seats_view(ts@),
            acc == count_higher(v.take(j as int), x as int),
            acc <= j,
        decreases ts@.len() - j,
    {
        proof {
            assert(v.take(j + 1).drop_last() =~= v.take(j as int));
            assert(v.take(j + 1).last() == v[j as int]);
            assert(v[j as int].1.score == ts@[j as int].1.score as int);
        }
        if ts[j].1.score > x {
            acc = acc + 1;
        }
        j = j + 1;
    }
    proof {
        assert(v.take(ts@.len() as int) =~= v);
    }
    acc
}

/// Whether two teams share a score.
pub(crate) fn tie_exists_exec(ts: &Vec<(i32, TeamForGameEventCalculator)>) -> (r: bool)
    ensures
        r == tie_exists(seats_view(ts@)),
{
    let ghost v = seats_view(ts@);
    let mut i: usize = 0;
    while i < ts.len()
        invariant
            i <= ts@.len(),
            v == seats_view(ts@),
            forall|a: int, b: int| 0 <= a < i && a < b < v.len() ==> v[a].1.score != v[b].1.score,
        decreases ts@.len() - i,
    {
        let mut j: usize = i + 1;
        while j < ts.len()
            invariant
                i < ts@.len(),
                i + 1 <= j <= ts@.len(),
                v == seats_view(ts@),
                forall|a: int, b: int| 0 <= a < i && a < b < v.len() ==> v[a].1.score != v[b].1.score,
                forall|b: int| i < b < j ==> v[i as int].1.score != v[b].1.score,
            decreases ts@.len() - j,
        {
            if ts[i].1.score == ts[j].1.score {
                proof {
                    assert(v[i as int].1.score == v[j as int].1.score);
                }
                return true;
            }
            j = j + 1;
        }
        i = i + 1;
    }
    false
}


// ─── Messages ───────────────────────────────────────────────────────────────

fn make_msg_not_nazarene(name: &str) -> (m: String)
    ensures
        m@ == msg_not_nazarene(name@),
{
    crate::text::join2(
        "Game type is something other than 'Nazarene' but rules are implemented only for 'Nazarene'. Specified organization: ",
        name,
    )
}

fn make_msg_option_unknown(name: &str) -> (m: String)
    ensures
        m@ == msg_option_unknown(name@),
{
    let m = crate::text::join2(
        "GameEvent code/type 'OP' was specified but option name provided was not found among acceptable options. Option specified: '",
        name,
    );
    m.concat("'")
}

fn make_msg_seat_empty(team: i32, seat: i32, question: i32) -> (m: String)
    ensures
        m@ == msg_seat_empty(team, seat, question),
{
    let a = crate::text::int_to_text(team as i64);
    let b = crate::text::int_to_text(seat as i64);
    let c = crate::text::int_to_text(question as i64);
    let m = String::from_str(
        "Tried to change quizzer's seat location for substitution but quizzer wasn't found at that seat. Team: '",
    );
    let m = m.concat(a.as_str());
    let m = m.concat("', Quizzer seat: '");
    let m = m.concat(b.as_str());
    let m = m.concat("', Question: '");
    let m = m.concat(c.as_str());
    let m = m.concat("'");
    m
}

// ─── Rankings ───────────────────────────────────────────────────────────────

/// Sets each team's rank by competitive ranking.
pub fn update_team_rankings_using_competitive_ranking(teams: &mut Vec<(i32, TeamForGameEventCalculator)>)
    requires
        old(teams)@.len() < i32::MAX,
    ensures
        seats_view(final(teams)@) == competitive_ranks(seats_view(old(teams)@)),
        final(teams)@.len() == old(teams)@.len(),
{
    let ghost v0 = seats_view(teams@);
    let n = teams.len();
    let mut ranks: Vec<i32> = Vec::new();
    let mut i: usize = 0;
    while i < n
        invariant
            n == teams@.len(),
            n < i32::MAX,
            v0 == seats_view(teams@),
            i <= n,
            ranks@.len() == i,
            forall|m: int| 0 <= m < i ==> ranks@[m] as int == 1 + count_higher(v0, v0[m].1.score) as int,
        decreases n - i,
    {
        let c = count_higher_exec(teams, teams[i].1.score);
        ranks.push(1 + c as i32);
        i = i + 1;
    }
    let mut i: usize = 0;
    while i < n
        invariant
            n == teams@.len(),
            v0.len() == n,
            ranks@.len() == n,
            forall|m: int| 0 <= m < n ==> ranks@[m] as int == 1 + count_higher(v0, v0[m].1.score) as int,
            i <= n,
            forall|m: int| 0 <= m < i ==> seats_view(teams@)[m] == competitive_ranks(v0)[m],
            forall|m: int| i <= m < n ==> seats_view(teams@)[m] == v0[m],
        decreases n - i,
    {
        let ghost before = teams@;
        let (k, mut t) = teams.remove(i);
        t.rank = ranks[i];
        teams.insert(i, (k, t));
        proof {
            lemma_remove_insert(before, i as int, (k, t));
            assert forall|m: int| 0 <= m < n && m != i implies seats_view(teams@)[m] == seats_view(before)[m] by {
                assert(teams@[m] == before[m]);
            }
            assert(seats_view(teams@)[i as int] == competitive_ranks(v0)[i as int]);
        }
        i = i + 1;
    }
    proof {
        assert(seats_view(teams@) =~= competitive_ranks(v0));
    }
}

/// The number of distinct scores above `x`.
fn count_distinct_higher_exec(ts: &Vec<(i32, TeamForGameEventCalculator)>, x: i32) -> (r: usize)
    ensures
        r == count_distinct_higher(seats_view(ts@), x as int),
        r <= ts@.len(),
{
    let ghost v = seats_view(ts@);
    let mut acc: usize = 0;
    let mut j: usize = 0;
    while j < ts.len()
        invariant
            j <= ts@.len(),
            v == seats_view(ts@),
            acc == count_distinct_higher(v.take(j as int), x as int),
            acc <= j,
        decreases ts@.len() - j,
    {
        let s = ts[j].1.score;
        let mut seen = false;
        let mut k: usize = 0;
        while k < j
            invariant
                k <= j < ts@.len(),
                v == seats_view(ts@),
                s == ts@[j as int].1.score,
                seen == exists|m: int| 0 <= m < k && v[m].1.score == s,
            decreases j - k,
        {
            proof {
                assert(v[k as int].1.score == ts@[k as int].1.score as int);
            }
            if ts[k].1.score == s {
                seen = true;
            }
            k = k + 1;
        }
        proof {
            let rest = v.take(j + 1).drop_last();
            assert(rest =~= v.take(j as int));
            assert(v.take(j + 1).last() == v[j as int]);
            assert(v[j as int].1.score == s as int);
            assert(seen == exists|m: int| 0 <= m < rest.len() && rest[m].1.score == s) by {
                if seen {
                    let m = choose|m: int| 0 <= m < j && v[m].1.score == s;
                    assert(rest[m].1.score == s);
                }
                if exists|m: int| 0 <= m < rest.len() && rest[m].1.score == s {
                    let m = choose|m: int| 0 <= m < rest.len() && rest[m].1.score == s;
                    assert(v[m].1.score == s);
                }
            }
        }
        if s > x && !seen {
            acc = acc + 1;
        }
        j = j + 1;
    }
    proof {
        assert(v.take(ts@.len() as int) =~= v);
    }
    acc
}

/// Sets each team's rank by dense ranking: one more than the number of distinct scores above
/// the team's. (The calculator ranks competitively; this is the alternative it offers.)
pub fn update_team_rankings_using_dense_ranking(teams: &mut Vec<(i32, TeamForGameEventCalculator)>)
    requires
        old(teams)@.len() < i32::MAX,
    ensures
        seats_view(final(teams)@) == dense_ranks(seats_view(old(teams)@)),
        final(teams)@.len() == old(teams)@.len(),
{
    let ghost v0 = seats_view(teams@);
    let n = teams.len();
    let mut ranks: Vec<i32> = Vec::new();
    let mut i: usize = 0;
    while i < n
        invariant
            n == teams@.len(),
            n < i32::MAX,
            v0 == seats_view(teams@),
            i <= n,
            ranks@.len() == i,
            forall|m: int| 0 <= m < i ==> ranks@[m] as int == 1 + count_distinct_higher(v0, v0[m].1.score) as int,
        decreases n - i,
    {
        let c = count_distinct_higher_exec(teams, teams[i].1.score);
        ranks.push(1 + c as i32);
        i = i + 1;
    }
    let mut i: usize = 0;
    while i < n
        invariant
            n == teams@.len(),
            v0.len() == n,
            ranks@.len() == n,
            forall|m: int| 0 <= m < n ==> ranks@[m] as int == 1 + count_distinct_higher(v0, v0[m].1.score) as int,
            i <= n,
            forall|m: int| 0 <= m < i ==> seats_view(teams@)[m] == dense_ranks(v0)[m],
            forall|m: int| i <= m < n ==> seats_view(teams@)[m] == v0[m],
        decreases n - i,
    {
        let ghost before = teams@;
        let (k, mut t) = teams.remove(i);
        t.rank = ranks[i];
        teams.insert(i, (k, t));
        proof {
            lemma_remove_insert(before, i as int, (k, t));
            assert forall|m: int| 0 <= m < n && m != i implies seats_view(teams@)[m] == seats_view(before)[m] by {
                assert(teams@[m] == before[m]);
            }
            assert(seats_view(teams@)[i as int] == dense_ranks(v0)[i as int]);
        }
        i = i + 1;
    }
    proof {
        assert(seats_view(teams@) =~= dense_ranks(v0));
    }
}

// ─── Reading one event ──────────────────────────────────────────────────────

impl GameEventCalculator {
    /// The calculator's state as the specification describes it.
    pub open spec fn state(&self) -> CalcState {
        CalcState {
            current_question: self.current_question as int,
            teams: seats_view(self.teams@),
            options: self.options,
        }
    }
}

/// What reading one event did: the state and messages agree with `calc_step`.
pub open spec fn step_done(
    before: CalcState,
    e: GameEventView,
    zone: int,
    after: CalcState,
    msgs_before: Seq<Seq<char>>,
    msgs_after: Seq<Seq<char>>,
    fatal: bool,
    n: int,
) -> bool {
    match calc_step(before, e, zone) {
        CalcStep::Next(st2, m) => !fatal && after == st2 && msgs_after == msgs_before + m && calc_fits(st2, n + 1),
        CalcStep::Fatal(m) => fatal && msgs_after == msgs_before + m,
        CalcStep::Stuck => false,
    }
}

/// A team record replaced (or added) keeps the state within bounds one event later.
proof fn lemma_fits_with_team(st: CalcState, k: i32, t: TeamView, n: int, m: int)
    requires
        calc_fits(st, n),
        n <= m,
        seat_has(st.teams, k) || st.teams.len() + 1 <= m,
        -30 * m <= t.score <= 30 * m,
    ensures
        calc_fits(with_team(st, k, t), m),
{
    crate::seats::lemma_seat_pos_bounds(st.teams, k);
    let p = seat_pos(st.teams, k);
    let r = seat_insert(st.teams, k, t);
    assert forall|i: int| 0 <= i < r.len() implies -30 * m <= #[trigger] r[i].1.score <= 30 * m by {
        if p < st.teams.len() && st.teams[p].0 == k {
            if i != p {
                assert(r[i] == st.teams[i]);
                assert(-30 * n <= st.teams[i].1.score <= 30 * n);
            }
        } else {
            if i < p {
                assert(r[i] == st.teams[i]);
                assert(-30 * n <= st.teams[i].1.score <= 30 * n);
            } else if i > p {
                assert(r[i] == st.teams[i - 1]);
                assert(-30 * n <= st.teams[i - 1].1.score <= 30 * n);
            }
        }
    }
}

/// The state stays within bounds one event later when only the question or options move.
proof fn lemma_fits_grow(st: CalcState, n: int)
    requires
        calc_fits(st, n),
    ensures
        calc_fits(st, n + 1),
{
    assert forall|i: int| 0 <= i < st.teams.len() implies -30 * (n + 1) <= #[trigger] st.teams[i].1.score <= 30 * (n + 1) by {
        assert(-30 * n <= st.teams[i].1.score <= 30 * n);
    }
}


impl GameEventCalculator {
    /// Reads an event that changes one team's record only: SC, SS, C-, FC or TO.
    fn step_team_event(&mut self, e: &GameEvent, code: GameEventCode, zone: i32, Ghost(n): Ghost<int>)
        requires
            calc_fits(old(self).state(), n),
            n + 1 <= MAX_GAME_EVENTS,
            code_of(e.event@) == Some(code),
            code == GameEventCode::SC || code == GameEventCode::SS || code == GameEventCode::Cminus
                || code == GameEventCode::FC || code == GameEventCode::TO,
            !(calc_step(old(self).state(), e@, zone as int) is Stuck),
            e.question < i32::MAX,
        ensures
            step_done(old(self).state(), e@, zone as int, final(self).state(), seq![], seq![], false, n),
            final(self).game_id == old(self).game_id,
            final(self).game_events == old(self).game_events,
    {
        let ghost st = self.state();
        let ghost before = self.teams@;
        proof {
            lemma_seats_view(before, e.team);
        }
        let ti = find_seat(&self.teams, e.team).unwrap();
        let (k, mut t) = self.teams.remove(ti);
        let ghost t0 = t@;
        proof {
            assert(t0 == seat_get(st.teams, e.team));
            assert(-30 * n <= st.teams[ti as int].1.score <= 30 * n);
        }
        match code {
            GameEventCode::SC => {
                t.captain = (e.quizzer, true);
            },
            GameEventCode::SS => {
                t.cocaptain = (e.quizzer, true);
            },
            GameEventCode::Cminus => {
                t.overruled_challenges.push(e.question);
                if t.overruled_challenges.len()
                    >= self.options.attempt_try_when_deductions_begin_for_overruled_challenges_by_a_team as usize {
                    t.score = t.score - self.options.overruled_challenge_point_deduction_amount;
                }
            },
            GameEventCode::FC => {
                t.team_and_coach_fouls_received.push((e.question, e.quizzer == 5));
                if quizzer_fouls_reach(
                    &t.quizzers,
                    t.team_and_coach_fouls_received.len(),
                    self.options.foul_count_where_team_point_deductions_begin as u128,
                ) {
                    t.score = t.score - self.options.team_foul_deduction_amount;
                }
            },
            _ => {
                t.timeouts_taken.push(e.question);
            },
        }
        let ghost t1 = t@;
        self.teams.insert(ti, (k, t));
        if code == GameEventCode::Cminus {
            self.current_question = e.question + 1;
        }
        proof {
            lemma_remove_insert(before, ti as int, (k, t));
            lemma_seats_view_put_at(before, ti as int, e.team, t);
            lemma_fits_with_team(st, e.team, t1, n, n + 1);
            match code {
                GameEventCode::SC => {
                    assert(t1 == TeamView { captain: (e.quizzer, true), ..t0 });
                },
                GameEventCode::SS => {
                    assert(t1 == TeamView { cocaptain: (e.quizzer, true), ..t0 });
                },
                GameEventCode::Cminus => {},
                GameEventCode::FC => {},
                _ => {},
            }
        }
    }
}


/// The captain or co-captain in `seat` can no longer act.
fn retire_leader_exec(t: &mut TeamForGameEventCalculator, seat: i32)
    ensures
        final(t)@ == retire_leader(old(t)@, seat),
{
    if t.captain.0 == seat {
        t.captain = (seat, false);
    } else if t.cocaptain.0 == seat {
        t.cocaptain = (seat, false);
    }
}

impl GameEventCalculator {
    /// Reads an event that changes one quizzer's record: BC, BE, QO, EO or F-.
    fn step_quizzer_event(&mut self, e: &GameEvent, code: GameEventCode, zone: i32, Ghost(n): Ghost<int>)
        requires
            calc_fits(old(self).state(), n),
            n + 1 <= MAX_GAME_EVENTS,
            code_of(e.event@) == Some(code),
            code == GameEventCode::BC || code == GameEventCode::BE || code == GameEventCode::QO
                || code == GameEventCode::EO || code == GameEventCode::Fminus,
            !(calc_step(old(self).state(), e@, zone as int) is Stuck),
            e.question < i32::MAX,
        ensures
            step_done(old(self).state(), e@, zone as int, final(self).state(), seq![], seq![], false, n),
            final(self).game_id == old(self).game_id,
            final(self).game_events == old(self).game_events,
    {
        let ghost st = self.state();
        let ghost before = self.teams@;
        proof {
            lemma_seats_view(before, e.team);
        }
        let ti = find_seat(&self.teams, e.team).unwrap();
        let (k, mut t) = self.teams.remove(ti);
        let ghost t0 = t@;
        let ghost qbefore = t.quizzers@;
        proof {
            assert(t0 == seat_get(st.teams, e.team));
            assert(-30 * n <= st.teams[ti as int].1.score <= 30 * n);
            lemma_seats_view(qbefore, e.quizzer);
        }
        let qi = find_seat(&t.quizzers, e.quizzer).unwrap();
        let (sk, mut qz) = t.quizzers.remove(qi);
        match code {
            GameEventCode::BC => {
                qz.correct_bonuses.push(e.question);
            },
            GameEventCode::BE => {
                qz.errors_on_bonuses.push(e.question);
            },
            GameEventCode::QO => {
                qz.question_quizzed_out_on = e.question;
            },
            GameEventCode::EO => {
                qz.question_errored_out_on = e.question;
            },
            _ => {
                qz.fouls_received.push(e.question);
            },
        }
        let ghost qz1 = qz@;
        let no_errors = qz.errors_on_tossups.len() == 0;
        let fouled_out = qz.fouls_received.len() >= DEFAULT_FOUL_OUT as usize;
        t.quizzers.insert(qi, (sk, qz));
        proof {
            lemma_remove_insert(qbefore, qi as int, (sk, qz));
            lemma_seats_view_put_at(qbefore, qi as int, e.quizzer, qz);
            assert(t@ == with_quizzer(t0, e.quizzer, qz1));
        }
        let ghost t_in = t@;
        match code {
            GameEventCode::BC => {
                t.score = t.score + self.options.point_award_for_correct_bonus;
            },
            GameEventCode::BE => {},
            GameEventCode::QO => {
                if no_errors {
                    t.score = t.score + self.options.point_award_for_quizzing_out;
                }
                retire_leader_exec(&mut t, e.quizzer);
            },
            GameEventCode::EO => {
                retire_leader_exec(&mut t, e.quizzer);
            },
            _ => {
                if fouled_out {
                    if t.captain.0 == e.quizzer {
                        t.captain = (e.quizzer, false);
                    } else if t.cocaptain.0 == e.quizzer {
                        t.cocaptain = (e.quizzer, false);
                    }
                }
                if quizzer_fouls_reach(
                    &t.quizzers,
                    t.team_and_coach_fouls_received.len(),
                    self.options.foul_count_where_team_point_deductions_begin as u128,
                ) {
                    t.score = t.score - self.options.team_foul_deduction_amount;
                }
            },
        }
        let ghost t1 = t@;
        self.teams.insert(ti, (k, t));
        if code != GameEventCode::Fminus {
            self.current_question = e.question + 1;
        }
        proof {
            lemma_remove_insert(before, ti as int, (k, t));
            lemma_seats_view_put_at(before, ti as int, e.team, t);
            lemma_fits_with_team(st, e.team, t1, n, n + 1);
            match code {
                GameEventCode::BE => {
                    assert(t1 == t_in);
                },
                GameEventCode::Fminus => {
                    assert(t1 == fminus_team(t_in, qz1, e.quizzer, st.options));
                },
                _ => {},
            }
        }
    }
}


proof fn lemma_first_named_is(qs: Seq<(i32, QuizzerView)>, name: Seq<char>, i: int)
    requires
        0 <= i <= qs.len(),
        forall|j: int| 0 <= j < i ==> qs[j].1.name != name,
        i < qs.len() ==> qs[i].1.name == name,
    ensures
        first_named(qs, name) == i,
    decreases qs.len(),
{
    if qs.len() > 0 && i > 0 {
        assert forall|j: int| 0 <= j < i - 1 implies qs.drop_first()[j].1.name != name by {
            assert(qs.drop_first()[j] == qs[j + 1]);
        }
        lemma_first_named_is(qs.drop_first(), name, i - 1);
    }
}

/// The position of the first quizzer with the given name (the length if none).
fn first_named_exec(qs: &Vec<(i32, QuizzerForGameEventCalculator)>, name: &str) -> (p: usize)
    ensures
        p == first_named(seats_view(qs@), name@),
        p <= qs@.len(),
{
    let ghost v = seats_view(qs@);
    let mut i: usize = 0;
    while i < qs.len() && !crate::text::str_eq(qs[i].1.name.as_str(), name)
        invariant
            i <= qs@.len(),
            v == seats_view(qs@),
            forall|j: int| 0 <= j < i ==> v[j].1.name != name@,
        decreases qs@.len() - i,
    {
        i = i + 1;
    }
    proof {
        lemma_first_named_is(v, name@, i as int);
    }
    i
}

impl GameEventCalculator {
    /// Reads a quizzer-name event or a substitution: QN or SB.
    fn step_seat_event(
        &mut self,
        e: &GameEvent,
        code: GameEventCode,
        zone: i32,
        errors: &mut Vec<String>,
        Ghost(n): Ghost<int>,
    ) -> (fatal: bool)
        requires
            calc_fits(old(self).state(), n),
            n + 1 <= MAX_GAME_EVENTS,
            code_of(e.event@) == Some(code),
            code == GameEventCode::QN || code == GameEventCode::SB,
            !(calc_step(old(self).state(), e@, zone as int) is Stuck),
            e.question < i32::MAX,
        ensures
            step_done(old(self).state(), e@, zone as int, final(self).state(), texts(old(errors)@), texts(final(errors)@), fatal, n),
            final(self).game_id == old(self).game_id,
            final(self).game_events == old(self).game_events,
    {
        let ghost st = self.state();
        let ghost before = self.teams@;
        proof {
            lemma_seats_view(before, e.team);
        }
        let ti = find_seat(&self.teams, e.team).unwrap();
        let (k, mut t) = self.teams.remove(ti);
        let ghost t0 = t@;
        let ghost qbefore = t.quizzers@;
        proof {
            assert(t0 == seat_get(st.teams, e.team));
            assert(-30 * n <= st.teams[ti as int].1.score <= 30 * n);
        }
        if code == GameEventCode::QN {
            let p = first_named_exec(&t.quizzers, e.name.as_str());
            if p >= t.quizzers.len() {
                let qz = QuizzerForGameEventCalculator::new(e.name.as_str());
                proof {
                    lemma_seats_view_insert(qbefore, e.quizzer, qz);
                }
                put_seat(&mut t.quizzers, e.quizzer, qz);
            } else {
                let seat = t.quizzers[p].0;
                proof {
                    lemma_seats_view(qbefore, seat);
                    lemma_seats_view_remove(qbefore, seat);
                }
                match take_seat(&mut t.quizzers, seat) {
                    None => {
                        errors.push(make_msg_seat_empty(e.team, e.quizzer, e.question));
                        proof {
                            assert(texts(errors@) =~= texts(old(errors)@) + seq![msg_seat_empty(e.team, e.quizzer, e.question)]);
                        }
                        return true;
                    },
                    Some(qz) => {
                        proof {
                            lemma_seats_view_insert(t.quizzers@, e.quizzer, qz);
                        }
                        put_seat(&mut t.quizzers, e.quizzer, qz);
                    },
                }
            }
        } else {
            proof {
                lemma_seats_view(qbefore, e.quizzer);
                lemma_seats_view_remove(qbefore, e.quizzer);
            }
            match take_seat(&mut t.quizzers, e.quizzer) {
                None => {
                    errors.push(make_msg_seat_empty(e.team, e.quizzer, e.question));
                    proof {
                        assert(texts(errors@) =~= texts(old(errors)@) + seq![msg_seat_empty(e.team, e.quizzer, e.question)]);
                    }
                    return true;
                },
                Some(qz) => {
                    proof {
                        lemma_seats_view_insert(t.quizzers@, DEFAULT_INTERIM_SUBSTITUTION_SEAT, qz);
                    }
                    put_seat(&mut t.quizzers, DEFAULT_INTERIM_SUBSTITUTION_SEAT, qz);
                    t.substitutions.push((e.question, e.quizzer));
                },
            }
        }
        let ghost t1 = t@;
        self.teams.insert(ti, (k, t));
        proof {
            lemma_remove_insert(before, ti as int, (k, t));
            lemma_seats_view_put_at(before, ti as int, e.team, t);
            lemma_fits_with_team(st, e.team, t1, n, n + 1);
            assert(texts(errors@) =~= texts(old(errors)@) + Seq::<Seq<char>>::empty());
        }
        false
    }
}


/// Ranking keeps the keys and the scores, so the bounds and lookups are kept.
proof fn lemma_ranks_keep(st: CalcState, m: int, k: i32)
    requires
        calc_fits(st, m),
    ensures
        calc_fits(CalcState { teams: competitive_ranks(st.teams), ..st }, m),
        crate::seats::same_keys(st.teams, competitive_ranks(st.teams)),
        seat_pos(competitive_ranks(st.teams), k) == seat_pos(st.teams, k),
        seat_has(competitive_ranks(st.teams), k) == seat_has(st.teams, k),
        seat_has(st.teams, k) ==> seat_get(competitive_ranks(st.teams), k).score == seat_get(st.teams, k).score,
        seat_has(st.teams, k) ==> seat_get(competitive_ranks(st.teams), k).quizzers == seat_get(st.teams, k).quizzers,
{
    let r = competitive_ranks(st.teams);
    assert forall|i: int| 0 <= i < r.len() implies -30 * m <= #[trigger] r[i].1.score <= 30 * m by {
        assert(-30 * m <= st.teams[i].1.score <= 30 * m);
    }
    crate::seats::lemma_seat_pos_same_keys(st.teams, r, k);
    crate::seats::lemma_seat_pos_bounds(st.teams, k);
}

impl GameEventCalculator {
    /// Reads a toss-up ruling: TC or TE.
    fn step_tossup_event(
        &mut self,
        e: &GameEvent,
        code: GameEventCode,
        zone: i32,
        errors: &mut Vec<String>,
        Ghost(n): Ghost<int>,
    ) -> (fatal: bool)
        requires
            calc_fits(old(self).state(), n),
            n + 1 <= MAX_GAME_EVENTS,
            code_of(e.event@) == Some(code),
            code == GameEventCode::TC || code == GameEventCode::TE,
            !(calc_step(old(self).state(), e@, zone as int) is Stuck),
            e.question < i32::MAX,
        ensures
            step_done(old(self).state(), e@, zone as int, final(self).state(), texts(old(errors)@), texts(final(errors)@), fatal, n),
            final(self).game_id == old(self).game_id,
            final(self).game_events == old(self).game_events,
    {
        let ghost st = self.state();
        let is_tc = code == GameEventCode::TC;
        if self.current_question > DEFAULT_QUESTIONS_PER_GAME {
            if !tie_exists_exec(&self.teams) {
                if is_tc {
                    errors.push(String::from_str(
                        "In the absence of a tied score after regulation questions, a TC event was found which is invalid.",
                    ));
                } else {
                    errors.push(String::from_str(
                        "In the absence of a tied score after regulation questions, a TE event was found which is invalid.",
                    ));
                }
                proof {
                    if is_tc {
                        assert(texts(errors@) =~= texts(old(errors)@) + seq![msg_no_tie_tc()]);
                    } else {
                        assert(texts(errors@) =~= texts(old(errors)@) + seq![msg_no_tie_te()]);
                    }
                }
                return true;
            }
            let ghost before = self.teams@;
            proof {
                lemma_seats_view(before, e.team);
            }
            let ti = find_seat(&self.teams, e.team).unwrap();
            let (k, mut t) = self.teams.remove(ti);
            let ghost t0 = t@;
            proof {
                assert(t0 == seat_get(st.teams, e.team));
                assert(-30 * n <= st.teams[ti as int].1.score <= 30 * n);
            }
            let swing: i32 = if is_tc {
                self.options.point_award_for_correct_tossup
            } else {
                -self.options.point_deduction_for_error_on_tossup
            };
            t.score = t.score + swing;
            let ghost tup = t@;
            self.teams.insert(ti, (k, t));
            let ghost up = self.teams@;
            proof {
                lemma_remove_insert(before, ti as int, (k, t));
                lemma_seats_view_put_at(before, ti as int, e.team, t);
                lemma_fits_with_team(st, e.team, tup, n, n + 1);
                lemma_seats_view(up, e.team);
                lemma_ranks_keep(CalcState { teams: seats_view(up), ..st }, n + 1, e.team);
            }
            update_team_rankings_using_competitive_ranking(&mut self.teams);
            let ghost ranked = self.teams@;
            proof {
                lemma_seats_view(ranked, e.team);
            }
            let (k2, mut t2) = self.teams.remove(ti);
            t2.score = t2.score - swing;
            let ghost t3 = t2@;
            let ghost qbefore = t2.quizzers@;
            proof {
                lemma_seats_view(qbefore, e.quizzer);
                assert(-30 * (n + 1) <= seats_view(ranked)[ti as int].1.score <= 30 * (n + 1));
                crate::seats::lemma_insert_existing(st.teams, e.team, tup);
                assert(seat_get(seats_view(up), e.team) == tup);
                assert(seat_get(seats_view(ranked), e.team).quizzers == t0.quizzers);
                assert(seats_view(qbefore) == t0.quizzers);
                if is_tc {
                    assert(tup == with_score(t0, t0.score + st.options.point_award_for_correct_tossup));
                } else {
                    assert(tup == with_score(t0, t0.score - st.options.point_deduction_for_error_on_tossup));
                }
                assert(seat_has(t0.quizzers, e.quizzer));
            }
            let qi = find_seat(&t2.quizzers, e.quizzer).unwrap();
            let (sk, mut qz) = t2.quizzers.remove(qi);
            if is_tc {
                qz.correct_tossups.push(e.question);
            } else {
                qz.errors_on_tossups.push(e.question);
            }
            let ghost qz1 = qz@;
            t2.quizzers.insert(qi, (sk, qz));
            proof {
                lemma_remove_insert(qbefore, qi as int, (sk, qz));
                lemma_seats_view_put_at(qbefore, qi as int, e.quizzer, qz);
            }
            let ghost t4 = t2@;
            self.teams.insert(ti, (k2, t2));
            self.current_question = e.question + 1;
            proof {
                lemma_remove_insert(ranked, ti as int, (k2, t2));
                lemma_seats_view_put_at(ranked, ti as int, e.team, t2);
                assert(t4 == with_quizzer(t3, e.quizzer, qz1));
                assert(t0.score == t3.score);
                lemma_fits_with_team(
                    CalcState { teams: seats_view(ranked), ..st },
                    e.team,
                    t4,
                    n + 1,
                    n + 1,
                );
                assert(texts(errors@) =~= texts(old(errors)@) + Seq::<Seq<char>>::empty());
            }
            return false;
        }
        let ghost before = self.teams@;
        proof {
            lemma_seats_view(before, e.team);
        }
        let ti = find_seat(&self.teams, e.team).unwrap();
        let (k, mut t) = self.teams.remove(ti);
        let ghost t0 = t@;
        let ghost qbefore = t.quizzers@;
        proof {
            assert(t0 == seat_get(st.teams, e.team));
            assert(-30 * n <= st.teams[ti as int].1.score <= 30 * n);
            lemma_seats_view(qbefore, e.quizzer);
        }
        let scorers_before = count_scoring_quizzers(&t.quizzers);
        let qi = find_seat(&t.quizzers, e.quizzer).unwrap();
        let (sk, mut qz) = t.quizzers.remove(qi);
        if is_tc {
            qz.correct_tossups.push(e.question);
        } else {
            qz.errors_on_tossups.push(e.question);
        }
        let ghost qz1 = qz@;
        let quizzer_errors = qz.errors_on_tossups.len();
        t.quizzers.insert(qi, (sk, qz));
        proof {
            lemma_remove_insert(qbefore, qi as int, (sk, qz));
            lemma_seats_view_put_at(qbefore, qi as int, e.quizzer, qz);
            assert(t@ == with_quizzer(t0, e.quizzer, qz1));
        }
        if is_tc {
            t.score = t.score + self.options.point_award_for_correct_tossup;
            let scorers_after = count_scoring_quizzers(&t.quizzers);
            if (scorers_before == 2 && scorers_after == 3) || (scorers_before == 3 && scorers_after == 4)
                || (scorers_before == 4 && scorers_after == 5) {
                t.score = t.score + self.options.third_fourth_and_fifth_person_bonus_award_amount;
            }
            self.current_question = e.question + 1;
        } else {
            let costs = e.question >= zone || t.errors_result_in_team_point_deduction()
                || quizzer_errors >= self.options.individual_error_begin_deduction_count as usize;
            if costs {
                t.score = t.score - self.options.point_deduction_for_error_on_tossup;
            }
            self.current_question = e.question;
        }
        let ghost t1 = t@;
        self.teams.insert(ti, (k, t));
        proof {
            lemma_remove_insert(before, ti as int, (k, t));
            lemma_seats_view_put_at(before, ti as int, e.team, t);
            lemma_fits_with_team(st, e.team, t1, n, n + 1);
            assert(texts(errors@) =~= texts(old(errors)@) + Seq::<Seq<char>>::empty());
        }
        false
    }
}


impl OptionsForGameEventCalculator {
    /// The default rules.
    pub fn new() -> (r: Self)
        ensures
            r == default_options(),
    {
        OptionsForGameEventCalculator {
            is_tournament: true,
            quiz_out: DEFAULT_QUIZ_OUT,
            error_out: DEFAULT_ERROR_OUT,
            foul_out: DEFAULT_FOUL_OUT,
            team_error_begin_deduction_count: DEFAULT_TEAM_ERROR_BEGIN_DEDUCTION_COUNT,
            individual_begin_deduction_count: DEFAULT_TEAM_ERROR_BEGIN_DEDUCTION_COUNT,
            point_award_for_correct_tossup: DEFAULT_POINT_AWARD_FOR_CORRECT_TOSSUP,
            point_award_for_quizzing_out: DEFAULT_POINT_AWARD_FOR_QUIZZING_OUT,
            point_deduction_for_error_on_tossup: DEFAULT_POINT_DEDUCATED_FOR_ERROR_ON_TOSSUP,
            point_award_for_correct_bonus: DEFAULT_POINT_AWARD_FOR_CORRECT_BONUS,
            start_error_zone_deductions: DEFAULT_START_ERROR_ZONE_DEDUCTIONS,
            third_fourth_and_fifth_person_bonus_award_amount: DEFAULT_THIRD_FOURTH_AND_FIFTH_PERSON_BONUS_AWARD_AMOUNT,
            attempt_try_when_deductions_begin_for_overruled_challenges_by_a_team: DEFAULT_ATTEMPT_TRY_WHEN_DEDUCATIONS_BEGIN_FOR_OVERRULED_CHALLENGES_BY_A_TEAM,
            overruled_challenge_point_deduction_amount: DEFAULT_OVERRULED_CHALLENGE_POINT_DEDUCTION_AMOUNT,
            foul_count_where_team_point_deductions_begin: DEFAULT_FOUL_COUNT_WHERE_TEAM_POINT_DEDUCTIONS_BEGIN,
            team_foul_deduction_amount: DEFAULT_TEAM_FOUL_DEDUCTION_AMOUNT,
            individual_error_begin_deduction_count: DEFAULT_INDIVIDUAL_ERROR_BEGIN_DEDUCTION_COUNT,
        }
    }
}

/// A copy of a list of events.
pub fn clone_events(v: &Vec<GameEvent>) -> (r: Vec<GameEvent>)
    ensures
        events_view(r@) == events_view(v@),
{
    let mut r: Vec<GameEvent> = Vec::new();
    let mut i: usize = 0;
    while i < v.len()
        invariant
            i <= v@.len(),
            r@.len() == i,
            forall|j: int| 0 <= j < i ==> r@[j]@ == v@[j]@,
        decreases v@.len() - i,
    {
        r.push(v[i].duplicate());
        i = i + 1;
    }
    proof {
        assert(events_view(r@) =~= events_view(v@));
    }
    r
}

/// What the calculator's result says of scoring `events`.
pub open spec fn calc_result_matches(
    events: Seq<GameEventView>,
    zone: int,
    game_id: u128,
    r: Result<GameEventCalculator, Vec<String>>,
) -> bool {
    match calculate(events, zone) {
        CalcOutcome::Done(st, m) => if m.len() == 0 {
            r matches Ok(c) && c.state() == st && c.game_id == game_id && events_view(c.game_events@) == events
        } else {
            r matches Err(e) && texts(e@) == m
        },
        CalcOutcome::Fatal(m) => r matches Err(e) && texts(e@) == m,
        CalcOutcome::Stuck => false,
    }
}

impl GameEventCalculator {
    /// A calculator for game `game_id` over `game_events`, before any event is read.
    pub fn new(game_id: u128, game_events: Vec<GameEvent>) -> (r: Self)
        ensures
            r.game_id == game_id,
            r.game_events == game_events,
            r.state() == initial_state(),
            r.options == default_options(),
    {
        let r = GameEventCalculator {
            game_id: game_id,
            current_question: 1,
            teams: Vec::new(),
            options: OptionsForGameEventCalculator::new(),
            game_events: game_events,
        };
        proof {
            assert(seats_view(r.teams@) =~= Seq::<(i32, TeamView)>::empty());
        }
        r
    }

    /// The record of the team with number `k`.
    pub fn team(&self, k: i32) -> (r: Option<&TeamForGameEventCalculator>)
        ensures
            r is Some <==> seat_has(seats_view(self.teams@), k),
            r matches Some(t) ==> t@ == seat_get(seats_view(self.teams@), k),
    {
        proof {
            lemma_seats_view(self.teams@, k);
        }
        match find_seat(&self.teams, k) {
            Some(i) => Some(&self.teams[i].1),
            None => None,
        }
    }

    /// Reads one event.
    pub(crate) fn step_event(&mut self, e: &GameEvent, zone: i32, errors: &mut Vec<String>, Ghost(n): Ghost<int>) -> (fatal: bool)
        requires
            calc_fits(old(self).state(), n),
            n + 1 <= MAX_GAME_EVENTS,
            !(calc_step(old(self).state(), e@, zone as int) is Stuck),
            e.question < i32::MAX,
        ensures
            step_done(old(self).state(), e@, zone as int, final(self).state(), texts(old(errors)@), texts(final(errors)@), fatal, n),
            final(self).game_id == old(self).game_id,
            final(self).game_events == old(self).game_events,
    {
        let ghost st = self.state();
        let code = crate::gameevent::code::string_to_gameeventcode(e.event.as_str());
        match code {
            GameEventCode::RM => {
                self.current_question = e.question;
            },
            GameEventCode::QT => {
                if !crate::text::str_eq(e.name.as_str(), "Nazarene") {
                    errors.push(make_msg_not_nazarene(e.name.as_str()));
                    proof {
                        assert(texts(errors@) =~= texts(old(errors)@) + seq![msg_not_nazarene(e.name@)]);
                    }
                    proof { lemma_fits_grow(st, n); }
                    return false;
                }
            },
            GameEventCode::IP => {
                if crate::text::str_eq(e.name.as_str(), "Practice") {
                    self.options.is_tournament = false;
                }
            },
            GameEventCode::OP => {
                let name = e.name.as_str();
                if crate::text::str_eq(name, "QuizOut") {
                    self.options.quiz_out = e.quizzer;
                } else if crate::text::str_eq(name, "ErrorOut") {
                    self.options.error_out = e.quizzer;
                } else if crate::text::str_eq(name, "FoulOut") {
                    self.options.foul_out = e.quizzer;
                } else if crate::text::str_eq(name, "QuizzerDeduct") {
                    self.options.team_error_begin_deduction_count = e.quizzer;
                } else if crate::text::str_eq(name, "TeamDeduct") {
                    self.options.individual_begin_deduction_count = e.quizzer;
                } else if name.unicode_len() == 0 {
                    errors.push(String::from_str(
                        "GameEvent code/type 'OP' was specified but option name provided was blank.",
                    ));
                    proof {
                        assert(e.name@ =~= Seq::<char>::empty());
                        assert(texts(errors@) =~= texts(old(errors)@) + seq![msg_option_blank()]);
                        lemma_fits_grow(st, n);
                    }
                    return false;
                } else {
                    errors.push(make_msg_option_unknown(name));
                    proof {
                        assert(e.name@.len() != 0);
                        assert(e.name@ != Seq::<char>::empty());
                        assert(texts(errors@) =~= texts(old(errors)@) + seq![msg_option_unknown(e.name@)]);
                        lemma_fits_grow(st, n);
                    }
                    return false;
                }
            },
            GameEventCode::TN => {
                let mut t = TeamForGameEventCalculator::new();
                t.name = e.name.clone();
                proof {
                    lemma_seats_view_insert(self.teams@, e.team, t);
                    lemma_fits_with_team(st, e.team, t@, n, n + 1);
                    assert(t@ == new_team(e.name@));
                }
                put_seat(&mut self.teams, e.team, t);
                proof {
                    assert(texts(errors@) =~= texts(old(errors)@) + Seq::<Seq<char>>::empty());
                }
                return false;
            },
            GameEventCode::QN => {
                return self.step_seat_event(e, code, zone, errors, Ghost(n));
            },
            GameEventCode::SB => {
                return self.step_seat_event(e, code, zone, errors, Ghost(n));
            },
            GameEventCode::SC => {
                self.step_team_event(e, code, zone, Ghost(n));
                proof { assert(texts(errors@) =~= texts(old(errors)@) + Seq::<Seq<char>>::empty()); }
                return false;
            },
            GameEventCode::SS => {
                self.step_team_event(e, code, zone, Ghost(n));
                proof { assert(texts(errors@) =~= texts(old(errors)@) + Seq::<Seq<char>>::empty()); }
                return false;
            },
            GameEventCode::Cminus => {
                self.step_team_event(e, code, zone, Ghost(n));
                proof { assert(texts(errors@) =~= texts(old(errors)@) + Seq::<Seq<char>>::empty()); }
                return false;
            },
            GameEventCode::FC => {
                self.step_team_event(e, code, zone, Ghost(n));
                proof { assert(texts(errors@) =~= texts(old(errors)@) + Seq::<Seq<char>>::empty()); }
                return false;
            },
            GameEventCode::TO => {
                self.step_team_event(e, code, zone, Ghost(n));
                proof { assert(texts(errors@) =~= texts(old(errors)@) + Seq::<Seq<char>>::empty()); }
                return false;
            },
            GameEventCode::TC => {
                return self.step_tossup_event(e, code, zone, errors, Ghost(n));
            },
            GameEventCode::TE => {
                return self.step_tossup_event(e, code, zone, errors, Ghost(n));
            },
            GameEventCode::NJ => {
                self.current_question = e.question + 1;
            },
            GameEventCode::BC => {
                self.step_quizzer_event(e, code, zone, Ghost(n));
                proof { assert(texts(errors@) =~= texts(old(errors)@) + Seq::<Seq<char>>::empty()); }
                return false;
            },
            GameEventCode::BE => {
                self.step_quizzer_event(e, code, zone, Ghost(n));
                proof { assert(texts(errors@) =~= texts(old(errors)@) + Seq::<Seq<char>>::empty()); }
                return false;
            },
            GameEventCode::QO => {
                self.step_quizzer_event(e, code, zone, Ghost(n));
                proof { assert(texts(errors@) =~= texts(old(errors)@) + Seq::<Seq<char>>::empty()); }
                return false;
            },
            GameEventCode::EO => {
                self.step_quizzer_event(e, code, zone, Ghost(n));
                proof { assert(texts(errors@) =~= texts(old(errors)@) + Seq::<Seq<char>>::empty()); }
                return false;
            },
            GameEventCode::Fminus => {
                self.step_quizzer_event(e, code, zone, Ghost(n));
                proof { assert(texts(errors@) =~= texts(old(errors)@) + Seq::<Seq<char>>::empty()); }
                return false;
            },
            GameEventCode::Aplus => {
                self.current_question = e.question;
            },
            GameEventCode::Aminus => {
                self.current_question = e.question + 1;
            },
            GameEventCode::DE => {},
        }
        proof {
            lemma_fits_grow(st, n);
            assert(texts(errors@) =~= texts(old(errors)@) + Seq::<Seq<char>>::empty());
        }
        false
    }

    /// Reads the game's events in order of question and event number and works out every
    /// team's and quizzer's record. Fails with the messages gathered when an event breaks
    /// the rules (a toss-up after regulation without a tie, a quizzer missing from a seat);
    /// also fails, after reading every event, when any event gave a message (a quiz type
    /// other than "Nazarene", an unknown option).
    pub fn calculate_current_game_scores_and_counts(self) -> (r: Result<Self, Vec<String>>)
        requires
            calc_inputs_fit(events_view(self.game_events@)),
            !(calculate(events_view(self.game_events@), self.options.start_error_zone_deductions as int) is Stuck),
        ensures
            calc_result_matches(
                events_view(self.game_events@),
                self.options.start_error_zone_deductions as int,
                self.game_id,
                r,
            ),
    {
        match self.calculate_checked() {
            Some(r) => r,
            None => {
                proof {
                    assert(false);
                }
                Err(Vec::new())
            },
        }
    }
}

} // verus!
