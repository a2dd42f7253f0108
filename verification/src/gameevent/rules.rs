//! What scoring and stream building do, stated over their inputs and results: the points a
//! correct toss-up earns, and which time-outs count against a team.
use vstd::prelude::*;
use crate::gameevent::calc_spec::{calc_step, scoring_quizzer_count, CalcState, CalcStep, QuizzerView};
use crate::gameevent::code::{code_of, GameEventCode};
use crate::gameevent::event::GameEventView;
use crate::gameevent::validator_spec::{
    blank, captain_errors, dup_row, dup_rows, min_one_errors, msg_dup_quizzer, order_errors, quizzer_dup_errors,
    quizzer_names_of, rm_qt_errors, team_dup_errors, team_names_of, team_quizzer_dup_errors, validation_errors,
    ValidatorChecks,
};
use crate::gameevent::event::msg_if;
use crate::gameevent::stream_spec::{count_timeouts, max_timeouts, to_outcome, StreamOutcome, StreamView};
use crate::seats::{lemma_insert_existing, lemma_seat_pos_bounds, seat_get, seat_has, seat_insert, seat_pos};

verus! {

// ─── Points for a correct toss-up ───────────────────────────────────────────

/// Whether a quizzer has answered a toss-up correctly.
pub open spec fn has_scored(p: (i32, QuizzerView)) -> bool {
    p.1.correct_tossups.len() > 0
}

/// The number of a team's quizzers who have answered a toss-up correctly.
pub open spec fn scorers(qs: Seq<(i32, QuizzerView)>) -> nat {
    qs.filter(|p: (i32, QuizzerView)| has_scored(p)).len()
}

proof fn lemma_scorers(qs: Seq<(i32, QuizzerView)>)
    ensures
        scoring_quizzer_count(qs) == scorers(qs),
    decreases qs.len(),
{
    reveal(Seq::filter);
    if qs.len() > 0 {
        lemma_scorers(qs.drop_last());
    }
}

proof fn lemma_count_update(s: Seq<(i32, QuizzerView)>, p: int, x: (i32, QuizzerView))
    requires
        0 <= p < s.len(),
    ensures
        scoring_quizzer_count(s.update(p, x)) + (if has_scored(s[p]) { 1int } else { 0int })
            == scoring_quizzer_count(s) + (if has_scored(x) { 1int } else { 0int }),
    decreases s.len(),
{
    let u = s.update(p, x);
    if p == s.len() - 1 {
        assert(u.drop_last() =~= s.drop_last());
    } else {
        assert(u.drop_last() =~= s.drop_last().update(p, x));
        lemma_count_update(s.drop_last(), p, x);
    }
}

/// A correct toss-up in regulation play (question 20 or earlier) by a seated quizzer earns
/// the team the toss-up award, and the third-, fourth- and fifth-person bonus on top when it
/// is the quizzer's first correct toss-up and the team had two, three or four quizzers with a
/// correct toss-up before (so that it now has three, four or five).
pub proof fn law_new_scorers_earn_the_bonus(st: CalcState, e: GameEventView, zone: int)
    requires
        code_of(e.event) == Some(GameEventCode::TC),
        st.current_question <= 20,
        seat_has(st.teams, e.team),
        seat_has(seat_get(st.teams, e.team).quizzers, e.quizzer),
    ensures
        ({
            let t = seat_get(st.teams, e.team);
            let first = seat_get(t.quizzers, e.quizzer).correct_tossups.len() == 0;
            let n = scorers(t.quizzers);
            &&& calc_step(st, e, zone) is Next
            &&& seat_has(calc_step(st, e, zone)->Next_0.teams, e.team)
            &&& seat_get(calc_step(st, e, zone)->Next_0.teams, e.team).score == t.score
                + st.options.point_award_for_correct_tossup
                + if first && 2 <= n <= 4 { st.options.third_fourth_and_fifth_person_bonus_award_amount as int } else { 0int }
        }),
{
    let t = seat_get(st.teams, e.team);
    let qz = seat_get(t.quizzers, e.quizzer);
    let qz2 = QuizzerView { correct_tossups: qz.correct_tossups.push(e.question), ..qz };
    let qs2 = seat_insert(t.quizzers, e.quizzer, qz2);
    lemma_seat_pos_bounds(t.quizzers, e.quizzer);
    let p = seat_pos(t.quizzers, e.quizzer);
    assert(qs2 == t.quizzers.update(p, (e.quizzer, qz2)));
    lemma_count_update(t.quizzers, p, (e.quizzer, qz2));
    assert(has_scored((e.quizzer, qz2)));
    assert(t.quizzers[p] == (e.quizzer, qz));
    lemma_scorers(t.quizzers);
    let before = scoring_quizzer_count(t.quizzers);
    let after = scoring_quizzer_count(qs2);
    assert(qz.correct_tossups.len() == 0 ==> after == before + 1);
    assert(qz.correct_tossups.len() > 0 ==> after == before);
    let st2 = calc_step(st, e, zone);
    assert(st2 is Next);
    let t4 = seat_get(st2->Next_0.teams, e.team);
    // The team stored back under its number.
    let stored = if (before == 2 && after == 3) || (before == 3 && after == 4) || (before == 4 && after == 5) {
        t.score + st.options.point_award_for_correct_tossup + st.options.third_fourth_and_fifth_person_bonus_award_amount
    } else {
        t.score + st.options.point_award_for_correct_tossup
    };
    let tv = crate::gameevent::calc_spec::with_score(
        crate::gameevent::calc_spec::with_quizzer(t, e.quizzer, qz2),
        t.score + st.options.point_award_for_correct_tossup,
    );
    let t_final = if crate::gameevent::calc_spec::new_scorer_bonus(before, after) {
        crate::gameevent::calc_spec::with_score(tv, tv.score + st.options.third_fourth_and_fifth_person_bonus_award_amount)
    } else {
        tv
    };
    lemma_insert_existing(st.teams, e.team, t_final);
    assert(t_final.score == stored);
}

// ─── Time-outs ──────────────────────────────────────────────────────────────

/// The time-outs a team has taken: the "TO" events naming that team.
pub open spec fn own_timeouts(events: Seq<GameEventView>, team: i32) -> nat {
    events.filter(|e: GameEventView| e.event == "TO"@ && e.team == team).len()
}

proof fn lemma_own_timeouts(events: Seq<GameEventView>, team: i32)
    ensures
        count_timeouts(events, team) == own_timeouts(events, team),
    decreases events.len(),
{
    reveal(Seq::filter);
    if events.len() > 0 {
        lemma_own_timeouts(events.drop_last(), team);
    }
}

/// Adding a time-out for a team is refused exactly when the "TO" events of that same team
/// already reach the limit; time-outs of other teams never count against it.
pub proof fn law_timeouts_count_only_the_teams_own(r: StreamOutcome, b: StreamView, team: int)
    requires
        to_outcome(r, b, team),
    ensures
        r is Err <==> own_timeouts(b.events, team as i32) >= max_timeouts(b),
{
    lemma_own_timeouts(b.events, team as i32);
}

/// A time-out of another team leaves a team's count as it was; one of its own adds one.
pub proof fn law_timeouts_of_other_teams_do_not_count(events: Seq<GameEventView>, e: GameEventView, team: i32)
    ensures
        e.team != team ==> count_timeouts(events.push(e), team) == count_timeouts(events, team),
        e.team == team && e.event == "TO"@ ==> count_timeouts(events.push(e), team) == count_timeouts(events, team) + 1,
{
    lemma_own_timeouts(events, team);
    lemma_own_timeouts(events.push(e), team);
    reveal(Seq::filter);
    assert(events.push(e).drop_last() =~= events);
}

// ─── Duplicate quizzer names ────────────────────────────────────────────────

proof fn lemma_in_concat(a: Seq<Seq<char>>, b: Seq<Seq<char>>, m: Seq<char>)
    ensures
        a.contains(m) ==> (a + b).contains(m),
        b.contains(m) ==> (a + b).contains(m),
{
    if a.contains(m) {
        let i = choose|i: int| 0 <= i < a.len() && a[i] == m;
        assert((a + b)[i] == m);
    }
    if b.contains(m) {
        let i = choose|i: int| 0 <= i < b.len() && b[i] == m;
        assert((a + b)[a.len() + i] == m);
    }
}

proof fn lemma_dup_row_contains(team: Seq<char>, q: Seq<Seq<char>>, i: int, n: int, j: int)
    requires
        0 <= j < n <= q.len(),
        0 <= i < q.len(),
        i != j,
        q[i] == q[j],
        q[j] != Seq::<char>::empty(),
    ensures
        dup_row(team, q, i, n).contains(msg_dup_quizzer(team, q[i])),
    decreases n,
{
    if j < n - 1 {
        lemma_dup_row_contains(team, q, i, n - 1, j);
        lemma_in_concat(dup_row(team, q, i, n - 1), msg_if(i != n - 1 && q[n - 1] != blank() && q[i] == q[n - 1], msg_dup_quizzer(team, q[n - 1])), msg_dup_quizzer(team, q[i]));
    } else {
        let last = msg_if(i != n - 1 && q[n - 1] != blank() && q[i] == q[n - 1], msg_dup_quizzer(team, q[n - 1]));
        assert(last[0] == msg_dup_quizzer(team, q[i]));
        lemma_in_concat(dup_row(team, q, i, n - 1), last, msg_dup_quizzer(team, q[i]));
    }
}

proof fn lemma_dup_rows_contains(team: Seq<char>, q: Seq<Seq<char>>, n: int, i: int, j: int)
    requires
        0 <= i < n <= q.len(),
        0 <= j < q.len(),
        i != j,
        q[i] == q[j],
        q[i] != Seq::<char>::empty(),
    ensures
        dup_rows(team, q, n).contains(msg_dup_quizzer(team, q[i])),
    decreases n,
{
    let m = msg_dup_quizzer(team, q[i]);
    if i < n - 1 {
        lemma_dup_rows_contains(team, q, n - 1, i, j);
        let tail = if q[n - 1] == blank() { Seq::<Seq<char>>::empty() } else { dup_row(team, q, n - 1, q.len() as int) };
        lemma_in_concat(dup_rows(team, q, n - 1), tail, m);
    } else {
        lemma_dup_row_contains(team, q, i, q.len() as int, j);
        lemma_in_concat(dup_rows(team, q, n - 1), dup_row(team, q, n - 1, q.len() as int), m);
    }
}

/// With the duplicate quizzer check asked for, whenever a named team (left, center or right)
/// has the same non-empty quizzer name in two different seats, validation reports that the
/// team has more than one quizzer with that name.
pub proof fn law_duplicate_quizzer_names_are_reported(c: ValidatorChecks, s: Seq<GameEventView>, k: int, i: int, j: int)
    requires
        c.everything || c.quizzer_name_duplicates,
        0 <= k < 3,
        team_names_of(s)[k] != Seq::<char>::empty(),
        0 <= i < quizzer_names_of(s)[k].len(),
        0 <= j < quizzer_names_of(s)[k].len(),
        i != j,
        quizzer_names_of(s)[k][i] == quizzer_names_of(s)[k][j],
        quizzer_names_of(s)[k][i] != Seq::<char>::empty(),
    ensures
        validation_errors(c, s).contains(
            "Team '"@ + team_names_of(s)[k] + "' has more than 1 quizzer with the name '"@ + quizzer_names_of(s)[k][i]
                + "'. Quizzer names must be unique for each team."@,
        ),
        validation_errors(c, s).len() > 0,
{
    let names = team_names_of(s);
    let seats = quizzer_names_of(s);
    let m = msg_dup_quizzer(names[k], seats[k][i]);
    lemma_dup_rows_contains(names[k], seats[k], seats[k].len() as int, i, j);
    assert(team_quizzer_dup_errors(names[k], seats[k]).contains(m));
    let t0 = team_quizzer_dup_errors(names[0], seats[0]);
    let t1 = team_quizzer_dup_errors(names[1], seats[1]);
    let t2 = team_quizzer_dup_errors(names[2], seats[2]);
    lemma_in_concat(t0, t1, m);
    lemma_in_concat(t0 + t1, t2, m);
    assert(quizzer_dup_errors(names, seats) == t0 + t1 + t2);
    assert(quizzer_dup_errors(names, seats).contains(m));
    let e = validation_errors(c, s);
    let front = (if c.everything || c.sort_order { order_errors(s) } else { seq![] })
        + (if c.everything || c.has_rm_and_qt { rm_qt_errors(s) } else { seq![] })
        + (if c.everything || c.min_one_team_and_quizzer { min_one_errors(names, seats) } else { seq![] })
        + (if c.everything || c.has_rm_and_qt { rm_qt_errors(s) } else { seq![] })
        + (if c.everything || c.captains { captain_errors(s) } else { seq![] })
        + (if c.everything || c.team_name_duplicates { team_dup_errors(names) } else { seq![] });
    assert(e == front + quizzer_dup_errors(names, seats));
    lemma_in_concat(front, quizzer_dup_errors(names, seats), m);
    let k2 = choose|x: int| 0 <= x < e.len() && e[x] == m;
    assert(e[k2] == m);
}

} // verus!
