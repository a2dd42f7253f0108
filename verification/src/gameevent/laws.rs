//! What holds of the game event stream across operations: what scoring ignores, what the
//! builder keeps, and how the rankings order teams.
use vstd::prelude::*;
use crate::gameevent::calc_spec::{calc_run, calculate, initial_state, calc_step, competitive_ranks, count_distinct_higher, count_higher, dense_ranks, CalcState, CalcStep, TeamView};
use crate::gameevent::code::{code_of, lemma_code_text_roundtrip, GameEventCode};
use crate::gameevent::event::{event_le, events_in_order, insert_in_order, lemma_insert_in_order_props, lemma_sort_events_props, sort_events, GameEventView};
use crate::gameevent::validator_spec::{
    captain_errors, min_one_errors, order_errors, quizzer_dup_errors, quizzer_names_of, rm_qt_errors, team_dup_errors,
    team_names_of, validation_errors, ValidatorChecks,
};
use crate::gameevent::stream_spec::{
    events_added_with_teams, lemma_seat_of, mark_from, qn_plans, seat_of, seat_on, seated, stream_wf, StreamView,
};

verus! {

/// The events that still count: those not marked "DE", in order.
pub open spec fn live_events(s: Seq<GameEventView>) -> Seq<GameEventView>
    decreases s.len(),
{
    if s.len() == 0 {
        seq![]
    } else {
        (if s[0].event == "DE"@ { Seq::<GameEventView>::empty() } else { seq![s[0]] }) + live_events(s.drop_first())
    }
}

/// Scoring ignores the events marked "DE": reading a list of events gives what reading its
/// live events gives, from any state.
pub proof fn law_marked_events_do_not_count(st: CalcState, s: Seq<GameEventView>, msgs: Seq<Seq<char>>, zone: int)
    ensures
        calc_run(st, s, msgs, zone) == calc_run(st, live_events(s), msgs, zone),
    decreases s.len(),
{
    if s.len() > 0 {
        lemma_code_text_roundtrip(GameEventCode::DE);
        law_marked_events_do_not_count(st, s.drop_first(), msgs, zone);
        if s[0].event == "DE"@ {
            assert(code_of(s[0].event) == Some(GameEventCode::DE));
            assert(msgs + Seq::<Seq<char>>::empty() =~= msgs);
            assert(live_events(s) =~= live_events(s.drop_first()));
        } else {
            let l = live_events(s);
            assert(l =~= seq![s[0]] + live_events(s.drop_first()));
            assert(l[0] == s[0]);
            assert(l.drop_first() =~= live_events(s.drop_first()));
            match calc_step(st, s[0], zone) {
                CalcStep::Next(st2, m) => {
                    law_marked_events_do_not_count(st2, s.drop_first(), msgs + m, zone);
                },
                _ => {},
            }
        }
    }
}

/// Marking from a question twice marks no more than marking once.
pub proof fn law_marking_is_idempotent(s: Seq<GameEventView>, q: int)
    ensures
        mark_from(mark_from(s, q), q) == mark_from(s, q),
{
    assert(mark_from(mark_from(s, q), q) =~= mark_from(s, q));
}

/// Marking from a question keeps every event before it, and of the others changes only the
/// code.
pub proof fn law_marking_keeps_earlier_questions(s: Seq<GameEventView>, q: int)
    ensures
        mark_from(s, q).len() == s.len(),
        forall|i: int| 0 <= i < s.len() && s[i].question < q ==> #[trigger] mark_from(s, q)[i] == s[i],
        forall|i: int| 0 <= i < s.len() && s[i].question >= q ==> #[trigger] mark_from(s, q)[i] == (GameEventView { event: "DE"@, ..s[i] }),
{
}

/// A quizzer just added to the roster is found on the team, in the seat given or an
/// earlier one that already held the name.
pub proof fn law_seated_quizzer_is_found(before: StreamView, after: StreamView, name: Seq<char>, team: int, seat: int, is_captain: bool, is_cocaptain: bool)
    requires
        stream_wf(before),
        0 <= team < 3,
        0 <= seat < 6,
        events_added_with_teams(after, before, seated(before.teams, team, seat, name), qn_plans(before.events, name, team, seat, is_captain, is_cocaptain)),
    ensures
        seat_on(after, team, name) <= seat,
        after.teams[team].quizzers[seat_on(after, team, name)] == name,
{
    let q = after.teams[team].quizzers;
    assert(q == before.teams[team].quizzers.update(seat, name));
    lemma_seat_of(q, name);
    assert(q[seat] == name);
}

/// Competitive ranking: teams with equal scores share a rank, a higher score never ranks
/// below a lower one, and every rank is at least 1.
pub proof fn law_competitive_ranks_order_by_score(ts: Seq<(i32, TeamView)>, i: int, j: int)
    requires
        0 <= i < ts.len(),
        0 <= j < ts.len(),
    ensures
        competitive_ranks(ts)[i].1.rank >= 1,
        ts[i].1.score == ts[j].1.score ==> competitive_ranks(ts)[i].1.rank == competitive_ranks(ts)[j].1.rank,
        ts[i].1.score > ts[j].1.score ==> competitive_ranks(ts)[i].1.rank < competitive_ranks(ts)[j].1.rank,
{
    if ts[i].1.score > ts[j].1.score {
        lemma_count_higher_strict(ts, ts[i].1.score, ts[j].1.score, i);
    }
}

/// Counting the teams above a lower score counts at least one more (the team at `i`).
proof fn lemma_count_higher_strict(ts: Seq<(i32, TeamView)>, a: int, b: int, i: int)
    requires
        b < a,
        0 <= i < ts.len(),
        ts[i].1.score == a,
    ensures
        count_higher(ts, b) >= count_higher(ts, a) + 1,
    decreases ts.len(),
{
    if i < ts.len() - 1 {
        lemma_count_higher_strict(ts.drop_last(), a, b, i);
    } else {
        lemma_count_higher_mono(ts.drop_last(), a, b);
    }
}

proof fn lemma_count_higher_mono(ts: Seq<(i32, TeamView)>, a: int, b: int)
    requires
        b <= a,
    ensures
        count_higher(ts, b) >= count_higher(ts, a),
    decreases ts.len(),
{
    if ts.len() > 0 {
        lemma_count_higher_mono(ts.drop_last(), a, b);
    }
}

/// Dense ranking: teams with equal scores share a rank, a higher score ranks strictly above a
/// lower one, and every rank is at least 1.
pub proof fn law_dense_ranks_order_by_score(ts: Seq<(i32, TeamView)>, i: int, j: int)
    requires
        0 <= i < ts.len(),
        0 <= j < ts.len(),
    ensures
        dense_ranks(ts)[i].1.rank >= 1,
        ts[i].1.score == ts[j].1.score ==> dense_ranks(ts)[i].1.rank == dense_ranks(ts)[j].1.rank,
        ts[i].1.score > ts[j].1.score ==> dense_ranks(ts)[i].1.rank < dense_ranks(ts)[j].1.rank,
{
    if ts[i].1.score > ts[j].1.score {
        lemma_count_distinct_higher_strict(ts, ts[i].1.score as int, ts[j].1.score as int);
        assert(score_occurs(ts, ts[i].1.score as int));
    }
}

/// Whether some team has score `x`.
spec fn score_occurs(ts: Seq<(i32, TeamView)>, x: int) -> bool {
    exists|k: int| 0 <= k < ts.len() && ts[k].1.score == x
}

/// Counting the distinct scores above a lower score `b` counts those above `a`, and `a` itself
/// when some team has it.
proof fn lemma_count_distinct_higher_strict(ts: Seq<(i32, TeamView)>, a: int, b: int)
    requires
        b < a,
    ensures
        count_distinct_higher(ts, b) >= count_distinct_higher(ts, a) + if score_occurs(ts, a) { 1int } else { 0int },
    decreases ts.len(),
{
    if ts.len() > 0 {
        let rest = ts.drop_last();
        lemma_count_distinct_higher_strict(rest, a, b);
        if score_occurs(ts, a) && !score_occurs(rest, a) {
            let k = choose|k: int| 0 <= k < ts.len() && ts[k].1.score == a;
            if k < rest.len() {
                assert(rest[k].1.score == a);
            }
            assert(ts.last().1.score == a);
            assert(!(exists|m: int| 0 <= m < rest.len() && rest[m].1.score == ts.last().1.score));
        }
        if score_occurs(rest, a) {
            let k = choose|k: int| 0 <= k < rest.len() && rest[k].1.score == a;
            assert(ts[k].1.score == a);
        }
    }
}

/// Whether checks `more` run every check that `fewer` runs.
pub open spec fn checks_cover(more: ValidatorChecks, fewer: ValidatorChecks) -> bool {
    &&& (fewer.everything || fewer.sort_order) ==> (more.everything || more.sort_order)
    &&& (fewer.everything || fewer.has_rm_and_qt) ==> (more.everything || more.has_rm_and_qt)
    &&& (fewer.everything || fewer.min_one_team_and_quizzer) ==> (more.everything || more.min_one_team_and_quizzer)
    &&& (fewer.everything || fewer.captains) ==> (more.everything || more.captains)
    &&& (fewer.everything || fewer.team_name_duplicates) ==> (more.everything || more.team_name_duplicates)
    &&& (fewer.everything || fewer.quizzer_name_duplicates) ==> (more.everything || more.quizzer_name_duplicates)
}

/// Asking for more checks never turns a failing validation into a passing one: every error
/// that fewer checks report is reported by more checks too (switching on every check
/// included).
pub proof fn law_more_checks_never_pass_a_failing_stream(more: ValidatorChecks, fewer: ValidatorChecks, s: Seq<GameEventView>)
    requires
        checks_cover(more, fewer),
    ensures
        messages_within(validation_errors(fewer, s), validation_errors(more, s)),
        validation_errors(fewer, s).len() > 0 ==> validation_errors(more, s).len() > 0,
{
    let names = team_names_of(s);
    let seats = quizzer_names_of(s);
    let a = if fewer.everything || fewer.sort_order { order_errors(s) } else { seq![] };
    let b = if fewer.everything || fewer.has_rm_and_qt { rm_qt_errors(s) } else { seq![] };
    let c = if fewer.everything || fewer.min_one_team_and_quizzer { min_one_errors(names, seats) } else { seq![] };
    let f = if fewer.everything || fewer.captains { captain_errors(s) } else { seq![] };
    let g = if fewer.everything || fewer.team_name_duplicates { team_dup_errors(names) } else { seq![] };
    let h = if fewer.everything || fewer.quizzer_name_duplicates { quizzer_dup_errors(names, seats) } else { seq![] };
    let a2 = if more.everything || more.sort_order { order_errors(s) } else { seq![] };
    let b2 = if more.everything || more.has_rm_and_qt { rm_qt_errors(s) } else { seq![] };
    let c2 = if more.everything || more.min_one_team_and_quizzer { min_one_errors(names, seats) } else { seq![] };
    let f2 = if more.everything || more.captains { captain_errors(s) } else { seq![] };
    let g2 = if more.everything || more.team_name_duplicates { team_dup_errors(names) } else { seq![] };
    let h2 = if more.everything || more.quizzer_name_duplicates { quizzer_dup_errors(names, seats) } else { seq![] };
    lemma_part_within(a, a2);
    lemma_part_within(b, b2);
    lemma_part_within(c, c2);
    lemma_part_within(f, f2);
    lemma_part_within(g, g2);
    lemma_part_within(h, h2);
    lemma_concat_within(a, a2, b, b2);
    lemma_concat_within(a + b, a2 + b2, c, c2);
    lemma_concat_within(a + b + c, a2 + b2 + c2, b, b2);
    lemma_concat_within(a + b + c + b, a2 + b2 + c2 + b2, f, f2);
    lemma_concat_within(a + b + c + b + f, a2 + b2 + c2 + b2 + f2, g, g2);
    lemma_concat_within(a + b + c + b + f + g, a2 + b2 + c2 + b2 + f2 + g2, h, h2);
    assert(validation_errors(fewer, s) == a + b + c + b + f + g + h);
    assert(validation_errors(more, s) == a2 + b2 + c2 + b2 + f2 + g2 + h2);
    if validation_errors(fewer, s).len() > 0 {
        assert(validation_errors(fewer, s).contains(validation_errors(fewer, s)[0]));
    }
}

/// Whether every message of `x` is a message of `y`.
pub open spec fn messages_within(x: Seq<Seq<char>>, y: Seq<Seq<char>>) -> bool {
    forall|m: Seq<char>| x.contains(m) ==> y.contains(m)
}

proof fn lemma_part_within(x: Seq<Seq<char>>, y: Seq<Seq<char>>)
    requires
        x.len() == 0 || x == y,
    ensures
        messages_within(x, y),
{
}

proof fn lemma_concat_within(x: Seq<Seq<char>>, x2: Seq<Seq<char>>, y: Seq<Seq<char>>, y2: Seq<Seq<char>>)
    requires
        messages_within(x, x2),
        messages_within(y, y2),
    ensures
        messages_within(x + y, x2 + y2),
{
    assert forall|m: Seq<char>| (x + y).contains(m) implies (x2 + y2).contains(m) by {
        let k = choose|k: int| 0 <= k < (x + y).len() && (x + y)[k] == m;
        if k < x.len() {
            assert(x.contains(m));
            let j = choose|j: int| 0 <= j < x2.len() && x2[j] == m;
            assert((x2 + y2)[j] == m);
        } else {
            assert(y[k - x.len()] == m);
            assert(y.contains(m));
            let j = choose|j: int| 0 <= j < y2.len() && y2[j] == m;
            assert((x2 + y2)[x2.len() + j] == m);
        }
    }
}

// ─── Whole calculations ─────────────────────────────────────────────────────

/// Whether an event is marked "DE".
pub open spec fn is_marked(e: GameEventView) -> bool {
    e.event == "DE"@
}

proof fn lemma_live_push(s: Seq<GameEventView>, x: GameEventView)
    ensures
        live_events(s.push(x)) == live_events(s) + (if is_marked(x) { Seq::<GameEventView>::empty() } else { seq![x] }),
    decreases s.len(),
{
    let t = if is_marked(x) { Seq::<GameEventView>::empty() } else { seq![x] };
    if s.len() == 0 {
        let e0 = Seq::<GameEventView>::empty();
        assert(live_events(e0) == e0);
        assert(s.push(x) =~= seq![x]);
        assert(s.push(x).drop_first() =~= e0);
        assert(s.push(x)[0] == x);
        assert(live_events(s.push(x)) == t + live_events(e0));
        assert(live_events(s) == e0);
        assert(t + e0 =~= t);
        assert(e0 + t =~= t);
    } else {
        assert(s.push(x).drop_first() =~= s.drop_first().push(x));
        assert(s.push(x)[0] == s[0]);
        lemma_live_push(s.drop_first(), x);
        let h = if s[0].event == "DE"@ { Seq::<GameEventView>::empty() } else { seq![s[0]] };
        assert(live_events(s.push(x)) == h + live_events(s.push(x).drop_first()));
        assert(live_events(s) == h + live_events(s.drop_first()));
        assert(h + (live_events(s.drop_first()) + t) =~= (h + live_events(s.drop_first())) + t);
    }
}

proof fn lemma_live_within(s: Seq<GameEventView>, i: int)
    requires
        0 <= i < live_events(s).len(),
    ensures
        exists|k: int| 0 <= k < s.len() && s[k] == live_events(s)[i],
    decreases s.len(),
{
    let h = if s[0].event == "DE"@ { Seq::<GameEventView>::empty() } else { seq![s[0]] };
    if i < h.len() {
        assert(live_events(s)[i] == s[0]);
    } else {
        lemma_live_within(s.drop_first(), i - h.len());
        let k = choose|k: int| 0 <= k < s.drop_first().len() && s.drop_first()[k] == live_events(s.drop_first())[i - h.len()];
        assert(s[k + 1] == live_events(s)[i]);
    }
}

proof fn lemma_insert_after_all(u: Seq<GameEventView>, e: GameEventView)
    requires
        u.len() == 0 || event_le(u.last(), e),
    ensures
        insert_in_order(u, e) == u.push(e),
{
    if u.len() == 0 {
        assert(seq![e] =~= u.push(e));
    }
}

/// Dropping the marked events of a list in order and then inserting `e` in order is inserting
/// first and dropping after.
proof fn lemma_live_insert(t: Seq<GameEventView>, e: GameEventView)
    requires
        events_in_order(t),
    ensures
        live_events(insert_in_order(t, e)) == (if is_marked(e) { live_events(t) } else { insert_in_order(live_events(t), e) }),
    decreases t.len(),
{
    if t.len() == 0 {
        assert(insert_in_order(t, e) =~= t.push(e));
        lemma_live_push(t, e);
        assert(live_events(t) =~= Seq::<GameEventView>::empty());
        assert(live_events(t) + seq![e] =~= seq![e]);
    } else if event_le(t.last(), e) {
        lemma_live_push(t, e);
        if !is_marked(e) {
            let u = live_events(t);
            if u.len() > 0 {
                lemma_live_within(t, u.len() - 1);
                let k = choose|k: int| 0 <= k < t.len() && t[k] == u[u.len() - 1];
                if k < t.len() - 1 {
                    assert(event_le(t[k], t[t.len() - 1]));
                }
            }
            lemma_insert_after_all(u, e);
            assert(u + seq![e] =~= u.push(e));
        } else {
            assert(live_events(t) + Seq::<GameEventView>::empty() =~= live_events(t));
        }
    } else {
        let t1 = t.drop_last();
        assert(events_in_order(t1));
        lemma_live_insert(t1, e);
        lemma_live_push(insert_in_order(t1, e), t.last());
        assert(t1.push(t.last()) =~= t);
        lemma_live_push(t1, t.last());
        let x = t.last();
        if is_marked(x) {
            assert(live_events(insert_in_order(t1, e)) + Seq::<GameEventView>::empty() =~= live_events(insert_in_order(t1, e)));
            assert(live_events(t1) + Seq::<GameEventView>::empty() =~= live_events(t1));
        } else {
            assert(live_events(t) =~= live_events(t1).push(x));
            assert(live_events(insert_in_order(t1, e)) + seq![x] =~= live_events(insert_in_order(t1, e)).push(x));
            if !is_marked(e) {
                assert(live_events(t).drop_last() =~= live_events(t1));
                assert(live_events(t).last() == x);
            } else {
            }
        }
    }
}

/// Dropping the marked events commutes with sorting.
pub proof fn lemma_live_sort(s: Seq<GameEventView>)
    ensures
        live_events(sort_events(s)) == sort_events(live_events(s)),
    decreases s.len(),
{
    if s.len() == 0 {
        assert(live_events(s) =~= s);
    } else {
        let s1 = s.drop_last();
        let x = s.last();
        lemma_live_sort(s1);
        lemma_sort_events_props(s1);
        lemma_live_insert(sort_events(s1), x);
        assert(s1.push(x) =~= s);
        lemma_live_push(s1, x);
        if is_marked(x) {
            assert(live_events(s) =~= live_events(s1));
        } else {
            assert(live_events(s) =~= live_events(s1).push(x));
            assert(live_events(s).drop_last() =~= live_events(s1));
        }
    }
}

/// Scoring ignores the events marked "DE": a whole calculation gives what it gives on the
/// events with the marked ones left out beforehand.
pub proof fn law_calculation_ignores_marked_events(s: Seq<GameEventView>, zone: int)
    ensures
        calculate(s, zone) == calculate(live_events(s), zone),
{
    lemma_live_sort(s);
    law_marked_events_do_not_count(initial_state(), sort_events(s), seq![], zone);
    law_marked_events_do_not_count(initial_state(), sort_events(live_events(s)), seq![], zone);
    lemma_live_sort(live_events(s));
    lemma_live_idempotent(s);
}

proof fn lemma_live_idempotent(s: Seq<GameEventView>)
    ensures
        live_events(live_events(s)) == live_events(s),
    decreases s.len(),
{
    if s.len() > 0 {
        lemma_live_idempotent(s.drop_first());
        let h = if s[0].event == "DE"@ { Seq::<GameEventView>::empty() } else { seq![s[0]] };
        let l = live_events(s);
        if s[0].event != "DE"@ {
            assert(l =~= seq![s[0]] + live_events(s.drop_first()));
            assert(l[0] == s[0]);
            assert(l.drop_first() =~= live_events(s.drop_first()));
        } else {
            assert(l =~= live_events(s.drop_first()));
        }
    }
}

/// Two events share a question and event number.
pub open spec fn same_place(a: GameEventView, b: GameEventView) -> bool {
    a.question == b.question && a.eventnum == b.eventnum
}

/// No two events of the list share a question and event number.
pub open spec fn places_distinct(s: Seq<GameEventView>) -> bool {
    forall|i: int, j: int| 0 <= i < j < s.len() ==> !same_place(s[i], s[j])
}

proof fn lemma_insert_distinct(t: Seq<GameEventView>, x: GameEventView)
    requires
        events_in_order(t),
        places_distinct(t),
        forall|i: int| 0 <= i < t.len() ==> !same_place(#[trigger] t[i], x),
    ensures
        places_distinct(insert_in_order(t, x)),
    decreases t.len(),
{
    broadcast use vstd::seq_lib::group_to_multiset_ensures;
    if t.len() == 0 {
        assert(insert_in_order(t, x) =~= seq![x]);
    } else if event_le(t.last(), x) {
        let r = t.push(x);
        assert forall|i: int, j: int| 0 <= i < j < r.len() implies !same_place(r[i], r[j]) by {
            if j == t.len() {
                assert(r[i] == t[i]);
            } else {
                assert(r[i] == t[i] && r[j] == t[j]);
            }
        }
    } else {
        let t1 = t.drop_last();
        assert(events_in_order(t1));
        assert(places_distinct(t1));
        lemma_insert_distinct(t1, x);
        lemma_insert_in_order_props(t1, x);
        let u = insert_in_order(t1, x);
        let r = u.push(t.last());
        assert forall|i: int, j: int| 0 <= i < j < r.len() implies !same_place(r[i], r[j]) by {
            if j == u.len() {
                let y = u[i];
                assert(u.to_multiset().count(y) > 0);
                if y != x {
                    assert(t1.to_multiset().count(y) > 0);
                    let k = choose|k: int| 0 <= k < t1.len() && t1[k] == y;
                    assert(t[k] == y);
                    assert(!same_place(t[k], t[t.len() - 1]));
                } else {
                    assert(!same_place(t[t.len() - 1], x));
                }
            } else {
                assert(r[i] == u[i] && r[j] == u[j]);
            }
        }
    }
}

proof fn lemma_sort_distinct(a: Seq<GameEventView>)
    requires
        places_distinct(a),
    ensures
        places_distinct(sort_events(a)),
    decreases a.len(),
{
    broadcast use vstd::seq_lib::group_to_multiset_ensures;
    if a.len() > 0 {
        let a1 = a.drop_last();
        let x = a.last();
        assert(places_distinct(a1));
        lemma_sort_distinct(a1);
        lemma_sort_events_props(a1);
        let t = sort_events(a1);
        assert forall|i: int| 0 <= i < t.len() implies !same_place(#[trigger] t[i], x) by {
            assert(t.to_multiset().count(t[i]) > 0);
            assert(a1.to_multiset().count(t[i]) > 0);
            let k = choose|k: int| 0 <= k < a1.len() && a1[k] == t[i];
            assert(a[k] == t[i]);
            assert(!same_place(a[k], a[a.len() - 1]));
        }
        lemma_insert_distinct(t, x);
    }
}

/// Two lists in order, holding the same events, with no two events in the same place, are
/// the same list.
proof fn lemma_sorted_unique(x: Seq<GameEventView>, y: Seq<GameEventView>)
    requires
        events_in_order(x),
        events_in_order(y),
        places_distinct(x),
        x.to_multiset() == y.to_multiset(),
    ensures
        x == y,
    decreases x.len(),
{
    broadcast use vstd::seq_lib::group_to_multiset_ensures;
    assert(x.len() == x.to_multiset().len());
    assert(y.len() == y.to_multiset().len());
    if x.len() == 0 {
        assert(x =~= y);
    } else {
        let xl = x.last();
        let yl = y.last();
        assert(x.to_multiset().count(yl) > 0);
        let k = choose|k: int| 0 <= k < x.len() && x[k] == yl;
        assert(y.to_multiset().count(xl) > 0);
        let m = choose|m: int| 0 <= m < y.len() && y[m] == xl;
        if k < x.len() - 1 {
            assert(event_le(x[k], x[x.len() - 1]));
        }
        if m < y.len() - 1 {
            assert(event_le(y[m], y[y.len() - 1]));
        }
        assert(same_place(x[k], x[x.len() - 1]));
        assert(k == x.len() - 1);
        assert(xl == yl);
        let x1 = x.drop_last();
        let y1 = y.drop_last();
        assert(x =~= x1.push(xl));
        assert(y =~= y1.push(xl));
        assert(x1.to_multiset() =~= x.to_multiset().remove(xl));
        assert(y1.to_multiset() =~= y.to_multiset().remove(xl));
        assert(events_in_order(x1));
        assert(events_in_order(y1));
        assert(places_distinct(x1));
        lemma_sorted_unique(x1, y1);
    }
}

/// Scoring does not depend on the order the events come in: two lists of the same events,
/// no two of which share a question and event number, score alike.
pub proof fn law_calculation_ignores_input_order(a: Seq<GameEventView>, b: Seq<GameEventView>, zone: int)
    requires
        a.to_multiset() == b.to_multiset(),
        places_distinct(a),
    ensures
        calculate(a, zone) == calculate(b, zone),
{
    lemma_sort_events_props(a);
    lemma_sort_events_props(b);
    lemma_sort_distinct(a);
    lemma_sorted_unique(sort_events(a), sort_events(b));
}

} // verus!
