//! What the game event stream builder appends: each operation appends events with fixed
//! fields (their client and server times are taken when they are built).
use vstd::prelude::*;
use crate::gameevent::code::{code_text, GameEventCode};
use crate::gameevent::event::GameEventView;
use crate::text::int_text;
use crate::gameevent::code::GameEventCode::{BC, BE, Cminus, EO, FC, Fminus, NJ, QN, QO, SB, SC, SS, TC, TE, TO};

verus! {

/// The fields of an event to append, all but its two times.
pub struct EventPlan {
    pub question: int,
    pub eventnum: int,
    pub name: Seq<char>,
    pub team: int,
    pub quizzer: int,
    pub code: GameEventCode,
}

pub open spec fn plan(question: int, eventnum: int, name: Seq<char>, team: int, quizzer: int, code: GameEventCode) -> EventPlan {
    EventPlan { question, eventnum, name, team, quizzer, code }
}

/// An event of game `gid` carries the planned fields, with empty parameters and digest.
pub open spec fn realizes(e: GameEventView, gid: u128, p: EventPlan) -> bool {
    &&& e.gid == gid
    &&& e.question == p.question
    &&& e.eventnum == p.eventnum
    &&& e.name == p.name
    &&& e.team == p.team
    &&& e.quizzer == p.quizzer
    &&& e.event == code_text(p.code)
    &&& e.parm1 == Seq::<char>::empty()
    &&& e.parm2 == Seq::<char>::empty()
    &&& e.md5digest == Seq::<char>::empty()
}

/// `after` is `before` with events for `plans` appended.
pub open spec fn appended(after: Seq<GameEventView>, before: Seq<GameEventView>, gid: u128, plans: Seq<EventPlan>) -> bool {
    &&& after.len() == before.len() + plans.len()
    &&& after.take(before.len() as int) == before
    &&& forall|k: int| 0 <= k < plans.len() ==> realizes(#[trigger] after[before.len() + k], gid, plans[k])
}

/// A team as the builder knows it: a name and six seats (the empty text for an empty seat).
pub struct StreamTeamView {
    pub name: Seq<char>,
    pub quizzers: Seq<Seq<char>>,
}

/// The builder's state.
pub struct StreamView {
    pub gid: u128,
    pub correct_toss_ups_to_quiz_out: i32,
    pub erroneous_toss_ups_to_error_out: i32,
    pub fouls_to_foul_out: i32,
    pub maximum_timeouts_per_team_when_two_teams_playing: i32,
    pub maximum_timeouts_per_team_when_three_teams_playing: i32,
    pub teams: Seq<StreamTeamView>,
    pub events: Seq<GameEventView>,
}

/// The position of the last event that is not marked "DE" (-1 if none).
pub open spec fn last_live(events: Seq<GameEventView>) -> int
    decreases events.len(),
{
    if events.len() == 0 {
        -1
    } else if events.last().event != "DE"@ {
        events.len() - 1
    } else {
        last_live(events.drop_last())
    }
}

/// The last live position is -1 or a position of the sequence.
pub proof fn lemma_last_live_bounds(events: Seq<GameEventView>)
    ensures
        -1 <= last_live(events) < events.len(),
        last_live(events) >= 0 ==> events[last_live(events)].event != "DE"@,
    decreases events.len(),
{
    if events.len() > 0 && events.last().event == "DE"@ {
        lemma_last_live_bounds(events.drop_last());
    }
}

/// The question and event number that the next configuration event continues from:
/// those of the last live event, or question 1 and event number -1 when there is none.
pub open spec fn prev_question(events: Seq<GameEventView>) -> int {
    if last_live(events) >= 0 { events[last_live(events)].question as int } else { 1 }
}

pub open spec fn prev_eventnum(events: Seq<GameEventView>) -> int {
    if last_live(events) >= 0 { events[last_live(events)].eventnum as int } else { -1 }
}

/// Whether an event ends its question's rulings, so that the next ruling starts a new
/// question. A ruling continues the question after a time out, a foul, or (on question 1)
/// the roster.
pub open spec fn ruling_continues(prev_q: int, prev_code: Seq<char>) -> bool {
    (prev_q == 1 && (prev_code == "QN"@ || prev_code == "SC"@ || prev_code == "SS"@))
        || prev_code == "TO"@ || prev_code == "F-"@ || prev_code == "FC"@ || prev_code == "DE"@
}

/// The question of the next ruling event.
pub open spec fn ruling_question(events: Seq<GameEventView>) -> int {
    let p = events[last_live(events)];
    if ruling_continues(p.question as int, p.event) { p.question as int } else { p.question + 1 }
}

/// The event number of the next ruling event.
pub open spec fn ruling_eventnum(events: Seq<GameEventView>) -> int {
    let p = events[last_live(events)];
    if ruling_continues(p.question as int, p.event) { p.eventnum + 1 } else { 0 }
}

/// The question of a foul or substitution: the same question (and event number) on
/// question 1, the next question from then on.
pub open spec fn between_question(events: Seq<GameEventView>) -> int {
    let p = events[last_live(events)];
    if p.question < 2 { p.question as int } else { p.question + 1 }
}

pub open spec fn between_eventnum(events: Seq<GameEventView>) -> int {
    let p = events[last_live(events)];
    if p.question < 2 { p.eventnum as int } else { 0 }
}

/// The number of events with the given code text and name.
pub open spec fn count_named(events: Seq<GameEventView>, code: Seq<char>, name: Seq<char>) -> nat
    decreases events.len(),
{
    if events.len() == 0 {
        0
    } else {
        count_named(events.drop_last(), code, name) + if events.last().event == code && events.last().name == name { 1nat } else { 0nat }
    }
}

/// The number of time outs taken by a team.
pub open spec fn count_timeouts(events: Seq<GameEventView>, team: i32) -> nat
    decreases events.len(),
{
    if events.len() == 0 {
        0
    } else {
        count_timeouts(events.drop_last(), team) + if events.last().event == "TO"@ && events.last().team == team { 1nat } else { 0nat }
    }
}

/// The position of the first seat holding `name` (6 if none).
pub open spec fn seat_of(quizzers: Seq<Seq<char>>, name: Seq<char>) -> int
    decreases quizzers.len(),
{
    if quizzers.len() == 0 {
        0
    } else if quizzers[0] == name {
        0
    } else {
        1 + seat_of(quizzers.drop_first(), name)
    }
}

/// `seat_of` finds the first seat holding the name, or the number of seats.
pub proof fn lemma_seat_of(q: Seq<Seq<char>>, name: Seq<char>)
    ensures
        0 <= seat_of(q, name) <= q.len(),
        seat_of(q, name) < q.len() ==> q[seat_of(q, name)] == name,
        forall|j: int| 0 <= j < seat_of(q, name) ==> q[j] != name,
    decreases q.len(),
{
    if q.len() > 0 && q[0] != name {
        lemma_seat_of(q.drop_first(), name);
        assert forall|j: int| 0 <= j < seat_of(q, name) implies q[j] != name by {
            if j > 0 {
                assert(q[j] == q.drop_first()[j - 1]);
            }
        }
    }
}

/// No more events are counted than there are.
pub proof fn lemma_count_named_bound(events: Seq<GameEventView>, code: Seq<char>, name: Seq<char>)
    ensures
        count_named(events, code, name) <= events.len(),
    decreases events.len(),
{
    if events.len() > 0 {
        lemma_count_named_bound(events.drop_last(), code, name);
    }
}

/// No more time outs are counted than there are events.
pub proof fn lemma_count_timeouts_bound(events: Seq<GameEventView>, team: i32)
    ensures
        count_timeouts(events, team) <= events.len(),
    decreases events.len(),
{
    if events.len() > 0 {
        lemma_count_timeouts_bound(events.drop_last(), team);
    }
}

/// The texts joined with ", " between them.
pub open spec fn join_comma(s: Seq<Seq<char>>) -> Seq<char>
    decreases s.len(),
{
    if s.len() == 0 {
        seq![]
    } else if s.len() == 1 {
        s[0]
    } else {
        join_comma(s.drop_last()) + ", "@ + s.last()
    }
}

/// Every event marked "DE" from question `q` on; the rest unchanged.
pub open spec fn mark_from(events: Seq<GameEventView>, q: int) -> Seq<GameEventView> {
    Seq::new(events.len(), |i: int| if events[i].question >= q { GameEventView { event: "DE"@, ..events[i] } } else { events[i] })
}

/// Every ruling (TC, TE, BC, BE) marked "DE" from question `q` on; the rest unchanged.
pub open spec fn mark_rulings_from(events: Seq<GameEventView>, q: int) -> Seq<GameEventView> {
    Seq::new(events.len(), |i: int|
        if events[i].question >= q && (events[i].event == "TC"@ || events[i].event == "TE"@ || events[i].event == "BC"@ || events[i].event == "BE"@) {
            GameEventView { event: "DE"@, ..events[i] }
        } else {
            events[i]
        })
}

/// Whether a code is a toss-up ruling.
pub open spec fn is_tossup(code: Seq<char>) -> bool {
    code == "TC"@ || code == "TE"@
}

/// Whether a code answers a question: a toss-up ruling or "no jump".
pub open spec fn is_answer(code: Seq<char>) -> bool {
    code == "TC"@ || code == "TE"@ || code == "NJ"@
}

/// The position of the last toss-up ruling (-1 if none).
pub open spec fn last_tossup(events: Seq<GameEventView>) -> int
    decreases events.len(),
{
    if events.len() == 0 {
        -1
    } else if is_tossup(events.last().event) {
        events.len() - 1
    } else {
        last_tossup(events.drop_last())
    }
}

/// The position of the last answer (-1 if none).
pub open spec fn last_answer(events: Seq<GameEventView>) -> int
    decreases events.len(),
{
    if events.len() == 0 {
        -1
    } else if is_answer(events.last().event) {
        events.len() - 1
    } else {
        last_answer(events.drop_last())
    }
}

/// The last toss-up ruling and the last answer are positions of the list, when any.
pub proof fn lemma_last_tossup_answer(events: Seq<GameEventView>)
    ensures
        -1 <= last_tossup(events) < events.len(),
        last_tossup(events) >= 0 ==> is_tossup(events[last_tossup(events)].event),
        -1 <= last_answer(events) < events.len(),
        last_answer(events) >= 0 ==> is_answer(events[last_answer(events)].event),
    decreases events.len(),
{
    if events.len() > 0 {
        lemma_last_tossup_answer(events.drop_last());
    }
}

/// The builder has three teams of six seats.
pub open spec fn stream_wf(b: StreamView) -> bool {
    &&& b.teams.len() == 3
    &&& forall|t: int| 0 <= t < 3 ==> #[trigger] b.teams[t].quizzers.len() == 6
}

/// The events' numbers stay far from the ends of `i32`, so that the numbers the builder
/// derives from them fit.
pub open spec fn stream_fits(b: StreamView) -> bool {
    &&& b.events.len() <= 2_000_000_000
    &&& forall|i: int| 0 <= i < b.events.len() ==> -2_000_000_000 <= #[trigger] b.events[i].question <= 2_000_000_000
    &&& forall|i: int| 0 <= i < b.events.len() ==> -2_000_000_000 <= #[trigger] b.events[i].eventnum <= 2_000_000_000
}

/// A configuration event continues from the last live event.
pub open spec fn config_plan(events: Seq<GameEventView>, code: GameEventCode, name: Seq<char>, team: int, quizzer: int) -> EventPlan {
    plan(prev_question(events), prev_eventnum(events) + 1, name, team, quizzer, code)
}

/// `after` is `before` with new events appended and nothing else changed.
pub open spec fn only_events_added(after: StreamView, before: StreamView, plans: Seq<EventPlan>) -> bool {
    &&& after.gid == before.gid
    &&& after.correct_toss_ups_to_quiz_out == before.correct_toss_ups_to_quiz_out
    &&& after.erroneous_toss_ups_to_error_out == before.erroneous_toss_ups_to_error_out
    &&& after.fouls_to_foul_out == before.fouls_to_foul_out
    &&& after.maximum_timeouts_per_team_when_two_teams_playing == before.maximum_timeouts_per_team_when_two_teams_playing
    &&& after.maximum_timeouts_per_team_when_three_teams_playing == before.maximum_timeouts_per_team_when_three_teams_playing
    &&& after.teams == before.teams
    &&& appended(after.events, before.events, before.gid, plans)
}

/// `after` is `before` with new events appended, its teams replaced by `teams`, and
/// nothing else changed.
pub open spec fn events_added_with_teams(after: StreamView, before: StreamView, teams: Seq<StreamTeamView>, plans: Seq<EventPlan>) -> bool {
    &&& after.gid == before.gid
    &&& after.correct_toss_ups_to_quiz_out == before.correct_toss_ups_to_quiz_out
    &&& after.erroneous_toss_ups_to_error_out == before.erroneous_toss_ups_to_error_out
    &&& after.fouls_to_foul_out == before.fouls_to_foul_out
    &&& after.maximum_timeouts_per_team_when_two_teams_playing == before.maximum_timeouts_per_team_when_two_teams_playing
    &&& after.maximum_timeouts_per_team_when_three_teams_playing == before.maximum_timeouts_per_team_when_three_teams_playing
    &&& after.teams == teams
    &&& appended(after.events, before.events, before.gid, plans)
}

/// Two appends in a row append both lists of plans.
pub proof fn lemma_appended_chain(
    a: Seq<GameEventView>,
    b: Seq<GameEventView>,
    c: Seq<GameEventView>,
    gid: u128,
    p1: Seq<EventPlan>,
    p2: Seq<EventPlan>,
)
    requires
        appended(b, a, gid, p1),
        appended(c, b, gid, p2),
    ensures
        appended(c, a, gid, p1 + p2),
{
    assert(c.take(a.len() as int) =~= a) by {
        assert forall|i: int| 0 <= i < a.len() implies c[i] == a[i] by {
            assert(c.take(b.len() as int)[i] == b[i]);
            assert(b.take(a.len() as int)[i] == a[i]);
        }
    }
    let p = p1 + p2;
    assert forall|k: int| 0 <= k < p.len() implies realizes(#[trigger] c[a.len() + k], gid, p[k]) by {
        if k < p1.len() {
            assert(realizes(b[a.len() + k], gid, p1[k]));
            assert(c.take(b.len() as int)[a.len() + k] == b[a.len() + k]);
        } else {
            let k2 = k - p1.len();
            assert(realizes(c[b.len() + k2], gid, p2[k2]));
            assert(a.len() + k == b.len() + k2);
        }
    }
}

/// The result of an operation as values: the builder, or the texts of the errors.
pub type StreamOutcome = Result<StreamView, Seq<Seq<char>>>;

/// The seat that holds `name` on `team`, or 6 when none does.
pub open spec fn seat_on(b: StreamView, team: int, name: Seq<char>) -> int {
    seat_of(b.teams[team].quizzers, name)
}

/// The error for a quizzer that no seat of `team` holds.
pub open spec fn not_on_team_error(b: StreamView, team: int, name: Seq<char>) -> Seq<Seq<char>> {
    seq![msg_not_on_team(name, b.teams[team].name, b.teams[team].quizzers)]
}

/// The last live event.
pub open spec fn prev_live(events: Seq<GameEventView>) -> GameEventView {
    events[last_live(events)]
}

/// The plans of a roster entry: the quizzer, then the captain or cocaptain mark.
pub open spec fn qn_plans(events: Seq<GameEventView>, name: Seq<char>, team: int, seat: int, is_captain: bool, is_cocaptain: bool) -> Seq<EventPlan> {
    let q = prev_live(events).question as int;
    let en = prev_live(events).eventnum as int;
    seq![plan(q, en + 1, name, team, seat, QN)]
        + if is_captain {
            seq![plan(q, en + 2, name, team, seat, SC)]
        } else if is_cocaptain {
            seq![plan(q, en + 2, name, team, seat, SS)]
        } else {
            Seq::<EventPlan>::empty()
        }
}

/// The teams with `name` in seat `seat` of `team`.
pub open spec fn seated(teams: Seq<StreamTeamView>, team: int, seat: int, name: Seq<char>) -> Seq<StreamTeamView> {
    teams.update(team, StreamTeamView { quizzers: teams[team].quizzers.update(seat, name), ..teams[team] })
}

/// What adding a quizzer to the roster gives.
pub open spec fn qn_outcome(r: StreamOutcome, b: StreamView, name: Seq<char>, team: int, seat: int, is_captain: bool, is_cocaptain: bool) -> bool {
    if is_captain && is_cocaptain {
        r == StreamOutcome::Err(seq![msg_captain_and_cocaptain(name, seat, team)])
    } else {
        r matches Ok(a) && events_added_with_teams(a, b, seated(b.teams, team, seat, name),
            qn_plans(b.events, name, team, seat, is_captain, is_cocaptain))
    }
}

/// The plans of a correct toss-up: the ruling, and the quiz out when it is the last one allowed.
pub open spec fn tc_plans(b: StreamView, name: Seq<char>, team: int, seat: int, count: int) -> Seq<EventPlan> {
    let q = ruling_question(b.events);
    let en = ruling_eventnum(b.events);
    seq![plan(q, en, name, team, seat, TC)]
        + if count == b.correct_toss_ups_to_quiz_out { seq![plan(q, en + 1, name, team, seat, QO)] } else { Seq::<EventPlan>::empty() }
}

/// What adding a correct toss-up gives.
pub open spec fn tc_outcome(r: StreamOutcome, b: StreamView, name: Seq<char>, team: int) -> bool {
    let seat = seat_on(b, team, name);
    let count = 1 + count_named(b.events, "TC"@, name) as int;
    if seat >= 6 {
        r == StreamOutcome::Err(not_on_team_error(b, team, name))
    } else if count > b.correct_toss_ups_to_quiz_out {
        r == StreamOutcome::Err(seq![msg_too_many_tc(name, b.correct_toss_ups_to_quiz_out as int, count)])
    } else {
        r matches Ok(a) && only_events_added(a, b, tc_plans(b, name, team, seat, count))
    }
}

/// The team to the left of `team` and the one to its right, as the bonus order has them.
pub open spec fn left_team(team: int) -> int {
    if team == 0 { 1 } else { 0 }
}

pub open spec fn right_team(team: int) -> int {
    if team == 2 { 1 } else { 2 }
}

/// The plans of an erroneous toss-up: the ruling, the error out when it is the last one
/// allowed, then a bonus for each other team that has a quizzer in the same seat.
pub open spec fn te_plans(b: StreamView, name: Seq<char>, team: int, seat: int, count: int, left_correct: bool, right_correct: bool) -> Seq<EventPlan> {
    let q = ruling_question(b.events);
    let e0 = ruling_eventnum(b.events);
    let eo = count == b.erroneous_toss_ups_to_error_out;
    let e1 = if eo { e0 + 1 } else { e0 };
    let lt = left_team(team);
    let rt = right_team(team);
    let lp = b.teams[lt].quizzers[seat] != Seq::<char>::empty();
    let rp = b.teams[rt].quizzers[seat] != Seq::<char>::empty();
    let e2 = if lp { e1 + 1 } else { e1 };
    let e3 = if rp { e2 + 1 } else { e2 };
    seq![plan(q, e0, name, team, seat, TE)]
        + (if eo { seq![plan(q, e1, name, team, seat, EO)] } else { Seq::<EventPlan>::empty() })
        + (if lp { seq![plan(q, e2, name, lt, seat, if left_correct { BC } else { BE })] } else { Seq::<EventPlan>::empty() })
        + (if rp { seq![plan(q, e3, name, rt, seat, if right_correct { BC } else { BE })] } else { Seq::<EventPlan>::empty() })
}

/// What adding an erroneous toss-up and its bonuses gives.
pub open spec fn te_outcome(r: StreamOutcome, b: StreamView, name: Seq<char>, team: int, left_correct: bool, right_correct: bool) -> bool {
    let seat = seat_on(b, team, name);
    let count = 1 + count_named(b.events, "TE"@, name) as int;
    if seat >= 6 {
        r == StreamOutcome::Err(not_on_team_error(b, team, name))
    } else if count > b.erroneous_toss_ups_to_error_out {
        r == StreamOutcome::Err(seq![msg_too_many_te(name, b.erroneous_toss_ups_to_error_out as int, count)])
    } else {
        r matches Ok(a) && only_events_added(a, b, te_plans(b, name, team, seat, count, left_correct, right_correct))
    }
}

/// The plan of a question that no one jumped on.
pub open spec fn nj_plan(events: Seq<GameEventView>) -> EventPlan {
    plan(ruling_question(events), ruling_eventnum(events), "No Jump"@, 0, 0, NJ)
}

/// Whether a code may precede a challenge ruling.
pub open spec fn is_ruling(code: Seq<char>) -> bool {
    code == "TC"@ || code == "TE"@ || code == "BC"@ || code == "BE"@
}

/// The plan of a refused challenge or appeal: a "C-" after the last live event.
pub open spec fn cminus_plan(events: Seq<GameEventView>, name: Seq<char>, team: int, seat: int) -> EventPlan {
    plan(prev_live(events).question as int, prev_live(events).eventnum + 1, name, team, seat, Cminus)
}

/// What adding a refused challenge gives.
pub open spec fn cminus_outcome(r: StreamOutcome, b: StreamView, name: Seq<char>, team: int) -> bool {
    let seat = seat_on(b, team, name);
    if seat >= 6 {
        r == StreamOutcome::Err(not_on_team_error(b, team, name))
    } else if !is_ruling(b.events.last().event) {
        r == StreamOutcome::Err(seq![msg_cminus_after(b.events.last().event)])
    } else {
        r matches Ok(a) && only_events_added(a, b, seq![cminus_plan(b.events, name, team, seat)])
    }
}

/// What adding a refused appeal gives.
pub open spec fn aminus_outcome(r: StreamOutcome, b: StreamView, name: Seq<char>, team: int) -> bool {
    let seat = seat_on(b, team, name);
    if seat >= 6 {
        r == StreamOutcome::Err(not_on_team_error(b, team, name))
    } else {
        r matches Ok(a) && only_events_added(a, b, seq![cminus_plan(b.events, name, team, seat)])
    }
}

/// The question that an accepted appeal returns to: that of the last toss-up ruling or
/// "no jump" (0 when there is none).
pub open spec fn appeal_question(events: Seq<GameEventView>) -> int {
    let i = last_answer(events);
    if i >= 0 { events[i].question as int } else { 0 }
}

/// The plan of a foul on a coach (quizzer 5) or on a team (quizzer 6).
pub open spec fn fc_plan(events: Seq<GameEventView>, is_coach: bool, team: int) -> EventPlan {
    plan(prev_live(events).question + 1, 0, Seq::<char>::empty(), team, if is_coach { 5 } else { 6 }, FC)
}

/// What adding a foul on a quizzer gives. The fouls counted are those whose code reads
/// "Fminus", and they are held to the number of correct toss-ups that quizzes out.
pub open spec fn fminus_outcome(r: StreamOutcome, b: StreamView, name: Seq<char>, team: int) -> bool {
    let seat = seat_on(b, team, name);
    let count = count_named(b.events, "Fminus"@, name) as int;
    if seat >= 6 {
        r == StreamOutcome::Err(not_on_team_error(b, team, name))
    } else if count > b.correct_toss_ups_to_quiz_out {
        r == StreamOutcome::Err(seq![msg_too_many_fouls(name, b.fouls_to_foul_out as int, count)])
    } else {
        r matches Ok(a) && only_events_added(a, b,
            seq![plan(between_question(b.events), between_eventnum(b.events), name, team, seat, Fminus)])
    }
}

/// The plans of a substitution: the substitution, the quizzer coming in, and the quizzer
/// who held the seat moving to seat 4.
pub open spec fn sb_plans(b: StreamView, name: Seq<char>, team: int, seat: int) -> Seq<EventPlan> {
    let q = between_question(b.events);
    let en = between_eventnum(b.events);
    seq![
        plan(q, en, name, team, seat, SB),
        plan(q, en + 1, name, team, seat, QN),
        plan(q, en + 2, b.teams[team].quizzers[seat], team, 4, QN),
    ]
}

/// The number of teams that have a name.
pub open spec fn named_team_count(teams: Seq<StreamTeamView>) -> nat
    decreases teams.len(),
{
    if teams.len() == 0 {
        0
    } else {
        named_team_count(teams.drop_last()) + if teams.last().name != Seq::<char>::empty() { 1nat } else { 0nat }
    }
}

/// The time outs a team may take.
pub open spec fn max_timeouts(b: StreamView) -> int {
    if named_team_count(b.teams) > 2 {
        b.maximum_timeouts_per_team_when_three_teams_playing as int
    } else {
        b.maximum_timeouts_per_team_when_two_teams_playing as int
    }
}

/// What adding a time out gives.
pub open spec fn to_outcome(r: StreamOutcome, b: StreamView, team: int) -> bool {
    let count = count_timeouts(b.events, team as i32) as int;
    if count >= max_timeouts(b) {
        r == StreamOutcome::Err(seq![msg_max_timeouts(named_team_count(b.teams) as int, max_timeouts(b), count)])
    } else {
        r matches Ok(a) && only_events_added(a, b,
            seq![plan(prev_live(b.events).question + 1, 0, Seq::<char>::empty(), team, -1, TO)])
    }
}

/// The question a challenge reopens: that of the last toss-up ruling (0 if none).
pub open spec fn challenge_question(events: Seq<GameEventView>) -> int {
    if last_tossup(events) >= 0 { events[last_tossup(events)].question as int } else { 0 }
}

/// Whether the challenged ruling was erroneous, so that a correct toss-up replaces it.
pub open spec fn challenge_replaces_with_tc(events: Seq<GameEventView>) -> bool {
    last_tossup(events) >= 0 && events[last_tossup(events)].event == "TE"@
}

/// The builder with the reopened question's rulings marked "DE".
pub open spec fn challenge_marked(b: StreamView) -> StreamView {
    StreamView { events: mark_rulings_from(b.events, challenge_question(b.events)), ..b }
}

/// What accepting a challenge gives: the reopened rulings are marked "DE", then a correct
/// toss-up for `name` replaces an erroneous one, or an erroneous one (with bonuses) for the
/// quizzer and team of the last event replaces a correct one.
pub open spec fn challenge_outcome(r: StreamOutcome, b: StreamView, name: Seq<char>, team: int, left_correct: bool, right_correct: bool) -> bool {
    let m = challenge_marked(b);
    if challenge_replaces_with_tc(b.events) {
        tc_outcome(r, m, name, team)
    } else if m.events.len() == 0 {
        r == StreamOutcome::Err(seq![msg_no_last_event()])
    } else {
        te_outcome(r, m, m.events.last().name, m.events.last().team as int, left_correct, right_correct)
    }
}

/// What a challenge needs of the builder: after the marking, a live event, and a team in
/// range for the ruling that replaces the challenged one.
pub open spec fn challenge_ready(b: StreamView, team: int) -> bool {
    let m = challenge_marked(b);
    &&& last_live(m.events) >= 0
    &&& if challenge_replaces_with_tc(b.events) {
        0 <= team < 3
    } else {
        m.events.len() > 0 ==> 0 <= m.events.last().team < 3
    }
}

/// Marking events "DE" keeps the numbers that `stream_fits` bounds.
pub proof fn lemma_mark_keeps_fits(b: StreamView, q: int)
    requires
        stream_fits(b),
    ensures
        stream_fits(StreamView { events: mark_rulings_from(b.events, q), ..b }),
        stream_fits(StreamView { events: mark_from(b.events, q), ..b }),
        mark_rulings_from(b.events, q).len() == b.events.len(),
        mark_from(b.events, q).len() == b.events.len(),
{
}

pub open spec fn msg_captain_and_cocaptain(name: Seq<char>, seat: int, team: int) -> Seq<char> {
    "QN for '"@ + name + "' for seat '"@ + int_text(seat) + "' on team '"@ + int_text(team)
        + "' was indicated as both captain and cocaptain. QN can be only captain, cocaptain, or neither (not both)."@
}

pub open spec fn msg_not_on_team(quizzer: Seq<char>, team: Seq<char>, quizzers: Seq<Seq<char>>) -> Seq<char> {
    "Quizzer name '"@ + quizzer + "' not found on team '"@ + team + "'. Quizzers: "@ + join_comma(quizzers)
}

pub open spec fn msg_too_many_tc(name: Seq<char>, max: int, count: int) -> Seq<char> {
    "Quizzer '"@ + name + "' received more correct toss-up rulings than they are elligible to receive. TC Maximum: '"@
        + int_text(max) + "', TCs Received: '"@ + int_text(count) + "'."@
}

pub open spec fn msg_too_many_te(name: Seq<char>, max: int, count: int) -> Seq<char> {
    "Quizzer '"@ + name + "' received more erroneous toss-up rulings than they are elligible to receive. TE Maximum: '"@
        + int_text(max) + "', TEs Received: '"@ + int_text(count) + "'."@
}

pub open spec fn msg_cminus_after(prev: Seq<char>) -> Seq<char> {
    "'C-' event can only come after a 'TC', 'TE', 'BC' or 'BE' event. Previous event = '"@ + prev + "'."@
}

pub open spec fn msg_too_many_fouls(name: Seq<char>, max: int, count: int) -> Seq<char> {
    "Quizzer '"@ + name + "' received more fouls than they are elligible to receive. Fouls Maximum: '"@
        + int_text(max) + "', Fouls Received: '"@ + int_text(count) + "'."@
}

pub open spec fn msg_max_timeouts(team_count: int, max: int, count: int) -> Seq<char> {
    "Maximum Timeouts exceeded. Maximum Timeouts for "@ + int_text(team_count) + " teams: "@ + int_text(max)
        + ", Timeouts granted: "@ + int_text(count) + "."@
}

pub open spec fn msg_no_last_event() -> Seq<char> {
    "Could not get last event when adding replacement record for challenge."@
}

pub open spec fn msg_no_previous_event() -> Seq<char> {
    "Could not find valid previous event for getting last question and eventnum."@
}

} // verus!
