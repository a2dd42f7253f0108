//! What the game event stream validator reports, as functions of the events in order.
use vstd::prelude::*;
use crate::gameevent::event::{msg_if, GameEventView};
use crate::text::int_text;

verus! {

/// The empty text, as an empty team name or seat reads.
pub open spec fn blank() -> Seq<char> {
    Seq::<char>::empty()
}

// ─── Order ──────────────────────────────────────────────────────────────────

pub open spec fn msg_eventnum_less(eventnum: int, expected: int, question: int) -> Seq<char> {
    "Non-sequential eventnums: Eventnum "@ + int_text(eventnum) + " is less than next expected next eventnum "@
        + int_text(expected) + " for question "@ + int_text(question) + "."@
}

pub open spec fn msg_eventnum_equal(eventnum: int, expected: int, question: int) -> Seq<char> {
    "Non-sequential eventnums: Eventnum "@ + int_text(eventnum) + " is equal to next expected next eventnum "@
        + int_text(expected) + " for question "@ + int_text(question) + "."@
}

pub open spec fn msg_eventnum_skipped(expected: int, question: int) -> Seq<char> {
    "Non-sequential eventnums: Eventnum "@ + int_text(expected) + " was skipped/is missing for question "@
        + int_text(question) + "."@
}

pub open spec fn msg_missing_eventnum_zero(question: int) -> Seq<char> {
    "Non-sequential questions: Question "@ + int_text(question) + " is missing eventnum 0."@
}

pub open spec fn msg_question_less(question: int, expected: int) -> Seq<char> {
    "Non-sequential questions: Question "@ + int_text(question) + " is less than next expected next question "@
        + int_text(expected) + "."@
}

pub open spec fn msg_question_skipped(question: int) -> Seq<char> {
    "Non-sequential questions: Question "@ + int_text(question) + " was skipped/is missing."@
}

/// The order errors of event `e` read after an event with question `pq` and event number
/// `pe` (both -1 before the first event, which is never faulted).
pub open spec fn order_step_errors(pq: int, pe: int, e: GameEventView) -> Seq<Seq<char>> {
    if pq == -1 && pe == -1 {
        seq![]
    } else {
        (if pq == e.question {
            msg_if(pe > e.eventnum, msg_eventnum_less(e.eventnum as int, pe + 1, e.question as int))
                + msg_if(pe == e.eventnum, msg_eventnum_equal(e.eventnum as int, pe + 1, e.question as int))
                + msg_if(pe + 1 != e.eventnum, msg_eventnum_skipped(pe + 1, e.question as int))
        } else {
            Seq::<Seq<char>>::empty()
        })
            + msg_if(pq + 1 == e.question && e.eventnum != 0, msg_missing_eventnum_zero(pq + 1))
            + msg_if(pq > e.question, msg_question_less(e.question as int, pq + 1))
            + msg_if(e.eventnum == 0 && pq + 1 != e.question, msg_question_skipped(pq + 1))
    }
}

/// The question of the last event (-1 when there is none).
pub open spec fn last_question(s: Seq<GameEventView>) -> int {
    if s.len() == 0 { -1 } else { s.last().question as int }
}

/// The event number of the last event (-1 when there is none).
pub open spec fn last_eventnum(s: Seq<GameEventView>) -> int {
    if s.len() == 0 { -1 } else { s.last().eventnum as int }
}

/// Every order error of the events, event by event.
pub open spec fn order_errors(s: Seq<GameEventView>) -> Seq<Seq<char>>
    decreases s.len(),
{
    if s.len() == 0 {
        seq![]
    } else {
        let p = s.drop_last();
        order_errors(p) + order_step_errors(last_question(p), last_eventnum(p), s.last())
    }
}

// ─── Rules and quiz type ────────────────────────────────────────────────────

/// Whether an event with the code text `code` is among the events.
pub open spec fn has_event(s: Seq<GameEventView>, code: Seq<char>) -> bool {
    exists|i: int| 0 <= i < s.len() && #[trigger] s[i].event == code
}

pub open spec fn msg_no_rm() -> Seq<char> {
    "organization ('RM') not specified and is required"@
}

pub open spec fn msg_no_qt() -> Seq<char> {
    "quiz_type ('QT') not specified and is required"@
}

pub open spec fn rm_qt_errors(s: Seq<GameEventView>) -> Seq<Seq<char>> {
    msg_if(!has_event(s, "RM"@), msg_no_rm()) + msg_if(!has_event(s, "QT"@), msg_no_qt())
}

// ─── Teams and quizzers ─────────────────────────────────────────────────────

/// Three empty names.
pub open spec fn blank_names() -> Seq<Seq<char>> {
    seq![blank(), blank(), blank()]
}

/// Three teams of six empty seats.
pub open spec fn blank_seats() -> Seq<Seq<Seq<char>>> {
    Seq::new(3, |t: int| Seq::new(6, |i: int| blank()))
}

/// The team names that the "TN" events set, the last one for a team winning.
pub open spec fn team_names_of(s: Seq<GameEventView>) -> Seq<Seq<char>>
    decreases s.len(),
{
    if s.len() == 0 {
        blank_names()
    } else {
        let n = team_names_of(s.drop_last());
        let e = s.last();
        if e.event == "TN"@ { n.update(e.team as int, e.name) } else { n }
    }
}

/// The quizzer in each seat of each team, as the "QN" events set them.
pub open spec fn quizzer_names_of(s: Seq<GameEventView>) -> Seq<Seq<Seq<char>>>
    decreases s.len(),
{
    if s.len() == 0 {
        blank_seats()
    } else {
        let n = quizzer_names_of(s.drop_last());
        let e = s.last();
        if e.event == "QN"@ {
            n.update(e.team as int, n[e.team as int].update(e.quizzer as int, e.name))
        } else {
            n
        }
    }
}

/// Team name and quizzer events name a team (and a seat) that exists.
pub open spec fn names_in_range(s: Seq<GameEventView>) -> bool {
    forall|i: int| 0 <= i < s.len() ==> {
        &&& (#[trigger] s[i]).event == "TN"@ ==> 0 <= s[i].team < 3
        &&& s[i].event == "QN"@ ==> 0 <= s[i].team < 3 && 0 <= s[i].quizzer < 6
    }
}

/// Captain and cocaptain events name a team that exists.
pub open spec fn captains_in_range(s: Seq<GameEventView>) -> bool {
    forall|i: int| 0 <= i < s.len() ==> ((#[trigger] s[i]).event == "SC"@ || s[i].event == "SS"@) ==> 0 <= s[i].team < 3
}

/// Whether a seat holds a quizzer.
pub open spec fn has_quizzer(q: Seq<Seq<char>>) -> bool {
    exists|i: int| 0 <= i < q.len() && #[trigger] q[i] != blank()
}

pub open spec fn msg_team_without_quizzers() -> Seq<char> {
    "One or more teams have zero quizzers specified. A minimum of one quizzer is required per team."@
}

pub open spec fn msg_no_teams() -> Seq<char> {
    "Zero teams were found for this Game. At least one team is required per Game."@
}

/// A named team with no quizzer is an error, and so is a game with no named team.
pub open spec fn min_one_errors(names: Seq<Seq<char>>, seats: Seq<Seq<Seq<char>>>) -> Seq<Seq<char>> {
    msg_if(names[0] != blank() && !has_quizzer(seats[0]), msg_team_without_quizzers())
        + msg_if(names[1] != blank() && !has_quizzer(seats[1]), msg_team_without_quizzers())
        + msg_if(names[2] != blank() && !has_quizzer(seats[2]), msg_team_without_quizzers())
        + msg_if(names[0] == blank() && names[1] == blank() && names[2] == blank(), msg_no_teams())
}

// ─── Captains ───────────────────────────────────────────────────────────────

pub open spec fn msg_second_captain(team: int) -> Seq<char> {
    "More than one captain specified. Each team can have only one starter captain. Team idx: "@ + int_text(team)
}

pub open spec fn msg_second_cocaptain(team: int) -> Seq<char> {
    "More than one cocaptain specified. Each team can have only one starter cocaptain. Team idx: "@ + int_text(team)
}

pub open spec fn msg_no_captain(team: Seq<char>) -> Seq<char> {
    "Captain is not listed. Each team must have one starter captain. Team: "@ + team
}

pub open spec fn msg_no_cocaptain(team: Seq<char>) -> Seq<char> {
    "Cocaptain is not listed. Each team that has more than 1 quizzer must have one starter cocaptain. Team: "@ + team
}

pub open spec fn msg_captain_is_cocaptain(captain: Seq<char>, team: Seq<char>) -> Seq<char> {
    "Captain is also listed as cocaptain. Quizzer cannot be both captain and cocaptain. Quizzer: "@ + captain
        + ", Team: "@ + team
}

pub open spec fn msg_captain_not_quizzer(captain: Seq<char>, team: Seq<char>) -> Seq<char> {
    "Captain is not listed as a quizzer of the team. Captain: "@ + captain + ", Team: "@ + team
}

pub open spec fn msg_cocaptain_not_quizzer(cocaptain: Seq<char>, team: Seq<char>) -> Seq<char> {
    "Cocaptain is not listed as a quizzer of the team. Cocaptain: "@ + cocaptain + ", Team: "@ + team
}

/// The captains and cocaptains that the events set, and the errors for a team given a
/// second one.
pub struct CaptainState {
    pub captains: Seq<Seq<char>>,
    pub cocaptains: Seq<Seq<char>>,
    pub errors: Seq<Seq<char>>,
}

pub open spec fn captains_of(s: Seq<GameEventView>) -> CaptainState
    decreases s.len(),
{
    if s.len() == 0 {
        CaptainState { captains: blank_names(), cocaptains: blank_names(), errors: seq![] }
    } else {
        let st = captains_of(s.drop_last());
        let e = s.last();
        let t = e.team as int;
        if e.event == "SC"@ {
            CaptainState {
                captains: st.captains.update(t, e.name),
                errors: st.errors + msg_if(st.captains[t] != blank(), msg_second_captain(t)),
                ..st
            }
        } else if e.event == "SS"@ {
            CaptainState {
                cocaptains: st.cocaptains.update(t, e.name),
                errors: st.errors + msg_if(st.cocaptains[t] != blank(), msg_second_cocaptain(t)),
                ..st
            }
        } else {
            st
        }
    }
}

/// The number of seats that hold a quizzer.
pub open spec fn quizzer_count(q: Seq<Seq<char>>) -> nat
    decreases q.len(),
{
    if q.len() == 0 {
        0
    } else {
        quizzer_count(q.drop_last()) + if q.last() != blank() { 1nat } else { 0nat }
    }
}

/// The captain errors of one team: a named team needs a captain, and a cocaptain too when
/// it has more than one quizzer, who are two quizzers of the team.
pub open spec fn team_captain_errors(name: Seq<char>, q: Seq<Seq<char>>, cap: Seq<char>, cocap: Seq<char>) -> Seq<Seq<char>> {
    if name == blank() {
        seq![]
    } else {
        let needs_cocaptain = quizzer_count(q) > 1;
        (if cap == blank() {
            seq![msg_no_captain(name)]
        } else if needs_cocaptain && cocap == blank() {
            seq![msg_no_cocaptain(name)]
        } else if needs_cocaptain && cap == cocap {
            seq![msg_captain_is_cocaptain(cap, name)]
        } else {
            Seq::<Seq<char>>::empty()
        })
            + msg_if(!q.contains(cap), msg_captain_not_quizzer(cap, name))
            + msg_if(!q.contains(cocap), msg_cocaptain_not_quizzer(cocap, name))
    }
}

pub open spec fn captain_errors(s: Seq<GameEventView>) -> Seq<Seq<char>> {
    let st = captains_of(s);
    let names = team_names_of(s);
    let seats = quizzer_names_of(s);
    st.errors
        + team_captain_errors(names[0], seats[0], st.captains[0], st.cocaptains[0])
        + team_captain_errors(names[1], seats[1], st.captains[1], st.cocaptains[1])
        + team_captain_errors(names[2], seats[2], st.captains[2], st.cocaptains[2])
}

// ─── Duplicates ─────────────────────────────────────────────────────────────

pub open spec fn msg_dup_left_center(name: Seq<char>) -> Seq<char> {
    "Team names are not unique. Left & Center Team name: "@ + name
}

pub open spec fn msg_dup_center_right(name: Seq<char>) -> Seq<char> {
    "Team names are not unique. Center & Right Team name: "@ + name
}

pub open spec fn msg_dup_left_right(name: Seq<char>) -> Seq<char> {
    "Team names are not unique. Left & Right Team name: "@ + name
}

pub open spec fn team_dup_errors(n: Seq<Seq<char>>) -> Seq<Seq<char>> {
    msg_if(n[0] == n[1] && n[0] != blank(), msg_dup_left_center(n[0]))
        + msg_if(n[1] == n[2] && n[1] != blank(), msg_dup_center_right(n[1]))
        + msg_if(n[0] == n[2] && n[0] != blank(), msg_dup_left_right(n[0]))
}

pub open spec fn msg_dup_quizzer(team: Seq<char>, quizzer: Seq<char>) -> Seq<char> {
    "Team '"@ + team + "' has more than 1 quizzer with the name '"@ + quizzer
        + "'. Quizzer names must be unique for each team."@
}

/// The errors for seat `i` against seats `0..n`: one for each other seat with the same name.
pub open spec fn dup_row(team: Seq<char>, q: Seq<Seq<char>>, i: int, n: int) -> Seq<Seq<char>>
    decreases n,
{
    if n <= 0 {
        seq![]
    } else {
        dup_row(team, q, i, n - 1) + msg_if(i != n - 1 && q[n - 1] != blank() && q[i] == q[n - 1], msg_dup_quizzer(team, q[n - 1]))
    }
}

/// The errors for seats `0..n` of a team, each filled seat against every seat.
pub open spec fn dup_rows(team: Seq<char>, q: Seq<Seq<char>>, n: int) -> Seq<Seq<char>>
    decreases n,
{
    if n <= 0 {
        seq![]
    } else {
        dup_rows(team, q, n - 1) + if q[n - 1] == blank() { Seq::<Seq<char>>::empty() } else { dup_row(team, q, n - 1, q.len() as int) }
    }
}

/// The duplicate quizzer errors of a named team.
pub open spec fn team_quizzer_dup_errors(team: Seq<char>, q: Seq<Seq<char>>) -> Seq<Seq<char>> {
    if team == blank() { seq![] } else { dup_rows(team, q, q.len() as int) }
}

pub open spec fn quizzer_dup_errors(names: Seq<Seq<char>>, seats: Seq<Seq<Seq<char>>>) -> Seq<Seq<char>> {
    team_quizzer_dup_errors(names[0], seats[0])
        + team_quizzer_dup_errors(names[1], seats[1])
        + team_quizzer_dup_errors(names[2], seats[2])
}

// ─── All checks ─────────────────────────────────────────────────────────────

/// The checks asked for.
pub struct ValidatorChecks {
    pub everything: bool,
    pub sort_order: bool,
    pub has_rm_and_qt: bool,
    pub min_one_team_and_quizzer: bool,
    pub captains: bool,
    pub team_name_duplicates: bool,
    pub quizzer_name_duplicates: bool,
}

/// Whether any check that reads the events' codes is asked for.
pub open spec fn reads_codes(c: ValidatorChecks) -> bool {
    c.everything || c.has_rm_and_qt || c.min_one_team_and_quizzer || c.captains || c.team_name_duplicates
        || c.quizzer_name_duplicates
}

/// Whether any check that reads team names and seats is asked for.
pub open spec fn reads_teams(c: ValidatorChecks) -> bool {
    c.everything || c.min_one_team_and_quizzer || c.captains || c.team_name_duplicates || c.quizzer_name_duplicates
}

/// The events the validator can read: every code is known where codes are read, names and
/// seats are in range where they are read, and the numbers leave room for the next ones.
pub open spec fn validator_accepts(c: ValidatorChecks, s: Seq<GameEventView>) -> bool {
    &&& (c.everything || c.sort_order) ==> forall|i: int| 0 <= i < s.len() ==> (#[trigger] s[i]).question < i32::MAX && s[i].eventnum < i32::MAX
    &&& reads_codes(c) ==> forall|i: int| 0 <= i < s.len() ==> crate::gameevent::code::is_code(#[trigger] s[i].event)
    &&& reads_teams(c) ==> names_in_range(s)
    &&& (c.everything || c.captains) ==> captains_in_range(s)
}

/// Every error of the checks asked for, on the events in order, in the order the checks run
/// (the rules and quiz type check runs twice).
pub open spec fn validation_errors(c: ValidatorChecks, s: Seq<GameEventView>) -> Seq<Seq<char>> {
    let names = team_names_of(s);
    let seats = quizzer_names_of(s);
    (if c.everything || c.sort_order { order_errors(s) } else { seq![] })
        + (if c.everything || c.has_rm_and_qt { rm_qt_errors(s) } else { seq![] })
        + (if c.everything || c.min_one_team_and_quizzer { min_one_errors(names, seats) } else { seq![] })
        + (if c.everything || c.has_rm_and_qt { rm_qt_errors(s) } else { seq![] })
        + (if c.everything || c.captains { captain_errors(s) } else { seq![] })
        + (if c.everything || c.team_name_duplicates { team_dup_errors(names) } else { seq![] })
        + (if c.everything || c.quizzer_name_duplicates { quizzer_dup_errors(names, seats) } else { seq![] })
}

} // verus!
