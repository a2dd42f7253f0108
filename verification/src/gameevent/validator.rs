//! The game event stream validator: checks a game's events, in order, against the rules
//! that asked for.
use vstd::prelude::*;
use crate::gameevent::code::{code_of, is_code, lemma_code_text_roundtrip, string_to_gameeventcode, GameEventCode};
use crate::gameevent::event::{events_view, msg_if, sort_game_events, sort_events, lemma_sort_events_props, texts, GameEvent, GameEventView};
use crate::gameevent::validator_spec::{
    blank, blank_names, blank_seats, captain_errors, captains_in_range, captains_of, dup_row, dup_rows,
    has_event, has_quizzer, last_eventnum, last_question, min_one_errors, msg_captain_is_cocaptain,
    msg_captain_not_quizzer, msg_cocaptain_not_quizzer, msg_dup_center_right, msg_dup_left_center,
    msg_dup_left_right, msg_dup_quizzer, msg_no_captain, msg_no_cocaptain, msg_no_qt, msg_no_rm, msg_no_teams,
    msg_second_captain, msg_second_cocaptain, msg_team_without_quizzers, names_in_range, order_errors,
    order_step_errors, quizzer_count, quizzer_dup_errors, quizzer_names_of, rm_qt_errors, team_captain_errors,
    team_dup_errors, team_names_of, team_quizzer_dup_errors, validation_errors, validator_accepts, CaptainState,
    ValidatorChecks, msg_eventnum_less, msg_eventnum_equal, msg_eventnum_skipped, msg_missing_eventnum_zero,
    msg_question_less, msg_question_skipped,
};
use crate::text::{int_text, int_to_text, str_eq};

verus! {

/// Checks a game's events against the rules that are asked for.
pub struct GameEventStreamValidator {
    pub events: Vec<GameEvent>,
    pub check_for_everything: bool,
    pub check_for_sort_order: bool,
    pub check_for_has_RM_and_QT: bool,
    pub check_for_min_one_team_and_min_one_quizzer_per_team: bool,
    pub check_for_captains_and_cocaptains_are_accurate_based_on_number_of_quizzers_on_team: bool,
    pub check_for_no_team_name_duplicates: bool,
    pub check_for_no_quizzer_name_duplicates_within_team: bool,
}

impl GameEventStreamValidator {
    /// The checks asked for.
    pub open spec fn checks(&self) -> ValidatorChecks {
        ValidatorChecks {
            everything: self.check_for_everything,
            sort_order: self.check_for_sort_order,
            has_rm_and_qt: self.check_for_has_RM_and_QT,
            min_one_team_and_quizzer: self.check_for_min_one_team_and_min_one_quizzer_per_team,
            captains: self.check_for_captains_and_cocaptains_are_accurate_based_on_number_of_quizzers_on_team,
            team_name_duplicates: self.check_for_no_team_name_duplicates,
            quizzer_name_duplicates: self.check_for_no_quizzer_name_duplicates_within_team,
        }
    }

    /// A validator of `events` with no check asked for.
    pub fn new(events: Vec<GameEvent>) -> (r: Self)
        ensures
            r.events == events,
            r.checks() == (ValidatorChecks {
                everything: false,
                sort_order: false,
                has_rm_and_qt: false,
                min_one_team_and_quizzer: false,
                captains: false,
                team_name_duplicates: false,
                quizzer_name_duplicates: false,
            }),
    {
        GameEventStreamValidator {
            events: events,
            check_for_everything: false,
            check_for_sort_order: false,
            check_for_has_RM_and_QT: false,
            check_for_min_one_team_and_min_one_quizzer_per_team: false,
            check_for_captains_and_cocaptains_are_accurate_based_on_number_of_quizzers_on_team: false,
            check_for_no_team_name_duplicates: false,
            check_for_no_quizzer_name_duplicates_within_team: false,
        }
    }

    /// Asks for every check.
    pub fn check_for_everything(self) -> (r: Self)
        ensures
            r.events == self.events,
            r.checks() == (ValidatorChecks { everything: true, ..self.checks() }),
    {
        GameEventStreamValidator { check_for_everything: true, ..self }
    }

    /// Asks that the events run question by question, event by event.
    pub fn check_for_sort_order(self) -> (r: Self)
        ensures
            r.events == self.events,
            r.checks() == (ValidatorChecks { sort_order: true, ..self.checks() }),
    {
        GameEventStreamValidator { check_for_sort_order: true, ..self }
    }

    /// Asks that the game state its rules ("RM") and quiz type ("QT").
    pub fn check_for_has_RM_and_QT(self) -> (r: Self)
        ensures
            r.events == self.events,
            r.checks() == (ValidatorChecks { has_rm_and_qt: true, ..self.checks() }),
    {
        GameEventStreamValidator { check_for_has_RM_and_QT: true, ..self }
    }

    /// Asks for at least one team, and a quizzer on each named team.
    pub fn check_for_min_one_team_and_min_one_quizzer_per_team(self) -> (r: Self)
        ensures
            r.events == self.events,
            r.checks() == (ValidatorChecks { min_one_team_and_quizzer: true, ..self.checks() }),
    {
        GameEventStreamValidator { check_for_min_one_team_and_min_one_quizzer_per_team: true, ..self }
    }

    /// Asks that each named team have a captain, and a cocaptain when it has more than one
    /// quizzer.
    pub fn check_for_captains_and_cocaptains_are_accurate_based_on_number_of_quizzers_on_team(self) -> (r: Self)
        ensures
            r.events == self.events,
            r.checks() == (ValidatorChecks { captains: true, ..self.checks() }),
    {
        GameEventStreamValidator {
            check_for_captains_and_cocaptains_are_accurate_based_on_number_of_quizzers_on_team: true,
            ..self
        }
    }

    /// Asks that no two teams share a name.
    pub fn check_for_no_team_name_duplicates(self) -> (r: Self)
        ensures
            r.events == self.events,
            r.checks() == (ValidatorChecks { team_name_duplicates: true, ..self.checks() }),
    {
        GameEventStreamValidator { check_for_no_team_name_duplicates: true, ..self }
    }

    /// Asks that no two quizzers of a team share a name.
    pub fn check_for_no_quizzer_name_duplicates_within_team(self) -> (r: Self)
        ensures
            r.events == self.events,
            r.checks() == (ValidatorChecks { quizzer_name_duplicates: true, ..self.checks() }),
    {
        GameEventStreamValidator { check_for_no_quizzer_name_duplicates_within_team: true, ..self }
    }

    /// Sorts the events and runs the checks asked for: `Ok` when none fails, else every
    /// error in the order the checks run.
    pub fn validate(self) -> (r: Result<(), Vec<String>>)
        requires
            validator_accepts(self.checks(), events_view(self.events@)),
        ensures
            r is Ok <==> validation_errors(self.checks(), sort_events(events_view(self.events@))).len() == 0,
            r matches Err(v) ==> texts(v@) == validation_errors(self.checks(), sort_events(events_view(self.events@))),
    {
        let ghost c = self.checks();
        let events = sort_game_events(&self.events);
        let ghost s = events_view(events@);
        proof {
            lemma_accepts_sorted(c, events_view(self.events@));
            assert forall|i: int| 0 <= i < events@.len() implies s[i] == (#[trigger] events@[i])@ by {}
        }
        let mut errors: Vec<String> = Vec::new();
        if self.check_for_everything || self.check_for_sort_order {
            extend(&mut errors, order_check(&events));
        }
        if self.check_for_everything || self.check_for_has_RM_and_QT {
            extend(&mut errors, rm_qt_check(&events));
        }
        if self.check_for_everything || self.check_for_min_one_team_and_min_one_quizzer_per_team {
            let (names, seats) = collect_names(&events);
            extend(&mut errors, min_one_check(&names, &seats));
        }
        if self.check_for_everything || self.check_for_has_RM_and_QT {
            extend(&mut errors, rm_qt_check(&events));
        }
        if self.check_for_everything
            || self.check_for_captains_and_cocaptains_are_accurate_based_on_number_of_quizzers_on_team {
            extend(&mut errors, captain_check(&events));
        }
        if self.check_for_everything || self.check_for_no_team_name_duplicates {
            let (names, seats) = collect_names(&events);
            extend(&mut errors, team_dup_check(&names));
        }
        if self.check_for_everything || self.check_for_no_quizzer_name_duplicates_within_team {
            let (names, seats) = collect_names(&events);
            extend(&mut errors, quizzer_dup_check(&names, &seats));
        }
        proof {
            assert(texts(errors@) =~= validation_errors(c, s));
        }
        if errors.len() > 0 {
            Err(errors)
        } else {
            Ok(())
        }
    }
}

/// What the validator accepts of the events it accepts of their sorted order.
proof fn lemma_accepts_sorted(c: ValidatorChecks, s: Seq<GameEventView>)
    requires
        validator_accepts(c, s),
    ensures
        validator_accepts(c, sort_events(s)),
{
    broadcast use vstd::seq_lib::group_to_multiset_ensures;
    lemma_sort_events_props(s);
    let t = sort_events(s);
    assert forall|i: int| 0 <= i < t.len() implies exists|j: int| 0 <= j < s.len() && s[j] == #[trigger] t[i] by {
        assert(t.contains(t[i]));
        assert(t.to_multiset().count(t[i]) > 0);
        assert(s.to_multiset().count(t[i]) > 0);
        assert(s.contains(t[i]));
    }
    assert forall|i: int| 0 <= i < t.len() implies {
        &&& (c.everything || c.sort_order) ==> (#[trigger] t[i]).question < i32::MAX && t[i].eventnum < i32::MAX
        &&& crate::gameevent::validator_spec::reads_codes(c) ==> is_code(t[i].event)
        &&& crate::gameevent::validator_spec::reads_teams(c) ==> {
            &&& t[i].event == "TN"@ ==> 0 <= t[i].team < 3
            &&& t[i].event == "QN"@ ==> 0 <= t[i].team < 3 && 0 <= t[i].quizzer < 6
        }
        &&& (c.everything || c.captains) ==> ((t[i].event == "SC"@ || t[i].event == "SS"@) ==> 0 <= t[i].team < 3)
    } by {
        let j = choose|j: int| 0 <= j < s.len() && s[j] == t[i];
        assert(s[j] == t[i]);
    }
}

/// Appends the errors of `more` to `errors`.
fn extend(errors: &mut Vec<String>, more: Vec<String>)
    ensures
        texts(final(errors)@) == texts(old(errors)@) + texts(more@),
{
    let ghost start = texts(errors@);
    let mut i: usize = 0;
    while i < more.len()
        invariant
            i <= more@.len(),
            texts(errors@) == start + texts(more@).take(i as int),
        decreases more@.len() - i,
    {
        let ghost old_errors = errors@;
        let x = more[i].clone();
        errors.push(x);
        proof {
            assert(errors@ == old_errors.push(x));
            assert(texts(errors@) =~= texts(old_errors).push(x@));
            assert(texts(more@).take(i + 1) =~= texts(more@).take(i as int).push(more@[i as int]@));
            assert(texts(errors@) =~= start + texts(more@).take(i + 1));
        }
        i = i + 1;
    }
    proof {
        assert(texts(more@).take(more@.len() as int) =~= texts(more@));
    }
}

/// Appends `m` when `c` holds.
fn push_msg_if(errors: &mut Vec<String>, c: bool, m: String)
    ensures
        texts(final(errors)@) == texts(old(errors)@) + msg_if(c, m@),
{
    if c {
        errors.push(m);
    }
    proof {
        assert(texts(final(errors)@) =~= texts(old(errors)@) + msg_if(c, m@));
    }
}

/// "<a><x><b><y><c><z>." with three integers.
fn msg3(a: &str, x: i32, b: &str, y: i32, c: &str, z: i32) -> (m: String)
    ensures
        m@ == a@ + int_text(x as int) + b@ + int_text(y as int) + c@ + int_text(z as int) + "."@,
{
    let xs = int_to_text(x as i64);
    let ys = int_to_text(y as i64);
    let zs = int_to_text(z as i64);
    let m = String::from_str(a);
    let m = m.concat(xs.as_str());
    let m = m.concat(b);
    let m = m.concat(ys.as_str());
    let m = m.concat(c);
    let m = m.concat(zs.as_str());
    m.concat(".")
}

/// "<a><x><b><y>." with two integers.
fn msg2(a: &str, x: i32, b: &str, y: i32) -> (m: String)
    ensures
        m@ == a@ + int_text(x as int) + b@ + int_text(y as int) + "."@,
{
    let xs = int_to_text(x as i64);
    let ys = int_to_text(y as i64);
    let m = String::from_str(a);
    let m = m.concat(xs.as_str());
    let m = m.concat(b);
    let m = m.concat(ys.as_str());
    m.concat(".")
}

/// "<a><x><b>" with one integer.
fn msg1(a: &str, x: i32, b: &str) -> (m: String)
    ensures
        m@ == a@ + int_text(x as int) + b@,
{
    let xs = int_to_text(x as i64);
    let m = String::from_str(a);
    let m = m.concat(xs.as_str());
    m.concat(b)
}

/// "<a><x><b><y>" with two texts.
fn msg_texts(a: &str, x: &str, b: &str, y: &str) -> (m: String)
    ensures
        m@ == a@ + x@ + b@ + y@,
{
    let m = String::from_str(a);
    let m = m.concat(x);
    let m = m.concat(b);
    m.concat(y)
}

/// The order errors of the events.
fn order_check(events: &Vec<GameEvent>) -> (v: Vec<String>)
    requires
        forall|i: int| 0 <= i < events@.len() ==> (#[trigger] events@[i]).question < i32::MAX && events@[i].eventnum < i32::MAX,
    ensures
        texts(v@) == order_errors(events_view(events@)),
{
    let ghost s = events_view(events@);
    let mut errors: Vec<String> = Vec::new();
    let mut question: i32 = -1;
    let mut eventnum: i32 = -1;
    let mut i: usize = 0;
    while i < events.len()
        invariant
            i <= events@.len(),
            s == events_view(events@),
            forall|k: int| 0 <= k < events@.len() ==> (#[trigger] events@[k]).question < i32::MAX && events@[k].eventnum < i32::MAX,
            question == last_question(s.take(i as int)),
            eventnum == last_eventnum(s.take(i as int)),
            question < i32::MAX,
            eventnum < i32::MAX,
            texts(errors@) == order_errors(s.take(i as int)),
        decreases events@.len() - i,
    {
        let e = &events[i];
        proof {
            assert(s.take(i + 1).drop_last() =~= s.take(i as int));
            assert(s.take(i + 1).last() == e@);
        }
        if !(question == -1 && eventnum == -1) {
            let ghost before = texts(errors@);
            if question == e.question {
                push_msg_if(&mut errors, eventnum > e.eventnum, msg3(
                    "Non-sequential eventnums: Eventnum ", e.eventnum, " is less than next expected next eventnum ",
                    eventnum + 1, " for question ", e.question));
                push_msg_if(&mut errors, eventnum == e.eventnum, msg3(
                    "Non-sequential eventnums: Eventnum ", e.eventnum, " is equal to next expected next eventnum ",
                    eventnum + 1, " for question ", e.question));
                push_msg_if(&mut errors, eventnum + 1 != e.eventnum, msg2(
                    "Non-sequential eventnums: Eventnum ", eventnum + 1, " was skipped/is missing for question ",
                    e.question));
            }
            push_msg_if(&mut errors, question + 1 == e.question && e.eventnum != 0, msg1(
                "Non-sequential questions: Question ", question + 1, " is missing eventnum 0."));
            push_msg_if(&mut errors, question > e.question, msg2(
                "Non-sequential questions: Question ", e.question, " is less than next expected next question ",
                question + 1));
            push_msg_if(&mut errors, e.eventnum == 0 && question + 1 != e.question, msg1(
                "Non-sequential questions: Question ", question + 1, " was skipped/is missing."));
            proof {
                assert(texts(errors@) =~= before + order_step_errors(question as int, eventnum as int, e@));
            }
        } else {
            proof {
                assert(texts(errors@) =~= texts(errors@) + order_step_errors(question as int, eventnum as int, e@));
            }
        }
        question = e.question;
        eventnum = e.eventnum;
        i = i + 1;
    }
    proof {
        assert(s.take(events@.len() as int) =~= s);
    }
    errors
}

/// The rules and quiz type errors of the events.
fn rm_qt_check(events: &Vec<GameEvent>) -> (v: Vec<String>)
    requires
        forall|i: int| 0 <= i < events@.len() ==> is_code((#[trigger] events@[i]).event@),
    ensures
        texts(v@) == rm_qt_errors(events_view(events@)),
{
    let ghost s = events_view(events@);
    let mut has_rm = false;
    let mut has_qt = false;
    let mut i: usize = 0;
    while i < events.len()
        invariant
            i <= events@.len(),
            s == events_view(events@),
            forall|k: int| 0 <= k < events@.len() ==> is_code((#[trigger] events@[k]).event@),
            has_rm == exists|k: int| 0 <= k < i && #[trigger] s[k].event == "RM"@,
            has_qt == exists|k: int| 0 <= k < i && #[trigger] s[k].event == "QT"@,
        decreases events@.len() - i,
    {
        let code = string_to_gameeventcode(events[i].event.as_str());
        proof {
            assert(s[i as int].event == events@[i as int].event@);
            lemma_code_text_roundtrip(GameEventCode::RM);
            lemma_code_text_roundtrip(GameEventCode::QT);
        }
        match code {
            GameEventCode::RM => {
                has_rm = true;
            },
            GameEventCode::QT => {
                has_qt = true;
            },
            _ => {},
        }
        i = i + 1;
    }
    let mut errors: Vec<String> = Vec::new();
    push_msg_if(&mut errors, !has_rm, String::from_str("organization ('RM') not specified and is required"));
    push_msg_if(&mut errors, !has_qt, String::from_str("quiz_type ('QT') not specified and is required"));
    proof {
        assert(texts(errors@) =~= rm_qt_errors(s));
    }
    errors
}

/// The view of a flat list of eighteen seats as three teams of six.
pub open spec fn seats_of_flat(v: Seq<String>) -> Seq<Seq<Seq<char>>> {
    Seq::new(3, |t: int| Seq::new(6, |i: int| v[t * 6 + i]@))
}

/// A list of `n` empty strings.
fn blank_strings(n: usize) -> (v: Vec<String>)
    ensures
        v@.len() == n,
        forall|i: int| 0 <= i < n ==> (#[trigger] v@[i])@ == blank(),
{
    let mut v: Vec<String> = Vec::new();
    let mut i: usize = 0;
    while i < n
        invariant
            i <= n,
            v@.len() == i,
            forall|k: int| 0 <= k < i ==> (#[trigger] v@[k])@ == blank(),
        decreases n - i,
    {
        v.push(String::new());
        i = i + 1;
    }
    v
}

/// The team names and seats that the events set.
fn collect_names(events: &Vec<GameEvent>) -> (r: (Vec<String>, Vec<String>))
    requires
        forall|i: int| 0 <= i < events@.len() ==> is_code((#[trigger] events@[i]).event@),
        names_in_range(events_view(events@)),
    ensures
        r.0@.len() == 3,
        r.1@.len() == 18,
        texts(r.0@) == team_names_of(events_view(events@)),
        seats_of_flat(r.1@) == quizzer_names_of(events_view(events@)),
{
    let ghost s = events_view(events@);
    let mut names = blank_strings(3);
    let mut seats = blank_strings(18);
    proof {
        assert(texts(names@) =~= blank_names());
        assert forall|t: int| 0 <= t < 3 implies #[trigger] seats_of_flat(seats@)[t] =~= blank_seats()[t] by {
            assert forall|j: int| 0 <= j < 6 implies seats_of_flat(seats@)[t][j] == blank_seats()[t][j] by {
                assert(seats@[t * 6 + j]@ == blank());
            }
        }
        assert(seats_of_flat(seats@) =~= blank_seats());
        assert(s.take(0) =~= Seq::<GameEventView>::empty());
    }
    let mut i: usize = 0;
    while i < events.len()
        invariant
            i <= events@.len(),
            s == events_view(events@),
            forall|k: int| 0 <= k < events@.len() ==> is_code((#[trigger] events@[k]).event@),
            names_in_range(s),
            names@.len() == 3,
            seats@.len() == 18,
            texts(names@) == team_names_of(s.take(i as int)),
            seats_of_flat(seats@) == quizzer_names_of(s.take(i as int)),
        decreases events@.len() - i,
    {
        let e = &events[i];
        proof {
            assert(s.take(i + 1).drop_last() =~= s.take(i as int));
            assert(s.take(i + 1).last() == e@);
            assert(s[i as int] == e@);
        }
        let code = string_to_gameeventcode(e.event.as_str());
        proof {
            lemma_code_text_roundtrip(GameEventCode::TN);
            lemma_code_text_roundtrip(GameEventCode::QN);
        }
        if code == GameEventCode::TN {
            names.set(e.team as usize, e.name.clone());
            proof {
                assert(texts(names@) =~= team_names_of(s.take(i as int)).update(e.team as int, e.name@));
            }
        } else if code == GameEventCode::QN {
            let ghost old_seats = seats@;
            let k = (e.team as usize) * 6 + (e.quizzer as usize);
            seats.set(k, e.name.clone());
            proof {
                let n = quizzer_names_of(s.take(i as int));
                assert(seats_of_flat(seats@) =~= n.update(e.team as int, n[e.team as int].update(e.quizzer as int, e.name@))) by {
                    assert forall|t: int, j: int| 0 <= t < 3 && 0 <= j < 6 implies
                        #[trigger] seats@[t * 6 + j]@ == (if t == e.team && j == e.quizzer { e.name@ } else { old_seats[t * 6 + j]@ }) by {
                        if t * 6 + j == k as int {
                            assert(t == e.team && j == e.quizzer) by (nonlinear_arith)
                                requires
                                    t * 6 + j == e.team * 6 + e.quizzer,
                                    0 <= t < 3, 0 <= j < 6, 0 <= e.team < 3, 0 <= e.quizzer < 6;
                        }
                    }
                    assert forall|t: int| 0 <= t < 3 implies #[trigger] seats_of_flat(seats@)[t]
                        =~= n.update(e.team as int, n[e.team as int].update(e.quizzer as int, e.name@))[t] by {
                        assert forall|j: int| 0 <= j < 6 implies #[trigger] seats_of_flat(seats@)[t][j]
                            == n.update(e.team as int, n[e.team as int].update(e.quizzer as int, e.name@))[t][j] by {
                            assert(seats_of_flat(seats@)[t][j] == seats@[t * 6 + j]@);
                            assert(n[t][j] == seats_of_flat(old_seats)[t][j]);
                            assert(seats_of_flat(old_seats)[t][j] == old_seats[t * 6 + j]@);
                        }
                    }
                }
            }
        }
        i = i + 1;
    }
    proof {
        assert(s.take(events@.len() as int) =~= s);
    }
    (names, seats)
}

/// Whether any of the six seats of team `t` holds a quizzer.
fn team_has_quizzer(seats: &Vec<String>, t: usize) -> (r: bool)
    requires
        seats@.len() == 18,
        t < 3,
    ensures
        r == has_quizzer(seats_of_flat(seats@)[t as int]),
{
    let ghost q = seats_of_flat(seats@)[t as int];
    let mut i: usize = 0;
    while i < 6
        invariant
            i <= 6,
            t < 3,
            seats@.len() == 18,
            q == seats_of_flat(seats@)[t as int],
            forall|k: int| 0 <= k < i ==> #[trigger] q[k] == blank(),
        decreases 6 - i,
    {
        proof {
            assert(q[i as int] == seats@[t * 6 + i]@);
            reveal_strlit("");
            assert(""@ =~= blank());
        }
        if !str_eq(seats[t * 6 + i].as_str(), "") {
            proof {
                assert(q[i as int] != blank());
            }
            return true;
        }
        i = i + 1;
    }
    false
}

/// The errors for named teams without quizzers and for a game without teams.
fn min_one_check(names: &Vec<String>, seats: &Vec<String>) -> (v: Vec<String>)
    requires
        names@.len() == 3,
        seats@.len() == 18,
    ensures
        texts(v@) == min_one_errors(texts(names@), seats_of_flat(seats@)),
{
    proof {
        reveal_strlit("");
        assert(""@ =~= blank());
    }
    let mut errors: Vec<String> = Vec::new();
    let mut t: usize = 0;
    while t < 3
        invariant
            t <= 3,
            names@.len() == 3,
            seats@.len() == 18,
            ""@ == blank(),
            texts(errors@) == (if t >= 1 { msg_if(texts(names@)[0] != blank() && !has_quizzer(seats_of_flat(seats@)[0]), msg_team_without_quizzers()) } else { Seq::<Seq<char>>::empty() })
                + (if t >= 2 { msg_if(texts(names@)[1] != blank() && !has_quizzer(seats_of_flat(seats@)[1]), msg_team_without_quizzers()) } else { Seq::<Seq<char>>::empty() })
                + (if t >= 3 { msg_if(texts(names@)[2] != blank() && !has_quizzer(seats_of_flat(seats@)[2]), msg_team_without_quizzers()) } else { Seq::<Seq<char>>::empty() }),
        decreases 3 - t,
    {
        let ghost before = texts(errors@);
        let named = !str_eq(names[t].as_str(), "");
        let c = named && !team_has_quizzer(seats, t);
        push_msg_if(&mut errors, c, String::from_str(
            "One or more teams have zero quizzers specified. A minimum of one quizzer is required per team."));
        proof {
            assert(texts(names@)[t as int] == names@[t as int]@);
            assert(texts(errors@) =~= before + msg_if(texts(names@)[t as int] != blank() && !has_quizzer(seats_of_flat(seats@)[t as int]), msg_team_without_quizzers()));
        }
        t = t + 1;
    }
    let none = str_eq(names[0].as_str(), "") && str_eq(names[1].as_str(), "") && str_eq(names[2].as_str(), "");
    push_msg_if(&mut errors, none, String::from_str(
        "Zero teams were found for this Game. At least one team is required per Game."));
    proof {
        assert(texts(names@)[0] == names@[0]@);
        assert(texts(names@)[1] == names@[1]@);
        assert(texts(names@)[2] == names@[2]@);
        assert(texts(errors@) =~= min_one_errors(texts(names@), seats_of_flat(seats@)));
    }
    errors
}

/// The captains and cocaptains that the events set, and the errors for second ones.
fn collect_captains(events: &Vec<GameEvent>) -> (r: (Vec<String>, Vec<String>, Vec<String>))
    requires
        forall|i: int| 0 <= i < events@.len() ==> is_code((#[trigger] events@[i]).event@),
        captains_in_range(events_view(events@)),
    ensures
        r.0@.len() == 3,
        r.1@.len() == 3,
        texts(r.0@) == captains_of(events_view(events@)).captains,
        texts(r.1@) == captains_of(events_view(events@)).cocaptains,
        texts(r.2@) == captains_of(events_view(events@)).errors,
{
    let ghost s = events_view(events@);
    let mut caps = blank_strings(3);
    let mut cocaps = blank_strings(3);
    let mut errors: Vec<String> = Vec::new();
    proof {
        assert(texts(caps@) =~= blank_names());
        assert(texts(cocaps@) =~= blank_names());
        assert(texts(errors@) =~= Seq::<Seq<char>>::empty());
        reveal_strlit("");
        assert(""@ =~= blank());
    }
    let mut i: usize = 0;
    while i < events.len()
        invariant
            i <= events@.len(),
            s == events_view(events@),
            forall|k: int| 0 <= k < events@.len() ==> is_code((#[trigger] events@[k]).event@),
            captains_in_range(s),
            caps@.len() == 3,
            cocaps@.len() == 3,
            ""@ == blank(),
            texts(caps@) == captains_of(s.take(i as int)).captains,
            texts(cocaps@) == captains_of(s.take(i as int)).cocaptains,
            texts(errors@) == captains_of(s.take(i as int)).errors,
        decreases events@.len() - i,
    {
        let e = &events[i];
        proof {
            assert(s.take(i + 1).drop_last() =~= s.take(i as int));
            assert(s.take(i + 1).last() == e@);
            assert(s[i as int] == e@);
        }
        let code = string_to_gameeventcode(e.event.as_str());
        proof {
            lemma_code_text_roundtrip(GameEventCode::SC);
            lemma_code_text_roundtrip(GameEventCode::SS);
        }
        if code == GameEventCode::SC {
            let t = e.team as usize;
            proof {
                assert(texts(caps@)[t as int] == caps@[t as int]@);
            }
            let taken = !str_eq(caps[t].as_str(), "");
            push_msg_if(&mut errors, taken, msg1(
                "More than one captain specified. Each team can have only one starter captain. Team idx: ", e.team, ""));
            caps.set(t, e.name.clone());
            proof {
                reveal_strlit("");
                assert(texts(caps@) =~= captains_of(s.take(i as int)).captains.update(t as int, e.name@));
                assert(msg_second_captain(e.team as int) =~= "More than one captain specified. Each team can have only one starter captain. Team idx: "@ + int_text(e.team as int) + ""@);
            }
        } else if code == GameEventCode::SS {
            let t = e.team as usize;
            proof {
                assert(texts(cocaps@)[t as int] == cocaps@[t as int]@);
            }
            let taken = !str_eq(cocaps[t].as_str(), "");
            push_msg_if(&mut errors, taken, msg1(
                "More than one cocaptain specified. Each team can have only one starter cocaptain. Team idx: ", e.team, ""));
            cocaps.set(t, e.name.clone());
            proof {
                reveal_strlit("");
                assert(texts(cocaps@) =~= captains_of(s.take(i as int)).cocaptains.update(t as int, e.name@));
                assert(msg_second_cocaptain(e.team as int) =~= "More than one cocaptain specified. Each team can have only one starter cocaptain. Team idx: "@ + int_text(e.team as int) + ""@);
            }
        }
        i = i + 1;
    }
    proof {
        assert(s.take(events@.len() as int) =~= s);
    }
    (caps, cocaps, errors)
}

/// The number of seats of team `t` that hold a quizzer.
fn team_quizzer_count(seats: &Vec<String>, t: usize) -> (n: usize)
    requires
        seats@.len() == 18,
        t < 3,
    ensures
        n == quizzer_count(seats_of_flat(seats@)[t as int]),
{
    let ghost q = seats_of_flat(seats@)[t as int];
    proof {
        reveal_strlit("");
        assert(""@ =~= blank());
    }
    let mut n: usize = 0;
    let mut i: usize = 0;
    while i < 6
        invariant
            i <= 6,
            t < 3,
            seats@.len() == 18,
            ""@ == blank(),
            q == seats_of_flat(seats@)[t as int],
            n == quizzer_count(q.take(i as int)),
            n <= i,
        decreases 6 - i,
    {
        proof {
            assert(q.take(i + 1).drop_last() =~= q.take(i as int));
            assert(q.take(i + 1).last() == seats@[t * 6 + i]@);
        }
        if !str_eq(seats[t * 6 + i].as_str(), "") {
            n = n + 1;
        }
        i = i + 1;
    }
    proof {
        assert(q.take(6) =~= q);
    }
    n
}

/// Whether a seat of team `t` holds `name`.
fn team_contains(seats: &Vec<String>, t: usize, name: &str) -> (r: bool)
    requires
        seats@.len() == 18,
        t < 3,
    ensures
        r == seats_of_flat(seats@)[t as int].contains(name@),
{
    let ghost q = seats_of_flat(seats@)[t as int];
    let mut i: usize = 0;
    while i < 6
        invariant
            i <= 6,
            t < 3,
            seats@.len() == 18,
            q == seats_of_flat(seats@)[t as int],
            forall|k: int| 0 <= k < i ==> #[trigger] q[k] != name@,
        decreases 6 - i,
    {
        proof {
            assert(q[i as int] == seats@[t * 6 + i]@);
        }
        if str_eq(seats[t * 6 + i].as_str(), name) {
            return true;
        }
        i = i + 1;
    }
    false
}

/// The captain errors of team `t`.
fn team_captain_check(names: &Vec<String>, seats: &Vec<String>, caps: &Vec<String>, cocaps: &Vec<String>, t: usize) -> (v: Vec<String>)
    requires
        names@.len() == 3,
        seats@.len() == 18,
        caps@.len() == 3,
        cocaps@.len() == 3,
        t < 3,
    ensures
        texts(v@) == team_captain_errors(names@[t as int]@, seats_of_flat(seats@)[t as int], caps@[t as int]@, cocaps@[t as int]@),
{
    proof {
        reveal_strlit("");
        assert(""@ =~= blank());
    }
    let mut errors: Vec<String> = Vec::new();
    let name = names[t].as_str();
    if str_eq(name, "") {
        return errors;
    }
    let count = team_quizzer_count(seats, t);
    let needs_cocaptain = count > 1;
    let cap = caps[t].as_str();
    let cocap = cocaps[t].as_str();
    if str_eq(cap, "") {
        errors.push(msg_texts("Captain is not listed. Each team must have one starter captain. Team: ", name, "", ""));
    } else if needs_cocaptain && str_eq(cocap, "") {
        errors.push(msg_texts("Cocaptain is not listed. Each team that has more than 1 quizzer must have one starter cocaptain. Team: ", name, "", ""));
    } else if needs_cocaptain && str_eq(cap, cocap) {
        errors.push(msg_texts("Captain is also listed as cocaptain. Quizzer cannot be both captain and cocaptain. Quizzer: ", cap, ", Team: ", name));
    }
    let ghost first = texts(errors@);
    let cap_in = team_contains(seats, t, cap);
    let cocap_in = team_contains(seats, t, cocap);
    push_msg_if(&mut errors, !cap_in, msg_texts("Captain is not listed as a quizzer of the team. Captain: ", cap, ", Team: ", name));
    push_msg_if(&mut errors, !cocap_in, msg_texts("Cocaptain is not listed as a quizzer of the team. Cocaptain: ", cocap, ", Team: ", name));
    proof {
        reveal_strlit("");
        assert(msg_no_captain(name@) =~= "Captain is not listed. Each team must have one starter captain. Team: "@ + name@ + ""@ + ""@);
        assert(msg_no_cocaptain(name@) =~= "Cocaptain is not listed. Each team that has more than 1 quizzer must have one starter cocaptain. Team: "@ + name@ + ""@ + ""@);
        assert(first =~= (if cap@ == blank() {
            seq![msg_no_captain(name@)]
        } else if needs_cocaptain && cocap@ == blank() {
            seq![msg_no_cocaptain(name@)]
        } else if needs_cocaptain && cap@ == cocap@ {
            seq![msg_captain_is_cocaptain(cap@, name@)]
        } else {
            Seq::<Seq<char>>::empty()
        }));
        assert(texts(errors@) =~= team_captain_errors(name@, seats_of_flat(seats@)[t as int], cap@, cocap@));
    }
    errors
}

/// The captain errors of the events.
fn captain_check(events: &Vec<GameEvent>) -> (v: Vec<String>)
    requires
        forall|i: int| 0 <= i < events@.len() ==> is_code((#[trigger] events@[i]).event@),
        names_in_range(events_view(events@)),
        captains_in_range(events_view(events@)),
    ensures
        texts(v@) == captain_errors(events_view(events@)),
{
    let (caps, cocaps, mut errors) = collect_captains(events);
    let (names, seats) = collect_names(events);
    let ghost st = captains_of(events_view(events@));
    extend(&mut errors, team_captain_check(&names, &seats, &caps, &cocaps, 0));
    extend(&mut errors, team_captain_check(&names, &seats, &caps, &cocaps, 1));
    extend(&mut errors, team_captain_check(&names, &seats, &caps, &cocaps, 2));
    proof {
        assert(texts(names@)[0] == names@[0]@);
        assert(texts(names@)[1] == names@[1]@);
        assert(texts(names@)[2] == names@[2]@);
        assert(texts(caps@)[0] == caps@[0]@);
        assert(texts(caps@)[1] == caps@[1]@);
        assert(texts(caps@)[2] == caps@[2]@);
        assert(texts(cocaps@)[0] == cocaps@[0]@);
        assert(texts(cocaps@)[1] == cocaps@[1]@);
        assert(texts(cocaps@)[2] == cocaps@[2]@);
        assert(texts(errors@) =~= captain_errors(events_view(events@)));
    }
    errors
}

/// The errors for teams that share a name.
fn team_dup_check(names: &Vec<String>) -> (v: Vec<String>)
    requires
        names@.len() == 3,
    ensures
        texts(v@) == team_dup_errors(texts(names@)),
{
    proof {
        reveal_strlit("");
        assert(""@ =~= blank());
        assert(texts(names@)[0] == names@[0]@);
        assert(texts(names@)[1] == names@[1]@);
        assert(texts(names@)[2] == names@[2]@);
    }
    let n0 = names[0].as_str();
    let n1 = names[1].as_str();
    let n2 = names[2].as_str();
    let mut errors: Vec<String> = Vec::new();
    push_msg_if(&mut errors, str_eq(n0, n1) && !str_eq(n0, ""), msg_texts("Team names are not unique. Left & Center Team name: ", n0, "", ""));
    push_msg_if(&mut errors, str_eq(n1, n2) && !str_eq(n1, ""), msg_texts("Team names are not unique. Center & Right Team name: ", n1, "", ""));
    push_msg_if(&mut errors, str_eq(n0, n2) && !str_eq(n0, ""), msg_texts("Team names are not unique. Left & Right Team name: ", n0, "", ""));
    proof {
        assert(msg_dup_left_center(n0@) =~= "Team names are not unique. Left & Center Team name: "@ + n0@ + ""@ + ""@);
        assert(msg_dup_center_right(n1@) =~= "Team names are not unique. Center & Right Team name: "@ + n1@ + ""@ + ""@);
        assert(msg_dup_left_right(n0@) =~= "Team names are not unique. Left & Right Team name: "@ + n0@ + ""@ + ""@);
        assert(texts(errors@) =~= team_dup_errors(texts(names@)));
    }
    errors
}

/// The duplicate quizzer errors of team `t`.
fn team_quizzer_dup_check(names: &Vec<String>, seats: &Vec<String>, t: usize) -> (v: Vec<String>)
    requires
        names@.len() == 3,
        seats@.len() == 18,
        t < 3,
    ensures
        texts(v@) == team_quizzer_dup_errors(names@[t as int]@, seats_of_flat(seats@)[t as int]),
{
    proof {
        reveal_strlit("");
        assert(""@ =~= blank());
    }
    let mut errors: Vec<String> = Vec::new();
    let name = names[t].as_str();
    if str_eq(name, "") {
        return errors;
    }
    let ghost q = seats_of_flat(seats@)[t as int];
    let mut i: usize = 0;
    while i < 6
        invariant
            i <= 6,
            t < 3,
            seats@.len() == 18,
            ""@ == blank(),
            q == seats_of_flat(seats@)[t as int],
            q.len() == 6,
            texts(errors@) == dup_rows(name@, q, i as int),
        decreases 6 - i,
    {
        proof {
            assert(q[i as int] == seats@[t * 6 + i]@);
        }
        let qi = seats[t * 6 + i].as_str();
        if !str_eq(qi, "") {
            let mut j: usize = 0;
            let ghost row_start = texts(errors@);
            while j < 6
                invariant
                    i < 6,
                    j <= 6,
                    t < 3,
                    seats@.len() == 18,
                    ""@ == blank(),
                    q == seats_of_flat(seats@)[t as int],
                    q.len() == 6,
                    qi@ == q[i as int],
                    texts(errors@) == row_start + dup_row(name@, q, i as int, j as int),
                decreases 6 - j,
            {
                proof {
                    assert(q[j as int] == seats@[t * 6 + j]@);
                }
                let qj = seats[t * 6 + j].as_str();
                let ghost before = texts(errors@);
                let c = i != j && !str_eq(qj, "") && str_eq(qi, qj);
                push_msg_if(&mut errors, c, msg_texts("Team '", name, "' has more than 1 quizzer with the name '", qj).concat("'. Quizzer names must be unique for each team."));
                proof {
                    assert(msg_dup_quizzer(name@, qj@) =~= "Team '"@ + name@ + "' has more than 1 quizzer with the name '"@ + qj@ + "'. Quizzer names must be unique for each team."@);
                    assert(texts(errors@) =~= row_start + dup_row(name@, q, i as int, j + 1));
                }
                j = j + 1;
            }
            proof {
                assert(texts(errors@) =~= dup_rows(name@, q, i + 1));
            }
        } else {
            proof {
                assert(texts(errors@) =~= dup_rows(name@, q, i + 1));
            }
        }
        i = i + 1;
    }
    errors
}

/// The duplicate quizzer errors of the three teams.
fn quizzer_dup_check(names: &Vec<String>, seats: &Vec<String>) -> (v: Vec<String>)
    requires
        names@.len() == 3,
        seats@.len() == 18,
    ensures
        texts(v@) == quizzer_dup_errors(texts(names@), seats_of_flat(seats@)),
{
    let mut errors = team_quizzer_dup_check(names, seats, 0);
    extend(&mut errors, team_quizzer_dup_check(names, seats, 1));
    extend(&mut errors, team_quizzer_dup_check(names, seats, 2));
    proof {
        assert(texts(names@)[0] == names@[0]@);
        assert(texts(names@)[1] == names@[1]@);
        assert(texts(names@)[2] == names@[2]@);
        assert(texts(errors@) =~= quizzer_dup_errors(texts(names@), seats_of_flat(seats@)));
    }
    errors
}

} // verus!
