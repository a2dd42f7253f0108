//! The game event stream builder: composes a game's event stream one ruling at a time, as
//! QuizMachine records it.
use vstd::prelude::*;
use crate::gameevent::code::{code_text, GameEventCode};
use crate::gameevent::event::{new_events_view, texts, GameEvent, GameEventBuilder, GameEventView, NewGameEvent, events_view};
use crate::gameevent::stream_spec::{
    appended, between_eventnum, between_question, challenge_marked, challenge_outcome, challenge_question,
    challenge_ready, challenge_replaces_with_tc, cminus_outcome, aminus_outcome, appeal_question, config_plan,
    count_named, count_timeouts, events_added_with_teams, fc_plan, fminus_outcome, is_ruling, join_comma,
    last_answer, last_live, last_tossup, lemma_appended_chain, lemma_count_named_bound,
    lemma_count_timeouts_bound, lemma_last_live_bounds, lemma_last_tossup_answer, lemma_mark_keeps_fits,
    lemma_seat_of, mark_from, mark_rulings_from, max_timeouts, msg_captain_and_cocaptain, msg_cminus_after,
    msg_max_timeouts, msg_no_last_event, msg_no_previous_event, msg_not_on_team, msg_too_many_fouls,
    msg_too_many_tc, msg_too_many_te, named_team_count, nj_plan, only_events_added, plan, prev_eventnum,
    prev_live, prev_question, qn_outcome, qn_plans, ruling_eventnum, ruling_question, sb_plans, seat_of,
    seat_on, seated, stream_fits, stream_wf, tc_outcome, tc_plans, te_outcome, te_plans, to_outcome,
    EventPlan, StreamOutcome, StreamTeamView, StreamView, left_team, right_team, cminus_plan,
};
use crate::text::{int_to_text, str_eq};

verus! {

/// A team as the builder knows it: its name and the names in its six seats.
#[derive(Clone, Debug)]
pub struct TeamForGameEventStreamBuilder {
    pub name: String,
    pub quizzers: Vec<String>,
}

/// Composes the event stream of one game.
#[derive(Clone, Debug)]
pub struct GameEventStreamBuilder {
    pub gid: u128,
    pub correct_toss_ups_to_quiz_out: i32,
    pub erroneous_toss_ups_to_error_out: i32,
    pub fouls_to_foul_out: i32,
    pub maximum_timeouts_per_team_when_two_teams_playing: i32,
    pub maximum_timeouts_per_team_when_three_teams_playing: i32,
    pub teams: Vec<TeamForGameEventStreamBuilder>,
    pub events: Vec<NewGameEvent>,
}

impl View for TeamForGameEventStreamBuilder {
    type V = StreamTeamView;

    open spec fn view(&self) -> StreamTeamView {
        StreamTeamView { name: self.name@, quizzers: texts(self.quizzers@) }
    }
}

impl View for GameEventStreamBuilder {
    type V = StreamView;

    open spec fn view(&self) -> StreamView {
        StreamView {
            gid: self.gid,
            correct_toss_ups_to_quiz_out: self.correct_toss_ups_to_quiz_out,
            erroneous_toss_ups_to_error_out: self.erroneous_toss_ups_to_error_out,
            fouls_to_foul_out: self.fouls_to_foul_out,
            maximum_timeouts_per_team_when_two_teams_playing: self.maximum_timeouts_per_team_when_two_teams_playing,
            maximum_timeouts_per_team_when_three_teams_playing: self.maximum_timeouts_per_team_when_three_teams_playing,
            teams: self.teams@.map_values(|t: TeamForGameEventStreamBuilder| t@),
            events: new_events_view(self.events@),
        }
    }
}

impl TeamForGameEventStreamBuilder {
    /// A team with no name and six empty seats.
    pub fn new() -> (r: Self)
        ensures
            r@.name == Seq::<char>::empty(),
            r@.quizzers == Seq::new(6, |i: int| Seq::<char>::empty()),
    {
        let mut quizzers: Vec<String> = Vec::new();
        let mut i: usize = 0;
        while i < 6
            invariant
                i <= 6,
                quizzers@.len() == i,
                forall|j: int| 0 <= j < i ==> quizzers@[j]@ == Seq::<char>::empty(),
            decreases 6 - i,
        {
            quizzers.push(String::new());
            i = i + 1;
        }
        let r = TeamForGameEventStreamBuilder { name: String::new(), quizzers: quizzers };
        proof {
            assert(texts(r.quizzers@) =~= Seq::new(6, |i: int| Seq::<char>::empty()));
        }
        r
    }

    fn seat_lookup(&self, quizzer_name: &str) -> (r: Result<usize, String>)
        ensures
            r is Ok <==> seat_of(self@.quizzers, quizzer_name@) < self@.quizzers.len(),
            r matches Ok(i) ==> i == seat_of(self@.quizzers, quizzer_name@),
            r matches Err(m) ==> m@ == msg_not_on_team(quizzer_name@, self@.name, self@.quizzers),
    {
        let mut i: usize = 0;
        while i < self.quizzers.len()
            invariant
                i <= self.quizzers@.len(),
                forall|j: int| 0 <= j < i ==> self.quizzers@[j]@ != quizzer_name@,
            decreases self.quizzers@.len() - i,
        {
            if str_eq(self.quizzers[i].as_str(), quizzer_name) {
                proof {
                    lemma_seat_of(self@.quizzers, quizzer_name@);
                    let k = seat_of(self@.quizzers, quizzer_name@);
                    assert(self@.quizzers[i as int] == quizzer_name@);
                    if k < i {
                        assert(self@.quizzers[k] == self.quizzers@[k]@);
                    }
                }
                return Ok(i);
            }
            i = i + 1;
        }
        proof {
            lemma_seat_of(self@.quizzers, quizzer_name@);
            let k = seat_of(self@.quizzers, quizzer_name@);
            if k < self@.quizzers.len() {
                assert(self@.quizzers[k] == self.quizzers@[k]@);
            }
        }
        Err(make_msg_not_on_team(quizzer_name, self.name.as_str(), &self.quizzers))
    }

    /// The seat that holds `quizzer_name`, or an error naming the team and its quizzers.
    pub fn get_quizzer_seat(self, quizzer_name: &str) -> (r: Result<usize, String>)
        ensures
            r is Ok <==> seat_of(self@.quizzers, quizzer_name@) < self@.quizzers.len(),
            r matches Ok(i) ==> i == seat_of(self@.quizzers, quizzer_name@),
            r matches Err(m) ==> m@ == msg_not_on_team(quizzer_name@, self@.name, self@.quizzers),
    {
        self.seat_lookup(quizzer_name)
    }
}

/// Appends an event with the planned fields, built as any event is built.
fn push_planned(
    events: &mut Vec<NewGameEvent>,
    gid: u128,
    code: GameEventCode,
    question: i32,
    eventnum: i32,
    name: &str,
    team: i32,
    quizzer: i32,
)
    ensures
        appended(
            new_events_view(final(events)@),
            new_events_view(old(events)@),
            gid,
            seq![plan(question as int, eventnum as int, name@, team as int, quizzer as int, code)],
        ),
{
    let b = GameEventBuilder::new_default(gid)
        .set_event(Some(code))
        .set_question(Some(question))
        .set_eventnum(Some(eventnum))
        .set_name(Some(String::from_str(name)))
        .set_team(Some(team))
        .set_quizzer(Some(quizzer));
    proof {
        assert(crate::gameevent::event::game_event_builder_missing(b) =~= Seq::<Seq<char>>::empty());
    }
    match b.build() {
        Ok(e) => {
            events.push(e);
        },
        Err(_) => {},
    }
    proof {
        let a = new_events_view(final(events)@);
        let o = new_events_view(old(events)@);
        assert(a.take(o.len() as int) =~= o);
    }
}

/// The position of the last event not marked "DE".
fn find_last_live(events: &Vec<NewGameEvent>) -> (r: Option<usize>)
    ensures
        r is Some <==> last_live(new_events_view(events@)) >= 0,
        r matches Some(i) ==> i == last_live(new_events_view(events@)) && i < events@.len(),
{
    let ghost v = new_events_view(events@);
    let mut i: usize = events.len();
    proof {
        assert(v.take(events@.len() as int) =~= v);
    }
    while i > 0 && crate::text::str_eq(events[i - 1].event.as_str(), "DE")
        invariant
            i <= events@.len(),
            v == new_events_view(events@),
            last_live(v) == last_live(v.take(i as int)),
        decreases i,
    {
        proof {
            assert(v.take(i as int).drop_last() =~= v.take(i - 1));
        }
        i = i - 1;
    }
    proof {
        assert(v.take(events@.len() as int) =~= v);
    }
    if i == 0 {
        proof {
            assert(v.take(0) =~= Seq::<GameEventView>::empty());
        }
        None
    } else {
        Some(i - 1)
    }
}

/// The outcome of an operation as values.
pub open spec fn result_view(r: Result<GameEventStreamBuilder, Vec<String>>) -> StreamOutcome {
    match r {
        Ok(b) => StreamOutcome::Ok(b@),
        Err(v) => StreamOutcome::Err(texts(v@)),
    }
}

/// A list of one error.
fn one_error(m: String) -> (v: Vec<String>)
    ensures
        texts(v@) == seq![m@],
{
    let mut v: Vec<String> = Vec::new();
    v.push(m);
    proof {
        assert(texts(v@) =~= seq![m@]);
    }
    v
}

/// The names joined with ", " between them.
fn join_names(names: &Vec<String>) -> (s: String)
    ensures
        s@ == join_comma(texts(names@)),
{
    let ghost t = texts(names@);
    let mut s = String::new();
    let mut i: usize = 0;
    while i < names.len()
        invariant
            i <= names@.len(),
            t == texts(names@),
            s@ == join_comma(t.take(i as int)),
        decreases names@.len() - i,
    {
        proof {
            assert(t.take(i + 1).drop_last() =~= t.take(i as int));
            assert(t.take(i + 1).last() == names@[i as int]@);
        }
        if i == 0 {
            s = names[i].clone();
            proof {
                assert(t.take(1) =~= seq![names@[0]@]);
            }
        } else {
            s = s.concat(", ");
            s = s.concat(names[i].as_str());
        }
        i = i + 1;
    }
    proof {
        assert(t.take(names@.len() as int) =~= t);
    }
    s
}

fn make_msg_not_on_team(quizzer: &str, team: &str, quizzers: &Vec<String>) -> (m: String)
    ensures
        m@ == msg_not_on_team(quizzer@, team@, texts(quizzers@)),
{
    let m = String::from_str("Quizzer name '");
    let m = m.concat(quizzer);
    let m = m.concat("' not found on team '");
    let m = m.concat(team);
    let m = m.concat("'. Quizzers: ");
    let j = join_names(quizzers);
    m.concat(j.as_str())
}

/// "<head><name><mid1><max><mid2><count>'." as the ruling-count messages read.
fn make_count_msg(head: &str, name: &str, mid1: &str, max: i32, mid2: &str, count: i32) -> (m: String)
    ensures
        m@ == head@ + name@ + mid1@ + crate::text::int_text(max as int) + mid2@ + crate::text::int_text(count as int) + "'."@,
{
    let a = int_to_text(max as i64);
    let b = int_to_text(count as i64);
    let m = String::from_str(head);
    let m = m.concat(name);
    let m = m.concat(mid1);
    let m = m.concat(a.as_str());
    let m = m.concat(mid2);
    let m = m.concat(b.as_str());
    m.concat("'.")
}

/// The number of events with code `code` and name `name`.
fn count_named_events(events: &Vec<NewGameEvent>, code: &str, name: &str) -> (n: usize)
    ensures
        n == count_named(new_events_view(events@), code@, name@),
{
    let ghost v = new_events_view(events@);
    let mut n: usize = 0;
    let mut i: usize = 0;
    while i < events.len()
        invariant
            i <= events@.len(),
            v == new_events_view(events@),
            n == count_named(v.take(i as int), code@, name@),
            n <= i,
        decreases events@.len() - i,
    {
        proof {
            assert(v.take(i + 1).drop_last() =~= v.take(i as int));
        }
        if str_eq(events[i].event.as_str(), code) && str_eq(events[i].name.as_str(), name) {
            n = n + 1;
        }
        i = i + 1;
    }
    proof {
        assert(v.take(events@.len() as int) =~= v);
    }
    n
}

/// The number of time outs taken by `team`.
fn count_team_timeouts(events: &Vec<NewGameEvent>, team: i32) -> (n: usize)
    ensures
        n == count_timeouts(new_events_view(events@), team),
{
    let ghost v = new_events_view(events@);
    let mut n: usize = 0;
    let mut i: usize = 0;
    while i < events.len()
        invariant
            i <= events@.len(),
            v == new_events_view(events@),
            n == count_timeouts(v.take(i as int), team),
            n <= i,
        decreases events@.len() - i,
    {
        proof {
            assert(v.take(i + 1).drop_last() =~= v.take(i as int));
        }
        if str_eq(events[i].event.as_str(), "TO") && events[i].team == team {
            n = n + 1;
        }
        i = i + 1;
    }
    proof {
        assert(v.take(events@.len() as int) =~= v);
    }
    n
}

/// The events with every event from question `q` on marked "DE".
fn mark_events_from(events: &Vec<NewGameEvent>, q: i32) -> (r: Vec<NewGameEvent>)
    ensures
        new_events_view(r@) == mark_from(new_events_view(events@), q as int),
{
    let mut new_events: Vec<NewGameEvent> = Vec::new();
    let mut i: usize = 0;
    while i < events.len()
        invariant
            i <= events@.len(),
            new_events@.len() == i,
            forall|j: int| 0 <= j < i ==> new_events@[j]@ == mark_from(new_events_view(events@), q as int)[j],
        decreases events@.len() - i,
    {
        if events[i].question >= q {
            new_events.push(events[i].with_event("DE"));
        } else {
            new_events.push(events[i].duplicate());
        }
        i = i + 1;
    }
    proof {
        assert(new_events_view(new_events@) =~= mark_from(new_events_view(events@), q as int));
    }
    new_events
}

/// The events with every ruling from question `q` on marked "DE".
fn mark_rulings(events: &Vec<NewGameEvent>, q: i32) -> (r: Vec<NewGameEvent>)
    ensures
        new_events_view(r@) == mark_rulings_from(new_events_view(events@), q as int),
{
    let mut new_events: Vec<NewGameEvent> = Vec::new();
    let mut i: usize = 0;
    while i < events.len()
        invariant
            i <= events@.len(),
            new_events@.len() == i,
            forall|j: int| 0 <= j < i ==> new_events@[j]@ == mark_rulings_from(new_events_view(events@), q as int)[j],
        decreases events@.len() - i,
    {
        let code = events[i].event.as_str();
        if events[i].question >= q && (str_eq(code, "TC") || str_eq(code, "TE") || str_eq(code, "BC") || str_eq(code, "BE")) {
            new_events.push(events[i].with_event("DE"));
        } else {
            new_events.push(events[i].duplicate());
        }
        i = i + 1;
    }
    proof {
        assert(new_events_view(new_events@) =~= mark_rulings_from(new_events_view(events@), q as int));
    }
    new_events
}

/// The position of the last toss-up ruling.
fn find_last_tossup(events: &Vec<NewGameEvent>) -> (r: Option<usize>)
    ensures
        r is Some <==> last_tossup(new_events_view(events@)) >= 0,
        r matches Some(i) ==> i == last_tossup(new_events_view(events@)),
{
    let ghost v = new_events_view(events@);
    let mut i: usize = events.len();
    proof {
        assert(v.take(events@.len() as int) =~= v);
    }
    while i > 0 && !(str_eq(events[i - 1].event.as_str(), "TC") || str_eq(events[i - 1].event.as_str(), "TE"))
        invariant
            i <= events@.len(),
            v == new_events_view(events@),
            last_tossup(v) == last_tossup(v.take(i as int)),
        decreases i,
    {
        proof {
            assert(v.take(i as int).drop_last() =~= v.take(i - 1));
        }
        i = i - 1;
    }
    if i == 0 {
        proof {
            assert(v.take(0) =~= Seq::<GameEventView>::empty());
        }
        None
    } else {
        Some(i - 1)
    }
}

/// The position of the last answer.
fn find_last_answer(events: &Vec<NewGameEvent>) -> (r: Option<usize>)
    ensures
        r is Some <==> last_answer(new_events_view(events@)) >= 0,
        r matches Some(i) ==> i == last_answer(new_events_view(events@)),
{
    let ghost v = new_events_view(events@);
    let mut i: usize = events.len();
    proof {
        assert(v.take(events@.len() as int) =~= v);
    }
    while i > 0 && !(str_eq(events[i - 1].event.as_str(), "TC") || str_eq(events[i - 1].event.as_str(), "TE")
        || str_eq(events[i - 1].event.as_str(), "NJ"))
        invariant
            i <= events@.len(),
            v == new_events_view(events@),
            last_answer(v) == last_answer(v.take(i as int)),
        decreases i,
    {
        proof {
            assert(v.take(i as int).drop_last() =~= v.take(i - 1));
        }
        i = i - 1;
    }
    if i == 0 {
        proof {
            assert(v.take(0) =~= Seq::<GameEventView>::empty());
        }
        None
    } else {
        Some(i - 1)
    }
}

impl GameEventStreamBuilder {
    /// A builder for game `game_id` with the default limits, three unnamed teams and no events.
    pub fn new(game_id: u128) -> (r: Self)
        ensures
            r@.gid == game_id,
            r@.correct_toss_ups_to_quiz_out == crate::gameevent::calc_spec::DEFAULT_QUIZ_OUT,
            r@.erroneous_toss_ups_to_error_out == crate::gameevent::calc_spec::DEFAULT_ERROR_OUT,
            r@.fouls_to_foul_out == crate::gameevent::calc_spec::DEFAULT_FOUL_OUT,
            r@.maximum_timeouts_per_team_when_two_teams_playing == crate::gameevent::calc_spec::DEFAULT_2_TEAM_TIMEOUTS,
            r@.maximum_timeouts_per_team_when_three_teams_playing == crate::gameevent::calc_spec::DEFAULT_3_TEAM_TIMEOUTS,
            r@.teams.len() == 3,
            forall|t: int| 0 <= t < 3 ==> (#[trigger] r@.teams[t]).name == Seq::<char>::empty()
                && r@.teams[t].quizzers == Seq::new(6, |i: int| Seq::<char>::empty()),
            r@.events == Seq::<GameEventView>::empty(),
            stream_wf(r@),
            stream_fits(r@),
    {
        let mut teams: Vec<TeamForGameEventStreamBuilder> = Vec::new();
        teams.push(TeamForGameEventStreamBuilder::new());
        teams.push(TeamForGameEventStreamBuilder::new());
        teams.push(TeamForGameEventStreamBuilder::new());
        let r = GameEventStreamBuilder {
            gid: game_id,
            correct_toss_ups_to_quiz_out: crate::gameevent::calc_spec::DEFAULT_QUIZ_OUT,
            erroneous_toss_ups_to_error_out: crate::gameevent::calc_spec::DEFAULT_ERROR_OUT,
            fouls_to_foul_out: crate::gameevent::calc_spec::DEFAULT_FOUL_OUT,
            maximum_timeouts_per_team_when_two_teams_playing: crate::gameevent::calc_spec::DEFAULT_2_TEAM_TIMEOUTS,
            maximum_timeouts_per_team_when_three_teams_playing: crate::gameevent::calc_spec::DEFAULT_3_TEAM_TIMEOUTS,
            teams: teams,
            events: Vec::new(),
        };
        proof {
            assert(new_events_view(r.events@) =~= Seq::<GameEventView>::empty());
        }
        r
    }

    /// The position of the last live event.
    fn last_live_index(&self) -> (i: usize)
        requires
            last_live(self@.events) >= 0,
        ensures
            i == last_live(self@.events),
            i < self.events@.len(),
    {
        match find_last_live(&self.events) {
            Some(i) => i,
            None => 0,
        }
    }

    /// The question and event number of the next ruling.
    fn ruling_position(&self) -> (r: (i32, i32))
        requires
            stream_fits(self@),
            last_live(self@.events) >= 0,
        ensures
            r.0 == ruling_question(self@.events),
            r.1 == ruling_eventnum(self@.events),
            -2_000_000_000 <= r.0 <= 2_000_000_001,
            -2_000_000_000 <= r.1 <= 2_000_000_001,
    {
        let li = self.last_live_index();
        let p = &self.events[li];
        proof {
            assert(p@ == self@.events[li as int]);
            assert(-2_000_000_000 <= self@.events[li as int].question <= 2_000_000_000);
            assert(-2_000_000_000 <= self@.events[li as int].eventnum <= 2_000_000_000);
        }
        let code = p.event.as_str();
        let cont = (p.question == 1 && (str_eq(code, "QN") || str_eq(code, "SC") || str_eq(code, "SS")))
            || str_eq(code, "TO") || str_eq(code, "F-") || str_eq(code, "FC") || str_eq(code, "DE");
        if cont {
            (p.question, p.eventnum + 1)
        } else {
            (p.question + 1, 0)
        }
    }

    /// The question and event number of the next foul or substitution.
    fn between_position(&self) -> (r: (i32, i32))
        requires
            stream_fits(self@),
            last_live(self@.events) >= 0,
        ensures
            r.0 == between_question(self@.events),
            r.1 == between_eventnum(self@.events),
            -2_000_000_000 <= r.0 <= 2_000_000_001,
            -2_000_000_000 <= r.1 <= 2_000_000_000,
    {
        let li = self.last_live_index();
        let p = &self.events[li];
        proof {
            assert(p@ == self@.events[li as int]);
            assert(-2_000_000_000 <= self@.events[li as int].question <= 2_000_000_000);
            assert(-2_000_000_000 <= self@.events[li as int].eventnum <= 2_000_000_000);
        }
        if p.question < 2 {
            (p.question, p.eventnum)
        } else {
            (p.question + 1, 0)
        }
    }

    /// Adds a quizzer to the roster in seat `seat_number` of `team`, marked captain or
    /// cocaptain when asked; being marked both is an error.
    pub fn then_add_QN_plus_if_SC_or_SS(self, name: &str, team: i32, seat_number: i32, is_captain: bool, is_cocaptain: bool) -> (r: Result<Self, Vec<String>>)
        requires
            stream_wf(self@),
            stream_fits(self@),
            last_live(self@.events) >= 0,
            0 <= team < 3,
            0 <= seat_number < 6,
        ensures
            qn_outcome(result_view(r), self@, name@, team as int, seat_number as int, is_captain, is_cocaptain),
    {
        let li = self.last_live_index();
        let q = self.events[li].question;
        let en = self.events[li].eventnum;
        proof {
            assert(self.events@[li as int]@ == self@.events[li as int]);
            assert(-2_000_000_000 <= self@.events[li as int].eventnum <= 2_000_000_000);
        }
        if is_captain && is_cocaptain {
            let a = int_to_text(seat_number as i64);
            let b = int_to_text(team as i64);
            let m = String::from_str("QN for '");
            let m = m.concat(name);
            let m = m.concat("' for seat '");
            let m = m.concat(a.as_str());
            let m = m.concat("' on team '");
            let m = m.concat(b.as_str());
            let m = m.concat("' was indicated as both captain and cocaptain. QN can be only captain, cocaptain, or neither (not both).");
            return Err(one_error(m));
        }
        let ghost before = self@;
        let mut events = self.events;
        push_planned(&mut events, self.gid, GameEventCode::QN, q, en + 1, name, team, seat_number);
        let ghost p1 = seq![plan(q as int, en + 1, name@, team as int, seat_number as int, GameEventCode::QN)];
        if is_captain {
            let ghost mid = new_events_view(events@);
            push_planned(&mut events, self.gid, GameEventCode::SC, q, en + 2, name, team, seat_number);
            proof {
                lemma_appended_chain(before.events, mid, new_events_view(events@), before.gid, p1,
                    seq![plan(q as int, en + 2, name@, team as int, seat_number as int, GameEventCode::SC)]);
            }
        } else if is_cocaptain {
            let ghost mid = new_events_view(events@);
            push_planned(&mut events, self.gid, GameEventCode::SS, q, en + 2, name, team, seat_number);
            proof {
                lemma_appended_chain(before.events, mid, new_events_view(events@), before.gid, p1,
                    seq![plan(q as int, en + 2, name@, team as int, seat_number as int, GameEventCode::SS)]);
            }
        } else {
            proof {
                assert(p1 + Seq::<EventPlan>::empty() =~= p1);
            }
        }
        let mut teams = self.teams;
        let t = team as usize;
        let mut quizzers: Vec<String> = Vec::new();
        let mut i: usize = 0;
        while i < teams[t].quizzers.len()
            invariant
                t < teams@.len(),
                i <= teams@[t as int].quizzers@.len(),
                quizzers@.len() == i,
                forall|j: int| 0 <= j < i ==> quizzers@[j]@ == teams@[t as int].quizzers@[j]@,
            decreases teams@[t as int].quizzers@.len() - i,
        {
            quizzers.push(teams[t].quizzers[i].clone());
            i = i + 1;
        }
        proof {
            assert(before.teams[team as int].quizzers.len() == 6);
            assert(teams@[t as int]@ == before.teams[team as int]);
        }
        quizzers.set(seat_number as usize, String::from_str(name));
        let new_team = TeamForGameEventStreamBuilder { name: teams[t].name.clone(), quizzers: quizzers };
        let ghost old_teams = teams@;
        teams.set(t, new_team);
        proof {
            assert(texts(new_team.quizzers@) =~= before.teams[team as int].quizzers.update(seat_number as int, name@));
            assert(teams@.map_values(|x: TeamForGameEventStreamBuilder| x@) =~= seated(before.teams, team as int, seat_number as int, name@));
            assert(qn_plans(before.events, name@, team as int, seat_number as int, is_captain, is_cocaptain) =~=
                p1 + if is_captain {
                    seq![plan(q as int, en + 2, name@, team as int, seat_number as int, GameEventCode::SC)]
                } else if is_cocaptain {
                    seq![plan(q as int, en + 2, name@, team as int, seat_number as int, GameEventCode::SS)]
                } else {
                    Seq::<EventPlan>::empty()
                });
        }
        Ok(GameEventStreamBuilder { teams: teams, events: events, ..self })
    }

    /// Adds a correct toss-up for `name` on `team`, and the quiz out when it is the last one
    /// allowed. A quizzer not on the team, or one past the limit, is an error.
    pub fn then_add_TC(self, name: &str, team: i32) -> (r: Result<Self, Vec<String>>)
        requires
            stream_wf(self@),
            stream_fits(self@),
            last_live(self@.events) >= 0,
            0 <= team < 3,
        ensures
            tc_outcome(result_view(r), self@, name@, team as int),
    {
        let ghost before = self@;
        let (nq, ne) = self.ruling_position();
        let seat = match self.teams[team as usize].seat_lookup(name) {
            Ok(i) => i,
            Err(m) => {
                return Err(one_error(m));
            },
        };
        proof {
            lemma_count_named_bound(before.events, "TC"@, name@);
        }
        let count = count_named_events(&self.events, "TC", name) + 1;
        let max = self.correct_toss_ups_to_quiz_out;
        if count as i64 > max as i64 {
            return Err(one_error(make_count_msg(
                "Quizzer '", name,
                "' received more correct toss-up rulings than they are elligible to receive. TC Maximum: '",
                max, "', TCs Received: '", count as i32)));
        }
        let mut events = self.events;
        push_planned(&mut events, self.gid, GameEventCode::TC, nq, ne, name, team, seat as i32);
        let ghost p1 = seq![plan(nq as int, ne as int, name@, team as int, seat as int, GameEventCode::TC)];
        if count as i64 == max as i64 {
            let ghost mid = new_events_view(events@);
            push_planned(&mut events, self.gid, GameEventCode::QO, nq, ne + 1, name, team, seat as i32);
            proof {
                lemma_appended_chain(before.events, mid, new_events_view(events@), before.gid, p1,
                    seq![plan(nq as int, ne + 1, name@, team as int, seat as int, GameEventCode::QO)]);
                assert(tc_plans(before, name@, team as int, seat as int, count as int) =~=
                    p1 + seq![plan(nq as int, ne + 1, name@, team as int, seat as int, GameEventCode::QO)]);
            }
        } else {
            proof {
                assert(tc_plans(before, name@, team as int, seat as int, count as int) =~= p1);
            }
        }
        Ok(GameEventStreamBuilder { events: events, ..self })
    }

    /// Adds an erroneous toss-up for `name` on `team`, the error out when it is the last one
    /// allowed, and a bonus (correct or not as given) for each other team with a quizzer in
    /// the same seat. A quizzer not on the team, or one past the limit, is an error.
    pub fn then_add_TE_and_bonuses(self, name: &str, team: i32, left_team_bonus_is_correct: bool, right_team_bonus_is_correct: bool) -> (r: Result<Self, Vec<String>>)
        requires
            stream_wf(self@),
            stream_fits(self@),
            last_live(self@.events) >= 0,
            0 <= team < 3,
        ensures
            te_outcome(result_view(r), self@, name@, team as int, left_team_bonus_is_correct, right_team_bonus_is_correct),
    {
        let ghost before = self@;
        let (nq, ne) = self.ruling_position();
        let seat = match self.teams[team as usize].seat_lookup(name) {
            Ok(i) => i,
            Err(m) => {
                return Err(one_error(m));
            },
        };
        proof {
            lemma_count_named_bound(before.events, "TE"@, name@);
            assert(before.teams[team as int].quizzers.len() == 6);
        }
        let count = count_named_events(&self.events, "TE", name) + 1;
        let max = self.erroneous_toss_ups_to_error_out;
        if count as i64 > max as i64 {
            return Err(one_error(make_count_msg(
                "Quizzer '", name,
                "' received more erroneous toss-up rulings than they are elligible to receive. TE Maximum: '",
                max, "', TEs Received: '", count as i32)));
        }
        let mut events = self.events;
        push_planned(&mut events, self.gid, GameEventCode::TE, nq, ne, name, team, seat as i32);
        let ghost mut plans = seq![plan(nq as int, ne as int, name@, team as int, seat as int, GameEventCode::TE)];
        let mut en = ne;
        if count as i64 == max as i64 {
            en = en + 1;
            let ghost mid = new_events_view(events@);
            push_planned(&mut events, self.gid, GameEventCode::EO, nq, en, name, team, seat as i32);
            proof {
                let p = seq![plan(nq as int, en as int, name@, team as int, seat as int, GameEventCode::EO)];
                lemma_appended_chain(before.events, mid, new_events_view(events@), before.gid, plans, p);
                plans = plans + p;
            }
        }
        let lt: i32 = if team == 0 { 1 } else { 0 };
        let rt: i32 = if team == 2 { 1 } else { 2 };
        proof {
            assert(self.teams@[lt as int]@ == before.teams[lt as int]);
            assert(self.teams@[rt as int]@ == before.teams[rt as int]);
            assert(before.teams[lt as int].quizzers.len() == 6);
            assert(before.teams[rt as int].quizzers.len() == 6);
            assert(before.teams[lt as int].quizzers[seat as int] == self.teams@[lt as int].quizzers@[seat as int]@);
            assert(before.teams[rt as int].quizzers[seat as int] == self.teams@[rt as int].quizzers@[seat as int]@);
            reveal_strlit("");
            assert(""@ =~= Seq::<char>::empty());
        }
        if !str_eq(self.teams[lt as usize].quizzers[seat].as_str(), "") {
            en = en + 1;
            let code = if left_team_bonus_is_correct { GameEventCode::BC } else { GameEventCode::BE };
            let ghost mid = new_events_view(events@);
            push_planned(&mut events, self.gid, code, nq, en, name, lt, seat as i32);
            proof {
                let p = seq![plan(nq as int, en as int, name@, lt as int, seat as int, code)];
                lemma_appended_chain(before.events, mid, new_events_view(events@), before.gid, plans, p);
                plans = plans + p;
            }
        }
        if !str_eq(self.teams[rt as usize].quizzers[seat].as_str(), "") {
            en = en + 1;
            let code = if right_team_bonus_is_correct { GameEventCode::BC } else { GameEventCode::BE };
            let ghost mid = new_events_view(events@);
            push_planned(&mut events, self.gid, code, nq, en, name, rt, seat as i32);
            proof {
                let p = seq![plan(nq as int, en as int, name@, rt as int, seat as int, code)];
                lemma_appended_chain(before.events, mid, new_events_view(events@), before.gid, plans, p);
                plans = plans + p;
            }
        }
        proof {
            assert(te_plans(before, name@, team as int, seat as int, count as int, left_team_bonus_is_correct, right_team_bonus_is_correct) =~= plans);
        }
        Ok(GameEventStreamBuilder { events: events, ..self })
    }

    /// Records that no quizzer jumped on the question.
    pub fn then_add_NJ(self) -> (r: Result<Self, Vec<String>>)
        requires
            stream_fits(self@),
            last_live(self@.events) >= 0,
        ensures
            r matches Ok(b) && only_events_added(b@, self@, seq![nj_plan(self@.events)]),
    {
        let (nq, ne) = self.ruling_position();
        let mut events = self.events;
        push_planned(&mut events, self.gid, GameEventCode::NJ, nq, ne, "No Jump", 0, 0);
        proof {
            reveal_strlit("No Jump");
        }
        Ok(GameEventStreamBuilder { events: events, ..self })
    }

    /// Records a refused challenge by `name` on `team`: a "C-" after the last live event. It
    /// must follow a ruling; a quizzer not on the team is an error too.
    pub fn then_add_Cminus(self, name: &str, team: i32) -> (r: Result<Self, Vec<String>>)
        requires
            stream_wf(self@),
            stream_fits(self@),
            last_live(self@.events) >= 0,
            0 <= team < 3,
        ensures
            cminus_outcome(result_view(r), self@, name@, team as int),
    {
        let ghost before = self@;
        let li = self.last_live_index();
        let q = self.events[li].question;
        let en = self.events[li].eventnum;
        proof {
            assert(self.events@[li as int]@ == before.events[li as int]);
            assert(-2_000_000_000 <= before.events[li as int].eventnum <= 2_000_000_000);
        }
        let seat = match self.teams[team as usize].seat_lookup(name) {
            Ok(i) => i,
            Err(m) => {
                return Err(one_error(m));
            },
        };
        let n = self.events.len();
        let prev_code = self.events[n - 1].event.as_str();
        proof {
            assert(self.events@[n - 1]@ == before.events.last());
        }
        if !(str_eq(prev_code, "TC") || str_eq(prev_code, "TE") || str_eq(prev_code, "BC") || str_eq(prev_code, "BE")) {
            let m = String::from_str("'C-' event can only come after a 'TC', 'TE', 'BC' or 'BE' event. Previous event = '");
            let m = m.concat(prev_code);
            let m = m.concat("'.");
            return Err(one_error(m));
        }
        let mut events = self.events;
        push_planned(&mut events, self.gid, GameEventCode::Cminus, q, en + 1, name, team, seat as i32);
        Ok(GameEventStreamBuilder { events: events, ..self })
    }

    /// Records an accepted appeal: every event from the question of the last toss-up ruling
    /// or "no jump" on is marked "DE", so that the question can be ruled again.
    pub fn then_add_Aplus(self, name: &str, team: i32) -> (r: Result<Self, Vec<String>>)
        ensures
            r matches Ok(b) && b@ == (StreamView { events: mark_from(self@.events, appeal_question(self@.events)), ..self@ }),
    {
        proof {
            lemma_last_tossup_answer(self@.events);
        }
        let q: i32 = match find_last_answer(&self.events) {
            Some(i) => {
                proof {
                    assert(self.events@[i as int]@ == self@.events[i as int]);
                }
                self.events[i].question
            },
            None => 0,
        };
        let new_events = mark_events_from(&self.events, q);
        Ok(GameEventStreamBuilder { events: new_events, ..self })
    }

    /// Records a refused appeal by `name` on `team`: a "C-" after the last live event. A
    /// quizzer not on the team is an error.
    pub fn then_add_Aminus(self, name: &str, team: i32) -> (r: Result<Self, Vec<String>>)
        requires
            stream_wf(self@),
            stream_fits(self@),
            last_live(self@.events) >= 0,
            0 <= team < 3,
        ensures
            aminus_outcome(result_view(r), self@, name@, team as int),
    {
        let ghost before = self@;
        let li = self.last_live_index();
        let q = self.events[li].question;
        let en = self.events[li].eventnum;
        proof {
            assert(self.events@[li as int]@ == before.events[li as int]);
            assert(-2_000_000_000 <= before.events[li as int].eventnum <= 2_000_000_000);
        }
        let seat = match self.teams[team as usize].seat_lookup(name) {
            Ok(i) => i,
            Err(m) => {
                return Err(one_error(m));
            },
        };
        let mut events = self.events;
        push_planned(&mut events, self.gid, GameEventCode::Cminus, q, en + 1, name, team, seat as i32);
        Ok(GameEventStreamBuilder { events: events, ..self })
    }

    /// Records a foul on the coach (`is_coach`) or on the team, at the start of the next
    /// question.
    pub fn then_add_FC(self, is_coach: bool, team: i32) -> (r: Result<Self, Vec<String>>)
        requires
            stream_fits(self@),
            last_live(self@.events) >= 0,
        ensures
            r matches Ok(b) && only_events_added(b@, self@, seq![fc_plan(self@.events, is_coach, team as int)]),
    {
        let ghost before = self@;
        let li = self.last_live_index();
        let q = self.events[li].question;
        proof {
            assert(self.events@[li as int]@ == before.events[li as int]);
            assert(-2_000_000_000 <= before.events[li as int].question <= 2_000_000_000);
            reveal_strlit("");
            assert(""@ =~= Seq::<char>::empty());
        }
        let quizzer_val: i32 = if is_coach { 5 } else { 6 };
        let mut events = self.events;
        push_planned(&mut events, self.gid, GameEventCode::FC, q + 1, 0, "", team, quizzer_val);
        Ok(GameEventStreamBuilder { events: events, ..self })
    }

    /// Records a foul on `name` of `team`. A quizzer not on the team is an error, and so is
    /// one with more recorded fouls than the correct toss-ups that quiz out.
    pub fn then_add_Fminus(self, name: &str, team: i32) -> (r: Result<Self, Vec<String>>)
        requires
            stream_wf(self@),
            stream_fits(self@),
            last_live(self@.events) >= 0,
            0 <= team < 3,
        ensures
            fminus_outcome(result_view(r), self@, name@, team as int),
    {
        let ghost before = self@;
        let (nq, ne) = self.between_position();
        let seat = match self.teams[team as usize].seat_lookup(name) {
            Ok(i) => i,
            Err(m) => {
                return Err(one_error(m));
            },
        };
        proof {
            lemma_count_named_bound(before.events, "Fminus"@, name@);
        }
        let count = count_named_events(&self.events, "Fminus", name);
        if count as i64 > self.correct_toss_ups_to_quiz_out as i64 {
            return Err(one_error(make_count_msg(
                "Quizzer '", name,
                "' received more fouls than they are elligible to receive. Fouls Maximum: '",
                self.fouls_to_foul_out, "', Fouls Received: '", count as i32)));
        }
        let mut events = self.events;
        push_planned(&mut events, self.gid, GameEventCode::Fminus, nq, ne, name, team, seat as i32);
        Ok(GameEventStreamBuilder { events: events, ..self })
    }

    /// Records a substitution of `name` into seat `new_seat` of `team`: the substitution, the
    /// quizzer coming in, and the quizzer who held the seat moving to seat 4.
    pub fn then_add_SB(self, name: &str, team: i32, new_seat: i32) -> (r: Result<Self, Vec<String>>)
        requires
            stream_wf(self@),
            stream_fits(self@),
            last_live(self@.events) >= 0,
            0 <= team < 3,
            0 <= new_seat < 6,
        ensures
            r matches Ok(b) && only_events_added(b@, self@, sb_plans(self@, name@, team as int, new_seat as int)),
    {
        let ghost before = self@;
        let (nq, ne) = self.between_position();
        proof {
            assert(self.teams@[team as int]@ == before.teams[team as int]);
            assert(before.teams[team as int].quizzers.len() == 6);
            assert(before.teams[team as int].quizzers[new_seat as int] == self.teams@[team as int].quizzers@[new_seat as int]@);
        }
        let seated_before = self.teams[team as usize].quizzers[new_seat as usize].clone();
        let mut events = self.events;
        push_planned(&mut events, self.gid, GameEventCode::SB, nq, ne, name, team, new_seat);
        let ghost p1 = seq![plan(nq as int, ne as int, name@, team as int, new_seat as int, GameEventCode::SB)];
        let ghost mid = new_events_view(events@);
        push_planned(&mut events, self.gid, GameEventCode::QN, nq, ne + 1, name, team, new_seat);
        let ghost p2 = seq![plan(nq as int, ne + 1, name@, team as int, new_seat as int, GameEventCode::QN)];
        proof {
            lemma_appended_chain(before.events, mid, new_events_view(events@), before.gid, p1, p2);
        }
        let ghost mid2 = new_events_view(events@);
        push_planned(&mut events, self.gid, GameEventCode::QN, nq, ne + 2, seated_before.as_str(), team, 4);
        proof {
            let p3 = seq![plan(nq as int, ne + 2, seated_before@, team as int, 4, GameEventCode::QN)];
            lemma_appended_chain(before.events, mid2, new_events_view(events@), before.gid, p1 + p2, p3);
            assert(sb_plans(before, name@, team as int, new_seat as int) =~= p1 + p2 + p3);
        }
        Ok(GameEventStreamBuilder { events: events, ..self })
    }

    /// Records a time out for `team` at the start of the next question. A team past its
    /// limit (that of two teams unless three teams have names) is an error.
    pub fn then_add_TO(self, team: i32) -> (r: Result<Self, Vec<String>>)
        requires
            stream_wf(self@),
            stream_fits(self@),
            last_live(self@.events) >= 0,
        ensures
            to_outcome(result_view(r), self@, team as int),
    {
        let ghost before = self@;
        let li = self.last_live_index();
        let q = self.events[li].question;
        proof {
            assert(self.events@[li as int]@ == before.events[li as int]);
            assert(-2_000_000_000 <= before.events[li as int].question <= 2_000_000_000);
        }
        let ghost tv = before.teams;
        let mut team_count: usize = 0;
        let mut i: usize = 0;
        while i < self.teams.len()
            invariant
                i <= self.teams@.len(),
                tv == self.teams@.map_values(|x: TeamForGameEventStreamBuilder| x@),
                team_count == named_team_count(tv.take(i as int)),
                team_count <= i,
            decreases self.teams@.len() - i,
        {
            proof {
                assert(tv.take(i + 1).drop_last() =~= tv.take(i as int));
                assert(tv[i as int] == self.teams@[i as int]@);
                reveal_strlit("");
            assert(""@ =~= Seq::<char>::empty());
            }
            if !str_eq(self.teams[i].name.as_str(), "") {
                team_count = team_count + 1;
            }
            i = i + 1;
        }
        proof {
            assert(tv.take(self.teams@.len() as int) =~= tv);
            lemma_count_timeouts_bound(before.events, team);
        }
        let count = count_team_timeouts(&self.events, team);
        let max = if team_count > 2 {
            self.maximum_timeouts_per_team_when_three_teams_playing
        } else {
            self.maximum_timeouts_per_team_when_two_teams_playing
        };
        if count as i64 >= max as i64 {
            let a = int_to_text(team_count as i64);
            let b = int_to_text(max as i64);
            let c = int_to_text(count as i64);
            let m = String::from_str("Maximum Timeouts exceeded. Maximum Timeouts for ");
            let m = m.concat(a.as_str());
            let m = m.concat(" teams: ");
            let m = m.concat(b.as_str());
            let m = m.concat(", Timeouts granted: ");
            let m = m.concat(c.as_str());
            let m = m.concat(".");
            return Err(one_error(m));
        }
        proof {
            reveal_strlit("");
            assert(""@ =~= Seq::<char>::empty());
        }
        let mut events = self.events;
        push_planned(&mut events, self.gid, GameEventCode::TO, q + 1, 0, "", team, -1);
        Ok(GameEventStreamBuilder { events: events, ..self })
    }

    /// Applies an accepted challenge: the rulings of the question of the last toss-up ruling
    /// and after are marked "DE", then the opposite ruling is recorded in place of the
    /// challenged one: a correct toss-up for `name` on `team` in place of an erroneous one, or
    /// else an erroneous one (with its bonuses) for the quizzer and team of the last event.
    pub fn then_challenge_accepted(self, name: &str, team: i32, left_team_bonus_is_correct: bool, right_team_bonus_is_correct: bool) -> (r: Result<Self, Vec<String>>)
        requires
            stream_wf(self@),
            stream_fits(self@),
            challenge_ready(self@, team as int),
        ensures
            challenge_outcome(result_view(r), self@, name@, team as int, left_team_bonus_is_correct, right_team_bonus_is_correct),
    {
        let ghost before = self@;
        proof {
            lemma_last_tossup_answer(before.events);
        }
        let (q, replace_with_tc) = match find_last_tossup(&self.events) {
            Some(i) => {
                proof {
                    assert(self.events@[i as int]@ == before.events[i as int]);
                }
                (self.events[i].question, str_eq(self.events[i].event.as_str(), "TE"))
            },
            None => (0, false),
        };
        let marked_events = mark_rulings(&self.events, q);
        let marked = GameEventStreamBuilder { events: marked_events, ..self };
        proof {
            assert(marked@ == challenge_marked(before));
            lemma_mark_keeps_fits(before, q as int);
        }
        if replace_with_tc {
            marked.then_add_TC(name, team)
        } else {
            let n = marked.events.len();
            if n == 0 {
                return Err(one_error(String::from_str("Could not get last event when adding replacement record for challenge.")));
            }
            let last_name = marked.events[n - 1].name.clone();
            let last_team = marked.events[n - 1].team;
            proof {
                assert(marked.events@[n - 1]@ == marked@.events.last());
            }
            marked.then_add_TE_and_bonuses(last_name.as_str(), last_team, left_team_bonus_is_correct, right_team_bonus_is_correct)
        }
    }

    /// The builder for game `val`.
    pub fn set_gid(self, val: u128) -> (r: Self)
        ensures
            r@ == (StreamView { gid: val, ..self@ }),
    {
        GameEventStreamBuilder { gid: val, ..self }
    }

    /// The last event not marked "DE".
    pub fn get_last_event(&self) -> (r: Result<NewGameEvent, String>)
        ensures
            r is Ok <==> last_live(self@.events) >= 0,
            r matches Ok(e) ==> e@ == self@.events[last_live(self@.events)],
            r matches Err(m) ==> m@ == msg_no_previous_event(),
    {
        match find_last_live(&self.events) {
            Some(i) => Ok(self.events[i].duplicate()),
            None => Err(String::from_str("Could not find valid previous event for getting last question and eventnum.")),
        }
    }

    /// The question and event number that configuration events continue from.
    fn config_position(&self) -> (r: (i32, i32))
        requires
            stream_fits(self@),
        ensures
            r.0 == prev_question(self@.events),
            r.1 == prev_eventnum(self@.events),
    {
        match find_last_live(&self.events) {
            Some(i) => (self.events[i].question, self.events[i].eventnum),
            None => (1, -1),
        }
    }

    /// Appends a configuration event (RM, QT or TN) after the last live event.
    fn then_add_config(self, code: GameEventCode, name: &str, team: i32, quizzer: i32) -> (r: Self)
        requires
            stream_fits(self@),
        ensures
            only_events_added(r@, self@, seq![config_plan(self@.events, code, name@, team as int, quizzer as int)]),
    {
        let (q, en) = self.config_position();
        proof {
            lemma_last_live_bounds(self@.events);
            if last_live(self@.events) >= 0 {
                assert(-2_000_000_000 <= self@.events[last_live(self@.events)].eventnum <= 2_000_000_000);
            }
        }
        let mut events = self.events;
        push_planned(&mut events, self.gid, code, q, en + 1, name, team, quizzer);
        GameEventStreamBuilder { events: events, ..self }
    }

    /// Appends the room rules event.
    pub fn then_add_RM(self, name: &str) -> (r: Self)
        requires
            stream_fits(self@),
        ensures
            only_events_added(r@, self@, seq![config_plan(self@.events, GameEventCode::RM, name@, 0, 0)]),
    {
        self.then_add_config(GameEventCode::RM, name, 0, 0)
    }

    /// Appends the quiz type event.
    pub fn then_add_QT(self, name: &str) -> (r: Self)
        requires
            stream_fits(self@),
        ensures
            only_events_added(r@, self@, seq![config_plan(self@.events, GameEventCode::QT, name@, 0, 0)]),
    {
        self.then_add_config(GameEventCode::QT, name, 0, 0)
    }

    /// Appends a team name event; it always succeeds.
    pub fn then_add_TN(self, name: &str, team: i32) -> (r: Result<Self, Vec<String>>)
        requires
            stream_fits(self@),
            team < i32::MAX,
        ensures
            r matches Ok(b) && only_events_added(b@, self@, seq![config_plan(self@.events, GameEventCode::TN, name@, team as int, team + 1)]),
    {
        Ok(self.then_add_config(GameEventCode::TN, name, team, team + 1))
    }

    /// The events as stored events, with the game's id.
    pub fn to_game_events(self) -> (r: (Vec<GameEvent>, u128))
        ensures
            events_view(r.0@) == self@.events,
            r.1 == self.gid,
    {
        let mut out: Vec<GameEvent> = Vec::new();
        let mut i: usize = 0;
        while i < self.events.len()
            invariant
                i <= self.events@.len(),
                out@.len() == i,
                forall|j: int| 0 <= j < i ==> out@[j]@ == self.events@[j]@,
            decreases self.events@.len() - i,
        {
            out.push(GameEvent::new_from_new_game_event(self.events[i].duplicate()));
            i = i + 1;
        }
        proof {
            assert(events_view(out@) =~= new_events_view(self.events@));
        }
        (out, self.gid)
    }

    /// Marks every event from question `question_to_return_to` on as "DE", so that those
    /// questions can be recorded again; it always succeeds.
    pub fn then_remove_questions(self, question_to_return_to: i32) -> (r: Result<Self, Vec<String>>)
        ensures
            r matches Ok(b) && b@ == (StreamView { events: mark_from(self@.events, question_to_return_to as int), ..self@ }),
    {
        let mut new_events: Vec<NewGameEvent> = Vec::new();
        let mut i: usize = 0;
        while i < self.events.len()
            invariant
                i <= self.events@.len(),
                new_events@.len() == i,
                forall|j: int| 0 <= j < i ==> new_events@[j]@ == mark_from(new_events_view(self.events@), question_to_return_to as int)[j],
            decreases self.events@.len() - i,
        {
            if self.events[i].question >= question_to_return_to {
                new_events.push(self.events[i].with_event("DE"));
            } else {
                new_events.push(self.events[i].duplicate());
            }
            i = i + 1;
        }
        proof {
            assert(new_events_view(new_events@) =~= mark_from(new_events_view(self.events@), question_to_return_to as int));
        }
        Ok(GameEventStreamBuilder { events: new_events, ..self })
    }
}

} // verus!
