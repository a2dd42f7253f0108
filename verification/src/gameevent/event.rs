//! Game events: the stored record, the record to insert, the builder that checks a record
//! is complete, and the order in which a game's events are read.
use vstd::prelude::*;
use crate::clock::now_micros;
use crate::gameevent::code::{code_of, code_text, is_code, string_to_gameeventcode, GameEventCode};

verus! {

/// The characters of a game event; identifiers and times as integers.
pub struct GameEventView {
    pub gid: u128,
    pub question: i32,
    pub eventnum: i32,
    pub name: Seq<char>,
    pub team: i32,
    pub quizzer: i32,
    pub event: Seq<char>,
    pub parm1: Seq<char>,
    pub parm2: Seq<char>,
    pub clientts: i64,
    pub serverts: i64,
    pub md5digest: Seq<char>,
}

/// A stored game event. `gid` is the game's id as a 128-bit integer; the two
/// timestamps are microseconds since the Unix epoch.
#[derive(Clone, Debug)]
pub struct GameEvent {
    pub gid: u128,
    pub question: i32,
    pub eventnum: i32,
    pub name: String,
    pub team: i32,
    pub quizzer: i32,
    pub event: String,
    pub parm1: String,
    pub parm2: String,
    pub clientts: i64,
    pub serverts: i64,
    pub md5digest: String,
}

/// A game event about to be inserted; it carries the same fields as a stored one.
#[derive(Clone, Debug)]
pub struct NewGameEvent {
    pub gid: u128,
    pub question: i32,
    pub eventnum: i32,
    pub name: String,
    pub team: i32,
    pub quizzer: i32,
    pub event: String,
    pub parm1: String,
    pub parm2: String,
    pub clientts: i64,
    pub serverts: i64,
    pub md5digest: String,
}

impl View for GameEvent {
    type V = GameEventView;

    open spec fn view(&self) -> GameEventView {
        GameEventView {
            gid: self.gid,
            question: self.question,
            eventnum: self.eventnum,
            name: self.name@,
            team: self.team,
            quizzer: self.quizzer,
            event: self.event@,
            parm1: self.parm1@,
            parm2: self.parm2@,
            clientts: self.clientts,
            serverts: self.serverts,
            md5digest: self.md5digest@,
        }
    }
}

impl View for NewGameEvent {
    type V = GameEventView;

    open spec fn view(&self) -> GameEventView {
        GameEventView {
            gid: self.gid,
            question: self.question,
            eventnum: self.eventnum,
            name: self.name@,
            team: self.team,
            quizzer: self.quizzer,
            event: self.event@,
            parm1: self.parm1@,
            parm2: self.parm2@,
            clientts: self.clientts,
            serverts: self.serverts,
            md5digest: self.md5digest@,
        }
    }
}

/// The views of a list of events.
pub open spec fn events_view(v: Seq<GameEvent>) -> Seq<GameEventView> {
    v.map_values(|e: GameEvent| e@)
}

/// The views of a list of events to insert.
pub open spec fn new_events_view(v: Seq<NewGameEvent>) -> Seq<GameEventView> {
    v.map_values(|e: NewGameEvent| e@)
}

/// `e` with its code replaced.
pub open spec fn with_event_text(e: GameEventView, code: Seq<char>) -> GameEventView {
    GameEventView { event: code, ..e }
}

impl GameEvent {
    /// A stored event with the fields of an event to insert.
    pub fn new_from_new_game_event(new_game_event: NewGameEvent) -> (r: Self)
        ensures
            r@ == new_game_event@,
    {
        GameEvent {
            gid: new_game_event.gid,
            question: new_game_event.question,
            eventnum: new_game_event.eventnum,
            name: new_game_event.name,
            team: new_game_event.team,
            quizzer: new_game_event.quizzer,
            event: new_game_event.event,
            parm1: new_game_event.parm1,
            parm2: new_game_event.parm2,
            clientts: new_game_event.clientts,
            serverts: new_game_event.serverts,
            md5digest: new_game_event.md5digest,
        }
    }

    /// A copy of the event.
    pub fn duplicate(&self) -> (r: Self)
        ensures
            r@ == self@,
    {
        GameEvent {
            gid: self.gid,
            question: self.question,
            eventnum: self.eventnum,
            name: self.name.clone(),
            team: self.team,
            quizzer: self.quizzer,
            event: self.event.clone(),
            parm1: self.parm1.clone(),
            parm2: self.parm2.clone(),
            clientts: self.clientts,
            serverts: self.serverts,
            md5digest: self.md5digest.clone(),
        }
    }
}

impl NewGameEvent {
    /// A copy of the event.
    pub fn duplicate(&self) -> (r: Self)
        ensures
            r@ == self@,
    {
        NewGameEvent {
            gid: self.gid,
            question: self.question,
            eventnum: self.eventnum,
            name: self.name.clone(),
            team: self.team,
            quizzer: self.quizzer,
            event: self.event.clone(),
            parm1: self.parm1.clone(),
            parm2: self.parm2.clone(),
            clientts: self.clientts,
            serverts: self.serverts,
            md5digest: self.md5digest.clone(),
        }
    }

    /// A copy of the event with its code replaced by `code`.
    pub fn with_event(&self, code: &str) -> (r: Self)
        ensures
            r@ == with_event_text(self@, code@),
    {
        NewGameEvent {
            gid: self.gid,
            question: self.question,
            eventnum: self.eventnum,
            name: self.name.clone(),
            team: self.team,
            quizzer: self.quizzer,
            event: String::from_str(code),
            parm1: self.parm1.clone(),
            parm2: self.parm2.clone(),
            clientts: self.clientts,
            serverts: self.serverts,
            md5digest: self.md5digest.clone(),
        }
    }
}

// ─── The order of events ────────────────────────────────────────────────────

/// `a` comes no later than `b`: by question, then by event number.
pub open spec fn event_le(a: GameEventView, b: GameEventView) -> bool {
    a.question < b.question || (a.question == b.question && a.eventnum <= b.eventnum)
}

/// `e` placed into `s` after every event that comes no later than it, scanning from the end.
pub open spec fn insert_in_order(s: Seq<GameEventView>, e: GameEventView) -> Seq<GameEventView>
    decreases s.len(),
{
    if s.len() == 0 {
        seq![e]
    } else if event_le(s.last(), e) {
        s.push(e)
    } else {
        insert_in_order(s.drop_last(), e).push(s.last())
    }
}

/// The events in order of question and event number; events that tie keep their order
/// (a stable sort).
pub open spec fn sort_events(s: Seq<GameEventView>) -> Seq<GameEventView>
    decreases s.len(),
{
    if s.len() == 0 {
        s
    } else {
        insert_in_order(sort_events(s.drop_last()), s.last())
    }
}

/// The events come in order.
pub open spec fn events_in_order(s: Seq<GameEventView>) -> bool {
    forall|i: int, j: int| 0 <= i < j < s.len() ==> event_le(s[i], s[j])
}

proof fn lemma_insert_in_order_at(s: Seq<GameEventView>, e: GameEventView, j: int)
    requires
        0 <= j <= s.len(),
        forall|m: int| j <= m < s.len() ==> !event_le(#[trigger] s[m], e),
        j == 0 || event_le(s[j - 1], e),
    ensures
        insert_in_order(s, e) == s.insert(j, e),
    decreases s.len(),
{
    if s.len() == 0 {
        assert(s.insert(j, e) =~= seq![e]);
    } else if j == s.len() {
        assert(s.insert(j, e) =~= s.push(e));
    } else {
        assert(!event_le(s[s.len() - 1], e));
        let t = s.drop_last();
        assert forall|m: int| j <= m < t.len() implies !event_le(#[trigger] t[m], e) by {
            assert(t[m] == s[m]);
        }
        lemma_insert_in_order_at(t, e, j);
        assert(t.insert(j, e).push(s.last()) =~= s.insert(j, e));
    }
}

/// Inserting keeps the order and keeps the same events.
pub proof fn lemma_insert_in_order_props(s: Seq<GameEventView>, e: GameEventView)
    requires
        events_in_order(s),
    ensures
        events_in_order(insert_in_order(s, e)),
        insert_in_order(s, e).to_multiset() == s.to_multiset().insert(e),
        insert_in_order(s, e).len() == s.len() + 1,
    decreases s.len(),
{
    broadcast use vstd::seq_lib::group_to_multiset_ensures;
    if s.len() == 0 {
        assert(seq![e] =~= Seq::<GameEventView>::empty().push(e));
    } else if event_le(s.last(), e) {
        let r = s.push(e);
        assert forall|i: int, j: int| 0 <= i < j < r.len() implies event_le(r[i], r[j]) by {
            if j == s.len() && i < s.len() - 1 {
                assert(event_le(s[i], s[s.len() - 1]));
            }
        }
    } else {
        let t = s.drop_last();
        assert(events_in_order(t));
        lemma_insert_in_order_props(t, e);
        let r = insert_in_order(t, e);
        assert(s =~= t.push(s.last()));
        assert forall|i: int, j: int| 0 <= i < j < r.push(s.last()).len() implies event_le(
            r.push(s.last())[i],
            r.push(s.last())[j],
        ) by {
            if j == r.len() {
                let x = r[i];
                assert(r.to_multiset().count(x) > 0);
                if x == e {
                } else {
                    assert(t.to_multiset().count(x) > 0);
                    let k = choose|k: int| 0 <= k < t.len() && t[k] == x;
                    assert(s[k] == x);
                }
            }
        }
    }
}

/// Sorting puts the events in order and keeps the same events.
pub proof fn lemma_sort_events_props(s: Seq<GameEventView>)
    ensures
        events_in_order(sort_events(s)),
        sort_events(s).to_multiset() == s.to_multiset(),
        sort_events(s).len() == s.len(),
    decreases s.len(),
{
    broadcast use vstd::seq_lib::group_to_multiset_ensures;
    if s.len() > 0 {
        lemma_sort_events_props(s.drop_last());
        lemma_insert_in_order_props(sort_events(s.drop_last()), s.last());
        assert(s =~= s.drop_last().push(s.last()));
    }
}

/// The events in order of question and event number, ties kept in their order.
pub fn sort_game_events(events: &Vec<GameEvent>) -> (r: Vec<GameEvent>)
    ensures
        events_view(r@) == sort_events(events_view(events@)),
{
    let mut out: Vec<GameEvent> = Vec::new();
    let mut i: usize = 0;
    while i < events.len()
        invariant
            i <= events@.len(),
            events_view(out@) == sort_events(events_view(events@).take(i as int)),
        decreases events@.len() - i,
    {
        let e = events[i].duplicate();
        let ghost prefix = events_view(events@).take(i as int);
        let ghost sorted = events_view(out@);
        let mut j: usize = out.len();
        while j > 0 && !(out[j - 1].question < e.question
            || (out[j - 1].question == e.question && out[j - 1].eventnum <= e.eventnum))
            invariant
                j <= out@.len(),
                events_view(out@) == sorted,
                forall|m: int| j <= m < sorted.len() ==> !event_le(#[trigger] sorted[m], e@),
            decreases j,
        {
            j = j - 1;
        }
        proof {
            lemma_insert_in_order_at(sorted, e@, j as int);
        }
        out.insert(j, e);
        proof {
            let t = events_view(events@).take(i + 1);
            assert(t.drop_last() =~= prefix);
            assert(t.last() == events@[i as int]@);
            assert(events_view(out@) =~= sorted.insert(j as int, events@[i as int]@));
        }
        i = i + 1;
    }
    proof {
        assert(events_view(events@).take(events@.len() as int) =~= events_view(events@));
    }
    out
}

// ─── The builder ────────────────────────────────────────────────────────────

/// Collects the fields of a game event and checks that the required ones are given.
pub struct GameEventBuilder {
    pub gid: u128,
    pub question: Option<i32>,
    pub eventnum: Option<i32>,
    pub name: Option<String>,
    pub team: Option<i32>,
    pub quizzer: Option<i32>,
    pub event: Option<GameEventCode>,
    pub parm1: Option<String>,
    pub parm2: Option<String>,
    pub clientts: Option<i64>,
    pub md5digest: Option<String>,
}

/// A message in a list when a condition holds, and nothing otherwise.
pub open spec fn msg_if(c: bool, m: Seq<char>) -> Seq<Seq<char>> {
    if c { seq![m] } else { seq![] }
}

/// The messages for the required fields of a game event builder that are not given, in order.
pub open spec fn game_event_builder_missing(b: GameEventBuilder) -> Seq<Seq<char>> {
    msg_if(b.question is None, "question is required"@)
    + msg_if(b.eventnum is None, "eventnum is required"@)
    + msg_if(b.name is None, "name is required"@)
    + msg_if(b.team is None, "team is required"@)
    + msg_if(b.quizzer is None, "quizzer is required"@)
    + msg_if(b.event is None, "org is required"@)
    + msg_if(b.clientts is None, "clientts is required"@)
    + msg_if(b.md5digest is None, "md5digest is required"@)
}

/// The text of an optional string, the empty text when absent.
pub open spec fn opt_text(s: Option<String>) -> Seq<char> {
    match s {
        Some(t) => t@,
        None => Seq::empty(),
    }
}

/// The event that a complete builder yields, up to its server timestamp.
pub open spec fn game_event_builder_result(b: GameEventBuilder, serverts: i64) -> GameEventView {
    GameEventView {
        gid: b.gid,
        question: b.question.unwrap(),
        eventnum: b.eventnum.unwrap(),
        name: b.name.unwrap()@,
        team: b.team.unwrap(),
        quizzer: b.quizzer.unwrap(),
        event: code_text(b.event.unwrap()),
        parm1: opt_text(b.parm1),
        parm2: opt_text(b.parm2),
        clientts: b.clientts.unwrap(),
        serverts: serverts,
        md5digest: b.md5digest.unwrap()@,
    }
}

/// Appends `m` to `errors` when `c` holds.
pub(crate) fn push_if(errors: &mut Vec<String>, c: bool, m: &str)
    ensures
        final(errors)@.map_values(|s: String| s@) == old(errors)@.map_values(|s: String| s@)
            + msg_if(c, m@),
{
    if c {
        errors.push(String::from_str(m));
    }
    proof {
        assert(final(errors)@.map_values(|s: String| s@) =~= old(errors)@.map_values(|s: String| s@)
            + msg_if(c, m@));
    }
}

/// The texts of a list of strings.
pub open spec fn texts(v: Seq<String>) -> Seq<Seq<char>> {
    v.map_values(|s: String| s@)
}

impl GameEventBuilder {
    /// A builder for an event of game `game_id` with nothing given.
    pub fn new(game_id: u128) -> (r: Self)
        ensures
            r.gid == game_id,
            r.question is None && r.eventnum is None && r.name is None && r.team is None,
            r.quizzer is None && r.event is None && r.parm1 is None && r.parm2 is None,
            r.clientts is None && r.md5digest is None,
    {
        GameEventBuilder {
            gid: game_id,
            question: None,
            eventnum: None,
            name: None,
            team: None,
            quizzer: None,
            event: None,
            parm1: None,
            parm2: None,
            clientts: None,
            md5digest: None,
        }
    }

    /// A builder for an event of game `game_id` with empty parameters and digest and the
    /// client time taken now.
    pub fn new_default(game_id: u128) -> (r: Self)
        ensures
            r.gid == game_id,
            r.question is None && r.eventnum is None && r.name is None && r.team is None,
            r.quizzer is None && r.event is None,
            r.parm1 is Some && r.parm1.unwrap()@ == Seq::<char>::empty(),
            r.parm2 is Some && r.parm2.unwrap()@ == Seq::<char>::empty(),
            r.clientts is Some,
            r.md5digest is Some && r.md5digest.unwrap()@ == Seq::<char>::empty(),
    {
        GameEventBuilder {
            gid: game_id,
            question: None,
            eventnum: None,
            name: None,
            team: None,
            quizzer: None,
            event: None,
            parm1: Some(String::new()),
            parm2: Some(String::new()),
            clientts: Some(now_micros()),
            md5digest: Some(String::new()),
        }
    }

    /// A builder with every field given: the nil game, -1 for the numbers, empty texts, the
    /// code named by `event` and the client time taken now. `event` must name a code.
    pub fn new_empty(event: String) -> (r: Self)
        requires
            is_code(event@),
        ensures
            r.gid == 0,
            r.question == Some(-1i32) && r.eventnum == Some(-1i32),
            r.team == Some(-1i32) && r.quizzer == Some(-1i32),
            r.name is Some && r.name.unwrap()@ == Seq::<char>::empty(),
            r.event == code_of(event@),
            r.parm1 is Some && r.parm1.unwrap()@ == Seq::<char>::empty(),
            r.parm2 is Some && r.parm2.unwrap()@ == Seq::<char>::empty(),
            r.clientts is Some,
            r.md5digest is Some && r.md5digest.unwrap()@ == Seq::<char>::empty(),
    {
        GameEventBuilder {
            gid: crate::clock::nil_id(),
            question: Some(-1),
            eventnum: Some(-1),
            name: Some(String::new()),
            team: Some(-1),
            quizzer: Some(-1),
            event: Some(string_to_gameeventcode(event.as_str())),
            parm1: Some(String::new()),
            parm2: Some(String::new()),
            clientts: Some(now_micros()),
            md5digest: Some(String::new()),
        }
    }

    pub fn set_gid(self, val: u128) -> (r: Self)
        ensures
            r == (GameEventBuilder { gid: val, ..self }),
    {
        GameEventBuilder { gid: val, ..self }
    }

    pub fn set_question(self, val: Option<i32>) -> (r: Self)
        ensures
            r == (GameEventBuilder { question: val, ..self }),
    {
        GameEventBuilder { question: val, ..self }
    }

    pub fn set_eventnum(self, val: Option<i32>) -> (r: Self)
        ensures
            r == (GameEventBuilder { eventnum: val, ..self }),
    {
        GameEventBuilder { eventnum: val, ..self }
    }

    pub fn set_name(self, val: Option<String>) -> (r: Self)
        ensures
            r == (GameEventBuilder { name: val, ..self }),
    {
        GameEventBuilder { name: val, ..self }
    }

    pub fn set_team(self, val: Option<i32>) -> (r: Self)
        ensures
            r == (GameEventBuilder { team: val, ..self }),
    {
        GameEventBuilder { team: val, ..self }
    }

    pub fn set_quizzer(self, val: Option<i32>) -> (r: Self)
        ensures
            r == (GameEventBuilder { quizzer: val, ..self }),
    {
        GameEventBuilder { quizzer: val, ..self }
    }

    pub fn set_event(self, val: Option<GameEventCode>) -> (r: Self)
        ensures
            r == (GameEventBuilder { event: val, ..self }),
    {
        GameEventBuilder { event: val, ..self }
    }

    /// Sets the code named by `val`, which must name one.
    pub fn set_event_using_string(self, val: String) -> (r: Self)
        requires
            is_code(val@),
        ensures
            r == (GameEventBuilder { event: code_of(val@), ..self }),
    {
        let c = string_to_gameeventcode(val.as_str());
        GameEventBuilder { event: Some(c), ..self }
    }

    pub fn set_parm1(self, val: Option<String>) -> (r: Self)
        ensures
            r == (GameEventBuilder { parm1: val, ..self }),
    {
        GameEventBuilder { parm1: val, ..self }
    }

    pub fn set_parm2(self, val: Option<String>) -> (r: Self)
        ensures
            r == (GameEventBuilder { parm2: val, ..self }),
    {
        GameEventBuilder { parm2: val, ..self }
    }

    pub fn set_clientts(self, val: Option<i64>) -> (r: Self)
        ensures
            r == (GameEventBuilder { clientts: val, ..self }),
    {
        GameEventBuilder { clientts: val, ..self }
    }

    pub fn set_md5digest(self, val: Option<String>) -> (r: Self)
        ensures
            r == (GameEventBuilder { md5digest: val, ..self }),
    {
        GameEventBuilder { md5digest: val, ..self }
    }

    /// Succeeds when every required field is given; else fails with a message per missing field.
    pub fn validate_all_are_some(&self) -> (r: Result<(), Vec<String>>)
        ensures
            r is Ok <==> game_event_builder_missing(*self).len() == 0,
            r matches Err(e) ==> texts(e@) == game_event_builder_missing(*self),
    {
        let mut errors: Vec<String> = Vec::new();
        push_if(&mut errors, self.question.is_none(), "question is required");
        push_if(&mut errors, self.eventnum.is_none(), "eventnum is required");
        push_if(&mut errors, self.name.is_none(), "name is required");
        push_if(&mut errors, self.team.is_none(), "team is required");
        push_if(&mut errors, self.quizzer.is_none(), "quizzer is required");
        push_if(&mut errors, self.event.is_none(), "org is required");
        push_if(&mut errors, self.clientts.is_none(), "clientts is required");
        push_if(&mut errors, self.md5digest.is_none(), "md5digest is required");
        proof {
            assert(texts(errors@) =~= game_event_builder_missing(*self));
        }
        if errors.len() > 0 {
            return Err(errors);
        }
        Ok(())
    }

    /// The event to insert, stamped with the server time now; or the messages for the
    /// missing fields.
    #[verifier::rlimit(30)]
    pub fn build(self) -> (r: Result<NewGameEvent, Vec<String>>)
        ensures
            r is Ok <==> game_event_builder_missing(self).len() == 0,
            r matches Err(e) ==> texts(e@) == game_event_builder_missing(self),
            r matches Ok(n) ==> n@ == game_event_builder_result(self, n.serverts),
    {
        match self.validate_all_are_some() {
            Err(e) => Err(e),
            Ok(_) => {
                let ghost b = self;
                let parm1 = match self.parm1 {
                    Some(p) => p,
                    None => String::new(),
                };
                let parm2 = match self.parm2 {
                    Some(p) => p,
                    None => String::new(),
                };
                Ok(
                    NewGameEvent {
                        gid: self.gid,
                        question: self.question.unwrap(),
                        eventnum: self.eventnum.unwrap(),
                        name: self.name.unwrap(),
                        team: self.team.unwrap(),
                        quizzer: self.quizzer.unwrap(),
                        event: self.event.unwrap().to_string(),
                        parm1: parm1,
                        parm2: parm2,
                        clientts: self.clientts.unwrap(),
                        serverts: now_micros(),
                        md5digest: self.md5digest.unwrap(),
                    },
                )
            },
        }
    }
}

} // verus!
