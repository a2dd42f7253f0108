//! A plausible, reproducible stream of demonstration events for a two-team game: the setup of
//! question 1, then twenty toss-ups drawn from a small generator seeded by the game's id.
use vstd::prelude::*;
use crate::clock::now_micros;
use crate::gameevent::code::GameEventCode;

verus! {

/// An event to seed: question, event number, name, team, seat, code, and client time
/// (microseconds since the Unix epoch).
pub struct SeedEvent {
    pub question: i32,
    pub eventnum: i32,
    pub name: String,
    pub team: i32,
    pub quizzer: i32,
    pub code: GameEventCode,
    pub clientts: i64,
}

/// A seeded event as values, its client time aside.
pub struct SeedEventView {
    pub question: int,
    pub eventnum: int,
    pub name: Seq<char>,
    pub team: int,
    pub quizzer: int,
    pub code: GameEventCode,
}

impl View for SeedEvent {
    type V = SeedEventView;

    open spec fn view(&self) -> SeedEventView {
        SeedEventView {
            question: self.question as int,
            eventnum: self.eventnum as int,
            name: self.name@,
            team: self.team as int,
            quizzer: self.quizzer as int,
            code: self.code,
        }
    }
}

pub open spec fn seed_event(question: int, eventnum: int, name: Seq<char>, team: int, quizzer: int, code: GameEventCode) -> SeedEventView {
    SeedEventView { question, eventnum, name, team, quizzer, code }
}

// ─── The generator ──────────────────────────────────────────────────────────

/// The multiplier and increment of the generator (those of Knuth's MMIX).
pub const LCG_MULTIPLIER: u64 = 6364136223846793005;
pub const LCG_INCREMENT: u64 = 1442695040888963407;

/// The generator's next state: multiply and add, wrapping at 2^64.
pub open spec fn lcg_next(x: u64) -> u64 {
    ((x as int * LCG_MULTIPLIER as int + LCG_INCREMENT as int) % 0x1_0000_0000_0000_0000) as u64
}

/// A draw below `n` (below 1 when `n` is 0): the new state, and its top 31 bits modulo `n`.
#[verifier::opaque]
pub open spec fn draw(x: u64, n: u64) -> (u64, u64) {
    let y = lcg_next(x);
    (y, (y >> 33u64) % (if n == 0 { 1u64 } else { n }))
}

/// The generator's first state: the two halves of the id combined.
pub open spec fn seed_of(gid: u128) -> u64 {
    (gid as u64) ^ ((gid >> 64u128) as u64)
}

/// A draw below `n`, and the generator's new state.
fn next_draw(state: &mut u64, n: u64) -> (r: u64)
    ensures
        (*final(state), r) == draw(*old(state), n),
        r < (if n == 0 { 1 } else { n }),
{
    proof {
        reveal(draw);
    }
    let x: u128 = *state as u128;
    proof {
        assert(x * 6364136223846793005 <= 0xffff_ffff_ffff_ffff * 6364136223846793005) by (nonlinear_arith)
            requires x <= 0xffff_ffff_ffff_ffff;
    }
    let wide: u128 = x * (LCG_MULTIPLIER as u128) + (LCG_INCREMENT as u128);
    let y: u64 = (wide % 0x1_0000_0000_0000_0000u128) as u64;
    *state = y;
    let m: u64 = if n == 0 { 1 } else { n };
    (y >> 33u64) % m
}

// ─── The plan ───────────────────────────────────────────────────────────────

/// The setup events of a team, in order: its name, each quizzer in seat order, its captain
/// (seat 0) and, when it has a second quizzer, its cocaptain (seat 1). The event numbers
/// continue from `ev`.
pub open spec fn team_setup(team: int, name: Seq<char>, quizzers: Seq<Seq<char>>, ev: int) -> Seq<SeedEventView> {
    seq![seed_event(1, ev, name, team, team, GameEventCode::TN)]
        + Seq::new(quizzers.len(), |i: int| seed_event(1, ev + 1 + i, quizzers[i], team, i, GameEventCode::QN))
        + seq![seed_event(1, ev + 1 + quizzers.len(), quizzers[0], team, 0, GameEventCode::SC)]
        + if quizzers.len() >= 2 {
            seq![seed_event(1, ev + 2 + quizzers.len(), quizzers[1], team, 1, GameEventCode::SS)]
        } else {
            Seq::<SeedEventView>::empty()
        }
}

/// The number of setup events of a team.
pub open spec fn team_setup_len(quizzers: Seq<Seq<char>>) -> int {
    quizzers.len() + 2 + if quizzers.len() >= 2 { 1int } else { 0int }
}

/// The setup of question 1: the rules, the quiz type, then each team's setup.
pub open spec fn setup_events(left: Seq<char>, lq: Seq<Seq<char>>, right: Seq<char>, rq: Seq<Seq<char>>) -> Seq<SeedEventView> {
    seq![
        seed_event(1, 0, "Tournament"@, 0, 0, GameEventCode::RM),
        seed_event(1, 1, "N"@, 0, 0, GameEventCode::QT),
    ]
        + team_setup(0, left, lq, 2)
        + team_setup(1, right, rq, 2 + team_setup_len(lq))
}

/// The events of question `q` drawn from state `s`, the first with event number `ev`, and the
/// state after: a team and one of its quizzers are drawn, then the outcome: a correct
/// toss-up (6 in 10), an error followed by the other team's bonus by a drawn quizzer, correct
/// or not by a draw (3 in 10), or no jump (1 in 10).
pub open spec fn question_events(s: u64, q: int, ev: int, lq: Seq<Seq<char>>, rq: Seq<Seq<char>>) -> (Seq<SeedEventView>, u64) {
    let (s1, team) = draw(s, 2);
    let qs = if team == 0 { lq } else { rq };
    let (s2, seat) = draw(s1, qs.len() as u64);
    let name = qs[seat as int];
    let (s3, kind) = draw(s2, 10);
    if kind <= 5 {
        (seq![seed_event(q, ev, name, team as int, seat as int, GameEventCode::TC)], s3)
    } else if kind <= 8 {
        let other = 1 - team as int;
        let oqs = if other == 0 { lq } else { rq };
        let (s4, oseat) = draw(s3, oqs.len() as u64);
        let (s5, b) = draw(s4, 2);
        (seq![
            seed_event(q, ev, name, team as int, seat as int, GameEventCode::TE),
            seed_event(q, ev + 1, oqs[oseat as int], other, oseat as int, if b == 0 { GameEventCode::BC } else { GameEventCode::BE }),
        ], s5)
    } else {
        (seq![seed_event(q, ev, "No Jump"@, 0, 0, GameEventCode::NJ)], s3)
    }
}

/// The events of questions 1 to `n` from state `s` (question 1 continuing after `ev0` setup
/// events), and the state after.
pub open spec fn questions_upto(s: u64, n: int, ev0: int, lq: Seq<Seq<char>>, rq: Seq<Seq<char>>) -> (Seq<SeedEventView>, u64)
    decreases n,
{
    if n <= 0 {
        (seq![], s)
    } else {
        let (evs, s1) = questions_upto(s, n - 1, ev0, lq, rq);
        let (more, s2) = question_events(s1, n, if n == 1 { ev0 } else { 0 }, lq, rq);
        (evs + more, s2)
    }
}

/// The questions of a seeded game.
pub const SEED_QUESTIONS: i32 = 20;

/// The events seeded for game `gid` between two teams: none unless both teams have a
/// quizzer; else the setup of question 1, then twenty toss-ups drawn from the generator
/// seeded by the id.
pub open spec fn seeded_events(gid: u128, left: Seq<char>, lq: Seq<Seq<char>>, right: Seq<char>, rq: Seq<Seq<char>>) -> Seq<SeedEventView> {
    if lq.len() == 0 || rq.len() == 0 {
        seq![]
    } else {
        let setup = setup_events(left, lq, right, rq);
        setup + questions_upto(seed_of(gid), SEED_QUESTIONS as int, setup.len() as int, lq, rq).0
    }
}

/// The view of a list of seeded events.
pub open spec fn seeds_view(v: Seq<SeedEvent>) -> Seq<SeedEventView> {
    v.map_values(|e: SeedEvent| e@)
}

fn push_event(out: &mut Vec<SeedEvent>, question: i32, eventnum: i32, name: &str, team: i32, quizzer: i32, code: GameEventCode)
    ensures
        seeds_view(final(out)@) == seeds_view(old(out)@).push(seed_event(question as int, eventnum as int, name@, team as int, quizzer as int, code)),
{
    out.push(SeedEvent { question, eventnum, name: String::from_str(name), team, quizzer, code, clientts: 0 });
    proof {
        assert(seeds_view(final(out)@) =~= seeds_view(old(out)@).push(seed_event(question as int, eventnum as int, name@, team as int, quizzer as int, code)));
    }
}

/// Appends a team's setup events, numbered from `ev`.
fn push_team_setup(out: &mut Vec<SeedEvent>, team: i32, name: &str, quizzers: &Vec<String>, ev: i32)
    requires
        quizzers@.len() > 0,
        0 <= ev,
        ev + quizzers@.len() + 3 < 1_000_000_000,
    ensures
        seeds_view(final(out)@) == seeds_view(old(out)@) + team_setup(team as int, name@, quizzers@.map_values(|s: String| s@), ev as int),
{
    let ghost q = quizzers@.map_values(|s: String| s@);
    let ghost start = seeds_view(out@);
    push_event(out, 1, ev, name, team, team, GameEventCode::TN);
    let ghost after_name = seeds_view(out@);
    let mut i: usize = 0;
    while i < quizzers.len()
        invariant
            i <= quizzers@.len(),
            q == quizzers@.map_values(|s: String| s@),
            ev + quizzers@.len() + 3 < 1_000_000_000,
            0 <= ev,
            seeds_view(out@) == after_name + Seq::new(i as nat, |k: int| seed_event(1, ev + 1 + k, q[k], team as int, k, GameEventCode::QN)),
        decreases quizzers@.len() - i,
    {
        let ghost before = seeds_view(out@);
        push_event(out, 1, ev + 1 + i as i32, quizzers[i].as_str(), team, i as i32, GameEventCode::QN);
        proof {
            assert(seeds_view(out@) =~= after_name + Seq::new((i + 1) as nat, |k: int| seed_event(1, ev + 1 + k, q[k], team as int, k, GameEventCode::QN)));
        }
        i = i + 1;
    }
    let n = quizzers.len() as i32;
    push_event(out, 1, ev + 1 + n, quizzers[0].as_str(), team, 0, GameEventCode::SC);
    if quizzers.len() >= 2 {
        push_event(out, 1, ev + 2 + n, quizzers[1].as_str(), team, 1, GameEventCode::SS);
    }
    proof {
        assert(seeds_view(out@) =~= start + team_setup(team as int, name@, q, ev as int));
    }
}

/// Appends the events of question `q` drawn from the generator, numbered from `ev`.
#[verifier::rlimit(40)]
fn push_question(out: &mut Vec<SeedEvent>, state: &mut u64, q: i32, ev: i32, left: &Vec<String>, right: &Vec<String>)
    requires
        0 < left@.len() < 1_000_000_000,
        0 < right@.len() < 1_000_000_000,
        0 <= ev < 1_000_000_000,
    ensures
        seeds_view(final(out)@) == seeds_view(old(out)@) + question_events(*old(state), q as int, ev as int, left@.map_values(|s: String| s@), right@.map_values(|s: String| s@)).0,
        *final(state) == question_events(*old(state), q as int, ev as int, left@.map_values(|s: String| s@), right@.map_values(|s: String| s@)).1,
{
    let ghost lq = left@.map_values(|s: String| s@);
    let ghost rq = right@.map_values(|s: String| s@);
    let ghost start = seeds_view(out@);
    let ghost s0 = *state;
    let team = next_draw(state, 2);
    let ghost s1 = *state;
    let qs = if team == 0 { left } else { right };
    let ghost qv = if team == 0 { lq } else { rq };
    let seat = next_draw(state, qs.len() as u64);
    let ghost s2 = *state;
    let kind = next_draw(state, 10);
    let ghost s3 = *state;
    proof {
        assert(qs@.map_values(|s: String| s@) == qv);
        assert(qv[seat as int] == qs@[seat as int]@);
        assert(draw(s0, 2) == (s1, team));
        assert(draw(s1, qv.len() as u64) == (s2, seat));
        assert(draw(s2, 10) == (s3, kind));
        assert(seat < qv.len());
        assert(seat as i32 as int == seat as int);
        assert(team as i32 as int == team as int);
    }
    if kind <= 5 {
        push_event(out, q, ev, qs[seat as usize].as_str(), team as i32, seat as i32, GameEventCode::TC);
        proof {
            let evs = seq![seed_event(q as int, ev as int, qv[seat as int], team as int, seat as int, GameEventCode::TC)];
            assert(question_events(s0, q as int, ev as int, lq, rq) == (evs, s3));
            assert(seeds_view(out@) =~= start + evs);
        }
    } else if kind <= 8 {
        push_event(out, q, ev, qs[seat as usize].as_str(), team as i32, seat as i32, GameEventCode::TE);
        let other: i32 = 1 - team as i32;
        let oqs = if other == 0 { left } else { right };
        let ghost oqv = if other == 0 { lq } else { rq };
        let oseat = next_draw(state, oqs.len() as u64);
        let ghost s4 = *state;
        let b = next_draw(state, 2);
        let ghost s5 = *state;
        let code = if b == 0 { GameEventCode::BC } else { GameEventCode::BE };
        proof {
            assert(oqs@.map_values(|s: String| s@) == oqv);
            assert(oqv[oseat as int] == oqs@[oseat as int]@);
            assert(draw(s3, oqv.len() as u64) == (s4, oseat));
            assert(draw(s4, 2) == (s5, b));
            assert(oseat as i32 as int == oseat as int);
        }
        push_event(out, q, ev + 1, oqs[oseat as usize].as_str(), other, oseat as i32, code);
        proof {
            let evs = seq![
                seed_event(q as int, ev as int, qv[seat as int], team as int, seat as int, GameEventCode::TE),
                seed_event(q as int, ev + 1, oqv[oseat as int], other as int, oseat as int, code),
            ];
            assert(question_events(s0, q as int, ev as int, lq, rq) == (evs, s5));
            assert(seeds_view(out@) =~= start + evs);
        }
    } else {
        push_event(out, q, ev, "No Jump", 0, 0, GameEventCode::NJ);
        proof {
            reveal_strlit("No Jump");
            let evs = seq![seed_event(q as int, ev as int, "No Jump"@, 0, 0, GameEventCode::NJ)];
            assert(question_events(s0, q as int, ev as int, lq, rq) == (evs, s3));
            assert(seeds_view(out@) =~= start + evs);
        }
    }
}

/// The time `i` minutes after `start` (microseconds), or the latest time when that is beyond
/// the range.
pub open spec fn minute_stamp(start: i64, i: int) -> i64 {
    if start + 60_000_000 * i > i64::MAX {
        i64::MAX
    } else {
        (start + 60_000_000 * i) as i64
    }
}

/// Stamps the events one minute apart, the first at `start`.
fn stamp_one_minute_apart(events: Vec<SeedEvent>, start: i64) -> (r: Vec<SeedEvent>)
    requires
        events@.len() < 1_000_000_000,
    ensures
        seeds_view(r@) == seeds_view(events@),
        forall|i: int| 0 <= i < r@.len() ==> (#[trigger] r@[i]).clientts == minute_stamp(start, i),
{
    let ghost v0 = seeds_view(events@);
    let ghost n0 = events@.len();
    let mut rest = events;
    let mut out: Vec<SeedEvent> = Vec::new();
    while rest.len() > 0
        invariant
            n0 < 1_000_000_000,
            out@.len() + rest@.len() == n0,
            seeds_view(out@) + seeds_view(rest@) == v0,
            forall|i: int| 0 <= i < out@.len() ==> (#[trigger] out@[i]).clientts == minute_stamp(start, i),
        decreases rest@.len(),
    {
        let ghost before_out = seeds_view(out@);
        let ghost before_rest = seeds_view(rest@);
        let mut e = rest.remove(0);
        let i: i64 = out.len() as i64;
        let d: i64 = 60_000_000 * i;
        e.clientts = if start > i64::MAX - d { i64::MAX } else { start + d };
        out.push(e);
        proof {
            assert(before_rest[0] == e@);
            assert(seeds_view(rest@) =~= before_rest.drop_first());
            assert(seeds_view(out@) =~= before_out.push(e@));
            assert(seeds_view(out@) + seeds_view(rest@) =~= before_out + before_rest);
        }
    }
    proof {
        assert(seeds_view(rest@) =~= Seq::<SeedEventView>::empty());
        assert(seeds_view(out@) =~= v0);
    }
    out
}

/// The events to seed for game `gid` between the left team `left_team` and the right team
/// `right_team`, given each team's quizzer names (as `team_quizzer_names` gives them): none
/// unless both teams have a quizzer; else the setup of question 1 (rules, quiz type, and for
/// each team its name, its quizzers in seat order, its captain and cocaptain), then twenty
/// toss-ups drawn from a generator seeded by the id, so that a game's stream is reproducible.
/// The events are stamped one minute apart, the first with the time of the call.
pub fn seed_game_events(gid: u128, left_team: &str, left_quizzers: &Vec<String>, right_team: &str, right_quizzers: &Vec<String>) -> (r: Vec<SeedEvent>)
    requires
        left_quizzers@.len() + right_quizzers@.len() < 900_000_000,
    ensures
        seeds_view(r@) == seeded_events(gid, left_team@, left_quizzers@.map_values(|s: String| s@), right_team@, right_quizzers@.map_values(|s: String| s@)),
        forall|i: int| 0 <= i < r@.len() ==> (#[trigger] r@[i]).clientts == minute_stamp(r@[0].clientts, i),
{
    let ghost lq = left_quizzers@.map_values(|s: String| s@);
    let ghost rq = right_quizzers@.map_values(|s: String| s@);
    let mut out: Vec<SeedEvent> = Vec::new();
    if left_quizzers.len() == 0 || right_quizzers.len() == 0 {
        proof {
            assert(seeds_view(out@) =~= Seq::<SeedEventView>::empty());
        }
        return out;
    }
    push_event(&mut out, 1, 0, "Tournament", 0, 0, GameEventCode::RM);
    push_event(&mut out, 1, 1, "N", 0, 0, GameEventCode::QT);
    push_team_setup(&mut out, 0, left_team, left_quizzers, 2);
    let left_len: i32 = left_quizzers.len() as i32 + 2 + if left_quizzers.len() >= 2 { 1 } else { 0 };
    push_team_setup(&mut out, 1, right_team, right_quizzers, 2 + left_len);
    let ev0: i32 = out.len() as i32;
    let ghost setup = setup_events(left_team@, lq, right_team@, rq);
    proof {
        reveal_strlit("Tournament");
        reveal_strlit("N");
        assert(seeds_view(out@) =~= setup);
    }
    let mut state: u64 = (gid as u64) ^ ((gid >> 64u128) as u64);
    let mut q: i32 = 1;
    proof {
        assert(questions_upto(seed_of(gid), 0, ev0 as int, lq, rq).0 =~= Seq::<SeedEventView>::empty());
        assert(seeds_view(out@) =~= setup + questions_upto(seed_of(gid), 0, ev0 as int, lq, rq).0);
    }
    while q <= SEED_QUESTIONS
        invariant
            1 <= q <= SEED_QUESTIONS + 1,
            0 < left_quizzers@.len() < 1_000_000_000,
            0 < right_quizzers@.len() < 1_000_000_000,
            0 <= ev0 < 1_000_000_000,
            lq == left_quizzers@.map_values(|s: String| s@),
            rq == right_quizzers@.map_values(|s: String| s@),
            seeds_view(out@) == setup + questions_upto(seed_of(gid), q - 1, ev0 as int, lq, rq).0,
            state == questions_upto(seed_of(gid), q - 1, ev0 as int, lq, rq).1,
        decreases SEED_QUESTIONS + 1 - q,
    {
        let ev: i32 = if q == 1 { ev0 } else { 0 };
        let ghost before = seeds_view(out@);
        push_question(&mut out, &mut state, q, ev, left_quizzers, right_quizzers);
        proof {
            let prev = questions_upto(seed_of(gid), q - 1, ev0 as int, lq, rq);
            let qe = question_events(prev.1, q as int, ev as int, lq, rq);
            assert(questions_upto(seed_of(gid), q as int, ev0 as int, lq, rq) == (prev.0 + qe.0, qe.1));
            assert(seeds_view(out@) =~= setup + (prev.0 + qe.0));
        }
        q = q + 1;
    }
    proof {
        lemma_questions_len(seed_of(gid), SEED_QUESTIONS as int, ev0 as int, lq, rq);
        assert(seeds_view(out@).len() == out@.len());
    }
    let r = stamp_one_minute_apart(out, now_micros());
    proof {
        if r@.len() > 0 {
            assert(r@[0].clientts == minute_stamp(r@[0].clientts, 0));
        }
    }
    r
}

/// Each question seeds one or two events.
proof fn lemma_questions_len(s: u64, n: int, ev0: int, lq: Seq<Seq<char>>, rq: Seq<Seq<char>>)
    ensures
        questions_upto(s, n, ev0, lq, rq).0.len() <= 2 * (if n < 0 { 0 } else { n }),
    decreases n,
{
    if n > 0 {
        lemma_questions_len(s, n - 1, ev0, lq, rq);
    }
}

// ─── What the seeded toss-ups name ──────────────────────────────────────────

/// The quizzer names of team `team` (0 the left team, 1 the right).
pub open spec fn team_list(team: int, lq: Seq<Seq<char>>, rq: Seq<Seq<char>>) -> Seq<Seq<char>> {
    if team == 0 { lq } else { rq }
}

/// Whether a seeded event is a no-jump, or names the quizzer who sits in its seat on its team.
pub open spec fn names_its_seat(e: SeedEventView, lq: Seq<Seq<char>>, rq: Seq<Seq<char>>) -> bool {
    if e.code == GameEventCode::NJ {
        e.name == "No Jump"@ && e.team == 0 && e.quizzer == 0
    } else {
        &&& e.team == 0 || e.team == 1
        &&& 0 <= e.quizzer < team_list(e.team, lq, rq).len()
        &&& e.name == team_list(e.team, lq, rq)[e.quizzer]
    }
}

proof fn lemma_draw_below(x: u64, n: u64)
    requires
        n > 0,
    ensures
        draw(x, n).1 < n,
{
    reveal(draw);
}

proof fn lemma_question_names_seats(s: u64, q: int, ev: int, lq: Seq<Seq<char>>, rq: Seq<Seq<char>>)
    requires
        lq.len() > 0,
        rq.len() > 0,
        lq.len() <= u64::MAX,
        rq.len() <= u64::MAX,
    ensures
        forall|k: int| 0 <= k < question_events(s, q, ev, lq, rq).0.len()
            ==> names_its_seat(#[trigger] question_events(s, q, ev, lq, rq).0[k], lq, rq),
{
    let (s1, team) = draw(s, 2);
    lemma_draw_below(s, 2);
    let qs = if team == 0 { lq } else { rq };
    let (s2, seat) = draw(s1, qs.len() as u64);
    lemma_draw_below(s1, qs.len() as u64);
    let (s3, kind) = draw(s2, 10);
    let other = 1 - team as int;
    let oqs = if other == 0 { lq } else { rq };
    let (s4, oseat) = draw(s3, oqs.len() as u64);
    lemma_draw_below(s3, oqs.len() as u64);
    reveal_strlit("No Jump");
}

/// Every seeded toss-up event is a no-jump or names the quizzer in its seat on its team: the
/// team drawn is 0 or 1, and the seat drawn is one of that team's.
pub proof fn law_seeded_toss_ups_name_the_seated_quizzer(s: u64, n: int, ev0: int, lq: Seq<Seq<char>>, rq: Seq<Seq<char>>)
    requires
        lq.len() > 0,
        rq.len() > 0,
        lq.len() <= u64::MAX,
        rq.len() <= u64::MAX,
    ensures
        forall|k: int| 0 <= k < questions_upto(s, n, ev0, lq, rq).0.len()
            ==> names_its_seat(#[trigger] questions_upto(s, n, ev0, lq, rq).0[k], lq, rq),
    decreases n,
{
    if n > 0 {
        law_seeded_toss_ups_name_the_seated_quizzer(s, n - 1, ev0, lq, rq);
        let (evs, s1) = questions_upto(s, n - 1, ev0, lq, rq);
        let ev = if n == 1 { ev0 } else { 0 };
        lemma_question_names_seats(s1, n, ev, lq, rq);
        let more = question_events(s1, n, ev, lq, rq).0;
        assert forall|k: int| 0 <= k < questions_upto(s, n, ev0, lq, rq).0.len()
            implies names_its_seat(#[trigger] questions_upto(s, n, ev0, lq, rq).0[k], lq, rq) by {
            assert(questions_upto(s, n, ev0, lq, rq).0 == evs + more);
            if k < evs.len() {
                assert(evs[k] == (evs + more)[k]);
            } else {
                assert(more[k - evs.len()] == (evs + more)[k]);
            }
        }
    }
}

} // verus!
