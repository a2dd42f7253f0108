//! Scoring that says when the events cannot be scored: an event names a code that is not
//! known, or a team or seat that holds no one when the event is read.
use vstd::prelude::*;
use crate::gameevent::calc_spec::{
    calc_run, calc_step, calculate, competitive_ranks, tie_exists, with_score, CalcOutcome, CalcStep, TeamView,
    DEFAULT_QUESTIONS_PER_GAME,
};
use crate::gameevent::calculator::{
    calc_fits, calc_inputs_fit, calc_result_matches, clone_events, tie_exists_exec, GameEventCalculator, MAX_GAME_EVENTS,
};
use crate::gameevent::code::{parse_gameeventcode, GameEventCode};
use crate::gameevent::event::{events_view, sort_game_events, texts, GameEvent, GameEventView};
use crate::seats::{
    find_seat, lemma_insert_existing, lemma_seat_pos_same_keys, lemma_seats_view, same_keys, seat_get, seat_has,
    seat_insert, seat_pos,
};

verus! {

/// Ranking the teams keeps where each team is found and its quizzers.
proof fn lemma_rank_keeps_quizzers(ts: Seq<(i32, TeamView)>, k: i32, v: TeamView)
    requires
        seat_has(ts, k),
    ensures
        seat_has(competitive_ranks(seat_insert(ts, k, v)), k),
        seat_get(competitive_ranks(seat_insert(ts, k, v)), k).quizzers == v.quizzers,
{
    lemma_insert_existing(ts, k, v);
    let up = seat_insert(ts, k, v);
    let r = competitive_ranks(up);
    assert(r.len() == up.len());
    assert forall|i: int| 0 <= i < up.len() implies up[i].0 == r[i].0 by {
        assert(r[i].0 == up[i].0);
    }
    assert(same_keys(up, r));
    lemma_seat_pos_same_keys(up, r, k);
    let p = seat_pos(up, k);
    crate::seats::lemma_seat_pos_bounds(up, k);
    assert(up[p].0 == k);
    assert(r[p].0 == up[p].0);
    assert(r[p].1.quizzers == up[p].1.quizzers);
    assert(up[p].1 == v);
}

impl GameEventCalculator {
    /// Whether reading `e` now cannot go on: its code is not known, or it names a team, or a
    /// quizzer's seat, that holds no one (past the regulation questions with no tie, a
    /// toss-up ruling is refused instead).
    pub fn step_gets_stuck(&self, e: &GameEvent, zone: i32) -> (r: bool)
        ensures
            r == (calc_step(self.state(), e@, zone as int) is Stuck),
    {
        let ghost st = self.state();
        proof {
            lemma_seats_view(self.teams@, e.team);
        }
        let code = parse_gameeventcode(e.event.as_str());
        let c = match code {
            None => {
                return true;
            },
            Some(c) => c,
        };
        let team = find_seat(&self.teams, e.team);
        let quizzer_missing = match team {
            None => true,
            Some(i) => {
                proof {
                    assert(seat_get(st.teams, e.team) == self.teams@[i as int].1@);
                    lemma_seats_view(self.teams@[i as int].1.quizzers@, e.quizzer);
                }
                find_seat(&self.teams[i].1.quizzers, e.quizzer).is_none()
            },
        };
        match c {
            GameEventCode::QN | GameEventCode::SC | GameEventCode::SS | GameEventCode::Cminus | GameEventCode::FC
            | GameEventCode::TO | GameEventCode::SB => team.is_none(),
            GameEventCode::BC | GameEventCode::BE | GameEventCode::QO | GameEventCode::EO | GameEventCode::Fminus => {
                quizzer_missing
            },
            GameEventCode::TC => {
                if team.is_none() {
                    true
                } else if self.current_question > DEFAULT_QUESTIONS_PER_GAME {
                    if !tie_exists_exec(&self.teams) {
                        false
                    } else {
                        proof {
                            let t = seat_get(st.teams, e.team);
                            lemma_rank_keeps_quizzers(
                                st.teams,
                                e.team,
                                with_score(t, t.score + st.options.point_award_for_correct_tossup as int),
                            );
                        }
                        quizzer_missing
                    }
                } else {
                    quizzer_missing
                }
            },
            GameEventCode::TE => {
                if self.current_question > DEFAULT_QUESTIONS_PER_GAME {
                    if !tie_exists_exec(&self.teams) {
                        false
                    } else if team.is_none() {
                        true
                    } else {
                        proof {
                            let t = seat_get(st.teams, e.team);
                            lemma_rank_keeps_quizzers(
                                st.teams,
                                e.team,
                                with_score(t, t.score - st.options.point_deduction_for_error_on_tossup as int),
                            );
                        }
                        quizzer_missing
                    }
                } else {
                    quizzer_missing
                }
            },
            _ => false,
        }
    }

    /// Scores the events as `calculate_current_game_scores_and_counts` does, saying first
    /// when they cannot be scored: `None` exactly when the calculation gets stuck on an event.
    pub fn calculate_checked(self) -> (r: Option<Result<Self, Vec<String>>>)
        requires
            calc_inputs_fit(events_view(self.game_events@)),
        ensures
            r is None <==> calculate(events_view(self.game_events@), self.options.start_error_zone_deductions as int) is Stuck,
            r matches Some(x) ==> calc_result_matches(
                events_view(self.game_events@),
                self.options.start_error_zone_deductions as int,
                self.game_id,
                x,
            ),
    {
        let ghost all = events_view(self.game_events@);
        let zone = self.options.start_error_zone_deductions;
        let mut errors: Vec<String> = Vec::new();
        let mut mut_self = GameEventCalculator::new(self.game_id, clone_events(&self.game_events));
        let game_events = sort_game_events(&self.game_events);
        let ghost sorted = events_view(game_events@);
        proof {
            broadcast use vstd::seq_lib::group_to_multiset_ensures;
            crate::gameevent::event::lemma_sort_events_props(all);
            assert forall|j: int| 0 <= j < sorted.len() implies #[trigger] sorted[j].question < i32::MAX by {
                assert(sorted.to_multiset().count(sorted[j]) > 0);
                assert(all.to_multiset().count(sorted[j]) > 0);
                let k = choose|k: int| 0 <= k < all.len() && all[k] == sorted[j];
            }
            assert(sorted.skip(0) =~= sorted);
            assert(texts(errors@) =~= Seq::<Seq<char>>::empty());
            assert(calc_fits(mut_self.state(), 0));
        }
        let n = game_events.len();
        let mut i: usize = 0;
        while i < n
            invariant
                n == game_events@.len(),
                n <= MAX_GAME_EVENTS,
                i <= n,
                sorted == events_view(game_events@),
                forall|j: int| 0 <= j < sorted.len() ==> #[trigger] sorted[j].question < i32::MAX,
                calculate(all, zone as int) == calc_run(mut_self.state(), sorted.skip(i as int), texts(errors@), zone as int),
                calc_fits(mut_self.state(), i as int),
                mut_self.game_id == self.game_id,
                events_view(mut_self.game_events@) == all,
                all == events_view(self.game_events@),
                zone == self.options.start_error_zone_deductions,
            decreases n - i,
        {
            let ghost rest = sorted.skip(i as int);
            proof {
                assert(rest[0] == sorted[i as int]);
                assert(rest.drop_first() =~= sorted.skip(i + 1));
                assert(sorted[i as int] == game_events@[i as int]@);
                assert(sorted[i as int].question < i32::MAX);
            }
            let ghost st0 = mut_self.state();
            let ghost m0 = texts(errors@);
            if mut_self.step_gets_stuck(&game_events[i], zone) {
                proof {
                    assert(calc_run(st0, rest, m0, zone as int) == CalcOutcome::Stuck);
                }
                return None;
            }
            let fatal = mut_self.step_event(&game_events[i], zone, &mut errors, Ghost(i as int));
            if fatal {
                proof {
                    assert(calc_run(st0, rest, m0, zone as int) == CalcOutcome::Fatal(texts(errors@)));
                }
                return Some(Err(errors));
            }
            i = i + 1;
        }
        proof {
            assert(sorted.skip(n as int) =~= Seq::<GameEventView>::empty());
            assert(calculate(all, zone as int) == CalcOutcome::Done(mut_self.state(), texts(errors@)));
            assert(texts(errors@).len() == errors@.len());
        }
        if errors.len() > 0 {
            return Some(Err(errors));
        }
        Some(Ok(mut_self))
    }
}

} // verus!
