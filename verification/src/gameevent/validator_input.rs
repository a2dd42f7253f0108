//! Whether the validator can read a game's events for the checks asked for.
use vstd::prelude::*;
use crate::gameevent::code::{is_code, parse_gameeventcode};
use crate::gameevent::event::{events_view, GameEventView};
use crate::gameevent::validator::GameEventStreamValidator;
use crate::gameevent::validator_spec::{
    captains_in_range, names_in_range, reads_codes, reads_teams, validator_accepts, ValidatorChecks,
};
use crate::text::str_eq;

verus! {

/// Whether one event can be read for the checks asked for.
pub open spec fn readable(order: bool, codes: bool, teams: bool, captains: bool, e: GameEventView) -> bool {
    &&& order ==> e.question < i32::MAX && e.eventnum < i32::MAX
    &&& codes ==> is_code(e.event)
    &&& teams ==> (e.event == "TN"@ ==> 0 <= e.team < 3)
    &&& teams ==> (e.event == "QN"@ ==> 0 <= e.team < 3 && 0 <= e.quizzer < 6)
    &&& captains ==> ((e.event == "SC"@ || e.event == "SS"@) ==> 0 <= e.team < 3)
}

/// The validator reads the events exactly when it reads each of them.
proof fn lemma_accepts_iff(c: ValidatorChecks, s: Seq<GameEventView>, order: bool, codes: bool, teams: bool, captains: bool)
    requires
        order == (c.everything || c.sort_order),
        codes == reads_codes(c),
        teams == reads_teams(c),
        captains == (c.everything || c.captains),
    ensures
        validator_accepts(c, s) <==> forall|k: int| 0 <= k < s.len() ==> readable(order, codes, teams, captains, #[trigger] s[k]),
{
    if validator_accepts(c, s) {
        assert forall|k: int| 0 <= k < s.len() implies readable(order, codes, teams, captains, #[trigger] s[k]) by {
            if teams {
                assert(names_in_range(s));
            }
            if captains {
                assert(captains_in_range(s));
            }
        }
    }
    if forall|k: int| 0 <= k < s.len() ==> readable(order, codes, teams, captains, #[trigger] s[k]) {
        if teams {
            assert forall|k: int| 0 <= k < s.len() implies {
                &&& (#[trigger] s[k]).event == "TN"@ ==> 0 <= s[k].team < 3
                &&& s[k].event == "QN"@ ==> 0 <= s[k].team < 3 && 0 <= s[k].quizzer < 6
            } by {
                assert(readable(order, codes, teams, captains, s[k]));
            }
        }
        if captains {
            assert forall|k: int| 0 <= k < s.len() implies ((#[trigger] s[k]).event == "SC"@ || s[k].event == "SS"@) ==> 0 <= s[k].team < 3 by {
                assert(readable(order, codes, teams, captains, s[k]));
            }
        }
    }
}

impl GameEventStreamValidator {
    /// Whether `validate` can read the events for the checks asked for (what its `requires`
    /// asks): every code known where codes are read, teams and seats in range where they are
    /// read, and question and event numbers below the top of `i32` where the order is checked.
    pub fn can_validate(&self) -> (r: bool)
        ensures
            r == validator_accepts(self.checks(), events_view(self.events@)),
    {
        let ghost c = self.checks();
        let ghost s = events_view(self.events@);
        let order = self.check_for_everything || self.check_for_sort_order;
        let codes = self.check_for_everything || self.check_for_has_RM_and_QT
            || self.check_for_min_one_team_and_min_one_quizzer_per_team
            || self.check_for_captains_and_cocaptains_are_accurate_based_on_number_of_quizzers_on_team
            || self.check_for_no_team_name_duplicates || self.check_for_no_quizzer_name_duplicates_within_team;
        let teams = self.check_for_everything || self.check_for_min_one_team_and_min_one_quizzer_per_team
            || self.check_for_captains_and_cocaptains_are_accurate_based_on_number_of_quizzers_on_team
            || self.check_for_no_team_name_duplicates || self.check_for_no_quizzer_name_duplicates_within_team;
        let captains = self.check_for_everything
            || self.check_for_captains_and_cocaptains_are_accurate_based_on_number_of_quizzers_on_team;
        proof {
            lemma_accepts_iff(c, s, order, codes, teams, captains);
        }
        let mut i: usize = 0;
        while i < self.events.len()
            invariant
                i <= self.events@.len(),
                s == events_view(self.events@),
                c == self.checks(),
                order == (c.everything || c.sort_order),
                codes == reads_codes(c),
                teams == reads_teams(c),
                captains == (c.everything || c.captains),
                forall|k: int| 0 <= k < i ==> readable(order, codes, teams, captains, #[trigger] s[k]),
            decreases self.events@.len() - i,
        {
            let e = &self.events[i];
            proof {
                assert(s[i as int] == e@);
            }
            if order && (e.question == i32::MAX || e.eventnum == i32::MAX) {
                proof { assert(!readable(order, codes, teams, captains, s[i as int])); }
                return false;
            }
            if codes && parse_gameeventcode(e.event.as_str()).is_none() {
                proof { assert(!readable(order, codes, teams, captains, s[i as int])); }
                return false;
            }
            if teams {
                if str_eq(e.event.as_str(), "TN") && !(0 <= e.team && e.team < 3) {
                    proof { assert(!readable(order, codes, teams, captains, s[i as int])); }
                return false;
                }
                if str_eq(e.event.as_str(), "QN") && !(0 <= e.team && e.team < 3 && 0 <= e.quizzer && e.quizzer < 6) {
                    proof { assert(!readable(order, codes, teams, captains, s[i as int])); }
                return false;
                }
            }
            if captains && (str_eq(e.event.as_str(), "SC") || str_eq(e.event.as_str(), "SS")) && !(0 <= e.team && e.team < 3) {
                proof { assert(!readable(order, codes, teams, captains, s[i as int])); }
                return false;
            }
            i = i + 1;
        }
        true
    }

}

} // verus!
