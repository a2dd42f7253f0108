//! The link of a game to a stats group, and the builder of its record.
use vstd::prelude::*;

verus! {

/// Collects the game and stats group (ids as 128-bit integers) to link.
pub struct GameStatsGroupBuilder {
    pub gameid: u128,
    pub statsgroupid: u128,
}

/// A game and stats group link to insert.
pub struct NewGameStatsGroup {
    pub gameid: u128,
    pub statsgroupid: u128,
}


/// Whether `n` is the record that the complete builder `b` gives.
pub open spec fn game_stats_group_record(b: GameStatsGroupBuilder, n: NewGameStatsGroup) -> bool {
    &&& n.gameid == b.gameid
    &&& n.statsgroupid == b.statsgroupid
}

impl GameStatsGroupBuilder {
    /// A link of game `gameid` to stats group `statsgroupid`.
    pub fn new(gameid: u128, statsgroupid: u128) -> (r: Self)
        ensures
            r.gameid == gameid,
            r.statsgroupid == statsgroupid,
    {
        GameStatsGroupBuilder {
            gameid: gameid,
            statsgroupid: statsgroupid,
        }
    }

    /// The same as `new`.
    pub fn new_default(gameid: u128, statsgroupid: u128) -> (r: Self)
        ensures
            r.gameid == gameid,
            r.statsgroupid == statsgroupid,
    {
        GameStatsGroupBuilder {
            gameid: gameid,
            statsgroupid: statsgroupid,
        }
    }

    /// The record; it always builds.
    pub fn build(self) -> (r: Result<NewGameStatsGroup, Vec<String>>)
        ensures
            r matches Ok(n) && game_stats_group_record(self, n),
    {
        Ok(NewGameStatsGroup {
            gameid: self.gameid,
            statsgroupid: self.statsgroupid,
        })
    }
}

} // verus!
