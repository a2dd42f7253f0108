//! Games: the builder of a game record, and the numbering of games within their rooms.
use vstd::prelude::*;
use crate::clock::{id_text, id_text_of, nil_id};
use crate::gameevent::event::{msg_if, texts};
use crate::models::common::{
    last_index, last_value, name_of, name_or_empty, name_or_empty_text, name_or_id, name_or_id_text, push_missing,
};

verus! {

/// Collects a game's fields (ids as 128-bit integers) and checks that the required ones are
/// given.
pub struct GameBuilder {
    pub org: Option<String>,
    pub tournamentid: Option<u128>,
    pub divisionid: Option<u128>,
    pub roomid: u128,
    pub roundid: u128,
    pub ignore: Option<bool>,
    pub ruleset: Option<String>,
    pub leftteamid: Option<u128>,
    pub centerteamid: Option<u128>,
    pub rightteamid: Option<u128>,
    pub quizmasterid: Option<u128>,
    pub contentjudgeid: Option<u128>,
    pub clientkey: Option<String>,
    pub poolbracket_id: u128,
    pub last_modified_user: Option<u128>,
    pub creator_id: Option<u128>,
}

/// A game record to insert.
pub struct NewGame {
    pub org: String,
    pub tournamentid: Option<u128>,
    pub divisionid: Option<u128>,
    pub roomid: u128,
    pub roundid: u128,
    pub ignore: bool,
    pub ruleset: String,
    pub leftteamid: u128,
    pub centerteamid: Option<u128>,
    pub rightteamid: u128,
    pub quizmasterid: u128,
    pub contentjudgeid: Option<u128>,
    pub clientkey: String,
    pub poolbracket_id: u128,
    pub last_modified_user: u128,
    pub creator_id: u128,
}

/// The missing required fields of a game, in the order they are checked.
pub open spec fn game_builder_missing(b: GameBuilder) -> Seq<Seq<char>> {
    msg_if(b.org is None, "org is required"@)
        + msg_if(b.ignore is None, "ignore is required"@)
        + msg_if(b.ruleset is None, "ruleset is required"@)
        + msg_if(b.leftteamid is None, "leftteamid is required"@)
        + msg_if(b.rightteamid is None, "rightteamid is required"@)
        + msg_if(b.quizmasterid is None, "quizmasterid is required"@)
}

/// The game record a complete builder gives: the client key defaults to empty, and the last
/// modifier and the creator default to the quizmaster.
pub open spec fn game_of(b: GameBuilder, g: NewGame) -> bool {
    &&& b.org matches Some(o) && g.org@ == o@
    &&& g.tournamentid == b.tournamentid
    &&& g.divisionid == b.divisionid
    &&& g.roomid == b.roomid
    &&& g.roundid == b.roundid
    &&& b.ignore == Some(g.ignore)
    &&& b.ruleset matches Some(r) && g.ruleset@ == r@
    &&& b.leftteamid == Some(g.leftteamid)
    &&& g.centerteamid == b.centerteamid
    &&& b.rightteamid == Some(g.rightteamid)
    &&& b.quizmasterid == Some(g.quizmasterid)
    &&& g.contentjudgeid == b.contentjudgeid
    &&& g.clientkey@ == (match b.clientkey { Some(k) => k@, None => Seq::<char>::empty() })
    &&& g.poolbracket_id == b.poolbracket_id
    &&& g.last_modified_user == (match b.last_modified_user { Some(u) => u, None => g.quizmasterid })
    &&& g.creator_id == (match b.creator_id { Some(u) => u, None => g.quizmasterid })
}

impl GameBuilder {
    /// A builder for a game in room `room_id` and round `round_id`, with nothing else given and
    /// no pool bracket (the nil id).
    pub fn new(room_id: u128, round_id: u128) -> (r: Self)
        ensures
            r.roomid == room_id && r.roundid == round_id && r.poolbracket_id == 0,
            r.org is None && r.tournamentid is None && r.divisionid is None && r.ignore is None,
            r.ruleset is None && r.leftteamid is None && r.centerteamid is None && r.rightteamid is None,
            r.quizmasterid is None && r.contentjudgeid is None && r.clientkey is None,
            r.last_modified_user is None && r.creator_id is None,
    {
        GameBuilder {
            org: None,
            tournamentid: None,
            divisionid: None,
            roomid: room_id,
            roundid: round_id,
            ignore: None,
            ruleset: None,
            leftteamid: None,
            centerteamid: None,
            rightteamid: None,
            quizmasterid: None,
            contentjudgeid: None,
            clientkey: None,
            poolbracket_id: nil_id(),
            last_modified_user: None,
            creator_id: None,
        }
    }

    /// A builder for a Nazarene tournament game that is not ignored, with an empty client key.
    pub fn new_default(room_id: u128, round_id: u128) -> (r: Self)
        ensures
            r.roomid == room_id && r.roundid == round_id && r.poolbracket_id == 0,
            r.org matches Some(o) && o@ == "Nazarene"@,
            r.ignore == Some(false),
            r.ruleset matches Some(x) && x@ == "Tournament"@,
            r.clientkey matches Some(k) && k@ == Seq::<char>::empty(),
            r.tournamentid is None && r.divisionid is None,
            r.leftteamid is None && r.centerteamid is None && r.rightteamid is None,
            r.quizmasterid is None && r.contentjudgeid is None,
            r.last_modified_user is None && r.creator_id is None,
    {
        GameBuilder {
            org: Some(String::from_str("Nazarene")),
            tournamentid: None,
            divisionid: None,
            roomid: room_id,
            roundid: round_id,
            ignore: Some(false),
            ruleset: Some(String::from_str("Tournament")),
            leftteamid: None,
            centerteamid: None,
            rightteamid: None,
            quizmasterid: None,
            contentjudgeid: None,
            clientkey: Some(String::new()),
            poolbracket_id: nil_id(),
            last_modified_user: None,
            creator_id: None,
        }
    }

    pub fn set_poolbracket_id(self, val: u128) -> (r: Self)
        ensures r == (GameBuilder { poolbracket_id: val, ..self }),
    {
        GameBuilder { poolbracket_id: val, ..self }
    }

    pub fn set_org(self, val: String) -> (r: Self)
        ensures r == (GameBuilder { org: Some(val), ..self }),
    {
        GameBuilder { org: Some(val), ..self }
    }

    pub fn set_last_modified_user(self, user_id: u128) -> (r: Self)
        ensures r == (GameBuilder { last_modified_user: Some(user_id), ..self }),
    {
        GameBuilder { last_modified_user: Some(user_id), ..self }
    }

    pub fn set_creator_id(self, user_id: u128) -> (r: Self)
        ensures r == (GameBuilder { creator_id: Some(user_id), ..self }),
    {
        GameBuilder { creator_id: Some(user_id), ..self }
    }

    pub fn set_tournamentid(self, val: Option<u128>) -> (r: Self)
        ensures r == (GameBuilder { tournamentid: val, ..self }),
    {
        GameBuilder { tournamentid: val, ..self }
    }

    pub fn set_divisionid(self, val: Option<u128>) -> (r: Self)
        ensures r == (GameBuilder { divisionid: val, ..self }),
    {
        GameBuilder { divisionid: val, ..self }
    }

    pub fn set_roomid(self, val: u128) -> (r: Self)
        ensures r == (GameBuilder { roomid: val, ..self }),
    {
        GameBuilder { roomid: val, ..self }
    }

    pub fn set_roundid(self, val: u128) -> (r: Self)
        ensures r == (GameBuilder { roundid: val, ..self }),
    {
        GameBuilder { roundid: val, ..self }
    }

    pub fn set_ignore(self, val: bool) -> (r: Self)
        ensures r == (GameBuilder { ignore: Some(val), ..self }),
    {
        GameBuilder { ignore: Some(val), ..self }
    }

    pub fn set_ruleset(self, val: String) -> (r: Self)
        ensures r == (GameBuilder { ruleset: Some(val), ..self }),
    {
        GameBuilder { ruleset: Some(val), ..self }
    }

    pub fn set_leftteamid(self, val: u128) -> (r: Self)
        ensures r == (GameBuilder { leftteamid: Some(val), ..self }),
    {
        GameBuilder { leftteamid: Some(val), ..self }
    }

    pub fn set_centerteamid(self, val: Option<u128>) -> (r: Self)
        ensures r == (GameBuilder { centerteamid: val, ..self }),
    {
        GameBuilder { centerteamid: val, ..self }
    }

    pub fn set_rightteamid(self, val: u128) -> (r: Self)
        ensures r == (GameBuilder { rightteamid: Some(val), ..self }),
    {
        GameBuilder { rightteamid: Some(val), ..self }
    }

    pub fn set_quizmasterid(self, val: u128) -> (r: Self)
        ensures r == (GameBuilder { quizmasterid: Some(val), ..self }),
    {
        GameBuilder { quizmasterid: Some(val), ..self }
    }

    pub fn set_contentjudgeid(self, val: Option<u128>) -> (r: Self)
        ensures r == (GameBuilder { contentjudgeid: val, ..self }),
    {
        GameBuilder { contentjudgeid: val, ..self }
    }

    /// `Ok` when every required field is given, else a message for each one missing.
    pub fn validate_all_are_some(&self) -> (r: Result<(), Vec<String>>)
        ensures
            r is Ok <==> game_builder_missing(*self).len() == 0,
            r matches Err(v) ==> texts(v@) == game_builder_missing(*self),
    {
        let mut errors: Vec<String> = Vec::new();
        push_missing(&mut errors, self.org.is_none(), "org is required");
        push_missing(&mut errors, self.ignore.is_none(), "ignore is required");
        push_missing(&mut errors, self.ruleset.is_none(), "ruleset is required");
        push_missing(&mut errors, self.leftteamid.is_none(), "leftteamid is required");
        push_missing(&mut errors, self.rightteamid.is_none(), "rightteamid is required");
        push_missing(&mut errors, self.quizmasterid.is_none(), "quizmasterid is required");
        proof {
            assert(texts(errors@) =~= game_builder_missing(*self));
        }
        if errors.len() > 0 {
            Err(errors)
        } else {
            Ok(())
        }
    }

    /// The game record, or a message for each required field missing.
    pub fn build(self) -> (r: Result<NewGame, Vec<String>>)
        ensures
            r is Ok <==> game_builder_missing(self).len() == 0,
            r matches Ok(g) ==> game_of(self, g),
            r matches Err(v) ==> texts(v@) == game_builder_missing(self),
    {
        match self.validate_all_are_some() {
            Err(e) => Err(e),
            Ok(()) => {
                let q = match self.quizmasterid { Some(q) => q, None => 0 };
                Ok(NewGame {
                    org: match self.org { Some(o) => o, None => String::new() },
                    tournamentid: self.tournamentid,
                    divisionid: self.divisionid,
                    roomid: self.roomid,
                    roundid: self.roundid,
                    ignore: match self.ignore { Some(x) => x, None => false },
                    ruleset: match self.ruleset { Some(x) => x, None => String::new() },
                    leftteamid: match self.leftteamid { Some(x) => x, None => 0 },
                    centerteamid: self.centerteamid,
                    rightteamid: match self.rightteamid { Some(x) => x, None => 0 },
                    quizmasterid: q,
                    contentjudgeid: self.contentjudgeid,
                    clientkey: match self.clientkey { Some(k) => k, None => String::new() },
                    poolbracket_id: self.poolbracket_id,
                    last_modified_user: match self.last_modified_user { Some(u) => u, None => q },
                    creator_id: match self.creator_id { Some(u) => u, None => q },
                })
            },
        }
    }
}

/// A game as the room numbering reads it: its id, its room, and the scheduled start of its
/// round (microseconds since the Unix epoch; `None` when unscheduled).
pub type GameSlot = (u128, u128, Option<i64>);

/// The order of games within a room: by scheduled start, unscheduled last, then by id (the
/// order of the ids' text).
pub open spec fn slot_before(a: GameSlot, b: GameSlot) -> bool {
    match (a.2, b.2) {
        (Some(x), Some(y)) => x < y || (x == y && a.0 < b.0),
        (Some(_), None) => true,
        (None, Some(_)) => false,
        (None, None) => a.0 < b.0,
    }
}

/// The number of games of the same room that come before a game.
pub open spec fn count_before(games: Seq<GameSlot>, g: GameSlot) -> nat
    decreases games.len(),
{
    if games.len() == 0 {
        0
    } else {
        count_before(games.drop_last(), g) + if games.last().1 == g.1 && slot_before(games.last(), g) { 1nat } else { 0nat }
    }
}

/// Numbers every game within its room, from 1, by scheduled start (unscheduled last) and then
/// by id: each game's number is one more than the games of its room that come before it.
/// The result lists each game's id with its number, in the order given.
pub fn compute_room_sequence(all_games: &Vec<GameSlot>) -> (r: Vec<(u128, i64)>)
    requires
        all_games@.len() < i64::MAX,
    ensures
        r@.len() == all_games@.len(),
        forall|i: int| 0 <= i < r@.len() ==> (#[trigger] r@[i]).0 == all_games@[i].0
            && r@[i].1 == 1 + count_before(all_games@, all_games@[i]),
{
    let mut out: Vec<(u128, i64)> = Vec::new();
    let mut i: usize = 0;
    while i < all_games.len()
        invariant
            i <= all_games@.len(),
            all_games@.len() < i64::MAX,
            out@.len() == i,
            forall|k: int| 0 <= k < i ==> (#[trigger] out@[k]).0 == all_games@[k].0
                && out@[k].1 == 1 + count_before(all_games@, all_games@[k]),
        decreases all_games@.len() - i,
    {
        let g = all_games[i];
        let mut n: i64 = 0;
        let mut j: usize = 0;
        while j < all_games.len()
            invariant
                j <= all_games@.len(),
                all_games@.len() < i64::MAX,
                n == count_before(all_games@.take(j as int), g),
                n <= j,
            decreases all_games@.len() - j,
        {
            let h = all_games[j];
            proof {
                assert(all_games@.take(j + 1).drop_last() =~= all_games@.take(j as int));
                assert(all_games@.take(j + 1).last() == h);
            }
            let before = match (h.2, g.2) {
                (Some(x), Some(y)) => x < y || (x == y && h.0 < g.0),
                (Some(_), None) => true,
                (None, Some(_)) => false,
                (None, None) => h.0 < g.0,
            };
            if h.1 == g.1 && before {
                n = n + 1;
            }
            j = j + 1;
        }
        proof {
            assert(all_games@.take(all_games@.len() as int) =~= all_games@);
        }
        out.push((g.0, n + 1));
        i = i + 1;
    }
    out
}

/// A stored game (ids as 128-bit integers, times in microseconds since the Unix epoch).
pub struct Game {
    pub gid: u128,
    pub org: String,
    pub tournamentid: u128,
    pub divisionid: u128,
    pub roomid: u128,
    pub roundid: u128,
    pub ignore: bool,
    pub ruleset: String,
    pub leftteamid: u128,
    pub centerteamid: Option<u128>,
    pub rightteamid: u128,
    pub quizmasterid: u128,
    pub contentjudgeid: Option<u128>,
    pub created_at: i64,
    pub updated_at: i64,
    pub clientkey: String,
    pub resend_gameevents_request_ts: Option<i64>,
    pub resend_gameevents_response: Option<String>,
    pub resend_request_sent_ts: Option<i64>,
    pub last_modified_user: u128,
    pub creator_id: u128,
    pub del_fl: bool,
    pub poolbracket_id: u128,
}

/// The changes to a game: `None` leaves a field as it is.
pub struct GameChangeset {
    pub org: Option<String>,
    pub tournamentid: Option<u128>,
    pub divisionid: Option<u128>,
    pub roomid: Option<u128>,
    pub roundid: Option<u128>,
    pub ignore: Option<bool>,
    pub ruleset: Option<String>,
    pub leftteamid: Option<u128>,
    pub centerteamid: Option<u128>,
    pub rightteamid: Option<u128>,
    pub quizmasterid: Option<u128>,
    pub contentjudgeid: Option<u128>,
    pub clientkey: Option<String>,
    pub poolbracket_id: Option<u128>,
    pub resend_gameevents_request_ts: Option<i64>,
    pub resend_gameevents_response: Option<String>,
    pub resend_request_sent_ts: Option<i64>,
}

impl GameChangeset {
    /// The changeset that changes nothing.
    pub fn empty() -> (r: Self)
        ensures
            r.org is None && r.tournamentid is None && r.divisionid is None && r.roomid is None,
            r.roundid is None && r.ignore is None && r.ruleset is None && r.leftteamid is None,
            r.centerteamid is None && r.rightteamid is None && r.quizmasterid is None,
            r.contentjudgeid is None && r.clientkey is None && r.poolbracket_id is None,
            r.resend_gameevents_request_ts is None && r.resend_gameevents_response is None,
            r.resend_request_sent_ts is None,
    {
        GameChangeset {
            org: None,
            tournamentid: None,
            divisionid: None,
            roomid: None,
            roundid: None,
            ignore: None,
            ruleset: None,
            leftteamid: None,
            centerteamid: None,
            rightteamid: None,
            quizmasterid: None,
            contentjudgeid: None,
            clientkey: None,
            poolbracket_id: None,
            resend_gameevents_request_ts: None,
            resend_gameevents_response: None,
            resend_request_sent_ts: None,
        }
    }
}

// ─── Rows of the games table ────────────────────────────────────────────────

/// One row of the games table: the game with the names of its division, room and teams,
/// its round's scheduled start, and its number within its room.
pub struct GameRow {
    pub gid: u128,
    pub divisionid: u128,
    pub division_name: String,
    pub roomid: u128,
    pub room_name: String,
    pub roundid: u128,
    pub round_number: Option<i64>,
    pub scheduled_start_time: Option<i64>,
    pub leftteamid: u128,
    pub left_team_name: String,
    pub centerteamid: Option<u128>,
    pub center_team_name: Option<String>,
    pub rightteamid: u128,
    pub right_team_name: String,
    pub ignore: bool,
    pub created_at: i64,
    pub updated_at: i64,
    pub last_modified_user_name: String,
    pub last_modified_user_id: u128,
}

/// The scheduled start of round `roundid` as the rounds list gives it (`None` when the round
/// is not listed or not scheduled).
pub open spec fn start_of(round_start: Seq<(u128, Option<i64>)>, roundid: u128) -> Option<i64> {
    match last_value(round_start, roundid) {
        Some(t) => t,
        None => None,
    }
}

/// The tournament's games as the room numbering reads them: id, room, and round start.
pub open spec fn slots_of(all_games: Seq<(u128, u128, u128)>, round_start: Seq<(u128, Option<i64>)>) -> Seq<GameSlot> {
    Seq::new(all_games.len(), |i: int| (all_games[i].0, all_games[i].1, start_of(round_start, all_games[i].2)))
}

/// Each of the tournament's games with its number in its room.
pub open spec fn numbered(slots: Seq<GameSlot>) -> Seq<(u128, i64)> {
    Seq::new(slots.len(), |i: int| (slots[i].0, (1 + count_before(slots, slots[i])) as i64))
}

/// Whether `row` is the row of game `g`: names looked up by id (the empty text for a name
/// that is not found; the id's text for a last modifier without one), the round's start,
/// and the game's number in its room among all the tournament's games.
pub open spec fn game_row_of(
    row: GameRow,
    g: Game,
    all_games: Seq<(u128, u128, u128)>,
    round_start: Seq<(u128, Option<i64>)>,
    division_names: Seq<(u128, String)>,
    room_names: Seq<(u128, String)>,
    team_names: Seq<(u128, String)>,
    modifier_names: Seq<(u128, String)>,
) -> bool {
    &&& row.gid == g.gid
    &&& row.divisionid == g.divisionid
    &&& row.division_name@ == name_or_empty(last_value(division_names, g.divisionid))
    &&& row.roomid == g.roomid
    &&& row.room_name@ == name_or_empty(last_value(room_names, g.roomid))
    &&& row.roundid == g.roundid
    &&& row.round_number == last_value(numbered(slots_of(all_games, round_start)), g.gid)
    &&& row.scheduled_start_time == start_of(round_start, g.roundid)
    &&& row.leftteamid == g.leftteamid
    &&& row.left_team_name@ == name_or_empty(last_value(team_names, g.leftteamid))
    &&& row.centerteamid == g.centerteamid
    &&& row.center_team_name == (match g.centerteamid {
        Some(c) => last_value(team_names, c),
        None => None,
    })
    &&& row.rightteamid == g.rightteamid
    &&& row.right_team_name@ == name_or_empty(last_value(team_names, g.rightteamid))
    &&& row.ignore == g.ignore
    &&& row.created_at == g.created_at
    &&& row.updated_at == g.updated_at
    &&& row.last_modified_user_name@ == name_or_id(last_value(modifier_names, g.last_modified_user), g.last_modified_user)
    &&& row.last_modified_user_id == g.last_modified_user
}

/// The scheduled start of a round.
fn round_start_of(round_start: &Vec<(u128, Option<i64>)>, roundid: u128) -> (r: Option<i64>)
    ensures
        r == start_of(round_start@, roundid),
{
    match last_index(round_start, roundid) {
        Some(i) => round_start[i].1,
        None => None,
    }
}

/// The rows of a page of games: `all_games` lists every game of the tournament as (id, room,
/// round), so that each game's number in its room does not depend on the page;
/// `round_start` gives rounds' scheduled starts; the name lists give the names of divisions,
/// rooms, teams and users by id.
pub fn build_game_rows(
    page_games: &Vec<Game>,
    all_games: &Vec<(u128, u128, u128)>,
    round_start: &Vec<(u128, Option<i64>)>,
    division_names: &Vec<(u128, String)>,
    room_names: &Vec<(u128, String)>,
    team_names: &Vec<(u128, String)>,
    modifier_names: &Vec<(u128, String)>,
) -> (r: Vec<GameRow>)
    requires
        all_games@.len() < i64::MAX,
    ensures
        r@.len() == page_games@.len(),
        forall|i: int| 0 <= i < r@.len() ==> game_row_of(#[trigger] r@[i], page_games@[i], all_games@, round_start@,
            division_names@, room_names@, team_names@, modifier_names@),
{
    let ghost slots = slots_of(all_games@, round_start@);
    let mut slot_list: Vec<GameSlot> = Vec::new();
    let mut j: usize = 0;
    while j < all_games.len()
        invariant
            j <= all_games@.len(),
            slot_list@ == slots.take(j as int),
            slots == slots_of(all_games@, round_start@),
        decreases all_games@.len() - j,
    {
        let (gid, roomid, roundid) = all_games[j];
        let start = round_start_of(round_start, roundid);
        slot_list.push((gid, roomid, start));
        proof {
            assert(slot_list@ =~= slots.take(j + 1));
        }
        j = j + 1;
    }
    proof {
        assert(slots.take(all_games@.len() as int) =~= slots);
    }
    let sequence = compute_room_sequence(&slot_list);
    proof {
        assert(sequence@ =~= numbered(slots));
    }
    let mut rows: Vec<GameRow> = Vec::new();
    let mut i: usize = 0;
    while i < page_games.len()
        invariant
            i <= page_games@.len(),
            rows@.len() == i,
            sequence@ == numbered(slots),
            slots == slots_of(all_games@, round_start@),
            forall|k: int| 0 <= k < i ==> game_row_of(#[trigger] rows@[k], page_games@[k], all_games@, round_start@,
                division_names@, room_names@, team_names@, modifier_names@),
        decreases page_games@.len() - i,
    {
        let g = &page_games[i];
        let round_number = match last_index(&sequence, g.gid) {
            Some(k) => Some(sequence[k].1),
            None => None,
        };
        let center_team_name = match g.centerteamid {
            Some(c) => name_of(team_names, c),
            None => None,
        };
        let row = GameRow {
            gid: g.gid,
            divisionid: g.divisionid,
            division_name: name_or_empty_text(name_of(division_names, g.divisionid)),
            roomid: g.roomid,
            room_name: name_or_empty_text(name_of(room_names, g.roomid)),
            roundid: g.roundid,
            round_number,
            scheduled_start_time: round_start_of(round_start, g.roundid),
            leftteamid: g.leftteamid,
            left_team_name: name_or_empty_text(name_of(team_names, g.leftteamid)),
            centerteamid: g.centerteamid,
            center_team_name,
            rightteamid: g.rightteamid,
            right_team_name: name_or_empty_text(name_of(team_names, g.rightteamid)),
            ignore: g.ignore,
            created_at: g.created_at,
            updated_at: g.updated_at,
            last_modified_user_name: name_or_id_text(name_of(modifier_names, g.last_modified_user), g.last_modified_user),
            last_modified_user_id: g.last_modified_user,
        };
        rows.push(row);
        i = i + 1;
    }
    rows
}

// ─── Games with names ───────────────────────────────────────────────────────

/// A game with the names of its tournament, teams, creator and last modifier, and its
/// tournament's dates (days from the start of the common era).
pub struct GameWithNames {
    pub gid: u128,
    pub org: String,
    pub tournamentid: u128,
    pub tournament_name: String,
    pub tournament_fromdate: i32,
    pub tournament_todate: i32,
    pub divisionid: u128,
    pub roomid: u128,
    pub roundid: u128,
    pub ignore: bool,
    pub ruleset: String,
    pub leftteamid: u128,
    pub left_team_name: String,
    pub centerteamid: Option<u128>,
    pub center_team_name: Option<String>,
    pub rightteamid: u128,
    pub right_team_name: String,
    pub quizmasterid: u128,
    pub contentjudgeid: Option<u128>,
    pub created_at: i64,
    pub updated_at: i64,
    pub creator_id: u128,
    pub creator_name: String,
    pub last_modified_user_id: u128,
    pub last_modified_user_name: String,
}

/// The games whose tournament is listed, in order.
pub open spec fn games_with_tournament(games: Seq<Game>, tournaments: Seq<(u128, (String, i32, i32))>) -> Seq<Game>
    decreases games.len(),
{
    if games.len() == 0 {
        seq![]
    } else {
        let rest = games_with_tournament(games.drop_last(), tournaments);
        if last_value(tournaments, games.last().tournamentid) is Some {
            rest.push(games.last())
        } else {
            rest
        }
    }
}

/// Whether `w` is game `g` with names: its tournament's name and dates as listed, its teams'
/// names by id (the empty text for a name that is not found), and its creator's and last
/// modifier's names by id (the id's text for a user without one).
pub open spec fn with_names_of(
    w: GameWithNames,
    g: Game,
    tournaments: Seq<(u128, (String, i32, i32))>,
    team_names: Seq<(u128, String)>,
    user_names: Seq<(u128, String)>,
) -> bool {
    let t = last_value(tournaments, g.tournamentid).unwrap();
    &&& w.gid == g.gid
    &&& w.org == g.org
    &&& w.tournamentid == g.tournamentid
    &&& w.tournament_name == t.0
    &&& w.tournament_fromdate == t.1
    &&& w.tournament_todate == t.2
    &&& w.divisionid == g.divisionid
    &&& w.roomid == g.roomid
    &&& w.roundid == g.roundid
    &&& w.ignore == g.ignore
    &&& w.ruleset == g.ruleset
    &&& w.leftteamid == g.leftteamid
    &&& w.left_team_name@ == name_or_empty(last_value(team_names, g.leftteamid))
    &&& w.centerteamid == g.centerteamid
    &&& w.center_team_name == (match g.centerteamid {
        Some(c) => last_value(team_names, c),
        None => None,
    })
    &&& w.rightteamid == g.rightteamid
    &&& w.right_team_name@ == name_or_empty(last_value(team_names, g.rightteamid))
    &&& w.quizmasterid == g.quizmasterid
    &&& w.contentjudgeid == g.contentjudgeid
    &&& w.created_at == g.created_at
    &&& w.updated_at == g.updated_at
    &&& w.creator_id == g.creator_id
    &&& w.creator_name@ == name_or_id(last_value(user_names, g.creator_id), g.creator_id)
    &&& w.last_modified_user_id == g.last_modified_user
    &&& w.last_modified_user_name@ == name_or_id(last_value(user_names, g.last_modified_user), g.last_modified_user)
}

/// The games of `game_list` whose tournament is listed in `tournaments` (by id: name, first
/// and last day), each with its names; a game whose tournament is not listed is left out.
pub fn enrich_games_with_names(
    game_list: &Vec<Game>,
    tournaments: &Vec<(u128, (String, i32, i32))>,
    team_names: &Vec<(u128, String)>,
    user_names: &Vec<(u128, String)>,
) -> (r: Vec<GameWithNames>)
    ensures
        r@.len() == games_with_tournament(game_list@, tournaments@).len(),
        forall|i: int| 0 <= i < r@.len() ==> with_names_of(#[trigger] r@[i],
            games_with_tournament(game_list@, tournaments@)[i], tournaments@, team_names@, user_names@),
{
    let mut out: Vec<GameWithNames> = Vec::new();
    let mut i: usize = 0;
    while i < game_list.len()
        invariant
            i <= game_list@.len(),
            out@.len() == games_with_tournament(game_list@.take(i as int), tournaments@).len(),
            forall|k: int| 0 <= k < out@.len() ==> with_names_of(#[trigger] out@[k],
                games_with_tournament(game_list@.take(i as int), tournaments@)[k], tournaments@, team_names@, user_names@),
        decreases game_list@.len() - i,
    {
        let g = &game_list[i];
        proof {
            assert(game_list@.take(i + 1).drop_last() =~= game_list@.take(i as int));
            assert(game_list@.take(i + 1).last() == *g);
        }
        match last_index(tournaments, g.tournamentid) {
            Some(t) => {
                let (tname, fromdate, todate) = &tournaments[t].1;
                let center_team_name = match g.centerteamid {
                    Some(c) => name_of(team_names, c),
                    None => None,
                };
                let w = GameWithNames {
                    gid: g.gid,
                    org: g.org.clone(),
                    tournamentid: g.tournamentid,
                    tournament_name: tname.clone(),
                    tournament_fromdate: *fromdate,
                    tournament_todate: *todate,
                    divisionid: g.divisionid,
                    roomid: g.roomid,
                    roundid: g.roundid,
                    ignore: g.ignore,
                    ruleset: g.ruleset.clone(),
                    leftteamid: g.leftteamid,
                    left_team_name: name_or_empty_text(name_of(team_names, g.leftteamid)),
                    centerteamid: g.centerteamid,
                    center_team_name,
                    rightteamid: g.rightteamid,
                    right_team_name: name_or_empty_text(name_of(team_names, g.rightteamid)),
                    quizmasterid: g.quizmasterid,
                    contentjudgeid: g.contentjudgeid,
                    created_at: g.created_at,
                    updated_at: g.updated_at,
                    creator_id: g.creator_id,
                    creator_name: name_or_id_text(name_of(user_names, g.creator_id), g.creator_id),
                    last_modified_user_id: g.last_modified_user,
                    last_modified_user_name: name_or_id_text(name_of(user_names, g.last_modified_user), g.last_modified_user),
                };
                out.push(w);
            },
            None => {},
        }
        i = i + 1;
    }
    proof {
        assert(game_list@.take(game_list@.len() as int) =~= game_list@);
    }
    out
}

// ─── Readiness of games ─────────────────────────────────────────────────────

/// What the readiness of a game is decided from: the question number of each of its recorded
/// events, the latest server time among them, whether the events leave a gap, and the teams'
/// placement ranks when the events score without error (`None` when scoring fails).
pub struct GameRecordFacts {
    pub questions: Vec<i32>,
    pub latest_serverts: Option<i64>,
    pub has_gaps: bool,
    pub ranks: Option<Vec<i32>>,
}

/// Whether a game's recorded events are valid and whether the game is complete.
pub struct GameStatus {
    pub gid: u128,
    pub done: bool,
    pub data_ok: bool,
    pub next_question: Option<i32>,
}

/// The highest question number, if any.
pub open spec fn max_question(qs: Seq<i32>) -> Option<i32>
    decreases qs.len(),
{
    if qs.len() == 0 {
        None
    } else {
        match max_question(qs.drop_last()) {
            Some(m) => Some(if qs.last() > m { qs.last() } else { m }),
            None => Some(qs.last()),
        }
    }
}

/// Whether some question number is 20 or more.
pub open spec fn reaches_last_question(qs: Seq<i32>) -> bool {
    exists|k: int| 0 <= k < qs.len() && qs[k] >= 20
}

/// Whether there are ranks and no two teams share one.
pub open spec fn ties_resolved(ranks: Option<Vec<i32>>) -> bool {
    match ranks {
        Some(r) => r@.len() > 0 && forall|a: int, b: int| 0 <= a < b < r@.len() ==> r@[a] != r@[b],
        None => false,
    }
}

/// Whether team `t` plays in game `other`.
pub open spec fn plays_in(t: u128, other: Game) -> bool {
    other.leftteamid == t || other.rightteamid == t || other.centerteamid == Some(t)
}

/// Whether a team of game `g` plays in game `other`.
pub open spec fn shares_team(g: Game, other: Game) -> bool {
    plays_in(g.leftteamid, other) || plays_in(g.rightteamid, other)
        || (g.centerteamid matches Some(c) && plays_in(c, other))
}

/// Whether a team of game `i` has moved on: it plays in another game whose events were
/// recorded after the last event of game `i`.
pub open spec fn moved_on(games: Seq<Game>, facts: Seq<GameRecordFacts>, i: int) -> bool {
    facts[i].latest_serverts matches Some(end) && exists|j: int| 0 <= j < games.len()
        && games[j].gid != games[i].gid
        && (facts[j].latest_serverts matches Some(other_end) && other_end > end)
        && shares_team(games[i], games[j])
}

/// Whether the events of a game are valid: there are some, they leave no gap, and they
/// score without error.
pub open spec fn data_ok_of(f: GameRecordFacts) -> bool {
    f.questions@.len() > 0 && !f.has_gaps && f.ranks is Some
}

/// The status of game `i`: its data is valid as `data_ok_of` says; it is done when its data
/// is valid, it reached question 20, and either no two teams share a rank or a team has moved
/// on; its next question is one past the highest recorded.
pub open spec fn status_of(s: GameStatus, games: Seq<Game>, facts: Seq<GameRecordFacts>, i: int) -> bool {
    let f = facts[i];
    &&& s.gid == games[i].gid
    &&& s.data_ok == data_ok_of(f)
    &&& s.done == (data_ok_of(f) && reaches_last_question(f.questions@)
        && (ties_resolved(f.ranks) || moved_on(games, facts, i)))
    &&& s.next_question == (match max_question(f.questions@) {
        Some(m) => Some((m + 1) as i32),
        None => None,
    })
}

/// The highest question number.
fn highest_question(qs: &Vec<i32>) -> (r: Option<i32>)
    ensures
        r == max_question(qs@),
{
    let mut best: Option<i32> = None;
    let mut k: usize = 0;
    while k < qs.len()
        invariant
            k <= qs@.len(),
            best == max_question(qs@.take(k as int)),
        decreases qs@.len() - k,
    {
        proof {
            assert(qs@.take(k + 1).drop_last() =~= qs@.take(k as int));
        }
        let q = qs[k];
        best = match best {
            Some(m) => Some(if q > m { q } else { m }),
            None => Some(q),
        };
        k = k + 1;
    }
    proof {
        assert(qs@.take(qs@.len() as int) =~= qs@);
    }
    best
}

proof fn lemma_max_question_bound(qs: Seq<i32>)
    requires
        forall|k: int| 0 <= k < qs.len() ==> qs[k] < i32::MAX,
    ensures
        max_question(qs) matches Some(m) ==> m < i32::MAX,
    decreases qs.len(),
{
    if qs.len() > 0 {
        lemma_max_question_bound(qs.drop_last());
    }
}

/// Whether some question number is 20 or more.
fn any_last_question(qs: &Vec<i32>) -> (r: bool)
    ensures
        r == reaches_last_question(qs@),
{
    let mut k: usize = 0;
    while k < qs.len()
        invariant
            k <= qs@.len(),
            forall|m: int| 0 <= m < k ==> qs@[m] < 20,
        decreases qs@.len() - k,
    {
        if qs[k] >= 20 {
            return true;
        }
        k = k + 1;
    }
    false
}

/// Whether there are ranks and no two share one.
fn ranks_distinct(ranks: &Option<Vec<i32>>) -> (r: bool)
    ensures
        r == ties_resolved(*ranks),
{
    match ranks {
        None => false,
        Some(v) => {
            if v.len() == 0 {
                return false;
            }
            let mut a: usize = 0;
            while a < v.len()
                invariant
                    a <= v@.len(),
                    *ranks == Some(*v),
                    forall|x: int, y: int| 0 <= x < y < v@.len() && x < a ==> v@[x] != v@[y],
                decreases v@.len() - a,
            {
                let mut b: usize = a + 1;
                while b < v.len()
                    invariant
                        a < v@.len(),
                        a + 1 <= b <= v@.len(),
                        *ranks == Some(*v),
                        forall|x: int, y: int| 0 <= x < y < v@.len() && x < a ==> v@[x] != v@[y],
                        forall|y: int| a < y < b ==> v@[a as int] != v@[y],
                    decreases v@.len() - b,
                {
                    if v[a] == v[b] {
                        proof {
                            assert(v@[a as int] == v@[b as int]);
                        }
                        return false;
                    }
                    b = b + 1;
                }
                a = a + 1;
            }
            true
        },
    }
}

/// Whether a team of game `g` plays in game `other`.
fn teams_meet(g: &Game, other: &Game) -> (r: bool)
    ensures
        r == shares_team(*g, *other),
{
    let plays = |t: u128| -> (p: bool)
        ensures
            p == plays_in(t, *other),
        { other.leftteamid == t || other.rightteamid == t || other.centerteamid == Some(t) };
    plays(g.leftteamid) || plays(g.rightteamid) || match g.centerteamid {
        Some(c) => plays(c),
        None => false,
    }
}

/// Whether a team of game `i` has moved on to a game recorded later.
fn team_moved_on(games: &Vec<Game>, facts: &Vec<GameRecordFacts>, i: usize) -> (r: bool)
    requires
        games@.len() == facts@.len(),
        i < games@.len(),
    ensures
        r == moved_on(games@, facts@, i as int),
{
    match facts[i].latest_serverts {
        None => false,
        Some(end) => {
            let mut j: usize = 0;
            while j < games.len()
                invariant
                    j <= games@.len(),
                    games@.len() == facts@.len(),
                    i < games@.len(),
                    facts@[i as int].latest_serverts == Some(end),
                    forall|m: int| 0 <= m < j ==> !(games@[m].gid != games@[i as int].gid
                        && (facts@[m].latest_serverts matches Some(o) && o > end)
                        && shares_team(games@[i as int], games@[m])),
                decreases games@.len() - j,
            {
                let later = match facts[j].latest_serverts {
                    Some(o) => o > end,
                    None => false,
                };
                if games[j].gid != games[i].gid && later && teams_meet(&games[i], &games[j]) {
                    return true;
                }
                j = j + 1;
            }
            false
        },
    }
}

/// The status of each game, in order, from the facts of its recorded events (`facts[i]` for
/// `games[i]`).
pub fn game_statuses(games: &Vec<Game>, facts: &Vec<GameRecordFacts>) -> (r: Vec<GameStatus>)
    requires
        games@.len() == facts@.len(),
        forall|i: int, k: int| 0 <= i < facts@.len() && 0 <= k < facts@[i].questions@.len()
            ==> #[trigger] facts@[i].questions@[k] < i32::MAX,
    ensures
        r@.len() == games@.len(),
        forall|i: int| 0 <= i < r@.len() ==> status_of(#[trigger] r@[i], games@, facts@, i),
{
    let mut out: Vec<GameStatus> = Vec::new();
    let mut i: usize = 0;
    while i < games.len()
        invariant
            i <= games@.len(),
            games@.len() == facts@.len(),
            forall|n: int, k: int| 0 <= n < facts@.len() && 0 <= k < facts@[n].questions@.len()
                ==> #[trigger] facts@[n].questions@[k] < i32::MAX,
            out@.len() == i,
            forall|n: int| 0 <= n < i ==> status_of(#[trigger] out@[n], games@, facts@, n),
        decreases games@.len() - i,
    {
        let f = &facts[i];
        let data_ok = f.questions.len() > 0 && !f.has_gaps && f.ranks.is_some();
        let last = any_last_question(&f.questions);
        let top = highest_question(&f.questions);
        proof {
            assert forall|k: int| 0 <= k < f.questions@.len() implies f.questions@[k] < i32::MAX by {
                assert(facts@[i as int].questions@[k] < i32::MAX);
            }
            lemma_max_question_bound(f.questions@);
        }
        let next_question = match top {
            Some(m) => Some(m + 1),
            None => None,
        };
        let done = data_ok && last && (ranks_distinct(&f.ranks) || team_moved_on(games, facts, i));
        out.push(GameStatus { gid: games[i].gid, done, data_ok, next_question });
        i = i + 1;
    }
    out
}

// ─── Creating a game ────────────────────────────────────────────────────────

/// Why a new game is refused, given whether its round, room, teams and quizmaster exist: the
/// first failing check, in the order round, room, left team, right team, quizmaster, then
/// the teams being distinct; `None` when every check passes.
pub open spec fn create_refusal_of(
    g: NewGame,
    round_exists: bool,
    room_exists: bool,
    left_exists: bool,
    right_exists: bool,
    quizmaster_exists: bool,
) -> Option<Seq<char>> {
    if !round_exists {
        Some("Error: Round with ID "@ + id_text_of(g.roundid) + " does not exist"@)
    } else if !room_exists {
        Some("Error: Room with ID "@ + id_text_of(g.roomid) + " does not exist"@)
    } else if !left_exists {
        Some("Error: Team with ID "@ + id_text_of(g.leftteamid) + " does not exist"@)
    } else if !right_exists {
        Some("Error: Team with ID "@ + id_text_of(g.rightteamid) + " does not exist"@)
    } else if !quizmaster_exists {
        Some("Error: User (QuizMaster) with ID "@ + id_text_of(g.quizmasterid) + " does not exist"@)
    } else if g.leftteamid == g.rightteamid {
        Some("leftteamid and rightteamid cannot be the same"@)
    } else if g.centerteamid == Some(g.leftteamid) {
        Some("leftteamid and centerteamid cannot be the same"@)
    } else if g.centerteamid == Some(g.rightteamid) {
        Some("centerteamid and rightteamid cannot be the same"@)
    } else {
        None
    }
}

fn exists_message(prefix: &str, id: u128) -> (m: String)
    ensures
        m@ == prefix@ + id_text_of(id) + " does not exist"@,
{
    let t = id_text(id);
    let m = crate::text::join2(prefix, t.as_str());
    m.concat(" does not exist")
}

/// Why a new game is refused, given what was found of its round, room, teams and
/// quizmaster; `None` when it may be created.
pub fn create_refusal(
    g: &NewGame,
    round_exists: bool,
    room_exists: bool,
    left_exists: bool,
    right_exists: bool,
    quizmaster_exists: bool,
) -> (r: Option<String>)
    ensures
        r is Some <==> create_refusal_of(*g, round_exists, room_exists, left_exists, right_exists, quizmaster_exists) is Some,
        r matches Some(m) ==> Some(m@) == create_refusal_of(*g, round_exists, room_exists, left_exists, right_exists, quizmaster_exists),
{
    if !round_exists {
        Some(exists_message("Error: Round with ID ", g.roundid))
    } else if !room_exists {
        Some(exists_message("Error: Room with ID ", g.roomid))
    } else if !left_exists {
        Some(exists_message("Error: Team with ID ", g.leftteamid))
    } else if !right_exists {
        Some(exists_message("Error: Team with ID ", g.rightteamid))
    } else if !quizmaster_exists {
        Some(exists_message("Error: User (QuizMaster) with ID ", g.quizmasterid))
    } else if g.leftteamid == g.rightteamid {
        Some(String::from_str("leftteamid and rightteamid cannot be the same"))
    } else if g.centerteamid == Some(g.leftteamid) {
        Some(String::from_str("leftteamid and centerteamid cannot be the same"))
    } else if g.centerteamid == Some(g.rightteamid) {
        Some(String::from_str("centerteamid and rightteamid cannot be the same"))
    } else {
        None
    }
}

/// A new game placed in its round's division and that division's tournament: without a
/// tournament, both are taken from the round (`round_division`) and its division
/// (`division_tournament`); with a tournament but no division, the division is the round's;
/// otherwise the game is kept as given.
pub fn placed_game(g: NewGame, round_division: u128, division_tournament: u128) -> (r: NewGame)
    ensures
        r == (if g.tournamentid is None {
            NewGame { tournamentid: Some(division_tournament), divisionid: Some(round_division), ..g }
        } else if g.divisionid is None {
            NewGame { divisionid: Some(round_division), ..g }
        } else {
            g
        }),
{
    if g.tournamentid.is_none() {
        NewGame { tournamentid: Some(division_tournament), divisionid: Some(round_division), ..g }
    } else if g.divisionid.is_none() {
        NewGame { divisionid: Some(round_division), ..g }
    } else {
        g
    }
}

} // verus!
