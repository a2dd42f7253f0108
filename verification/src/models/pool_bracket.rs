//! Pools and brackets of a division session, and the builder of their records.
use vstd::prelude::*;
use crate::models::common::{last_value, name_of, name_or_empty, name_or_empty_text, name_or_id, name_or_id_text};
use crate::gameevent::event::{msg_if, texts};
use crate::models::common::push_missing;

verus! {

/// Collects the fields of a pool or bracket (ids as 128-bit integers) and checks that the required ones are given.
pub struct PoolBracketBuilder {
    pub division_session_id: u128,
    pub name: Option<String>,
    pub type_: String,
    pub creator_userid: Option<u128>,
    pub last_modified_userid: Option<u128>,
}

/// A pool or bracket record to insert; the last modifier is the creator when none is given.
pub struct NewPoolBracket {
    pub division_session_id: u128,
    pub name: String,
    pub type_: String,
    pub creator_userid: u128,
    pub last_modified_userid: u128,
}

/// The missing required fields, in the order they are checked.
pub open spec fn pool_bracket_missing(b: PoolBracketBuilder) -> Seq<Seq<char>> {
    msg_if(b.name is None, "name is required"@)
        + msg_if(b.creator_userid is None, "creator_userid is required"@)
}

/// Whether `n` is the record that the complete builder `b` gives.
pub open spec fn pool_bracket_record(b: PoolBracketBuilder, n: NewPoolBracket) -> bool {
    &&& n.division_session_id == b.division_session_id
    &&& b.name == Some(n.name)
    &&& n.type_ == b.type_
    &&& b.creator_userid == Some(n.creator_userid)
    &&& n.last_modified_userid == (match b.last_modified_userid { Some(x) => x, None => n.creator_userid })
}

impl PoolBracketBuilder {
    /// A builder for a pool of session `division_session_id` with nothing else given.
    pub fn new(division_session_id: u128) -> (r: Self)
        ensures
            r.division_session_id == division_session_id,
            r.name is None,
            r.type_@ == "pool"@,
            r.creator_userid is None,
            r.last_modified_userid is None,
    {
        PoolBracketBuilder {
            division_session_id: division_session_id,
            name: None,
            type_: String::from_str("pool"),
            creator_userid: None,
            last_modified_userid: None,
        }
    }

    /// The same as `new`.
    pub fn new_default(division_session_id: u128) -> (r: Self)
        ensures
            r.division_session_id == division_session_id,
            r.name is None,
            r.type_@ == "pool"@,
            r.creator_userid is None,
            r.last_modified_userid is None,
    {
        PoolBracketBuilder {
            division_session_id: division_session_id,
            name: None,
            type_: String::from_str("pool"),
            creator_userid: None,
            last_modified_userid: None,
        }
    }

    pub fn set_division_session_id(self, id: u128) -> (r: Self)
        ensures
            r == (PoolBracketBuilder { division_session_id: id, ..self }),
    {
        PoolBracketBuilder { division_session_id: id, ..self }
    }

    pub fn set_name(self, name: &str) -> (r: Self)
        ensures
            r.name matches Some(s) && s@ == name@,
            r == (PoolBracketBuilder { name: r.name, ..self }),
    {
        PoolBracketBuilder { name: Some(String::from_str(name)), ..self }
    }

    pub fn set_type(self, type_: &str) -> (r: Self)
        ensures
            r.type_@ == type_@,
            r == (PoolBracketBuilder { type_: r.type_, ..self }),
    {
        PoolBracketBuilder { type_: String::from_str(type_), ..self }
    }

    pub fn set_creator_userid(self, user_id: u128) -> (r: Self)
        ensures
            r == (PoolBracketBuilder { creator_userid: Some(user_id), ..self }),
    {
        PoolBracketBuilder { creator_userid: Some(user_id), ..self }
    }

    pub fn set_last_modified_userid(self, user_id: u128) -> (r: Self)
        ensures
            r == (PoolBracketBuilder { last_modified_userid: Some(user_id), ..self }),
    {
        PoolBracketBuilder { last_modified_userid: Some(user_id), ..self }
    }

    /// `Ok` when every required field is given, else a message for each one missing.
    fn validate(&self) -> (r: Result<(), Vec<String>>)
        ensures
            r is Ok <==> pool_bracket_missing(*self).len() == 0,
            r matches Err(v) ==> texts(v@) == pool_bracket_missing(*self),
    {
        let mut errors: Vec<String> = Vec::new();
        push_missing(&mut errors, self.name.is_none(), "name is required");
        push_missing(&mut errors, self.creator_userid.is_none(), "creator_userid is required");
        proof {
            assert(texts(errors@) =~= pool_bracket_missing(*self));
        }
        if errors.len() > 0 {
            Err(errors)
        } else {
            Ok(())
        }
    }

    /// The record, or a message for each required field missing.
    pub fn build(self) -> (r: Result<NewPoolBracket, Vec<String>>)
        ensures
            r is Ok <==> pool_bracket_missing(self).len() == 0,
            r matches Ok(n) ==> pool_bracket_record(self, n),
            r matches Err(v) ==> texts(v@) == pool_bracket_missing(self),
    {
        match self.validate() {
            Err(e) => Err(e),
            Ok(()) => {
                let name = match self.name { Some(x) => x, None => String::new() };
                let creator_userid = match self.creator_userid { Some(x) => x, None => 0 };
                Ok(NewPoolBracket {
                    division_session_id: self.division_session_id,
                    name: name,
                    type_: self.type_,
                    creator_userid: creator_userid,
                    last_modified_userid: match self.last_modified_userid { Some(x) => x, None => creator_userid },
                })
            },
        }
    }
}

/// A stored pool bracket (times in microseconds since the Unix epoch).
pub struct PoolBracket {
    pub pool_bracket_id: u128,
    pub division_session_id: u128,
    pub type_: String,
    pub created_date: i64,
    pub creator_userid: u128,
    pub last_modified_date: i64,
    pub last_modified_userid: u128,
    pub name: String,
}

/// One row of the pool brackets table: the bracket with its session's and division's names
/// and its last modifier's name.
pub struct PoolBracketRow {
    pub pool_bracket_id: u128,
    pub division_session_id: u128,
    pub session_name: String,
    pub did: u128,
    pub division_name: String,
    pub name: String,
    pub type_: String,
    pub created_date: i64,
    pub last_modified_date: i64,
    pub last_modified_user_name: String,
    pub last_modified_user_id: u128,
}

/// Whether `row` is the row of bracket `b` in division `did` named `division_name`: its
/// session's name by id (the empty text when not found), and its last modifier's name by id
/// (the id's text for a user without one).
pub open spec fn bracket_row_of(
    row: PoolBracketRow,
    b: PoolBracket,
    did: u128,
    division_name: Seq<char>,
    session_names: Seq<(u128, String)>,
    user_names: Seq<(u128, String)>,
) -> bool {
    &&& row.pool_bracket_id == b.pool_bracket_id
    &&& row.division_session_id == b.division_session_id
    &&& row.session_name@ == name_or_empty(last_value(session_names, b.division_session_id))
    &&& row.did == did
    &&& row.division_name@ == division_name
    &&& row.name == b.name
    &&& row.type_ == b.type_
    &&& row.created_date == b.created_date
    &&& row.last_modified_date == b.last_modified_date
    &&& row.last_modified_user_name@ == name_or_id(last_value(user_names, b.last_modified_userid), b.last_modified_userid)
    &&& row.last_modified_user_id == b.last_modified_userid
}

/// The rows of a page of the pool brackets of division `did` (named `division_name`), with
/// its sessions and the users named by id.
pub fn pool_bracket_rows(
    list: &Vec<PoolBracket>,
    did: u128,
    division_name: &str,
    session_names: &Vec<(u128, String)>,
    user_names: &Vec<(u128, String)>,
) -> (r: Vec<PoolBracketRow>)
    ensures
        r@.len() == list@.len(),
        forall|i: int| 0 <= i < r@.len() ==> bracket_row_of(#[trigger] r@[i], list@[i], did, division_name@,
            session_names@, user_names@),
{
    let mut rows: Vec<PoolBracketRow> = Vec::new();
    let mut i: usize = 0;
    while i < list.len()
        invariant
            i <= list@.len(),
            rows@.len() == i,
            forall|k: int| 0 <= k < i ==> bracket_row_of(#[trigger] rows@[k], list@[k], did, division_name@,
                session_names@, user_names@),
        decreases list@.len() - i,
    {
        let b = &list[i];
        rows.push(PoolBracketRow {
            pool_bracket_id: b.pool_bracket_id,
            division_session_id: b.division_session_id,
            session_name: name_or_empty_text(name_of(session_names, b.division_session_id)),
            did,
            division_name: String::from_str(division_name),
            name: b.name.clone(),
            type_: b.type_.clone(),
            created_date: b.created_date,
            last_modified_date: b.last_modified_date,
            last_modified_user_name: name_or_id_text(name_of(user_names, b.last_modified_userid), b.last_modified_userid),
            last_modified_user_id: b.last_modified_userid,
        });
        i = i + 1;
    }
    rows
}

} // verus!
