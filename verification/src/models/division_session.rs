//! Sessions of a division, and the builder of their records.
use vstd::prelude::*;
use crate::models::common::{last_value, name_of, name_or_empty, name_or_empty_text, name_or_id, name_or_id_text};
use crate::gameevent::event::{msg_if, texts};
use crate::models::common::push_missing;

verus! {

/// Collects the fields of a record (ids as 128-bit integers) and checks that the required ones are given.
pub struct DivisionSessionBuilder {
    pub did: u128,
    pub name: Option<String>,
    pub creator_userid: Option<u128>,
    pub last_modified_userid: Option<u128>,
}

/// A record to insert; the last modifier is the creator when none is given.
pub struct NewDivisionSession {
    pub did: u128,
    pub name: String,
    pub creator_userid: u128,
    pub last_modified_userid: u128,
}

/// The missing required fields, in the order they are checked.
pub open spec fn division_session_missing(b: DivisionSessionBuilder) -> Seq<Seq<char>> {
    msg_if(b.name is None, "name is required"@)
        + msg_if(b.creator_userid is None, "creator_userid is required"@)
}

/// Whether `n` is the record that the complete builder `b` gives.
pub open spec fn division_session_record(b: DivisionSessionBuilder, n: NewDivisionSession) -> bool {
    &&& n.did == b.did
    &&& b.name == Some(n.name)
    &&& b.creator_userid == Some(n.creator_userid)
    &&& n.last_modified_userid == (match b.last_modified_userid { Some(x) => x, None => n.creator_userid })
}

impl DivisionSessionBuilder {
    /// A builder for division `did` with nothing else given.
    pub fn new(did: u128) -> (r: Self)
        ensures
            r.did == did,
            r.name is None,
            r.creator_userid is None,
            r.last_modified_userid is None,
    {
        DivisionSessionBuilder {
            did: did,
            name: None,
            creator_userid: None,
            last_modified_userid: None,
        }
    }

    /// The same as `new`.
    pub fn new_default(did: u128) -> (r: Self)
        ensures
            r.did == did,
            r.name is None,
            r.creator_userid is None,
            r.last_modified_userid is None,
    {
        DivisionSessionBuilder {
            did: did,
            name: None,
            creator_userid: None,
            last_modified_userid: None,
        }
    }

    pub fn set_did(self, did: u128) -> (r: Self)
        ensures
            r == (DivisionSessionBuilder { did: did, ..self }),
    {
        DivisionSessionBuilder { did: did, ..self }
    }

    pub fn set_name(self, name: &str) -> (r: Self)
        ensures
            r.name matches Some(s) && s@ == name@,
            r == (DivisionSessionBuilder { name: r.name, ..self }),
    {
        DivisionSessionBuilder { name: Some(String::from_str(name)), ..self }
    }

    pub fn set_creator_userid(self, user_id: u128) -> (r: Self)
        ensures
            r == (DivisionSessionBuilder { creator_userid: Some(user_id), ..self }),
    {
        DivisionSessionBuilder { creator_userid: Some(user_id), ..self }
    }

    pub fn set_last_modified_userid(self, user_id: u128) -> (r: Self)
        ensures
            r == (DivisionSessionBuilder { last_modified_userid: Some(user_id), ..self }),
    {
        DivisionSessionBuilder { last_modified_userid: Some(user_id), ..self }
    }

    /// `Ok` when every required field is given, else a message for each one missing.
    fn validate(&self) -> (r: Result<(), Vec<String>>)
        ensures
            r is Ok <==> division_session_missing(*self).len() == 0,
            r matches Err(v) ==> texts(v@) == division_session_missing(*self),
    {
        let mut errors: Vec<String> = Vec::new();
        push_missing(&mut errors, self.name.is_none(), "name is required");
        push_missing(&mut errors, self.creator_userid.is_none(), "creator_userid is required");
        proof {
            assert(texts(errors@) =~= division_session_missing(*self));
        }
        if errors.len() > 0 {
            Err(errors)
        } else {
            Ok(())
        }
    }

    /// The record, or a message for each required field missing.
    pub fn build(self) -> (r: Result<NewDivisionSession, Vec<String>>)
        ensures
            r is Ok <==> division_session_missing(self).len() == 0,
            r matches Ok(n) ==> division_session_record(self, n),
            r matches Err(v) ==> texts(v@) == division_session_missing(self),
    {
        match self.validate() {
            Err(e) => Err(e),
            Ok(()) => {
                let name = match self.name { Some(x) => x, None => String::new() };
                let creator_userid = match self.creator_userid { Some(x) => x, None => 0 };
                Ok(NewDivisionSession {
                    did: self.did,
                    name: name,
                    creator_userid: creator_userid,
                    last_modified_userid: match self.last_modified_userid { Some(x) => x, None => creator_userid },
                })
            },
        }
    }
}

/// A stored division session (times in microseconds since the Unix epoch).
pub struct DivisionSession {
    pub division_session_id: u128,
    pub did: u128,
    pub created_date: i64,
    pub creator_userid: u128,
    pub last_modified_date: i64,
    pub last_modified_userid: u128,
    pub name: String,
}

/// One row of the division sessions table: the session with its division's name and its last
/// modifier's name.
pub struct DivisionSessionRow {
    pub division_session_id: u128,
    pub did: u128,
    pub division_name: String,
    pub name: String,
    pub created_date: i64,
    pub last_modified_date: i64,
    pub last_modified_user_name: String,
    pub last_modified_user_id: u128,
}

/// Whether `row` is the row of session `s`: its division's name by id (the empty text when not
/// found), and its last modifier's name by id (the id's text for a user without one).
pub open spec fn session_row_of(
    row: DivisionSessionRow,
    s: DivisionSession,
    division_names: Seq<(u128, String)>,
    user_names: Seq<(u128, String)>,
) -> bool {
    &&& row.division_session_id == s.division_session_id
    &&& row.did == s.did
    &&& row.division_name@ == name_or_empty(last_value(division_names, s.did))
    &&& row.name == s.name
    &&& row.created_date == s.created_date
    &&& row.last_modified_date == s.last_modified_date
    &&& row.last_modified_user_name@ == name_or_id(last_value(user_names, s.last_modified_userid), s.last_modified_userid)
    &&& row.last_modified_user_id == s.last_modified_userid
}

/// The rows of a page of division sessions, with divisions and users named by id.
pub fn session_rows(
    list: &Vec<DivisionSession>,
    division_names: &Vec<(u128, String)>,
    user_names: &Vec<(u128, String)>,
) -> (r: Vec<DivisionSessionRow>)
    ensures
        r@.len() == list@.len(),
        forall|i: int| 0 <= i < r@.len() ==> session_row_of(#[trigger] r@[i], list@[i], division_names@, user_names@),
{
    let mut rows: Vec<DivisionSessionRow> = Vec::new();
    let mut i: usize = 0;
    while i < list.len()
        invariant
            i <= list@.len(),
            rows@.len() == i,
            forall|k: int| 0 <= k < i ==> session_row_of(#[trigger] rows@[k], list@[k], division_names@, user_names@),
        decreases list@.len() - i,
    {
        let s = &list[i];
        rows.push(DivisionSessionRow {
            division_session_id: s.division_session_id,
            did: s.did,
            division_name: name_or_empty_text(name_of(division_names, s.did)),
            name: s.name.clone(),
            created_date: s.created_date,
            last_modified_date: s.last_modified_date,
            last_modified_user_name: name_or_id_text(name_of(user_names, s.last_modified_userid), s.last_modified_userid),
            last_modified_user_id: s.last_modified_userid,
        });
        i = i + 1;
    }
    rows
}

} // verus!
