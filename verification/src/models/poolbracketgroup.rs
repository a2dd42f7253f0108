//! Groups of the pool brackets that run at once in a division, and the builder of their records.
use vstd::prelude::*;
use crate::gameevent::event::{msg_if, texts};
use crate::models::common::push_missing;

verus! {

/// Collects the fields of a record (ids as 128-bit integers) and checks that the required ones are given.
pub struct PoolBracketGroupBuilder {
    pub divisionid: u128,
    pub name: Option<String>,
    pub creator_userid: Option<u128>,
    pub last_modified_userid: Option<u128>,
}

/// A record to insert; the last modifier is the creator when none is given.
pub struct NewPoolBracketGroup {
    pub divisionid: u128,
    pub name: String,
    pub creator_userid: u128,
    pub last_modified_userid: u128,
}

/// The missing required fields, in the order they are checked.
pub open spec fn pool_bracket_group_missing(b: PoolBracketGroupBuilder) -> Seq<Seq<char>> {
    msg_if(b.name is None, "name is required"@)
        + msg_if(b.creator_userid is None, "creator_userid is required"@)
}

/// Whether `n` is the record that the complete builder `b` gives.
pub open spec fn pool_bracket_group_record(b: PoolBracketGroupBuilder, n: NewPoolBracketGroup) -> bool {
    &&& n.divisionid == b.divisionid
    &&& b.name == Some(n.name)
    &&& b.creator_userid == Some(n.creator_userid)
    &&& n.last_modified_userid == (match b.last_modified_userid { Some(x) => x, None => n.creator_userid })
}

impl PoolBracketGroupBuilder {
    /// A builder for division `divisionid` with nothing else given.
    pub fn new(divisionid: u128) -> (r: Self)
        ensures
            r.divisionid == divisionid,
            r.name is None,
            r.creator_userid is None,
            r.last_modified_userid is None,
    {
        PoolBracketGroupBuilder {
            divisionid: divisionid,
            name: None,
            creator_userid: None,
            last_modified_userid: None,
        }
    }

    /// The same as `new`.
    pub fn new_default(divisionid: u128) -> (r: Self)
        ensures
            r.divisionid == divisionid,
            r.name is None,
            r.creator_userid is None,
            r.last_modified_userid is None,
    {
        PoolBracketGroupBuilder {
            divisionid: divisionid,
            name: None,
            creator_userid: None,
            last_modified_userid: None,
        }
    }

    pub fn set_divisionid(self, divisionid: u128) -> (r: Self)
        ensures
            r == (PoolBracketGroupBuilder { divisionid: divisionid, ..self }),
    {
        PoolBracketGroupBuilder { divisionid: divisionid, ..self }
    }

    pub fn set_name(self, name: &str) -> (r: Self)
        ensures
            r.name matches Some(s) && s@ == name@,
            r == (PoolBracketGroupBuilder { name: r.name, ..self }),
    {
        PoolBracketGroupBuilder { name: Some(String::from_str(name)), ..self }
    }

    pub fn set_creator_userid(self, user_id: u128) -> (r: Self)
        ensures
            r == (PoolBracketGroupBuilder { creator_userid: Some(user_id), ..self }),
    {
        PoolBracketGroupBuilder { creator_userid: Some(user_id), ..self }
    }

    pub fn set_last_modified_userid(self, user_id: u128) -> (r: Self)
        ensures
            r == (PoolBracketGroupBuilder { last_modified_userid: Some(user_id), ..self }),
    {
        PoolBracketGroupBuilder { last_modified_userid: Some(user_id), ..self }
    }

    /// `Ok` when every required field is given, else a message for each one missing.
    fn validate(&self) -> (r: Result<(), Vec<String>>)
        ensures
            r is Ok <==> pool_bracket_group_missing(*self).len() == 0,
            r matches Err(v) ==> texts(v@) == pool_bracket_group_missing(*self),
    {
        let mut errors: Vec<String> = Vec::new();
        push_missing(&mut errors, self.name.is_none(), "name is required");
        push_missing(&mut errors, self.creator_userid.is_none(), "creator_userid is required");
        proof {
            assert(texts(errors@) =~= pool_bracket_group_missing(*self));
        }
        if errors.len() > 0 {
            Err(errors)
        } else {
            Ok(())
        }
    }

    /// The record, or a message for each required field missing.
    pub fn build(self) -> (r: Result<NewPoolBracketGroup, Vec<String>>)
        ensures
            r is Ok <==> pool_bracket_group_missing(self).len() == 0,
            r matches Ok(n) ==> pool_bracket_group_record(self, n),
            r matches Err(v) ==> texts(v@) == pool_bracket_group_missing(self),
    {
        match self.validate() {
            Err(e) => Err(e),
            Ok(()) => {
                let name = match self.name { Some(x) => x, None => String::new() };
                let creator_userid = match self.creator_userid { Some(x) => x, None => 0 };
                Ok(NewPoolBracketGroup {
                    divisionid: self.divisionid,
                    name: name,
                    creator_userid: creator_userid,
                    last_modified_userid: match self.last_modified_userid { Some(x) => x, None => creator_userid },
                })
            },
        }
    }
}

} // verus!
