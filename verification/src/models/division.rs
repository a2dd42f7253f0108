//! Divisions of a tournament, and the builder of their records.
use vstd::prelude::*;
use crate::models::common::{last_value, name_of, name_or_id, name_or_id_text};
use crate::gameevent::event::{msg_if, texts};
use crate::clock::nil_id;
use crate::models::common::push_missing;

verus! {

/// Collects a division's fields (ids as 128-bit integers) and checks that the required ones are given.
pub struct DivisionBuilder {
    pub tid: u128,
    pub dname: Option<String>,
    pub breadcrumb: Option<String>,
    pub is_public: Option<bool>,
    pub shortinfo: Option<String>,
    pub last_modified_user: Option<u128>,
}

/// A division record to insert; the last modifier is the nil id when none is given.
pub struct NewDivision {
    pub tid: u128,
    pub dname: String,
    pub breadcrumb: String,
    pub is_public: bool,
    pub shortinfo: String,
    pub last_modified_user: u128,
}

/// The missing required fields, in the order they are checked.
pub open spec fn division_missing(b: DivisionBuilder) -> Seq<Seq<char>> {
    msg_if(b.dname is None, "dname is required"@)
        + msg_if(b.breadcrumb is None, "breadcrumb is required"@)
        + msg_if(b.is_public is None, "is_public is required"@)
        + msg_if(b.shortinfo is None, "shortinfo is required"@)
}

/// Whether `n` is the record that the complete builder `b` gives.
pub open spec fn division_record(b: DivisionBuilder, n: NewDivision) -> bool {
    &&& n.tid == b.tid
    &&& b.dname == Some(n.dname)
    &&& b.breadcrumb == Some(n.breadcrumb)
    &&& b.is_public == Some(n.is_public)
    &&& b.shortinfo == Some(n.shortinfo)
    &&& n.last_modified_user == (match b.last_modified_user { Some(x) => x, None => 0 })
}

impl DivisionBuilder {
    /// A builder for a division of tournament `tid` with nothing else given.
    pub fn new(tid: u128) -> (r: Self)
        ensures
            r.tid == tid,
            r.dname is None,
            r.breadcrumb is None,
            r.is_public is None,
            r.shortinfo is None,
            r.last_modified_user is None,
    {
        DivisionBuilder {
            tid: tid,
            dname: None,
            breadcrumb: None,
            is_public: None,
            shortinfo: None,
            last_modified_user: None,
        }
    }

    /// A builder for a private division named `dname` with sample breadcrumb and summary.
    pub fn new_default(dname: &str, tid: u128) -> (r: Self)
        ensures
            r.tid == tid,
            r.dname matches Some(s) && s@ == dname@,
            r.breadcrumb matches Some(s) && s@ == "/test/post/for/division/1"@,
            r.is_public == Some(false),
            r.shortinfo matches Some(s) && s@ == "Experienced (but still young)."@,
            r.last_modified_user is None,
    {
        DivisionBuilder {
            tid: tid,
            dname: Some(String::from_str(dname)),
            breadcrumb: Some(String::from_str("/test/post/for/division/1")),
            is_public: Some(false),
            shortinfo: Some(String::from_str("Experienced (but still young).")),
            last_modified_user: None,
        }
    }

    pub fn set_tid(self, tid: u128) -> (r: Self)
        ensures
            r == (DivisionBuilder { tid: tid, ..self }),
    {
        DivisionBuilder { tid: tid, ..self }
    }

    pub fn set_dname(self, dname_val: &str) -> (r: Self)
        ensures
            r.dname matches Some(s) && s@ == dname_val@,
            r == (DivisionBuilder { dname: r.dname, ..self }),
    {
        DivisionBuilder { dname: Some(String::from_str(dname_val)), ..self }
    }

    pub fn set_breadcrumb(self, val: &str) -> (r: Self)
        ensures
            r.breadcrumb matches Some(s) && s@ == val@,
            r == (DivisionBuilder { breadcrumb: r.breadcrumb, ..self }),
    {
        DivisionBuilder { breadcrumb: Some(String::from_str(val)), ..self }
    }

    pub fn set_is_public(self, val: bool) -> (r: Self)
        ensures
            r == (DivisionBuilder { is_public: Some(val), ..self }),
    {
        DivisionBuilder { is_public: Some(val), ..self }
    }

    pub fn set_shortinfo(self, val: String) -> (r: Self)
        ensures
            r == (DivisionBuilder { shortinfo: Some(val), ..self }),
    {
        DivisionBuilder { shortinfo: Some(val), ..self }
    }

    pub fn set_last_modified_user(self, user_id: u128) -> (r: Self)
        ensures
            r == (DivisionBuilder { last_modified_user: Some(user_id), ..self }),
    {
        DivisionBuilder { last_modified_user: Some(user_id), ..self }
    }

    /// `Ok` when every required field is given, else a message for each one missing.
    fn validate_all_are_some(&self) -> (r: Result<(), Vec<String>>)
        ensures
            r is Ok <==> division_missing(*self).len() == 0,
            r matches Err(v) ==> texts(v@) == division_missing(*self),
    {
        let mut errors: Vec<String> = Vec::new();
        push_missing(&mut errors, self.dname.is_none(), "dname is required");
        push_missing(&mut errors, self.breadcrumb.is_none(), "breadcrumb is required");
        push_missing(&mut errors, self.is_public.is_none(), "is_public is required");
        push_missing(&mut errors, self.shortinfo.is_none(), "shortinfo is required");
        proof {
            assert(texts(errors@) =~= division_missing(*self));
        }
        if errors.len() > 0 {
            Err(errors)
        } else {
            Ok(())
        }
    }

    /// The record, or a message for each required field missing.
    pub fn build(self) -> (r: Result<NewDivision, Vec<String>>)
        ensures
            r is Ok <==> division_missing(self).len() == 0,
            r matches Ok(n) ==> division_record(self, n),
            r matches Err(v) ==> texts(v@) == division_missing(self),
    {
        match self.validate_all_are_some() {
            Err(e) => Err(e),
            Ok(()) => {
                let dname = match self.dname { Some(x) => x, None => String::new() };
                let breadcrumb = match self.breadcrumb { Some(x) => x, None => String::new() };
                let is_public = match self.is_public { Some(x) => x, None => false };
                let shortinfo = match self.shortinfo { Some(x) => x, None => String::new() };
                Ok(NewDivision {
                    tid: self.tid,
                    dname: dname,
                    breadcrumb: breadcrumb,
                    is_public: is_public,
                    shortinfo: shortinfo,
                    last_modified_user: match self.last_modified_user { Some(x) => x, None => nil_id() },
                })
            },
        }
    }
}

/// A stored division (times in microseconds since the Unix epoch).
pub struct Division {
    pub did: u128,
    pub tid: u128,
    pub dname: String,
    pub breadcrumb: String,
    pub is_public: bool,
    pub shortinfo: String,
    pub created_at: i64,
    pub updated_at: i64,
    pub last_modified_user: u128,
}

/// One row of the divisions table: the division with its last modifier's name.
pub struct DivisionRow {
    pub did: u128,
    pub tid: u128,
    pub dname: String,
    pub breadcrumb: String,
    pub is_public: bool,
    pub shortinfo: String,
    pub created_at: i64,
    pub updated_at: i64,
    pub last_modified_user_name: String,
    pub last_modified_user_id: u128,
}

/// Whether `row` is the row of division `d`: its fields, and its last modifier's name by id
/// (the id's text for a user without one).
pub open spec fn division_row_of(row: DivisionRow, d: Division, user_names: Seq<(u128, String)>) -> bool {
    &&& row.did == d.did
    &&& row.tid == d.tid
    &&& row.dname == d.dname
    &&& row.breadcrumb == d.breadcrumb
    &&& row.is_public == d.is_public
    &&& row.shortinfo == d.shortinfo
    &&& row.created_at == d.created_at
    &&& row.updated_at == d.updated_at
    &&& row.last_modified_user_name@ == name_or_id(last_value(user_names, d.last_modified_user), d.last_modified_user)
    &&& row.last_modified_user_id == d.last_modified_user
}

/// The rows of a page of divisions, with the users named by id in `user_names`.
pub fn division_rows(list: &Vec<Division>, user_names: &Vec<(u128, String)>) -> (r: Vec<DivisionRow>)
    ensures
        r@.len() == list@.len(),
        forall|i: int| 0 <= i < r@.len() ==> division_row_of(#[trigger] r@[i], list@[i], user_names@),
{
    let mut rows: Vec<DivisionRow> = Vec::new();
    let mut i: usize = 0;
    while i < list.len()
        invariant
            i <= list@.len(),
            rows@.len() == i,
            forall|k: int| 0 <= k < i ==> division_row_of(#[trigger] rows@[k], list@[k], user_names@),
        decreases list@.len() - i,
    {
        let d = &list[i];
        rows.push(DivisionRow {
            did: d.did,
            tid: d.tid,
            dname: d.dname.clone(),
            breadcrumb: d.breadcrumb.clone(),
            is_public: d.is_public,
            shortinfo: d.shortinfo.clone(),
            created_at: d.created_at,
            updated_at: d.updated_at,
            last_modified_user_name: name_or_id_text(name_of(user_names, d.last_modified_user), d.last_modified_user),
            last_modified_user_id: d.last_modified_user,
        });
        i = i + 1;
    }
    rows
}

} // verus!
