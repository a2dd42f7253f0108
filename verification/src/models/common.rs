//! Query parameters shared by the listing and search requests.
use vstd::prelude::*;
use crate::clock::{id_text, id_text_of};
use crate::gameevent::event::{msg_if, texts};

verus! {

/// Which page of a listing to read.
#[derive(Debug, Clone, Copy)]
pub struct PaginationParams {
    pub page: i64,
    pub page_size: i64,
}

/// The most rows one page holds.
pub const MAX_PAGE_SIZE: u16 = 1000;

/// The rows a page reads: at most `MAX_PAGE_SIZE` of them, after skipping the pages before it.
pub open spec fn page_limit(p: PaginationParams) -> int {
    if p.page_size < MAX_PAGE_SIZE as i64 { p.page_size as int } else { MAX_PAGE_SIZE as int }
}

pub open spec fn page_offset(p: PaginationParams) -> int {
    p.page * page_limit(p)
}

impl PaginationParams {
    /// The number of rows to read and the number to skip. The skip must fit in an `i64`.
    pub fn limit_and_offset(&self) -> (r: (i64, i64))
        requires
            i64::MIN <= page_offset(*self) <= i64::MAX,
        ensures
            r.0 == page_limit(*self),
            r.1 == page_offset(*self),
    {
        let limit: i64 = if self.page_size < 1000 { self.page_size } else { 1000 };
        (limit, self.page * limit)
    }
}

/// A page of the detailed games of a pairing code.
#[derive(Debug, Clone)]
pub struct ReadGamesDetailedParams {
    pub page: i64,
    pub page_size: i64,
    pub pairing_code: String,
}

/// A time range, in seconds since the Unix epoch.
#[derive(Debug, Clone, Copy)]
pub struct SearchDateParams {
    pub from_date: i64,
    pub to_date: i64,
}

/// A tournament, by id.
#[derive(Debug, Clone, Copy)]
pub struct TournamentParam {
    pub tid: u128,
}

/// A game event as QuizMachine reports it: the game, where it is played, and the event.
#[derive(Debug, Clone)]
pub struct GameEventParams {
    pub gid: String,
    pub bldgroom: String,
    pub key: String,
    pub tk: String,
    pub tn: String,
    pub dn: String,
    pub rm: String,
    pub rd: i32,
    pub qn: i32,
    pub e: i32,
    pub n: String,
    pub t: i32,
    pub q: i32,
    pub ec: String,
    pub p1: String,
    pub p2: String,
    pub ts: String,
    pub md5: String,
    pub nonce: String,
    pub s3s: String,
}

/// Appends the message of a missing required field to a record's errors.
pub(crate) fn push_missing(errors: &mut Vec<String>, missing: bool, m: &str)
    ensures
        texts(final(errors)@) == texts(old(errors)@) + msg_if(missing, m@),
{
    if missing {
        errors.push(String::from_str(m));
    }
    proof {
        assert(texts(final(errors)@) =~= texts(old(errors)@) + msg_if(missing, m@));
    }
}

/// A copy of an optional text.
pub(crate) fn copy_text(t: &Option<String>) -> (r: Option<String>)
    ensures
        r == *t,
{
    match t {
        Some(s) => Some(s.clone()),
        None => None,
    }
}

// ─── Looking up by id ───────────────────────────────────────────────────────

/// The value of the last pair with key `k`, if any: what a map built from the pairs in order
/// holds for `k`.
pub open spec fn last_value<V>(pairs: Seq<(u128, V)>, k: u128) -> Option<V>
    decreases pairs.len(),
{
    if pairs.len() == 0 {
        None
    } else if pairs.last().0 == k {
        Some(pairs.last().1)
    } else {
        last_value(pairs.drop_last(), k)
    }
}

/// The position of the last pair with key `k`.
pub(crate) fn last_index<V>(pairs: &Vec<(u128, V)>, k: u128) -> (r: Option<usize>)
    ensures
        match r {
            Some(i) => i < pairs@.len() && pairs@[i as int].0 == k && last_value(pairs@, k) == Some(pairs@[i as int].1),
            None => last_value(pairs@, k) is None,
        },
{
    let mut i: usize = pairs.len();
    proof {
        assert(pairs@.take(pairs@.len() as int) =~= pairs@);
    }
    while i > 0
        invariant
            i <= pairs@.len(),
            last_value(pairs@, k) == last_value(pairs@.take(i as int), k),
        decreases i,
    {
        proof {
            assert(pairs@.take(i as int).last() == pairs@[i - 1]);
            assert(pairs@.take(i as int).drop_last() =~= pairs@.take(i - 1));
        }
        if pairs[i - 1].0 == k {
            return Some(i - 1);
        }
        i = i - 1;
    }
    None
}

/// The name stored last for `k`.
pub(crate) fn name_of(pairs: &Vec<(u128, String)>, k: u128) -> (r: Option<String>)
    ensures
        r == last_value(pairs@, k),
{
    match last_index(pairs, k) {
        Some(i) => Some(pairs[i].1.clone()),
        None => None,
    }
}

/// A name, or the empty text when there is none.
pub open spec fn name_or_empty(n: Option<String>) -> Seq<char> {
    match n {
        Some(s) => s@,
        None => seq![],
    }
}

/// The name of a user, or the text of the user's id when there is none.
pub open spec fn name_or_id(n: Option<String>, id: u128) -> Seq<char> {
    match n {
        Some(s) => s@,
        None => id_text_of(id),
    }
}

/// A name, or the empty text when there is none.
pub(crate) fn name_or_empty_text(n: Option<String>) -> (r: String)
    ensures
        r@ == name_or_empty(n),
{
    match n {
        Some(s) => s,
        None => String::new(),
    }
}

/// The name of a user, or the text of the user's id when there is none.
pub(crate) fn name_or_id_text(n: Option<String>, id: u128) -> (r: String)
    ensures
        r@ == name_or_id(n, id),
{
    match n {
        Some(s) => s,
        None => id_text(id),
    }
}

} // verus!
