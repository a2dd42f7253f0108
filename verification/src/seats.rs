//! Maps keyed by a seat or team number, held as a list of entries in increasing key order.
//!
//! A lookup scans from the front and stops at the first key that is not smaller than the
//! key sought, so the list behaves as a map as long as its keys increase.
use vstd::prelude::*;

verus! {

/// The position of the first entry whose key is not smaller than `k` (the length if none).
pub open spec fn seat_pos<V>(s: Seq<(i32, V)>, k: i32) -> int
    decreases s.len(),
{
    if s.len() == 0 {
        0
    } else if s[0].0 >= k {
        0
    } else {
        1 + seat_pos(s.drop_first(), k)
    }
}

/// Whether an entry with key `k` is present.
pub open spec fn seat_has<V>(s: Seq<(i32, V)>, k: i32) -> bool {
    let p = seat_pos(s, k);
    p < s.len() && s[p].0 == k
}

/// The value stored under key `k`.
pub open spec fn seat_get<V>(s: Seq<(i32, V)>, k: i32) -> V
    recommends
        seat_has(s, k),
{
    s[seat_pos(s, k)].1
}

/// The list with `v` stored under `k`: the entry is replaced if present, else inserted in order.
pub open spec fn seat_insert<V>(s: Seq<(i32, V)>, k: i32, v: V) -> Seq<(i32, V)> {
    let p = seat_pos(s, k);
    if p < s.len() && s[p].0 == k {
        s.update(p, (k, v))
    } else {
        s.insert(p, (k, v))
    }
}

/// The list without the entry under `k` (unchanged if there is none).
pub open spec fn seat_remove<V>(s: Seq<(i32, V)>, k: i32) -> Seq<(i32, V)> {
    let p = seat_pos(s, k);
    if p < s.len() && s[p].0 == k {
        s.remove(p)
    } else {
        s
    }
}

/// The keys increase strictly along the list.
pub open spec fn seats_sorted<V>(s: Seq<(i32, V)>) -> bool {
    forall|i: int, j: int| 0 <= i < j < s.len() ==> s[i].0 < s[j].0
}

/// Two lists carry the same keys at the same positions.
pub open spec fn same_keys<V, W>(s: Seq<(i32, V)>, t: Seq<(i32, W)>) -> bool {
    s.len() == t.len() && forall|i: int| 0 <= i < s.len() ==> s[i].0 == t[i].0
}

pub proof fn lemma_seat_pos_bounds<V>(s: Seq<(i32, V)>, k: i32)
    ensures
        0 <= seat_pos(s, k) <= s.len(),
        forall|j: int| 0 <= j < seat_pos(s, k) ==> s[j].0 < k,
        seat_pos(s, k) < s.len() ==> s[seat_pos(s, k)].0 >= k,
    decreases s.len(),
{
    if s.len() > 0 && s[0].0 < k {
        lemma_seat_pos_bounds(s.drop_first(), k);
        assert forall|j: int| 0 <= j < seat_pos(s, k) implies s[j].0 < k by {
            if j > 0 {
                assert(s[j] == s.drop_first()[j - 1]);
            }
        }
    }
}

/// The position is fixed by the keys alone: a scan that stops at `i` has found it.
pub proof fn lemma_seat_pos_is<V>(s: Seq<(i32, V)>, k: i32, i: int)
    requires
        0 <= i <= s.len(),
        forall|j: int| 0 <= j < i ==> s[j].0 < k,
        i < s.len() ==> s[i].0 >= k,
    ensures
        seat_pos(s, k) == i,
    decreases s.len(),
{
    if s.len() > 0 && i > 0 {
        assert(s[0].0 < k);
        assert forall|j: int| 0 <= j < i - 1 implies s.drop_first()[j].0 < k by {
            assert(s.drop_first()[j] == s[j + 1]);
        }
        lemma_seat_pos_is(s.drop_first(), k, i - 1);
    }
}

/// Lists with the same keys have the same positions.
pub proof fn lemma_seat_pos_same_keys<V, W>(s: Seq<(i32, V)>, t: Seq<(i32, W)>, k: i32)
    requires
        same_keys(s, t),
    ensures
        seat_pos(s, k) == seat_pos(t, k),
{
    lemma_seat_pos_bounds(s, k);
    lemma_seat_pos_is(t, k, seat_pos(s, k));
}

/// The position of the first entry whose key is not smaller than `k`.
pub fn find_seat_pos<V>(entries: &Vec<(i32, V)>, k: i32) -> (p: usize)
    ensures
        p == seat_pos(entries@, k),
        p <= entries@.len(),
{
    let mut i: usize = 0;
    while i < entries.len() && entries[i].0 < k
        invariant
            i <= entries@.len(),
            forall|j: int| 0 <= j < i ==> entries@[j].0 < k,
        decreases entries@.len() - i,
    {
        i = i + 1;
    }
    proof {
        lemma_seat_pos_is(entries@, k, i as int);
    }
    i
}

/// The index of the entry under `k`, if there is one.
pub fn find_seat<V>(entries: &Vec<(i32, V)>, k: i32) -> (r: Option<usize>)
    ensures
        r is Some <==> seat_has(entries@, k),
        r matches Some(i) ==> i == seat_pos(entries@, k) && i < entries@.len(),
{
    let p = find_seat_pos(entries, k);
    if p < entries.len() && entries[p].0 == k {
        Some(p)
    } else {
        None
    }
}

/// Stores `v` under `k`.
pub fn put_seat<V>(entries: &mut Vec<(i32, V)>, k: i32, v: V)
    ensures
        final(entries)@ == seat_insert(old(entries)@, k, v),
{
    let p = find_seat_pos(entries, k);
    if p < entries.len() && entries[p].0 == k {
        entries.set(p, (k, v));
    } else {
        entries.insert(p, (k, v));
    }
}

/// Removes and returns the value under `k`.
pub fn take_seat<V>(entries: &mut Vec<(i32, V)>, k: i32) -> (r: Option<V>)
    ensures
        final(entries)@ == seat_remove(old(entries)@, k),
        r is Some <==> seat_has(old(entries)@, k),
        r matches Some(v) ==> v == seat_get(old(entries)@, k),
{
    let p = find_seat_pos(entries, k);
    if p < entries.len() && entries[p].0 == k {
        let (_, v) = entries.remove(p);
        Some(v)
    } else {
        None
    }
}

/// Storing under a key keeps the keys increasing.
pub proof fn lemma_insert_sorted<V>(s: Seq<(i32, V)>, k: i32, v: V)
    requires
        seats_sorted(s),
    ensures
        seats_sorted(seat_insert(s, k, v)),
        seat_has(seat_insert(s, k, v), k),
        seat_get(seat_insert(s, k, v), k) == v,
{
    lemma_seat_pos_bounds(s, k);
    let p = seat_pos(s, k);
    let r = seat_insert(s, k, v);
    if p < s.len() && s[p].0 == k {
        lemma_seat_pos_is(r, k, p);
    } else {
        assert forall|i: int, j: int| 0 <= i < j < r.len() implies r[i].0 < r[j].0 by {
            if j < p {
            } else if j == p {
            } else if i < p {
            } else if i == p {
                assert(r[j] == s[j - 1]);
            } else {
                assert(r[j] == s[j - 1] && r[i] == s[i - 1]);
            }
        }
        lemma_seat_pos_is(r, k, p);
    }
}

/// The list with each value replaced by its view.
pub open spec fn seats_view<V: View>(s: Seq<(i32, V)>) -> Seq<(i32, V::V)> {
    s.map_values(|p: (i32, V)| (p.0, p.1@))
}

/// Viewing the values keeps the keys, so lookups agree.
pub proof fn lemma_seats_view<V: View>(s: Seq<(i32, V)>, k: i32)
    ensures
        seats_view(s).len() == s.len(),
        same_keys(s, seats_view(s)),
        seat_pos(seats_view(s), k) == seat_pos(s, k),
        seat_has(seats_view(s), k) == seat_has(s, k),
        seat_has(s, k) ==> seat_get(seats_view(s), k) == seat_get(s, k)@,
{
    lemma_seat_pos_same_keys(s, seats_view(s), k);
    lemma_seat_pos_bounds(s, k);
}

/// Replacing the entry at `i` commutes with viewing.
pub proof fn lemma_seats_view_update<V: View>(s: Seq<(i32, V)>, i: int, k: i32, v: V)
    requires
        0 <= i < s.len(),
    ensures
        seats_view(s.update(i, (k, v))) == seats_view(s).update(i, (k, v@)),
{
    assert(seats_view(s.update(i, (k, v))) =~= seats_view(s).update(i, (k, v@)));
}

/// Storing commutes with viewing.
pub proof fn lemma_seats_view_insert<V: View>(s: Seq<(i32, V)>, k: i32, v: V)
    ensures
        seats_view(seat_insert(s, k, v)) == seat_insert(seats_view(s), k, v@),
{
    lemma_seats_view(s, k);
    lemma_seat_pos_bounds(s, k);
    let p = seat_pos(s, k);
    if p < s.len() && s[p].0 == k {
        assert(seats_view(seat_insert(s, k, v)) =~= seat_insert(seats_view(s), k, v@));
    } else {
        assert(seats_view(seat_insert(s, k, v)) =~= seat_insert(seats_view(s), k, v@));
    }
}

/// Removing commutes with viewing.
pub proof fn lemma_seats_view_remove<V: View>(s: Seq<(i32, V)>, k: i32)
    ensures
        seats_view(seat_remove(s, k)) == seat_remove(seats_view(s), k),
{
    lemma_seats_view(s, k);
    lemma_seat_pos_bounds(s, k);
    assert(seats_view(seat_remove(s, k)) =~= seat_remove(seats_view(s), k));
}

/// Replacing the entry found under `k` with a new value stores the new value under `k`.
pub proof fn lemma_seats_view_put_at<V: View>(s: Seq<(i32, V)>, i: int, k: i32, v: V)
    requires
        0 <= i < s.len(),
        seat_has(s, k),
        seat_pos(s, k) == i,
    ensures
        seats_view(s.update(i, (k, v))) == seat_insert(seats_view(s), k, v@),
        s.update(i, (k, v)) == seat_insert(s, k, v),
{
    lemma_seats_view(s, k);
    lemma_seats_view_update(s, i, k, v);
}

/// Taking the entry at `i` out of a list and putting another back there is replacing it.
pub proof fn lemma_remove_insert<V>(s: Seq<(i32, V)>, i: int, x: (i32, V))
    requires
        0 <= i < s.len(),
    ensures
        s.remove(i).insert(i, x) == s.update(i, x),
{
    assert(s.remove(i).insert(i, x) =~= s.update(i, x));
}

/// Storing under a key already present keeps the positions and stores the new value.
pub proof fn lemma_insert_existing<V>(s: Seq<(i32, V)>, k: i32, v: V)
    requires
        seat_has(s, k),
    ensures
        same_keys(s, seat_insert(s, k, v)),
        seat_pos(seat_insert(s, k, v), k) == seat_pos(s, k),
        seat_has(seat_insert(s, k, v), k),
        seat_get(seat_insert(s, k, v), k) == v,
{
    lemma_seat_pos_bounds(s, k);
    let r = seat_insert(s, k, v);
    assert(r == s.update(seat_pos(s, k), (k, v)));
    assert(same_keys(s, r));
    lemma_seat_pos_same_keys(s, r, k);
}

} // verus!
