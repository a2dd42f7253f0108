//! Reading game events from a QuizMachine export: the file's rows grouped into games by
//! (tournament, division, room, round), each game's numbering checked, and the plan of what
//! to import.
//!
//! The columns, in order: GUID, tournament name, division, room name, round number,
//! question number, event number, team name, team number, seat number, event code, parm0,
//! parm1, date and time.
use vstd::prelude::*;
use crate::gameevent::code::{is_code, parse_gameeventcode};
use crate::models::import_spec::{
    all_digits, digit_value, digits_value, empty_group, group_or_empty, groups_of, groups_of_lines, has_sign,
    is_digit, key_lt, key_of_fields, lemma_key_lt_total, lemma_key_lt_trans, line_step, msg_columns,
    msg_not_integer, msg_unknown_code, parse_i32, pieces, pieces_state, row_step, split_fields, split_state,
    split_step, text_lt, unknown_key, with_error, GroupView, KeyView, RowView, SplitState, eventnums_of,
    first_missing, has_duplicates, has_question, max_question, min_question, msg_duplicate_eventnums,
    msg_missing_eventnum, msg_question_gap, prefix_run, question_problem, questions_problem, run_upto, seq_max,
    sequence_error,
};
use crate::text::{int_text, int_to_text, push_char, str_eq, trim, trim_str};
use crate::clock::now_micros;
use crate::gameevent::event::{new_events_view, GameEventView, NewGameEvent};

verus! {

// ─── Fields ─────────────────────────────────────────────────────────────────

/// The fields of a line: split at commas outside single quotes, quotes dropped.
pub fn split_line_fields(line: &str) -> (r: Vec<String>)
    ensures
        r@.map_values(|s: String| s@) == split_fields(line@),
{
    let n = line.unicode_len();
    let mut fields: Vec<String> = Vec::new();
    let mut cur = String::new();
    let mut in_quote = false;
    let mut i: usize = 0;
    while i < n
        invariant
            n == line@.len(),
            i <= n,
            fields@.map_values(|s: String| s@) == split_state(line@.take(i as int)).fields,
            cur@ == split_state(line@.take(i as int)).cur,
            in_quote == split_state(line@.take(i as int)).in_quote,
        decreases n - i,
    {
        let ch = line.get_char(i);
        proof {
            assert(line@.take(i + 1).drop_last() =~= line@.take(i as int));
            assert(line@.take(i + 1).last() == ch);
        }
        if ch == '\'' {
            in_quote = !in_quote;
        } else if ch == ',' && !in_quote {
            let ghost before = fields@.map_values(|s: String| s@);
            let done = cur;
            cur = String::new();
            fields.push(done);
            proof {
                assert(fields@.map_values(|s: String| s@) =~= before.push(done@));
            }
        } else {
            push_char(&mut cur, ch);
        }
        i = i + 1;
    }
    let ghost before = fields@.map_values(|s: String| s@);
    fields.push(cur);
    proof {
        assert(line@.take(n as int) =~= line@);
        assert(fields@.map_values(|s: String| s@) =~= before.push(split_state(line@).cur));
    }
    fields
}

// ─── Integers ───────────────────────────────────────────────────────────────

proof fn lemma_digits_value_nonneg_grows(s: Seq<char>, k: int)
    requires
        all_digits(s),
        0 <= k <= s.len(),
    ensures
        0 <= digits_value(s.take(k)) <= digits_value(s),
    decreases s.len(),
{
    if s.len() > 0 {
        if k == s.len() {
            assert(s.take(k) =~= s);
            lemma_digits_value_nonneg_grows(s.drop_last(), s.len() - 1);
            assert(s.drop_last().take(s.len() - 1) =~= s.drop_last());
        } else {
            assert(s.drop_last().take(k) =~= s.take(k));
            lemma_digits_value_nonneg_grows(s.drop_last(), k);
            assert(is_digit(s[s.len() - 1]));
        }
    } else {
        assert(s.take(k) =~= s);
    }
}

/// The integer a text reads as (an optional sign and decimal digits, in range), as
/// `i32::from_str` reads it.
#[verifier::rlimit(40)]
pub fn parse_i32_text(s: &str) -> (r: Option<i32>)
    ensures
        r == parse_i32(s@),
{
    let n = s.unicode_len();
    let mut start: usize = 0;
    let mut neg = false;
    if n > 0 {
        let c0 = s.get_char(0);
        if c0 == '+' || c0 == '-' {
            start = 1;
            neg = c0 == '-';
        }
    }
    proof {
        assert(has_sign(s@) <==> start == 1);
        assert(neg <==> (has_sign(s@) && s@[0] == '-'));
    }
    let ghost body = if has_sign(s@) { s@.drop_first() } else { s@ };
    proof {
        assert(body =~= s@.subrange(start as int, n as int));
    }
    if start == n {
        proof {
            assert(body.len() == 0);
        }
        return None;
    }
    let mut acc: i64 = 0;
    let mut i: usize = start;
    while i < n
        invariant
            n == s@.len(),
            start <= i <= n,
            start <= 1,
            body == s@.subrange(start as int, n as int),
            body == (if has_sign(s@) { s@.drop_first() } else { s@ }),
            all_digits(body.take(i - start)),
            acc == digits_value(body.take(i - start)),
            0 <= acc <= 2147483648,
        decreases n - i,
    {
        let c = s.get_char(i);
        proof {
            assert(body.take(i - start + 1).drop_last() =~= body.take(i - start));
            assert(body.take(i - start + 1).last() == c);
        }
        if !('0' <= c && c <= '9') {
            proof {
                assert(body[i - start] == c);
                assert(!all_digits(body));
            }
            return None;
        }
        let d: i64 = (c as u32 - '0' as u32) as i64;
        proof {
            assert(d == digit_value(c));
        }
        acc = acc * 10 + d;
        if acc > 2147483648 {
            proof {
                if all_digits(body) {
                    lemma_digits_value_nonneg_grows(body, i - start + 1);
                }
            }
            return None;
        }
        i = i + 1;
    }
    proof {
        assert(body.take(n - start) =~= body);
        assert(all_digits(body));
        assert(acc == digits_value(body));
    }
    let v: i64 = if neg { -acc } else { acc };
    if v < -2147483648 || v > 2147483647 {
        None
    } else {
        Some(v as i32)
    }
}

// ─── Rows and groups ────────────────────────────────────────────────────────

/// A row of the file.
pub struct Row {
    pub question: i32,
    pub eventnum: i32,
    pub team_name: String,
    pub team: i32,
    pub seat: i32,
    pub event_code: String,
    pub parm1: String,
    pub parm2: String,
    pub client_ts: String,
}

/// The rows of one game, with what could not be read of it.
pub struct Group {
    pub tournament: String,
    pub division: String,
    pub room: String,
    pub round: String,
    pub rows: Vec<Row>,
    pub parse_errors: Vec<String>,
}

impl View for Row {
    type V = RowView;

    open spec fn view(&self) -> RowView {
        RowView {
            question: self.question,
            eventnum: self.eventnum,
            team_name: self.team_name@,
            team: self.team,
            seat: self.seat,
            event_code: self.event_code@,
            parm1: self.parm1@,
            parm2: self.parm2@,
            client_ts: self.client_ts@,
        }
    }
}

impl View for Group {
    type V = GroupView;

    open spec fn view(&self) -> GroupView {
        GroupView {
            tournament: self.tournament@,
            division: self.division@,
            room: self.room@,
            round: self.round@,
            rows: rows_view(self.rows@),
            parse_errors: self.parse_errors@.map_values(|s: String| s@),
        }
    }
}

/// The key of a group.
pub open spec fn group_key(g: GroupView) -> KeyView {
    (g.tournament, g.division, g.room, g.round)
}

/// The groups, in order of their keys, are the games of the map `m`: every game once.
pub open spec fn groups_are(v: Seq<Group>, m: Map<KeyView, GroupView>) -> bool {
    &&& forall|i: int, j: int| 0 <= i < j < v.len() ==> key_lt(group_key(#[trigger] v[i]@), group_key(#[trigger] v[j]@))
    &&& forall|i: int| 0 <= i < v.len() ==> m.dom().contains(group_key(#[trigger] v[i]@)) && m[group_key(v[i]@)] == v[i]@
    &&& forall|k: KeyView| #[trigger] m.dom().contains(k) ==> exists|i: int| 0 <= i < v.len() && group_key(#[trigger] v[i]@) == k
}

/// Every game of a map is filed under its own key.
pub open spec fn keys_match(m: Map<KeyView, GroupView>) -> bool {
    forall|k: KeyView| #[trigger] m.dom().contains(k) ==> group_key(m[k]) == k
}

fn make_msg_columns(n: usize) -> (m: String)
    requires
        n < 1000000,
    ensures
        m@ == msg_columns(n as int),
{
    let t = int_to_text(n as i64);
    String::from_str("expected 14 columns but found ").concat(t.as_str())
}

fn make_msg_not_integer(what: &str, text: &str) -> (m: String)
    ensures
        m@ == msg_not_integer(what@, text@),
{
    String::from_str(what).concat(" '").concat(text).concat("' is not an integer")
}

fn key_less(a: &Group, t: &str, d: &str, r: &str, rd: &str) -> (lt: bool)
    ensures
        lt == key_lt(group_key(a@), (t@, d@, r@, rd@)),
{
    let x = text_less(a.tournament.as_str(), t);
    let e0 = str_eq(a.tournament.as_str(), t);
    let y = text_less(a.division.as_str(), d);
    let e1 = str_eq(a.division.as_str(), d);
    let z = text_less(a.room.as_str(), r);
    let e2 = str_eq(a.room.as_str(), r);
    let w = text_less(a.round.as_str(), rd);
    x || (e0 && y) || (e0 && e1 && z) || (e0 && e1 && e2 && w)
}

/// Whether `a` comes before `b` in character order.
pub fn text_less(a: &str, b: &str) -> (r: bool)
    ensures
        r == text_lt(a@, b@),
{
    let n = a.unicode_len();
    let m = b.unicode_len();
    let mut i: usize = 0;
    proof {
        assert(a@.skip(0) =~= a@);
        assert(b@.skip(0) =~= b@);
    }
    while i < n && i < m && a.get_char(i) == b.get_char(i)
        invariant
            n == a@.len(),
            m == b@.len(),
            i <= n,
            i <= m,
            text_lt(a@, b@) == text_lt(a@.skip(i as int), b@.skip(i as int)),
        decreases n - i,
    {
        proof {
            assert(a@.skip(i as int).drop_first() =~= a@.skip(i + 1));
            assert(b@.skip(i as int).drop_first() =~= b@.skip(i + 1));
            assert(a@.skip(i as int)[0] == a@[i as int]);
            assert(b@.skip(i as int)[0] == b@[i as int]);
        }
        i = i + 1;
    }
    proof {
        assert(a@.skip(i as int).len() == n - i);
        assert(b@.skip(i as int).len() == m - i);
        if i < n && i < m {
            assert(a@.skip(i as int)[0] == a@[i as int]);
            assert(b@.skip(i as int)[0] == b@[i as int]);
        }
    }
    if i == n {
        i < m
    } else if i == m {
        false
    } else {
        a.get_char(i) < b.get_char(i)
    }
}

/// The position of the group with key (t, d, r, rd), inserting an empty one with that key in
/// order when there is none.
fn find_or_insert(groups: &mut Vec<Group>, t: &str, d: &str, r: &str, rd: &str, Ghost(m): Ghost<Map<KeyView, GroupView>>) -> (i: usize)
    requires
        groups_are(old(groups)@, m),
        keys_match(m),
    ensures
        i < final(groups)@.len(),
        group_key(final(groups)@[i as int]@) == (t@, d@, r@, rd@),
        final(groups)@[i as int]@ == (if m.dom().contains((t@, d@, r@, rd@)) {
            m[(t@, d@, r@, rd@)]
        } else {
            GroupView { tournament: t@, division: d@, room: r@, round: rd@, ..empty_group() }
        }),
        groups_are(final(groups)@, m.insert((t@, d@, r@, rd@), final(groups)@[i as int]@)),
{
    let ghost k = (t@, d@, r@, rd@);
    let mut p: usize = 0;
    while p < groups.len() && key_less(&groups[p], t, d, r, rd)
        invariant
            p <= groups@.len(),
            k == (t@, d@, r@, rd@),
            forall|j: int| 0 <= j < p ==> key_lt(group_key(#[trigger] groups@[j]@), k),
        decreases groups@.len() - p,
    {
        p = p + 1;
    }
    if p < groups.len() && str_eq(groups[p].tournament.as_str(), t) && str_eq(groups[p].division.as_str(), d)
        && str_eq(groups[p].room.as_str(), r) && str_eq(groups[p].round.as_str(), rd) {
        proof {
            assert(group_key(groups@[p as int]@) == k);
            assert(m.insert(k, groups@[p as int]@) =~= m);
        }
        return p;
    }
    proof {
        // No group holds the key: those before `p` are below it, the others above.
        assert(!m.dom().contains(k)) by {
            if m.dom().contains(k) {
                let j = choose|j: int| 0 <= j < groups@.len() && group_key(#[trigger] groups@[j]@) == k;
                lemma_key_lt_total(k, k);
                if j >= p {
                    if j > p {
                        lemma_key_lt_total(group_key(groups@[p as int]@), k);
                        assert(key_lt(group_key(groups@[p as int]@), group_key(groups@[j]@)));
                    }
                }
            }
        }
    }
    let ghost old_v = groups@;
    let g = Group {
        tournament: String::from_str(t),
        division: String::from_str(d),
        room: String::from_str(r),
        round: String::from_str(rd),
        rows: Vec::new(),
        parse_errors: Vec::new(),
    };
    groups.insert(p, g);
    proof {
        let v = groups@;
        let m2 = m.insert(k, g@);
        assert(g@.rows =~= Seq::<RowView>::empty());
        assert(g@.parse_errors =~= Seq::<Seq<char>>::empty());
        if p < old_v.len() {
            lemma_key_lt_total(group_key(old_v[p as int]@), k);
        }
        assert forall|a: int, b: int| 0 <= a < b < v.len() implies key_lt(group_key(#[trigger] v[a]@), group_key(#[trigger] v[b]@)) by {
            if b < p {
                assert(v[a] == old_v[a] && v[b] == old_v[b]);
            } else if b == p {
                assert(v[a] == old_v[a]);
            } else if a == p {
                assert(v[b] == old_v[b - 1]);
                if b - 1 > p {
                    lemma_key_lt_trans(k, group_key(old_v[p as int]@), group_key(old_v[b - 1]@));
                }
            } else if a < p {
                assert(v[a] == old_v[a] && v[b] == old_v[b - 1]);
            } else {
                assert(v[a] == old_v[a - 1] && v[b] == old_v[b - 1]);
            }
        }
        assert forall|i: int| 0 <= i < v.len() implies m2.dom().contains(group_key(#[trigger] v[i]@)) && m2[group_key(v[i]@)] == v[i]@ by {
            if i < p {
                assert(v[i] == old_v[i]);
            } else if i > p {
                assert(v[i] == old_v[i - 1]);
            }
        }
        assert forall|kk: KeyView| #[trigger] m2.dom().contains(kk) implies exists|i: int| 0 <= i < v.len() && group_key(#[trigger] v[i]@) == kk by {
            if kk == k {
                assert(group_key(v[p as int]@) == kk);
            } else {
                let j = choose|j: int| 0 <= j < old_v.len() && group_key(#[trigger] old_v[j]@) == kk;
                if j < p {
                    assert(v[j] == old_v[j]);
                } else {
                    assert(v[j + 1] == old_v[j]);
                }
            }
        }
    }
    p
}

/// Reads one trimmed, non-empty line into the groups.
fn add_line(groups: &mut Vec<Group>, line: &str, Ghost(m): Ghost<Map<KeyView, GroupView>>)
    requires
        groups_are(old(groups)@, m),
        keys_match(m),
    ensures
        groups_are(final(groups)@, line_step(m, line@)),
        keys_match(line_step(m, line@)),
{
    let fields = split_line_fields(line);
    let ghost f = split_fields(line@);
    proof {
        assert(fields@.len() == f.len());
    }
    if fields.len() < 5 {
        let i = find_or_insert(groups, "", "", "", "", Ghost(m));
        proof {
            reveal_strlit("");
            assert(""@ =~= Seq::<char>::empty());
            assert((""@, ""@, ""@, ""@) == unknown_key());
        }
        let ghost v1 = groups@;
        let mut g = groups.remove(i);
        let msg = make_msg_columns(fields.len());
        let ghost gv = g@;
        g.parse_errors.push(msg);
        proof {
            assert(g@ == with_error(gv, msg_columns(f.len() as int))) by {
                assert(g@.parse_errors =~= gv.parse_errors.push(msg@));
            }
            assert(gv == group_or_empty(m, unknown_key()));
        }
        groups.insert(i, g);
        proof {
            let m1 = m.insert(unknown_key(), gv);
            assert(groups@ =~= v1.update(i as int, g));
            lemma_replace_keeps_groups(v1, groups@, m1, i as int, g);
            assert(m1.insert(unknown_key(), g@) =~= line_step(m, line@));
        }
        return;
    }
    proof {
        assert(fields@[1]@ == f[1]);
        assert(fields@[2]@ == f[2]);
        assert(fields@[3]@ == f[3]);
        assert(fields@[4]@ == f[4]);
    }
    let t = trim_str(fields[1].as_str());
    let d = trim_str(fields[2].as_str());
    let r = trim_str(fields[3].as_str());
    let rd = trim_str(fields[4].as_str());
    let ghost k = (t@, d@, r@, rd@);
    let i = find_or_insert(groups, t.as_str(), d.as_str(), r.as_str(), rd.as_str(), Ghost(m));
    let ghost v1 = groups@;
    let mut g = groups.remove(i);
    let ghost g0 = g@;
    proof {
        assert(k == key_of_fields(f));
        assert(g0 == (GroupView { tournament: k.0, division: k.1, room: k.2, round: k.3, ..group_or_empty(m, k) }));
    }
    read_row(&mut g, &fields);
    groups.insert(i, g);
    proof {
        let m1 = m.insert(k, g0);
        assert(groups@ =~= v1.update(i as int, g));
        lemma_replace_keeps_groups(v1, groups@, m1, i as int, g);
        assert(m1.insert(k, g@) =~= line_step(m, line@));
    }
}

/// Replacing a group by one with the same key keeps the groups those of the map with it.
proof fn lemma_replace_keeps_groups(v: Seq<Group>, w: Seq<Group>, m: Map<KeyView, GroupView>, i: int, g: Group)
    requires
        groups_are(v, m),
        0 <= i < v.len(),
        w == v.update(i, g),
        group_key(g@) == group_key(v[i]@),
    ensures
        groups_are(w, m.insert(group_key(g@), g@)),
{
    let k = group_key(g@);
    let m2 = m.insert(k, g@);
    assert forall|a: int, b: int| 0 <= a < b < w.len() implies key_lt(group_key(#[trigger] w[a]@), group_key(#[trigger] w[b]@)) by {
        assert(group_key(w[a]@) == group_key(v[a]@));
        assert(group_key(w[b]@) == group_key(v[b]@));
    }
    assert forall|j: int| 0 <= j < w.len() implies m2.dom().contains(group_key(#[trigger] w[j]@)) && m2[group_key(w[j]@)] == w[j]@ by {
        if j != i {
            assert(w[j] == v[j]);
            if group_key(v[j]@) == k {
                lemma_key_lt_total(k, k);
                if j < i {
                    assert(key_lt(group_key(v[j]@), group_key(v[i]@)));
                } else {
                    assert(key_lt(group_key(v[i]@), group_key(v[j]@)));
                }
            }
        }
    }
    assert forall|kk: KeyView| #[trigger] m2.dom().contains(kk) implies exists|j: int| 0 <= j < w.len() && group_key(#[trigger] w[j]@) == kk by {
        if kk == k {
            assert(group_key(w[i]@) == kk);
        } else {
            let j = choose|j: int| 0 <= j < v.len() && group_key(#[trigger] v[j]@) == kk;
            assert(group_key(w[j]@) == group_key(v[j]@));
        }
    }
}

/// Reads one piece of the file between line feeds: trimmed, and skipped when blank.
fn add_piece(groups: &mut Vec<Group>, piece: &str, Ghost(lines): Ghost<Seq<Seq<char>>>)
    requires
        groups_are(old(groups)@, groups_of_lines(lines)),
        keys_match(groups_of_lines(lines)),
    ensures
        groups_are(final(groups)@, groups_of_lines(lines.push(piece@))),
        keys_match(groups_of_lines(lines.push(piece@))),
{
    proof {
        assert(lines.push(piece@).drop_last() =~= lines);
    }
    let line = trim_str(piece);
    if line.unicode_len() > 0 {
        add_line(groups, line.as_str(), Ghost(groups_of_lines(lines)));
    }
}

/// The games of an export file, in order of their keys: each holds the rows read for it and
/// the errors of the rows that could not be read. Blank lines are skipped; a row too short
/// to name a game is an error of the game with an empty key.
pub fn parse_groups(csv: &str) -> (r: Vec<Group>)
    ensures
        groups_are(r@, groups_of(csv@)),
{
    let n = csv.unicode_len();
    let mut groups: Vec<Group> = Vec::new();
    let mut cur = String::new();
    let mut i: usize = 0;
    proof {
        assert(csv@.take(0) =~= Seq::<char>::empty());
        assert(groups_of_lines(Seq::<Seq<char>>::empty()) =~= Map::<KeyView, GroupView>::empty());
    }
    while i < n
        invariant
            n == csv@.len(),
            i <= n,
            cur@ == pieces_state(csv@.take(i as int)).1,
            groups_are(groups@, groups_of_lines(pieces_state(csv@.take(i as int)).0)),
            keys_match(groups_of_lines(pieces_state(csv@.take(i as int)).0)),
        decreases n - i,
    {
        let ch = csv.get_char(i);
        proof {
            assert(csv@.take(i + 1).drop_last() =~= csv@.take(i as int));
            assert(csv@.take(i + 1).last() == ch);
        }
        if ch == '\n' {
            add_piece(&mut groups, cur.as_str(), Ghost(pieces_state(csv@.take(i as int)).0));
            cur = String::new();
        } else {
            push_char(&mut cur, ch);
        }
        i = i + 1;
    }
    proof {
        assert(csv@.take(n as int) =~= csv@);
    }
    add_piece(&mut groups, cur.as_str(), Ghost(pieces_state(csv@).0));
    groups
}

/// Reads a line's fields (at least five) as a row of the group, or as one of its errors.
fn read_row(g: &mut Group, fields: &Vec<String>)
    requires
        fields@.len() >= 5,
    ensures
        final(g)@ == row_step(old(g)@, fields@.map_values(|s: String| s@)),
{
    let ghost f = fields@.map_values(|s: String| s@);
    if fields.len() < 14 {
        let ghost before = g@;
        g.parse_errors.push(make_msg_columns(fields.len()));
        proof {
            assert(g@.parse_errors =~= before.parse_errors.push(msg_columns(f.len() as int)));
        }
        return;
    }
    let ghost before = g@;
    let q = trim_str(fields[5].as_str());
    let e = trim_str(fields[6].as_str());
    let tm = trim_str(fields[8].as_str());
    let st = trim_str(fields[9].as_str());
    let code = trim_str(fields[10].as_str());
    proof {
        assert(f[5] == fields@[5]@);
        assert(f[6] == fields@[6]@);
        assert(f[8] == fields@[8]@);
        assert(f[9] == fields@[9]@);
        assert(f[10] == fields@[10]@);
        assert(f[7] == fields@[7]@);
        assert(f[11] == fields@[11]@);
        assert(f[12] == fields@[12]@);
        assert(f[13] == fields@[13]@);
    }
    let question = match parse_i32_text(q.as_str()) {
        Some(v) => v,
        None => {
            g.parse_errors.push(make_msg_not_integer("question number", q.as_str()));
            proof {
                reveal_strlit("question number");
                assert(g@.parse_errors =~= before.parse_errors.push(msg_not_integer("question number"@, q@)));
            }
            return;
        },
    };
    let eventnum = match parse_i32_text(e.as_str()) {
        Some(v) => v,
        None => {
            g.parse_errors.push(make_msg_not_integer("event number", e.as_str()));
            proof {
                assert(g@.parse_errors =~= before.parse_errors.push(msg_not_integer("event number"@, e@)));
            }
            return;
        },
    };
    let team = match parse_i32_text(tm.as_str()) {
        Some(v) => v,
        None => {
            g.parse_errors.push(make_msg_not_integer("team number", tm.as_str()));
            proof {
                assert(g@.parse_errors =~= before.parse_errors.push(msg_not_integer("team number"@, tm@)));
            }
            return;
        },
    };
    let seat = match parse_i32_text(st.as_str()) {
        Some(v) => v,
        None => {
            g.parse_errors.push(make_msg_not_integer("seat number", st.as_str()));
            proof {
                assert(g@.parse_errors =~= before.parse_errors.push(msg_not_integer("seat number"@, st@)));
            }
            return;
        },
    };
    if parse_gameeventcode(code.as_str()).is_none() {
        g.parse_errors.push(String::from_str("unknown event code '").concat(code.as_str()).concat("'"));
        proof {
            assert(g@.parse_errors =~= before.parse_errors.push(msg_unknown_code(code@)));
        }
        return;
    }
    let row = Row {
        question,
        eventnum,
        team_name: trim_str(fields[7].as_str()),
        team,
        seat,
        event_code: code,
        parm1: trim_str(fields[11].as_str()),
        parm2: trim_str(fields[12].as_str()),
        client_ts: trim_str(fields[13].as_str()),
    };
    g.rows.push(row);
    proof {
        assert(g@.rows =~= before.rows.push(row@));
        assert(g@.parse_errors =~= before.parse_errors);
    }
}

// ─── Numbering ──────────────────────────────────────────────────────────────

/// The rows of a group as values.
pub open spec fn rows_view(rows: Seq<Row>) -> Seq<RowView> {
    rows.map_values(|r: Row| r@)
}

fn has_question_exec(rows: &Vec<Row>, q: i64) -> (r: bool)
    ensures
        r == has_question(rows_view(rows@), q as int),
{
    let ghost v = rows_view(rows@);
    let mut i: usize = 0;
    while i < rows.len()
        invariant
            i <= rows@.len(),
            v == rows_view(rows@),
            forall|j: int| 0 <= j < i ==> v[j].question != q,
        decreases rows@.len() - i,
    {
        if rows[i].question as i64 == q {
            proof {
                assert(v[i as int].question == q);
            }
            return true;
        }
        i = i + 1;
    }
    false
}

/// The lowest and highest question numbers of some rows.
fn question_bounds(rows: &Vec<Row>) -> (r: (i32, i32))
    requires
        rows@.len() > 0,
    ensures
        r.0 == min_question(rows_view(rows@)),
        r.1 == max_question(rows_view(rows@)),
{
    let ghost v = rows_view(rows@);
    let mut lo = rows[0].question;
    let mut hi = rows[0].question;
    let mut i: usize = 1;
    proof {
        assert(v.take(1).len() == 1);
    }
    while i < rows.len()
        invariant
            1 <= i <= rows@.len(),
            v == rows_view(rows@),
            lo == min_question(v.take(i as int)),
            hi == max_question(v.take(i as int)),
        decreases rows@.len() - i,
    {
        proof {
            assert(v.take(i + 1).drop_last() =~= v.take(i as int));
            assert(v.take(i + 1).last() == rows@[i as int]@);
        }
        if rows[i].question < lo {
            lo = rows[i].question;
        }
        if rows[i].question > hi {
            hi = rows[i].question;
        }
        i = i + 1;
    }
    proof {
        assert(v.take(rows@.len() as int) =~= v);
    }
    (lo, hi)
}

/// The run stays where it stopped: once question `k + 1` is missing, the run up to any later
/// bound is `k`.
proof fn lemma_run_stops(rows: Seq<RowView>, k: int, j: int)
    requires
        0 <= k <= j,
        run_upto(rows, k) == k,
        !has_question(rows, k + 1),
    ensures
        run_upto(rows, j) == k,
    decreases j - k,
{
    if j > k {
        lemma_run_stops(rows, k, j - 1);
    }
}

/// A question that is present is a row's question, so it fits in an `i32`.
proof fn lemma_has_question_bound(rows: Seq<RowView>, q: int)
    requires
        has_question(rows, q),
    ensures
        i32::MIN <= q <= i32::MAX,
{
}

/// The longest run of questions 1, 2, ... that are all present.
fn question_run(rows: &Vec<Row>) -> (k: i64)
    ensures
        k == prefix_run(rows_view(rows@)),
        run_upto(rows_view(rows@), k as int) == k,
        0 <= k <= i32::MAX,
{
    let ghost v = rows_view(rows@);
    let mut k: i64 = 0;
    while (k as usize) < rows.len() && has_question_exec(rows, k + 1)
        invariant
            0 <= k <= rows@.len(),
            k <= i32::MAX,
            v == rows_view(rows@),
            run_upto(v, k as int) == k,
        decreases rows@.len() - k,
    {
        proof {
            lemma_has_question_bound(v, k + 1);
        }
        k = k + 1;
    }
    proof {
        if (k as int) < rows@.len() {
            lemma_run_stops(v, k as int, rows@.len() as int);
        }
    }
    k
}

/// The event numbers of question `q`, in row order.
fn eventnums_exec(rows: &Vec<Row>, q: i32) -> (r: Vec<i32>)
    ensures
        r@ == eventnums_of(rows_view(rows@), q as int),
{
    let ghost v = rows_view(rows@);
    let mut out: Vec<i32> = Vec::new();
    let mut i: usize = 0;
    while i < rows.len()
        invariant
            i <= rows@.len(),
            v == rows_view(rows@),
            out@ == eventnums_of(v.take(i as int), q as int),
        decreases rows@.len() - i,
    {
        proof {
            assert(v.take(i + 1).drop_last() =~= v.take(i as int));
            assert(v.take(i + 1).last() == rows@[i as int]@);
        }
        let ghost before = out@;
        if rows[i].question == q {
            out.push(rows[i].eventnum);
            proof {
                assert(out@ =~= before + seq![rows@[i as int].eventnum]);
            }
        } else {
            proof {
                assert(out@ =~= before + Seq::<i32>::empty());
            }
        }
        i = i + 1;
    }
    proof {
        assert(v.take(rows@.len() as int) =~= v);
    }
    out
}

fn has_duplicates_exec(s: &Vec<i32>) -> (r: bool)
    ensures
        r == has_duplicates(s@),
{
    let mut i: usize = 0;
    while i < s.len()
        invariant
            i <= s@.len(),
            forall|a: int, b: int| 0 <= a < b < s@.len() && a < i ==> s@[a] != s@[b],
        decreases s@.len() - i,
    {
        let mut j: usize = i + 1;
        while j < s.len()
            invariant
                i < s@.len(),
                i + 1 <= j <= s@.len(),
                forall|a: int, b: int| 0 <= a < b < s@.len() && a < i ==> s@[a] != s@[b],
                forall|b: int| i < b < j ==> s@[i as int] != s@[b],
            decreases s@.len() - j,
        {
            if s[i] == s[j] {
                return true;
            }
            j = j + 1;
        }
        i = i + 1;
    }
    false
}

fn max_exec(s: &Vec<i32>) -> (m: i32)
    requires
        s@.len() > 0,
    ensures
        m == seq_max(s@),
{
    let mut m = s[0];
    let mut i: usize = 1;
    while i < s.len()
        invariant
            1 <= i <= s@.len(),
            m == seq_max(s@.take(i as int)),
        decreases s@.len() - i,
    {
        proof {
            assert(s@.take(i + 1).drop_last() =~= s@.take(i as int));
        }
        if s[i] > m {
            m = s[i];
        }
        i = i + 1;
    }
    proof {
        assert(s@.take(s@.len() as int) =~= s@);
    }
    m
}

fn contains_i32(s: &Vec<i32>, x: i32) -> (r: bool)
    ensures
        r == s@.contains(x),
{
    let mut i: usize = 0;
    while i < s.len()
        invariant
            i <= s@.len(),
            forall|j: int| 0 <= j < i ==> s@[j] != x,
        decreases s@.len() - i,
    {
        if s[i] == x {
            return true;
        }
        i = i + 1;
    }
    false
}

/// The first number from 0 to `max` missing from `s`.
fn first_missing_exec(s: &Vec<i32>, max: i32) -> (r: Option<i32>)
    ensures
        r matches Some(e) ==> first_missing(s@, 0, max as int) == Some(e as int),
        r is None ==> first_missing(s@, 0, max as int) is None,
{
    if max < 0 {
        return None;
    }
    let mut e: i64 = 0;
    while e <= max as i64
        invariant
            0 <= e <= max as i64 + 1,
            first_missing(s@, 0, max as int) == first_missing(s@, e as int, max as int),
        decreases max as i64 + 1 - e,
    {
        if !contains_i32(s, e as i32) {
            return Some(e as i32);
        }
        e = e + 1;
    }
    None
}

/// What is wrong with question `q`'s event numbers, if anything.
fn question_problem_exec(rows: &Vec<Row>, q: i32) -> (r: Option<String>)
    requires
        has_question(rows_view(rows@), q as int),
    ensures
        r matches Some(m) ==> question_problem(rows_view(rows@), q as int) == Some(m@),
        r is None ==> question_problem(rows_view(rows@), q as int) is None,
{
    let evs = eventnums_exec(rows, q);
    if has_duplicates_exec(&evs) {
        let t = int_to_text(q as i64);
        return Some(String::from_str("question ").concat(t.as_str()).concat(" has duplicate event numbers"));
    }
    proof {
        lemma_eventnums_nonempty(rows_view(rows@), q as int);
    }
    let max = max_exec(&evs);
    match first_missing_exec(&evs, max) {
        Some(e) => {
            let a = int_to_text(q as i64);
            let b = int_to_text(e as i64);
            Some(String::from_str("question ").concat(a.as_str()).concat(" is missing event number ").concat(b.as_str()))
        },
        None => None,
    }
}

proof fn lemma_eventnums_nonempty(rows: Seq<RowView>, q: int)
    requires
        has_question(rows, q),
    ensures
        eventnums_of(rows, q).len() > 0,
    decreases rows.len(),
{
    if rows.last().question != q {
        let i = choose|i: int| 0 <= i < rows.len() && rows[i].question == q;
        assert(rows.drop_last()[i] == rows[i]);
        lemma_eventnums_nonempty(rows.drop_last(), q);
    }
}

/// Every question from 1 to `k` is present when the run reaches `k`.
proof fn lemma_run_present(rows: Seq<RowView>, k: int, q: int)
    requires
        0 <= k,
        run_upto(rows, k) == k,
        1 <= q <= k,
    ensures
        has_question(rows, q),
    decreases k,
{
    lemma_run_le(rows, k - 1);
    if q < k {
        lemma_run_present(rows, k - 1, q);
    }
}

proof fn lemma_run_le(rows: Seq<RowView>, k: int)
    requires
        0 <= k,
    ensures
        run_upto(rows, k) <= k,
    decreases k,
{
    if k > 0 {
        lemma_run_le(rows, k - 1);
    }
}

/// What is wrong with a game's numbering, if anything: its questions must run 1, 2, ...
/// without a gap, and each question's event numbers 0, 1, ... up to the highest, each once.
pub fn validate_sequence(group: &Group) -> (r: Option<String>)
    ensures
        r matches Some(m) ==> sequence_error(group@.rows) == Some(m@),
        r is None ==> sequence_error(group@.rows) is None,
{
    let rows = &group.rows;
    let ghost v = rows_view(rows@);
    if rows.len() == 0 {
        return None;
    }
    let (lo, hi) = question_bounds(rows);
    if lo != 1 {
        let t = int_to_text(lo as i64);
        return Some(String::from_str("question numbers are not sequential (a gap was found near question ").concat(t.as_str()).concat(")"));
    }
    let k = question_run(rows);
    if hi as i64 > k {
        let t = int_to_text(k + 1);
        return Some(String::from_str("question numbers are not sequential (a gap was found near question ").concat(t.as_str()).concat(")"));
    }
    let mut q: i64 = 1;
    while q <= hi as i64
        invariant
            1 <= q,
            q as int <= hi as int + 1,
            hi as int <= k,
            v == rows_view(rows@),
            run_upto(v, k as int) == k,
            0 <= k,
            questions_problem(v, 1, hi as int) == questions_problem(v, q as int, hi as int),
            v == group@.rows,
            sequence_error(v) == questions_problem(v, 1, hi as int),
        decreases hi as int + 1 - q as int,
    {
        proof {
            lemma_run_present(v, k as int, q as int);
        }
        match question_problem_exec(rows, q as i32) {
            Some(m) => {
                return Some(m);
            },
            None => {},
        }
        q = q + 1;
    }
    None
}

// ─── Times ──────────────────────────────────────────────────────────────────

/// The time an export writes ("%Y-%m-%d-%H.%M.%S%.f", UTC), in microseconds since the Unix
/// epoch, when the text reads as one.
pub uninterp spec fn export_time_micros(raw: Seq<char>) -> Option<i64>;

/// Reads an export time with `chrono::NaiveDateTime::parse_from_str` in the format
/// "%Y-%m-%d-%H.%M.%S%.f", taken as UTC: the result is `export_time_micros` of the text.
#[verifier::external_body]
fn parse_export_time(raw: &str) -> (r: Option<i64>)
    ensures
        r == export_time_micros(raw@),
{
    match chrono::NaiveDateTime::parse_from_str(raw, "%Y-%m-%d-%H.%M.%S%.f") {
        Ok(t) => Some(t.and_utc().timestamp_micros()),
        Err(_) => None,
    }
}

/// The client time of a row: the trimmed text read as an export time, or the current time
/// when it does not read as one.
pub fn parse_ts(raw: &str) -> (r: i64)
    ensures
        export_time_micros(trim(raw@)) matches Some(t) ==> r == t,
{
    let t = trim_str(raw);
    match parse_export_time(t.as_str()) {
        Some(v) => v,
        None => now_micros(),
    }
}

// ─── Initialization ─────────────────────────────────────────────────────────

/// Whether a code only sets up a round (rules, roster, configuration).
pub open spec fn is_init_code(c: Seq<char>) -> bool {
    c == "RM"@ || c == "QT"@ || c == "IP"@ || c == "OP"@ || c == "TN"@ || c == "QN"@ || c == "SC"@ || c == "SS"@
}

/// Whether a game's events go beyond setting up its round.
pub fn game_has_records_beyond_initialization(events: &Vec<crate::gameevent::event::GameEvent>) -> (r: bool)
    ensures
        r == exists|i: int| 0 <= i < events@.len() && !is_init_code(#[trigger] events@[i].event@),
{
    let mut i: usize = 0;
    while i < events.len()
        invariant
            i <= events@.len(),
            forall|j: int| 0 <= j < i ==> is_init_code(#[trigger] events@[j].event@),
        decreases events@.len() - i,
    {
        let c = events[i].event.as_str();
        if !(str_eq(c, "RM") || str_eq(c, "QT") || str_eq(c, "IP") || str_eq(c, "OP") || str_eq(c, "TN")
            || str_eq(c, "QN") || str_eq(c, "SC") || str_eq(c, "SS")) {
            return true;
        }
        i = i + 1;
    }
    false
}

/// A game whose events only set up its round (rules, quiz type, practice flag, options, team
/// names, quizzer names, captains, co-captains) has no records beyond initialization, so its
/// events may still be imported; one event of play (a toss-up, a bonus, a challenge, an appeal,
/// a foul, a substitution, a time-out or a deleted event) is such a record.
pub proof fn law_setup_events_are_not_records_of_play(events: Seq<crate::gameevent::event::GameEvent>, r: bool)
    requires
        r == exists|i: int| 0 <= i < events.len() && !is_init_code(#[trigger] events[i].event@),
    ensures
        (forall|i: int| 0 <= i < events.len() ==> {
            let c = #[trigger] events[i].event@;
            c == "RM"@ || c == "QT"@ || c == "IP"@ || c == "OP"@ || c == "TN"@ || c == "QN"@ || c == "SC"@
                || c == "SS"@
        }) ==> !r,
        (exists|i: int| 0 <= i < events.len() && {
            let c = #[trigger] events[i].event@;
            c == "TC"@ || c == "TE"@ || c == "NJ"@ || c == "BC"@ || c == "BE"@ || c == "QO"@ || c == "EO"@
                || c == "C-"@ || c == "A+"@ || c == "A-"@ || c == "FC"@ || c == "F-"@ || c == "SB"@
                || c == "TO"@ || c == "DE"@
        }) ==> r,
{
    reveal_strlit("RM");
    reveal_strlit("QT");
    reveal_strlit("IP");
    reveal_strlit("OP");
    reveal_strlit("TN");
    reveal_strlit("QN");
    reveal_strlit("SC");
    reveal_strlit("SS");
    reveal_strlit("TC");
    reveal_strlit("TE");
    reveal_strlit("NJ");
    reveal_strlit("BC");
    reveal_strlit("BE");
    reveal_strlit("QO");
    reveal_strlit("EO");
    reveal_strlit("C-");
    reveal_strlit("A+");
    reveal_strlit("A-");
    reveal_strlit("FC");
    reveal_strlit("F-");
    reveal_strlit("SB");
    reveal_strlit("TO");
    reveal_strlit("DE");
    if exists|i: int| 0 <= i < events.len() && {
        let c = #[trigger] events[i].event@;
        c == "TC"@ || c == "TE"@ || c == "NJ"@ || c == "BC"@ || c == "BE"@ || c == "QO"@ || c == "EO"@
            || c == "C-"@ || c == "A+"@ || c == "A-"@ || c == "FC"@ || c == "F-"@ || c == "SB"@
            || c == "TO"@ || c == "DE"@
    } {
        let i = choose|i: int| 0 <= i < events.len() && {
            let c = #[trigger] events[i].event@;
            c == "TC"@ || c == "TE"@ || c == "NJ"@ || c == "BC"@ || c == "BE"@ || c == "QO"@ || c == "EO"@
                || c == "C-"@ || c == "A+"@ || c == "A-"@ || c == "FC"@ || c == "F-"@ || c == "SB"@
                || c == "TO"@ || c == "DE"@
        };
        let c = events[i].event@;
        assert(c.len() == 2);
        assert(c[0] != 'R' || c[1] != 'M');
        assert(c != "RM"@);
        assert(c[0] != 'Q' || c[1] != 'T');
        assert(c != "QT"@);
        assert(c[0] != 'I' || c[1] != 'P');
        assert(c != "IP"@);
        assert(c[0] != 'O' || c[1] != 'P');
        assert(c != "OP"@);
        assert(c[0] != 'T' || c[1] != 'N');
        assert(c != "TN"@);
        assert(c[0] != 'Q' || c[1] != 'N');
        assert(c != "QN"@);
        assert(c[0] != 'S' || c[1] != 'C');
        assert(c != "SC"@);
        assert(c[0] != 'S' || c[1] != 'S');
        assert(c != "SS"@);
        assert(!is_init_code(c));
    }
}

// ─── The plan ───────────────────────────────────────────────────────────────

/// What the database holds for a game of the file: no such game, or its id, its room, and
/// whether it already has events beyond initialization.
pub enum GameLookup {
    NotFound,
    Found { gid: u128, roomid: u128, beyond_initialization: bool },
}

/// A game of the file, by division, room and round.
pub struct GameRef {
    pub division: String,
    pub room: String,
    pub round: String,
}

/// A game whose events will be imported.
pub struct ImportableGame {
    pub gid: u128,
    pub division: String,
    pub room: String,
    pub round: String,
    pub event_count: usize,
}

/// A game of the file that matched but cannot be imported, and why.
pub struct GameImportError {
    pub division: String,
    pub room: String,
    pub round: String,
    pub message: String,
}

/// What importing a file does: the games imported, those refused and why, those not found,
/// the games and rooms that matched, and the events to insert for each imported game.
pub struct ImportPlan {
    pub importable: Vec<ImportableGame>,
    pub errors: Vec<GameImportError>,
    pub games_not_found: Vec<GameRef>,
    pub found_gids: Vec<u128>,
    pub referenced_rooms: Vec<u128>,
    pub inserts: Vec<(u128, Vec<NewGameEvent>)>,
}

/// The texts joined with `sep` between them.
pub open spec fn join_with(s: Seq<Seq<char>>, sep: Seq<char>) -> Seq<char>
    decreases s.len(),
{
    if s.len() == 0 {
        seq![]
    } else if s.len() == 1 {
        s[0]
    } else {
        join_with(s.drop_last(), sep) + sep + s.last()
    }
}

pub open spec fn msg_beyond_initialization() -> Seq<char> {
    "This game already has game events beyond initialization; import skipped."@
}

/// What becomes of a game of the file.
pub enum GroupFate {
    Refused(Seq<char>),
    NotFound,
    Imported,
}

/// A game with unreadable rows is refused first; one of another tournament or one the
/// database lacks is not found; one that already has events past its setup, or whose
/// numbering is wrong, is refused; the rest are imported.
pub open spec fn group_fate(g: GroupView, tournament_name: Seq<char>, lookup: GameLookup) -> GroupFate {
    if g.parse_errors.len() > 0 {
        GroupFate::Refused("Parsing error: "@ + join_with(g.parse_errors, "; "@))
    } else if g.tournament.len() > 0 && g.tournament != tournament_name {
        GroupFate::NotFound
    } else {
        match lookup {
            GameLookup::NotFound => GroupFate::NotFound,
            GameLookup::Found { gid, roomid, beyond_initialization } => {
                if beyond_initialization {
                    GroupFate::Refused(msg_beyond_initialization())
                } else {
                    match crate::models::import_spec::sequence_error(g.rows) {
                        Some(m) => GroupFate::Refused(m),
                        None => GroupFate::Imported,
                    }
                }
            },
        }
    }
}

/// Whether the game matched one in the database (what the not-found checks let through).
pub open spec fn group_matched(g: GroupView, tournament_name: Seq<char>, lookup: GameLookup) -> bool {
    g.parse_errors.len() == 0 && !(g.tournament.len() > 0 && g.tournament != tournament_name) && lookup is Found
}

/// The events to insert for a game's rows: one per row, in order, with the row's numbers,
/// team name, code and parameters, no digest, and the row's client time where it reads.
pub open spec fn events_of_rows(evs: Seq<GameEventView>, gid: u128, rows: Seq<RowView>) -> bool {
    &&& evs.len() == rows.len()
    &&& forall|i: int| 0 <= i < rows.len() ==> {
        let e = #[trigger] evs[i];
        let r = rows[i];
        &&& e.gid == gid
        &&& e.question == r.question
        &&& e.eventnum == r.eventnum
        &&& e.name == r.team_name
        &&& e.team == r.team
        &&& e.quizzer == r.seat
        &&& e.event == r.event_code
        &&& e.parm1 == r.parm1
        &&& e.parm2 == r.parm2
        &&& e.md5digest == Seq::<char>::empty()
        &&& export_time_micros(trim(r.client_ts)) matches Some(t) ==> e.clientts == t
    }
}

/// The events of one imported game.
fn events_for_rows(gid: u128, rows: &Vec<Row>) -> (r: Vec<NewGameEvent>)
    ensures
        events_of_rows(new_events_view(r@), gid, rows_view(rows@)),
{
    let mut out: Vec<NewGameEvent> = Vec::new();
    let mut i: usize = 0;
    while i < rows.len()
        invariant
            i <= rows@.len(),
            out@.len() == i,
            forall|k: int| 0 <= k < i ==> {
                let e = #[trigger] out@[k]@;
                let r = rows@[k]@;
                &&& e.gid == gid
                &&& e.question == r.question
                &&& e.eventnum == r.eventnum
                &&& e.name == r.team_name
                &&& e.team == r.team
                &&& e.quizzer == r.seat
                &&& e.event == r.event_code
                &&& e.parm1 == r.parm1
                &&& e.parm2 == r.parm2
                &&& e.md5digest == Seq::<char>::empty()
                &&& export_time_micros(trim(r.client_ts)) matches Some(t) ==> e.clientts == t
            },
        decreases rows@.len() - i,
    {
        let row = &rows[i];
        let e = NewGameEvent {
            gid: gid,
            question: row.question,
            eventnum: row.eventnum,
            name: row.team_name.clone(),
            team: row.team,
            quizzer: row.seat,
            event: row.event_code.clone(),
            parm1: row.parm1.clone(),
            parm2: row.parm2.clone(),
            clientts: parse_ts(row.client_ts.as_str()),
            serverts: now_micros(),
            md5digest: String::new(),
        };
        out.push(e);
        i = i + 1;
    }
    proof {
        assert forall|k: int| 0 <= k < rows@.len() implies new_events_view(out@)[k] == out@[k]@ && rows_view(rows@)[k] == rows@[k]@ by {}
    }
    out
}

/// The errors of a group joined with "; ".
fn join_errors(v: &Vec<String>) -> (s: String)
    ensures
        s@ == join_with(v@.map_values(|x: String| x@), "; "@),
{
    let ghost t = v@.map_values(|x: String| x@);
    let mut s = String::new();
    let mut i: usize = 0;
    while i < v.len()
        invariant
            i <= v@.len(),
            t == v@.map_values(|x: String| x@),
            s@ == join_with(t.take(i as int), "; "@),
        decreases v@.len() - i,
    {
        proof {
            assert(t.take(i + 1).drop_last() =~= t.take(i as int));
            assert(t.take(i + 1).last() == v@[i as int]@);
        }
        if i == 0 {
            s = v[i].clone();
            proof {
                assert(t.take(1) =~= seq![v@[0]@]);
            }
        } else {
            s = s.concat("; ");
            s = s.concat(v[i].as_str());
        }
        i = i + 1;
    }
    proof {
        assert(t.take(v@.len() as int) =~= t);
    }
    s
}

fn push_new_id(v: &mut Vec<u128>, x: u128)
    ensures
        final(v)@ == (if old(v)@.contains(x) { old(v)@ } else { old(v)@.push(x) }),
{
    let mut i: usize = 0;
    while i < v.len()
        invariant
            i <= v@.len(),
            v@ == old(v)@,
            forall|j: int| 0 <= j < i ==> v@[j] != x,
        decreases v@.len() - i,
    {
        if v[i] == x {
            proof {
                assert(old(v)@.contains(x));
            }
            return;
        }
        i = i + 1;
    }
    v.push(x);
}

/// The fate of each game of the file, in order, given what the database holds for each.
pub open spec fn fates(groups: Seq<Group>, tournament_name: Seq<char>, lookups: Seq<GameLookup>) -> Seq<GroupFate> {
    Seq::new(groups.len(), |i: int| group_fate(groups[i]@, tournament_name, lookups[i]))
}

/// 0 for an imported game, 1 for a refused one, 2 for one not found.
pub open spec fn fate_kind(f: GroupFate) -> int {
    match f {
        GroupFate::Imported => 0,
        GroupFate::Refused(_) => 1,
        GroupFate::NotFound => 2,
    }
}

/// The positions of the games of one kind of fate, in order.
pub open spec fn positions_of(fs: Seq<GroupFate>, kind: int) -> Seq<int>
    decreases fs.len(),
{
    if fs.len() == 0 {
        seq![]
    } else {
        positions_of(fs.drop_last(), kind) + if fate_kind(fs.last()) == kind { seq![fs.len() - 1] } else { Seq::<int>::empty() }
    }
}

/// The id a lookup found (0 when none).
pub open spec fn lookup_gid(l: GameLookup) -> u128 {
    match l {
        GameLookup::Found { gid, .. } => gid,
        GameLookup::NotFound => 0,
    }
}

/// The room a lookup found (0 when none).
pub open spec fn lookup_room(l: GameLookup) -> u128 {
    match l {
        GameLookup::Found { roomid, .. } => roomid,
        GameLookup::NotFound => 0,
    }
}

/// The refusal message of a fate (empty when not refused).
pub open spec fn refusal(f: GroupFate) -> Seq<char> {
    match f {
        GroupFate::Refused(m) => m,
        _ => Seq::<char>::empty(),
    }
}

/// Whether some game among the first `n` matched and found id `x`.
pub open spec fn matched_gid(groups: Seq<Group>, tournament_name: Seq<char>, lookups: Seq<GameLookup>, n: int, x: u128) -> bool {
    exists|k: int| 0 <= k < n && group_matched(groups[k]@, tournament_name, lookups[k]) && #[trigger] lookup_gid(lookups[k]) == x
}

/// Whether some game among the first `n` matched in room `x`.
pub open spec fn matched_room(groups: Seq<Group>, tournament_name: Seq<char>, lookups: Seq<GameLookup>, n: int, x: u128) -> bool {
    exists|k: int| 0 <= k < n && group_matched(groups[k]@, tournament_name, lookups[k]) && #[trigger] lookup_room(lookups[k]) == x
}

/// The plan is that of the first `n` games of the file.
pub open spec fn plan_upto(p: ImportPlan, groups: Seq<Group>, tournament_name: Seq<char>, lookups: Seq<GameLookup>, n: int) -> bool {
    let fs = fates(groups, tournament_name, lookups).take(n);
    let imp = positions_of(fs, 0);
    let refd = positions_of(fs, 1);
    let nf = positions_of(fs, 2);
    &&& p.importable@.len() == imp.len()
    &&& p.inserts@.len() == imp.len()
    &&& forall|j: int| 0 <= j < imp.len() ==> {
        let k = imp[j];
        let g = groups[k]@;
        let gid = lookup_gid(lookups[k]);
        &&& (#[trigger] p.importable@[j]).gid == gid
        &&& p.importable@[j].division@ == g.division
        &&& p.importable@[j].room@ == g.room
        &&& p.importable@[j].round@ == g.round
        &&& p.importable@[j].event_count == g.rows.len()
        &&& p.inserts@[j].0 == gid
        &&& events_of_rows(new_events_view(p.inserts@[j].1@), gid, g.rows)
    }
    &&& p.errors@.len() == refd.len()
    &&& forall|j: int| 0 <= j < refd.len() ==> {
        let k = refd[j];
        let g = groups[k]@;
        &&& (#[trigger] p.errors@[j]).division@ == g.division
        &&& p.errors@[j].room@ == g.room
        &&& p.errors@[j].round@ == g.round
        &&& p.errors@[j].message@ == refusal(fates(groups, tournament_name, lookups)[k])
    }
    &&& p.games_not_found@.len() == nf.len()
    &&& forall|j: int| 0 <= j < nf.len() ==> {
        let k = nf[j];
        let g = groups[k]@;
        &&& (#[trigger] p.games_not_found@[j]).division@ == g.division
        &&& p.games_not_found@[j].room@ == g.room
        &&& p.games_not_found@[j].round@ == g.round
    }
    &&& forall|x: u128| p.found_gids@.contains(x) <==> matched_gid(groups, tournament_name, lookups, n, x)
    &&& forall|x: u128| p.referenced_rooms@.contains(x) <==> matched_room(groups, tournament_name, lookups, n, x)
}

/// Decides the import of a file's games (in the order of their keys), given for each what
/// the database holds: the games imported (with the events to insert), refused (with why) and
/// not found, each in file order, and the ids and rooms of the games that matched.
pub fn plan_import(groups: &Vec<Group>, tournament_name: &str, lookups: &Vec<GameLookup>) -> (r: ImportPlan)
    requires
        lookups@.len() == groups@.len(),
    ensures
        plan_upto(r, groups@, tournament_name@, lookups@, groups@.len() as int),
{
    let ghost fs_all = fates(groups@, tournament_name@, lookups@);
    let mut plan = ImportPlan {
        importable: Vec::new(),
        errors: Vec::new(),
        games_not_found: Vec::new(),
        found_gids: Vec::new(),
        referenced_rooms: Vec::new(),
        inserts: Vec::new(),
    };
    proof {
        assert(fs_all.take(0) =~= Seq::<GroupFate>::empty());
    }
    let mut i: usize = 0;
    while i < groups.len()
        invariant
            i <= groups@.len(),
            lookups@.len() == groups@.len(),
            fs_all == fates(groups@, tournament_name@, lookups@),
            plan_upto(plan, groups@, tournament_name@, lookups@, i as int),
        decreases groups@.len() - i,
    {
        let g = &groups[i];
        let ghost fate = group_fate(g@, tournament_name@, lookups@[i as int]);
        let ghost before = plan;
        proof {
            assert(fs_all[i as int] == fate);
            assert(fs_all.take(i + 1).drop_last() =~= fs_all.take(i as int));
            assert(fs_all.take(i + 1).last() == fate);
        }
        let ghost matched = group_matched(g@, tournament_name@, lookups@[i as int]);
        if g.parse_errors.len() > 0 {
            let m = String::from_str("Parsing error: ").concat(join_errors(&g.parse_errors).as_str());
            plan.errors.push(GameImportError {
                division: g.division.clone(), room: g.room.clone(), round: g.round.clone(), message: m,
            });
            proof {
                assert(plan.errors@.drop_last() =~= before.errors@);
            }
        } else if g.tournament.unicode_len() > 0 && !str_eq(g.tournament.as_str(), tournament_name) {
            plan.games_not_found.push(GameRef { division: g.division.clone(), room: g.room.clone(), round: g.round.clone() });
            proof {
                assert(plan.games_not_found@.drop_last() =~= before.games_not_found@);
            }
        } else {
            match &lookups[i] {
                GameLookup::NotFound => {
                    plan.games_not_found.push(GameRef { division: g.division.clone(), room: g.room.clone(), round: g.round.clone() });
                    proof {
                        assert(plan.games_not_found@.drop_last() =~= before.games_not_found@);
                    }
                },
                GameLookup::Found { gid, roomid, beyond_initialization } => {
                    push_new_id(&mut plan.found_gids, *gid);
                    push_new_id(&mut plan.referenced_rooms, *roomid);
                    if *beyond_initialization {
                        plan.errors.push(GameImportError {
                            division: g.division.clone(), room: g.room.clone(), round: g.round.clone(),
                            message: String::from_str("This game already has game events beyond initialization; import skipped."),
                        });
                        proof {
                            assert(plan.errors@.drop_last() =~= before.errors@);
                        }
                    } else {
                        match validate_sequence(g) {
                            Some(m) => {
                                plan.errors.push(GameImportError {
                                    division: g.division.clone(), room: g.room.clone(), round: g.round.clone(), message: m,
                                });
                                proof {
                                    assert(plan.errors@.drop_last() =~= before.errors@);
                                }
                            },
                            None => {
                                let events = events_for_rows(*gid, &g.rows);
                                plan.importable.push(ImportableGame {
                                    gid: *gid,
                                    division: g.division.clone(),
                                    room: g.room.clone(),
                                    round: g.round.clone(),
                                    event_count: events.len(),
                                });
                                plan.inserts.push((*gid, events));
                                proof {
                                    assert(plan.importable@.drop_last() =~= before.importable@);
                                    assert(plan.inserts@.drop_last() =~= before.inserts@);
                                }
                            },
                        }
                    }
                },
            }
        }
        proof {
            lemma_plan_step(before, plan, groups@, tournament_name@, lookups@, i as int);
        }
        i = i + 1;
    }
    proof {
        assert(fs_all.take(groups@.len() as int) =~= fs_all);
    }
    plan
}

/// One more game read into the plan: its entry is appended to the list of its fate, and a
/// matched game's id and room are recorded.
proof fn lemma_plan_step(before: ImportPlan, after: ImportPlan, groups: Seq<Group>, tournament_name: Seq<char>, lookups: Seq<GameLookup>, i: int)
    requires
        0 <= i < groups.len(),
        lookups.len() == groups.len(),
        plan_upto(before, groups, tournament_name, lookups, i),
        ({
            let g = groups[i]@;
            let f = group_fate(g, tournament_name, lookups[i]);
            let gid = lookup_gid(lookups[i]);
            &&& f is Imported ==> {
                &&& after.importable@.len() == before.importable@.len() + 1
                &&& after.importable@.drop_last() == before.importable@
                &&& after.inserts@.drop_last() == before.inserts@
                &&& after.importable@.last().gid == gid
                &&& after.importable@.last().division@ == g.division
                &&& after.importable@.last().room@ == g.room
                &&& after.importable@.last().round@ == g.round
                &&& after.importable@.last().event_count == g.rows.len()
                &&& after.inserts@.len() == before.inserts@.len() + 1
                &&& after.inserts@.last().0 == gid
                &&& events_of_rows(new_events_view(after.inserts@.last().1@), gid, g.rows)
                &&& after.errors == before.errors
                &&& after.games_not_found == before.games_not_found
            }
            &&& f is Refused ==> {
                &&& after.errors@.len() == before.errors@.len() + 1
                &&& after.errors@.drop_last() == before.errors@
                &&& after.errors@.last().division@ == g.division
                &&& after.errors@.last().room@ == g.room
                &&& after.errors@.last().round@ == g.round
                &&& after.errors@.last().message@ == refusal(f)
                &&& after.importable == before.importable
                &&& after.inserts == before.inserts
                &&& after.games_not_found == before.games_not_found
            }
            &&& f is NotFound ==> {
                &&& after.games_not_found@.len() == before.games_not_found@.len() + 1
                &&& after.games_not_found@.drop_last() == before.games_not_found@
                &&& after.games_not_found@.last().division@ == g.division
                &&& after.games_not_found@.last().room@ == g.room
                &&& after.games_not_found@.last().round@ == g.round
                &&& after.importable == before.importable
                &&& after.inserts == before.inserts
                &&& after.errors == before.errors
            }
            &&& group_matched(g, tournament_name, lookups[i]) ==> {
                &&& after.found_gids@ == (if before.found_gids@.contains(gid) { before.found_gids@ } else { before.found_gids@.push(gid) })
                &&& after.referenced_rooms@ == (if before.referenced_rooms@.contains(lookup_room(lookups[i])) { before.referenced_rooms@ } else { before.referenced_rooms@.push(lookup_room(lookups[i])) })
            }
            &&& !group_matched(g, tournament_name, lookups[i]) ==> after.found_gids == before.found_gids && after.referenced_rooms == before.referenced_rooms
        }),
    ensures
        plan_upto(after, groups, tournament_name, lookups, i + 1),
{
    let fs = fates(groups, tournament_name, lookups);
    let f = fs[i];
    let g = groups[i]@;
    let gid = lookup_gid(lookups[i]);
    let room = lookup_room(lookups[i]);
    let t0 = fs.take(i);
    let t1 = fs.take(i + 1);
    assert(t1.drop_last() =~= t0);
    assert(t1.last() == f);
    let imp0 = positions_of(t0, 0);
    let imp1 = positions_of(t1, 0);
    let ref0 = positions_of(t0, 1);
    let ref1 = positions_of(t1, 1);
    let nf0 = positions_of(t0, 2);
    let nf1 = positions_of(t1, 2);
    // Imported games.
    assert forall|j: int| 0 <= j < imp1.len() implies {
        let k = imp1[j];
        let gk = groups[k]@;
        let gidk = lookup_gid(lookups[k]);
        &&& (#[trigger] after.importable@[j]).gid == gidk
        &&& after.importable@[j].division@ == gk.division
        &&& after.importable@[j].room@ == gk.room
        &&& after.importable@[j].round@ == gk.round
        &&& after.importable@[j].event_count == gk.rows.len()
        &&& after.inserts@[j].0 == gidk
        &&& events_of_rows(new_events_view(after.inserts@[j].1@), gidk, gk.rows)
    } by {
        if j < imp0.len() {
            assert(imp1[j] == imp0[j]);
            if f is Imported {
                assert(after.importable@[j] == after.importable@.drop_last()[j]);
                assert(after.inserts@[j] == after.inserts@.drop_last()[j]);
            }
            assert(before.importable@[j] == after.importable@[j]);
        } else {
            assert(imp1[j] == i);
            assert(after.importable@[j] == after.importable@.last());
            assert(after.inserts@[j] == after.inserts@.last());
        }
    }
    // Refused games.
    assert forall|j: int| 0 <= j < ref1.len() implies {
        let k = ref1[j];
        let gk = groups[k]@;
        &&& (#[trigger] after.errors@[j]).division@ == gk.division
        &&& after.errors@[j].room@ == gk.room
        &&& after.errors@[j].round@ == gk.round
        &&& after.errors@[j].message@ == refusal(fs[k])
    } by {
        if j < ref0.len() {
            assert(ref1[j] == ref0[j]);
            if f is Refused {
                assert(after.errors@[j] == after.errors@.drop_last()[j]);
            }
            assert(before.errors@[j] == after.errors@[j]);
        } else {
            assert(ref1[j] == i);
            assert(after.errors@[j] == after.errors@.last());
        }
    }
    // Games not found.
    assert forall|j: int| 0 <= j < nf1.len() implies {
        let k = nf1[j];
        let gk = groups[k]@;
        &&& (#[trigger] after.games_not_found@[j]).division@ == gk.division
        &&& after.games_not_found@[j].room@ == gk.room
        &&& after.games_not_found@[j].round@ == gk.round
    } by {
        if j < nf0.len() {
            assert(nf1[j] == nf0[j]);
            if f is NotFound {
                assert(after.games_not_found@[j] == after.games_not_found@.drop_last()[j]);
            }
            assert(before.games_not_found@[j] == after.games_not_found@[j]);
        } else {
            assert(nf1[j] == i);
            assert(after.games_not_found@[j] == after.games_not_found@.last());
        }
    }
    // Matched ids and rooms.
    let matched = group_matched(g, tournament_name, lookups[i]);
    assert forall|x: u128| after.found_gids@.contains(x) <==> matched_gid(groups, tournament_name, lookups, i + 1, x) by {
        if matched_gid(groups, tournament_name, lookups, i + 1, x) {
            let k = choose|k: int| 0 <= k < i + 1 && group_matched(groups[k]@, tournament_name, lookups[k]) && #[trigger] lookup_gid(lookups[k]) == x;
            if k < i {
                assert(matched_gid(groups, tournament_name, lookups, i, x));
                assert(before.found_gids@.contains(x));
                if matched && !before.found_gids@.contains(gid) {
                    let a = choose|a: int| 0 <= a < before.found_gids@.len() && before.found_gids@[a] == x;
                    assert(after.found_gids@[a] == x);
                }
            } else {
                if !before.found_gids@.contains(gid) {
                    assert(after.found_gids@[before.found_gids@.len() as int] == x);
                }
            }
        }
        if after.found_gids@.contains(x) {
            if before.found_gids@.contains(x) {
                assert(matched_gid(groups, tournament_name, lookups, i, x));
                let k = choose|k: int| 0 <= k < i && group_matched(groups[k]@, tournament_name, lookups[k]) && #[trigger] lookup_gid(lookups[k]) == x;
                assert(0 <= k < i + 1);
            } else {
                let a = choose|a: int| 0 <= a < after.found_gids@.len() && after.found_gids@[a] == x;
                if matched && !before.found_gids@.contains(gid) && a < before.found_gids@.len() {
                    assert(before.found_gids@[a] == x);
                }
                assert(x == gid);
                assert(lookup_gid(lookups[i]) == x);
            }
        }
    }
    assert forall|x: u128| after.referenced_rooms@.contains(x) <==> matched_room(groups, tournament_name, lookups, i + 1, x) by {
        if matched_room(groups, tournament_name, lookups, i + 1, x) {
            let k = choose|k: int| 0 <= k < i + 1 && group_matched(groups[k]@, tournament_name, lookups[k]) && #[trigger] lookup_room(lookups[k]) == x;
            if k < i {
                assert(matched_room(groups, tournament_name, lookups, i, x));
                assert(before.referenced_rooms@.contains(x));
                if matched && !before.referenced_rooms@.contains(room) {
                    let a = choose|a: int| 0 <= a < before.referenced_rooms@.len() && before.referenced_rooms@[a] == x;
                    assert(after.referenced_rooms@[a] == x);
                }
            } else {
                if !before.referenced_rooms@.contains(room) {
                    assert(after.referenced_rooms@[before.referenced_rooms@.len() as int] == x);
                }
            }
        }
        if after.referenced_rooms@.contains(x) {
            if before.referenced_rooms@.contains(x) {
                assert(matched_room(groups, tournament_name, lookups, i, x));
                let k = choose|k: int| 0 <= k < i && group_matched(groups[k]@, tournament_name, lookups[k]) && #[trigger] lookup_room(lookups[k]) == x;
                assert(0 <= k < i + 1);
            } else {
                let a = choose|a: int| 0 <= a < after.referenced_rooms@.len() && after.referenced_rooms@[a] == x;
                if matched && !before.referenced_rooms@.contains(room) && a < before.referenced_rooms@.len() {
                    assert(before.referenced_rooms@[a] == x);
                }
                assert(x == room);
                assert(lookup_room(lookups[i]) == x);
            }
        }
    }
}

/// A game reference as its division, room and round names.
pub open spec fn ref_view(g: GameRef) -> (Seq<char>, Seq<char>, Seq<char>) {
    (g.division@, g.room@, g.round@)
}

/// The references of the games whose ids are not among `found`, in order.
pub open spec fn unmatched_refs(room_games: Seq<(u128, GameRef)>, found: Seq<u128>) -> Seq<(Seq<char>, Seq<char>, Seq<char>)>
    decreases room_games.len(),
{
    if room_games.len() == 0 {
        seq![]
    } else {
        unmatched_refs(room_games.drop_last(), found)
            + if found.contains(room_games.last().0) { Seq::empty() } else { seq![ref_view(room_games.last().1)] }
    }
}

/// The games of the rooms the file matched that the file does not name: each room game is
/// given as its id and reference, and kept when its id is not among the matched games.
pub fn missing_games(room_games: &Vec<(u128, GameRef)>, found_gids: &Vec<u128>) -> (r: Vec<GameRef>)
    ensures
        r@.map_values(|g: GameRef| ref_view(g)) == unmatched_refs(room_games@, found_gids@),
{
    let mut out: Vec<GameRef> = Vec::new();
    let mut i: usize = 0;
    while i < room_games.len()
        invariant
            i <= room_games@.len(),
            out@.map_values(|g: GameRef| ref_view(g)) == unmatched_refs(room_games@.take(i as int), found_gids@),
        decreases room_games@.len() - i,
    {
        proof {
            assert(room_games@.take(i + 1).drop_last() =~= room_games@.take(i as int));
            assert(room_games@.take(i + 1).last() == room_games@[i as int]);
        }
        let gid = room_games[i].0;
        let mut found = false;
        let mut j: usize = 0;
        while j < found_gids.len()
            invariant
                j <= found_gids@.len(),
                found == (exists|k: int| 0 <= k < j && found_gids@[k] == gid),
            decreases found_gids@.len() - j,
        {
            if found_gids[j] == gid {
                found = true;
            }
            j = j + 1;
        }
        let ghost before = out@.map_values(|g: GameRef| ref_view(g));
        if !found {
            let g = &room_games[i].1;
            let copy = GameRef { division: g.division.clone(), room: g.room.clone(), round: g.round.clone() };
            out.push(copy);
            proof {
                assert(out@.map_values(|g: GameRef| ref_view(g)) =~= before.push(ref_view(room_games@[i as int].1)));
            }
        } else {
            proof {
                let k = choose|k: int| 0 <= k < found_gids@.len() && found_gids@[k] == gid;
                assert(found_gids@.contains(gid));
            }
        }
        proof {
            assert(out@.map_values(|g: GameRef| ref_view(g)) =~= unmatched_refs(room_games@.take(i + 1), found_gids@));
        }
        i = i + 1;
    }
    proof {
        assert(room_games@.take(room_games@.len() as int) =~= room_games@);
    }
    out
}

} // verus!
