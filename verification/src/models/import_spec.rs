//! The export file format of QuizMachine, as values: lines, fields, integers, and the games
//! its rows group into.
use vstd::prelude::*;
use crate::gameevent::code::is_code;
use crate::text::{int_text, trim};

verus! {

// ─── Lines and fields ───────────────────────────────────────────────────────

/// The pieces of a text between its line feeds (one more than there are line feeds).
pub open spec fn pieces_state(s: Seq<char>) -> (Seq<Seq<char>>, Seq<char>)
    decreases s.len(),
{
    if s.len() == 0 {
        (seq![], seq![])
    } else {
        let (done, cur) = pieces_state(s.drop_last());
        if s.last() == '\n' { (done.push(cur), seq![]) } else { (done, cur.push(s.last())) }
    }
}

pub open spec fn pieces(s: Seq<char>) -> Seq<Seq<char>> {
    pieces_state(s).0.push(pieces_state(s).1)
}

/// The state of field splitting: the fields so far, the field being read, and whether a
/// single quote is open.
pub struct SplitState {
    pub fields: Seq<Seq<char>>,
    pub cur: Seq<char>,
    pub in_quote: bool,
}

pub open spec fn split_step(st: SplitState, ch: char) -> SplitState {
    if ch == '\'' {
        SplitState { in_quote: !st.in_quote, ..st }
    } else if ch == ',' && !st.in_quote {
        SplitState { fields: st.fields.push(st.cur), cur: seq![], ..st }
    } else {
        SplitState { cur: st.cur.push(ch), ..st }
    }
}

pub open spec fn split_state(s: Seq<char>) -> SplitState
    decreases s.len(),
{
    if s.len() == 0 {
        SplitState { fields: seq![], cur: seq![], in_quote: false }
    } else {
        split_step(split_state(s.drop_last()), s.last())
    }
}

/// The comma-separated fields of a line; single quotes open and close literal segments
/// (commas inside them do not separate) and are dropped.
pub open spec fn split_fields(s: Seq<char>) -> Seq<Seq<char>> {
    split_state(s).fields.push(split_state(s).cur)
}

/// Fields joined with commas between them.
pub open spec fn join_with_commas(f: Seq<Seq<char>>) -> Seq<char>
    decreases f.len(),
{
    if f.len() == 0 {
        seq![]
    } else if f.len() == 1 {
        f[0]
    } else {
        join_with_commas(f.drop_last()).push(',') + f.last()
    }
}

/// The number of commas in a text.
pub open spec fn comma_count(s: Seq<char>) -> nat
    decreases s.len(),
{
    if s.len() == 0 {
        0
    } else {
        comma_count(s.drop_last()) + if s.last() == ',' { 1nat } else { 0nat }
    }
}

proof fn lemma_join_extend(f: Seq<Seq<char>>, x: Seq<char>, ch: char)
    ensures
        join_with_commas(f.push(x.push(ch))) == join_with_commas(f.push(x)).push(ch),
{
    if f.len() == 0 {
        assert(f.push(x.push(ch)) =~= seq![x.push(ch)]);
        assert(f.push(x) =~= seq![x]);
    } else {
        assert(f.push(x.push(ch)).drop_last() =~= f);
        assert(f.push(x).drop_last() =~= f);
        assert(join_with_commas(f).push(',') + x.push(ch) =~= (join_with_commas(f).push(',') + x).push(ch));
    }
}

proof fn lemma_split_state_quote_free(s: Seq<char>)
    requires
        !s.contains('\''),
    ensures
        !split_state(s).in_quote,
        join_with_commas(split_state(s).fields.push(split_state(s).cur)) == s,
        split_state(s).fields.len() == comma_count(s),
    decreases s.len(),
{
    if s.len() == 0 {
        assert(seq![Seq::<char>::empty()].len() == 1);
        assert(Seq::<Seq<char>>::empty().push(Seq::<char>::empty()) =~= seq![Seq::<char>::empty()]);
    } else {
        let t = s.drop_last();
        assert forall|i: int| 0 <= i < t.len() implies t[i] != '\'' by {
            assert(s[i] == t[i]);
        }
        lemma_split_state_quote_free(t);
        let st = split_state(t);
        let ch = s.last();
        assert(s[s.len() - 1] == ch);
        assert(ch != '\'');
        assert(t.push(ch) =~= s);
        if ch == ',' {
            let nf = st.fields.push(st.cur);
            assert(nf.push(Seq::<char>::empty()).drop_last() =~= nf);
            assert(nf.push(Seq::<char>::empty()).last() == Seq::<char>::empty());
            assert(join_with_commas(nf.push(Seq::<char>::empty())) =~= join_with_commas(nf).push(','));
        } else {
            lemma_join_extend(st.fields, st.cur, ch);
        }
    }
}

/// Splitting a line without single quotes at its commas and joining the fields with commas
/// gives the line back; there is one field more than there are commas.
pub proof fn law_split_then_join_is_the_line(s: Seq<char>)
    requires
        !s.contains('\''),
    ensures
        join_with_commas(split_fields(s)) == s,
        split_fields(s).len() == 1 + comma_count(s),
{
    lemma_split_state_quote_free(s);
}

// ─── Integers ───────────────────────────────────────────────────────────────

pub open spec fn is_digit(c: char) -> bool {
    '0' <= c <= '9'
}

pub open spec fn digit_value(c: char) -> int {
    c as int - '0' as int
}

/// The value of a string of decimal digits.
pub open spec fn digits_value(s: Seq<char>) -> int
    decreases s.len(),
{
    if s.len() == 0 { 0 } else { digits_value(s.drop_last()) * 10 + digit_value(s.last()) }
}

pub open spec fn all_digits(s: Seq<char>) -> bool {
    forall|i: int| 0 <= i < s.len() ==> is_digit(#[trigger] s[i])
}

/// Whether a text starts with a sign.
pub open spec fn has_sign(s: Seq<char>) -> bool {
    s.len() > 0 && (s[0] == '+' || s[0] == '-')
}

/// The integer a text reads as, as `i32::from_str` reads it: an optional sign, then at least
/// one decimal digit, and a value in range.
pub open spec fn parse_i32(s: Seq<char>) -> Option<i32> {
    let body = if has_sign(s) { s.drop_first() } else { s };
    let v = if has_sign(s) && s[0] == '-' { -digits_value(body) } else { digits_value(body) };
    if body.len() == 0 || !all_digits(body) || v < i32::MIN || v > i32::MAX { None } else { Some(v as i32) }
}

// ─── Rows and groups ────────────────────────────────────────────────────────

/// A row of the file, as values.
pub struct RowView {
    pub question: i32,
    pub eventnum: i32,
    pub team_name: Seq<char>,
    pub team: i32,
    pub seat: i32,
    pub event_code: Seq<char>,
    pub parm1: Seq<char>,
    pub parm2: Seq<char>,
    pub client_ts: Seq<char>,
}

/// The rows of one game, and what could not be read of it.
pub struct GroupView {
    pub tournament: Seq<char>,
    pub division: Seq<char>,
    pub room: Seq<char>,
    pub round: Seq<char>,
    pub rows: Seq<RowView>,
    pub parse_errors: Seq<Seq<char>>,
}

/// A game's key: tournament, division, room and round.
pub type KeyView = (Seq<char>, Seq<char>, Seq<char>, Seq<char>);

pub open spec fn empty_group() -> GroupView {
    GroupView {
        tournament: seq![],
        division: seq![],
        room: seq![],
        round: seq![],
        rows: seq![],
        parse_errors: seq![],
    }
}

pub open spec fn group_or_empty(m: Map<KeyView, GroupView>, k: KeyView) -> GroupView {
    if m.dom().contains(k) { m[k] } else { empty_group() }
}

pub open spec fn msg_columns(n: int) -> Seq<char> {
    "expected 14 columns but found "@ + int_text(n)
}

pub open spec fn msg_not_integer(what: Seq<char>, text: Seq<char>) -> Seq<char> {
    what + " '"@ + text + "' is not an integer"@
}

pub open spec fn msg_unknown_code(code: Seq<char>) -> Seq<char> {
    "unknown event code '"@ + code + "'"@
}

pub open spec fn with_error(g: GroupView, m: Seq<char>) -> GroupView {
    GroupView { parse_errors: g.parse_errors.push(m), ..g }
}

/// A row read into its game: a row short of columns, with a number that does not read, or
/// with an unknown code is an error of the game; a good row joins its rows.
pub open spec fn row_step(g: GroupView, f: Seq<Seq<char>>) -> GroupView {
    if f.len() < 14 {
        with_error(g, msg_columns(f.len() as int))
    } else if parse_i32(trim(f[5])) is None {
        with_error(g, msg_not_integer("question number"@, trim(f[5])))
    } else if parse_i32(trim(f[6])) is None {
        with_error(g, msg_not_integer("event number"@, trim(f[6])))
    } else if parse_i32(trim(f[8])) is None {
        with_error(g, msg_not_integer("team number"@, trim(f[8])))
    } else if parse_i32(trim(f[9])) is None {
        with_error(g, msg_not_integer("seat number"@, trim(f[9])))
    } else if !is_code(trim(f[10])) {
        with_error(g, msg_unknown_code(trim(f[10])))
    } else {
        GroupView {
            rows: g.rows.push(RowView {
                question: parse_i32(trim(f[5])).unwrap(),
                eventnum: parse_i32(trim(f[6])).unwrap(),
                team_name: trim(f[7]),
                team: parse_i32(trim(f[8])).unwrap(),
                seat: parse_i32(trim(f[9])).unwrap(),
                event_code: trim(f[10]),
                parm1: trim(f[11]),
                parm2: trim(f[12]),
                client_ts: trim(f[13]),
            }),
            ..g
        }
    }
}

/// The key with no parts, for rows too short to name a game.
pub open spec fn unknown_key() -> KeyView {
    (seq![], seq![], seq![], seq![])
}

/// The key a line's fields name.
pub open spec fn key_of_fields(f: Seq<Seq<char>>) -> KeyView {
    (trim(f[1]), trim(f[2]), trim(f[3]), trim(f[4]))
}

/// A trimmed, non-empty line read into the games.
pub open spec fn line_step(m: Map<KeyView, GroupView>, line: Seq<char>) -> Map<KeyView, GroupView> {
    let f = split_fields(line);
    if f.len() < 5 {
        let k = unknown_key();
        m.insert(k, with_error(group_or_empty(m, k), msg_columns(f.len() as int)))
    } else {
        let k = key_of_fields(f);
        let g = GroupView { tournament: k.0, division: k.1, room: k.2, round: k.3, ..group_or_empty(m, k) };
        m.insert(k, row_step(g, f))
    }
}

/// The games of the first lines, by key; blank lines are skipped.
pub open spec fn groups_of_lines(lines: Seq<Seq<char>>) -> Map<KeyView, GroupView>
    decreases lines.len(),
{
    if lines.len() == 0 {
        Map::empty()
    } else {
        let m = groups_of_lines(lines.drop_last());
        let l = trim(lines.last());
        if l.len() == 0 { m } else { line_step(m, l) }
    }
}

/// The games of a file, by key.
pub open spec fn groups_of(csv: Seq<char>) -> Map<KeyView, GroupView> {
    groups_of_lines(pieces(csv))
}

// ─── Order of keys ──────────────────────────────────────────────────────────

/// Lexicographic order of texts by character (the order of their UTF-8 bytes).
pub open spec fn text_lt(a: Seq<char>, b: Seq<char>) -> bool
    decreases a.len(),
{
    if a.len() == 0 {
        b.len() > 0
    } else if b.len() == 0 {
        false
    } else if a[0] != b[0] {
        a[0] < b[0]
    } else {
        text_lt(a.drop_first(), b.drop_first())
    }
}

/// The order of keys: by tournament, then division, room and round.
pub open spec fn key_lt(a: KeyView, b: KeyView) -> bool {
    ||| text_lt(a.0, b.0)
    ||| a.0 == b.0 && text_lt(a.1, b.1)
    ||| a.0 == b.0 && a.1 == b.1 && text_lt(a.2, b.2)
    ||| a.0 == b.0 && a.1 == b.1 && a.2 == b.2 && text_lt(a.3, b.3)
}

pub proof fn lemma_text_lt_total(a: Seq<char>, b: Seq<char>)
    ensures
        a == b || text_lt(a, b) || text_lt(b, a),
        !(text_lt(a, b) && text_lt(b, a)),
        !text_lt(a, a),
    decreases a.len(),
{
    if a.len() > 0 && b.len() > 0 {
        lemma_text_lt_total(a.drop_first(), b.drop_first());
        if a[0] == b[0] && a.drop_first() == b.drop_first() {
            assert(a =~= seq![a[0]] + a.drop_first());
            assert(b =~= seq![b[0]] + b.drop_first());
        }
    }
    if a.len() > 0 {
        lemma_text_lt_total(a.drop_first(), a.drop_first());
    }
    if a.len() == 0 && b.len() == 0 {
        assert(a =~= b);
    }
}

pub proof fn lemma_text_lt_trans(a: Seq<char>, b: Seq<char>, c: Seq<char>)
    requires
        text_lt(a, b),
        text_lt(b, c),
    ensures
        text_lt(a, c),
    decreases a.len(),
{
    if a.len() > 0 && b.len() > 0 && c.len() > 0 && a[0] == b[0] && b[0] == c[0] {
        lemma_text_lt_trans(a.drop_first(), b.drop_first(), c.drop_first());
    }
}

pub proof fn lemma_key_lt_total(a: KeyView, b: KeyView)
    ensures
        a == b || key_lt(a, b) || key_lt(b, a),
        !(key_lt(a, b) && key_lt(b, a)),
        !key_lt(a, a),
{
    lemma_text_lt_total(a.0, b.0);
    lemma_text_lt_total(a.1, b.1);
    lemma_text_lt_total(a.2, b.2);
    lemma_text_lt_total(a.3, b.3);
}

pub proof fn lemma_key_lt_trans(a: KeyView, b: KeyView, c: KeyView)
    requires
        key_lt(a, b),
        key_lt(b, c),
    ensures
        key_lt(a, c),
{
    lemma_key_lt_total(a, b);
    lemma_key_lt_total(b, c);
    if text_lt(a.0, b.0) && text_lt(b.0, c.0) { lemma_text_lt_trans(a.0, b.0, c.0); }
    if text_lt(a.1, b.1) && text_lt(b.1, c.1) { lemma_text_lt_trans(a.1, b.1, c.1); }
    if text_lt(a.2, b.2) && text_lt(b.2, c.2) { lemma_text_lt_trans(a.2, b.2, c.2); }
    if text_lt(a.3, b.3) && text_lt(b.3, c.3) { lemma_text_lt_trans(a.3, b.3, c.3); }
}

// ─── Sequence check ─────────────────────────────────────────────────────────

pub open spec fn msg_question_gap(near: int) -> Seq<char> {
    "question numbers are not sequential (a gap was found near question "@ + int_text(near) + ")"@
}

pub open spec fn msg_duplicate_eventnums(question: int) -> Seq<char> {
    "question "@ + int_text(question) + " has duplicate event numbers"@
}

pub open spec fn msg_missing_eventnum(question: int, e: int) -> Seq<char> {
    "question "@ + int_text(question) + " is missing event number "@ + int_text(e)
}

/// Whether a question number occurs among the rows.
pub open spec fn has_question(rows: Seq<RowView>, q: int) -> bool {
    exists|i: int| 0 <= i < rows.len() && rows[i].question == q
}

/// The event numbers of question `q`, in row order.
pub open spec fn eventnums_of(rows: Seq<RowView>, q: int) -> Seq<i32>
    decreases rows.len(),
{
    if rows.len() == 0 {
        seq![]
    } else {
        eventnums_of(rows.drop_last(), q) + if rows.last().question == q { seq![rows.last().eventnum] } else { Seq::<i32>::empty() }
    }
}

/// Whether a list holds a number twice.
pub open spec fn has_duplicates(s: Seq<i32>) -> bool {
    exists|i: int, j: int| 0 <= i < j < s.len() && s[i] == s[j]
}

/// The lowest question number of some rows.
pub open spec fn min_question(rows: Seq<RowView>) -> int
    decreases rows.len(),
{
    if rows.len() <= 1 {
        rows[0].question as int
    } else {
        let m = min_question(rows.drop_last());
        if (rows.last().question as int) < m { rows.last().question as int } else { m }
    }
}

/// The highest question number of some rows.
pub open spec fn max_question(rows: Seq<RowView>) -> int
    decreases rows.len(),
{
    if rows.len() <= 1 {
        rows[0].question as int
    } else {
        let m = max_question(rows.drop_last());
        if (rows.last().question as int) > m { rows.last().question as int } else { m }
    }
}

/// The longest run of questions 1, 2, ..., j present, for j up to `k`.
pub open spec fn run_upto(rows: Seq<RowView>, k: int) -> int
    decreases k,
{
    if k <= 0 {
        0
    } else {
        let r = run_upto(rows, k - 1);
        if r == k - 1 && has_question(rows, k) { k } else { r }
    }
}

/// The questions 1, 2, ..., j that are all present, for the longest such j.
pub open spec fn prefix_run(rows: Seq<RowView>) -> int {
    run_upto(rows, rows.len() as int)
}

/// The highest of some numbers.
pub open spec fn seq_max(s: Seq<i32>) -> int
    decreases s.len(),
{
    if s.len() <= 1 {
        s[0] as int
    } else {
        let m = seq_max(s.drop_last());
        if (s.last() as int) > m { s.last() as int } else { m }
    }
}

/// The first number from `e` to `max` that is missing from `s`.
pub open spec fn first_missing(s: Seq<i32>, e: int, max: int) -> Option<int>
    decreases max - e + 1,
{
    if e > max {
        None
    } else if !s.contains(e as i32) {
        Some(e)
    } else {
        first_missing(s, e + 1, max)
    }
}

/// What is wrong with the event numbers of question `q`: a number used twice, or the first
/// number from 0 to the highest that is missing.
pub open spec fn question_problem(rows: Seq<RowView>, q: int) -> Option<Seq<char>> {
    let evs = eventnums_of(rows, q);
    if has_duplicates(evs) {
        Some(msg_duplicate_eventnums(q))
    } else {
        match first_missing(evs, 0, seq_max(evs)) {
            Some(e) => Some(msg_missing_eventnum(q, e)),
            None => None,
        }
    }
}

/// The problem of the first question from `q` to `n` that has one.
pub open spec fn questions_problem(rows: Seq<RowView>, q: int, n: int) -> Option<Seq<char>>
    decreases n - q + 1,
{
    if q > n {
        None
    } else {
        match question_problem(rows, q) {
            Some(m) => Some(m),
            None => questions_problem(rows, q + 1, n),
        }
    }
}

/// What is wrong with a game's numbering: its questions must run 1, 2, ... without a gap
/// (the message names the lowest question when it is not 1, else the first one missing), and
/// each question's event numbers must run 0, 1, ... up to the highest, each once.
pub open spec fn sequence_error(rows: Seq<RowView>) -> Option<Seq<char>> {
    if rows.len() == 0 {
        None
    } else if min_question(rows) != 1 {
        Some(msg_question_gap(min_question(rows)))
    } else if max_question(rows) > prefix_run(rows) {
        Some(msg_question_gap(prefix_run(rows) + 1))
    } else {
        questions_problem(rows, 1, max_question(rows))
    }
}

} // verus!
