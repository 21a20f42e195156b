//! The inbox: a user's notes as they are read back from storage, most important first.
use vstd::prelude::*;

use crate::note::{priority_of_code, Note, Priority};

verus! {

broadcast use vstd::seq_lib::group_to_multiset_ensures;

/// A stored note as the inbox query reads it: the timestamp still in seconds since
/// the Unix epoch, the priority still as its stored number.
#[derive(Debug)]
pub struct NoteRow {
    pub note_id: u32,
    pub user_id: u32,
    pub text: String,
    pub timestamp: i64,
    pub priority: u32,
    pub dismissed: bool,
}

/// The pattern in which the inbox shows a note's time, e.g. "Jan 01, 1970 | 00:00".
pub open spec fn date_pattern() -> Seq<char> {
    "%b %d, %Y | %H:%M"@
}

/// Whether chrono can place `secs` seconds after the Unix epoch on its calendar:
/// from the start of January 1 of year -262143 to the end of December 31 of year 262142.
pub open spec fn timestamp_in_range(secs: i64) -> bool {
    -8_334_601_228_800 <= secs <= 8_210_266_876_799
}

/// The text that chrono's `format` writes for the UTC time `secs` seconds after the
/// Unix epoch, following the strftime-style `pattern`.
pub uninterp spec fn formatted_timestamp(secs: i64, pattern: Seq<char>) -> Seq<char>;

/// chrono's `DateTime::<Utc>::from_timestamp(secs, 0)`, formatted with `format(pattern)`
/// and written out with `to_string()`.
///
/// Claims, from chrono's source: `from_timestamp` gives a time exactly for the seconds
/// in `timestamp_in_range`, and the formatted text is a function of the seconds and the
/// pattern alone (the time zone is UTC). What that text is, is left unsaid here: it is
/// named `formatted_timestamp`. Only the inbox's own pattern is admitted, since writing
/// out a pattern with an unknown specifier panics.
#[verifier::external_body]
fn chrono_format_timestamp(secs: i64, pattern: &str) -> (r: Option<String>)
    requires
        pattern@ == date_pattern(),
    ensures
        r is Some <==> timestamp_in_range(secs),
        r matches Some(s) ==> s@ == formatted_timestamp(secs, pattern@),
{
    match chrono::DateTime::from_timestamp(secs, 0) {
        Some(dt) => Some(dt.format(pattern).to_string()),
        None => None,
    }
}

/// Formats a date timestamp as a human-readable string, e.g. "Jan 01, 1970 | 00:00".
pub fn format_date(timestamp: i64) -> (r: String)
    requires
        timestamp_in_range(timestamp),
    ensures
        r@ == formatted_timestamp(timestamp, date_pattern()),
{
    match try_format_date(timestamp) {
        Some(s) => s,
        None => String::new(),
    }
}

/// Formats a date timestamp as `format_date` does, or gives `None` for a timestamp
/// that lies outside chrono's calendar.
pub fn try_format_date(timestamp: i64) -> (r: Option<String>)
    ensures
        r is Some <==> timestamp_in_range(timestamp),
        r matches Some(s) ==> s@ == formatted_timestamp(timestamp, date_pattern()),
{
    let pattern = "%b %d, %Y | %H:%M";
    proof {
        reveal_strlit("%b %d, %Y | %H:%M");
    }
    chrono_format_timestamp(timestamp, pattern)
}

/// Whether a stored note belongs in `user_id`'s inbox: it is theirs and not dismissed.
pub open spec fn in_inbox(user_id: u32, r: NoteRow) -> bool {
    r.user_id == user_id && !r.dismissed
}

/// The stored notes that belong in `user_id`'s inbox, in storage order.
pub open spec fn inbox_rows(user_id: u32, rows: Seq<NoteRow>) -> Seq<NoteRow> {
    rows.filter(|r: NoteRow| in_inbox(user_id, r))
}

/// Whether `a` may be shown before `b`: a higher priority first, and within a
/// priority level the later note first.
pub open spec fn shown_before(a: NoteRow, b: NoteRow) -> bool {
    a.priority > b.priority || (a.priority == b.priority && a.timestamp >= b.timestamp)
}

/// Whether `s` is in inbox order: by priority, highest first, and within each
/// priority level by timestamp, latest first.
pub open spec fn in_inbox_order(s: Seq<NoteRow>) -> bool {
    forall|i: int, j: int| 0 <= i < j < s.len() ==> shown_before(#[trigger] s[i], #[trigger] s[j])
}

/// Whether a stored note can be shown: its priority number stands for a priority and
/// its timestamp lies on chrono's calendar.
pub open spec fn row_is_showable(r: NoteRow) -> bool {
    priority_of_code(r.priority) is Some && timestamp_in_range(r.timestamp)
}

/// Whether `n` is the note shown for the stored note `r`.
pub open spec fn shows_row(n: Note, r: NoteRow) -> bool {
    &&& n.note_id == r.note_id
    &&& n.user_id == r.user_id
    &&& n.text == r.text
    &&& n.timestamp@ == formatted_timestamp(r.timestamp, date_pattern())
    &&& Some(n.priority) == priority_of_code(r.priority)
    &&& n.dismissed == r.dismissed
}

fn shown_before_exec(a: &NoteRow, b: &NoteRow) -> (r: bool)
    ensures
        r == shown_before(*a, *b),
{
    a.priority > b.priority || (a.priority == b.priority && a.timestamp >= b.timestamp)
}

/// The rows of `user_id`'s inbox in inbox order: the rows that are `user_id`'s and
/// not dismissed, highest priority first, and within a priority the latest first.
/// Rows that tie on both keep no particular order.
pub fn inbox_order(user_id: u32, rows: Vec<NoteRow>) -> (r: Vec<NoteRow>)
    ensures
        r@.to_multiset() == inbox_rows(user_id, rows@).to_multiset(),
        in_inbox_order(r@),
        forall|i: int| 0 <= i < r@.len() ==> (#[trigger] r@[i]).user_id == user_id && !r@[i].dismissed,
        forall|i: int| 0 <= i < r@.len() ==> rows@.contains(#[trigger] r@[i]),
        forall|i: int| 0 <= i < rows@.len() && (#[trigger] rows@[i]).user_id == user_id && !rows@[i].dismissed
            ==> r@.contains(rows@[i]),
        forall|i: int, j: int| 0 <= i < j < r@.len() ==> (#[trigger] r@[i]).priority >= (#[trigger] r@[j]).priority,
{
    let ghost orig = rows@;
    let ghost pred = |r: NoteRow| in_inbox(user_id, r);
    let mut rows = rows;
    let mut out: Vec<NoteRow> = Vec::new();
    proof {
        assert(orig.take(orig.len() as int) =~= orig);
    }
    while rows.len() > 0
        invariant
            rows@ =~= orig.take(rows@.len() as int),
            rows@.len() <= orig.len(),
            out@.to_multiset().add(orig.take(rows@.len() as int).filter(pred).to_multiset())
                =~= orig.filter(pred).to_multiset(),
            in_inbox_order(out@),
            pred == (|r: NoteRow| in_inbox(user_id, r)),
        decreases rows@.len(),
    {
        let ghost k = rows@.len() as int;
        let row = rows.pop().unwrap();
        proof {
            assert(orig.take(k).drop_last() =~= orig.take(k - 1));
            assert(orig.take(k).last() == row);
            reveal(Seq::filter);
            assert(orig.take(k).filter(pred) == if pred(row) {
                orig.take(k - 1).filter(pred).push(row)
            } else {
                orig.take(k - 1).filter(pred)
            });
        }
        if row.user_id == user_id && !row.dismissed {
            let mut p: usize = 0;
            while p < out.len() && shown_before_exec(&out[p], &row)
                invariant
                    p <= out@.len(),
                    forall|j: int| 0 <= j < p ==> shown_before(#[trigger] out@[j], row),
                decreases out@.len() - p,
            {
                p = p + 1;
            }
            let ghost before = out@;
            out.insert(p, row);
            proof {
                assert forall|i: int, j: int| 0 <= i < j < out@.len() implies shown_before(
                    #[trigger] out@[i],
                    #[trigger] out@[j],
                ) by {
                    if i < p && j == p {
                    } else if i < p && j > p {
                        assert(out@[j] == before[j - 1]);
                        assert(shown_before(before[i], before[j - 1]));
                    } else if i == p {
                        assert(out@[j] == before[j - 1]);
                        assert(shown_before(before[p as int], before[j - 1]) || j - 1 == p);
                    } else if i > p {
                        assert(out@[i] == before[i - 1]);
                        assert(out@[j] == before[j - 1]);
                    } else {
                        assert(out@[i] == before[i]);
                        assert(out@[j] == before[j]);
                    }
                }
                assert(orig.take(k).filter(pred) =~= orig.take(k - 1).filter(pred).push(row));
            }
        } else {
            proof {
                assert(orig.take(k).filter(pred) =~= orig.take(k - 1).filter(pred));
            }
        }
    }
    proof {
        broadcast use vstd::multiset::group_multiset_axioms;
        reveal(Seq::filter);
        assert(orig.take(0).filter(pred) =~= Seq::<NoteRow>::empty());
        assert(out@.to_multiset() =~= orig.filter(pred).to_multiset());
        lemma_inbox_holds_exactly_undismissed(user_id, orig, out@);
    }
    out
}

/// The note shown for a stored note: the same fields, with its priority number
/// read as a priority and its timestamp formatted by `format_date`.
pub fn note_from_row(row: NoteRow) -> (n: Note)
    requires
        row_is_showable(row),
    ensures
        shows_row(n, row),
        n.text@ == row.text@,
        n.note_id == row.note_id,
        n.user_id == row.user_id,
        n.dismissed == row.dismissed,
        row.priority == 0 ==> n.priority == Priority::LOW,
        row.priority == 1 ==> n.priority == Priority::MED,
        row.priority == 2 ==> n.priority == Priority::HIGH,
{
    let priority = match Priority::try_from(row.priority) {
        Ok(p) => p,
        Err(_) => Priority::LOW,
    };
    let timestamp = format_date(row.timestamp);
    Note {
        note_id: row.note_id,
        user_id: row.user_id,
        text: row.text,
        timestamp,
        priority,
        dismissed: row.dismissed,
    }
}

/// All of `user_id`'s notes that are not dismissed, ordered by priority, highest
/// first; within each priority level the latest note comes first. Each note is the
/// one shown for a stored note (see `note_from_row`), and each of the user's
/// undismissed stored notes is shown exactly once.
pub fn inbox_notes(user_id: u32, rows: Vec<NoteRow>) -> (r: Vec<Note>)
    requires
        forall|i: int| 0 <= i < rows@.len() && in_inbox(user_id, #[trigger] rows@[i])
            ==> row_is_showable(rows@[i]),
    ensures
        exists|s: Seq<NoteRow>|
            {
                &&& s.to_multiset() == inbox_rows(user_id, rows@).to_multiset()
                &&& in_inbox_order(s)
                &&& r@.len() == s.len()
                &&& forall|i: int| 0 <= i < s.len() ==> shows_row(#[trigger] r@[i], s[i])
                &&& forall|i: int| 0 <= i < s.len() ==> (#[trigger] r@[i]).text@ == s[i].text@
                    && r@[i].note_id == s[i].note_id
            },
        forall|i: int| 0 <= i < r@.len() ==> (#[trigger] r@[i]).user_id == user_id && !r@[i].dismissed,
{
    let ghost orig = rows@;
    let mut ordered = inbox_order(user_id, rows);
    let ghost s = ordered@;
    proof {
        assert forall|i: int| 0 <= i < s.len() implies row_is_showable(#[trigger] s[i]) by {
            let pred = |r: NoteRow| in_inbox(user_id, r);
            assert(s.to_multiset().count(s[i]) > 0);
            assert(orig.filter(pred).contains(s[i]));
            let j = choose|j: int| 0 <= j < orig.filter(pred).len() && orig.filter(pred)[j] == s[i];
            orig.lemma_filter_pred(pred, j);
            orig.lemma_filter_contains_rev(pred, s[i]);
            let m = choose|m: int| 0 <= m < orig.len() && orig[m] == s[i];
            assert(in_inbox(user_id, orig[m]));
        }
    }
    let mut rev: Vec<Note> = Vec::new();
    while ordered.len() > 0
        invariant
            ordered@ =~= s.take(ordered@.len() as int),
            ordered@.len() <= s.len(),
            rev@.len() == s.len() - ordered@.len(),
            forall|i: int| 0 <= i < s.len() ==> row_is_showable(#[trigger] s[i]),
            forall|i: int| 0 <= i < rev@.len() ==> shows_row(#[trigger] rev@[i], s[s.len() - 1 - i]),
        decreases ordered@.len(),
    {
        let ghost k = ordered@.len() as int;
        let row = ordered.pop().unwrap();
        proof {
            assert(row == s[k - 1]);
        }
        rev.push(note_from_row(row));
    }
    let mut out: Vec<Note> = Vec::new();
    while rev.len() > 0
        invariant
            rev@.len() + out@.len() == s.len(),
            forall|i: int| 0 <= i < rev@.len() ==> shows_row(#[trigger] rev@[i], s[s.len() - 1 - i]),
            forall|i: int| 0 <= i < out@.len() ==> shows_row(#[trigger] out@[i], s[i]),
        decreases rev@.len(),
    {
        let ghost k = rev@.len() as int;
        let n = rev.pop().unwrap();
        proof {
            assert(shows_row(n, s[s.len() - k]));
        }
        out.push(n);
    }
    out
}

/// An inbox (any sequence with the multiset of `user_id`'s inbox rows) shows only
/// `user_id`'s notes, never a dismissed one, and every undismissed note of theirs.
pub proof fn lemma_inbox_holds_exactly_undismissed(user_id: u32, rows: Seq<NoteRow>, shown: Seq<NoteRow>)
    requires
        shown.to_multiset() == inbox_rows(user_id, rows).to_multiset(),
    ensures
        forall|i: int| 0 <= i < shown.len() ==> (#[trigger] shown[i]).user_id == user_id && !shown[i].dismissed,
        forall|i: int| 0 <= i < shown.len() ==> rows.contains(#[trigger] shown[i]),
        forall|i: int| 0 <= i < rows.len() && (#[trigger] rows[i]).user_id == user_id && !rows[i].dismissed
            ==> shown.contains(rows[i]),
{
    let pred = |r: NoteRow| in_inbox(user_id, r);
    assert forall|i: int| 0 <= i < shown.len() implies (#[trigger] shown[i]).user_id == user_id
        && !shown[i].dismissed && rows.contains(shown[i]) by {
        assert(shown.to_multiset().count(shown[i]) > 0);
        assert(rows.filter(pred).contains(shown[i]));
        let j = choose|j: int| 0 <= j < rows.filter(pred).len() && rows.filter(pred)[j] == shown[i];
        rows.lemma_filter_pred(pred, j);
        rows.lemma_filter_contains_rev(pred, shown[i]);
    }
    assert forall|i: int| 0 <= i < rows.len() && (#[trigger] rows[i]).user_id == user_id && !rows[i].dismissed
        implies shown.contains(rows[i]) by {
        rows.lemma_filter_contains(pred, i);
        assert(rows.filter(pred).to_multiset().count(rows[i]) > 0);
    }
}

/// In inbox order, a note of higher priority always comes before one of lower
/// priority, and among notes of one priority a later one comes first.
pub proof fn lemma_inbox_order_priority_first(s: Seq<NoteRow>, i: int, j: int)
    requires
        in_inbox_order(s),
        0 <= i < s.len(),
        0 <= j < s.len(),
    ensures
        s[i].priority > s[j].priority ==> i < j,
        s[i].priority == s[j].priority && s[i].timestamp > s[j].timestamp ==> i < j,
{
    if j < i {
        assert(shown_before(s[j], s[i]));
    }
}

/// The note shown for a stored note keeps its text, ids and dismissed flag unchanged,
/// and reads its priority from the stored number (0 low, 1 medium, 2 high).
pub proof fn lemma_shown_note_keeps_row(n: Note, r: NoteRow)
    requires
        shows_row(n, r),
    ensures
        n.text@ == r.text@,
        n.note_id == r.note_id,
        n.user_id == r.user_id,
        n.dismissed == r.dismissed,
        r.priority == 0 ==> n.priority == Priority::LOW,
        r.priority == 1 ==> n.priority == Priority::MED,
        r.priority == 2 ==> n.priority == Priority::HIGH,
{
}

} // verus!
