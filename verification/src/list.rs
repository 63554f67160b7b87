//! The listing-page parser: finds the board container, walks its rows
//! newest-first, and materializes exactly the rows whose number lies
//! above the cursor, stopping at the first row at or below it.

use vstd::prelude::*;
use vstd::string::*;
use crate::dom::{
    DomToken, frag_tokens_of, frag_attr_of, listing_rows_of, tokens_text, board_rows,
    frag_first_tokens, frag_first_attr, node_text,
};
use crate::notice::Candidate;
use crate::num::{parse_int_spec, parse_i64};
use crate::text::{trim_spec, trim_str};
use crate::NoticeError;

verus! {

/// The number a row carries: its number element's text, read as a
/// signed 64-bit integer. Nothing when the element is absent, its text
/// is not a number, or the number does not fit.
pub open spec fn row_number(row: Seq<char>) -> Option<int> {
    match frag_tokens_of(row, ".board-number .inner_number"@) {
        Some(ts) => match parse_int_spec(tokens_text(ts)) {
            Some(n) => if i64::MIN <= n <= i64::MAX {
                Some(n)
            } else {
                None
            },
            None => None,
        },
        None => None,
    }
}

/// The title a row carries: its link element's assembled text, outer
/// whitespace trimmed. Nothing when the element is absent.
pub open spec fn row_title(row: Seq<char>) -> Option<Seq<char>> {
    match frag_tokens_of(row, ".board-list a"@) {
        Some(ts) => Some(trim_spec(tokens_text(ts))),
        None => None,
    }
}

/// The detail link a row carries: its link element's `href`, resolved
/// against the site's fixed origin. Nothing when element or attribute
/// is absent.
pub open spec fn row_url(row: Seq<char>) -> Option<Seq<char>> {
    match frag_attr_of(row, ".board-list a"@, "href"@) {
        Some(h) => Some("https://cafe.naver.com/crkingdom"@ + h),
        None => None,
    }
}

/// The candidate materializes this row, and the row lies above the
/// cursor.
pub open spec fn candidate_matches_row(c: Candidate, row: Seq<char>, cursor: int) -> bool {
    &&& row_number(row) matches Some(n) && c.number as int == n && n > cursor
    &&& row_title(row) matches Some(t) && c.title@ == t
    &&& row_url(row) matches Some(u) && c.url@ == u
}

/// The row's number is present but at or below the cursor: iteration
/// stops here, without error.
pub open spec fn row_blocked(row: Seq<char>, cursor: int) -> bool {
    row_number(row) matches Some(n) && n <= cursor
}

/// The row lacks a required field: no number, or — for a row above the
/// cursor — no title or no link.
pub open spec fn row_faulty(row: Seq<char>, cursor: int) -> bool {
    ||| row_number(row) is None
    ||| (row_number(row) matches Some(n) && n > cursor && (row_title(row) is None || row_url(row)
        is None))
}

/// Exactly what extracting candidates from the given rows yields: on
/// success, one candidate per leading row above the cursor, in row
/// order, cut off at the first row at or below the cursor; otherwise
/// `ItemFieldMissing` with the index of the first defective row.
pub open spec fn extract_post(
    rows: Seq<Seq<char>>,
    cursor: int,
    r: Result<Vec<Candidate>, NoticeError>,
) -> bool {
    match r {
        Ok(cands) => {
            &&& cands@.len() <= rows.len()
            &&& forall|i: int|
                0 <= i < cands@.len() ==> candidate_matches_row(#[trigger] cands@[i], rows[i], cursor)
            &&& (cands@.len() < rows.len() ==> row_blocked(rows[cands@.len() as int], cursor))
        },
        Err(e) => e matches NoticeError::ItemFieldMissing(idx) && {
            &&& (idx as int) < rows.len()
            &&& row_faulty(rows[idx as int], cursor)
            &&& forall|i: int|
                0 <= i < idx ==> !row_blocked(#[trigger] rows[i], cursor) && !row_faulty(
                    rows[i],
                    cursor,
                )
        },
    }
}

/// Walks the rows in document order — newest first — materializing a
/// candidate for each row whose number is above the cursor, and stops
/// without error at the first row at or below it; a row missing its
/// number, title or link fails with that row's index.
pub fn extract_candidates(rows: &Vec<String>, cursor: i64) -> (r: Result<
    Vec<Candidate>,
    NoticeError,
>)
    ensures
        extract_post(rows.deep_view(), cursor as int, r),
{
    let ghost rv = rows.deep_view();
    let mut out: Vec<Candidate> = Vec::new();
    let mut i: usize = 0;
    while i < rows.len()
        invariant
            0 <= i <= rows@.len(),
            rv == rows.deep_view(),
            rv.len() == rows@.len(),
            out@.len() == i,
            forall|k: int|
                0 <= k < i ==> candidate_matches_row(#[trigger] out@[k], rv[k], cursor as int),
            forall|k: int|
                0 <= k < i ==> !row_blocked(#[trigger] rv[k], cursor as int) && !row_faulty(
                    rv[k],
                    cursor as int,
                ),
        decreases rows@.len() - i,
    {
        let row: &String = &rows[i];
        proof {
            assert(rv[i as int] == row@);
        }
        let num_tokens = match frag_first_tokens(row.as_str(), ".board-number .inner_number") {
            Some(t) => t,
            None => {
                return Err(NoticeError::ItemFieldMissing(i));
            },
        };
        let num_text = node_text(&num_tokens);
        let number = match parse_i64(num_text.as_str()) {
            Some(v) => v,
            None => {
                return Err(NoticeError::ItemFieldMissing(i));
            },
        };
        if number <= cursor {
            return Ok(out);
        }
        let title_tokens = match frag_first_tokens(row.as_str(), ".board-list a") {
            Some(t) => t,
            None => {
                return Err(NoticeError::ItemFieldMissing(i));
            },
        };
        let title_text = node_text(&title_tokens);
        let title = trim_str(title_text.as_str());
        let href = match frag_first_attr(row.as_str(), ".board-list a", "href") {
            Some(h) => h,
            None => {
                return Err(NoticeError::ItemFieldMissing(i));
            },
        };
        let mut url = String::from_str("https://cafe.naver.com/crkingdom");
        url.append(href.as_str());
        out.push(Candidate { number, title, url });
        i = i + 1;
    }
    Ok(out)
}

/// Parses the listing page: locates the board container by its fixed
/// structural selector — failing with `StructureMismatch` when the
/// page's layout no longer matches — and extracts the candidates
/// above the cursor from its rows, newest first.
pub fn parse_listing(html: &str, cursor: i64) -> (r: Result<Vec<Candidate>, NoticeError>)
    ensures
        listing_rows_of(html@, ".article-board"@, ".td_article"@) is None ==> (r matches Err(e)
            && e is StructureMismatch),
        listing_rows_of(html@, ".article-board"@, ".td_article"@) matches Some(rows)
            ==> extract_post(rows, cursor as int, r),
{
    match board_rows(html, ".article-board", ".td_article") {
        Some(rows) => extract_candidates(&rows, cursor),
        None => Err(NoticeError::StructureMismatch),
    }
}

/// Candidate bound: every candidate a successful extraction returns
/// carries a number strictly greater than the cursor in effect, for
/// any rows and any cursor.
pub proof fn lemma_candidates_above_cursor(
    rows: Seq<Seq<char>>,
    cursor: int,
    r: Result<Vec<Candidate>, NoticeError>,
)
    requires
        extract_post(rows, cursor, r),
    ensures
        r matches Ok(cands) ==> forall|i: int|
            0 <= i < cands@.len() ==> #[trigger] cands@[i].number > cursor,
{
}

/// Listing order: when the rows' numbers run strictly descending — the
/// board lists newest first — the extracted candidates run strictly
/// descending too, which is what makes the planned delivery ascending.
pub proof fn lemma_candidates_descending(
    rows: Seq<Seq<char>>,
    cursor: int,
    r: Result<Vec<Candidate>, NoticeError>,
)
    requires
        extract_post(rows, cursor, r),
        forall|i: int, j: int|
            0 <= i < j < rows.len() ==> match (
                #[trigger] row_number(rows[i]),
                #[trigger] row_number(rows[j]),
            ) {
                (Some(a), Some(b)) => a > b,
                _ => true,
            },
    ensures
        r matches Ok(cands) ==> forall|i: int, j: int|
            0 <= i < j < cands@.len() ==> #[trigger] cands@[i].number > #[trigger] cands@[j].number,
{
    if r is Ok {
        let cands = r->Ok_0;
        assert forall|i: int, j: int|
            0 <= i < j < cands@.len() implies #[trigger] cands@[i].number
            > #[trigger] cands@[j].number by {
            assert(candidate_matches_row(cands@[i], rows[i], cursor));
            assert(candidate_matches_row(cands@[j], rows[j], cursor));
        }
    }
}

} // verus!
