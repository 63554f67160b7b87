//! The detail-page parser: finds the fixed date element and reads the
//! post's timestamp from its text.

use vstd::prelude::*;
use vstd::string::*;
use crate::datetime::{board_instant_of, parse_board_datetime};
use crate::dom::{doc_tokens_of, doc_first_tokens, tokens_text, node_text};
use crate::NoticeError;

verus! {

/// Parses a detail page: locates the fixed date element — failing
/// with `StructureMismatch` when it is absent — assembles its text by
/// the same rules as titles, and reads it against the fixed pattern
/// `YYYY.MM.DD. HH:MM` at the board's UTC+9 offset. A text that does
/// not match the pattern fails with `TimestampParseError` carrying
/// that raw text.
pub fn parse_detail(html: &str) -> (r: Result<i64, NoticeError>)
    ensures
        doc_tokens_of(html@, ".date"@) is None ==> (r matches Err(e) && e is StructureMismatch),
        doc_tokens_of(html@, ".date"@) matches Some(ts) ==> match board_instant_of(
            tokens_text(ts),
        ) {
            Some(t) => r matches Ok(v) && v as int == t,
            None => r matches Err(e) && (e matches NoticeError::TimestampParseError(raw) && raw@
                == tokens_text(ts)),
        },
{
    let tokens = match doc_first_tokens(html, ".date") {
        Some(t) => t,
        None => {
            return Err(NoticeError::StructureMismatch);
        },
    };
    let text = node_text(&tokens);
    match parse_board_datetime(text.as_str()) {
        Some(v) => Ok(v),
        None => Err(NoticeError::TimestampParseError(text)),
    }
}

} // verus!
