//! The board's data model: a candidate discovered on the listing page
//! and a complete notice ready for delivery.

use vstd::prelude::*;

verus! {

/// One board post as the listing page shows it: identifier, title and
/// absolute detail-page link. The timestamp is still missing; the
/// detail page supplies it.
pub struct Candidate {
    /// The post's identifier; unique and monotonically increasing,
    /// the source of truth for ordering and deduplication.
    pub number: i64,
    /// The post's title, line breaks preserved, outer whitespace
    /// trimmed.
    pub title: String,
    /// The absolute link to the post's detail page.
    pub url: String,
}

/// One board post, complete: a candidate together with the absolute
/// instant its detail page carries.
pub struct Notice {
    /// The post's identifier; see [`Candidate::number`].
    pub number: i64,
    /// The post's title; see [`Candidate::title`].
    pub title: String,
    /// The absolute link to the post's detail page.
    pub url: String,
    /// The post's timestamp in seconds from the Unix epoch, derived
    /// from the board's fixed UTC+9 local time.
    pub timestamp: i64,
}

impl Notice {
    /// A candidate completed with its detail page's timestamp.
    pub fn from_candidate(c: Candidate, timestamp: i64) -> (r: Notice)
        ensures
            r.number == c.number,
            r.title == c.title,
            r.url == c.url,
            r.timestamp == timestamp,
    {
        Notice { number: c.number, title: c.title, url: c.url, timestamp }
    }
}

} // verus!
