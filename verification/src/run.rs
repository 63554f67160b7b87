//! One pipeline run as a state machine. The surrounding application
//! owns the I/O: it reads the cursor, fetches pages, sends messages
//! and persists the cursor, feeding each outcome back as an event.
//! Every decision — which decoder to use, which rows qualify, what
//! order to deliver in, when to write the cursor — is made here.

use vstd::prelude::*;
use vstd::string::*;
use crate::batch::plan_delivery;
use crate::datetime::board_instant_of;
use crate::decode::{decode_body, decoded_of};
use crate::detail::parse_detail;
use crate::dom::{doc_tokens_of, listing_rows_of, tokens_text};
use crate::list::{extract_post, parse_listing, row_blocked};
use crate::notice::{Candidate, Notice};
use crate::NoticeError;

verus! {

/// Where a run stands, between two I/O boundaries.
pub enum RunState {
    /// Waiting for the cursor store to answer.
    AwaitCursor,
    /// Waiting for the listing page, with the effective cursor.
    AwaitListing { cursor: i64 },
    /// Waiting for the detail page of `pending[0]`; `pending` holds
    /// the candidates still lacking a timestamp, newest first, and
    /// `done` the completed notices, newest first.
    AwaitDetail { cursor: i64, pending: Vec<Candidate>, done: Vec<Notice> },
    /// Delivering `batch` — oldest first — one notice per event;
    /// `batch[next]` is the one to send now.
    Delivering { batch: Vec<Notice>, next: usize, new_cursor: i64 },
    /// Everything delivered; waiting for the cursor write.
    AwaitPersist { new_cursor: i64, delivered: usize },
    /// The run succeeded and delivered this many notices.
    Finished { delivered: usize },
    /// The run failed; the next scheduled run is the only retry.
    Failed { error: NoticeError },
}

/// What the application reports back after performing an action.
pub enum RunEvent {
    /// The cursor store answered, possibly with no stored value.
    CursorLoaded { cursor: Option<i64> },
    /// The cursor store failed to read.
    CursorLoadFailed,
    /// A fetch completed with this declared content type and body.
    Fetched { content_type: Option<String>, body: Vec<u8> },
    /// A fetch failed at the network or HTTP level.
    FetchFailed,
    /// The notifier accepted the notice just sent.
    Delivered,
    /// The notifier failed; the batch is abandoned.
    DeliveryFailed,
    /// The cursor write succeeded.
    CursorSaved,
    /// The cursor write failed; the cursor stays stale.
    CursorSaveFailed,
}

/// What the application must do next. Each action reads its inputs
/// from the state it came with.
pub enum RunAction {
    /// Read the stored cursor.
    LoadCursor,
    /// Fetch the fixed listing page.
    FetchListing,
    /// Fetch the detail page of `pending[0]`.
    FetchDetail,
    /// Send `batch[next]` to the notifier.
    DeliverNext,
    /// Persist `new_cursor`.
    SaveCursor,
    /// The run is over; report `Failed` if that is where it ended.
    Done,
}

/// The cursor value a run works against: the stored value, or zero
/// when none has ever been stored.
pub open spec fn effective_cursor(c: Option<i64>) -> int {
    match c {
        Some(v) => v as int,
        None => 0,
    }
}

/// The state accepts the event: the event answers exactly the action
/// the state was handed out with, and the state is well-formed.
pub open spec fn accepts(s: RunState, e: RunEvent) -> bool {
    match (s, e) {
        (RunState::AwaitCursor, RunEvent::CursorLoaded { .. }) => true,
        (RunState::AwaitCursor, RunEvent::CursorLoadFailed) => true,
        (RunState::AwaitListing { .. }, RunEvent::Fetched { .. }) => true,
        (RunState::AwaitListing { .. }, RunEvent::FetchFailed) => true,
        (RunState::AwaitDetail { pending, .. }, RunEvent::Fetched { .. }) => pending@.len() > 0,
        (RunState::AwaitDetail { .. }, RunEvent::FetchFailed) => true,
        (RunState::Delivering { batch, next, .. }, RunEvent::Delivered) => next < batch@.len(),
        (RunState::Delivering { .. }, RunEvent::DeliveryFailed) => true,
        (RunState::AwaitPersist { .. }, RunEvent::CursorSaved) => true,
        (RunState::AwaitPersist { .. }, RunEvent::CursorSaveFailed) => true,
        _ => false,
    }
}

/// The run ended in failure with this error.
pub open spec fn failed_with(ns: RunState, a: RunAction, err: NoticeError) -> bool {
    &&& ns matches RunState::Failed { error } && error == err
    &&& a is Done
}

/// The notice completes the candidate with the given instant.
pub open spec fn notice_of(n: Notice, c: Candidate, t: int) -> bool {
    &&& n.number == c.number
    &&& n.title == c.title
    &&& n.url == c.url
    &&& n.timestamp as int == t
}

/// Exactly how one step moves the run: for each state and accepted
/// event, the next state and action, built from the decoding,
/// extraction, timestamp and planning rules.
pub open spec fn run_step_post(s: RunState, e: RunEvent, ns: RunState, a: RunAction) -> bool {
    match (s, e) {
        (RunState::AwaitCursor, RunEvent::CursorLoaded { cursor }) => {
            &&& ns matches RunState::AwaitListing { cursor: c } && c as int == effective_cursor(
                cursor,
            )
            &&& a is FetchListing
        },
        (RunState::AwaitCursor, RunEvent::CursorLoadFailed) => failed_with(
            ns,
            a,
            NoticeError::PersistenceError,
        ),
        (RunState::AwaitListing { cursor }, RunEvent::Fetched { content_type, body }) => match decoded_of(
            content_type.deep_view(),
            body@,
        ) {
            Err(err) => failed_with(ns, a, err),
            Ok(html) => match listing_rows_of(html, ".article-board"@, ".td_article"@) {
                None => failed_with(ns, a, NoticeError::StructureMismatch),
                Some(rows) => match ns {
                    RunState::Failed { error } => a is Done && extract_post(
                        rows,
                        cursor as int,
                        Err(error),
                    ),
                    RunState::Finished { delivered } => {
                        &&& delivered == 0
                        &&& (rows.len() > 0 ==> row_blocked(rows[0], cursor as int))
                        &&& a is Done
                    },
                    RunState::AwaitDetail { cursor: c2, pending, done } => {
                        &&& c2 == cursor
                        &&& done@.len() == 0
                        &&& pending@.len() > 0
                        &&& extract_post(rows, cursor as int, Ok(pending))
                        &&& a is FetchDetail
                    },
                    _ => false,
                },
            },
        },
        (RunState::AwaitListing { .. }, RunEvent::FetchFailed) => failed_with(
            ns,
            a,
            NoticeError::TransportError,
        ),
        (
            RunState::AwaitDetail { cursor, pending, done },
            RunEvent::Fetched { content_type, body },
        ) => match decoded_of(content_type.deep_view(), body@) {
            Err(err) => failed_with(ns, a, err),
            Ok(html) => match doc_tokens_of(html, ".date"@) {
                None => failed_with(ns, a, NoticeError::StructureMismatch),
                Some(ts) => match board_instant_of(tokens_text(ts)) {
                    None => {
                        &&& ns matches RunState::Failed { error } && (
                        error matches NoticeError::TimestampParseError(raw) && raw@ == tokens_text(
                            ts,
                        ))
                        &&& a is Done
                    },
                    Some(t) => if pending@.len() > 1 {
                        &&& ns matches RunState::AwaitDetail {
                            cursor: c2,
                            pending: p2,
                            done: d2,
                        } && {
                            &&& c2 == cursor
                            &&& p2@ == pending@.drop_first()
                            &&& d2@.len() == done@.len() + 1
                            &&& d2@.subrange(0, done@.len() as int) == done@
                            &&& notice_of(d2@.last(), pending@[0], t)
                        }
                        &&& a is FetchDetail
                    } else {
                        &&& ns matches RunState::Delivering { batch, next, new_cursor } && {
                            &&& next == 0
                            &&& batch@.len() == done@.len() + 1
                            &&& notice_of(batch@[0], pending@[0], t)
                            &&& forall|i: int|
                                1 <= i < batch@.len() ==> #[trigger] batch@[i] == done@[done@.len()
                                    - i]
                            &&& new_cursor as int == (if done@.len() > 0 {
                                done@[0].number as int
                            } else {
                                batch@[0].number as int
                            })
                        }
                        &&& a is DeliverNext
                    },
                },
            },
        },
        (RunState::AwaitDetail { .. }, RunEvent::FetchFailed) => failed_with(
            ns,
            a,
            NoticeError::TransportError,
        ),
        (RunState::Delivering { batch, next, new_cursor }, RunEvent::Delivered) => if next + 1
            < batch@.len() {
            &&& ns matches RunState::Delivering { batch: b2, next: n2, new_cursor: nc2 } && {
                &&& b2@ == batch@
                &&& n2 == next + 1
                &&& nc2 == new_cursor
            }
            &&& a is DeliverNext
        } else {
            &&& ns matches RunState::AwaitPersist { new_cursor: nc2, delivered } && {
                &&& nc2 == new_cursor
                &&& delivered == batch@.len()
            }
            &&& a is SaveCursor
        },
        (RunState::Delivering { .. }, RunEvent::DeliveryFailed) => failed_with(
            ns,
            a,
            NoticeError::TransportError,
        ),
        (RunState::AwaitPersist { new_cursor: _, delivered }, RunEvent::CursorSaved) => {
            &&& ns matches RunState::Finished { delivered: d } && d == delivered
            &&& a is Done
        },
        (RunState::AwaitPersist { .. }, RunEvent::CursorSaveFailed) => failed_with(
            ns,
            a,
            NoticeError::PersistenceError,
        ),
        _ => false,
    }
}

/// The state and action a run begins with: read the cursor before any
/// network activity.
pub fn run_start() -> (r: (RunState, RunAction))
    ensures
        r.0 is AwaitCursor,
        r.1 is LoadCursor,
{
    (RunState::AwaitCursor, RunAction::LoadCursor)
}

/// The fixed listing endpoint every run fetches first.
pub open spec fn listing_url_spec() -> Seq<char> {
    "https://cafe.naver.com/crkingdom/ArticleList.nhn?search.clubid=30291108&search.menuid=6&search.boardtype=L"@
}

/// Returns the fixed listing endpoint.
pub fn listing_url() -> (r: String)
    ensures
        r@ == listing_url_spec(),
{
    String::from_str(
        "https://cafe.naver.com/crkingdom/ArticleList.nhn?search.clubid=30291108&search.menuid=6&search.boardtype=L",
    )
}

/// Advances the run by one step: consumes the event the previous
/// action produced and decides the next action. A fetched body is
/// decoded and parsed here; any failure moves the run to `Failed`
/// without a cursor write, and only a fully delivered batch reaches
/// the cursor write.
pub fn run_step(state: RunState, event: RunEvent) -> (r: (RunState, RunAction))
    requires
        accepts(state, event),
    ensures
        run_step_post(state, event, r.0, r.1),
{
    match (state, event) {
        (RunState::AwaitCursor, RunEvent::CursorLoaded { cursor }) => {
            let eff: i64 = match cursor {
                Some(v) => v,
                None => 0,
            };
            (RunState::AwaitListing { cursor: eff }, RunAction::FetchListing)
        },
        (RunState::AwaitCursor, RunEvent::CursorLoadFailed) => (
            RunState::Failed { error: NoticeError::PersistenceError },
            RunAction::Done,
        ),
        (RunState::AwaitListing { cursor }, RunEvent::Fetched { content_type, body }) => {
            let html = match decode_body(&content_type, &body) {
                Ok(h) => h,
                Err(e) => {
                    return (RunState::Failed { error: e }, RunAction::Done);
                },
            };
            match parse_listing(html.as_str(), cursor) {
                Err(e) => (RunState::Failed { error: e }, RunAction::Done),
                Ok(cands) => {
                    if cands.len() == 0 {
                        (RunState::Finished { delivered: 0 }, RunAction::Done)
                    } else {
                        (
                            RunState::AwaitDetail { cursor, pending: cands, done: Vec::new() },
                            RunAction::FetchDetail,
                        )
                    }
                },
            }
        },
        (RunState::AwaitListing { .. }, RunEvent::FetchFailed) => (
            RunState::Failed { error: NoticeError::TransportError },
            RunAction::Done,
        ),
        (
            RunState::AwaitDetail { cursor, pending, done },
            RunEvent::Fetched { content_type, body },
        ) => {
            let html = match decode_body(&content_type, &body) {
                Ok(h) => h,
                Err(e) => {
                    return (RunState::Failed { error: e }, RunAction::Done);
                },
            };
            match parse_detail(html.as_str()) {
                Err(e) => (RunState::Failed { error: e }, RunAction::Done),
                Ok(t) => {
                    let ghost pending0 = pending@;
                    let ghost done0 = done@;
                    let mut pending = pending;
                    let mut done = done;
                    let c = pending.remove(0);
                    let n = Notice::from_candidate(c, t);
                    done.push(n);
                    proof {
                        assert(pending@ =~= pending0.drop_first());
                        assert(done@ == done0.push(n));
                        assert(done@.subrange(0, done0.len() as int) =~= done0);
                        assert(done@.last() == n);
                        assert(c == pending0[0]);
                    }
                    if pending.len() > 0 {
                        (
                            RunState::AwaitDetail { cursor, pending, done },
                            RunAction::FetchDetail,
                        )
                    } else {
                        let ghost full = done@;
                        match plan_delivery(done) {
                            Some((batch, new_cursor)) => {
                                proof {
                                    assert(batch@ == full.reverse());
                                    assert(batch@[0] == full[full.len() - 1]);
                                    assert(full.last() == n);
                                    assert forall|i: int|
                                        1 <= i < batch@.len() implies #[trigger] batch@[i]
                                        == done0[done0.len() - i] by {
                                        assert(batch@[i] == full[full.len() - 1 - i]);
                                        assert(full[full.len() - 1 - i] == done0[done0.len() - i]);
                                    }
                                    if done0.len() > 0 {
                                        assert(full[0] == done0[0]);
                                    } else {
                                        assert(full[0] == n);
                                    }
                                }
                                (
                                    RunState::Delivering { batch, next: 0, new_cursor },
                                    RunAction::DeliverNext,
                                )
                            },
                            None => unreached(),
                        }
                    }
                },
            }
        },
        (RunState::AwaitDetail { .. }, RunEvent::FetchFailed) => (
            RunState::Failed { error: NoticeError::TransportError },
            RunAction::Done,
        ),
        (RunState::Delivering { batch, next, new_cursor }, RunEvent::Delivered) => {
            let len = batch.len();
            assert(next < len);
            let n2 = next + 1;
            if n2 < len {
                (
                    RunState::Delivering { batch, next: n2, new_cursor },
                    RunAction::DeliverNext,
                )
            } else {
                let delivered = batch.len();
                (RunState::AwaitPersist { new_cursor, delivered }, RunAction::SaveCursor)
            }
        },
        (RunState::Delivering { .. }, RunEvent::DeliveryFailed) => (
            RunState::Failed { error: NoticeError::TransportError },
            RunAction::Done,
        ),
        (RunState::AwaitPersist { new_cursor: _, delivered }, RunEvent::CursorSaved) => (
            RunState::Finished { delivered },
            RunAction::Done,
        ),
        (RunState::AwaitPersist { .. }, RunEvent::CursorSaveFailed) => (
            RunState::Failed { error: NoticeError::PersistenceError },
            RunAction::Done,
        ),
        _ => unreached(),
    }
}

} // verus!
