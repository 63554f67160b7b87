use kingdom_notice::run::{run_start, run_step, RunAction, RunEvent, RunState};
use kingdom_notice::gate::{gate_step, GateAction, GateEvent, GateState};
use kingdom_notice::notice::Notice;
use kingdom_notice::batch::plan_delivery;
use kingdom_notice::NoticeError;

fn mk_row(number: i64, title: &str) -> String {
    format!(
        "<tr><td class=\"td_article\">\
           <div class=\"board-number\"><div class=\"inner_number\">{}</div></div>\
           <div class=\"board-list\"><a href=\"/ArticleRead.nhn?articleid={}\">{}</a></div>\
         </td></tr>",
        number, number, title
    )
}

fn mk_listing(numbers: &[i64]) -> String {
    let rows: String = numbers.iter().map(|n| mk_row(*n, "title")).collect();
    format!(
        "<html><body>\
           <div class=\"article-board\">decoy</div>\
           <div class=\"article-board\"><table><tbody>{}</tbody></table></div>\
         </body></html>",
        rows
    )
}

fn mk_detail(date_text: &str) -> String {
    format!("<html><body><div class=\"date\">{}</div></body></html>", date_text)
}

fn utf8_page(html: &str) -> RunEvent {
    RunEvent::Fetched {
        content_type: Some(String::from("text/html; charset=utf-8")),
        body: html.as_bytes().to_vec(),
    }
}

/// Drives one full run: answers every action mechanically, taking
/// detail dates from `dates` keyed by position in the pending order,
/// and returns the delivered numbers, the saved cursor and the final
/// state.
fn drive_run(
    stored_cursor: Option<i64>,
    listing: &str,
    dates: &[&str],
) -> (Vec<i64>, Option<i64>, RunState) {
    let (mut state, mut action) = run_start();
    let mut delivered: Vec<i64> = Vec::new();
    let mut saved: Option<i64> = None;
    let mut detail_idx = 0;
    loop {
        let event = match action {
            RunAction::LoadCursor => RunEvent::CursorLoaded { cursor: stored_cursor },
            RunAction::FetchListing => utf8_page(listing),
            RunAction::FetchDetail => {
                let page = mk_detail(dates[detail_idx]);
                detail_idx += 1;
                utf8_page(&page)
            }
            RunAction::DeliverNext => {
                if let RunState::Delivering { batch, next, .. } = &state {
                    delivered.push(batch[*next].number);
                }
                RunEvent::Delivered
            }
            RunAction::SaveCursor => {
                if let RunState::AwaitPersist { new_cursor, .. } = &state {
                    saved = Some(*new_cursor);
                }
                RunEvent::CursorSaved
            }
            RunAction::Done => return (delivered, saved, state),
        };
        let (s, a) = run_step(state, event);
        state = s;
        action = a;
    }
}

#[test]
fn scenario_first_run_delivers_everything_oldest_first() {
    let listing = mk_listing(&[105, 104, 103]);
    let dates = ["2023.11.03. 09:15", "2023.11.02. 12:00", "2023.11.01. 08:30"];
    let (delivered, saved, state) = drive_run(None, &listing, &dates);
    assert_eq!(delivered, vec![103, 104, 105]);
    assert_eq!(saved, Some(105));
    assert!(matches!(state, RunState::Finished { delivered: 3 }));
}

#[test]
fn scenario_cursor_excludes_already_seen() {
    let listing = mk_listing(&[107, 106, 105]);
    let dates = ["2023.11.05. 10:00", "2023.11.04. 10:00"];
    let (delivered, saved, state) = drive_run(Some(105), &listing, &dates);
    assert_eq!(delivered, vec![106, 107]);
    assert_eq!(saved, Some(107));
    assert!(matches!(state, RunState::Finished { delivered: 2 }));
}

#[test]
fn scenario_empty_batch_leaves_cursor_alone() {
    let listing = mk_listing(&[50]);
    let (delivered, saved, state) = drive_run(Some(50), &listing, &[]);
    assert!(delivered.is_empty());
    assert_eq!(saved, None);
    assert!(matches!(state, RunState::Finished { delivered: 0 }));
}

#[test]
fn scenario_missing_content_type_aborts_before_delivery() {
    let (mut state, _) = run_start();
    let step = run_step(state, RunEvent::CursorLoaded { cursor: Some(7) });
    state = step.0;
    let (state, action) = run_step(
        state,
        RunEvent::Fetched { content_type: None, body: b"<html></html>".to_vec() },
    );
    assert!(matches!(action, RunAction::Done));
    assert!(matches!(state, RunState::Failed { error: NoticeError::MissingContentType }));
}

#[test]
fn delivery_failure_aborts_without_cursor_write() {
    let listing = mk_listing(&[12, 11]);
    let (mut state, mut action) = run_start();
    let mut sent: Vec<i64> = Vec::new();
    loop {
        let event = match action {
            RunAction::LoadCursor => RunEvent::CursorLoaded { cursor: None },
            RunAction::FetchListing => utf8_page(&listing),
            RunAction::FetchDetail => utf8_page(&mk_detail("2023.10.01. 11:00")),
            RunAction::DeliverNext => {
                if let RunState::Delivering { batch, next, .. } = &state {
                    sent.push(batch[*next].number);
                }
                if sent.len() == 1 {
                    RunEvent::Delivered
                } else {
                    RunEvent::DeliveryFailed
                }
            }
            RunAction::SaveCursor => panic!("the cursor must not be written after a failed batch"),
            RunAction::Done => break,
        };
        let (s, a) = run_step(state, event);
        state = s;
        action = a;
    }
    assert_eq!(sent, vec![11, 12]);
    assert!(matches!(state, RunState::Failed { error: NoticeError::TransportError }));
}

#[test]
fn cursor_read_failure_aborts_before_any_fetch() {
    let (state, _) = run_start();
    let (state, action) = run_step(state, RunEvent::CursorLoadFailed);
    assert!(matches!(action, RunAction::Done));
    assert!(matches!(state, RunState::Failed { error: NoticeError::PersistenceError }));
}

#[test]
fn plan_orders_ascending_and_picks_max_cursor() {
    let mk = |number: i64| Notice {
        number,
        title: String::from("t"),
        url: String::from("u"),
        timestamp: 0,
    };
    let (batch, cursor) = plan_delivery(vec![mk(9), mk(5), mk(2)]).unwrap();
    let numbers: Vec<i64> = batch.iter().map(|n| n.number).collect();
    assert_eq!(numbers, vec![2, 5, 9]);
    assert_eq!(cursor, 9);
    assert!(plan_delivery(vec![]).is_none());
}

#[test]
fn gate_runs_once_on_readiness_then_every_interval() {
    let (s, a) = gate_step(GateState::WaitingForReadiness, GateEvent::ReadinessFired);
    assert!(matches!(s, GateState::Running));
    assert!(matches!(a, GateAction::RunPipeline));
    let (s, a) = gate_step(s, GateEvent::IntervalElapsed);
    assert!(matches!(s, GateState::Running));
    assert!(matches!(a, GateAction::RunPipeline));
}

#[test]
fn gate_waits_until_readiness() {
    let (s, a) = gate_step(GateState::WaitingForReadiness, GateEvent::IntervalElapsed);
    assert!(matches!(s, GateState::WaitingForReadiness));
    assert!(matches!(a, GateAction::Wait));
}
