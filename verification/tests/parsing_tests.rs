use kingdom_notice::list::parse_listing;
use kingdom_notice::detail::parse_detail;
use kingdom_notice::NoticeError;

fn row(number: &str, title_html: &str, href: &str) -> String {
    format!(
        "<tr><td class=\"td_article\">\
           <div class=\"board-number\"><div class=\"inner_number\">{}</div></div>\
           <div class=\"board-list\"><a href=\"{}\">{}</a></div>\
         </td></tr>",
        number, href, title_html
    )
}

fn listing_page(rows: &[String]) -> String {
    format!(
        "<html><body>\
           <div class=\"article-board\">pinned decoy</div>\
           <div class=\"article-board\"><table><tbody>{}</tbody></table></div>\
         </body></html>",
        rows.concat()
    )
}

fn detail_page(date_text: &str) -> String {
    format!(
        "<html><body><div class=\"date\">{}</div></body></html>",
        date_text
    )
}

#[test]
fn candidates_stop_at_cursor() {
    let rows = vec![
        row("107", "newest", "/a?articleid=107"),
        row("106", "older", "/a?articleid=106"),
        row("105", "already seen", "/a?articleid=105"),
    ];
    let cands = parse_listing(&listing_page(&rows), 105).unwrap();
    assert_eq!(cands.len(), 2);
    assert_eq!(cands[0].number, 107);
    assert_eq!(cands[1].number, 106);
    assert_eq!(cands[0].url, "https://cafe.naver.com/crkingdom/a?articleid=107");
}

#[test]
fn all_candidates_above_effective_zero_cursor() {
    let rows = vec![
        row("105", "t1", "/p?x=105"),
        row("104", "t2", "/p?x=104"),
        row("103", "t3", "/p?x=103"),
    ];
    let cands = parse_listing(&listing_page(&rows), 0).unwrap();
    let numbers: Vec<i64> = cands.iter().map(|c| c.number).collect();
    assert_eq!(numbers, vec![105, 104, 103]);
}

#[test]
fn equal_cursor_row_yields_empty_batch() {
    let rows = vec![row("50", "seen", "/p?x=50")];
    let cands = parse_listing(&listing_page(&rows), 50).unwrap();
    assert!(cands.is_empty());
}

#[test]
fn title_line_break_becomes_newline() {
    let rows = vec![row(
        "9",
        "  first line<br>  second line  ",
        "/p?x=9",
    )];
    let cands = parse_listing(&listing_page(&rows), 0).unwrap();
    assert_eq!(cands[0].title, "first line\nsecond line");
}

#[test]
fn nested_markup_in_title_is_skipped() {
    let rows = vec![row("9", "hello <em>ignored</em> world", "/p?x=9")];
    let cands = parse_listing(&listing_page(&rows), 0).unwrap();
    // Only the direct text children count; the em element contributes nothing.
    assert_eq!(cands[0].title, "helloworld");
}

#[test]
fn missing_board_container_is_structure_mismatch() {
    // A single container is not enough: the board is the second match.
    let html = "<html><body><div class=\"article-board\"><table><tbody></tbody></table></div></body></html>";
    assert!(matches!(parse_listing(html, 0), Err(NoticeError::StructureMismatch)));
    assert!(matches!(parse_listing("<html></html>", 0), Err(NoticeError::StructureMismatch)));
}

#[test]
fn missing_number_is_item_field_missing() {
    let bad = "<tr><td class=\"td_article\">\
                 <div class=\"board-list\"><a href=\"/x\">t</a></div>\
               </td></tr>"
        .to_string();
    let html = listing_page(&[bad]);
    assert!(matches!(parse_listing(&html, 0), Err(NoticeError::ItemFieldMissing(0))));
}

#[test]
fn non_numeric_number_is_item_field_missing() {
    let rows = vec![
        row("7", "fine", "/x"),
        row("seven", "broken", "/x"),
    ];
    let html = listing_page(&rows);
    assert!(matches!(parse_listing(&html, 0), Err(NoticeError::ItemFieldMissing(1))));
}

#[test]
fn missing_link_is_item_field_missing() {
    let bad = "<tr><td class=\"td_article\">\
                 <div class=\"board-number\"><div class=\"inner_number\">3</div></div>\
               </td></tr>"
        .to_string();
    let html = listing_page(&[bad]);
    assert!(matches!(parse_listing(&html, 0), Err(NoticeError::ItemFieldMissing(0))));
}

#[test]
fn detail_date_parses_to_utc_instant() {
    // 2023-11-03 09:15 at UTC+9 is 2023-11-03T00:15:00Z.
    let html = detail_page("2023.11.03. 09:15");
    assert_eq!(parse_detail(&html).unwrap(), 1698970500);
}

#[test]
fn detail_without_date_element_is_structure_mismatch() {
    let html = "<html><body><div class=\"when\">2023.11.03. 09:15</div></body></html>";
    assert!(matches!(parse_detail(html), Err(NoticeError::StructureMismatch)));
}

#[test]
fn detail_bad_date_text_carries_raw_text() {
    let html = detail_page("03/11/2023 09:15");
    match parse_detail(&html) {
        Err(NoticeError::TimestampParseError(raw)) => assert_eq!(raw, "03/11/2023 09:15"),
        other => panic!("expected a timestamp parse error, got {:?}", other.is_ok()),
    }
}
