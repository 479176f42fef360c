use jelly_stats::scrape::{
    apply_card_texts, assemble_stats, figures_from_cards, metrics_text, read_statistics_page, stats_status,
    stats_unavailable_message, PageFigures, ScrapeError, Stats,
};

fn card(value: &str, label: &str) -> String {
    format!(
        r#"<div class="statistics-card"><span class="statistics-card-label">{label}</span><div class="statistics-card-value">{value}</div></div>"#
    )
}

fn page(cards: &[String]) -> String {
    format!("<html><body><main>{}</main></body></html>", cards.concat())
}

#[test]
fn reads_open_and_awaiting_cards() {
    let html = page(&[
        card("7", "New conversations"),
        card("12", "Open now"),
        card("3", "Awaiting reply"),
        card("99", "Something else"),
    ]);
    assert_eq!(
        read_statistics_page(&html),
        Ok(PageFigures { open_now: Some(12), awaiting_reply: Some(3) })
    );
}

#[test]
fn labels_are_matched_without_case() {
    let html = page(&[card("4", "OPEN NOW (all mailboxes)"), card("5", "Conversations awaiting REPLY")]);
    assert_eq!(
        read_statistics_page(&html),
        Ok(PageFigures { open_now: Some(4), awaiting_reply: Some(5) })
    );
}

#[test]
fn new_conversations_card_is_never_parsed() {
    let html = page(&[card("n/a", "New conversations open now"), card("1", "Open now")]);
    assert_eq!(
        read_statistics_page(&html),
        Ok(PageFigures { open_now: Some(1), awaiting_reply: None })
    );
}

#[test]
fn later_cards_win() {
    let html = page(&[card("1", "Open now"), card("2", "Open now")]);
    assert_eq!(read_statistics_page(&html).unwrap().open_now, Some(2));
}

#[test]
fn a_page_without_cards_yields_nothing() {
    assert_eq!(
        read_statistics_page("<p>hello</p>"),
        Ok(PageFigures { open_now: None, awaiting_reply: None })
    );
}

#[test]
fn unparsable_values_are_errors() {
    assert_eq!(read_statistics_page(&page(&[card("1,024", "Open now")])), Err(ScrapeError::OpenNowValue));
    assert_eq!(
        read_statistics_page(&page(&[card(" 3", "Awaiting reply")])),
        Err(ScrapeError::AwaitingReplyValue)
    );
}

#[test]
fn cards_missing_parts_are_errors() {
    let no_value = r#"<div class="statistics-card"><span class="statistics-card-label">Open now</span></div>"#;
    assert_eq!(read_statistics_page(no_value), Err(ScrapeError::CardValue));
    let no_label = r#"<div class="statistics-card"><div class="statistics-card-value">3</div></div>"#;
    assert_eq!(read_statistics_page(no_label), Err(ScrapeError::CardLabel));
    let neither = r#"<div class="statistics-card"></div>"#;
    assert_eq!(read_statistics_page(neither), Err(ScrapeError::CardValue));
}

#[test]
fn card_texts_apply_in_order() {
    let f = PageFigures { open_now: None, awaiting_reply: Some(1) };
    assert_eq!(apply_card_texts(f, "8", "open now"), Ok(PageFigures { open_now: Some(8), awaiting_reply: Some(1) }));
    assert_eq!(apply_card_texts(f, "x", "new conversations"), Ok(f));
    assert_eq!(apply_card_texts(f, "x", "other"), Ok(f));
    assert_eq!(apply_card_texts(f, "x", "awaiting reply"), Err(ScrapeError::AwaitingReplyValue));
}

#[test]
fn assemble_needs_both_figures() {
    assert_eq!(
        assemble_stats(PageFigures { open_now: Some(1), awaiting_reply: Some(2) }, 30),
        Ok(Stats { open_conversations: 1, total_conversations: 30, awaiting_reply: 2 })
    );
    assert_eq!(
        assemble_stats(PageFigures { open_now: None, awaiting_reply: Some(2) }, 30),
        Err(ScrapeError::MissingOpenNow)
    );
    assert_eq!(
        assemble_stats(PageFigures { open_now: Some(1), awaiting_reply: None }, 30),
        Err(ScrapeError::MissingAwaitingReply)
    );
}

#[test]
fn metrics_exposition_text() {
    let s = Stats { open_conversations: 12, total_conversations: 3456, awaiting_reply: 0 };
    let expected = "# HELP jelly_open_conversations Current number of open conversations\n\
# TYPE jelly_open_conversations gauge\n\
jelly_open_conversations 12\n\
# HELP jelly_total_conversations Current number of conversations\n\
# TYPE jelly_total_conversations gauge\n\
jelly_total_conversations 3456\n\
# HELP jelly_awaiting_reply Current number of conversations awaiting reply from the team\n\
# TYPE jelly_awaiting_reply gauge\n\
jelly_awaiting_reply 0\n\n                ";
    assert_eq!(metrics_text(Some(s)), expected);
    assert_eq!(metrics_text(None), "");
}

#[test]
fn metrics_values_read_back() {
    let s = Stats { open_conversations: 5, total_conversations: u64::MAX, awaiting_reply: 17 };
    let text = metrics_text(Some(s));
    let values: Vec<u64> = text
        .lines()
        .filter(|l| l.starts_with("jelly_"))
        .map(|l| l.rsplit(' ').next().unwrap().parse().unwrap())
        .collect();
    assert_eq!(values, vec![5, u64::MAX, 17]);
}

#[test]
fn stats_endpoint_status() {
    let s = Stats { open_conversations: 1, total_conversations: 2, awaiting_reply: 3 };
    assert_eq!(stats_status(Some(s)), 200);
    assert_eq!(stats_status(None), 503);
    assert_eq!(stats_unavailable_message(), "initial scrape has not completed");
}

#[test]
fn scrape_error_messages() {
    assert_eq!(ScrapeError::MissingOpenNow.message(), "failed to fetch open conversations count");
    assert_eq!(ScrapeError::NoStatisticsCards.message(), "failed to find statistics cards in HTML");
}

fn readings(v: &[(&str, &str)]) -> Vec<(String, String)> {
    v.iter().map(|(a, b)| (a.to_string(), b.to_string())).collect()
}

#[test]
fn figures_from_given_cards() {
    let cards = readings(&[("7", "new conversations"), ("12", "open now"), ("3", "awaiting reply")]);
    assert_eq!(figures_from_cards(&cards, None), Ok(PageFigures { open_now: Some(12), awaiting_reply: Some(3) }));
    assert_eq!(figures_from_cards(&cards, Some(ScrapeError::CardLabel)), Err(ScrapeError::CardLabel));
    let bad_first = readings(&[("x", "open now")]);
    assert_eq!(figures_from_cards(&bad_first, Some(ScrapeError::CardLabel)), Err(ScrapeError::OpenNowValue));
    assert_eq!(figures_from_cards(&Vec::new(), None), Ok(PageFigures { open_now: None, awaiting_reply: None }));
}

#[test]
fn an_earlier_bad_value_comes_before_a_later_missing_label() {
    let no_label = r#"<div class="statistics-card"><div class="statistics-card-value">3</div></div>"#;
    let html = page(&[card("many", "Open now"), no_label.to_string()]);
    assert_eq!(read_statistics_page(&html), Err(ScrapeError::OpenNowValue));
    let html = page(&[card("4", "Open now"), no_label.to_string()]);
    assert_eq!(read_statistics_page(&html), Err(ScrapeError::CardLabel));
}
