//! Reading Jelly's statistics page, and publishing the figures it yields.
use vstd::prelude::*;
use crate::html::{
    html_inner_text, html_is_element, html_parses, html_select, html_select_within, HtmlDocument,
};
use crate::text::{
    lemma_decimal_roundtrip,
    contains_text, owned, decimal_text, has_substring, lowercase, parse_u64, parse_unsigned,
    push_decimal, to_lowercase,
};

verus! {

/// The figures the service publishes.
#[derive(Debug, Clone, Copy, PartialEq, Eq, Structural)]
pub struct Stats {
    pub open_conversations: u64,
    pub total_conversations: u64,
    pub awaiting_reply: u64,
}

/// The figures read off the statistics page so far.
#[derive(Debug, Clone, Copy, PartialEq, Eq, Structural)]
pub struct PageFigures {
    pub open_now: Option<u64>,
    pub awaiting_reply: Option<u64>,
}

/// Why the statistics could not be read.
#[derive(Debug, Clone, Copy, PartialEq, Eq, Structural)]
pub enum ScrapeError {
    /// The page is too long for the HTML parser.
    HtmlParse,
    /// The statistics cards cannot be looked for.
    NoStatisticsCards,
    /// A card is not an element.
    CardElement,
    /// A card has no value.
    CardValue,
    /// A card has no label.
    CardLabel,
    /// The "open now" card's value is not a number.
    OpenNowValue,
    /// The "awaiting reply" card's value is not a number.
    AwaitingReplyValue,
    /// No card gives the number of open conversations.
    MissingOpenNow,
    /// No card gives the number of conversations awaiting a reply.
    MissingAwaitingReply,
}

/// What each scraping error says.
pub open spec fn scrape_error_text(e: ScrapeError) -> Seq<char> {
    match e {
        ScrapeError::HtmlParse => "failed to parse HTML response"@,
        ScrapeError::NoStatisticsCards => "failed to find statistics cards in HTML"@,
        ScrapeError::CardElement => "failed to get statistics card element"@,
        ScrapeError::CardValue => "failed to get statistics card value"@,
        ScrapeError::CardLabel => "failed to get statistics card label"@,
        ScrapeError::OpenNowValue => "failed to parse open now stat value"@,
        ScrapeError::AwaitingReplyValue => "failed to parse awaiting reply stat value"@,
        ScrapeError::MissingOpenNow => "failed to fetch open conversations count"@,
        ScrapeError::MissingAwaitingReply => "failed to fetch awaiting reply count"@,
    }
}

impl ScrapeError {
    /// What went wrong, in words.
    pub fn message(&self) -> (r: &'static str)
        ensures
            r@ == scrape_error_text(*self),
    {
        match self {
            ScrapeError::HtmlParse => "failed to parse HTML response",
            ScrapeError::NoStatisticsCards => "failed to find statistics cards in HTML",
            ScrapeError::CardElement => "failed to get statistics card element",
            ScrapeError::CardValue => "failed to get statistics card value",
            ScrapeError::CardLabel => "failed to get statistics card label",
            ScrapeError::OpenNowValue => "failed to parse open now stat value",
            ScrapeError::AwaitingReplyValue => "failed to parse awaiting reply stat value",
            ScrapeError::MissingOpenNow => "failed to fetch open conversations count",
            ScrapeError::MissingAwaitingReply => "failed to fetch awaiting reply count",
        }
    }
}

/// The selector of the statistics cards.
pub open spec fn card_selector() -> Seq<char> {
    ".statistics-card"@
}

/// The selector of a card's value.
pub open spec fn value_selector() -> Seq<char> {
    ".statistics-card-value"@
}

/// The selector of a card's label.
pub open spec fn label_selector() -> Seq<char> {
    ".statistics-card-label"@
}

/// The text of the first element under `node` that matches `selector`.
pub open spec fn first_text(html: Seq<char>, node: u32, selector: Seq<char>) -> Option<Seq<char>> {
    match html_select_within(html, node, selector) {
        Some(hits) => if hits.len() > 0 {
            html_inner_text(html, hits[0])
        } else {
            None
        },
        None => None,
    }
}

/// The value text and the label text of the card `node`.
pub open spec fn card_texts(html: Seq<char>, node: u32) -> Result<(Seq<char>, Seq<char>), ScrapeError> {
    if !html_is_element(html, node) {
        Err(ScrapeError::CardElement)
    } else {
        match first_text(html, node, value_selector()) {
            None => Err(ScrapeError::CardValue),
            Some(v) => match first_text(html, node, label_selector()) {
                None => Err(ScrapeError::CardLabel),
                Some(l) => Ok((v, l)),
            },
        }
    }
}

/// What one card, with value text `value` and lowercase label `label`,
/// does to the figures: a "new conversations" card is passed over, an
/// "open now" or an "awaiting reply" card sets its figure (its value must
/// be a number), and any other card is passed over.
pub open spec fn apply_card(figures: PageFigures, value: Seq<char>, label: Seq<char>) -> Result<
    PageFigures,
    ScrapeError,
> {
    if has_substring(label, "new conversations"@) {
        Ok(figures)
    } else if has_substring(label, "open now"@) {
        match parse_unsigned(value, u64::MAX as nat) {
            Some(n) => Ok(PageFigures { open_now: Some(n as u64), awaiting_reply: figures.awaiting_reply }),
            None => Err(ScrapeError::OpenNowValue),
        }
    } else if has_substring(label, "awaiting reply"@) {
        match parse_unsigned(value, u64::MAX as nat) {
            Some(n) => Ok(PageFigures { open_now: figures.open_now, awaiting_reply: Some(n as u64) }),
            None => Err(ScrapeError::AwaitingReplyValue),
        }
    } else {
        Ok(figures)
    }
}

/// The figures after the cards `cards`, each a value text and a lowercase
/// label, have been applied in order to `figures`; the first card that
/// fails stops the reading.
pub open spec fn figures_after(cards: Seq<(Seq<char>, Seq<char>)>, figures: PageFigures) -> Result<
    PageFigures,
    ScrapeError,
>
    decreases cards.len(),
{
    if cards.len() == 0 {
        Ok(figures)
    } else {
        match apply_card(figures, cards[0].0, cards[0].1) {
            Err(e) => Err(e),
            Ok(next) => figures_after(cards.drop_first(), next),
        }
    }
}

/// No figure read yet.
pub open spec fn no_figures() -> PageFigures {
    PageFigures { open_now: None, awaiting_reply: None }
}

/// The figures that the cards `cards` yield, when the card after them
/// could not be read for the reason `stop` (if any): the cards are applied
/// first, in order, so that an error of theirs comes before `stop`.
pub open spec fn figures_of_cards(cards: Seq<(Seq<char>, Seq<char>)>, stop: Option<ScrapeError>) -> Result<
    PageFigures,
    ScrapeError,
> {
    match figures_after(cards, no_figures()) {
        Err(e) => Err(e),
        Ok(f) => match stop {
            Some(e) => Err(e),
            None => Ok(f),
        },
    }
}

/// The value text and lowercase label of the cards `ids` of the page
/// `html`, up to the first card that cannot be read, and why it cannot.
pub open spec fn card_readings(html: Seq<char>, ids: Seq<u32>) -> (Seq<(Seq<char>, Seq<char>)>, Option<ScrapeError>)
    decreases ids.len(),
{
    if ids.len() == 0 {
        (Seq::empty(), None)
    } else {
        match card_texts(html, ids[0]) {
            Err(e) => (Seq::empty(), Some(e)),
            Ok(t) => {
                let rest = card_readings(html, ids.drop_first());
                (seq![(t.0, lowercase(t.1))] + rest.0, rest.1)
            },
        }
    }
}

/// The figures that the statistics page `html` yields.
pub open spec fn page_figures(html: Seq<char>) -> Result<PageFigures, ScrapeError> {
    if !html_parses(html) {
        Err(ScrapeError::HtmlParse)
    } else {
        match html_select(html, card_selector()) {
            None => Err(ScrapeError::NoStatisticsCards),
            Some(ids) => {
                let r = card_readings(html, ids);
                figures_of_cards(r.0, r.1)
            },
        }
    }
}

/// A view of card readings.
pub open spec fn readings_view(v: Seq<(String, String)>) -> Seq<(Seq<char>, Seq<char>)> {
    v.map_values(|p: (String, String)| (p.0@, p.1@))
}

/// The text of the first element under `node` that matches `selector`.
fn first_text_of(doc: &HtmlDocument, node: u32, selector: &str) -> (r: Option<String>)
    ensures
        crate::text::opt_text(r) == first_text(doc.source(), node, selector@),
{
    match doc.select_within(node, selector) {
        Some(hits) => {
            if hits.len() > 0 {
                doc.inner_text(hits[0])
            } else {
                None
            }
        },
        None => None,
    }
}

/// What one card does to the figures.
pub fn apply_card_texts(figures: PageFigures, value: &str, label: &str) -> (r: Result<PageFigures, ScrapeError>)
    ensures
        r == apply_card(figures, value@, label@),
{
    if contains_text(label, "new conversations") {
        Ok(figures)
    } else if contains_text(label, "open now") {
        match parse_u64(value) {
            Some(n) => Ok(PageFigures { open_now: Some(n), awaiting_reply: figures.awaiting_reply }),
            None => Err(ScrapeError::OpenNowValue),
        }
    } else if contains_text(label, "awaiting reply") {
        match parse_u64(value) {
            Some(n) => Ok(PageFigures { open_now: figures.open_now, awaiting_reply: Some(n) }),
            None => Err(ScrapeError::AwaitingReplyValue),
        }
    } else {
        Ok(figures)
    }
}

/// The figures that cards yield: `cards` holds each card's value text
/// and lowercase label, in page order, and `stop` why the card after them
/// could not be read, if one could not.
pub fn figures_from_cards(cards: &Vec<(String, String)>, stop: Option<ScrapeError>) -> (r: Result<
    PageFigures,
    ScrapeError,
>)
    ensures
        r == figures_of_cards(readings_view(cards@), stop),
{
    let ghost all = readings_view(cards@);
    let mut figures = PageFigures { open_now: None, awaiting_reply: None };
    let mut i: usize = 0;
    assert(all.skip(0) =~= all);
    while i < cards.len()
        invariant
            all == readings_view(cards@),
            i <= cards@.len(),
            figures_after(all, no_figures()) == figures_after(all.skip(i as int), figures),
        decreases cards@.len() - i,
    {
        let ghost rest = all.skip(i as int);
        assert(rest[0] == (cards@[i as int].0@, cards@[i as int].1@));
        assert(rest.drop_first() =~= all.skip(i + 1));
        figures = match apply_card_texts(figures, cards[i].0.as_str(), cards[i].1.as_str()) {
            Ok(f) => f,
            Err(e) => return Err(e),
        };
        i = i + 1;
    }
    assert(all.skip(i as int) =~= Seq::<(Seq<char>, Seq<char>)>::empty());
    match stop {
        Some(e) => Err(e),
        None => Ok(figures),
    }
}

/// Reads the open and awaiting-reply counts off the statistics page
/// `html`.
pub fn read_statistics_page(html: &str) -> (r: Result<PageFigures, ScrapeError>)
    ensures
        r == page_figures(html@),
{
    let doc = match HtmlDocument::parse(html) {
        Some(d) => d,
        None => return Err(ScrapeError::HtmlParse),
    };
    let ids = match doc.select(".statistics-card") {
        Some(c) => c,
        None => return Err(ScrapeError::NoStatisticsCards),
    };
    let ghost h = html@;
    let ghost full = card_readings(h, ids@);
    let mut readings: Vec<(String, String)> = Vec::new();
    let mut stop: Option<ScrapeError> = None;
    let mut i: usize = 0;
    assert(ids@.skip(0) =~= ids@);
    assert(readings_view(readings@) =~= Seq::<(Seq<char>, Seq<char>)>::empty());
    while i < ids.len() && stop.is_none()
        invariant
            doc.source() == h,
            i <= ids@.len(),
            full == card_readings(h, ids@),
            stop is None ==> full.0 == readings_view(readings@) + card_readings(h, ids@.skip(i as int)).0,
            stop is None ==> full.1 == card_readings(h, ids@.skip(i as int)).1,
            stop is Some ==> full.0 == readings_view(readings@) && full.1 == stop,
        decreases ids@.len() - i, if stop is None { 1int } else { 0int },
    {
        let id: u32 = ids[i];
        let ghost rest = ids@.skip(i as int);
        let ghost before = readings_view(readings@);
        assert(rest[0] == id);
        assert(rest.drop_first() =~= ids@.skip(i + 1));
        let failure = if !doc.is_element(id) {
            Some(ScrapeError::CardElement)
        } else {
            match first_text_of(&doc, id, ".statistics-card-value") {
                None => Some(ScrapeError::CardValue),
                Some(value) => match first_text_of(&doc, id, ".statistics-card-label") {
                    None => Some(ScrapeError::CardLabel),
                    Some(label) => {
                        let lower = to_lowercase(label.as_str());
                        readings.push((value, lower));
                        None
                    },
                },
            }
        };
        if failure.is_some() {
            assert(before + Seq::<(Seq<char>, Seq<char>)>::empty() =~= before);
            stop = failure;
        } else {
            assert(readings_view(readings@) =~= before + seq![readings_view(readings@).last()]);
            assert(card_readings(h, rest).0 =~= seq![readings_view(readings@).last()]
                + card_readings(h, ids@.skip(i + 1)).0);
            i = i + 1;
        }
    }
    proof {
        if stop is None {
            assert(ids@.skip(i as int) =~= Seq::<u32>::empty());
            assert(full.0 =~= readings_view(readings@));
        }
    }
    figures_from_cards(&readings, stop)
}

/// The statistics from the figures of the page and the number of
/// conversations the API listed.
pub open spec fn stats_of(figures: PageFigures, total_conversations: nat) -> Result<Stats, ScrapeError> {
    match figures.open_now {
        None => Err(ScrapeError::MissingOpenNow),
        Some(open) => match figures.awaiting_reply {
            None => Err(ScrapeError::MissingAwaitingReply),
            Some(awaiting) => Ok(
                Stats {
                    open_conversations: open,
                    total_conversations: total_conversations as u64,
                    awaiting_reply: awaiting,
                },
            ),
        },
    }
}

/// Puts the figures of the page and the number of conversations the API
/// listed together; both page figures must have been found.
pub fn assemble_stats(figures: PageFigures, total_conversations: usize) -> (r: Result<Stats, ScrapeError>)
    ensures
        r == stats_of(figures, total_conversations as nat),
{
    let open: u64 = match figures.open_now {
        Some(n) => n,
        None => return Err(ScrapeError::MissingOpenNow),
    };
    let awaiting: u64 = match figures.awaiting_reply {
        Some(n) => n,
        None => return Err(ScrapeError::MissingAwaitingReply),
    };
    Ok(Stats { open_conversations: open, total_conversations: total_conversations as u64, awaiting_reply: awaiting })
}

/// An "awaiting reply" card (one that names neither new conversations nor
/// open ones) whose value reads as the number `n` (zero included) sets the
/// awaiting-reply figure to `n` and leaves the open-now figure as it was;
/// it fails, with `AwaitingReplyValue`, exactly when its value does not
/// read as a number. A number written in decimal always reads back.
pub proof fn law_awaiting_reply_card_sets_its_figure(
    figures: PageFigures,
    value: Seq<char>,
    label: Seq<char>,
    n: u64,
)
    requires
        has_substring(label, "awaiting reply"@),
        !has_substring(label, "new conversations"@),
        !has_substring(label, "open now"@),
    ensures
        parse_unsigned(value, u64::MAX as nat) == Some(n as nat) ==> apply_card(figures, value, label)
            == Ok::<PageFigures, ScrapeError>(
            PageFigures { open_now: figures.open_now, awaiting_reply: Some(n) },
        ),
        apply_card(figures, decimal_text(n as nat), label) == Ok::<PageFigures, ScrapeError>(
            PageFigures { open_now: figures.open_now, awaiting_reply: Some(n) },
        ),
        (apply_card(figures, value, label) == Err::<PageFigures, ScrapeError>(
            ScrapeError::AwaitingReplyValue,
        )) <==> parse_unsigned(value, u64::MAX as nat) is None,
        apply_card(figures, value, label) is Ok ==> apply_card(figures, value, label)->Ok_0.open_now
            == figures.open_now,
{
    lemma_decimal_roundtrip(n);
}

/// An "open now" card (one that does not name new conversations) whose
/// value reads as the number `n` (zero included) sets the open-now figure
/// to `n` and leaves the awaiting-reply figure as it was; it fails, with
/// `OpenNowValue`, exactly when its value does not read as a number.
pub proof fn law_open_now_card_sets_its_figure(figures: PageFigures, value: Seq<char>, label: Seq<char>, n: u64)
    requires
        has_substring(label, "open now"@),
        !has_substring(label, "new conversations"@),
    ensures
        parse_unsigned(value, u64::MAX as nat) == Some(n as nat) ==> apply_card(figures, value, label)
            == Ok::<PageFigures, ScrapeError>(
            PageFigures { open_now: Some(n), awaiting_reply: figures.awaiting_reply },
        ),
        apply_card(figures, decimal_text(n as nat), label) == Ok::<PageFigures, ScrapeError>(
            PageFigures { open_now: Some(n), awaiting_reply: figures.awaiting_reply },
        ),
        (apply_card(figures, value, label) == Err::<PageFigures, ScrapeError>(ScrapeError::OpenNowValue))
            <==> parse_unsigned(value, u64::MAX as nat) is None,
{
    lemma_decimal_roundtrip(n);
}

/// With both page figures found, the statistics carry them as they are
/// (zeros included) with the count of conversations; the statistics are
/// missing the open-now figure exactly when the page did not give it, and
/// the awaiting-reply figure exactly when the page gave the one but not
/// the other.
pub proof fn law_stats_carry_the_figures(figures: PageFigures, total_conversations: u64)
    ensures
        (figures.open_now matches Some(o) && figures.awaiting_reply matches Some(a)) ==> stats_of(
            figures,
            total_conversations as nat,
        ) == Ok::<Stats, ScrapeError>(
            Stats {
                open_conversations: figures.open_now->Some_0,
                total_conversations,
                awaiting_reply: figures.awaiting_reply->Some_0,
            },
        ),
        (stats_of(figures, total_conversations as nat) == Err::<Stats, ScrapeError>(
            ScrapeError::MissingOpenNow,
        )) <==> figures.open_now is None,
        (stats_of(figures, total_conversations as nat) == Err::<Stats, ScrapeError>(
            ScrapeError::MissingAwaitingReply,
        )) <==> (figures.open_now is Some && figures.awaiting_reply is None),
        stats_of(figures, total_conversations as nat) is Ok ==> stats_of(
            figures,
            total_conversations as nat,
        )->Ok_0.total_conversations == total_conversations,
{
}

/// A card whose label speaks of new conversations leaves the figures as
/// they are, whatever its value, even when the label also names another
/// figure.
pub proof fn law_new_conversations_card_ignored(figures: PageFigures, value: Seq<char>, label: Seq<char>)
    requires
        has_substring(label, "new conversations"@),
    ensures
        apply_card(figures, value, label) == Ok::<PageFigures, ScrapeError>(figures),
{
}

/// The Prometheus exposition of the statistics, or nothing before the
/// first scrape.
pub open spec fn metrics_of(stats: Option<Stats>) -> Seq<char> {
    match stats {
        None => Seq::empty(),
        Some(s) => "# HELP jelly_open_conversations Current number of open conversations\n# TYPE jelly_open_conversations gauge\njelly_open_conversations "@
            + decimal_text(s.open_conversations as nat)
            + "\n# HELP jelly_total_conversations Current number of conversations\n# TYPE jelly_total_conversations gauge\njelly_total_conversations "@
            + decimal_text(s.total_conversations as nat)
            + "\n# HELP jelly_awaiting_reply Current number of conversations awaiting reply from the team\n# TYPE jelly_awaiting_reply gauge\njelly_awaiting_reply "@
            + decimal_text(s.awaiting_reply as nat) + "\n\n                "@,
    }
}

/// Each gauge of `/metrics` carries its figure as a decimal numeral that
/// reads back, with the rules of `str::parse::<u64>`, as the figure.
pub proof fn law_metrics_figures_read_back(s: Stats)
    ensures
        metrics_of(Some(s)) == "# HELP jelly_open_conversations Current number of open conversations\n# TYPE jelly_open_conversations gauge\njelly_open_conversations "@
            + decimal_text(s.open_conversations as nat)
            + "\n# HELP jelly_total_conversations Current number of conversations\n# TYPE jelly_total_conversations gauge\njelly_total_conversations "@
            + decimal_text(s.total_conversations as nat)
            + "\n# HELP jelly_awaiting_reply Current number of conversations awaiting reply from the team\n# TYPE jelly_awaiting_reply gauge\njelly_awaiting_reply "@
            + decimal_text(s.awaiting_reply as nat) + "\n\n                "@,
        parse_unsigned(decimal_text(s.open_conversations as nat), u64::MAX as nat) == Some(
            s.open_conversations as nat,
        ),
        parse_unsigned(decimal_text(s.total_conversations as nat), u64::MAX as nat) == Some(
            s.total_conversations as nat,
        ),
        parse_unsigned(decimal_text(s.awaiting_reply as nat), u64::MAX as nat) == Some(
            s.awaiting_reply as nat,
        ),
{
    lemma_decimal_roundtrip(s.open_conversations);
    lemma_decimal_roundtrip(s.total_conversations);
    lemma_decimal_roundtrip(s.awaiting_reply);
}

/// The body of `/metrics`.
pub fn metrics_text(stats: Option<Stats>) -> (r: String)
    ensures
        r@ == metrics_of(stats),
{
    match stats {
        None => {
            let out = String::new();
            assert(out@ =~= metrics_of(stats));
            out
        },
        Some(s) => {
            let mut out = owned(
                "# HELP jelly_open_conversations Current number of open conversations\n# TYPE jelly_open_conversations gauge\njelly_open_conversations ",
            );
            push_decimal(&mut out, s.open_conversations);
            out.append(
                "\n# HELP jelly_total_conversations Current number of conversations\n# TYPE jelly_total_conversations gauge\njelly_total_conversations ",
            );
            push_decimal(&mut out, s.total_conversations);
            out.append(
                "\n# HELP jelly_awaiting_reply Current number of conversations awaiting reply from the team\n# TYPE jelly_awaiting_reply gauge\njelly_awaiting_reply ",
            );
            push_decimal(&mut out, s.awaiting_reply);
            out.append("\n\n                ");
            out
        },
    }
}

/// The status of `/stats`: 200 with the statistics, or 503 before the first
/// scrape.
pub fn stats_status(stats: Option<Stats>) -> (r: u16)
    ensures
        r == if stats is Some {
            200u16
        } else {
            503u16
        },
{
    match stats {
        Some(_) => 200,
        None => 503,
    }
}

/// The error that `/stats` reports before the first scrape.
pub fn stats_unavailable_message() -> (r: &'static str)
    ensures
        r@ == "initial scrape has not completed"@,
{
    "initial scrape has not completed"
}

} // verus!
