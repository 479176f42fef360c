use jelly_stats::config::{scrape_interval, ConfigError, EnvValues, ScrapeRound, ScrapeSettings};
use jelly_stats::scrape::{PageFigures, ScrapeError, Stats};
use jelly_stats::urls::UrlError;

fn env(key: Option<&str>, team: Option<&str>, token: Option<&str>) -> EnvValues {
    EnvValues {
        jelly_api_url: None,
        jelly_api_key: key.map(String::from),
        jelly_app_url: None,
        jelly_team: team.map(String::from),
        jelly_session_token: token.map(String::from),
        scrape_interval: None,
        max_conversations: None,
    }
}

fn outcome(e: &EnvValues) -> Result<ScrapeSettings, ConfigError> {
    match ScrapeSettings::from_env(e) {
        Some(made) => made,
        None => panic!("the API URL cannot take paths"),
    }
}

fn settings(e: &EnvValues) -> ScrapeSettings {
    match outcome(e) {
        Ok(s) => s,
        Err(err) => panic!("unexpected error {err:?}"),
    }
}

#[test]
fn defaults_fill_in_the_urls_and_interval() {
    let s = settings(&env(Some("k"), Some("hack-club"), Some("tok%3D")));
    assert_eq!(s.client.base_url(), "https://app.letsjelly.com/api/");
    assert_eq!(s.client.authorization(), "Bearer k");
    assert_eq!(s.team_url, "https://app.letsjelly.com/hack-club/");
    assert_eq!(s.statistics_url, "https://app.letsjelly.com/hack-club/statistics");
    assert_eq!(s.session_cookie, "current_user_session_token=tok%3D");
    assert_eq!((s.interval_secs, s.interval_nanos), (600, 0));
    assert_eq!(s.max_conversations, None);
}

#[test]
fn variables_override_the_defaults() {
    let mut e = env(Some("k"), Some("t"), Some("s"));
    e.jelly_api_url = Some("http://localhost:8080/api".to_string());
    e.jelly_app_url = Some("http://localhost:8080/app/".to_string());
    e.scrape_interval = Some("1h 30s".to_string());
    e.max_conversations = Some("200".to_string());
    let s = settings(&e);
    assert_eq!(s.client.base_url(), "http://localhost:8080/api/");
    assert_eq!(s.team_url, "http://localhost:8080/app/t/");
    assert_eq!(s.statistics_url, "http://localhost:8080/app/t/statistics");
    assert_eq!((s.interval_secs, s.interval_nanos), (3630, 0));
    assert_eq!(s.max_conversations, Some(200));
    e.scrape_interval = Some("250ms".to_string());
    let s = settings(&e);
    assert_eq!((s.interval_secs, s.interval_nanos), (0, 250_000_000));
}

#[test]
fn required_variables_are_checked_in_order() {
    assert_eq!(outcome(&env(None, None, None)).err(), Some(ConfigError::MissingApiKey));
    assert_eq!(outcome(&env(Some("k"), None, None)).err(), Some(ConfigError::MissingTeam));
    assert_eq!(
        outcome(&env(Some("k"), Some("t"), None)).err(),
        Some(ConfigError::MissingSessionToken)
    );
    assert_eq!(
        outcome(&env(Some("bad\nkey"), None, None)).err(),
        Some(ConfigError::InvalidApiKey)
    );
}

#[test]
fn bad_values_are_reported() {
    let mut e = env(Some("k"), Some("t"), Some("s"));
    e.scrape_interval = Some("often".to_string());
    assert_eq!(outcome(&e).err(), Some(ConfigError::InvalidScrapeInterval));
    e.scrape_interval = None;
    e.max_conversations = Some("-3".to_string());
    assert_eq!(outcome(&e).err(), Some(ConfigError::InvalidMaxConversations));
    e.max_conversations = Some("0".to_string());
    assert_eq!(settings(&e).max_conversations, Some(0));
    e.jelly_api_url = Some("not a url".to_string());
    assert_eq!(
        outcome(&e).err(),
        Some(ConfigError::InvalidApiUrl(UrlError::RelativeUrlWithoutBase))
    );
    e.jelly_api_url = Some("https://proxy.example.com/jelly/api".to_string());
    assert_eq!(settings(&e).client.base_url(), "https://proxy.example.com/jelly/api/");
    e.jelly_api_url = None;
    e.jelly_app_url = Some("http://:80/".to_string());
    assert_eq!(outcome(&e).err(), Some(ConfigError::InvalidAppUrl(UrlError::EmptyHost)));
}

#[test]
fn team_urls_are_joined_to_the_app_url() {
    let e = env(Some("k"), Some("http://[::1"), Some("s"));
    assert_eq!(
        outcome(&e).err(),
        Some(ConfigError::InvalidTeamUrl(UrlError::InvalidIpv6Address))
    );
    let e = env(Some("k"), Some("https://other.example/x"), Some("s"));
    assert_eq!(settings(&e).team_url, "https://other.example/x/");
    assert_eq!(settings(&e).statistics_url, "https://other.example/x/statistics");
}

#[test]
fn config_error_messages() {
    assert_eq!(ConfigError::MissingApiKey.message(), "JELLY_API_KEY must be set");
    assert_eq!(ConfigError::InvalidApiUrl(UrlError::RelativeUrlWithoutBase).message(), "relative URL without a base");
    assert_eq!(
        ConfigError::InvalidScrapeInterval.message(),
        "SCRAPE_INTERVAL must be a valid duration (e.g. 10m, 60s)"
    );
}

#[test]
fn url_error_descriptions() {
    assert_eq!(UrlError::EmptyHost.description(), "empty host");
    assert_eq!(UrlError::RelativeUrlWithoutBase.description(), "relative URL without a base");
}

#[test]
fn intervals_are_read_by_humantime() {
    assert_eq!(scrape_interval(&None), Some((600, 0)));
    assert_eq!(scrape_interval(&Some("10m".to_string())), Some((600, 0)));
    assert_eq!(scrape_interval(&Some("60s".to_string())), Some((60, 0)));
    assert_eq!(scrape_interval(&Some("1h 30s".to_string())), Some((3630, 0)));
    assert_eq!(scrape_interval(&Some("1.5s".to_string())), Some((1, 500_000_000)));
    assert_eq!(scrape_interval(&Some("often".to_string())), None);
    assert_eq!(scrape_interval(&Some("".to_string())), None);
    assert_eq!(scrape_interval(&Some("99999999999s".to_string())), Some((99_999_999_999, 0)));
}

#[test]
fn intervals_that_could_reach_the_seconds_limit_are_refused() {
    assert_eq!(scrape_interval(&Some("999999999999s".to_string())), Some((999_999_999_999, 0)));
    assert_eq!(scrape_interval(&Some("100000000000ns".to_string())), Some((100, 0)));
    assert_eq!(scrape_interval(&Some("18446744073709551615ns".to_string())), Some((18_446_744_073, 709_551_615)));
    assert_eq!(scrape_interval(&Some("500000000000y".to_string())), Some((15_778_800_000_000_000_000, 0)));
    assert_eq!(scrape_interval(&Some("18446744073709551615s 1000ms".to_string())), None);
    assert_eq!(scrape_interval(&Some("600000000000y".to_string())), None);
    let mut e = env(Some("k"), Some("t"), Some("s"));
    e.scrape_interval = Some("18446744073709551615s 1000ms".to_string());
    assert_eq!(outcome(&e).err(), Some(ConfigError::InvalidScrapeInterval));
}

#[test]
fn an_api_url_that_cannot_take_paths_stops_the_service() {
    let mut e = env(Some("k"), Some("t"), Some("s"));
    e.jelly_api_url = Some("mailto:team@example.com".to_string());
    assert!(ScrapeSettings::from_env(&e).is_none());
    e.jelly_api_key = Some("bad\nkey".to_string());
    assert_eq!(outcome(&e).err(), Some(ConfigError::InvalidApiKey));
}

#[test]
fn a_round_waits_the_configured_interval() {
    let mut e = env(Some("k"), Some("t"), Some("s"));
    let figures = PageFigures { open_now: Some(4), awaiting_reply: Some(2) };
    let stats = Stats { open_conversations: 4, total_conversations: 17, awaiting_reply: 2 };
    let s = settings(&e);
    assert_eq!(
        s.finish_round(figures, 17),
        Ok(ScrapeRound { stats, wait_secs: 600, wait_nanos: 0 })
    );
    e.scrape_interval = Some("90s 250ms".to_string());
    let s = settings(&e);
    assert_eq!(
        s.finish_round(figures, 17),
        Ok(ScrapeRound { stats, wait_secs: 90, wait_nanos: 250_000_000 })
    );
}

#[test]
fn a_round_without_figures_fails() {
    let s = settings(&env(Some("k"), Some("t"), Some("s")));
    let missing_open = PageFigures { open_now: None, awaiting_reply: Some(2) };
    assert_eq!(s.finish_round(missing_open, 3), Err(ScrapeError::MissingOpenNow));
    let missing_awaiting = PageFigures { open_now: Some(1), awaiting_reply: None };
    assert_eq!(s.finish_round(missing_awaiting, 3), Err(ScrapeError::MissingAwaitingReply));
}
