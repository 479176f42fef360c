//! The service's settings, made from the values of its environment
//! variables.
use vstd::prelude::*;
use crate::interval::{duration_bound, duration_in_range};
use crate::jelly::{api_base_of, base_takes_paths, bearer, header_value_ok, JellyClient};
use crate::scrape::{assemble_stats, stats_of, PageFigures, ScrapeError, Stats};
use crate::text::{concat, opt_text, owned, parse_u32, parse_unsigned};
use crate::urls::{
    url_error_text, url_join, url_join_result, url_parse, url_parse_result, UrlError,
};

verus! {

/// The duration, as whole seconds and the nanoseconds beyond them, that
/// `humantime::parse_duration` reads in `text`; `None` when it refuses the
/// text.
pub uninterp spec fn humantime_duration(text: Seq<char>) -> Option<(u64, u32)>;

/// Calls `humantime::parse_duration`. A `std::time::Duration` holds fewer
/// than a billion nanoseconds beyond its whole seconds.
///
/// `humantime` panics (in `Duration::new`) only when its running total
/// reaches `u64::MAX` seconds with a carry of whole nanoseconds. The
/// running total never exceeds `duration_bound` of the text, so the
/// `requires` keeps to texts whose bound stays within `u64::MAX`.
#[verifier::external_body]
fn parse_duration(text: &str) -> (r: Option<(u64, u32)>)
    requires
        duration_bound(text@) <= u64::MAX,
    ensures
        r == humantime_duration(text@),
        r matches Some(d) ==> d.1 < 1_000_000_000,
{
    humantime::parse_duration(text).ok().map(|d| (d.as_secs(), d.subsec_nanos()))
}

/// Why the settings cannot be made.
#[derive(Debug, Clone, Copy, PartialEq, Eq, Structural)]
pub enum ConfigError {
    /// `JELLY_API_URL` is not a URL.
    InvalidApiUrl(UrlError),
    /// `JELLY_API_KEY` is not set.
    MissingApiKey,
    /// `JELLY_API_KEY` cannot stand in an HTTP header.
    InvalidApiKey,
    /// `JELLY_APP_URL` is not a URL.
    InvalidAppUrl(UrlError),
    /// `JELLY_TEAM` is not set.
    MissingTeam,
    /// The team's page cannot be joined to `JELLY_APP_URL`.
    InvalidTeamUrl(UrlError),
    /// `JELLY_SESSION_TOKEN` is not set.
    MissingSessionToken,
    /// `SCRAPE_INTERVAL` is not a duration.
    InvalidScrapeInterval,
    /// `MAX_CONVERSATIONS` is not a number.
    InvalidMaxConversations,
    /// The statistics page cannot be joined to the team's page.
    InvalidStatisticsUrl(UrlError),
}

/// What a settings error says: an unusable URL says what `url` found
/// wrong with it; any other error names the variable and what it must be.
pub open spec fn config_error_text(e: ConfigError) -> Seq<char> {
    match e {
        ConfigError::InvalidApiUrl(u) => url_error_text(u),
        ConfigError::MissingApiKey => "JELLY_API_KEY must be set"@,
        ConfigError::InvalidApiKey => "invalid header"@,
        ConfigError::InvalidAppUrl(u) => url_error_text(u),
        ConfigError::MissingTeam => "JELLY_TEAM must be set"@,
        ConfigError::InvalidTeamUrl(u) => url_error_text(u),
        ConfigError::MissingSessionToken => "JELLY_SESSION_TOKEN must be set"@,
        ConfigError::InvalidScrapeInterval => "SCRAPE_INTERVAL must be a valid duration (e.g. 10m, 60s)"@,
        ConfigError::InvalidMaxConversations => "MAX_CONVERSATIONS must be a valid positive integer"@,
        ConfigError::InvalidStatisticsUrl(u) => url_error_text(u),
    }
}

impl ConfigError {
    /// What went wrong, in words.
    pub fn message(&self) -> (r: String)
        ensures
            r@ == config_error_text(*self),
    {
        match self {
            ConfigError::InvalidApiUrl(u) => owned(u.description()),
            ConfigError::MissingApiKey => owned("JELLY_API_KEY must be set"),
            ConfigError::InvalidApiKey => owned("invalid header"),
            ConfigError::InvalidAppUrl(u) => owned(u.description()),
            ConfigError::MissingTeam => owned("JELLY_TEAM must be set"),
            ConfigError::InvalidTeamUrl(u) => owned(u.description()),
            ConfigError::MissingSessionToken => owned("JELLY_SESSION_TOKEN must be set"),
            ConfigError::InvalidScrapeInterval => owned(
                "SCRAPE_INTERVAL must be a valid duration (e.g. 10m, 60s)",
            ),
            ConfigError::InvalidMaxConversations => owned(
                "MAX_CONVERSATIONS must be a valid positive integer",
            ),
            ConfigError::InvalidStatisticsUrl(u) => owned(u.description()),
        }
    }
}

/// The values of the environment variables the service reads; `None` for
/// a variable that is not set (or not Unicode).
pub struct EnvValues {
    pub jelly_api_url: Option<String>,
    pub jelly_api_key: Option<String>,
    pub jelly_app_url: Option<String>,
    pub jelly_team: Option<String>,
    pub jelly_session_token: Option<String>,
    pub scrape_interval: Option<String>,
    pub max_conversations: Option<String>,
}

/// The service's settings.
pub struct ScrapeSettings {
    /// The Jelly API.
    pub client: JellyClient,
    /// The team's pages in the Jelly web app.
    pub team_url: String,
    /// The team's statistics page.
    pub statistics_url: String,
    /// The cookie that carries the session token.
    pub session_cookie: String,
    /// How long to wait between scrapes: whole seconds ...
    pub interval_secs: u64,
    /// ... and the nanoseconds beyond them.
    pub interval_nanos: u32,
    /// How many conversations to discover at most when counting.
    pub max_conversations: Option<u32>,
}

/// What the settings hold, as texts and numbers.
pub struct SettingsView {
    pub api_base_url: Seq<char>,
    pub authorization: Seq<char>,
    pub team_url: Seq<char>,
    pub statistics_url: Seq<char>,
    pub session_cookie: Seq<char>,
    pub interval: (u64, u32),
    pub max_conversations: Option<u32>,
}

impl ScrapeSettings {
    /// What these settings hold.
    pub open spec fn view_of(&self) -> SettingsView {
        SettingsView {
            api_base_url: self.client.base_url_text(),
            authorization: self.client.authorization_text(),
            team_url: self.team_url@,
            statistics_url: self.statistics_url@,
            session_cookie: self.session_cookie@,
            interval: (self.interval_secs, self.interval_nanos),
            max_conversations: self.max_conversations,
        }
    }
}

/// The API's URL when `JELLY_API_URL` is not set.
pub open spec fn default_api_url() -> Seq<char> {
    "https://app.letsjelly.com/api"@
}

/// The web app's URL when `JELLY_APP_URL` is not set.
pub open spec fn default_app_url() -> Seq<char> {
    "https://app.letsjelly.com/"@
}

/// The time between scrapes when `SCRAPE_INTERVAL` is not set: ten minutes.
pub open spec fn default_interval() -> (u64, u32) {
    (600, 0)
}

/// The value of a variable, or `default` when it is not set.
pub open spec fn or_default(value: Option<Seq<char>>, default: Seq<char>) -> Seq<char> {
    match value {
        Some(v) => v,
        None => default,
    }
}

/// The cookie that carries a session token.
pub open spec fn session_cookie_of(token: Seq<char>) -> Seq<char> {
    "current_user_session_token="@ + token
}

/// The wait between scrapes that `SCRAPE_INTERVAL` gives: ten minutes when
/// it is not set; otherwise the duration `humantime` reads, for a text that
/// cannot reach `u64::MAX` seconds (on the others `humantime` may panic).
/// `None` when the text is refused.
pub open spec fn interval_of(text: Option<Seq<char>>) -> Option<(u64, u32)> {
    match text {
        None => Some(default_interval()),
        Some(t) => if duration_bound(t) <= u64::MAX {
            humantime_duration(t)
        } else {
            None
        },
    }
}

/// The conversation limit that `MAX_CONVERSATIONS` gives: none when it is
/// not set; otherwise the `u32` it reads as. `None` when it is refused.
pub open spec fn limit_of(text: Option<Seq<char>>) -> Option<Option<u32>> {
    match text {
        None => Some(None),
        Some(t) => match parse_unsigned(t, u32::MAX as nat) {
            Some(n) => Some(Some(n as u32)),
            None => None,
        },
    }
}

/// The settings that the variables give once the API client is made from
/// the API URL `api` and the key `key`, or the first thing wrong with the
/// rest of them, checked in this order: the app URL, the team, the team's
/// URL, the session token, the scrape interval, the conversation limit,
/// the statistics page's URL.
pub open spec fn settings_with_client(
    api: Seq<char>,
    key: Seq<char>,
    app_url: Option<Seq<char>>,
    team: Option<Seq<char>>,
    token: Option<Seq<char>>,
    interval: Option<Seq<char>>,
    max_conversations: Option<Seq<char>>,
) -> Result<SettingsView, ConfigError> {
    match url_parse_result(or_default(app_url, default_app_url())) {
        Err(e) => Err(ConfigError::InvalidAppUrl(e)),
        Ok(app) => match team {
            None => Err(ConfigError::MissingTeam),
            Some(t) => match url_join_result(app, t + "/"@) {
                Err(e) => Err(ConfigError::InvalidTeamUrl(e)),
                Ok(team_url) => match token {
                    None => Err(ConfigError::MissingSessionToken),
                    Some(tok) => match interval_of(interval) {
                        None => Err(ConfigError::InvalidScrapeInterval),
                        Some(p) => match limit_of(max_conversations) {
                            None => Err(ConfigError::InvalidMaxConversations),
                            Some(l) => match url_join_result(team_url, "statistics"@) {
                                Err(e) => Err(ConfigError::InvalidStatisticsUrl(e)),
                                Ok(stats_url) => Ok(
                                    SettingsView {
                                        api_base_url: api_base_of(api),
                                        authorization: bearer(key),
                                        team_url,
                                        statistics_url: stats_url,
                                        session_cookie: session_cookie_of(tok),
                                        interval: p,
                                        max_conversations: l,
                                    },
                                ),
                            },
                        },
                    },
                },
            },
        },
    }
}

/// The settings that the variables give, or the first thing wrong with
/// them: the API URL, the API key, the API key as a header, then the rest
/// (see `settings_with_client`). `None` when the API URL, with a usable
/// key, cannot take paths: there the service stops ("failed to build URL").
pub open spec fn settings_of(
    api_url: Option<Seq<char>>,
    api_key: Option<Seq<char>>,
    app_url: Option<Seq<char>>,
    team: Option<Seq<char>>,
    token: Option<Seq<char>>,
    interval: Option<Seq<char>>,
    max_conversations: Option<Seq<char>>,
) -> Option<Result<SettingsView, ConfigError>> {
    match url_parse_result(or_default(api_url, default_api_url())) {
        Err(e) => Some(Err(ConfigError::InvalidApiUrl(e))),
        Ok(api) => match api_key {
            None => Some(Err(ConfigError::MissingApiKey)),
            Some(key) => if !header_value_ok(vstd::utf8::encode_utf8(bearer(key))) {
                Some(Err(ConfigError::InvalidApiKey))
            } else if !base_takes_paths(api) {
                None
            } else {
                Some(settings_with_client(api, key, app_url, team, token, interval, max_conversations))
            },
        },
    }
}

impl EnvValues {
    /// The settings these values give.
    pub open spec fn settings(&self) -> Option<Result<SettingsView, ConfigError>> {
        settings_of(
            opt_text(self.jelly_api_url),
            opt_text(self.jelly_api_key),
            opt_text(self.jelly_app_url),
            opt_text(self.jelly_team),
            opt_text(self.jelly_session_token),
            opt_text(self.scrape_interval),
            opt_text(self.max_conversations),
        )
    }
}

/// The wait between scrapes that `SCRAPE_INTERVAL` gives, as whole seconds
/// and nanoseconds; `None` when the text is refused.
pub fn scrape_interval(text: &Option<String>) -> (r: Option<(u64, u32)>)
    ensures
        r == interval_of(opt_text(*text)),
{
    match text {
        None => Some((600, 0)),
        Some(t) => {
            if duration_in_range(t.as_str()) {
                parse_duration(t.as_str())
            } else {
                None
            }
        },
    }
}

/// The text of a variable, or `default` when it is not set.
fn value_or(value: &Option<String>, default: &str) -> (r: String)
    ensures
        r@ == or_default(opt_text(*value), default@),
{
    match value {
        Some(v) => owned(v.as_str()),
        None => owned(default),
    }
}

impl ScrapeSettings {
    /// Makes the settings from the values of the environment variables:
    /// `JELLY_API_URL` and `JELLY_APP_URL` have defaults, `JELLY_API_KEY`,
    /// `JELLY_TEAM` and `JELLY_SESSION_TOKEN` are required, `SCRAPE_INTERVAL`
    /// is a `humantime` duration (ten minutes by default) and
    /// `MAX_CONVERSATIONS` an optional `u32`. `None` when the API URL
    /// cannot take paths though the key is usable; the service then stops.
    pub fn from_env(env: &EnvValues) -> (r: Option<Result<ScrapeSettings, ConfigError>>)
        ensures
            match r {
                None => env.settings() is None,
                Some(Ok(s)) => env.settings() == Some(Ok::<SettingsView, ConfigError>(s.view_of())),
                Some(Err(e)) => env.settings() == Some(Err::<SettingsView, ConfigError>(e)),
            },
    {
        let api_text = value_or(&env.jelly_api_url, "https://app.letsjelly.com/api");
        let api = match url_parse(api_text.as_str()) {
            Ok(u) => u,
            Err(e) => return Some(Err(ConfigError::InvalidApiUrl(e))),
        };
        let key = match &env.jelly_api_key {
            Some(k) => k,
            None => return Some(Err(ConfigError::MissingApiKey)),
        };
        let client = match JellyClient::try_new(api.as_str(), key.as_str()) {
            None => return None,
            Some(Ok(c)) => c,
            Some(Err(_)) => return Some(Err(ConfigError::InvalidApiKey)),
        };
        Some(Self::with_client(env, api.as_str(), key.as_str(), client))
    }

    /// The rest of the settings, once the API client is made.
    fn with_client(env: &EnvValues, api: &str, key: &str, client: JellyClient) -> (r: Result<ScrapeSettings, ConfigError>)
        requires
            client.base_url_text() == api_base_of(api@),
            client.authorization_text() == bearer(key@),
        ensures
            match r {
                Ok(s) => settings_with_client(api@, key@, opt_text(env.jelly_app_url), opt_text(env.jelly_team),
                    opt_text(env.jelly_session_token), opt_text(env.scrape_interval), opt_text(env.max_conversations))
                    == Ok::<SettingsView, ConfigError>(s.view_of()),
                Err(e) => settings_with_client(api@, key@, opt_text(env.jelly_app_url), opt_text(env.jelly_team),
                    opt_text(env.jelly_session_token), opt_text(env.scrape_interval), opt_text(env.max_conversations))
                    == Err::<SettingsView, ConfigError>(e),
            },
    {
        let app_text = value_or(&env.jelly_app_url, "https://app.letsjelly.com/");
        let app = match url_parse(app_text.as_str()) {
            Ok(u) => u,
            Err(e) => return Err(ConfigError::InvalidAppUrl(e)),
        };
        let team = match &env.jelly_team {
            Some(t) => concat(t.as_str(), "/"),
            None => return Err(ConfigError::MissingTeam),
        };
        let team_url = match url_join(app.as_str(), team.as_str()) {
            Ok(u) => u,
            Err(e) => return Err(ConfigError::InvalidTeamUrl(e)),
        };
        let token = match &env.jelly_session_token {
            Some(t) => t,
            None => return Err(ConfigError::MissingSessionToken),
        };
        let (interval_secs, interval_nanos) = match scrape_interval(&env.scrape_interval) {
            Some(d) => d,
            None => return Err(ConfigError::InvalidScrapeInterval),
        };
        let max_conversations = match &env.max_conversations {
            None => None,
            Some(text) => match parse_u32(text.as_str()) {
                Some(n) => Some(n),
                None => return Err(ConfigError::InvalidMaxConversations),
            },
        };
        let statistics_url = match url_join(team_url.as_str(), "statistics") {
            Ok(u) => u,
            Err(e) => return Err(ConfigError::InvalidStatisticsUrl(e)),
        };
        let session_cookie = concat("current_user_session_token=", token.as_str());
        Ok(
            ScrapeSettings {
                client,
                team_url,
                statistics_url,
                session_cookie,
                interval_secs,
                interval_nanos,
                max_conversations,
            },
        )
    }
}

/// How one round of scraping ends: the statistics to publish, and how long
/// to wait before the next round starts.
#[derive(Debug, Clone, Copy, PartialEq, Eq, Structural)]
pub struct ScrapeRound {
    pub stats: Stats,
    /// Whole seconds to wait ...
    pub wait_secs: u64,
    /// ... and the nanoseconds beyond them.
    pub wait_nanos: u32,
}

/// The end of a round under `settings`, from the figures of the statistics
/// page and the number of conversations the API listed: the statistics
/// they make, and a wait of the settings' interval; or why no statistics
/// can be made of them.
pub open spec fn round_of(settings: SettingsView, figures: PageFigures, total_conversations: nat) -> Result<
    ScrapeRound,
    ScrapeError,
> {
    match stats_of(figures, total_conversations) {
        Err(e) => Err(e),
        Ok(stats) => Ok(
            ScrapeRound { stats, wait_secs: settings.interval.0, wait_nanos: settings.interval.1 },
        ),
    }
}

impl ScrapeSettings {
    /// Ends a round of scraping: puts the figures of the statistics page and
    /// the number of conversations the API listed together, and says how
    /// long to wait before the next round.
    pub fn finish_round(&self, figures: PageFigures, total_conversations: usize) -> (r: Result<
        ScrapeRound,
        ScrapeError,
    >)
        ensures
            r == round_of(self.view_of(), figures, total_conversations as nat),
    {
        match assemble_stats(figures, total_conversations) {
            Ok(stats) => Ok(
                ScrapeRound { stats, wait_secs: self.interval_secs, wait_nanos: self.interval_nanos },
            ),
            Err(e) => Err(e),
        }
    }
}

/// Successive rounds of scraping start at least the scrape interval apart:
/// with settings made from the environment, a round that ends with
/// statistics waits ten minutes when `SCRAPE_INTERVAL` is not set, and
/// otherwise the duration `humantime` reads in it.
pub proof fn law_rounds_wait_the_interval(
    env: EnvValues,
    settings: SettingsView,
    figures: PageFigures,
    total_conversations: nat,
)
    requires
        env.settings() == Some(Ok::<SettingsView, ConfigError>(settings)),
        round_of(settings, figures, total_conversations) is Ok,
    ensures
        ({
            let round = round_of(settings, figures, total_conversations)->Ok_0;
            match opt_text(env.scrape_interval) {
                None => (round.wait_secs, round.wait_nanos) == default_interval(),
                Some(t) => duration_bound(t) <= u64::MAX && humantime_duration(t) == Some(
                    (round.wait_secs, round.wait_nanos),
                ),
            }
        }),
{
}

} // verus!
