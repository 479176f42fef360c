//! The daily leaderboard posted to Slack: its settings, its text, and
//! when it is due.
use vstd::prelude::*;
use chrono::{Datelike, Timelike};
use crate::text::{concat, decimal_text, opt_text, owned, parse_u32, push_decimal};

verus! {

/// One person's line on the leaderboard.
#[derive(Debug, Clone)]
pub struct LeaderboardEntry {
    pub name: String,
    pub count: u64,
}

/// A time of day: seconds past midnight and the nanoseconds beyond them.
#[derive(Debug, Clone, Copy, PartialEq, Eq, Structural)]
pub struct TimeOfDay {
    pub secs: u32,
    pub nanos: u32,
}

/// `a` is at or after `b` on the same day.
pub open spec fn at_or_after(a: TimeOfDay, b: TimeOfDay) -> bool {
    a.secs > b.secs || (a.secs == b.secs && a.nanos >= b.nanos)
}

/// The time of day `hh:mm`.
pub open spec fn hour_minute(hour: u32, minute: u32) -> TimeOfDay {
    TimeOfDay { secs: (hour * 3600 + minute * 60) as u32, nanos: 0 }
}

/// The hour and minute that `chrono::NaiveTime::parse_from_str` reads in
/// `text` with the format `format`; `None` when it refuses the text.
pub uninterp spec fn chrono_hour_minute(text: Seq<char>, format: Seq<char>) -> Option<(u32, u32)>;

/// Calls `chrono::NaiveTime::parse_from_str` and takes the hour and minute
/// of the time, which lie in 0..24 and 0..60.
#[verifier::external_body]
fn parse_hour_minute(text: &str, format: &str) -> (r: Option<(u32, u32)>)
    ensures
        r == chrono_hour_minute(text@, format@),
        r matches Some(t) ==> t.0 < 24 && t.1 < 60,
{
    match chrono::NaiveTime::parse_from_str(text, format) {
        Ok(t) => Some((t.hour(), t.minute())),
        Err(_) => None,
    }
}

/// Reads the clock with `chrono::Utc::now`: the day (counted from the
/// first day of the common era) and the time of day, in UTC. Nothing is
/// stated of the values, which depend on when the call is made, beyond
/// the range of the seconds.
#[verifier::external_body]
pub(crate) fn utc_now() -> (r: (i32, TimeOfDay))
    ensures
        r.1.secs < 86400,
{
    let now = chrono::Utc::now();
    let time = now.time();
    (
        now.date_naive().num_days_from_ce(),
        TimeOfDay { secs: time.num_seconds_from_midnight(), nanos: time.nanosecond() },
    )
}

/// The text that `chrono`'s `format` with the pattern `pattern` writes for
/// the day `day` (counted from the first day of the common era).
pub uninterp spec fn chrono_date_text(day: int, pattern: Seq<char>) -> Seq<char>;

/// Reads the clock with `chrono::Utc::now` and formats it with `format`
/// and `pattern`, which is the year-month-day pattern (a pattern `chrono`
/// cannot render would make `to_string` panic). Gives the day it read and
/// the text; which day that is depends on when the call is made.
#[verifier::external_body]
fn utc_today_text(pattern: &str) -> (r: (i32, String))
    requires
        pattern@ == "%Y-%m-%d"@,
    ensures
        r.1@ == chrono_date_text(r.0 as int, pattern@),
{
    let now = chrono::Utc::now();
    (now.date_naive().num_days_from_ce(), now.format(pattern).to_string())
}

/// Why the Slack settings cannot be made.
#[derive(Debug, Clone, Copy, PartialEq, Eq, Structural)]
pub enum SlackConfigError {
    MissingToken,
    MissingChannel,
    InvalidPostTime,
}

impl SlackConfigError {
    /// What went wrong, in words.
    pub fn message(&self) -> (r: &'static str)
        ensures
            r@ == match self {
                SlackConfigError::MissingToken => "SLACK_BOT_TOKEN must be set when using the slack feature"@,
                SlackConfigError::MissingChannel => "SLACK_CHANNEL_ID must be set when using the slack feature"@,
                SlackConfigError::InvalidPostTime => "SLACK_POST_TIME must be in HH:MM format"@,
            },
    {
        match self {
            SlackConfigError::MissingToken => "SLACK_BOT_TOKEN must be set when using the slack feature",
            SlackConfigError::MissingChannel => "SLACK_CHANNEL_ID must be set when using the slack feature",
            SlackConfigError::InvalidPostTime => "SLACK_POST_TIME must be in HH:MM format",
        }
    }
}

/// Where and when to post the leaderboard.
#[derive(Debug)]
pub struct SlackConfig {
    pub token: String,
    pub channel: String,
    pub post_time: TimeOfDay,
}

/// The posting time that `SLACK_POST_TIME` gives: `HH:MM` as `chrono` reads
/// it, or `now` when it is not set.
pub open spec fn post_time_of(text: Option<Seq<char>>, now: TimeOfDay) -> Option<TimeOfDay> {
    match text {
        None => Some(now),
        Some(t) => match chrono_hour_minute(t, "%H:%M"@) {
            Some(hm) => Some(hour_minute(hm.0, hm.1)),
            None => None,
        },
    }
}

impl SlackConfig {
    /// Makes the settings from the values of `SLACK_BOT_TOKEN`,
    /// `SLACK_CHANNEL_ID` and `SLACK_POST_TIME`, with `now` as the posting
    /// time when the last is not set.
    pub fn from_values(
        token: Option<String>,
        channel: Option<String>,
        post_time: Option<String>,
        now: TimeOfDay,
    ) -> (r: Result<SlackConfig, SlackConfigError>)
        ensures
            match r {
                Ok(c) => {
                    &&& opt_text(token) == Some(c.token@)
                    &&& opt_text(channel) == Some(c.channel@)
                    &&& post_time_of(opt_text(post_time), now) == Some(c.post_time)
                    &&& post_time is Some ==> c.post_time.secs < 86400
                },
                Err(e) => {
                    &&& token is None ==> e == SlackConfigError::MissingToken
                    &&& token is Some && channel is None ==> e == SlackConfigError::MissingChannel
                    &&& token is Some && channel is Some ==> (e == SlackConfigError::InvalidPostTime
                        && post_time_of(opt_text(post_time), now) is None)
                },
            },
    {
        let token = match token {
            Some(t) => t,
            None => return Err(SlackConfigError::MissingToken),
        };
        let channel = match channel {
            Some(c) => c,
            None => return Err(SlackConfigError::MissingChannel),
        };
        let post_time = match post_time {
            None => now,
            Some(text) => match parse_hour_minute(text.as_str(), "%H:%M") {
                Some((h, m)) => {
                    assert(h * 3600 + m * 60 < 86400) by (nonlinear_arith)
                        requires
                            h < 24,
                            m < 60,
                    ;
                    TimeOfDay { secs: h * 3600 + m * 60, nanos: 0 }
                },
                None => return Err(SlackConfigError::InvalidPostTime),
            },
        };
        Ok(SlackConfig { token, channel, post_time })
    }

    /// Makes the settings from the values of the variables, taking the
    /// current UTC time of day as the posting time when `SLACK_POST_TIME`
    /// is not set.
    pub fn from_env(token: Option<String>, channel: Option<String>, post_time: Option<String>) -> (r:
        Result<SlackConfig, SlackConfigError>)
        ensures
            match r {
                Ok(c) => {
                    &&& opt_text(token) == Some(c.token@)
                    &&& opt_text(channel) == Some(c.channel@)
                    &&& c.post_time.secs < 86400
                    &&& post_time_of(opt_text(post_time), c.post_time) == Some(c.post_time)
                },
                Err(e) => {
                    &&& token is None ==> e == SlackConfigError::MissingToken
                    &&& token is Some && channel is None ==> e == SlackConfigError::MissingChannel
                    &&& token is Some && channel is Some ==> (e == SlackConfigError::InvalidPostTime
                        && (post_time matches Some(t) && chrono_hour_minute(t@, "%H:%M"@) is None))
                },
            },
    {
        let (_, now) = utc_now();
        SlackConfig::from_values(token, channel, post_time, now)
    }
}

/// A view of a leaderboard entry.
pub open spec fn entry_view(e: LeaderboardEntry) -> (Seq<char>, u64) {
    (e.name@, e.count)
}

/// A view of leaderboard entries.
pub open spec fn entries_view(entries: Seq<LeaderboardEntry>) -> Seq<(Seq<char>, u64)> {
    entries.map_values(|e: LeaderboardEntry| entry_view(e))
}

/// The medal before the name on line `index` (counted from 0).
pub open spec fn medal(index: nat) -> Seq<char> {
    if index == 0 {
        ":first_place_medal: "@
    } else if index == 1 {
        ":second_place_medal: "@
    } else if index == 2 {
        ":third_place_medal: "@
    } else {
        Seq::empty()
    }
}

/// Line `index` (counted from 0) of the leaderboard.
pub open spec fn leaderboard_line(index: nat, entry: (Seq<char>, u64)) -> Seq<char> {
    decimal_text(index + 1) + ". "@ + medal(index) + entry.0 + " — "@ + decimal_text(entry.1 as nat)
        + " emails\n"@
}

/// The lines of the leaderboard for `entries`, one per entry, in order.
pub open spec fn leaderboard_lines(entries: Seq<(Seq<char>, u64)>) -> Seq<char>
    decreases entries.len(),
{
    if entries.len() == 0 {
        Seq::empty()
    } else {
        leaderboard_lines(entries.drop_last()) + leaderboard_line(
            (entries.len() - 1) as nat,
            entries.last(),
        )
    }
}

/// The leaderboard message of the day `date`.
pub open spec fn leaderboard_message(date: Seq<char>, entries: Seq<(Seq<char>, u64)>) -> Seq<char> {
    "📊 *Daily Email Leaderboard ("@ + date + ")*\n"@ + leaderboard_lines(entries)
}

/// Appends the medal of line `index`.
fn push_medal(out: &mut String, index: usize)
    ensures
        final(out)@ == old(out)@ + medal(index as nat),
{
    if index == 0 {
        out.append(":first_place_medal: ");
    } else if index == 1 {
        out.append(":second_place_medal: ");
    } else if index == 2 {
        out.append(":third_place_medal: ");
    } else {
        assert(old(out)@ + medal(index as nat) =~= old(out)@);
    }
}

/// The leaderboard in Slack's markup, headed by the date `date`.
pub fn format_leaderboard_on(date: &str, entries: &[LeaderboardEntry]) -> (r: String)
    ensures
        r@ == leaderboard_message(date@, entries_view(entries@)),
{
    let ghost views = entries_view(entries@);
    let mut msg = concat("📊 *Daily Email Leaderboard (", date);
    msg.append(")*\n");
    let ghost head = msg@;
    let mut i: usize = 0;
    assert(views.take(0) =~= Seq::<(Seq<char>, u64)>::empty());
    while i < entries.len()
        invariant
            views == entries_view(entries@),
            head == "📊 *Daily Email Leaderboard ("@ + date@ + ")*\n"@,
            i <= entries@.len(),
            msg@ == head + leaderboard_lines(views.take(i as int)),
        decreases entries@.len() - i,
    {
        let entry = &entries[i];
        let ghost before = msg@;
        push_decimal(&mut msg, (i as u64) + 1);
        msg.append(". ");
        push_medal(&mut msg, i);
        msg.append(entry.name.as_str());
        msg.append(" — ");
        push_decimal(&mut msg, entry.count);
        msg.append(" emails\n");
        assert(views.take(i + 1).drop_last() =~= views.take(i as int));
        assert(views.take(i + 1).last() == entry_view(entries@[i as int]));
        assert(msg@ =~= before + leaderboard_line(i as nat, entry_view(entries@[i as int])));
        i = i + 1;
    }
    assert(views.take(entries@.len() as int) =~= views);
    msg
}

/// The leaderboard in Slack's markup, headed by today's UTC date.
pub fn format_leaderboard(entries: &[LeaderboardEntry]) -> (r: String)
    ensures
        exists|day: int|
            r@ == leaderboard_message(#[trigger] chrono_date_text(day, "%Y-%m-%d"@), entries_view(entries@)),
{
    let (day, date) = utc_today_text("%Y-%m-%d");
    let r = format_leaderboard_on(date.as_str(), entries);
    assert(r@ == leaderboard_message(chrono_date_text(day as int, "%Y-%m-%d"@), entries_view(entries@)));
    r
}

/// Whether the leaderboard is due: the day's posting time has come, it
/// has not been posted today, and there is something to post.
pub open spec fn post_due(
    last_posted: Option<i32>,
    today: i32,
    now: TimeOfDay,
    post_time: TimeOfDay,
    has_entries: bool,
) -> bool {
    &&& at_or_after(now, post_time)
    &&& last_posted != Some(today)
    &&& has_entries
}

/// The day the leaderboard was last posted.
pub struct PostSchedule {
    pub last_posted: Option<i32>,
}

impl PostSchedule {
    /// Nothing posted yet.
    pub fn new() -> (r: PostSchedule)
        ensures
            r.last_posted is None,
    {
        PostSchedule { last_posted: None }
    }

    /// Decides, on day `today` at `now`, whether to post the leaderboard
    /// (`has_entries` tells whether it has any line); a post is recorded as
    /// made today.
    pub fn tick(&mut self, today: i32, now: TimeOfDay, post_time: TimeOfDay, has_entries: bool) -> (r:
        bool)
        ensures
            r == post_due(old(self).last_posted, today, now, post_time, has_entries),
            final(self).last_posted == if r {
                Some(today)
            } else {
                old(self).last_posted
            },
    {
        let due = (now.secs > post_time.secs || (now.secs == post_time.secs && now.nanos
            >= post_time.nanos)) && self.last_posted != Some(today) && has_entries;
        if due {
            self.last_posted = Some(today);
        }
        due
    }
}

/// The leaderboard is never due before the posting time, down to the
/// nanosecond: not in an earlier second, nor earlier in the same second.
/// It is due exactly when the posting time has come (a later second, or
/// the same second at or after its nanosecond), it has not been posted
/// today, and there are entries. Once due at a time of day, it stays due
/// at any later time of that day until it is posted.
pub proof fn law_due_only_from_the_posting_time(
    last_posted: Option<i32>,
    today: i32,
    now: TimeOfDay,
    later: TimeOfDay,
    post_time: TimeOfDay,
    has_entries: bool,
)
    ensures
        now.secs < post_time.secs ==> !post_due(last_posted, today, now, post_time, has_entries),
        now.secs == post_time.secs && now.nanos < post_time.nanos ==> !post_due(
            last_posted,
            today,
            now,
            post_time,
            has_entries,
        ),
        now.secs > post_time.secs ==> (post_due(last_posted, today, now, post_time, has_entries) <==> (
        last_posted != Some(today) && has_entries)),
        now.secs == post_time.secs && now.nanos >= post_time.nanos ==> (post_due(
            last_posted,
            today,
            now,
            post_time,
            has_entries,
        ) <==> (last_posted != Some(today) && has_entries)),
        post_due(last_posted, today, now, post_time, has_entries) && (later.secs > now.secs || (later.secs
            == now.secs && later.nanos >= now.nanos)) ==> post_due(
            last_posted,
            today,
            later,
            post_time,
            has_entries,
        ),
{
}

/// Once the leaderboard has been posted on a day, it is not due again that
/// day, whatever the time and the entries.
pub proof fn law_at_most_one_post_a_day(
    today: i32,
    now: TimeOfDay,
    post_time: TimeOfDay,
    has_entries: bool,
)
    ensures
        !post_due(Some(today), today, now, post_time, has_entries),
{
}

/// An empty leaderboard is never due, and a due post is recorded so that
/// the next tick on the same day does not post again.
pub proof fn law_tick_then_quiet(
    last_posted: Option<i32>,
    today: i32,
    now: TimeOfDay,
    later: TimeOfDay,
    post_time: TimeOfDay,
    has_entries: bool,
)
    ensures
        !post_due(last_posted, today, now, post_time, false),
        post_due(last_posted, today, now, post_time, has_entries) ==> !post_due(
            Some(today),
            today,
            later,
            post_time,
            has_entries,
        ),
{
}

} // verus!
