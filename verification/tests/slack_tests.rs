use jelly_stats::slack::{
    format_leaderboard, format_leaderboard_on, LeaderboardEntry, PostSchedule, SlackConfig,
    SlackConfigError, TimeOfDay,
};

fn entry(name: &str, count: u64) -> LeaderboardEntry {
    LeaderboardEntry { name: name.to_string(), count }
}

#[test]
fn leaderboard_message_layout() {
    let entries = vec![entry("Ada", 12), entry("Bob", 9), entry("Cy", 9), entry("Di", 1)];
    assert_eq!(
        format_leaderboard_on("2026-06-01", &entries),
        "📊 *Daily Email Leaderboard (2026-06-01)*\n\
1. :first_place_medal: Ada — 12 emails\n\
2. :second_place_medal: Bob — 9 emails\n\
3. :third_place_medal: Cy — 9 emails\n\
4. Di — 1 emails\n"
    );
    assert_eq!(format_leaderboard_on("d", &[]), "📊 *Daily Email Leaderboard (d)*\n");
}

#[test]
fn leaderboard_message_is_dated() {
    let text = format_leaderboard(&[entry("Ada", 1)]);
    assert!(text.starts_with("📊 *Daily Email Leaderboard ("));
    assert!(text.ends_with(")*\n1. :first_place_medal: Ada — 1 emails\n"));
    let date = &text["📊 *Daily Email Leaderboard (".len()..text.find(")*").unwrap()];
    assert_eq!(date.len(), 10);
}

#[test]
fn slack_config_from_values() {
    let now = TimeOfDay { secs: 3723, nanos: 5 };
    let c = SlackConfig::from_values(Some("xoxb-1".into()), Some("C01".into()), Some("09:30".into()), now).unwrap();
    assert_eq!(c.token, "xoxb-1");
    assert_eq!(c.channel, "C01");
    assert_eq!(c.post_time, TimeOfDay { secs: 9 * 3600 + 30 * 60, nanos: 0 });
    let c = SlackConfig::from_values(Some("t".into()), Some("c".into()), None, now).unwrap();
    assert_eq!(c.post_time, now);
}

#[test]
fn slack_config_errors() {
    let now = TimeOfDay { secs: 0, nanos: 0 };
    assert_eq!(SlackConfig::from_values(None, None, None, now).err(), Some(SlackConfigError::MissingToken));
    assert_eq!(
        SlackConfig::from_values(Some("t".into()), None, Some("x".into()), now).err(),
        Some(SlackConfigError::MissingChannel)
    );
    for bad in ["25:00", "9.30", "", "12:60"] {
        assert_eq!(
            SlackConfig::from_values(Some("t".into()), Some("c".into()), Some(bad.into()), now).err(),
            Some(SlackConfigError::InvalidPostTime),
            "{bad:?}"
        );
    }
    assert_eq!(SlackConfigError::InvalidPostTime.message(), "SLACK_POST_TIME must be in HH:MM format");
    let c = SlackConfig::from_env(Some("t".into()), Some("c".into()), None).unwrap();
    assert!(c.post_time.secs < 86400);
}

#[test]
fn posts_once_a_day_after_the_post_time() {
    let post = TimeOfDay { secs: 9 * 3600, nanos: 0 };
    let mut s = PostSchedule::new();
    assert!(!s.tick(100, TimeOfDay { secs: 8 * 3600, nanos: 0 }, post, true));
    assert!(!s.tick(100, post, post, false));
    assert_eq!(s.last_posted, None);
    assert!(s.tick(100, post, post, true));
    assert_eq!(s.last_posted, Some(100));
    assert!(!s.tick(100, TimeOfDay { secs: 20 * 3600, nanos: 0 }, post, true));
    assert!(!s.tick(101, TimeOfDay { secs: 8 * 3600, nanos: 0 }, post, true));
    assert!(s.tick(101, TimeOfDay { secs: 9 * 3600, nanos: 1 }, post, true));
    assert_eq!(s.last_posted, Some(101));
}
