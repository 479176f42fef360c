# jelly_stats

A service that scrapes the statistics page of a Jelly workspace, counts its
conversations through the Jelly API, and publishes the figures as Prometheus
metrics (`/metrics`) and JSON (`/stats`). Posting a daily leaderboard to
Slack belongs to builds with the `slack` feature; this build does not start
it.

The library under `src/` is written in Verus and verified:

- `text` — characters, substrings, decimal numerals (with `str::parse`'s rules);
- `urls` — URLs, computed by the `url` crate;
- `html` — HTML queries, computed by the `tl` crate;
- `jelly` — the Jelly API's types and errors, endpoint addressing, response
  reading, query strings and the walk through paginated listings;
- `scrape` — reading the statistics page, assembling the statistics, the
  `/metrics` text and the `/stats` status;
- `interval` — an upper bound on the seconds a duration text stands for,
  which keeps `humantime` away from the texts on which it panics;
- `config` — the settings made from the environment variables, and the end
  of each scrape round (what to publish, how long to wait);
- `slack` — the Slack settings, the leaderboard text and its daily schedule.

`app/` is the program around it: environment, HTTP (reqwest, axum), the
scrape loop (which sleeps the wait each round gives), Slack posting, and the
serde and thiserror copies of the library's types.
