//! Statistics for a Jelly workspace: the verified core of a service that
//! scrapes Jelly's statistics page, counts conversations through the Jelly
//! API, and publishes the figures as Prometheus metrics.
pub mod text;
pub mod html;
pub mod urls;
pub mod jelly;
pub mod scrape;
pub mod interval;
pub mod config;
pub mod slack;
