//! Ranking and reporting logic of an Instagram reels scraper, with the
//! decisions of its browser, Slack and Telegram conversations written as
//! verified state machines.

pub mod config;
pub mod text;
pub mod time;
pub mod insta;
pub mod report;
pub mod telegram;
pub mod form;
pub mod json;
pub mod slack;
pub mod browserwithtmpdir;
