//! Settings read from the environment.
use std::collections::HashSet;
use vstd::prelude::*;

verus! {

/// The user agent that every browser tab announces.
pub const USER_AGENT: &'static str = "Mozilla/5.0 (Macintosh; Intel Mac OS X 14_1) AppleWebKit/605.1.15 (KHTML, like Gecko) Version/17.1 Safari/605.1.15";

/// Number of scraping workers when the environment names none.
pub fn _default_worker() -> (n: usize)
    ensures
        n == 10,
{
    10
}

/// Browser profile directory when the environment names none.
pub fn _default_chromedata() -> (p: String)
    ensures
        p@ == "/tmp/instagram-reels-scraper"@,
{
    String::from_str("/tmp/instagram-reels-scraper")
}

/// Browsers run headless unless the environment says otherwise.
pub fn _default_headless() -> (b: bool)
    ensures
        b,
{
    true
}

/// Everything the scraper is told through its environment.
pub struct Config {
    pub insta_user: String,
    pub insta_pass: String,
    pub accounts_type: String,
    pub accounts: HashSet<String>,
    pub worker: usize,
    pub headless: bool,
    pub chromedata: String,
    pub telegram_token: String,
    pub telegram_chat_id: String,
    pub slack_token: String,
    pub slack_channel: String,
}

} // verus!
