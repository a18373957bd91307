use instagram_reels_scraper::browserwithtmpdir::{BrowserPlan, DataDir};
use instagram_reels_scraper::config::{
    Config, _default_chromedata, _default_headless, _default_worker, USER_AGENT,
};
use std::collections::HashSet;

fn config(headless: bool) -> Config {
    Config {
        insta_user: "user".to_string(),
        insta_pass: "pass".to_string(),
        accounts_type: "cooking".to_string(),
        accounts: HashSet::from(["a".to_string(), "b".to_string()]),
        worker: _default_worker(),
        headless,
        chromedata: _default_chromedata(),
        telegram_token: "t".to_string(),
        telegram_chat_id: "c".to_string(),
        slack_token: "s".to_string(),
        slack_channel: "ch".to_string(),
    }
}

#[test]
fn defaults_are_those_of_the_environment_reader() {
    assert_eq!(_default_worker(), 10);
    assert_eq!(_default_chromedata(), "/tmp/instagram-reels-scraper");
    assert!(_default_headless());
    assert!(USER_AGENT.starts_with("Mozilla/5.0 (Macintosh; Intel Mac OS X 14_1)"));
}

#[test]
fn a_copying_browser_works_on_a_copy_of_the_default_profile() {
    let plan = BrowserPlan::new(&config(true), true);
    match plan.data_dir {
        DataDir::TemporaryCopyOf { source } => {
            assert_eq!(source, "/tmp/instagram-reels-scraper/Default")
        }
        DataDir::Configured(_) => panic!("expected a copy"),
    }
    assert_eq!(plan.args, vec!["--blink-settings=imagesEnabled=false".to_string()]);
    assert_eq!(plan.idle_timeout_secs, 60);
    assert!(plan.headless);
    assert_eq!(plan.window_size, (1920, 1080));
    assert!(!plan.sandbox);
}

#[test]
fn the_login_browser_works_on_the_profile_itself() {
    let plan = BrowserPlan::new(&config(false), false);
    match plan.data_dir {
        DataDir::Configured(p) => assert_eq!(p, "/tmp/instagram-reels-scraper"),
        DataDir::TemporaryCopyOf { .. } => panic!("expected the profile itself"),
    }
    assert!(!plan.headless);
}
