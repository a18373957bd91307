use instagram_reels_scraper::insta::reel::{MediaFields, Ratio, Reel};
use instagram_reels_scraper::insta::scraper::{
    is_reel_info_url, month_ago, parse_followers, reels_page_url, AccountScrape, ScrapeStep,
};
use instagram_reels_scraper::insta::{
    first_finished, unnamed_worker, worker_name, worker_notice, Locator, LoginAction, LoginEvent,
    LoginFlow, WorkerOutcome, LOGIN_URL,
};
use instagram_reels_scraper::time::ReelDuration;

fn reel_taken_at(taken_at: i64, views: Option<u64>) -> Reel {
    Reel::from_media_at(
        &MediaFields {
            code: Some("c".to_string()),
            like_count: Some(1),
            comment_count: Some(1),
            play_count: views,
            caption_text: None,
            video_duration: Some(ReelDuration { secs: 1, nanos: 0 }),
            taken_at: Some(taken_at),
            username: Some("u".to_string()),
            is_paid_partnership: Some(true),
        },
        0,
    )
}

#[test]
fn scraper_addresses_and_filters() {
    assert_eq!(reels_page_url("nasa"), "https://www.instagram.com/nasa/reels/");
    assert!(is_reel_info_url("https://i.instagram.com/api/v1/media/3333_1/info/"));
    assert!(!is_reel_info_url("https://i.instagram.com/api/v1/media/3333_1/comments/"));
    assert!(!is_reel_info_url("https://i.instagram.com/api/v1/users/1/info/"));
}

#[test]
fn followers_are_read_from_the_title() {
    assert_eq!(parse_followers("1,234"), Some(1234));
    assert_eq!(parse_followers("12,345,678"), Some(12345678));
    assert_eq!(parse_followers("987"), Some(987));
    assert_eq!(parse_followers("1.2M"), None);
    assert_eq!(parse_followers(""), None);
    assert_eq!(parse_followers(","), None);
}

#[test]
fn the_window_is_thirty_days() {
    assert_eq!(month_ago(1_700_000_000), 1_700_000_000 - 30 * 86400);
}

#[test]
fn scrolling_stops_at_the_first_old_reel() {
    let mut s = AccountScrape::new(1000, 500);
    match s.on_reel(reel_taken_at(600, Some(250))) {
        ScrapeStep::Forward(r) => assert_eq!(r.ratio, Some(Ratio { views: 250, followers: 1000 })),
        ScrapeStep::Stop => panic!("reel in the window"),
    }
    match s.on_reel(reel_taken_at(500, None)) {
        ScrapeStep::Forward(r) => assert_eq!(r.ratio, Some(Ratio { views: 0, followers: 1000 })),
        ScrapeStep::Stop => panic!("reel at the edge of the window"),
    }
    assert!(matches!(s.on_reel(reel_taken_at(499, Some(1))), ScrapeStep::Stop));
    assert_eq!(s.count(), 2);
}

fn run_login(found_cookie: bool, found_form: bool, urls: &[&str], found_save: bool) -> Vec<String> {
    let (mut flow, first) = LoginFlow::new("me".to_string(), "secret".to_string());
    let mut log = vec![];
    let mut action = first;
    let mut urls = urls.iter();
    let mut probes = 0;
    loop {
        let event = match &action {
            LoginAction::SetUserAgent { .. } => {
                log.push("agent".to_string());
                LoginEvent::Done
            }
            LoginAction::Navigate { url } => {
                log.push(format!("go {url}"));
                LoginEvent::Done
            }
            LoginAction::Probe { locator } => {
                let (name, found) = match locator {
                    Locator::XPath(_) => ("cookies".to_string(), found_cookie),
                    Locator::Css(s) if s == "input[name=username]" => (s.clone(), found_form),
                    Locator::Css(s) => (s.clone(), found_save),
                };
                probes += 1;
                log.push(format!("probe {name}"));
                LoginEvent::Found(found)
            }
            LoginAction::ClickFound => {
                log.push("click".to_string());
                LoginEvent::Done
            }
            LoginAction::Click { selector } => {
                log.push(format!("click {selector}"));
                LoginEvent::Done
            }
            LoginAction::TypeInto { selector, text } => {
                log.push(format!("type {text} into {selector}"));
                LoginEvent::Done
            }
            LoginAction::WaitNavigated => {
                log.push("wait".to_string());
                LoginEvent::Done
            }
            LoginAction::Sleep { millis } => {
                log.push(format!("sleep {millis}"));
                LoginEvent::Done
            }
            LoginAction::ReadUrl => LoginEvent::Url(urls.next().unwrap().to_string()),
            LoginAction::LoggedIn => break,
        };
        assert!(flow.accepts(&event));
        action = flow.step(event);
    }
    assert!(flow.is_finished());
    assert!(probes >= 2);
    log
}

#[test]
fn an_open_session_needs_no_login() {
    let log = run_login(false, false, &[], false);
    assert_eq!(
        log,
        vec![
            "agent".to_string(),
            format!("go {LOGIN_URL}"),
            "probe cookies".to_string(),
            "probe input[name=username]".to_string(),
        ]
    );
}

#[test]
fn a_login_declines_cookies_and_waits_to_leave_the_login_page() {
    let log = run_login(
        true,
        true,
        &[
            "https://www.instagram.com/accounts/login/?next=x",
            "https://www.instagram.com/accounts/login/two_factor",
            "https://www.instagram.com/",
        ],
        true,
    );
    assert_eq!(
        log,
        vec![
            "agent", "go https://www.instagram.com/accounts/login/", "probe cookies", "click",
            "wait", "sleep 2000", "probe input[name=username]",
            "type me into input[name=username]", "type secret into input[name=password]",
            "click button[type=submit]", "sleep 100", "sleep 100", "wait", "sleep 2000",
            "probe button[type=button]", "click", "wait", "sleep 2000", "wait", "sleep 2000",
        ]
    );
}

#[test]
fn a_login_without_the_save_button_still_settles() {
    let log = run_login(false, true, &["https://www.instagram.com/"], false);
    assert_eq!(
        &log[log.len() - 5..],
        &["wait", "sleep 2000", "probe button[type=button]", "wait", "sleep 2000"]
    );
}

#[test]
fn workers_are_named_and_reported() {
    assert_eq!(worker_name(0), "0");
    assert_eq!(worker_name(12), "12");
    assert_eq!(unnamed_worker("ThreadId(3)"), "id:ThreadId(3)");
    assert_eq!(worker_notice("3", &WorkerOutcome::Finished("3".to_string())), None);
    assert_eq!(
        worker_notice("3", &WorkerOutcome::Failed("navigate_to".to_string())),
        Some("instagram-reels-scraper: worker 3 thread error: navigate_to".to_string())
    );
    assert_eq!(
        worker_notice("3", &WorkerOutcome::Panicked("Any { .. }".to_string())),
        Some("instagram-reels-scraper: worker 3 thread panicked: Any { .. }".to_string())
    );
    assert_eq!(first_finished(&vec![false, true, true]), Some(1));
    assert_eq!(first_finished(&vec![false, false]), None);
    assert_eq!(first_finished(&vec![]), None);
}

#[test]
fn worker_names_are_distinct() {
    let names: Vec<String> = (0..500).map(worker_name).collect();
    let unique: std::collections::HashSet<&String> = names.iter().collect();
    assert_eq!(unique.len(), names.len());
}
