use instagram_reels_scraper::form::encode_form;
use instagram_reels_scraper::insta::reel::{parse_media_body, reel_from_body, MediaFields, Ratio, Reel};
use instagram_reels_scraper::json::{field, parse_json, Json};
use instagram_reels_scraper::report::ReelSet;
use instagram_reels_scraper::time::{LocalTime, ReelDuration, MAX_TIMESTAMP, MIN_TIMESTAMP};

fn body(item: &str) -> String {
    format!("{{\"num_results\":1,\"items\":[{item}],\"status\":\"ok\"}}")
}

fn full_item() -> String {
    "{\"code\":\"C0de\",\"like_count\":120,\"comment_count\":7,\"play_count\":5000,\
     \"caption\":{\"text\":\"hello\"},\"video_duration\":15.5,\"taken_at\":1700000000,\
     \"user\":{\"username\":\"someone\"},\"is_paid_partnership\":true}"
        .to_string()
}

#[test]
fn a_media_body_becomes_a_reel() {
    let reel = reel_from_body(&body(&full_item())).unwrap();
    assert_eq!(reel.url, "https://www.instagram.com/reel/C0de/");
    assert_eq!(reel.ratio, None);
    assert_eq!(reel.account, "someone");
    assert_eq!(reel.like, 120);
    assert_eq!(reel.comments, 7);
    assert_eq!(reel.views, Some(5000));
    assert_eq!(reel.duration, ReelDuration { secs: 15, nanos: 500_000_000 });
    assert_eq!(reel.date.timestamp, 1_700_000_000);
    assert!(reel.paid_partnership);
    assert_eq!(reel.caption, "hello");
}

#[test]
fn the_body_is_read_field_by_field() {
    let f: MediaFields = parse_media_body(&body(&full_item())).unwrap();
    assert_eq!(f.code.as_deref(), Some("C0de"));
    assert_eq!(f.like_count, Some(120));
    assert_eq!(f.comment_count, Some(7));
    assert_eq!(f.play_count, Some(5000));
    assert_eq!(f.caption_text.as_deref(), Some("hello"));
    assert_eq!(f.video_duration, Some(ReelDuration { secs: 15, nanos: 500_000_000 }));
    assert_eq!(f.taken_at, Some(1_700_000_000));
    assert_eq!(f.username.as_deref(), Some("someone"));
    assert_eq!(f.is_paid_partnership, Some(true));
}

#[test]
fn a_null_view_count_or_caption_is_no_failure() {
    let item = full_item()
        .replace("\"play_count\":5000", "\"play_count\":null")
        .replace("\"caption\":{\"text\":\"hello\"}", "\"caption\":null");
    let reel = reel_from_body(&body(&item)).unwrap();
    assert_eq!(reel.views, None);
    assert_eq!(reel.caption, "");
}

#[test]
fn a_missing_view_count_or_caption_key_gives_no_reel() {
    let item = full_item().replace("\"play_count\":5000,", "");
    assert!(parse_media_body(&body(&item)).is_none());
    assert!(reel_from_body(&body(&item)).is_none());
    let item = full_item().replace("\"caption\":{\"text\":\"hello\"},", "");
    assert!(reel_from_body(&body(&item)).is_none());
}

#[test]
fn a_body_that_is_not_json_gives_nothing() {
    assert!(parse_media_body("<html>").is_none());
    assert!(reel_from_body("<html>").is_none());
}

#[test]
fn a_first_item_that_is_not_an_object_gives_no_reel() {
    assert!(parse_media_body("{\"items\":[3]}").is_none());
    assert!(reel_from_body("{\"items\":[]}").is_none());
    assert!(reel_from_body("{\"items\":[\"x\"]}").is_none());
    assert!(reel_from_body("[1,2]").is_none());
}

#[test]
fn a_required_field_missing_from_the_body_gives_no_reel() {
    let item = full_item().replace("\"code\":\"C0de\",", "");
    assert!(parse_media_body(&body(&item)).is_none());
    assert!(reel_from_body(&body(&item)).is_none());
    let item = full_item().replace("\"code\":\"C0de\"", "\"code\":7");
    assert_eq!(parse_media_body(&body(&item)).unwrap().code, None);
    assert!(reel_from_body(&body(&item)).is_none());
    let item = full_item().replace("\"like_count\":120", "\"like_count\":\"many\"");
    assert!(reel_from_body(&body(&item)).is_none());
}

#[test]
fn a_negative_duration_gives_no_reel() {
    let item = full_item().replace("15.5", "-1.0");
    let f = parse_media_body(&body(&item)).unwrap();
    assert_eq!(f.video_duration, None);
    assert!(reel_from_body(&body(&item)).is_none());
}

#[test]
fn dates_hold_exactly_the_timestamps_that_chrono_holds() {
    assert!(chrono::DateTime::from_timestamp(MIN_TIMESTAMP, 0).is_some());
    assert!(chrono::DateTime::from_timestamp(MIN_TIMESTAMP - 1, 0).is_none());
    assert!(chrono::DateTime::from_timestamp(MAX_TIMESTAMP, 0).is_some());
    assert!(chrono::DateTime::from_timestamp(MAX_TIMESTAMP + 1, 0).is_none());
    let at = |t: i64| {
        let item = full_item().replace("1700000000", &t.to_string());
        Reel::from_media_at(&parse_media_body(&body(&item)).unwrap(), 0).date.timestamp
    };
    assert_eq!(at(MIN_TIMESTAMP), MIN_TIMESTAMP);
    assert_eq!(at(MAX_TIMESTAMP), MAX_TIMESTAMP);
    assert_eq!(at(MIN_TIMESTAMP - 1), 0);
    assert_eq!(at(MAX_TIMESTAMP + 1), 0);
}

#[test]
fn reels_seen_at_other_offsets_are_one_reel() {
    let f = parse_media_body(&body(&full_item())).unwrap();
    let east = Reel::from_media_at(&f, 3600);
    let west = Reel::from_media_at(&f, -18000);
    assert_eq!(east.date, LocalTime { timestamp: 1_700_000_000, offset: 3600 });
    assert!(east == west);
    let mut set = ReelSet::new();
    assert!(set.insert(east));
    assert!(!set.insert(west));
    assert_eq!(set.len(), 1);
    let later = Reel::from_media_at(&parse_media_body(&body(&full_item().replace("1700000000", "1700000001"))).unwrap(), 3600);
    assert!(set.insert(later));
}

#[test]
fn a_form_is_encoded_part_by_part() {
    let fields = vec![
        ("length".to_string(), "42".to_string()),
        ("token".to_string(), "xoxb-1".to_string()),
    ];
    let form = encode_form(&fields).unwrap();
    let prefix = "multipart/form-data; boundary=---------------------------";
    assert!(form.content_type.starts_with(prefix));
    let boundary = &form.content_type[prefix.len()..];
    assert_eq!(boundary.len(), 29);
    assert!(boundary.chars().all(|c| c.is_ascii_digit()));
    let dashes = "-----------------------------";
    let expected = format!(
        "{dashes}{boundary}\r\nContent-Disposition: form-data; name=\"length\"\r\n\r\n42\r\n\
         {dashes}{boundary}\r\nContent-Disposition: form-data; name=\"token\"\r\n\r\nxoxb-1\r\n\
         {dashes}{boundary}--\r\n"
    );
    assert_eq!(String::from_utf8(form.data).unwrap(), expected);
}

#[test]
fn an_empty_form_is_its_closing_delimiter() {
    let form = encode_form(&Vec::new()).unwrap();
    let boundary = &form.content_type[form.content_type.len() - 29..];
    assert_eq!(
        String::from_utf8(form.data).unwrap(),
        format!("-----------------------------{boundary}--\r\n")
    );
}

#[test]
fn a_json_document_is_read_node_for_node() {
    let doc = parse_json("{\"b\":[1,-2,2.5,true,null],\"a\":\"x\"}").unwrap();
    let a = field(&doc, "a").unwrap();
    assert!(matches!(a, Json::Text(t) if t == "x"));
    assert!(field(&doc, "c").is_none());
    match field(&doc, "b").unwrap() {
        Json::Array(items) => {
            assert_eq!(items.len(), 5);
            assert!(matches!(&items[0], Json::Number(n) if n.unsigned == Some(1) && n.signed == Some(1)));
            assert!(matches!(&items[1], Json::Number(n) if n.unsigned.is_none() && n.signed == Some(-2)));
            assert!(matches!(&items[1], Json::Number(n) if n.seconds.is_none()));
            assert!(matches!(&items[2], Json::Number(n) if n.seconds == Some(ReelDuration { secs: 2, nanos: 500_000_000 })));
            assert!(matches!(&items[3], Json::Bool(true)));
            assert!(matches!(&items[4], Json::Null));
        }
        _ => panic!("not an array"),
    }
    assert!(parse_json("{").is_none());
}

#[test]
fn ratios_of_equal_value_make_equal_reels() {
    let f = parse_media_body(&body(&full_item())).unwrap();
    let mut a = Reel::from_media_at(&f, 0);
    let mut b = Reel::from_media_at(&f, 0);
    a.ratio = Some(Ratio { views: 1, followers: 2 });
    b.ratio = Some(Ratio { views: 2, followers: 4 });
    assert!(a == b);
    b.ratio = Some(Ratio { views: 0, followers: 4 });
    a.ratio = Some(Ratio { views: 0, followers: 9 });
    assert!(a == b);
    let mut set = ReelSet::new();
    assert!(set.insert(a));
    assert!(!set.insert(b));
    let mut c = Reel::from_media_at(&f, 0);
    c.ratio = Some(Ratio { views: 1, followers: 3 });
    let mut d = Reel::from_media_at(&f, 0);
    d.ratio = None;
    assert!(set.insert(c));
    assert!(set.insert(d));
    assert_eq!(set.len(), 3);
}
