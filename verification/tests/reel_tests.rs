use instagram_reels_scraper::insta::reel::{ratio_ranks_below, MediaFields, Ratio, Reel};
use instagram_reels_scraper::time::{LocalTime, ReelDuration};

fn fields() -> MediaFields {
    MediaFields {
        code: Some("C0de".to_string()),
        like_count: Some(120),
        comment_count: Some(7),
        play_count: Some(5000),
        caption_text: Some("hello \"world\"".to_string()),
        video_duration: Some(ReelDuration { secs: 15, nanos: 500_000_000 }),
        taken_at: Some(1_700_000_000),
        username: Some("someone".to_string()),
        is_paid_partnership: Some(false),
    }
}

#[test]
fn a_media_item_becomes_a_reel() {
    let reel = Reel::from_media_at(&fields(), 3600);
    assert_eq!(reel.url, "https://www.instagram.com/reel/C0de/");
    assert_eq!(reel.ratio, None);
    assert_eq!(reel.account, "someone");
    assert_eq!(reel.like, 120);
    assert_eq!(reel.comments, 7);
    assert_eq!(reel.views, Some(5000));
    assert_eq!(reel.duration, ReelDuration { secs: 15, nanos: 500_000_000 });
    assert_eq!(reel.date, LocalTime { timestamp: 1_700_000_000, offset: 3600 });
    assert!(!reel.paid_partnership);
    assert_eq!(reel.caption, "hello \"world\"");
}

#[test]
fn missing_optional_fields_get_defaults() {
    let mut f = fields();
    f.play_count = None;
    f.caption_text = None;
    let reel = Reel::from_media_at(&f, 0);
    assert_eq!(reel.views, None);
    assert_eq!(reel.caption, "");
}

#[test]
fn a_date_that_chrono_cannot_hold_becomes_the_epoch() {
    let mut f = fields();
    f.taken_at = Some(i64::MAX);
    let reel = Reel::from_media_at(&f, 0);
    assert_eq!(reel.date.timestamp, 0);
    let local = Reel::from_media(&f);
    assert_eq!(local.date.timestamp, 0);
}

#[test]
fn a_media_item_without_a_required_field_gives_no_reel() {
    assert!(Reel::try_from_media(&fields()).is_some());
    let mut f = fields();
    f.code = None;
    assert!(Reel::try_from_media(&f).is_none());
    let mut f = fields();
    f.like_count = None;
    assert!(Reel::try_from_media(&f).is_none());
    let mut f = fields();
    f.video_duration = None;
    assert!(Reel::try_from_media(&f).is_none());
    let mut f = fields();
    f.is_paid_partnership = None;
    assert!(Reel::try_from_media(&f).is_none());
    let mut f = fields();
    f.play_count = None;
    assert!(Reel::try_from_media(&f).is_some());
}

#[test]
fn set_ratio_divides_views_by_followers() {
    let mut reel = Reel::from_media_at(&fields(), 0);
    reel.set_ratio(1000);
    assert_eq!(reel.ratio, Some(Ratio { views: 5000, followers: 1000 }));
    let mut f = fields();
    f.play_count = None;
    let mut unseen = Reel::from_media_at(&f, 0);
    unseen.set_ratio(1000);
    assert_eq!(unseen.ratio, Some(Ratio { views: 0, followers: 1000 }));
}

fn q(views: usize, followers: usize) -> Option<Ratio> {
    Some(Ratio { views, followers })
}

#[test]
fn ranks_follow_views_per_follower() {
    assert!(ratio_ranks_below(&q(1, 3), &q(1, 2)));
    assert!(!ratio_ranks_below(&q(1, 2), &q(1, 3)));
    assert!(!ratio_ranks_below(&q(2, 4), &q(1, 2)));
    assert!(!ratio_ranks_below(&q(1, 2), &q(2, 4)));
    assert!(!ratio_ranks_below(&None, &q(0, 5)));
    assert!(!ratio_ranks_below(&q(0, 5), &None));
    assert!(ratio_ranks_below(&None, &q(1, 5)));
    assert!(ratio_ranks_below(&q(usize::MAX - 1, usize::MAX), &q(1, 1)));
    assert!(ratio_ranks_below(&q(usize::MAX, 1), &q(1, 0)));
    assert!(ratio_ranks_below(&q(0, 0), &q(0, 1)));
    assert!(!ratio_ranks_below(&q(0, 0), &q(0, 0)));
    assert!(!ratio_ranks_below(&q(3, 0), &q(1, 0)));
}

#[test]
fn reels_are_equal_when_all_their_fields_are() {
    let a = Reel::from_media_at(&fields(), 0);
    let b = a.duplicate();
    assert_eq!(a, b);
    let mut c = a.duplicate();
    c.set_ratio(3);
    assert_ne!(a, c);
}

#[test]
fn the_rank_order_is_a_strict_weak_order() {
    let mut all = vec![None];
    for v in 0..4 {
        for f in 0..4 {
            all.push(q(v, f));
        }
    }
    for a in &all {
        assert!(!ratio_ranks_below(a, a));
        for b in &all {
            for c in &all {
                if ratio_ranks_below(a, b) && ratio_ranks_below(b, c) {
                    assert!(ratio_ranks_below(a, c));
                }
                if !ratio_ranks_below(b, a) && !ratio_ranks_below(c, b) {
                    assert!(!ratio_ranks_below(c, a));
                }
            }
        }
    }
}
