use instagram_reels_scraper::insta::reel::{Ratio, Reel};
use instagram_reels_scraper::report::{
    build_report, reel_cells, reels_taken_within, write_to_sheet, Cell, ReelSet, ReportError,
};
use instagram_reels_scraper::time::{LocalTime, ReelDuration};

fn reel(code: &str, views: usize, followers: usize, timestamp: i64) -> Reel {
    Reel {
        url: format!("https://www.instagram.com/reel/{code}/"),
        ratio: Some(Ratio { views, followers }),
        account: "acc".to_string(),
        like: 10,
        comments: 2,
        views: Some(views),
        duration: ReelDuration { secs: 15, nanos: 500_000_000 },
        date: LocalTime { timestamp, offset: 3600 },
        paid_partnership: true,
        caption: "cap".to_string(),
    }
}

fn codes(reels: &[Reel]) -> Vec<String> {
    reels.iter().map(|r| r.url.clone()).collect()
}

#[test]
fn the_set_keeps_each_reel_once_in_arrival_order() {
    let mut set = ReelSet::new();
    assert!(set.is_empty());
    assert!(set.insert(reel("a", 1, 10, 0)));
    assert!(set.insert(reel("b", 5, 10, 0)));
    assert!(!set.insert(reel("a", 1, 10, 0)));
    assert!(set.insert(reel("a", 2, 10, 0)));
    assert_eq!(set.len(), 3);
    let v = set.into_vec();
    assert_eq!(v[0].url, "https://www.instagram.com/reel/a/");
    assert_eq!(v[1].url, "https://www.instagram.com/reel/b/");
    assert_eq!(v[2].views, Some(2));
}

#[test]
fn ranking_puts_the_best_ratio_first() {
    let mut set = ReelSet::new();
    set.insert(reel("low", 1, 100, 0));
    set.insert(reel("high", 90, 100, 0));
    set.insert(reel("mid", 1, 2, 0));
    set.insert(reel("none", 0, 0, 0));
    set.insert(reel("inf", 3, 0, 0));
    set.rank();
    let v = set.into_vec();
    assert_eq!(
        codes(&v),
        vec![
            "https://www.instagram.com/reel/inf/",
            "https://www.instagram.com/reel/high/",
            "https://www.instagram.com/reel/mid/",
            "https://www.instagram.com/reel/low/",
            "https://www.instagram.com/reel/none/",
        ]
    );
}

#[test]
fn a_reel_row_holds_the_reel_fields() {
    let cells = reel_cells(&reel("x", 5, 10, 1431648000));
    assert_eq!(cells.len(), 10);
    match &cells[0] {
        Cell::Formula(f) => assert_eq!(f, "=HYPERLINK(\"https://www.instagram.com/reel/x/\";\"url\")"),
        _ => panic!("formula expected"),
    }
    match &cells[1] {
        Cell::Ratio(r) => assert_eq!(*r, Some(Ratio { views: 5, followers: 10 })),
        _ => panic!("ratio expected"),
    }
    match &cells[5] {
        Cell::Number(n) => assert_eq!(*n, 5),
        _ => panic!("number expected"),
    }
    match &cells[6] {
        Cell::Text(t) => assert_eq!(t, "15.5s"),
        _ => panic!("text expected"),
    }
    match &cells[7] {
        Cell::Bool(b) => assert!(*b),
        _ => panic!("bool expected"),
    }
    match &cells[8] {
        Cell::Text(t) => assert_eq!(t, "15-05-2015 01:00:00"),
        _ => panic!("text expected"),
    }
}

#[test]
fn counts_are_cut_to_32_bits_in_the_sheet() {
    let mut r = reel("big", 5, 10, 0);
    r.like = (1usize << 32) + 3;
    let cells = reel_cells(&r);
    match &cells[3] {
        Cell::Number(n) => assert_eq!(*n, 3),
        _ => panic!("number expected"),
    }
}

#[test]
fn an_empty_sheet_sets_no_column_width() {
    let sheet = write_to_sheet("today", &vec![]);
    assert_eq!(sheet.name, "today");
    assert_eq!(sheet.rows.len(), 1);
    assert!(sheet.column_widths.is_empty());
    let full = write_to_sheet("all", &vec![reel("a", 1, 1, 0)]);
    assert_eq!(full.rows.len(), 2);
    assert_eq!(full.column_widths, vec![(0, 40), (2, 100), (4, 40), (6, 60), (7, 50), (8, 135), (9, 1500)]);
}

#[test]
fn windows_include_both_ends() {
    let reels = vec![reel("a", 1, 1, 100), reel("b", 1, 1, 200), reel("c", 1, 1, 300)];
    assert_eq!(codes(&reels_taken_within(&reels, 200, None)).len(), 2);
    let mid = reels_taken_within(&reels, 100, Some(200));
    assert_eq!(
        codes(&mid),
        vec!["https://www.instagram.com/reel/a/", "https://www.instagram.com/reel/b/"]
    );
}

#[test]
fn no_reels_means_no_report() {
    let today = LocalTime { timestamp: 1431648000, offset: 0 };
    match build_report(&vec![], "cooking", &today) {
        Err(e) => {
            assert_eq!(e, ReportError::NoReels);
            assert_eq!(e.message(), "no reels found");
            assert_eq!(e.notice(), "instagram_reels_scraper: no reels found");
        }
        Ok(_) => panic!("no report expected"),
    }
}

#[test]
fn the_report_has_three_sheets() {
    let today = 1431648000;
    let ranked = vec![
        reel("today", 5, 1, today + 10),
        reel("midnight", 4, 1, today),
        reel("yesterday", 3, 1, today - 100),
        reel("old", 2, 1, today - 86401),
    ];
    let report = build_report(&ranked, "cooking", &LocalTime { timestamp: today, offset: 7200 }).unwrap();
    assert_eq!(report.file_name, "cooking reels 15-05-2015.ods");
    assert_eq!(report.sheets.len(), 3);
    assert_eq!(report.sheets[0].name, "today");
    assert_eq!(report.sheets[0].rows.len(), 3);
    assert_eq!(report.sheets[1].name, "yesterday");
    assert_eq!(report.sheets[1].rows.len(), 3);
    assert_eq!(report.sheets[2].name, "last month");
    assert_eq!(report.sheets[2].rows.len(), 5);
    let link = |row: &Vec<Cell>| match &row[0] {
        Cell::Formula(f) => f.clone(),
        _ => panic!("formula expected"),
    };
    let midnight = "=HYPERLINK(\"https://www.instagram.com/reel/midnight/\";\"url\")";
    assert_eq!(link(&report.sheets[0].rows[2]), midnight);
    assert_eq!(link(&report.sheets[1].rows[1]), midnight);
}

#[test]
fn ranking_keeps_every_reel_once() {
    let mut set = ReelSet::new();
    for (i, views) in [5usize, 1, 9, 1, 5].iter().enumerate() {
        set.insert(reel(&i.to_string(), *views, 3, 0));
    }
    set.insert(reel("0", 5, 3, 0));
    set.rank();
    let v = set.into_vec();
    assert_eq!(v.len(), 5);
    let mut urls = codes(&v);
    urls.sort();
    urls.dedup();
    assert_eq!(urls.len(), 5);
    let views: Vec<usize> = v.iter().map(|r| r.views.unwrap()).collect();
    assert_eq!(views, vec![9, 5, 5, 1, 1]);
}
