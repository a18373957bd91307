use instagram_reels_scraper::text::{contains, decimal_text, ends_with, parse_usize, remove_commas, starts_with};

#[test]
fn decimal_text_writes_numbers_as_to_string_does() {
    for n in [0usize, 7, 9, 10, 42, 100, 1234, 99999, usize::MAX] {
        assert_eq!(decimal_text(n), n.to_string());
    }
}

#[test]
fn parse_usize_accepts_what_std_accepts() {
    let cases = [
        "0", "7", "+5", "007", "1234", "", "+", "-", "-0", "-5", "12a", " 12", "12 ", "++1",
        "1,234", "18446744073709551615", "18446744073709551616", "99999999999999999999999",
    ];
    for c in cases {
        assert_eq!(parse_usize(c), c.parse::<usize>().ok(), "case {c:?}");
    }
}

#[test]
fn parse_usize_reads_back_decimal_text() {
    for n in [0usize, 1, 10, 65535, 4294967296, usize::MAX] {
        assert_eq!(parse_usize(&decimal_text(n)), Some(n));
    }
}

#[test]
fn remove_commas_drops_every_comma() {
    assert_eq!(remove_commas("1,234,567"), "1234567");
    assert_eq!(remove_commas(",,"), "");
    assert_eq!(remove_commas("no commas"), "no commas");
    assert_eq!(remove_commas("é,ü"), "éü");
}

#[test]
fn searches_agree_with_str() {
    let texts = ["", "abc", "https://www.instagram.com/api/v1/media/123/info/", "ééa"];
    let patterns = ["", "a", "bc", "/info/", "/api/v1/media/", "éa", "abcd"];
    for t in texts {
        for p in patterns {
            assert_eq!(starts_with(t, p), t.starts_with(p), "{t:?} {p:?}");
            assert_eq!(ends_with(t, p), t.ends_with(p), "{t:?} {p:?}");
            assert_eq!(contains(t, p), t.contains(p), "{t:?} {p:?}");
        }
    }
}
