use bbsmon::date::{convert_pub_date, present_at, TIMESTAMP_LAYOUT};
use chrono::{Offset, TimeZone};
use bbsmon::item::Item;
use bbsmon::transform::{convert_to_ser_item, convert_to_ser_items};

fn local_text(date: &str) -> String {
    chrono::DateTime::parse_from_rfc2822(date)
        .unwrap()
        .with_timezone(&chrono::Local)
        .format("%Y-%m-%d %H:%M:%S")
        .to_string()
}

fn has_timestamp_shape(text: &str) -> bool {
    let bytes = text.as_bytes();
    bytes.len() == 19
        && bytes.iter().enumerate().all(|(i, b)| match i {
            4 | 7 => *b == b'-',
            10 => *b == b' ',
            13 | 16 => *b == b':',
            _ => b.is_ascii_digit(),
        })
}

#[test]
fn the_layout_is_year_to_second() {
    assert_eq!(TIMESTAMP_LAYOUT, "%Y-%m-%d %H:%M:%S");
}

#[test]
fn a_valid_date_is_rewritten_in_local_time() {
    let given = "Tue, 1 Jul 2003 10:52:37 +0200";
    let shown = convert_pub_date(&Some(given.to_string())).unwrap();
    assert_eq!(shown, local_text(given));
    assert!(has_timestamp_shape(&shown));
    assert_ne!(shown, given);
}

#[test]
fn a_date_in_utc_keeps_its_instant() {
    let given = "Wed, 18 Feb 2015 23:16:09 GMT";
    let shown = convert_pub_date(&Some(given.to_string())).unwrap();
    assert_eq!(shown, local_text(given));
    let offset = chrono::Local::now().offset().local_minus_utc();
    if offset == 0 {
        assert_eq!(shown, "2015-02-18 23:16:09");
    }
}

#[test]
fn a_date_without_a_weekday_is_accepted() {
    let given = "1 Jan 2021 00:00:00 -0500";
    let shown = convert_pub_date(&Some(given.to_string())).unwrap();
    assert_eq!(shown, local_text(given));
    assert!(has_timestamp_shape(&shown));
}

#[test]
fn text_that_is_no_date_is_kept_verbatim() {
    let shown = convert_pub_date(&Some("not-a-date".to_string()));
    assert_eq!(shown, Some("not-a-date".to_string()));
}

#[test]
fn a_date_in_another_format_is_kept_verbatim() {
    let given = "2003-07-01T10:52:37+02:00";
    assert_eq!(convert_pub_date(&Some(given.to_string())), Some(given.to_string()));
}

#[test]
fn an_empty_date_is_kept_empty() {
    assert_eq!(convert_pub_date(&Some(String::new())), Some(String::new()));
}

#[test]
fn an_absent_date_stays_absent() {
    assert_eq!(convert_pub_date(&None), None);
}

#[test]
fn an_entry_keeps_its_other_fields_when_it_is_presented() {
    let item = Item {
        title: Some("t".to_string()),
        link: None,
        description: Some(" d ".to_string()),
        author: None,
        pub_date: Some("Tue, 1 Jul 2003 10:52:37 +0200".to_string()),
    };
    let shown = convert_to_ser_item(&item);
    assert_eq!(shown.title, Some("t".to_string()));
    assert_eq!(shown.link, None);
    assert_eq!(shown.description, Some(" d ".to_string()));
    assert_eq!(shown.author, None);
    assert_eq!(shown.pub_date, Some(local_text("Tue, 1 Jul 2003 10:52:37 +0200")));
}

#[test]
fn an_entry_with_a_bad_date_keeps_it_when_it_is_presented() {
    let item = Item {
        title: None,
        link: Some("http://example.org/x".to_string()),
        description: None,
        author: Some("x@example.org".to_string()),
        pub_date: Some("not-a-date".to_string()),
    };
    let shown = convert_to_ser_item(&item);
    assert_eq!(shown.title, None);
    assert_eq!(shown.link, Some("http://example.org/x".to_string()));
    assert_eq!(shown.description, None);
    assert_eq!(shown.author, Some("x@example.org".to_string()));
    assert_eq!(shown.pub_date, Some("not-a-date".to_string()));
}

#[test]
fn entries_are_presented_one_for_one_and_in_order() {
    let items: Vec<Item> = ["a", "b", "c"]
        .iter()
        .map(|n| Item {
            title: Some(n.to_string()),
            link: None,
            description: None,
            author: None,
            pub_date: None,
        })
        .collect();
    let shown = convert_to_ser_items(&items);
    let titles: Vec<Option<String>> = shown.iter().map(|s| s.title.clone()).collect();
    assert_eq!(
        titles,
        vec![Some("a".to_string()), Some("b".to_string()), Some("c".to_string())]
    );
    assert!(shown.iter().all(|s| s.pub_date.is_none()));
    assert!(convert_to_ser_items(&vec![]).is_empty());
}

/// 2003-07-01 08:52:37 UTC.
const INSTANT: i64 = 1_057_049_557;

#[test]
fn an_instant_is_written_as_it_reads_at_the_offset() {
    assert_eq!(present_at(INSTANT, 0, 0), Some("2003-07-01 08:52:37".to_string()));
    assert_eq!(present_at(INSTANT, 0, 7200), Some("2003-07-01 10:52:37".to_string()));
    assert_eq!(present_at(INSTANT, 0, -32_400), Some("2003-06-30 23:52:37".to_string()));
    assert_eq!(present_at(INSTANT, 999_999_999, 3600 * 16), Some("2003-07-02 00:52:37".to_string()));
    assert_eq!(present_at(0, 0, 0), Some("1970-01-01 00:00:00".to_string()));
    assert_eq!(present_at(-1, 0, 0), Some("1969-12-31 23:59:59".to_string()));
}

#[test]
fn an_offset_is_less_than_a_day() {
    assert_eq!(present_at(INSTANT, 0, 86_399), Some("2003-07-02 08:52:36".to_string()));
    assert_eq!(present_at(INSTANT, 0, -86_399), Some("2003-06-30 08:52:38".to_string()));
    assert_eq!(present_at(INSTANT, 0, 86_400), None);
    assert_eq!(present_at(INSTANT, 0, -86_400), None);
    assert_eq!(present_at(INSTANT, 0, i32::MAX), None);
    assert_eq!(present_at(INSTANT, 0, i32::MIN), None);
}

#[test]
fn what_the_calendar_cannot_hold_has_no_text() {
    assert_eq!(present_at(i64::MAX, 0, 0), None);
    assert_eq!(present_at(i64::MIN, 0, 0), None);
    assert_eq!(present_at(INSTANT, 2_000_000_000, 0), None);
    assert_eq!(present_at(INSTANT, 1_000_000_000, 0), None);
}

#[test]
fn a_leap_second_reads_sixty() {
    assert_eq!(
        present_at(1_483_228_799, 1_000_000_000, 0),
        Some("2016-12-31 23:59:60".to_string())
    );
    assert_eq!(present_at(1_483_228_799, 0, 0), Some("2016-12-31 23:59:59".to_string()));
}

#[test]
fn a_year_of_more_or_less_than_four_digits_is_written_with_its_sign() {
    assert_eq!(present_at(253_402_300_799, 0, 0), Some("9999-12-31 23:59:59".to_string()));
    assert_eq!(present_at(253_402_300_800, 0, 0), Some("+10000-01-01 00:00:00".to_string()));
    assert_eq!(present_at(253_402_300_799, 0, 1), Some("+10000-01-01 00:00:00".to_string()));
    assert_eq!(present_at(-62_167_219_200, 0, 0), Some("0000-01-01 00:00:00".to_string()));
    assert_eq!(present_at(-62_167_219_201, 0, 0), Some("-0001-12-31 23:59:59".to_string()));
    assert_eq!(present_at(-62_135_596_800, 0, 0), Some("0001-01-01 00:00:00".to_string()));
}

#[test]
fn a_parsed_date_is_shown_as_its_instant_at_the_local_offset() {
    let shown = convert_pub_date(&Some("Tue, 1 Jul 2003 10:52:37 +0200".to_string())).unwrap();
    let at_some_offset = (-86_399..86_400)
        .step_by(900)
        .chain([local_offset_of(INSTANT)])
        .any(|offset| present_at(INSTANT, 0, offset) == Some(shown.clone()));
    assert!(at_some_offset);
    assert_eq!(Some(shown), present_at(INSTANT, 0, local_offset_of(INSTANT)));
}

fn local_offset_of(secs: i64) -> i32 {
    let utc = chrono::DateTime::from_timestamp(secs, 0).unwrap().naive_utc();
    chrono::Local.offset_from_utc_datetime(&utc).fix().local_minus_utc()
}

#[test]
fn two_writings_of_one_instant_are_shown_alike() {
    let first = convert_pub_date(&Some("Tue, 1 Jul 2003 10:52:37 +0200".to_string()));
    let second = convert_pub_date(&Some("Tue, 1 Jul 2003 08:52:37 +0000".to_string()));
    let third = convert_pub_date(&Some("1 Jul 2003 03:52:37 EST".to_string()));
    assert_eq!(first, second);
    assert_eq!(first, third);
    let other = convert_pub_date(&Some("Tue, 1 Jul 2003 10:52:37 +0000".to_string()));
    assert_ne!(first, other);
}

#[test]
fn presenting_a_presented_date_again_changes_nothing() {
    let given = [
        Some("Tue, 1 Jul 2003 10:52:37 +0200".to_string()),
        Some("Wed, 18 Feb 2015 23:16:09 GMT".to_string()),
        Some("not-a-date".to_string()),
        Some(String::new()),
        None,
    ];
    for date in given {
        let once = convert_pub_date(&date);
        let twice = convert_pub_date(&once);
        assert_eq!(twice, once);
    }
}

#[test]
fn a_text_in_the_presented_form_is_no_rfc_2822_date() {
    for text in [
        "2003-07-01 10:52:37",
        "0001-01-01 00:00:00",
        "+10000-01-01 00:00:00",
        "-0001-12-31 23:59:59",
        "2016-12-31 23:59:60",
    ] {
        assert_eq!(convert_pub_date(&Some(text.to_string())), Some(text.to_string()));
    }
}
