//! Texts, times, JSON, digests and ordered collections.
use akzio_domain::error::DomainError;
use akzio_domain::foundation::{
    canonical_json_bytes, content_hash_json, estimate_json_tokens, estimate_tokens_from_bytes,
    id_of_digits, Asset, BlobRef, ContentHash, MoneyMicros, RunId, RunPurpose, TargetPortfolio, TaskStatus,
    WeightPpm,
};
use akzio_domain::json::ToJson;
use akzio_domain::ordered::{OrderedMap, OrderedSet};
use akzio_domain::research::mentions_news;
use akzio_domain::text::{are_alike, has_word, is_blank, marks_word, split_at_first, trim};
use akzio_domain::time::{CalendarDay, ClockTime, UtcTime};

#[test]
fn digest_is_that_of_sha256() {
    assert_eq!(
        ContentHash::of_bytes(b"").as_str(),
        "e3b0c44298fc1c149afbf4c8996fb92427ae41e4649b934ca495991b7852b855"
    );
    assert_eq!(
        ContentHash::of_bytes(b"abc").as_str(),
        "ba7816bf8f01cfea414140de5dae2223b00361a396177a9cb410ff61f20015ad"
    );
}

#[test]
fn digest_is_read_in_lower_case_only() {
    assert!(ContentHash::new(&"a".repeat(64)).is_ok());
    for wrong in ["A".repeat(64), "g".repeat(64), "a".repeat(63)] {
        assert_eq!(
            ContentHash::new(&wrong),
            Err(DomainError::InvalidContentHash)
        );
    }
}

#[test]
fn json_is_compact_with_sorted_members() {
    let value: serde_json::Value =
        serde_json::from_str(r#"{"b": [1, true, null], "a": "x"}"#).unwrap();
    let bytes = canonical_json_bytes(&value).unwrap();
    assert_eq!(bytes, br#"{"a":"x","b":[1,true,null]}"#);
    assert_eq!(
        content_hash_json(&value).unwrap(),
        ContentHash::of_bytes(&bytes)
    );
    assert_eq!(estimate_json_tokens(&value).unwrap(), 7);
}

#[test]
fn four_bytes_are_a_token() {
    assert_eq!(estimate_tokens_from_bytes(0), 1);
    assert_eq!(estimate_tokens_from_bytes(4), 1);
    assert_eq!(estimate_tokens_from_bytes(5), 2);
    assert_eq!(estimate_tokens_from_bytes(u64::MAX), u32::MAX);
}

#[test]
fn assets_are_named_by_their_symbols() {
    for asset in Asset::EXECUTABLE {
        assert_eq!(Asset::try_from(asset.symbol()), Ok(asset));
    }
    assert_eq!(Asset::try_from(" soxl\n"), Ok(Asset::Soxl));
    assert_eq!(
        Asset::try_from(" spy "),
        Err(DomainError::UnsupportedAsset("SPY".to_owned()))
    );
}

#[test]
fn target_needs_a_weight_for_every_asset() {
    let zeroed = TargetPortfolio::zeroed();
    assert_eq!(zeroed.validate_universe(), Ok(()));
    assert_eq!(zeroed.weights.get(&Asset::Soxx), Some(&WeightPpm(0)));
    let partial = TargetPortfolio {
        weights: OrderedMap::from_entries(vec![(Asset::Qqq, WeightPpm(5))]),
    };
    assert_eq!(
        partial.validate_universe(),
        Err(DomainError::InvalidTargetUniverse)
    );
}

#[test]
fn cents_are_ten_thousand_micros() {
    assert_eq!(MoneyMicros::from_usd_cents(12_345), MoneyMicros(123_450_000));
    assert_eq!(MoneyMicros::from_usd_cents(i64::MAX), MoneyMicros(i64::MAX));
    assert_eq!(MoneyMicros::from_usd_cents(i64::MIN), MoneyMicros(i64::MIN));
}

#[test]
fn fresh_identifiers_differ() {
    let one = RunId::new();
    let other = RunId::new();
    assert_ne!(one, other);
    assert_eq!(one.0.len(), 16);
    assert_eq!(one.0.chars().nth(12), Some('4'));
    assert!(one.0.chars().all(|c| c.is_ascii_digit() || ('a'..='f').contains(&c)));
}

#[test]
fn identifier_is_the_first_half_of_the_digits() {
    assert_eq!(
        id_of_digits("0123456789ab4def8123456789abcdef"),
        "0123456789ab4def"
    );
}

#[test]
fn only_paper_runs_teach() {
    assert!(RunPurpose::Paper.is_canonical_learning());
    assert!(!RunPurpose::Replay.is_canonical_learning());
    assert!(TaskStatus::Succeeded.is_terminal());
    assert!(!TaskStatus::Running.is_terminal());
}

#[test]
fn blob_needs_a_media_type() {
    let mut blob = BlobRef {
        hash: ContentHash::of_bytes(b"x"),
        media_type: "text/plain".to_owned(),
        bytes: 1,
    };
    assert_eq!(blob.validate(), Ok(()));
    blob.media_type = "\t".to_owned();
    assert!(matches!(
        blob.validate(),
        Err(DomainError::EmptyField { .. })
    ));
}

#[test]
fn texts_are_trimmed_and_compared() {
    assert_eq!(trim("\u{2003} a b \n"), "a b");
    assert!(is_blank(" \u{a0}\t"));
    assert!(!is_blank(" x "));
    assert!(are_alike(" Abc", "aBC "));
    assert!(!are_alike("abc", "abd"));
    assert_eq!(
        split_at_first("a:b:c", ':'),
        Some(("a".to_owned(), "b:c".to_owned()))
    );
    assert_eq!(split_at_first("abc", ':'), None);
}

#[test]
fn words_stand_between_other_characters() {
    assert!(has_word("any news?", "news"));
    assert!(!has_word("newspaper", "news"));
    assert!(!has_word("énews", "news"));
    let text: Vec<char> = "a-b".chars().collect();
    assert!(marks_word(&text, &vec![true, false, true], "b"));
    assert!(!marks_word(&text, &vec![true, true, true], "b"));
    assert!(mentions_news("新闻"));
    assert!(mentions_news("the news"));
    assert!(!mentions_news("NEWS"));
}

#[test]
fn instants_are_written_and_compared() {
    let instant = UtcTime::from_timestamp(1_788_480_000, 250_000_000).unwrap();
    assert_eq!(instant.rfc3339(), "2026-09-04T00:00:00.250Z");
    assert_eq!(instant.text(), "2026-09-04 00:00:00.250 UTC");
    assert_eq!(
        instant.to_json(),
        serde_json::Value::String("2026-09-04T00:00:00.250Z".to_owned())
    );
    let later = instant.plus_days(2);
    assert!(instant.is_before(&later));
    assert_eq!(later.seconds_since(&instant), 172_800);
    assert_eq!(instant.millis_since(&later), -172_800_000);
    assert!(!later.is_more_than_days_after(&instant, 2));
    assert!(later.is_more_than_days_after(&instant, 1));
    assert_eq!(UtcTime::from_timestamp(0, 2_000_000_000), None);
}

#[test]
fn leap_second_is_kept_where_it_was() {
    let day = CalendarDay::parse("1880-01-01").unwrap();
    let time = ClockTime::from_seconds(34_259, 1_500_000_000).unwrap();
    let instant = UtcTime::from_new_york(&day, &time).unwrap();
    assert_eq!(instant.timestamp(), -2_840_088_779);
    assert_eq!(instant.subsec_nanos(), 1_500_000_000);
    assert_eq!(instant.rfc3339(), "1880-01-01T14:27:02.500Z");
    assert_eq!(instant.new_york_date(), day);
    assert_eq!(instant.plus_days(1).subsec_nanos(), 500_000_000);
}

#[test]
fn last_instant_has_a_day_in_new_york() {
    let last = UtcTime::from_timestamp(8_210_266_876_799, 1_999_999_999).unwrap();
    assert_eq!(last.new_york_date(), last.date());
    let first = UtcTime::from_timestamp(-8_334_601_228_800 + 17_762, 0).unwrap();
    assert_eq!(first.new_york_date(), first.date());
}

#[test]
fn days_and_times_are_read() {
    let day = CalendarDay::parse("2026-09-04").unwrap();
    assert_eq!(day.text(), "2026-09-04");
    assert_eq!(day.plus(-4).unwrap().text(), "2026-08-31");
    assert_eq!(CalendarDay::parse("2026-02-30"), None);
    let open = ClockTime::parse("09:30", "%H:%M").unwrap();
    assert_eq!(open.seconds(), 34_200);
    assert_eq!(ClockTime::parse("9h", "%H:%M"), None);
}

#[test]
fn new_york_is_behind_the_universal_time() {
    let day = CalendarDay::parse("2026-09-04").unwrap();
    let open = ClockTime::parse("09:30", "%H:%M").unwrap();
    let instant = UtcTime::from_new_york(&day, &open).unwrap();
    assert_eq!(instant.rfc3339(), "2026-09-04T13:30:00Z");
    assert_eq!(instant.date(), day);
    let midnight = UtcTime::from_timestamp(instant.timestamp() + 12 * 3_600, 0).unwrap();
    assert_eq!(midnight.date().text(), "2026-09-05");
    assert_eq!(midnight.new_york_date(), day);
    let skipped = CalendarDay::parse("2026-03-08").unwrap();
    let gap = ClockTime::parse("02:30", "%H:%M").unwrap();
    assert_eq!(UtcTime::from_new_york(&skipped, &gap), None);
}

#[test]
fn sets_hold_each_key_once_and_in_order() {
    let mut set = OrderedSet::from_vec(vec![3u32, 1, 3, 2].iter().map(|n| n.to_string()).collect());
    assert_eq!(set.len(), 3);
    assert!(!set.insert("2".to_owned()));
    assert!(set.insert("0".to_owned()));
    assert_eq!(set.clone().into_vec(), vec!["0", "1", "2", "3"]);
    let other = OrderedSet::from_vec(vec!["9".to_owned()]);
    assert!(set.is_disjoint(&other));
    assert!(!other.is_subset(&set));
    assert_eq!(set.common(&other), 0);
    set.extend_from(&other);
    assert!(other.is_subset(&set));
    assert_eq!(set.to_json().to_string(), r#"["0","1","2","3","9"]"#);
}

#[test]
fn maps_keep_the_last_value_of_a_key() {
    let mut map = OrderedMap::from_entries(vec![
        ("b".to_owned(), 1u32),
        ("a".to_owned(), 2),
        ("b".to_owned(), 3),
    ]);
    assert_eq!(map.len(), 2);
    assert_eq!(map.get(&"b".to_owned()), Some(&3));
    map.insert("c".to_owned(), 4);
    assert_eq!(map.to_json().to_string(), r#"{"a":2,"b":3,"c":4}"#);
}
