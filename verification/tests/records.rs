use duckduckgo::json::{Json, JsonNumber};
use duckduckgo::response::{ImageResult, NewsResult};

fn parse(text: &str) -> Json {
    Json::parse(text).unwrap()
}

#[test]
fn image_from_a_full_item() {
    let item = parse(
        r#"{"title": "Ferris", "image": "https://i.example/f.png", "thumbnail": "https://t.example/f.png",
            "url": "https://page.example/", "height": 600, "width": 800, "source": "Bing"}"#,
    );
    let hit = ImageResult::from_json(&item);
    assert_eq!(
        hit,
        ImageResult {
            title: "Ferris".to_string(),
            image: "https://i.example/f.png".to_string(),
            thumbnail: "https://t.example/f.png".to_string(),
            url: "https://page.example/".to_string(),
            height: 600,
            width: 800,
            source: "Bing".to_string(),
        }
    );
}

#[test]
fn image_without_height_reads_zero() {
    let item = parse(r#"{"title": "t", "image": "i", "thumbnail": "th", "url": "u", "width": 800, "source": "s"}"#);
    let hit = ImageResult::from_json(&item);
    assert_eq!(hit.height, 0);
    assert_eq!(hit.width, 800);
    assert_eq!(hit.title, "t");
}

#[test]
fn image_with_wrong_types_reads_defaults() {
    let item = parse(r#"{"title": 5, "image": null, "thumbnail": ["x"], "url": {"a": 1}, "height": "600", "width": -3, "source": true}"#);
    let hit = ImageResult::from_json(&item);
    assert_eq!(
        hit,
        ImageResult {
            title: String::new(),
            image: String::new(),
            thumbnail: String::new(),
            url: String::new(),
            height: 0,
            width: 0,
            source: String::new(),
        }
    );
}

#[test]
fn image_from_what_is_no_object() {
    let hit = ImageResult::from_json(&Json::Array(vec![]));
    assert_eq!(hit.title, "");
    assert_eq!(hit.height, 0);
    let hit = ImageResult::from_json(&Json::Null);
    assert_eq!(hit.url, "");
}

#[test]
fn image_sizes_keep_their_low_32_bits() {
    let item = Json::Object(vec![
        ("height".to_string(), Json::Number(JsonNumber::Unsigned(4_294_967_296 + 7))),
        ("width".to_string(), Json::Number(JsonNumber::Unsigned(4_294_967_295))),
    ]);
    let hit = ImageResult::from_json(&item);
    assert_eq!(hit.height, 7);
    assert_eq!(hit.width, u32::MAX);
}

#[test]
fn image_sizes_that_are_reals_read_zero() {
    let item = parse(r#"{"height": 600.0, "width": 1e3}"#);
    let hit = ImageResult::from_json(&item);
    assert_eq!(hit.height, 0);
    assert_eq!(hit.width, 0);
}

#[test]
fn image_round_trip_keeps_the_field_values() {
    let item = parse(
        r#"{"title": "Ferris", "image": "https://i.example/f.png", "thumbnail": "https://t.example/f.png",
            "url": "https://page.example/", "height": 600, "width": 800, "source": "Bing"}"#,
    );
    let written = ImageResult::from_json(&item).to_json();
    for key in ["title", "image", "thumbnail", "url", "source"] {
        assert_eq!(written.get(key).unwrap().as_str(), item.get(key).unwrap().as_str());
    }
    for key in ["height", "width"] {
        assert_eq!(written.get(key).unwrap().as_u64(), item.get(key).unwrap().as_u64());
    }
    match &written {
        Json::Object(entries) => assert_eq!(entries.len(), 7),
        other => panic!("unexpected: {:?}", other),
    }
    assert_eq!(ImageResult::from_json(&written), ImageResult::from_json(&item));
}

#[test]
fn news_from_a_full_item() {
    let item = parse(
        r#"{"date": 1431648000, "title": "Rust 1.0", "excerpt": "It is out.", "url": "https://news.example/1",
            "image": "https://news.example/1.png", "source": "The Blog"}"#,
    );
    let hit = NewsResult::from_json(&item);
    assert_eq!(
        hit,
        NewsResult {
            date: "2015-05-15T00:00:00+00:00".to_string(),
            title: "Rust 1.0".to_string(),
            body: "It is out.".to_string(),
            url: "https://news.example/1".to_string(),
            image: Some("https://news.example/1.png".to_string()),
            source: "The Blog".to_string(),
        }
    );
}

#[test]
fn news_dates_are_utc_rfc3339() {
    let at = |seconds: i64| {
        let item = Json::Object(vec![(
            "date".to_string(),
            if seconds < 0 {
                Json::Number(JsonNumber::Negative(seconds))
            } else {
                Json::Number(JsonNumber::Unsigned(seconds as u64))
            },
        )]);
        NewsResult::from_json_at(&item, "NOW").date
    };
    assert_eq!(at(0), "1970-01-01T00:00:00+00:00");
    assert_eq!(at(-1), "1969-12-31T23:59:59+00:00");
    assert_eq!(at(1_700_000_000), "2023-11-14T22:13:20+00:00");
    assert_eq!(at(951_782_400), "2000-02-29T00:00:00+00:00");
}

#[test]
fn news_date_out_of_range_reads_now() {
    let item = Json::Object(vec![("date".to_string(), Json::Number(JsonNumber::Unsigned(i64::MAX as u64)))]);
    assert_eq!(NewsResult::from_json_at(&item, "NOW").date, "NOW");
    let item = Json::Object(vec![("date".to_string(), Json::Number(JsonNumber::Negative(i64::MIN)))]);
    assert_eq!(NewsResult::from_json_at(&item, "NOW").date, "NOW");
    let item = Json::Object(vec![("date".to_string(), Json::Number(JsonNumber::Unsigned(u64::MAX)))]);
    assert_eq!(NewsResult::from_json_at(&item, "NOW").date, "NOW");
}

#[test]
fn news_date_that_is_no_number_reads_now() {
    let item = parse(r#"{"date": "not-a-number", "title": "t", "excerpt": "e", "url": "u", "source": "s"}"#);
    let hit = NewsResult::from_json_at(&item, "2024-01-02T03:04:05+00:00");
    assert_eq!(hit.date, "2024-01-02T03:04:05+00:00");
    assert_eq!(hit.title, "t");
    assert_eq!(hit.body, "e");
    assert_eq!(hit.image, None);
}

#[test]
fn news_date_fallback_is_the_current_time() {
    let item = parse(r#"{"date": "not-a-number", "title": "t"}"#);
    let before = chrono::Utc::now();
    let hit = NewsResult::from_json(&item);
    let after = chrono::Utc::now();
    let read = chrono::DateTime::parse_from_rfc3339(&hit.date).expect("an RFC 3339 time");
    assert!(before <= read && read <= after);
    assert_eq!(hit.title, "t");
}

#[test]
fn news_date_fallback_has_the_shape_of_a_utc_time() {
    let hit = NewsResult::from_json(&parse(r#"{"date": "not-a-number"}"#));
    let date: Vec<char> = hit.date.chars().collect();
    assert!(date.len() >= 25);
    assert!(hit.date.ends_with("+00:00"));
    assert!(date[..4].iter().all(|c| c.is_ascii_digit()));
    assert_eq!((date[4], date[7], date[10], date[13], date[16]), ('-', '-', 'T', ':', ':'));
    for at in [5, 6, 8, 9, 11, 12, 14, 15, 17, 18] {
        assert!(date[at].is_ascii_digit());
    }
    let fraction = date.len() - 25;
    assert!(fraction == 0 || fraction == 4 || fraction == 7 || fraction == 10);
    if fraction > 0 {
        assert_eq!(date[19], '.');
        assert!(date[20..19 + fraction].iter().all(|c| c.is_ascii_digit()));
    }
    assert_ne!(hit.date, "not-a-number");
}

#[test]
fn news_without_a_date_reads_the_current_time() {
    let hit = NewsResult::from_json(&parse(r#"{"title": "t"}"#));
    assert!(chrono::DateTime::parse_from_rfc3339(&hit.date).is_ok());
    let hit = NewsResult::from_json(&parse(r#"{"date": 1.5}"#));
    assert!(chrono::DateTime::parse_from_rfc3339(&hit.date).is_ok());
}

#[test]
fn news_from_json_keeps_a_date_that_is_given() {
    let hit = NewsResult::from_json(&parse(r#"{"date": 86400}"#));
    assert_eq!(hit.date, "1970-01-02T00:00:00+00:00");
}

#[test]
fn news_image_is_optional() {
    let hit = NewsResult::from_json_at(&parse(r#"{"image": 5}"#), "NOW");
    assert_eq!(hit.image, None);
    let hit = NewsResult::from_json_at(&parse(r#"{"image": ""}"#), "NOW");
    assert_eq!(hit.image, Some(String::new()));
    let hit = NewsResult::from_json_at(&parse(r#"{"image": null}"#), "NOW");
    assert_eq!(hit.image, None);
}

#[test]
fn news_round_trip_keeps_the_field_values() {
    let item = parse(
        r#"{"date": 1431648000, "title": "Rust 1.0", "excerpt": "It is out.", "url": "https://news.example/1",
            "image": "https://news.example/1.png", "source": "The Blog"}"#,
    );
    let written = NewsResult::from_json(&item).to_json();
    for key in ["title", "excerpt", "url", "image", "source"] {
        assert_eq!(written.get(key).unwrap().as_str(), item.get(key).unwrap().as_str());
    }
    assert_eq!(written.get("date").unwrap().as_str(), Some("2015-05-15T00:00:00+00:00"));
    match &written {
        Json::Object(entries) => assert_eq!(entries.len(), 6),
        other => panic!("unexpected: {:?}", other),
    }
}

#[test]
fn news_round_trip_without_image() {
    let item = parse(r#"{"date": 0, "title": "t", "excerpt": "e", "url": "u", "source": "s"}"#);
    let written = NewsResult::from_json(&item).to_json();
    assert!(written.get("image").is_none());
    assert_eq!(written.get("excerpt").unwrap().as_str(), Some("e"));
    match &written {
        Json::Object(entries) => assert_eq!(entries.len(), 5),
        other => panic!("unexpected: {:?}", other),
    }
}
