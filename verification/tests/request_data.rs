use relay_broker::config::{custom_timestamp, Config, EPOCH_FORMAT};
use relay_broker::request_data::Body;
use relay_broker::text::{char_count, same_text};

#[test]
fn body_holds_text_and_base64() {
    let body = Body::from_bytes(b"hi");
    assert_eq!(body.raw(), "hi");
    assert_eq!(body.base64(), "aGk=");
    let body = Body::from_bytes(b"hello world~");
    assert_eq!(body.raw(), "hello world~");
    assert_eq!(body.base64(), "aGVsbG8gd29ybGR+");
    let body = Body::from_bytes(b"");
    assert_eq!(body.raw(), "");
    assert_eq!(body.base64(), "");
    let body = Body::from_bytes(&[0xfb, 0xff]);
    assert_eq!(body.base64(), "+/8=");
}

#[test]
fn body_replaces_invalid_utf8() {
    let body = Body::from_bytes(&[b'a', 0xff, b'b']);
    assert_eq!(body.raw(), "a\u{fffd}b");
    assert_eq!(body.base64(), "Yf9i");
    let copy = body.clone();
    assert_eq!(copy.raw(), "a\u{fffd}b");
    let made = Body::new("r".to_string(), "cg==".to_string());
    assert_eq!((made.raw(), made.base64()), ("r", "cg=="));
}

#[test]
fn body_of_any_slice_can_be_tried() {
    let body = Body::try_from_bytes(b"abc").unwrap();
    assert_eq!(body.base64(), "YWJj");
    assert_eq!(body.raw(), "abc");
}

#[test]
fn text_helpers_compare_and_count_characters() {
    assert!(same_text("abc", "abc"));
    assert!(!same_text("abc", "abd"));
    assert!(!same_text("abc", "ab"));
    assert!(same_text("", ""));
    assert_eq!(char_count(""), 0);
    assert_eq!(char_count("abc"), 3);
    assert_eq!(char_count("äöü"), 3);
}

#[test]
fn config_hands_out_its_values() {
    let config = Config::new(
        "/srv/ui".to_string(),
        "2020-01-01 00:00:00".to_string(),
        3600,
        86400,
        "auth.sqlite".to_string(),
        "/run/secret".to_string(),
    );
    assert_eq!(config.ui_path(), "/srv/ui");
    assert_eq!(config.cleanup_interval(), 3600);
    assert_eq!(config.max_age(), 86400);
    assert_eq!(config.auth_db(), "auth.sqlite");
    assert_eq!(config.secret_path(), "/run/secret");
    let epoch = config.get_epoch().unwrap();
    assert_eq!(epoch.format(EPOCH_FORMAT).to_string(), "2020-01-01 00:00:00");
}

#[test]
fn config_rejects_an_epoch_in_another_form() {
    let config = Config::new(
        String::new(),
        "01.01.2020".to_string(),
        0,
        0,
        String::new(),
        String::new(),
    );
    assert!(config.get_epoch().is_none());
}

#[test]
fn timestamp_counts_seconds_since_the_epoch() {
    let now = chrono::offset::Local::now().naive_local();
    let hour_ago = now - chrono::TimeDelta::try_seconds(3600).unwrap();
    let seconds = custom_timestamp(hour_ago);
    assert!((3600..3660).contains(&seconds));
    let in_an_hour = now + chrono::TimeDelta::try_seconds(3600).unwrap();
    let seconds = custom_timestamp(in_an_hour);
    assert!((-3600..-3540).contains(&seconds));
}
