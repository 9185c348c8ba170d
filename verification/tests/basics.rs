use control_api::clock::{in_nanoseconds, now_nanoseconds, Timestamp};
use control_api::error::AppError;
use control_api::ids::Uuid;
use control_api::text::{
    decimal_of_i64, decimal_of_u64, is_blank, is_one_of, split_once, split_words, trim_slashes,
};

#[test]
fn uuids_read_what_they_write() {
    let id = Uuid::new_v4();
    let text = id.to_text();
    assert_eq!(text.len(), 36);
    assert_eq!(&text[14..15], "4");
    assert_eq!(Uuid::parse(&text), Some(id));
    assert_eq!(Uuid::parse(&id.to_simple_text()), Some(id));
    assert_eq!(Uuid::parse("nope"), None);
    assert_ne!(id, Uuid::new_v4());
}

#[test]
fn uuid_texts() {
    let id = Uuid { bits: 0x550e8400_e29b_41d4_a716_446655440000 };
    assert_eq!(id.to_text(), "550e8400-e29b-41d4-a716-446655440000");
    assert_eq!(id.to_simple_text(), "550e8400e29b41d4a716446655440000");
}

#[test]
fn words_are_split_at_white_space() {
    assert_eq!(split_words(" a  b\tc\n"), vec!["a", "b", "c"]);
    assert_eq!(split_words("\u{2003}x\u{00a0}y"), vec!["x", "y"]);
    assert!(split_words("  ").is_empty());
}

#[test]
fn small_text_helpers() {
    assert!(is_blank(" \u{3000}\t"));
    assert!(!is_blank("x"));
    assert!(is_one_of("b", &["a", "b"]));
    assert!(!is_one_of("c", &["a", "b"]));
    assert_eq!(split_once("a:b:c", ':'), Some(("a".to_owned(), "b:c".to_owned())));
    assert_eq!(split_once("abc", ':'), None);
    assert_eq!(trim_slashes("a/b//"), "a/b");
}

#[test]
fn uuids_have_sixteen_bytes() {
    let id = Uuid { bits: 0x0123_4567_89ab_cdef_fedc_ba98_7654_3210 };
    assert_eq!(
        id.to_bytes(),
        [0x01, 0x23, 0x45, 0x67, 0x89, 0xab, 0xcd, 0xef, 0xfe, 0xdc, 0xba, 0x98, 0x76, 0x54, 0x32, 0x10]
    );
}

#[test]
fn numbers_in_decimal() {
    assert_eq!(decimal_of_u64(0), "0");
    assert_eq!(decimal_of_u64(u64::MAX), "18446744073709551615");
    assert_eq!(decimal_of_i64(i64::MIN), "-9223372036854775808");
    assert_eq!(decimal_of_i64(-7), "-7");
}

#[test]
fn times() {
    assert_eq!(Timestamp { micros: 0 }.to_text(), "1970-01-01T00:00:00+00:00");
    assert_eq!(Timestamp { micros: 1_700_000_000_000_000 }.to_json(), "2023-11-14T22:13:20Z");
    assert_eq!(in_nanoseconds(1_700_000_000, 250), 1_700_000_000_000_000_250);
    assert_eq!(in_nanoseconds(-1, 1), -999_999_999);
    let now = chrono::Utc::now().timestamp_nanos_opt().unwrap() as i128;
    assert!((now_nanoseconds() - now).abs() < 5_000_000_000);
}

#[test]
fn statuses() {
    assert_eq!(AppError::InvalidInput.status(), 400);
    assert_eq!(AppError::Unauthorized.status(), 401);
    assert_eq!(AppError::SessionExpired.status(), 401);
    assert_eq!(AppError::InsufficientRole.status(), 403);
    assert_eq!(AppError::NotFound.status(), 404);
    assert_eq!(AppError::EmailTaken.status(), 409);
    assert_eq!(AppError::RateLimited.status(), 429);
    assert_eq!(AppError::Internal.status(), 500);
    assert_eq!(AppError::GithubExchangeFailed.status(), 502);
    assert_eq!(AppError::ServiceUnavailable.status(), 503);
}
