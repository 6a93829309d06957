use stream_stash::db::{
    check_rating, create_user_error, initial_media_state, parse_date, CalendarDate, DbError, DATE_FORMAT,
};
use stream_stash::media::MediaState;

#[test]
fn ratings_between_one_and_ten_are_accepted() {
    assert!(check_rating(None).is_ok());
    assert!(check_rating(Some(1)).is_ok());
    assert!(check_rating(Some(5)).is_ok());
    assert!(check_rating(Some(10)).is_ok());
}

#[test]
fn ratings_out_of_range_are_refused() {
    assert!(matches!(check_rating(Some(0)), Err(DbError::RatingOutOfRange(0))));
    assert!(matches!(check_rating(Some(11)), Err(DbError::RatingOutOfRange(11))));
    assert!(matches!(check_rating(Some(-3)), Err(DbError::RatingOutOfRange(-3))));
    assert!(matches!(check_rating(Some(i64::MIN)), Err(DbError::RatingOutOfRange(i64::MIN))));
}

#[test]
fn db_error_messages() {
    assert_eq!(DbError::QueryError("no such table".to_string()).message(), "Database query failed: no such table");
    assert_eq!(
        DbError::UserWithGoogleAccountIdAlreadyExists("g1".to_string()).message(),
        "User with this Google account ID already exists: g1"
    );
    assert_eq!(DbError::RatingOutOfRange(11).message(), "Rating must be between 1 and 10, but is 11");
    assert_eq!(DbError::RatingOutOfRange(-2).message(), "Rating must be between 1 and 10, but is -2");
}

#[test]
fn duplicate_google_account_is_recognised() {
    let e = create_user_error(
        Some("UNIQUE constraint failed: users.google_account_id"),
        "error returned from database".to_string(),
        Some("g-123"),
    );
    assert!(matches!(e, DbError::UserWithGoogleAccountIdAlreadyExists(ref s) if s == "g-123"));
    let e = create_user_error(Some("UNIQUE constraint failed: users.google_account_id"), "x".to_string(), None);
    assert!(matches!(e, DbError::UserWithGoogleAccountIdAlreadyExists(ref s) if s.is_empty()));
}

#[test]
fn other_insert_errors_stay_query_errors() {
    let e = create_user_error(Some("disk I/O error"), "disk I/O error".to_string(), Some("g"));
    assert!(matches!(e, DbError::QueryError(ref s) if s == "disk I/O error"));
    let e = create_user_error(None, "pool timed out".to_string(), Some("g"));
    assert!(matches!(e, DbError::QueryError(ref s) if s == "pool timed out"));
}

#[test]
fn dates_written_in_date_format() {
    assert_eq!(DATE_FORMAT, "[year]-[month]-[day]");
    assert_eq!(CalendarDate { year: 2024, month: 3, day: 7 }.to_iso_string(), "2024-03-07");
    assert_eq!(CalendarDate { year: 987, month: 12, day: 31 }.to_iso_string(), "0987-12-31");
    assert_eq!(CalendarDate { year: -5, month: 1, day: 2 }.to_iso_string(), "-0005-01-02");
    assert_eq!(CalendarDate { year: 12345, month: 10, day: 10 }.to_iso_string(), "12345-10-10");
}

#[test]
fn absent_or_empty_dates_are_none() {
    assert_eq!(parse_date(None), Ok(None));
    assert_eq!(parse_date(Some("")), Ok(None));
}

#[test]
fn dates_read_in_date_format() {
    assert_eq!(parse_date(Some("2024-03-07")), Ok(Some(CalendarDate { year: 2024, month: 3, day: 7 })));
    assert_eq!(parse_date(Some("1999-12-31")), Ok(Some(CalendarDate { year: 1999, month: 12, day: 31 })));
}

#[test]
fn invalid_dates_are_refused() {
    assert!(parse_date(Some("2024-13-01")).is_err());
    assert!(parse_date(Some("2023-02-29")).is_err());
    assert!(parse_date(Some("07.03.2024")).is_err());
    assert!(parse_date(Some(" ")).is_err());
}

#[test]
fn written_dates_read_back() {
    let d = CalendarDate { year: 2020, month: 2, day: 29 };
    assert_eq!(parse_date(Some(&d.to_iso_string())), Ok(Some(d)));
}

#[test]
fn new_list_items_are_planned() {
    assert_eq!(initial_media_state(), MediaState::Planned);
}
