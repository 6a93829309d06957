//! The records the application stores, and the rules it checks before storing them.
use vstd::prelude::*;
use crate::media::{MediaState, MediaType};
use crate::text::{str_concat, decimal, i64_to_string, owned, str_equal, u64_digits, nat_decimal, string_from_chars};

verus! {

/// Why a database operation failed.
#[derive(Debug)]
pub enum DbError {
    /// The query itself failed; the text is the database's error.
    QueryError(String),
    UserWithGoogleAccountIdAlreadyExists(String),
    RatingOutOfRange(i64),
}

/// The text of a database error, as it is reported.
pub open spec fn db_error_message(e: DbError) -> Seq<char> {
    match e {
        DbError::QueryError(s) => "Database query failed: "@ + s@,
        DbError::UserWithGoogleAccountIdAlreadyExists(s) => "User with this Google account ID already exists: "@ + s@,
        DbError::RatingOutOfRange(r) => "Rating must be between 1 and 10, but is "@ + decimal(r as int),
    }
}

impl DbError {
    /// The text of this error, as it is reported.
    pub fn message(&self) -> (s: String)
        ensures
            s@ == db_error_message(*self),
    {
        match self {
            DbError::QueryError(s) => str_concat("Database query failed: ", s.as_str()),
            DbError::UserWithGoogleAccountIdAlreadyExists(s) => str_concat(
                "User with this Google account ID already exists: ",
                s.as_str(),
            ),
            DbError::RatingOutOfRange(r) => str_concat(
                "Rating must be between 1 and 10, but is ",
                i64_to_string(*r).as_str(),
            ),
        }
    }
}

/// A rating is accepted when absent or between 1 and 10.
pub open spec fn rating_ok(rating: Option<i64>) -> bool {
    match rating {
        Some(r) => 1 <= r <= 10,
        None => true,
    }
}

/// Checks a rating before it is stored: `RatingOutOfRange` unless it is absent or between
/// 1 and 10.
pub fn check_rating(rating: Option<i64>) -> (r: Result<(), DbError>)
    ensures
        rating_ok(rating) ==> r is Ok,
        !rating_ok(rating) ==> (r matches Err(DbError::RatingOutOfRange(x)) && Some(x) == rating),
        rating is None ==> r is Ok,
        forall|x: i64| rating == Some(x) && 1 <= x && x <= 10 ==> r is Ok,
        forall|x: i64|
            rating == Some(x) && (x < 1 || x > 10) ==> (r matches Err(DbError::RatingOutOfRange(y)) && y
                == x),
{
    match rating {
        Some(x) => if !(1 <= x && x <= 10) {
            Err(DbError::RatingOutOfRange(x))
        } else {
            Ok(())
        },
        None => Ok(()),
    }
}

/// A rating is accepted exactly when it is absent or one of 1 to 10; any other number is
/// refused.
pub proof fn law_ratings_accepted_between_one_and_ten(x: i64)
    ensures
        rating_ok(None),
        rating_ok(Some(x)) <==> (1 <= x && x <= 10),
        rating_ok(Some(1)) && rating_ok(Some(5)) && rating_ok(Some(8)) && rating_ok(Some(10)),
        !rating_ok(Some(0)) && !rating_ok(Some(11)),
{
}

/// The database's message for a second user with the same Google account id.
pub open spec fn duplicate_google_account_message() -> Seq<char> {
    "UNIQUE constraint failed: users.google_account_id"@
}

/// The error for a failed user insert: a duplicate Google account id (recognised by the
/// database's message) becomes `UserWithGoogleAccountIdAlreadyExists` with that id (empty
/// where none was given); anything else stays a `QueryError` with the error's text.
pub fn create_user_error(
    database_message: Option<&str>,
    error_text: String,
    google_account_id: Option<&str>,
) -> (e: DbError)
    ensures
        (match database_message {
            Some(m) => m@ == duplicate_google_account_message(),
            None => false,
        }) ==> (e matches DbError::UserWithGoogleAccountIdAlreadyExists(s) && s@ == match google_account_id {
            Some(g) => g@,
            None => Seq::<char>::empty(),
        }),
        !(match database_message {
            Some(m) => m@ == duplicate_google_account_message(),
            None => false,
        }) ==> (e matches DbError::QueryError(s) && s@ == error_text@),
{
    let duplicate = match database_message {
        Some(m) => str_equal(m, "UNIQUE constraint failed: users.google_account_id"),
        None => false,
    };
    if duplicate {
        DbError::UserWithGoogleAccountIdAlreadyExists(match google_account_id {
            Some(g) => owned(g),
            None => String::new(),
        })
    } else {
        DbError::QueryError(error_text)
    }
}

/// A calendar date.
#[derive(Debug, Clone, Copy, PartialEq, Eq, Structural)]
pub struct CalendarDate {
    pub year: i32,
    pub month: u8,
    pub day: u8,
}

/// A date and time of day, without a time zone.
#[derive(Debug, Clone, Copy, PartialEq, Eq, Structural)]
pub struct CalendarDateTime {
    pub date: CalendarDate,
    pub hour: u8,
    pub minute: u8,
    pub second: u8,
    pub nanosecond: u32,
}

/// The RFC 2822 text of the date and time `dt` taken as UTC, or the text of the error where
/// its parts do not form a date and time or it cannot be written in that format.
pub uninterp spec fn rfc2822_result(dt: CalendarDateTime) -> Result<Seq<char>, Seq<char>>;

/// `OffsetDateTime::format` with `Rfc2822`, of `dt` built with `Date::from_calendar_date`
/// and `Time::from_hms_nano` and taken as UTC (`assume_utc`); the text or the error's text.
/// The contract names the result; it does not describe the format.
#[verifier::external_body]
pub(crate) fn format_rfc2822(dt: CalendarDateTime) -> (r: Result<String, String>)
    ensures
        match r {
            Ok(s) => rfc2822_result(dt) == Ok::<Seq<char>, Seq<char>>(s@),
            Err(e) => rfc2822_result(dt) == Err::<Seq<char>, Seq<char>>(e@),
        },
{
    let month = time::Month::try_from(dt.date.month).map_err(|e| e.to_string())?;
    let date = time::Date::from_calendar_date(dt.date.year, month, dt.date.day).map_err(|e| e.to_string())?;
    let clock = time::Time::from_hms_nano(dt.hour, dt.minute, dt.second, dt.nanosecond).map_err(|e| e.to_string())?;
    let utc = time::PrimitiveDateTime::new(date, clock).assume_utc();
    utc.format(&time::format_description::well_known::Rfc2822).map_err(|e| e.to_string())
}

/// `n` written with at least `width` digits, padded with zeros.
pub open spec fn zero_padded(n: nat, width: nat) -> Seq<char> {
    let d = nat_decimal(n);
    if d.len() < width {
        Seq::new((width - d.len()) as nat, |i: int| '0') + d
    } else {
        d
    }
}

/// A date as `[year]-[month]-[day]` writes it: the year with at least four digits and a
/// `-` when negative, month and day with two digits.
pub open spec fn iso_date_text(d: CalendarDate) -> Seq<char> {
    let y = if d.year < 0 {
        seq!['-'] + zero_padded((-d.year) as nat, 4)
    } else {
        zero_padded(d.year as nat, 4)
    };
    y + seq!['-'] + zero_padded(d.month as nat, 2) + seq!['-'] + zero_padded(d.day as nat, 2)
}

/// The digits of `n`, padded with zeros to at least `width`.
fn padded_digits(n: u64, width: usize) -> (v: Vec<char>)
    ensures
        v@ == zero_padded(n as nat, width as nat),
{
    let d = u64_digits(n);
    let mut v: Vec<char> = Vec::new();
    if d.len() < width {
        let k = width - d.len();
        while v.len() < k
            invariant
                v.len() <= k,
                v@ == Seq::new(v@.len(), |i: int| '0'),
            decreases k - v.len(),
        {
            v.push('0');
            assert(v@ =~= Seq::new(v@.len(), |i: int| '0'));
        }
    }
    let ghost zeros = v@;
    let mut i: usize = 0;
    while i < d.len()
        invariant
            i <= d@.len(),
            v@ == zeros + d@.take(i as int),
        decreases d@.len() - i,
    {
        v.push(d[i]);
        i = i + 1;
        assert(v@ =~= zeros + d@.take(i as int));
    }
    assert(d@.take(d@.len() as int) =~= d@);
    if d.len() >= width {
        assert(zeros =~= Seq::<char>::empty());
        assert(v@ =~= d@);
    }
    v
}

/// Appends `b` to `a`.
fn append_chars(a: &mut Vec<char>, b: &Vec<char>)
    ensures
        final(a)@ == old(a)@ + b@,
{
    let ghost start = a@;
    let mut i: usize = 0;
    while i < b.len()
        invariant
            i <= b@.len(),
            a@ == start + b@.take(i as int),
        decreases b@.len() - i,
    {
        a.push(b[i]);
        i = i + 1;
        assert(a@ =~= start + b@.take(i as int));
    }
    assert(b@.take(b@.len() as int) =~= b@);
}

impl CalendarDate {
    /// The date as `[year]-[month]-[day]` writes it, e.g. `2024-03-07`.
    pub fn to_iso_string(&self) -> (s: String)
        ensures
            s@ == iso_date_text(*self),
    {
        let mut v: Vec<char> = Vec::new();
        if self.year < 0 {
            v.push('-');
            let y = padded_digits((-(self.year as i64)) as u64, 4);
            append_chars(&mut v, &y);
        } else {
            let y = padded_digits(self.year as u64, 4);
            append_chars(&mut v, &y);
        }
        let ghost yv = v@;
        v.push('-');
        let m = padded_digits(self.month as u64, 2);
        append_chars(&mut v, &m);
        v.push('-');
        let d = padded_digits(self.day as u64, 2);
        append_chars(&mut v, &d);
        assert(v@ =~= iso_date_text(*self));
        string_from_chars(v.as_slice())
    }
}

/// The format of dates in forms and in the database.
pub const DATE_FORMAT: &'static str = "[year]-[month]-[day]";

/// The date that `s` gives in the format that the description `format` describes (year,
/// month, day), or the text of the error where the description or the date does not parse.
pub uninterp spec fn date_parse_result(s: Seq<char>, format: Seq<char>) -> Result<(i32, u8, u8), Seq<char>>;

/// `time::Date::parse` of `s` with the format description `format` (read with
/// `format_description::parse_borrowed::<1>`), giving the date's parts or the error's text.
/// The contract names the result; it does not describe the format syntax.
#[verifier::external_body]
pub(crate) fn parse_date_in_format(s: &str, format: &str) -> (r: Result<CalendarDate, String>)
    ensures
        match r {
            Ok(d) => date_parse_result(s@, format@) == Ok::<(i32, u8, u8), Seq<char>>((d.year, d.month, d.day)),
            Err(e) => date_parse_result(s@, format@) == Err::<(i32, u8, u8), Seq<char>>(e@),
        },
{
    match time::format_description::parse_borrowed::<1>(format) {
        Ok(items) => match time::Date::parse(s, &items) {
            Ok(d) => Ok(CalendarDate { year: d.year(), month: u8::from(d.month()), day: d.day() }),
            Err(e) => Err(e.to_string()),
        },
        Err(e) => Err(e.to_string()),
    }
}

/// The date given in a form field: none where the field is absent or empty, otherwise the
/// date parsed in `DATE_FORMAT` or the parse error's text.
pub open spec fn spec_parse_date(date_str: Option<Seq<char>>) -> Result<Option<(i32, u8, u8)>, Seq<char>> {
    match date_str {
        None => Ok(None),
        Some(s) => if s.len() == 0 {
            Ok(None)
        } else {
            match date_parse_result(s, DATE_FORMAT@) {
                Ok(d) => Ok(Some(d)),
                Err(e) => Err(e),
            }
        },
    }
}

/// Reads a date from a form field.
pub fn parse_date(date_str: Option<&str>) -> (r: Result<Option<CalendarDate>, String>)
    ensures
        match r {
            Ok(Some(d)) => spec_parse_date(crate::media::opt_str_view(date_str)) == Ok::<Option<(i32, u8, u8)>, Seq<char>>(
                Some((d.year, d.month, d.day)),
            ),
            Ok(None) => spec_parse_date(crate::media::opt_str_view(date_str)) == Ok::<Option<(i32, u8, u8)>, Seq<char>>(None),
            Err(e) => spec_parse_date(crate::media::opt_str_view(date_str)) == Err::<Option<(i32, u8, u8)>, Seq<char>>(e@),
        },
{
    match date_str {
        None => Ok(None),
        Some(s) => if s.is_empty() {
            Ok(None)
        } else {
            match parse_date_in_format(s, DATE_FORMAT) {
                Ok(d) => Ok(Some(d)),
                Err(e) => Err(e),
            }
        },
    }
}

/// A user account.
#[derive(Debug)]
pub struct User {
    pub id: i64,
    pub google_account_id: Option<String>,
    pub email: Option<String>,
    pub username: Option<String>,
    pub picture_url: Option<String>,
    pub created_at: CalendarDateTime,
}

/// A media item on a user's list, with its watch state.
#[derive(Debug, Clone, Copy, PartialEq, Eq, Structural)]
pub struct Media {
    pub id: i64,
    pub media_type: MediaType,
    pub state: MediaState,
}

/// One entry in the watch history of a media item.
#[derive(Debug)]
pub struct MediaHistoryEntry {
    pub id: i64,
    pub rating: Option<i64>,
    pub title: Option<String>,
    pub comment: Option<String>,
    pub start_date: Option<CalendarDate>,
    pub end_date: Option<CalendarDate>,
}

/// The watch state of a media item when it is first added to a list.
pub fn initial_media_state() -> (s: MediaState)
    ensures
        s == MediaState::Planned,
{
    MediaState::Planned
}

} // verus!
