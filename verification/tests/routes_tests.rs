use stream_stash::db::{CalendarDate, CalendarDateTime, DbError};
use stream_stash::google_auth::{GoogleAuthError, VerifiedUser};
use stream_stash::media::{MediaType, Movie, TmdbMedia};
use stream_stash::routes::{
    account_deleted_reply, add_failed_reply, already_signed_in_reply, cards_for_loaded, created_at_display,
    created_at_text, or_not_available,
    delete_failed_reply, deletion_not_confirmed_reply, details_failed_reply, history_create_failed_reply,
    history_deleted_reply, history_entry_url, history_failed_reply, history_patched_reply,
    history_update_from_form, is_deletion_confirmed, list_failed_reply, login_next, logout_reply,
    media_history_url, profile_failed_reply, search_failed_reply, search_plan, state_patched_reply,
    AppSession, LoginAction, LoginEvent, LoginStep, Reply, SearchPlan,
};
use stream_stash::tmdb::TmdbService;

fn user() -> VerifiedUser {
    VerifiedUser {
        sub: "g-1".to_string(),
        email: Some("jane@gmail.com".to_string()),
        email_verified: Some(true),
        name: Some("Jane".to_string()),
        picture: Some("https://example.com/p.png".to_string()),
        hosted_domain: None,
    }
}

fn is_text(r: &Reply, status: u16, text: &str) -> bool {
    matches!(r, Reply::Text(s, t) if *s == status && t == text)
}

#[test]
fn search_plans() {
    assert_eq!(search_plan("   ", None), SearchPlan::NoContent);
    assert_eq!(search_plan("", Some(4)), SearchPlan::NoContent);
    assert_eq!(search_plan("dune", None), SearchPlan::Initial);
    assert_eq!(search_plan(" dune ", Some(2)), SearchPlan::Paginated { page: 2, next_page: 3 });
}

#[test]
fn fixed_replies() {
    assert!(is_text(&search_failed_reply(), 500, "Search failed"));
    assert!(matches!(already_signed_in_reply(), Reply::Redirect(ref l) if l == "/"));
    assert!(matches!(logout_reply(), Reply::Redirect(ref l) if l == "/login"));
    assert!(is_text(&list_failed_reply(), 500, "Failed to load media"));
    assert!(is_text(&profile_failed_reply(), 500, "Failed to load profile"));
    assert!(is_text(&history_failed_reply(), 500, "Failed to load history"));
    assert!(is_text(&add_failed_reply(), 500, "Failed to add media"));
    assert!(is_text(&delete_failed_reply(), 500, "Failed to delete media"));
    assert!(is_text(&history_create_failed_reply(), 500, "Failed to create media history entry"));
    assert!(is_text(&details_failed_reply(MediaType::Movies), 500, "Failed to load movie details"));
    assert!(is_text(&details_failed_reply(MediaType::TvShows), 500, "Failed to load TV show details"));
}

#[test]
fn sign_in_of_known_user() {
    let (step, action) = login_next(LoginStep::CheckingCsrf, LoginEvent::CsrfChecked(Ok(())));
    assert!(matches!(step, LoginStep::VerifyingToken));
    assert!(matches!(action, LoginAction::VerifyToken));
    let (step, action) = login_next(step, LoginEvent::TokenVerified(Ok(user())));
    assert!(matches!(action, LoginAction::LookUpUser { ref google_account_id } if google_account_id == "g-1"));
    let (step, action) = login_next(step, LoginEvent::UserLookedUp(Ok(Some(42))));
    assert!(matches!(step, LoginStep::StoringSession));
    assert!(matches!(action, LoginAction::StoreSession { user_id: 42 }));
    let (step, action) = login_next(step, LoginEvent::SessionStored(Ok(())));
    assert!(matches!(step, LoginStep::Done));
    assert!(matches!(action, LoginAction::Answer(Reply::Redirect(ref l)) if l == "/"));
}

#[test]
fn sign_in_of_new_user() {
    let (step, _) = login_next(LoginStep::VerifyingToken, LoginEvent::TokenVerified(Ok(user())));
    let (step, action) = login_next(step, LoginEvent::UserLookedUp(Ok(None)));
    assert!(matches!(step, LoginStep::CreatingUser));
    match action {
        LoginAction::CreateUser { google_account_id, email, username, picture_url } => {
            assert_eq!(google_account_id, "g-1");
            assert_eq!(email.as_deref(), Some("jane@gmail.com"));
            assert_eq!(username.as_deref(), Some("Jane"));
            assert_eq!(picture_url.as_deref(), Some("https://example.com/p.png"));
        }
        other => panic!("unexpected {:?}", other),
    }
    let (step, action) = login_next(step, LoginEvent::UserCreated(Ok(7)));
    assert!(matches!(step, LoginStep::StoringSession));
    assert!(matches!(action, LoginAction::StoreSession { user_id: 7 }));
}

#[test]
fn sign_in_failures() {
    let (s, a) = login_next(LoginStep::CheckingCsrf, LoginEvent::CsrfChecked(Err(GoogleAuthError::CsrfMismatch)));
    assert!(matches!(s, LoginStep::Done));
    assert!(matches!(a, LoginAction::Answer(ref r) if is_text(r, 400, "CSRF verification failed")));
    let (s, a) = login_next(
        LoginStep::VerifyingToken,
        LoginEvent::TokenVerified(Err(GoogleAuthError::GoogleNotAuthoritative)),
    );
    assert!(matches!(s, LoginStep::Done));
    assert!(matches!(a, LoginAction::Answer(ref r) if is_text(r, 401, "Invalid credentials")));
    let (_, a) = login_next(
        LoginStep::LookingUpUser(user()),
        LoginEvent::UserLookedUp(Err(DbError::QueryError("x".to_string()))),
    );
    assert!(matches!(a, LoginAction::Answer(ref r) if is_text(r, 500, "Database error")));
    let (_, a) = login_next(LoginStep::CreatingUser, LoginEvent::UserCreated(Err(DbError::QueryError("x".to_string()))));
    assert!(matches!(a, LoginAction::Answer(ref r) if is_text(r, 500, "Failed to create user account")));
    let (_, a) = login_next(LoginStep::StoringSession, LoginEvent::SessionStored(Err("store down".to_string())));
    assert!(matches!(a, LoginAction::Answer(ref r) if is_text(r, 500, "Failed to create session")));
}

#[test]
fn sign_in_ignores_events_out_of_order() {
    let (s, a) = login_next(LoginStep::CheckingCsrf, LoginEvent::SessionStored(Ok(())));
    assert!(matches!(s, LoginStep::Done));
    assert!(matches!(a, LoginAction::Answer(ref r) if is_text(r, 500, "Unexpected sign-in step")));
    let (s, _) = login_next(LoginStep::Done, LoginEvent::CsrfChecked(Ok(())));
    assert!(matches!(s, LoginStep::Done));
}

#[test]
fn deletion_confirmation_ignores_case() {
    assert!(is_deletion_confirmed("delete"));
    assert!(is_deletion_confirmed("DELETE"));
    assert!(is_deletion_confirmed("DeLeTe"));
    assert!(!is_deletion_confirmed("delete "));
    assert!(!is_deletion_confirmed("remove"));
    assert!(!is_deletion_confirmed(""));
}

#[test]
fn deletion_replies() {
    assert!(matches!(deletion_not_confirmed_reply(),
        Reply::StatusWithHeader(204, ref n, ref v) if n == "HX-Trigger" && v == "show-account-not-deleted-modal"));
    assert!(matches!(account_deleted_reply(Ok(())),
        Reply::StatusWithHeader(204, ref n, ref v) if n == "HX-Location" && v == "/"));
    assert!(is_text(
        &account_deleted_reply(Err(DbError::QueryError("x".to_string()))),
        500,
        "There was an error while trying to delete your account. Please try again."
    ));
}

#[test]
fn profile_creation_date() {
    assert_eq!(created_at_text(Ok("Thu, 07 Mar 2024 10:00:00 +0000".to_string())), "Thu, 07 Mar 2024 10:00:00 +0000");
    assert_eq!(created_at_text(Err("bad".to_string())), "Unknown");
}

#[test]
fn state_patch_replies() {
    assert!(matches!(state_patched_reply(Ok(true)), Reply::Status(204)));
    assert!(is_text(&state_patched_reply(Ok(false)), 404, "Media not found"));
    assert!(is_text(&state_patched_reply(Err(DbError::QueryError("x".to_string()))), 500, "Failed to patch media"));
}

#[test]
fn history_entry_replies() {
    assert!(matches!(history_patched_reply(Ok(true)), Reply::Status(204)));
    assert!(is_text(&history_patched_reply(Ok(false)), 404, "Failed to update media history entry"));
    assert!(is_text(
        &history_patched_reply(Err(DbError::RatingOutOfRange(12))),
        500,
        "Failed to update media history entry"
    ));
    assert!(matches!(history_deleted_reply(Ok(())), Reply::Status(200)));
    assert!(is_text(
        &history_deleted_reply(Err(DbError::QueryError("x".to_string()))),
        500,
        "Failed to delete media history entry"
    ));
}

#[test]
fn history_urls() {
    let h = media_history_url(MediaType::TvShows, 1399);
    assert_eq!(h, "/media/TV Shows/1399/history");
    assert_eq!(history_entry_url(&h, 5), "/media/TV Shows/1399/history/5");
    assert_eq!(media_history_url(MediaType::Movies, 550), "/media/Movies/550/history");
}

#[test]
fn history_form_is_trimmed_and_dated() {
    let u = history_update_from_form(Some(8), Some("  First watch "), Some(" great\n"), Some("2024-03-07"), Some(""))
        .expect("valid form");
    assert_eq!(u.rating, Some(8));
    assert_eq!(u.title.as_deref(), Some("First watch"));
    assert_eq!(u.comment.as_deref(), Some("great"));
    assert_eq!(u.start_date, Some(CalendarDate { year: 2024, month: 3, day: 7 }));
    assert_eq!(u.end_date, None);
}

#[test]
fn history_form_with_bad_dates() {
    let r = history_update_from_form(None, None, None, Some("2024-99-01"), Some("nope"));
    assert!(matches!(r, Err(ref a) if is_text(a, 400, "Invalid start_date")));
    let r = history_update_from_form(None, None, None, Some("2024-01-01"), Some("nope"));
    assert!(matches!(r, Err(ref a) if is_text(a, 400, "Invalid end_date")));
}

#[test]
fn list_cards_skip_items_that_failed_to_load() {
    let s = TmdbService::new().expect("TMDB locations parse");
    let m = |id: i32| {
        Some(TmdbMedia::Movie(Movie {
            backdrop_path: None,
            id,
            overview: None,
            poster_path: None,
            release_date: None,
            title: Some("T".to_string()),
        }))
    };
    let cards = cards_for_loaded(&s, &[m(1), None, m(3)]);
    let urls: Vec<&str> = cards.iter().map(|c| c.media_page_url.as_str()).collect();
    assert_eq!(urls, vec!["/media/Movies/1", "/media/Movies/3"]);
    assert!(cards.iter().all(|c| c.load_more_url.is_none()));
}

#[test]
fn session_holds_user_id() {
    let s = AppSession { user_id: 3 };
    assert_eq!(s, AppSession { user_id: 3 });
}

fn date_time(year: i32, month: u8, day: u8) -> CalendarDateTime {
    CalendarDateTime { date: CalendarDate { year, month, day }, hour: 10, minute: 5, second: 9, nanosecond: 0 }
}

#[test]
fn profile_creation_date_in_rfc2822() {
    assert_eq!(created_at_display(date_time(2024, 3, 7)), "Thu, 07 Mar 2024 10:05:09 +0000");
}

#[test]
fn profile_creation_date_that_cannot_be_formatted() {
    assert_eq!(created_at_display(date_time(2024, 13, 7)), "Unknown");
    assert_eq!(created_at_display(date_time(2023, 2, 29)), "Unknown");
    assert_eq!(created_at_display(date_time(1850, 1, 1)), "Unknown");
}

#[test]
fn profile_fields_default_to_not_available() {
    assert_eq!(or_not_available(Some("jane@gmail.com")), "jane@gmail.com");
    assert_eq!(or_not_available(None), "N/A");
}
