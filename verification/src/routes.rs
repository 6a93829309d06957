//! The decisions of the request handlers: what to do next and what to answer, given the
//! outcomes of the database and service calls that the handlers make.
use vstd::prelude::*;
use crate::db::{
    format_rfc2822, parse_date, rfc2822_result, spec_parse_date, CalendarDate, CalendarDateTime, DbError,
};
use crate::google_auth::{GoogleAuthError, VerifiedUser};
use crate::media::{opt_str_view, opt_string_view, MediaType, TmdbMedia};
use crate::text::{
    decimal, i64_to_string, lowercase_result, owned, str_concat, str_equal, to_lowercase, trim, trim_str,
};
use crate::tmdb::{media_page_path, year_cut_ok, MediaCard, MediaCardView, TmdbService};

verus! {

/// The signed-in user of a session, stored in the session under the key `session`.
#[derive(Debug, Clone, Copy, PartialEq, Eq, Structural)]
pub struct AppSession {
    pub user_id: i64,
}

/// An answer to a request.
#[derive(Debug)]
pub enum Reply {
    /// A status without a body.
    Status(u16),
    /// A status with a plain-text body.
    Text(u16, String),
    /// A redirect to a location.
    Redirect(String),
    /// A status without a body, with one header (name, value).
    StatusWithHeader(u16, String, String),
}

/// A reply is the given status with the given text.
pub open spec fn is_text(r: Reply, status: u16, text: Seq<char>) -> bool {
    r matches Reply::Text(s, t) && s == status && t@ == text
}

/// A reply is a redirect to the given location.
pub open spec fn is_redirect(r: Reply, location: Seq<char>) -> bool {
    r matches Reply::Redirect(l) && l@ == location
}

/// A reply is the given status with one header.
pub open spec fn is_status_with_header(r: Reply, status: u16, name: Seq<char>, value: Seq<char>) -> bool {
    r matches Reply::StatusWithHeader(s, n, v) && s == status && n@ == name && v@ == value
}

fn text(status: u16, t: &str) -> (r: Reply)
    ensures
        is_text(r, status, t@),
{
    Reply::Text(status, owned(t))
}

/// The cards of the media on a user's list whose details could be loaded, in list order;
/// an item whose details failed to load is left out.
pub fn cards_for_loaded(tmdb_service: &TmdbService, loaded: &[Option<TmdbMedia>]) -> (cards: Vec<MediaCard>)
    requires
        forall|i: int|
            0 <= i < loaded@.len() ==> (#[trigger] loaded@[i] matches Some(m) ==> year_cut_ok(
                m.spec_release_date(),
            )),
    ensures
        cards@.map_values(|c: MediaCard| c@) == loaded_cards(tmdb_service, loaded@),
        cards@.len() == loaded_items(loaded@).len(),
        forall|k: int|
            0 <= k < cards@.len() ==> loaded_items(loaded@)[k] is Some && (#[trigger] cards@[k])@
                == tmdb_service.spec_card(loaded_items(loaded@)[k]->0, None),
        (forall|i: int| 0 <= i < loaded@.len() ==> (#[trigger] loaded@[i]) is Some) ==> (cards@.len()
            == loaded@.len() && forall|k: int|
            0 <= k < loaded@.len() ==> (#[trigger] cards@[k])@ == tmdb_service.spec_card(loaded@[k]->0, None)),
{
    let mut cards: Vec<MediaCard> = Vec::new();
    let mut i: usize = 0;
    while i < loaded.len()
        invariant
            i <= loaded@.len(),
            forall|j: int|
                0 <= j < loaded@.len() ==> (#[trigger] loaded@[j] matches Some(m) ==> year_cut_ok(
                    m.spec_release_date(),
                )),
            cards@.map_values(|c: MediaCard| c@) == loaded_cards(tmdb_service, loaded@.take(i as int)),
        decreases loaded@.len() - i,
    {
        assert(loaded@.take(i + 1 as int).drop_last() =~= loaded@.take(i as int));
        match &loaded[i] {
            Some(m) => {
                let card = tmdb_service.map_media_to_card(m, None);
                cards.push(card);
                assert(cards@.map_values(|c: MediaCard| c@) =~= loaded_cards(tmdb_service, loaded@.take(i as int)).push(card@));
            },
            None => {},
        }
        i = i + 1;
    }
    assert(loaded@.take(loaded@.len() as int) =~= loaded@);
    proof {
        law_one_card_per_loaded_item(tmdb_service, loaded@);
        assert forall|k: int| 0 <= k < cards@.len() implies (#[trigger] cards@[k])@ == cards@.map_values(
            |c: MediaCard| c@,
        )[k] by {}
    }
    cards
}

/// The items of a list whose details were loaded, in list order.
pub open spec fn loaded_items(loaded: Seq<Option<TmdbMedia>>) -> Seq<Option<TmdbMedia>> {
    loaded.filter(|o: Option<TmdbMedia>| o is Some)
}

/// A user's list shows one card per item whose details were loaded, however many there are,
/// in list order: card `k` is the card of the `k`-th loaded item.
pub proof fn law_one_card_per_loaded_item(tmdb_service: &TmdbService, loaded: Seq<Option<TmdbMedia>>)
    ensures
        loaded_cards(tmdb_service, loaded).len() == loaded_items(loaded).len(),
        forall|k: int|
            0 <= k < loaded_items(loaded).len() ==> (#[trigger] loaded_items(loaded)[k]) is Some
                && loaded_cards(tmdb_service, loaded)[k] == tmdb_service.spec_card(
                loaded_items(loaded)[k]->0,
                None,
            ),
        (forall|i: int| 0 <= i < loaded.len() ==> (#[trigger] loaded[i]) is Some) ==> (loaded_items(loaded)
            == loaded && loaded_cards(tmdb_service, loaded).len() == loaded.len() && forall|k: int|
            0 <= k < loaded.len() ==> #[trigger] loaded_cards(tmdb_service, loaded)[k]
                == tmdb_service.spec_card(loaded[k]->0, None)),
    decreases loaded.len(),
{
    reveal_with_fuel(Seq::filter, 1);
    if loaded.len() > 0 {
        law_one_card_per_loaded_item(tmdb_service, loaded.drop_last());
        let before = loaded_items(loaded.drop_last());
        assert(loaded.drop_last().filter(|o: Option<TmdbMedia>| o is Some) == before);
        if loaded.last() is Some {
            assert(loaded_items(loaded) == before.push(loaded.last()));
        } else {
            assert(loaded_items(loaded) == before);
        }
        if forall|i: int| 0 <= i < loaded.len() ==> (#[trigger] loaded[i]) is Some {
            assert forall|i: int| 0 <= i < loaded.drop_last().len() implies (#[trigger] loaded.drop_last()[i]) is Some by {
                assert(loaded.drop_last()[i] == loaded[i]);
            }
            assert(loaded[loaded.len() - 1] is Some);
            assert(loaded_items(loaded) =~= loaded);
        }
    } else {
        assert(loaded_items(loaded) =~= loaded);
    }
}

/// The cards of the loaded items, in order.
pub open spec fn loaded_cards(tmdb_service: &TmdbService, loaded: Seq<Option<TmdbMedia>>) -> Seq<MediaCardView>
    decreases loaded.len(),
{
    if loaded.len() == 0 {
        Seq::empty()
    } else {
        let init = loaded_cards(tmdb_service, loaded.drop_last());
        match loaded.last() {
            Some(m) => init.push(tmdb_service.spec_card(m, None)),
            None => init,
        }
    }
}

/// What a search request does.
#[derive(Debug, Clone, Copy, PartialEq, Eq, Structural)]
pub enum SearchPlan {
    /// The search term is blank: answer 204 without searching.
    NoContent,
    /// Fetch page `page` as more cards for a page already shown; the last card loads
    /// `next_page`.
    Paginated { page: i32, next_page: i32 },
    /// Fetch the first page as a new search page; the last card loads page 2.
    Initial,
}

/// What a search request does, given its term and page.
pub open spec fn spec_search_plan(q: Seq<char>, p: Option<i32>) -> SearchPlan {
    if trim(q).len() == 0 {
        SearchPlan::NoContent
    } else {
        match p {
            Some(page) => SearchPlan::Paginated { page, next_page: (page + 1) as i32 },
            None => SearchPlan::Initial,
        }
    }
}

/// A search with a term that is not blank and a page fetches that page, and its load-more
/// card asks for the page after it; a blank term searches nothing; without a page the first
/// page is fetched.
pub proof fn law_paginated_search_loads_next_page(q: Seq<char>, page: i32)
    requires
        page < i32::MAX,
    ensures
        trim(q).len() > 0 ==> (spec_search_plan(q, Some(page)) matches SearchPlan::Paginated {
            page: a,
            next_page: b,
        } && a == page && b == page + 1),
        trim(q).len() > 0 ==> spec_search_plan(q, None) == SearchPlan::Initial,
        trim(q).len() == 0 ==> spec_search_plan(q, Some(page)) == SearchPlan::NoContent
            && spec_search_plan(q, None) == SearchPlan::NoContent,
{
}

/// Decides what a search request does.
pub fn search_plan(q: &str, p: Option<i32>) -> (r: SearchPlan)
    requires
        p matches Some(page) ==> page < i32::MAX,
    ensures
        r == spec_search_plan(q@, p),
        trim(q@).len() == 0 ==> r == SearchPlan::NoContent,
        trim(q@).len() > 0 && p is None ==> r == SearchPlan::Initial,
        forall|page: i32|
            trim(q@).len() > 0 && p == Some(page) ==> (r matches SearchPlan::Paginated { page: a, next_page: b }
                && a == page && b == page + 1),
{
    let t = trim_str(q);
    if t.as_str().is_empty() {
        return SearchPlan::NoContent;
    }
    match p {
        Some(page) => SearchPlan::Paginated { page, next_page: page + 1 },
        None => SearchPlan::Initial,
    }
}

/// The answer when a search fails.
pub fn search_failed_reply() -> (r: Reply)
    ensures
        is_text(r, 500, "Search failed"@),
{
    text(500, "Search failed")
}

/// The answer to `/login` for a user who is already signed in.
pub fn already_signed_in_reply() -> (r: Reply)
    ensures
        is_redirect(r, "/"@),
{
    Reply::Redirect(owned("/"))
}

/// The answer to `/logout`: back to the sign-in page.
pub fn logout_reply() -> (r: Reply)
    ensures
        is_redirect(r, "/login"@),
{
    Reply::Redirect(owned("/login"))
}

/// The steps of signing in with Google.
#[derive(Debug)]
pub enum LoginStep {
    /// Waiting for the CSRF check.
    CheckingCsrf,
    /// Waiting for the ID token to be verified.
    VerifyingToken,
    /// Waiting for the lookup of the verified user's Google account id.
    LookingUpUser(VerifiedUser),
    /// Waiting for a new user to be created.
    CreatingUser,
    /// Waiting for the session to be stored.
    StoringSession,
    /// Finished.
    Done,
}

/// What the sign-in handler learns from the outside work it did.
#[derive(Debug)]
pub enum LoginEvent {
    /// The CSRF check passed or failed.
    CsrfChecked(Result<(), GoogleAuthError>),
    /// The ID token was verified (the user) or refused.
    TokenVerified(Result<VerifiedUser, GoogleAuthError>),
    /// The user with the token's Google account id: its id, none, or a database error.
    UserLookedUp(Result<Option<i64>, DbError>),
    /// A new user was created (its id), or not.
    UserCreated(Result<i64, DbError>),
    /// The session was stored, or not.
    SessionStored(Result<(), String>),
}

/// What the sign-in handler does next.
#[derive(Debug)]
pub enum LoginAction {
    /// Verify the posted ID token.
    VerifyToken,
    /// Look up the user with this Google account id.
    LookUpUser { google_account_id: String },
    /// Create a user from the verified token's claims.
    CreateUser {
        google_account_id: String,
        email: Option<String>,
        username: Option<String>,
        picture_url: Option<String>,
    },
    /// Store a session for this user.
    StoreSession { user_id: i64 },
    /// Answer the request.
    Answer(Reply),
}

/// The step that signing in moves to from `step` on `event`.
pub open spec fn login_transition(step: LoginStep, event: LoginEvent) -> LoginStep {
    match (step, event) {
        (LoginStep::CheckingCsrf, LoginEvent::CsrfChecked(Ok(()))) => LoginStep::VerifyingToken,
        (LoginStep::VerifyingToken, LoginEvent::TokenVerified(Ok(u))) => LoginStep::LookingUpUser(u),
        (LoginStep::LookingUpUser(_), LoginEvent::UserLookedUp(Ok(Some(_)))) => LoginStep::StoringSession,
        (LoginStep::LookingUpUser(_), LoginEvent::UserLookedUp(Ok(None))) => LoginStep::CreatingUser,
        (LoginStep::CreatingUser, LoginEvent::UserCreated(Ok(_))) => LoginStep::StoringSession,
        _ => LoginStep::Done,
    }
}

/// Whether `event` in `step` signs the user in (the answer is the redirect to `/`).
pub open spec fn login_succeeds(step: LoginStep, event: LoginEvent) -> bool {
    step is StoringSession && event matches LoginEvent::SessionStored(Ok(()))
}

/// The step reached from `step` after `events`, in order.
pub open spec fn login_run(step: LoginStep, events: Seq<LoginEvent>) -> LoginStep
    decreases events.len(),
{
    if events.len() == 0 {
        step
    } else {
        login_run(login_transition(step, events[0]), events.drop_first())
    }
}

/// Once finished, signing in stays finished.
pub proof fn lemma_login_done_stays(events: Seq<LoginEvent>)
    ensures
        login_run(LoginStep::Done, events) == LoginStep::Done,
    decreases events.len(),
{
    if events.len() > 0 {
        lemma_login_done_stays(events.drop_first());
    }
}

/// From storing the session, no further event leads back to storing it.
pub proof fn lemma_login_storing_then(events: Seq<LoginEvent>)
    ensures
        login_run(LoginStep::StoringSession, events) is StoringSession ==> events.len() == 0,
{
    if events.len() > 0 {
        lemma_login_done_stays(events.drop_first());
    }
}

/// A user is signed in only after, in this order: a passed CSRF check, a verified ID
/// token, and either a lookup that found the user, or a lookup that found none and a
/// successful creation; the session is then stored.
pub proof fn law_sign_in_needs_every_check(events: Seq<LoginEvent>)
    requires
        events.len() >= 1,
        login_succeeds(login_run(LoginStep::CheckingCsrf, events.drop_last()), events.last()),
    ensures
        events[0] matches LoginEvent::CsrfChecked(Ok(())),
        events[1] matches LoginEvent::TokenVerified(Ok(_)),
        (events.len() == 4 && (events[2] matches LoginEvent::UserLookedUp(Ok(Some(_))))) || (events.len()
            == 5 && (events[2] matches LoginEvent::UserLookedUp(Ok(None))) && (events[3] matches LoginEvent::UserCreated(Ok(_)))),
        events.last() matches LoginEvent::SessionStored(Ok(())),
{
    let e = events.drop_last();
    let goal = login_run(LoginStep::CheckingCsrf, e);
    assert(goal is StoringSession);
    assert(e.len() >= 1);
    let s1 = login_transition(LoginStep::CheckingCsrf, e[0]);
    let e1 = e.drop_first();
    assert(goal == login_run(s1, e1));
    if !(e[0] matches LoginEvent::CsrfChecked(Ok(()))) {
        assert(s1 == LoginStep::Done);
        lemma_login_done_stays(e1);
        assert(false);
    }
    assert(s1 == LoginStep::VerifyingToken);
    assert(e1.len() >= 1);
    let s2 = login_transition(LoginStep::VerifyingToken, e1[0]);
    let e2 = e1.drop_first();
    assert(goal == login_run(s2, e2));
    if !(e1[0] matches LoginEvent::TokenVerified(Ok(_))) {
        assert(s2 == LoginStep::Done);
        lemma_login_done_stays(e2);
        assert(false);
    }
    assert(s2 is LookingUpUser);
    assert(e2.len() >= 1);
    let s3 = login_transition(s2, e2[0]);
    let e3 = e2.drop_first();
    assert(goal == login_run(s3, e3));
    if e2[0] matches LoginEvent::UserLookedUp(Ok(Some(_))) {
        assert(s3 == LoginStep::StoringSession);
        lemma_login_storing_then(e3);
        assert(e3.len() == 0);
    } else if e2[0] matches LoginEvent::UserLookedUp(Ok(None)) {
        assert(s3 == LoginStep::CreatingUser);
        assert(e3.len() >= 1);
        let s4 = login_transition(LoginStep::CreatingUser, e3[0]);
        let e4 = e3.drop_first();
        assert(goal == login_run(s4, e4));
        if !(e3[0] matches LoginEvent::UserCreated(Ok(_))) {
            assert(s4 == LoginStep::Done);
            lemma_login_done_stays(e4);
            assert(false);
        }
        assert(s4 == LoginStep::StoringSession);
        lemma_login_storing_then(e4);
        assert(e4.len() == 0);
    } else {
        assert(s3 == LoginStep::Done);
        lemma_login_done_stays(e3);
        assert(false);
    }
}

/// The next step and action of signing in, given the current step and what was learned.
/// A user that was looked up or created is signed in with its id; any failure ends the
/// sign-in with an error answer; an event that does not belong to the step is ignored.
pub fn login_next(step: LoginStep, event: LoginEvent) -> (r: (LoginStep, LoginAction))
    ensures
        r.0 == login_transition(step, event),
        match (step, event) {
            (LoginStep::CheckingCsrf, LoginEvent::CsrfChecked(Ok(()))) => r.0 is VerifyingToken
                && r.1 is VerifyToken,
            (LoginStep::CheckingCsrf, LoginEvent::CsrfChecked(Err(_))) => r.0 is Done && (r.1 matches LoginAction::Answer(a)
                && is_text(a, 400, "CSRF verification failed"@)),
            (LoginStep::VerifyingToken, LoginEvent::TokenVerified(Ok(u))) => r.0 == LoginStep::LookingUpUser(u)
                && (r.1 matches LoginAction::LookUpUser { google_account_id: g } && g@ == u.sub@),
            (LoginStep::VerifyingToken, LoginEvent::TokenVerified(Err(_))) => r.0 is Done && (r.1 matches LoginAction::Answer(a)
                && is_text(a, 401, "Invalid credentials"@)),
            (LoginStep::LookingUpUser(_), LoginEvent::UserLookedUp(Ok(Some(id)))) => r.0 is StoringSession
                && (r.1 matches LoginAction::StoreSession { user_id } && user_id == id),
            (LoginStep::LookingUpUser(u), LoginEvent::UserLookedUp(Ok(None))) => r.0 is CreatingUser
                && (r.1 matches LoginAction::CreateUser { google_account_id, email, username, picture_url }
                && google_account_id == u.sub && email == u.email && username == u.name && picture_url == u.picture),
            (LoginStep::LookingUpUser(_), LoginEvent::UserLookedUp(Err(_))) => r.0 is Done && (r.1 matches LoginAction::Answer(a)
                && is_text(a, 500, "Database error"@)),
            (LoginStep::CreatingUser, LoginEvent::UserCreated(Ok(id))) => r.0 is StoringSession
                && (r.1 matches LoginAction::StoreSession { user_id } && user_id == id),
            (LoginStep::CreatingUser, LoginEvent::UserCreated(Err(_))) => r.0 is Done && (r.1 matches LoginAction::Answer(a)
                && is_text(a, 500, "Failed to create user account"@)),
            (LoginStep::StoringSession, LoginEvent::SessionStored(Ok(()))) => r.0 is Done && (r.1 matches LoginAction::Answer(a)
                && is_redirect(a, "/"@)),
            (LoginStep::StoringSession, LoginEvent::SessionStored(Err(_))) => r.0 is Done && (r.1 matches LoginAction::Answer(a)
                && is_text(a, 500, "Failed to create session"@)),
            _ => r.0 is Done && (r.1 matches LoginAction::Answer(a) && is_text(a, 500, "Unexpected sign-in step"@)),
        },
{
    match (step, event) {
        (LoginStep::CheckingCsrf, LoginEvent::CsrfChecked(Ok(()))) => (LoginStep::VerifyingToken, LoginAction::VerifyToken),
        (LoginStep::CheckingCsrf, LoginEvent::CsrfChecked(Err(_))) => (
            LoginStep::Done,
            LoginAction::Answer(text(400, "CSRF verification failed")),
        ),
        (LoginStep::VerifyingToken, LoginEvent::TokenVerified(Ok(u))) => {
            let g = u.sub.clone();
            (LoginStep::LookingUpUser(u), LoginAction::LookUpUser { google_account_id: g })
        },
        (LoginStep::VerifyingToken, LoginEvent::TokenVerified(Err(_))) => (
            LoginStep::Done,
            LoginAction::Answer(text(401, "Invalid credentials")),
        ),
        (LoginStep::LookingUpUser(_), LoginEvent::UserLookedUp(Ok(Some(id)))) => (
            LoginStep::StoringSession,
            LoginAction::StoreSession { user_id: id },
        ),
        (LoginStep::LookingUpUser(u), LoginEvent::UserLookedUp(Ok(None))) => (
            LoginStep::CreatingUser,
            LoginAction::CreateUser {
                google_account_id: u.sub,
                email: u.email,
                username: u.name,
                picture_url: u.picture,
            },
        ),
        (LoginStep::LookingUpUser(_), LoginEvent::UserLookedUp(Err(_))) => (
            LoginStep::Done,
            LoginAction::Answer(text(500, "Database error")),
        ),
        (LoginStep::CreatingUser, LoginEvent::UserCreated(Ok(id))) => (
            LoginStep::StoringSession,
            LoginAction::StoreSession { user_id: id },
        ),
        (LoginStep::CreatingUser, LoginEvent::UserCreated(Err(_))) => (
            LoginStep::Done,
            LoginAction::Answer(text(500, "Failed to create user account")),
        ),
        (LoginStep::StoringSession, LoginEvent::SessionStored(Ok(()))) => (
            LoginStep::Done,
            LoginAction::Answer(Reply::Redirect(owned("/"))),
        ),
        (LoginStep::StoringSession, LoginEvent::SessionStored(Err(_))) => (
            LoginStep::Done,
            LoginAction::Answer(text(500, "Failed to create session")),
        ),
        _ => (LoginStep::Done, LoginAction::Answer(text(500, "Unexpected sign-in step"))),
    }
}

/// The answer when a user's list cannot be loaded.
pub fn list_failed_reply() -> (r: Reply)
    ensures
        is_text(r, 500, "Failed to load media"@),
{
    text(500, "Failed to load media")
}

/// The answer when the profile cannot be loaded (the user is missing or the lookup failed).
pub fn profile_failed_reply() -> (r: Reply)
    ensures
        is_text(r, 500, "Failed to load profile"@),
{
    text(500, "Failed to load profile")
}

/// The account creation date shown on the profile: the formatted date, or `Unknown` where
/// it cannot be formatted.
pub fn created_at_text(formatted: Result<String, String>) -> (r: String)
    ensures
        match formatted {
            Ok(s) => r@ == s@,
            Err(_) => r@ == "Unknown"@,
        },
{
    match formatted {
        Ok(s) => s,
        Err(_) => owned("Unknown"),
    }
}

/// The text shown for an optional profile field: the value, or `N/A` where there is none.
pub fn or_not_available<'a>(value: Option<&'a str>) -> (r: &'a str)
    ensures
        r@ == match value {
            Some(v) => v@,
            None => "N/A"@,
        },
{
    match value {
        Some(v) => v,
        None => "N/A",
    }
}

/// The account creation date shown on the profile: its RFC 2822 text (as UTC), or `Unknown`
/// where it cannot be formatted.
pub fn created_at_display(created_at: CalendarDateTime) -> (r: String)
    ensures
        match rfc2822_result(created_at) {
            Ok(s) => r@ == s,
            Err(_) => r@ == "Unknown"@,
        },
{
    created_at_text(format_rfc2822(created_at))
}

/// The word that confirms an account deletion.
pub open spec fn deletion_confirmed(confirm: Seq<char>) -> bool {
    lowercase_result(confirm) == "delete"@
}

/// Whether the confirmation text, in lower case, is `delete`.
pub fn is_deletion_confirmed(confirm: &str) -> (b: bool)
    ensures
        b == deletion_confirmed(confirm@),
{
    let lower = to_lowercase(confirm);
    str_equal(lower.as_str(), "delete")
}

/// The answer to an account deletion request that was not confirmed: no content, and the
/// page is told to show that the account was not deleted.
pub fn deletion_not_confirmed_reply() -> (r: Reply)
    ensures
        is_status_with_header(r, 204, "HX-Trigger"@, "show-account-not-deleted-modal"@),
{
    Reply::StatusWithHeader(204, owned("HX-Trigger"), owned("show-account-not-deleted-modal"))
}

/// The answer to an account deletion: no content and a move to `/` once the user is
/// deleted, an error text otherwise.
pub fn account_deleted_reply(deleted: Result<(), DbError>) -> (r: Reply)
    ensures
        deleted is Ok ==> is_status_with_header(r, 204, "HX-Location"@, "/"@),
        deleted is Err ==> is_text(r, 500, "There was an error while trying to delete your account. Please try again."@),
{
    match deleted {
        Ok(()) => Reply::StatusWithHeader(204, owned("HX-Location"), owned("/")),
        Err(_) => text(500, "There was an error while trying to delete your account. Please try again."),
    }
}

/// The answer when the details of a media item cannot be loaded from TMDB.
pub fn details_failed_reply(t: MediaType) -> (r: Reply)
    ensures
        t == MediaType::Movies ==> is_text(r, 500, "Failed to load movie details"@),
        t == MediaType::TvShows ==> is_text(r, 500, "Failed to load TV show details"@),
{
    match t {
        MediaType::Movies => text(500, "Failed to load movie details"),
        MediaType::TvShows => text(500, "Failed to load TV show details"),
    }
}

/// The answer when the watch history of a media item cannot be loaded.
pub fn history_failed_reply() -> (r: Reply)
    ensures
        is_text(r, 500, "Failed to load history"@),
{
    text(500, "Failed to load history")
}

/// The answer when a media item cannot be added to a list.
pub fn add_failed_reply() -> (r: Reply)
    ensures
        is_text(r, 500, "Failed to add media"@),
{
    text(500, "Failed to add media")
}

/// The answer to a change of watch state: no content once changed, 404 where the item is
/// not on the list, 500 where the update failed.
pub fn state_patched_reply(updated: Result<bool, DbError>) -> (r: Reply)
    ensures
        updated matches Ok(true) ==> r matches Reply::Status(204),
        updated matches Ok(false) ==> is_text(r, 404, "Media not found"@),
        updated is Err ==> is_text(r, 500, "Failed to patch media"@),
{
    match updated {
        Ok(true) => Reply::Status(204),
        Ok(false) => text(404, "Media not found"),
        Err(_) => text(500, "Failed to patch media"),
    }
}

/// The answer when a media item cannot be removed from a list.
pub fn delete_failed_reply() -> (r: Reply)
    ensures
        is_text(r, 500, "Failed to delete media"@),
{
    text(500, "Failed to delete media")
}

/// The answer when a watch history entry cannot be created.
pub fn history_create_failed_reply() -> (r: Reply)
    ensures
        is_text(r, 500, "Failed to create media history entry"@),
{
    text(500, "Failed to create media history entry")
}

/// The history of a media item: `/media/{type}/{id}/history`.
pub open spec fn history_path(t: MediaType, id: int) -> Seq<char> {
    media_page_path(t, id) + "/history"@
}

/// The history of a media item: `/media/{type}/{id}/history`.
pub fn media_history_url(t: MediaType, id: i64) -> (r: String)
    ensures
        r@ == history_path(t, id as int),
{
    let page = crate::tmdb::media_page_url(t, id);
    str_concat(page.as_str(), "/history")
}

/// One entry of a history: `{history_url}/{entry_id}`.
pub fn history_entry_url(history_url: &str, entry_id: i64) -> (r: String)
    ensures
        r@ == history_url@ + "/"@ + decimal(entry_id as int),
{
    let a = str_concat(history_url, "/");
    str_concat(a.as_str(), i64_to_string(entry_id).as_str())
}

/// A change to a watch history entry, as it is stored.
#[derive(Debug)]
pub struct HistoryUpdate {
    pub rating: Option<i64>,
    pub title: Option<String>,
    pub comment: Option<String>,
    pub start_date: Option<CalendarDate>,
    pub end_date: Option<CalendarDate>,
}

/// The trimmed text of an optional field.
pub open spec fn trimmed_field(s: Option<Seq<char>>) -> Option<Seq<char>> {
    match s {
        Some(x) => Some(trim(x)),
        None => None,
    }
}

/// Reads a change to a watch history entry from a form: both dates must parse (a start
/// date is checked first), title and comment are trimmed, the rating is kept as sent.
pub fn history_update_from_form(
    rating: Option<i64>,
    title: Option<&str>,
    comment: Option<&str>,
    start_date: Option<&str>,
    end_date: Option<&str>,
) -> (r: Result<HistoryUpdate, Reply>)
    ensures
        spec_parse_date(opt_str_view(start_date)) is Err ==> (r matches Err(a) && is_text(a, 400, "Invalid start_date"@)),
        spec_parse_date(opt_str_view(start_date)) is Ok && spec_parse_date(opt_str_view(end_date)) is Err
            ==> (r matches Err(a) && is_text(a, 400, "Invalid end_date"@)),
        spec_parse_date(opt_str_view(start_date)) is Ok && spec_parse_date(opt_str_view(end_date)) is Ok
            ==> (r matches Ok(u) && u.rating == rating && opt_string_view(u.title) == trimmed_field(opt_str_view(title))
            && opt_string_view(u.comment) == trimmed_field(opt_str_view(comment))
            && spec_parse_date(opt_str_view(start_date)) == Ok::<Option<(i32, u8, u8)>, Seq<char>>(date_parts(u.start_date))
            && spec_parse_date(opt_str_view(end_date)) == Ok::<Option<(i32, u8, u8)>, Seq<char>>(date_parts(u.end_date))),
{
    let start = match parse_date(start_date) {
        Ok(d) => d,
        Err(_) => return Err(text(400, "Invalid start_date")),
    };
    let end = match parse_date(end_date) {
        Ok(d) => d,
        Err(_) => return Err(text(400, "Invalid end_date")),
    };
    Ok(HistoryUpdate {
        rating,
        title: match title {
            Some(t) => Some(trim_str(t)),
            None => None,
        },
        comment: match comment {
            Some(c) => Some(trim_str(c)),
            None => None,
        },
        start_date: start,
        end_date: end,
    })
}

/// The parts of an optional date.
pub open spec fn date_parts(d: Option<CalendarDate>) -> Option<(i32, u8, u8)> {
    match d {
        Some(x) => Some((x.year, x.month, x.day)),
        None => None,
    }
}

/// The answer to a change of a watch history entry: no content once changed, 404 where
/// there is no such entry, 500 where the update failed (a rating out of range among them).
pub fn history_patched_reply(updated: Result<bool, DbError>) -> (r: Reply)
    ensures
        updated matches Ok(true) ==> r matches Reply::Status(204),
        updated matches Ok(false) ==> is_text(r, 404, "Failed to update media history entry"@),
        updated is Err ==> is_text(r, 500, "Failed to update media history entry"@),
{
    match updated {
        Ok(true) => Reply::Status(204),
        Ok(false) => text(404, "Failed to update media history entry"),
        Err(_) => text(500, "Failed to update media history entry"),
    }
}

/// The answer to the removal of a watch history entry: 200 with an empty body, so that the
/// page drops the entry, or an error text.
pub fn history_deleted_reply(deleted: Result<(), DbError>) -> (r: Reply)
    ensures
        deleted is Ok ==> r matches Reply::Status(200),
        deleted is Err ==> is_text(r, 500, "Failed to delete media history entry"@),
{
    match deleted {
        Ok(()) => Reply::Status(200),
        Err(_) => text(500, "Failed to delete media history entry"),
    }
}

} // verus!
