//! Searching: search URLs, and the cards and counts of a page of results.
use vstd::prelude::*;
use crate::media::{media_type_name, opt_str_view, MediaType, TmdbMedia};
use crate::text::{str_concat, decimal, i64_to_string, owned};
use crate::tmdb::{
    year_cut_ok, MediaCard, SearchResult, TmdbService, ITEMS_PER_PAGE,
};
use crate::urls::{
    form_encode, form_urlencode, url_join, url_join_result, url_relative, url_relative_result,
    url_with_query, url_with_query_result,
};

verus! {

/// A search request: the term, the media type, and the page (absent for the first).
#[derive(Debug)]
pub struct SearchQuery {
    pub q: String,
    pub t: MediaType,
    pub p: Option<i32>,
}

/// The URL that relative URLs are resolved against and written relative to.
pub open spec fn local_base() -> Seq<char> {
    "http://localhost"@
}

/// The form-encoded query of a search URL: `q`, `t` and, where given, `p`.
pub open spec fn search_query_text(query: Seq<char>, t: MediaType, page: Option<i32>) -> Seq<char> {
    let qt = "q="@ + form_encode(query) + "&t="@ + form_encode(media_type_name(t));
    match page {
        Some(p) => qt + "&p="@ + form_encode(decimal(p as int)),
        None => qt,
    }
}

/// The search URL built from `base_url`: resolved against `http://localhost`, its query
/// replaced by the search query, and written relative to `http://localhost` again; `/`
/// where any step fails.
pub open spec fn spec_build_search_url(
    base_url: Seq<char>,
    query: Seq<char>,
    t: MediaType,
    page: Option<i32>,
) -> Seq<char> {
    match url_join_result(local_base(), base_url) {
        None => "/"@,
        Some(joined) => match url_with_query_result(joined, search_query_text(query, t, page)) {
            None => "/"@,
            Some(with_query) => match url_relative_result(local_base(), with_query) {
                None => "/"@,
                Some(relative) => relative,
            },
        },
    }
}

/// The form-encoded query of a search URL.
pub fn search_query_string(query: &str, media_type: MediaType, page: Option<i32>) -> (r: String)
    ensures
        r@ == search_query_text(query@, media_type, page),
{
    let q = str_concat("q=", form_urlencode(query).as_str());
    let qt = str_concat(q.as_str(), "&t=");
    let qt = str_concat(qt.as_str(), form_urlencode(media_type.to_string().as_str()).as_str());
    match page {
        Some(p) => {
            let with_p = str_concat(qt.as_str(), "&p=");
            str_concat(with_p.as_str(), form_urlencode(i64_to_string(p as i64).as_str()).as_str())
        },
        None => qt,
    }
}

/// The URL of a search: the path of `base_url` with the search as its query.
pub fn build_search_url(base_url: &str, query: &str, media_type: MediaType, page: Option<i32>) -> (r: String)
    ensures
        r@ == spec_build_search_url(base_url@, query@, media_type, page),
{
    let joined = match url_join("http://localhost", base_url) {
        Some(u) => u,
        None => return owned("/"),
    };
    let query_text = search_query_string(query, media_type, page);
    let with_query = match url_with_query(joined.as_str(), query_text.as_str()) {
        Some(u) => u,
        None => return owned("/"),
    };
    match url_relative("http://localhost", with_query.as_str()) {
        Some(r) => r,
        None => owned("/"),
    }
}

/// The cards of a page of results, as the search shows them.
pub struct SearchResultCards {
    pub cards: Vec<MediaCard>,
    pub shown_results: i32,
    pub total_results: i32,
}

/// The load-more URL of the card at `i` among `n`: only the last card of a page that is
/// not the last page loads more.
pub open spec fn load_more_for(i: int, n: int, is_last_page: bool, next_page_url: Seq<char>) -> Option<Seq<char>> {
    if i == n - 1 && !is_last_page {
        Some(next_page_url)
    } else {
        None
    }
}

/// The cards for `items`; the last one loads `next_page_url` unless this is the last page.
pub fn map_to_media_cards(
    tmdb_service: &TmdbService,
    items: &[TmdbMedia],
    is_last_page: bool,
    next_page_url: &str,
) -> (cards: Vec<MediaCard>)
    requires
        forall|i: int| 0 <= i < items@.len() ==> year_cut_ok(#[trigger] items@[i].spec_release_date()),
    ensures
        cards@.len() == items@.len(),
        forall|i: int|
            0 <= i < items@.len() ==> (#[trigger] cards@[i])@ == tmdb_service.spec_card(
                items@[i],
                load_more_for(i, items@.len() as int, is_last_page, next_page_url@),
            ),
{
    let mut cards: Vec<MediaCard> = Vec::new();
    let mut i: usize = 0;
    while i < items.len()
        invariant
            i <= items@.len(),
            cards@.len() == i,
            forall|j: int| 0 <= j < items@.len() ==> year_cut_ok(#[trigger] items@[j].spec_release_date()),
            forall|j: int|
                0 <= j < i ==> (#[trigger] cards@[j])@ == tmdb_service.spec_card(
                    items@[j],
                    load_more_for(j, items@.len() as int, is_last_page, next_page_url@),
                ),
        decreases items@.len() - i,
    {
        let is_last_item = i + 1 == items.len();
        let load_more_url = if is_last_item && !is_last_page {
            Some(next_page_url)
        } else {
            None
        };
        assert(opt_str_view(load_more_url) == load_more_for(i as int, items@.len() as int, is_last_page, next_page_url@));
        let card = tmdb_service.map_media_to_card(&items[i], load_more_url);
        cards.push(card);
        i = i + 1;
    }
    cards
}

/// How many results have been shown once page `page` with `n` results is shown.
pub open spec fn shown_results_after(page: int, n: int) -> int {
    (page - 1) * ITEMS_PER_PAGE + n
}

/// The results shown once page `page` with `n` results is shown are the full pages before
/// it and all `n` results of this page, for every count of results.
pub proof fn law_shown_results_count_every_result(page: int, n: int)
    requires
        0 <= n,
    ensures
        shown_results_after(page, n) == (page - 1) * ITEMS_PER_PAGE + n,
        shown_results_after(1, n) == n,
        shown_results_after(page, n + 1) == shown_results_after(page, n) + 1,
        shown_results_after(page + 1, n) == shown_results_after(page, n) + ITEMS_PER_PAGE,
{
}

/// The cards and counts of a page of results; the last card loads `next_page_url` unless the
/// page is the last one.
pub fn search_result_cards(tmdb_service: &TmdbService, result: &SearchResult, next_page_url: &str) -> (r: SearchResultCards)
    requires
        i32::MIN <= result.page - 1,
        i32::MIN <= (result.page - 1) * ITEMS_PER_PAGE <= i32::MAX,
        i32::MIN <= shown_results_after(result.page as int, result.results@.len() as int) <= i32::MAX,
        result.results@.len() <= i32::MAX,
        forall|i: int|
            0 <= i < result.results@.len() ==> year_cut_ok(#[trigger] result.results@[i].spec_release_date()),
    ensures
        r.cards@.len() == result.results@.len(),
        forall|i: int|
            0 <= i < result.results@.len() ==> (#[trigger] r.cards@[i])@ == tmdb_service.spec_card(
                result.results@[i],
                load_more_for(
                    i,
                    result.results@.len() as int,
                    result.page >= result.total_pages,
                    next_page_url@,
                ),
            ),
        r.shown_results == shown_results_after(result.page as int, result.results@.len() as int),
        r.shown_results == (result.page - 1) * ITEMS_PER_PAGE + result.results@.len(),
        r.total_results == result.total_results,
{
    let is_last_page = result.page >= result.total_pages;
    let cards = map_to_media_cards(tmdb_service, result.results.as_slice(), is_last_page, next_page_url);
    let n = result.results.len() as i32;
    assert((result.page as int - 1) * 20 + n <= i32::MAX);
    let shown_results = ((result.page as i64 - 1) * 20 + n as i64) as i32;
    SearchResultCards { cards, shown_results, total_results: result.total_results }
}

} // verus!
