use stream_stash::media::{Media, MediaState, MediaType, Movie, TmdbMedia, TvShow};
use stream_stash::search::{build_search_url, map_to_media_cards, search_query_string, search_result_cards};
use stream_stash::tmdb::{
    media_page_url, release_year_cut_ok, release_year_of, search_query_params, ImageType,
    SearchResult, TmdbService, ITEMS_PER_PAGE,
};

fn service() -> TmdbService {
    TmdbService::new().expect("TMDB locations parse")
}

fn movie(id: i32, title: Option<&str>, date: Option<&str>, poster: Option<&str>) -> Movie {
    Movie {
        backdrop_path: None,
        id,
        overview: None,
        poster_path: poster.map(|p| p.to_string()),
        release_date: date.map(|d| d.to_string()),
        title: title.map(|t| t.to_string()),
    }
}

fn show(id: i32, name: Option<&str>) -> TvShow {
    TvShow {
        backdrop_path: Some("/b.jpg".to_string()),
        first_air_date: Some("2011-04-17".to_string()),
        id,
        name: name.map(|n| n.to_string()),
        overview: Some("  ".to_string()),
        poster_path: None,
    }
}

#[test]
fn items_per_page() {
    assert_eq!(ITEMS_PER_PAGE, 20);
}

#[test]
fn image_urls_drop_one_leading_slash() {
    let s = service();
    assert_eq!(
        s.get_image_url("/abc.jpg", ImageType::Poster).as_deref(),
        Some("https://image.tmdb.org/t/p/w600_and_h900_bestv2/abc.jpg")
    );
    assert_eq!(
        s.get_image_url("abc.jpg", ImageType::Backdrop).as_deref(),
        Some("https://image.tmdb.org/t/p/w1920_and_h1080_bestv2/abc.jpg")
    );
}

#[test]
fn image_url_strings_skip_blank_paths() {
    let s = service();
    assert_eq!(s.get_image_url_string(None, ImageType::Poster), None);
    assert_eq!(s.get_image_url_string(Some("   "), ImageType::Poster), None);
    assert_eq!(
        s.get_image_url_string(Some("/x.png"), ImageType::Backdrop).as_deref(),
        Some("https://image.tmdb.org/t/p/w1920_and_h1080_bestv2/x.png")
    );
}

#[test]
fn string_or_default_keeps_text_with_content() {
    assert_eq!(TmdbService::get_string_or_default(Some(" a "), "d"), " a ");
    assert_eq!(TmdbService::get_string_or_default(Some(" \t"), "d"), "d");
    assert_eq!(TmdbService::get_string_or_default(None, "d"), "d");
}

#[test]
fn api_endpoints() {
    let s = service();
    assert_eq!(s.search_movies_url().as_deref(), Some("https://api.themoviedb.org/3/search/movie"));
    assert_eq!(s.search_tv_shows_url().as_deref(), Some("https://api.themoviedb.org/3/search/tv"));
    assert_eq!(s.movie_details_url(550).as_deref(), Some("https://api.themoviedb.org/3/movie/550"));
    assert_eq!(s.tv_show_details_url(1399).as_deref(), Some("https://api.themoviedb.org/3/tv/1399"));
    assert_eq!(s.movie_details_url(-3).as_deref(), Some("https://api.themoviedb.org/3/movie/-3"));
}

#[test]
fn query_params_of_search_request() {
    let p = search_query_params("star wars", 3);
    assert_eq!(p, vec![("query".to_string(), "star wars".to_string()), ("page".to_string(), "3".to_string())]);
}

#[test]
fn media_page_urls() {
    assert_eq!(media_page_url(MediaType::Movies, 550), "/media/Movies/550");
    assert_eq!(media_page_url(MediaType::TvShows, 1399), "/media/TV Shows/1399");
}

#[test]
fn release_years() {
    assert_eq!(release_year_of(Some("1999-10-15")), "1999");
    assert_eq!(release_year_of(Some(" 99 ")), "????");
    assert_eq!(release_year_of(Some("")), "????");
    assert_eq!(release_year_of(None), "????");
    assert_eq!(release_year_of(Some("  2001")), "  20");
    assert!(release_year_cut_ok(Some("1999-10-15")));
    assert!(!release_year_cut_ok(Some("abcé-01")));
    assert!(release_year_cut_ok(Some("é")));
}

#[test]
fn movie_card() {
    let s = service();
    let m = TmdbMedia::Movie(movie(550, Some("Fight Club"), Some("1999-10-15"), Some("/p.jpg")));
    let card = s.map_media_to_card(&m, None);
    assert_eq!(card.title, "Fight Club");
    assert_eq!(card.year, "1999");
    assert_eq!(card.poster_url.as_deref(), Some("https://image.tmdb.org/t/p/w600_and_h900_bestv2/p.jpg"));
    assert_eq!(card.media_page_url, "/media/Movies/550");
    assert_eq!(card.load_more_url, None);
}

#[test]
fn card_defaults_for_missing_fields() {
    let s = service();
    let m = TmdbMedia::Movie(movie(7, Some("  "), None, Some(" ")));
    let card = s.map_media_to_card(&m, Some("/search?q=x&t=Movies&p=2"));
    assert_eq!(card.title, "????");
    assert_eq!(card.year, "????");
    assert_eq!(card.poster_url, None);
    assert_eq!(card.load_more_url.as_deref(), Some("/search?q=x&t=Movies&p=2"));
}

#[test]
fn tv_show_page() {
    let s = service();
    let media = Media { tmdb_media: TmdbMedia::TvShow(show(1399, None)), state: Some(MediaState::InProgress) };
    let page = s.map_media_to_page(&media);
    assert_eq!(page.title, "????");
    assert_eq!(page.overview, "");
    assert_eq!(page.release_date, "2011-04-17");
    assert_eq!(page.poster_url, None);
    assert_eq!(page.backdrop_url.as_deref(), Some("https://image.tmdb.org/t/p/w1920_and_h1080_bestv2/b.jpg"));
    assert_eq!(page.state.as_deref(), Some("In progress"));
    assert_eq!(page.states, vec!["Finished", "In progress", "Planned", "Waiting", "Dropped"]);
    assert_eq!(page.media_url, "/media/TV Shows/1399");
}

#[test]
fn movie_page_without_state() {
    let s = service();
    let media = Media { tmdb_media: TmdbMedia::Movie(movie(550, Some("Fight Club"), None, None)), state: None };
    let page = s.map_media_to_page(&media);
    assert_eq!(page.title, "Fight Club");
    assert_eq!(page.release_date, "????-??-??");
    assert_eq!(page.state, None);
    assert_eq!(page.states, vec!["Finished", "Planned", "Dropped"]);
    assert_eq!(page.media_url, "/media/Movies/550");
}

#[test]
fn search_query_is_form_encoded() {
    assert_eq!(search_query_string("a b&c", MediaType::Movies, None), "q=a+b%26c&t=Movies");
    assert_eq!(search_query_string("über", MediaType::TvShows, Some(2)), "q=%C3%BCber&t=TV+Shows&p=2");
    assert_eq!(search_query_string("x*-._y", MediaType::Movies, Some(-1)), "q=x*-._y&t=Movies&p=-1");
}

#[test]
fn search_url_replaces_query_of_request() {
    assert_eq!(
        build_search_url("/search?q=old&t=Movies&p=3", "star wars", MediaType::TvShows, Some(2)),
        "search?q=star+wars&t=TV+Shows&p=2"
    );
    assert_eq!(build_search_url("/search", "dune", MediaType::Movies, None), "search?q=dune&t=Movies");
}

#[test]
fn search_result_from_movies_keeps_order() {
    let r = SearchResult::from_movies(1, 1, 2, vec![movie(1, None, None, None), movie(2, None, None, None)]);
    assert_eq!(r.page, 1);
    assert_eq!(r.total_results, 2);
    let ids: Vec<i32> = r.results.iter().map(|m| m.id()).collect();
    assert_eq!(ids, vec![1, 2]);
    assert!(r.results.iter().all(|m| m.media_type() == MediaType::Movies));
}

#[test]
fn search_result_from_tv_shows_keeps_order() {
    let r = SearchResult::from_tv_shows(2, 5, 90, vec![show(9, None), show(8, None), show(7, None)]);
    assert_eq!(r.total_pages, 5);
    let ids: Vec<i32> = r.results.iter().map(|m| m.id()).collect();
    assert_eq!(ids, vec![9, 8, 7]);
    assert!(r.results.iter().all(|m| m.media_type() == MediaType::TvShows));
}

#[test]
fn only_last_card_of_non_last_page_loads_more() {
    let s = service();
    let items = vec![
        TmdbMedia::Movie(movie(1, Some("A"), None, None)),
        TmdbMedia::Movie(movie(2, Some("B"), None, None)),
        TmdbMedia::Movie(movie(3, Some("C"), None, None)),
    ];
    let cards = map_to_media_cards(&s, &items, false, "next");
    assert_eq!(cards.len(), 3);
    assert_eq!(cards[0].load_more_url, None);
    assert_eq!(cards[1].load_more_url, None);
    assert_eq!(cards[2].load_more_url.as_deref(), Some("next"));
    let last_page = map_to_media_cards(&s, &items, true, "next");
    assert!(last_page.iter().all(|c| c.load_more_url.is_none()));
    assert!(map_to_media_cards(&s, &[], false, "next").is_empty());
}

#[test]
fn counts_of_a_results_page() {
    let s = service();
    let result = SearchResult::from_movies(2, 3, 45, vec![movie(1, Some("A"), None, None), movie(2, Some("B"), None, None)]);
    let cards = search_result_cards(&s, &result, "/search?p=3");
    assert_eq!(cards.shown_results, 22);
    assert_eq!(cards.total_results, 45);
    assert_eq!(cards.cards.len(), 2);
    assert_eq!(cards.cards[1].load_more_url.as_deref(), Some("/search?p=3"));
    let last = SearchResult::from_movies(3, 3, 45, vec![movie(1, Some("A"), None, None)]);
    let last_cards = search_result_cards(&s, &last, "/search?p=4");
    assert_eq!(last_cards.shown_results, 41);
    assert_eq!(last_cards.cards[0].load_more_url, None);
}
