//! TMDB: API endpoints, image URLs, and what a media card or page shows of a record.
use vstd::prelude::*;
use crate::media::{
    media_state_name, media_type_name, opt_str_view, opt_string_view, states_for_type, Media, MediaType,
    Movie, TmdbMedia, TvShow,
};
use crate::text::{str_concat, decimal, i64_to_string, owned, trim, trim_str};
use crate::urls::{url_join, url_join_result, url_parse, url_parse_result};
use vstd::string::StringSliceAdditionalSpecFns;

verus! {

/// The number of results TMDB returns per search page.
pub const ITEMS_PER_PAGE: i32 = 20;

/// The TMDB API root.
pub open spec fn api_base() -> Seq<char> {
    "https://api.themoviedb.org/"@
}

/// The root of poster images.
pub open spec fn poster_base() -> Seq<char> {
    "https://image.tmdb.org/t/p/w600_and_h900_bestv2/"@
}

/// The root of backdrop images.
pub open spec fn backdrop_base() -> Seq<char> {
    "https://image.tmdb.org/t/p/w1920_and_h1080_bestv2/"@
}

/// Which of a record's images, and so which image size.
#[derive(Debug, Clone, Copy, PartialEq, Eq, Structural)]
pub enum ImageType {
    Poster,
    Backdrop,
}

/// One page of search results.
#[derive(Debug)]
pub struct SearchResult {
    pub page: i32,
    pub total_pages: i32,
    pub total_results: i32,
    pub results: Vec<TmdbMedia>,
}

impl SearchResult {
    /// A page of movie results, as the movie search endpoint reports it.
    pub fn from_movies(page: i32, total_pages: i32, total_results: i32, movies: Vec<Movie>) -> (r: Self)
        ensures
            r.page == page,
            r.total_pages == total_pages,
            r.total_results == total_results,
            r.results@ == movies@.map_values(|m: Movie| TmdbMedia::Movie(m)),
    {
        let mut results: Vec<TmdbMedia> = Vec::new();
        let mut movies = movies;
        let ghost all = movies@;
        while movies.len() > 0
            invariant
                results@ =~= all.take(results@.len() as int).map_values(|m: Movie| TmdbMedia::Movie(m)),
                results@.len() + movies@.len() == all.len(),
                movies@ =~= all.skip(results@.len() as int),
            decreases movies@.len(),
        {
            let ghost n = results@.len();
            let m = movies.remove(0);
            results.push(TmdbMedia::Movie(m));
            assert(all.take(n + 1 as int) =~= all.take(n as int).push(all[n as int]));
            assert(all.skip(n + 1 as int) =~= all.skip(n as int).drop_first());
        }
        assert(all.take(all.len() as int) =~= all);
        SearchResult { page, total_pages, total_results, results }
    }

    /// A page of TV show results, as the TV search endpoint reports it.
    pub fn from_tv_shows(page: i32, total_pages: i32, total_results: i32, shows: Vec<TvShow>) -> (r: Self)
        ensures
            r.page == page,
            r.total_pages == total_pages,
            r.total_results == total_results,
            r.results@ == shows@.map_values(|t: TvShow| TmdbMedia::TvShow(t)),
    {
        let mut results: Vec<TmdbMedia> = Vec::new();
        let mut shows = shows;
        let ghost all = shows@;
        while shows.len() > 0
            invariant
                results@ =~= all.take(results@.len() as int).map_values(|t: TvShow| TmdbMedia::TvShow(t)),
                results@.len() + shows@.len() == all.len(),
                shows@ =~= all.skip(results@.len() as int),
            decreases shows@.len(),
        {
            let ghost n = results@.len();
            let t = shows.remove(0);
            results.push(TmdbMedia::TvShow(t));
            assert(all.take(n + 1 as int) =~= all.take(n as int).push(all[n as int]));
            assert(all.skip(n + 1 as int) =~= all.skip(n as int).drop_first());
        }
        assert(all.take(all.len() as int) =~= all);
        SearchResult { page, total_pages, total_results, results }
    }
}

/// `text` where it has something besides white space, otherwise `default`.
pub open spec fn string_or_default(text: Option<Seq<char>>, default: Seq<char>) -> Seq<char> {
    match text {
        Some(t) => if trim(t).len() > 0 {
            t
        } else {
            default
        },
        None => default,
    }
}

/// An image path without one leading `/`.
pub open spec fn strip_leading_slash(p: Seq<char>) -> Seq<char> {
    if p.len() > 0 && p[0] == '/' {
        p.drop_first()
    } else {
        p
    }
}

/// Whether the byte string of a release date can be cut at byte 4 (`&d[0..4]`) where the
/// year is taken from it: it always can unless the trimmed date has at least four bytes and
/// byte 4 falls inside a character.
pub open spec fn year_cut_ok(date: Option<Seq<char>>) -> bool {
    match date {
        Some(d) => vstd::utf8::encode_utf8(trim(d)).len() >= 4 ==> vstd::utf8::is_char_boundary(
            vstd::utf8::encode_utf8(d),
            4,
        ),
        None => true,
    }
}

/// The year shown on a card: the first four bytes of the release date where the trimmed
/// date has at least four bytes, otherwise `????`.
pub open spec fn release_year(date: Option<Seq<char>>) -> Seq<char> {
    match date {
        Some(d) => if vstd::utf8::encode_utf8(trim(d)).len() >= 4 {
            vstd::utf8::decode_utf8(vstd::utf8::encode_utf8(d).subrange(0, 4))
        } else {
            "????"@
        },
        None => "????"@,
    }
}

/// The page of a media item in the application: `/media/{type}/{id}`.
pub open spec fn media_page_path(t: MediaType, id: int) -> Seq<char> {
    "/media/"@ + media_type_name(t) + "/"@ + decimal(id)
}

/// What a media card shows.
pub struct MediaCard {
    pub title: String,
    pub year: String,
    pub poster_url: Option<String>,
    pub media_page_url: String,
    pub load_more_url: Option<String>,
}

/// The view of a media card.
pub struct MediaCardView {
    pub title: Seq<char>,
    pub year: Seq<char>,
    pub poster_url: Option<Seq<char>>,
    pub media_page_url: Seq<char>,
    pub load_more_url: Option<Seq<char>>,
}

impl View for MediaCard {
    type V = MediaCardView;

    open spec fn view(&self) -> MediaCardView {
        MediaCardView {
            title: self.title@,
            year: self.year@,
            poster_url: opt_string_view(self.poster_url),
            media_page_url: self.media_page_url@,
            load_more_url: opt_string_view(self.load_more_url),
        }
    }
}

/// What a media page shows.
pub struct MediaPage {
    pub title: String,
    pub overview: String,
    pub release_date: String,
    pub poster_url: Option<String>,
    pub backdrop_url: Option<String>,
    pub state: Option<String>,
    pub states: Vec<String>,
    pub media_url: String,
}

/// TMDB's API and image locations.
pub struct TmdbService {
    api_base_url: String,
    poster_base_url: String,
    backdrop_base_url: String,
}

impl TmdbService {
    /// The API root, as parsed.
    pub closed spec fn spec_api_base_url(&self) -> Seq<char> {
        self.api_base_url@
    }

    /// The root of images of a type, as parsed.
    pub closed spec fn spec_image_base_url(&self, t: ImageType) -> Seq<char> {
        match t {
            ImageType::Poster => self.poster_base_url@,
            ImageType::Backdrop => self.backdrop_base_url@,
        }
    }

    /// The service for TMDB's fixed locations, or `None` where one of them does not parse
    /// as a URL.
    pub fn new() -> (r: Option<Self>)
        ensures
            match r {
                Some(s) => url_parse_result(api_base()) == Some(s.spec_api_base_url())
                    && url_parse_result(poster_base()) == Some(s.spec_image_base_url(ImageType::Poster))
                    && url_parse_result(backdrop_base()) == Some(s.spec_image_base_url(ImageType::Backdrop)),
                None => url_parse_result(api_base()) is None || url_parse_result(poster_base()) is None
                    || url_parse_result(backdrop_base()) is None,
            },
    {
        let api = url_parse("https://api.themoviedb.org/");
        let poster = url_parse("https://image.tmdb.org/t/p/w600_and_h900_bestv2/");
        let backdrop = url_parse("https://image.tmdb.org/t/p/w1920_and_h1080_bestv2/");
        match (api, poster, backdrop) {
            (Some(a), Some(p), Some(b)) => Some(
                TmdbService { api_base_url: a, poster_base_url: p, backdrop_base_url: b },
            ),
            _ => None,
        }
    }

    /// The URL of an image: its path, without one leading `/`, resolved against the base of
    /// its image type.
    pub fn get_image_url(&self, image_path: &str, image_type: ImageType) -> (r: Option<String>)
        ensures
            opt_string_view(r) == url_join_result(
                self.spec_image_base_url(image_type),
                strip_leading_slash(image_path@),
            ),
    {
        let c = crate::text::chars_of(image_path);
        let path: String = if c.len() > 0 && c[0] == '/' {
            let rest = crate::text::slice_chars(c.as_slice(), 1, c.len());
            assert(rest@ =~= image_path@.drop_first());
            crate::text::string_from_chars(rest.as_slice())
        } else {
            owned(image_path)
        };
        match image_type {
            ImageType::Poster => url_join(self.poster_base_url.as_str(), path.as_str()),
            ImageType::Backdrop => url_join(self.backdrop_base_url.as_str(), path.as_str()),
        }
    }

    /// `value` where it has something besides white space, otherwise `default`.
    pub fn get_string_or_default<'a>(value: Option<&'a str>, default: &'a str) -> (r: &'a str)
        ensures
            r@ == string_or_default(opt_str_view(value), default@),
    {
        match value {
            Some(v) => {
                let t = trim_str(v);
                if t.as_str().is_empty() {
                    default
                } else {
                    v
                }
            },
            None => default,
        }
    }

    /// The URL of an image whose path is present and not blank.
    pub open spec fn spec_image_url(&self, image_path: Option<Seq<char>>, t: ImageType) -> Option<Seq<char>> {
        match image_path {
            Some(p) => if trim(p).len() > 0 {
                url_join_result(self.spec_image_base_url(t), strip_leading_slash(p))
            } else {
                None
            },
            None => None,
        }
    }

    /// The URL of an image whose path is present and not blank.
    pub fn get_image_url_string(&self, image_path: Option<&str>, image_type: ImageType) -> (r: Option<String>)
        ensures
            opt_string_view(r) == self.spec_image_url(opt_str_view(image_path), image_type),
    {
        match image_path {
            Some(p) => {
                let t = trim_str(p);
                if t.as_str().is_empty() {
                    None
                } else {
                    self.get_image_url(p, image_type)
                }
            },
            None => None,
        }
    }

    /// The card that a record is shown as.
    pub open spec fn spec_card(&self, media: TmdbMedia, load_more_url: Option<Seq<char>>) -> MediaCardView {
        MediaCardView {
            title: string_or_default(media.spec_title(), "????"@),
            year: release_year(media.spec_release_date()),
            poster_url: self.spec_image_url(media.spec_poster_path(), ImageType::Poster),
            media_page_url: media_page_path(media.spec_type(), media.spec_id() as int),
            load_more_url: load_more_url,
        }
    }

    /// The card that a record is shown as; `load_more_url`, where given, is fetched when the
    /// card comes into view.
    pub fn map_media_to_card(&self, media: &TmdbMedia, load_more_url: Option<&str>) -> (r: MediaCard)
        requires
            year_cut_ok(media.spec_release_date()),
        ensures
            r@ == self.spec_card(*media, opt_str_view(load_more_url)),
    {
        proof {
            reveal_strlit("????");
        }
        let title = Self::get_string_or_default(media.title(), "????");
        let year = release_year_of(media.release_date());
        let poster_url = self.get_image_url_string(media.poster_path(), ImageType::Poster);
        let media_page_url = media_page_url(media.media_type(), media.id() as i64);
        MediaCard {
            title: owned(title),
            year,
            poster_url,
            media_page_url,
            load_more_url: match load_more_url {
                Some(u) => Some(owned(u)),
                None => None,
            },
        }
    }

    /// What the page of a media item shows.
    pub fn map_media_to_page(&self, media: &Media) -> (r: MediaPage)
        ensures
            r.title@ == string_or_default(media.tmdb_media.spec_title(), "????"@),
            r.overview@ == string_or_default(media.tmdb_media.spec_overview(), ""@),
            r.release_date@ == string_or_default(media.tmdb_media.spec_release_date(), "????-??-??"@),
            opt_string_view(r.poster_url) == self.spec_image_url(media.tmdb_media.spec_poster_path(), ImageType::Poster),
            opt_string_view(r.backdrop_url) == self.spec_image_url(media.tmdb_media.spec_backdrop_path(), ImageType::Backdrop),
            opt_string_view(r.state) == match media.state {
                Some(s) => Some(media_state_name(s)),
                None => None::<Seq<char>>,
            },
            r.states@.len() == states_for_type(media.tmdb_media.spec_type()).len(),
            forall|i: int| 0 <= i < r.states@.len() ==> #[trigger] r.states@[i]@ == media_state_name(
                states_for_type(media.tmdb_media.spec_type())[i],
            ),
            r.media_url@ == media_page_path(media.tmdb_media.spec_type(), media.tmdb_media.spec_id() as int),
    {
        let m = &media.tmdb_media;
        let title = Self::get_string_or_default(m.title(), "????");
        let overview = Self::get_string_or_default(m.overview(), "");
        let release_date = Self::get_string_or_default(m.release_date(), "????-??-??");
        let poster_url = self.get_image_url_string(m.poster_path(), ImageType::Poster);
        let backdrop_url = self.get_image_url_string(m.backdrop_path(), ImageType::Backdrop);
        let states = m.media_type().state_names();
        let state = match media.state {
            Some(s) => Some(s.to_string()),
            None => None,
        };
        MediaPage {
            title: owned(title),
            overview: owned(overview),
            release_date: owned(release_date),
            poster_url,
            backdrop_url,
            state,
            states,
            media_url: media_page_url(m.media_type(), m.id() as i64),
        }
    }

    /// The movie search endpoint.
    pub fn search_movies_url(&self) -> (r: Option<String>)
        ensures
            opt_string_view(r) == url_join_result(self.spec_api_base_url(), "/3/search/movie"@),
    {
        url_join(self.api_base_url.as_str(), "/3/search/movie")
    }

    /// The TV show search endpoint.
    pub fn search_tv_shows_url(&self) -> (r: Option<String>)
        ensures
            opt_string_view(r) == url_join_result(self.spec_api_base_url(), "/3/search/tv"@),
    {
        url_join(self.api_base_url.as_str(), "/3/search/tv")
    }

    /// The details endpoint of a movie.
    pub fn movie_details_url(&self, movie_id: i32) -> (r: Option<String>)
        ensures
            opt_string_view(r) == url_join_result(self.spec_api_base_url(), "/3/movie/"@ + decimal(movie_id as int)),
    {
        let path = str_concat("/3/movie/", i64_to_string(movie_id as i64).as_str());
        url_join(self.api_base_url.as_str(), path.as_str())
    }

    /// The details endpoint of a TV show.
    pub fn tv_show_details_url(&self, tv_show_id: i32) -> (r: Option<String>)
        ensures
            opt_string_view(r) == url_join_result(self.spec_api_base_url(), "/3/tv/"@ + decimal(tv_show_id as int)),
    {
        let path = str_concat("/3/tv/", i64_to_string(tv_show_id as i64).as_str());
        url_join(self.api_base_url.as_str(), path.as_str())
    }
}

/// The query parameters of a search request: the search term and the page.
pub fn search_query_params(search_term: &str, page: i32) -> (r: Vec<(String, String)>)
    ensures
        r@.len() == 2,
        r@[0].0@ == "query"@ && r@[0].1@ == search_term@,
        r@[1].0@ == "page"@ && r@[1].1@ == decimal(page as int),
{
    let mut v: Vec<(String, String)> = Vec::new();
    v.push((owned("query"), owned(search_term)));
    v.push((owned("page"), i64_to_string(page as i64)));
    v
}

/// The page of a media item: `/media/{type}/{id}`.
pub fn media_page_url(t: MediaType, id: i64) -> (r: String)
    ensures
        r@ == media_page_path(t, id as int),
{
    let a = str_concat("/media/", t.to_string().as_str());
    let b = str_concat(a.as_str(), "/");
    str_concat(b.as_str(), i64_to_string(id).as_str())
}

/// Whether the year can be cut from a release date (see `year_cut_ok`).
pub fn release_year_cut_ok(date: Option<&str>) -> (b: bool)
    ensures
        b == year_cut_ok(opt_str_view(date)),
{
    match date {
        Some(d) => {
            let t = trim_str(d);
            if t.as_str().as_bytes().len() >= 4 {
                d.is_char_boundary(4)
            } else {
                true
            }
        },
        None => true,
    }
}

/// The year shown on a card for a release date.
pub fn release_year_of(date: Option<&str>) -> (r: String)
    requires
        year_cut_ok(opt_str_view(date)),
    ensures
        r@ == release_year(opt_str_view(date)),
{
    proof {
        reveal_strlit("????");
    }
    match date {
        Some(d) => {
            let t = trim_str(d);
            if t.as_str().as_bytes().len() >= 4 {
                let (head, _) = d.split_at(4);
                proof {
                    vstd::utf8::encode_utf8_decode_utf8(head@);
                }
                owned(head)
            } else {
                owned("????")
            }
        },
        None => owned("????"),
    }
}

} // verus!
