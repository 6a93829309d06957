//! Media kinds, watch states and the TMDB records that the application shows.
use vstd::prelude::*;
use crate::text::{owned, str_equal};

verus! {

/// The two kinds of media that can be searched and tracked.
#[derive(Debug, Clone, Copy, PartialEq, Eq, Structural)]
pub enum MediaType {
    Movies,
    TvShows,
}

/// Where a user stands with a tracked media item.
#[derive(Debug, Clone, Copy, PartialEq, Eq, Structural)]
pub enum MediaState {
    Finished,
    InProgress,
    Planned,
    Waiting,
    Dropped,
}

/// The display name of a media type.
pub open spec fn media_type_name(t: MediaType) -> Seq<char> {
    match t {
        MediaType::Movies => "Movies"@,
        MediaType::TvShows => "TV Shows"@,
    }
}

/// The names under which a media type is accepted in requests: the display name first,
/// then the other accepted spellings.
pub open spec fn media_type_accepted_names(t: MediaType) -> Seq<Seq<char>> {
    match t {
        MediaType::Movies => seq!["Movies"@, "movies"@, "MOVIES"@],
        MediaType::TvShows => seq!["TV Shows"@, "tv shows"@, "TV SHOWS"@, "Tv Shows"@, "Tv shows"@],
    }
}

/// The media type that `s` names, if any.
pub open spec fn media_type_from_name(s: Seq<char>) -> Option<MediaType> {
    if media_type_accepted_names(MediaType::Movies).contains(s) {
        Some(MediaType::Movies)
    } else if media_type_accepted_names(MediaType::TvShows).contains(s) {
        Some(MediaType::TvShows)
    } else {
        None
    }
}

/// The name under which a media type is stored (its variant name).
pub open spec fn media_type_stored_name(t: MediaType) -> Seq<char> {
    match t {
        MediaType::Movies => "Movies"@,
        MediaType::TvShows => "TvShows"@,
    }
}

/// The media type stored under `s`, if any.
pub open spec fn media_type_from_stored_name(s: Seq<char>) -> Option<MediaType> {
    if s == media_type_stored_name(MediaType::Movies) {
        Some(MediaType::Movies)
    } else if s == media_type_stored_name(MediaType::TvShows) {
        Some(MediaType::TvShows)
    } else {
        None
    }
}

/// The display name of a watch state.
pub open spec fn media_state_name(s: MediaState) -> Seq<char> {
    match s {
        MediaState::Finished => "Finished"@,
        MediaState::InProgress => "In progress"@,
        MediaState::Planned => "Planned"@,
        MediaState::Waiting => "Waiting"@,
        MediaState::Dropped => "Dropped"@,
    }
}

/// The name under which a watch state is accepted in requests (its variant name).
pub open spec fn media_state_accepted_name(s: MediaState) -> Seq<char> {
    match s {
        MediaState::Finished => "Finished"@,
        MediaState::InProgress => "InProgress"@,
        MediaState::Planned => "Planned"@,
        MediaState::Waiting => "Waiting"@,
        MediaState::Dropped => "Dropped"@,
    }
}

/// The watch state that `s` names, if any.
pub open spec fn media_state_from_name(s: Seq<char>) -> Option<MediaState> {
    if s == media_state_accepted_name(MediaState::Finished) {
        Some(MediaState::Finished)
    } else if s == media_state_accepted_name(MediaState::InProgress) {
        Some(MediaState::InProgress)
    } else if s == media_state_accepted_name(MediaState::Planned) {
        Some(MediaState::Planned)
    } else if s == media_state_accepted_name(MediaState::Waiting) {
        Some(MediaState::Waiting)
    } else if s == media_state_accepted_name(MediaState::Dropped) {
        Some(MediaState::Dropped)
    } else {
        None
    }
}

/// The watch states offered for a media type, in the order they are listed.
pub open spec fn states_for_type(t: MediaType) -> Seq<MediaState> {
    match t {
        MediaType::Movies => seq![MediaState::Finished, MediaState::Planned, MediaState::Dropped],
        MediaType::TvShows => seq![
            MediaState::Finished,
            MediaState::InProgress,
            MediaState::Planned,
            MediaState::Waiting,
            MediaState::Dropped,
        ],
    }
}

/// The media types, in the order they are offered.
pub open spec fn all_media_types() -> Seq<MediaType> {
    seq![MediaType::Movies, MediaType::TvShows]
}

impl MediaType {
    /// The display name ("Movies" or "TV Shows").
    pub fn to_string(&self) -> (s: String)
        ensures
            s@ == media_type_name(*self),
    {
        match self {
            MediaType::Movies => owned("Movies"),
            MediaType::TvShows => owned("TV Shows"),
        }
    }

    /// Reads a media type from one of its accepted names.
    pub fn from_name(s: &str) -> (r: Option<MediaType>)
        ensures
            r == media_type_from_name(s@),
    {
        proof {
            reveal_strlit("Movies");
            reveal_strlit("movies");
            reveal_strlit("MOVIES");
            reveal_strlit("TV Shows");
            reveal_strlit("tv shows");
            reveal_strlit("TV SHOWS");
            reveal_strlit("Tv Shows");
            reveal_strlit("Tv shows");
        }
        let ghost movies = media_type_accepted_names(MediaType::Movies);
        let ghost tv = media_type_accepted_names(MediaType::TvShows);
        if str_equal(s, "Movies") || str_equal(s, "movies") || str_equal(s, "MOVIES") {
            assert(movies.contains(s@)) by {
                assert(movies[0] == "Movies"@ && movies[1] == "movies"@ && movies[2] == "MOVIES"@);
            }
            return Some(MediaType::Movies);
        }
        assert(!movies.contains(s@)) by {
            if movies.contains(s@) {
                let i = choose|i: int| 0 <= i < movies.len() && movies[i] == s@;
                assert(i == 0 || i == 1 || i == 2);
            }
        }
        if str_equal(s, "TV Shows") || str_equal(s, "tv shows") || str_equal(s, "TV SHOWS")
            || str_equal(s, "Tv Shows") || str_equal(s, "Tv shows") {
            assert(tv.contains(s@)) by {
                assert(tv[0] == "TV Shows"@ && tv[1] == "tv shows"@ && tv[2] == "TV SHOWS"@);
                assert(tv[3] == "Tv Shows"@ && tv[4] == "Tv shows"@);
            }
            return Some(MediaType::TvShows);
        }
        assert(!tv.contains(s@)) by {
            if tv.contains(s@) {
                let i = choose|i: int| 0 <= i < tv.len() && tv[i] == s@;
                assert(i == 0 || i == 1 || i == 2 || i == 3 || i == 4);
            }
        }
        None
    }

    /// The name under which this media type is stored.
    pub fn stored_name(&self) -> (s: String)
        ensures
            s@ == media_type_stored_name(*self),
    {
        match self {
            MediaType::Movies => owned("Movies"),
            MediaType::TvShows => owned("TvShows"),
        }
    }

    /// Reads a stored media type.
    pub fn from_stored_name(s: &str) -> (r: Option<MediaType>)
        ensures
            r == media_type_from_stored_name(s@),
    {
        if str_equal(s, "Movies") {
            Some(MediaType::Movies)
        } else if str_equal(s, "TvShows") {
            Some(MediaType::TvShows)
        } else {
            None
        }
    }

    /// The watch states offered for this media type.
    pub fn states(&self) -> (v: Vec<MediaState>)
        ensures
            v@ == states_for_type(*self),
    {
        let mut v: Vec<MediaState> = Vec::new();
        match self {
            MediaType::Movies => {
                v.push(MediaState::Finished);
                v.push(MediaState::Planned);
                v.push(MediaState::Dropped);
            },
            MediaType::TvShows => {
                v.push(MediaState::Finished);
                v.push(MediaState::InProgress);
                v.push(MediaState::Planned);
                v.push(MediaState::Waiting);
                v.push(MediaState::Dropped);
            },
        }
        assert(v@ =~= states_for_type(*self));
        v
    }

    /// The display names of the watch states offered for this media type, in order.
    pub fn state_names(&self) -> (v: Vec<String>)
        ensures
            v@.len() == states_for_type(*self).len(),
            forall|i: int|
                0 <= i < v@.len() ==> #[trigger] v@[i]@ == media_state_name(states_for_type(*self)[i]),
    {
        let states = self.states();
        let mut v: Vec<String> = Vec::new();
        let mut i: usize = 0;
        while i < states.len()
            invariant
                states@ == states_for_type(*self),
                i <= states@.len(),
                v@.len() == i,
                forall|j: int| 0 <= j < i ==> #[trigger] v@[j]@ == media_state_name(states@[j]),
            decreases states@.len() - i,
        {
            v.push(states[i].to_string());
            i = i + 1;
        }
        v
    }
}

/// The media types, in the order they are offered.
pub fn media_types() -> (v: Vec<MediaType>)
    ensures
        v@ == all_media_types(),
{
    let mut v: Vec<MediaType> = Vec::new();
    v.push(MediaType::Movies);
    v.push(MediaType::TvShows);
    assert(v@ =~= all_media_types());
    v
}

impl MediaState {
    /// The display name, such as "In progress".
    pub fn to_string(&self) -> (s: String)
        ensures
            s@ == media_state_name(*self),
    {
        match self {
            MediaState::Finished => owned("Finished"),
            MediaState::InProgress => owned("In progress"),
            MediaState::Planned => owned("Planned"),
            MediaState::Waiting => owned("Waiting"),
            MediaState::Dropped => owned("Dropped"),
        }
    }

    /// The name under which this watch state is stored and accepted (its variant name).
    pub fn stored_name(&self) -> (s: String)
        ensures
            s@ == media_state_accepted_name(*self),
    {
        match self {
            MediaState::Finished => owned("Finished"),
            MediaState::InProgress => owned("InProgress"),
            MediaState::Planned => owned("Planned"),
            MediaState::Waiting => owned("Waiting"),
            MediaState::Dropped => owned("Dropped"),
        }
    }

    /// Reads a watch state from its variant name.
    pub fn from_name(s: &str) -> (r: Option<MediaState>)
        ensures
            r == media_state_from_name(s@),
    {
        proof {
            reveal_strlit("Finished");
            reveal_strlit("InProgress");
            reveal_strlit("Planned");
            reveal_strlit("Waiting");
            reveal_strlit("Dropped");
        }
        if str_equal(s, "Finished") {
            Some(MediaState::Finished)
        } else if str_equal(s, "InProgress") {
            Some(MediaState::InProgress)
        } else if str_equal(s, "Planned") {
            Some(MediaState::Planned)
        } else if str_equal(s, "Waiting") {
            Some(MediaState::Waiting)
        } else if str_equal(s, "Dropped") {
            Some(MediaState::Dropped)
        } else {
            None
        }
    }
}

/// A media type's display name is read back as that media type.
pub proof fn law_media_type_name_round_trip(t: MediaType)
    ensures
        media_type_from_name(media_type_name(t)) == Some(t),
{
    reveal_strlit("Movies");
    reveal_strlit("movies");
    reveal_strlit("MOVIES");
    reveal_strlit("TV Shows");
    reveal_strlit("tv shows");
    reveal_strlit("TV SHOWS");
    reveal_strlit("Tv Shows");
    reveal_strlit("Tv shows");
    let movies = media_type_accepted_names(MediaType::Movies);
    let tv = media_type_accepted_names(MediaType::TvShows);
    match t {
        MediaType::Movies => {
            assert(movies[0] == media_type_name(t));
        },
        MediaType::TvShows => {
            assert(tv[0] == media_type_name(t));
            assert(!movies.contains(media_type_name(t))) by {
                if movies.contains(media_type_name(t)) {
                    let i = choose|i: int| 0 <= i < movies.len() && movies[i] == media_type_name(t);
                    assert(movies[i].len() != media_type_name(t).len() || movies[i][0] != media_type_name(t)[0] || movies[i][1] != media_type_name(t)[1]);
                }
            }
        },
    }
}

/// Every media type is read back from the name under which it is stored.
pub proof fn law_media_type_stored_name_round_trip(t: MediaType)
    ensures
        media_type_from_stored_name(media_type_stored_name(t)) == Some(t),
{
    reveal_strlit("Movies");
    reveal_strlit("TvShows");
    assert(media_type_stored_name(MediaType::Movies).len() != media_type_stored_name(MediaType::TvShows).len());
}

/// The names under which watch states are accepted are pairwise different.
proof fn lemma_media_state_accepted_names_distinct()
    ensures
        forall|a: MediaState, b: MediaState|
            a != b ==> #[trigger] media_state_accepted_name(a) != #[trigger] media_state_accepted_name(b),
{
    reveal_strlit("Finished");
    reveal_strlit("InProgress");
    reveal_strlit("Planned");
    reveal_strlit("Waiting");
    reveal_strlit("Dropped");
    assert forall|a: MediaState, b: MediaState|
        a != b implies #[trigger] media_state_accepted_name(a) != #[trigger] media_state_accepted_name(b) by {
        let x = media_state_accepted_name(a);
        let y = media_state_accepted_name(b);
        assert(x.len() != y.len() || x[0] != y[0]);
    }
}

/// Every watch state is read back from the name under which it is accepted and stored.
pub proof fn law_media_state_name_round_trip(s: MediaState)
    ensures
        media_state_from_name(media_state_accepted_name(s)) == Some(s),
{
    lemma_media_state_accepted_names_distinct();
    assert(media_state_accepted_name(MediaState::Finished) != media_state_accepted_name(s) || s == MediaState::Finished);
    assert(media_state_accepted_name(MediaState::InProgress) != media_state_accepted_name(s) || s == MediaState::InProgress);
    assert(media_state_accepted_name(MediaState::Planned) != media_state_accepted_name(s) || s == MediaState::Planned);
    assert(media_state_accepted_name(MediaState::Waiting) != media_state_accepted_name(s) || s == MediaState::Waiting);
}

/// A watch state's display name is read back as that state, for every state whose display
/// name is its accepted name (all but `InProgress`, displayed as "In progress").
pub proof fn law_media_state_display_round_trip(s: MediaState)
    requires
        s != MediaState::InProgress,
    ensures
        media_state_from_name(media_state_name(s)) == Some(s),
{
    law_media_state_name_round_trip(s);
}

/// A movie as TMDB describes it.
#[derive(Debug)]
pub struct Movie {
    pub backdrop_path: Option<String>,
    pub id: i32,
    pub overview: Option<String>,
    pub poster_path: Option<String>,
    pub release_date: Option<String>,
    pub title: Option<String>,
}

/// A TV show as TMDB describes it.
#[derive(Debug)]
pub struct TvShow {
    pub backdrop_path: Option<String>,
    pub first_air_date: Option<String>,
    pub id: i32,
    pub name: Option<String>,
    pub overview: Option<String>,
    pub poster_path: Option<String>,
}

/// A TMDB record of either kind.
#[derive(Debug)]
pub enum TmdbMedia {
    Movie(Movie),
    TvShow(TvShow),
}

/// A TMDB record together with the user's watch state for it, if tracked.
#[derive(Debug)]
pub struct Media {
    pub tmdb_media: TmdbMedia,
    pub state: Option<MediaState>,
}

/// The view of an optional owned string.
pub open spec fn opt_string_view(s: Option<String>) -> Option<Seq<char>> {
    match s {
        Some(x) => Some(x@),
        None => None,
    }
}

/// The view of an optional string slice.
pub open spec fn opt_str_view(s: Option<&str>) -> Option<Seq<char>> {
    match s {
        Some(x) => Some(x@),
        None => None,
    }
}

/// Borrows the text of an optional string.
pub fn as_opt_str(s: &Option<String>) -> (r: Option<&str>)
    ensures
        opt_str_view(r) == opt_string_view(*s),
{
    match s {
        Some(x) => Some(x.as_str()),
        None => None,
    }
}

impl TmdbMedia {
    /// The TMDB id.
    pub open spec fn spec_id(&self) -> i32 {
        match self {
            TmdbMedia::Movie(m) => m.id,
            TmdbMedia::TvShow(t) => t.id,
        }
    }

    /// The kind of media.
    pub open spec fn spec_type(&self) -> MediaType {
        match self {
            TmdbMedia::Movie(_) => MediaType::Movies,
            TmdbMedia::TvShow(_) => MediaType::TvShows,
        }
    }

    /// The title of a movie, the name of a TV show.
    pub open spec fn spec_title(&self) -> Option<Seq<char>> {
        match self {
            TmdbMedia::Movie(m) => opt_string_view(m.title),
            TmdbMedia::TvShow(t) => opt_string_view(t.name),
        }
    }

    /// The overview.
    pub open spec fn spec_overview(&self) -> Option<Seq<char>> {
        match self {
            TmdbMedia::Movie(m) => opt_string_view(m.overview),
            TmdbMedia::TvShow(t) => opt_string_view(t.overview),
        }
    }

    /// The release date of a movie, the first air date of a TV show.
    pub open spec fn spec_release_date(&self) -> Option<Seq<char>> {
        match self {
            TmdbMedia::Movie(m) => opt_string_view(m.release_date),
            TmdbMedia::TvShow(t) => opt_string_view(t.first_air_date),
        }
    }

    /// The path of the poster image.
    pub open spec fn spec_poster_path(&self) -> Option<Seq<char>> {
        match self {
            TmdbMedia::Movie(m) => opt_string_view(m.poster_path),
            TmdbMedia::TvShow(t) => opt_string_view(t.poster_path),
        }
    }

    /// The path of the backdrop image.
    pub open spec fn spec_backdrop_path(&self) -> Option<Seq<char>> {
        match self {
            TmdbMedia::Movie(m) => opt_string_view(m.backdrop_path),
            TmdbMedia::TvShow(t) => opt_string_view(t.backdrop_path),
        }
    }

    /// The TMDB id.
    pub fn id(&self) -> (r: i32)
        ensures
            r == self.spec_id(),
    {
        match self {
            TmdbMedia::Movie(movie) => movie.id,
            TmdbMedia::TvShow(tv_show) => tv_show.id,
        }
    }

    /// The kind of media.
    pub fn media_type(&self) -> (r: MediaType)
        ensures
            r == self.spec_type(),
    {
        match self {
            TmdbMedia::Movie(_) => MediaType::Movies,
            TmdbMedia::TvShow(_) => MediaType::TvShows,
        }
    }

    /// The title of a movie, the name of a TV show.
    pub fn title(&self) -> (r: Option<&str>)
        ensures
            opt_str_view(r) == self.spec_title(),
    {
        match self {
            TmdbMedia::Movie(movie) => as_opt_str(&movie.title),
            TmdbMedia::TvShow(tv_show) => as_opt_str(&tv_show.name),
        }
    }

    /// The overview.
    pub fn overview(&self) -> (r: Option<&str>)
        ensures
            opt_str_view(r) == self.spec_overview(),
    {
        match self {
            TmdbMedia::Movie(movie) => as_opt_str(&movie.overview),
            TmdbMedia::TvShow(tv_show) => as_opt_str(&tv_show.overview),
        }
    }

    /// The release date of a movie, the first air date of a TV show.
    pub fn release_date(&self) -> (r: Option<&str>)
        ensures
            opt_str_view(r) == self.spec_release_date(),
    {
        match self {
            TmdbMedia::Movie(movie) => as_opt_str(&movie.release_date),
            TmdbMedia::TvShow(tv_show) => as_opt_str(&tv_show.first_air_date),
        }
    }

    /// The path of the poster image.
    pub fn poster_path(&self) -> (r: Option<&str>)
        ensures
            opt_str_view(r) == self.spec_poster_path(),
    {
        match self {
            TmdbMedia::Movie(movie) => as_opt_str(&movie.poster_path),
            TmdbMedia::TvShow(tv_show) => as_opt_str(&tv_show.poster_path),
        }
    }

    /// The path of the backdrop image.
    pub fn backdrop_path(&self) -> (r: Option<&str>)
        ensures
            opt_str_view(r) == self.spec_backdrop_path(),
    {
        match self {
            TmdbMedia::Movie(movie) => as_opt_str(&movie.backdrop_path),
            TmdbMedia::TvShow(tv_show) => as_opt_str(&tv_show.backdrop_path),
        }
    }
}

} // verus!
