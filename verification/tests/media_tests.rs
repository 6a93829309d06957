use stream_stash::media::{media_types, MediaState, MediaType, Movie, TmdbMedia, TvShow};

fn movie() -> Movie {
    Movie {
        backdrop_path: Some("/back.jpg".to_string()),
        id: 550,
        overview: Some("An insomniac office worker...".to_string()),
        poster_path: Some("/poster.jpg".to_string()),
        release_date: Some("1999-10-15".to_string()),
        title: Some("Fight Club".to_string()),
    }
}

fn tv_show() -> TvShow {
    TvShow {
        backdrop_path: None,
        first_air_date: Some("2011-04-17".to_string()),
        id: 1399,
        name: Some("Game of Thrones".to_string()),
        overview: None,
        poster_path: Some("/got.jpg".to_string()),
    }
}

#[test]
fn media_type_display_names() {
    assert_eq!(MediaType::Movies.to_string(), "Movies");
    assert_eq!(MediaType::TvShows.to_string(), "TV Shows");
}

#[test]
fn media_type_accepts_its_aliases() {
    for name in ["Movies", "movies", "MOVIES"] {
        assert_eq!(MediaType::from_name(name), Some(MediaType::Movies));
    }
    for name in ["TV Shows", "tv shows", "TV SHOWS", "Tv Shows", "Tv shows"] {
        assert_eq!(MediaType::from_name(name), Some(MediaType::TvShows));
    }
}

#[test]
fn media_type_refuses_other_names() {
    assert_eq!(MediaType::from_name("TvShows"), None);
    assert_eq!(MediaType::from_name("mOvies"), None);
    assert_eq!(MediaType::from_name(""), None);
    assert_eq!(MediaType::from_name("Movies "), None);
}

#[test]
fn media_type_name_round_trip_on_both_types() {
    for t in media_types() {
        assert_eq!(MediaType::from_name(&t.to_string()), Some(t));
    }
}

#[test]
fn media_types_in_order() {
    assert_eq!(media_types(), vec![MediaType::Movies, MediaType::TvShows]);
}

#[test]
fn media_state_display_names() {
    assert_eq!(MediaState::Finished.to_string(), "Finished");
    assert_eq!(MediaState::InProgress.to_string(), "In progress");
    assert_eq!(MediaState::Planned.to_string(), "Planned");
    assert_eq!(MediaState::Waiting.to_string(), "Waiting");
    assert_eq!(MediaState::Dropped.to_string(), "Dropped");
}

#[test]
fn media_state_read_from_variant_names() {
    assert_eq!(MediaState::from_name("Finished"), Some(MediaState::Finished));
    assert_eq!(MediaState::from_name("InProgress"), Some(MediaState::InProgress));
    assert_eq!(MediaState::from_name("Planned"), Some(MediaState::Planned));
    assert_eq!(MediaState::from_name("Waiting"), Some(MediaState::Waiting));
    assert_eq!(MediaState::from_name("Dropped"), Some(MediaState::Dropped));
    assert_eq!(MediaState::from_name("finished"), None);
}

#[test]
fn media_state_display_round_trip_except_in_progress() {
    for s in [MediaState::Finished, MediaState::Planned, MediaState::Waiting, MediaState::Dropped] {
        assert_eq!(MediaState::from_name(&s.to_string()), Some(s));
    }
    assert_eq!(MediaState::from_name(&MediaState::InProgress.to_string()), None);
}

#[test]
fn states_offered_per_media_type() {
    assert_eq!(
        MediaType::Movies.states(),
        vec![MediaState::Finished, MediaState::Planned, MediaState::Dropped]
    );
    assert_eq!(
        MediaType::TvShows.states(),
        vec![
            MediaState::Finished,
            MediaState::InProgress,
            MediaState::Planned,
            MediaState::Waiting,
            MediaState::Dropped
        ]
    );
    assert_eq!(MediaType::Movies.state_names(), vec!["Finished", "Planned", "Dropped"]);
    assert_eq!(
        MediaType::TvShows.state_names(),
        vec!["Finished", "In progress", "Planned", "Waiting", "Dropped"]
    );
}

#[test]
fn tmdb_media_movie_getters() {
    let m = TmdbMedia::Movie(movie());
    assert_eq!(m.id(), 550);
    assert_eq!(m.media_type(), MediaType::Movies);
    assert_eq!(m.title(), Some("Fight Club"));
    assert_eq!(m.overview(), Some("An insomniac office worker..."));
    assert_eq!(m.release_date(), Some("1999-10-15"));
    assert_eq!(m.poster_path(), Some("/poster.jpg"));
    assert_eq!(m.backdrop_path(), Some("/back.jpg"));
}

#[test]
fn tmdb_media_tv_show_getters() {
    let t = TmdbMedia::TvShow(tv_show());
    assert_eq!(t.id(), 1399);
    assert_eq!(t.media_type(), MediaType::TvShows);
    assert_eq!(t.title(), Some("Game of Thrones"));
    assert_eq!(t.overview(), None);
    assert_eq!(t.release_date(), Some("2011-04-17"));
    assert_eq!(t.poster_path(), Some("/got.jpg"));
    assert_eq!(t.backdrop_path(), None);
}
