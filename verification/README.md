# Stream Stash

Companion for tracking movies and TV shows: search TMDB, keep a list of media with a
watch state, and record a watch history with ratings, comments and dates. Users sign in
with Google.

## Layout

- `src/` is the verified library (Verus). Its contracts state what each function returns:
  - `media`: media types and watch states, their display and stored names, and TMDB records.
  - `tmdb`: TMDB endpoints, image URLs, and what a media card or media page shows.
  - `search`: search URLs and the cards and counts of a page of results.
  - `google_auth`: which users Google is authoritative for, the CSRF check, the key id of
    a token, the `max-age` of Google's key set, and the cache of Google's signing keys.
  - `db`: rating checks, database error texts, dates in the `[year]-[month]-[day]` format.
  - `routes`: the answers of the request handlers and the sign-in state machine.
  - `text`, `urls`: string helpers and the calls into the `url` crate.
- `tests/` runs the library on concrete values.
- `app/` is the web server around it (axum, maud, sqlx, reqwest): HTTP, the database, the
  calls to TMDB and Google, and the HTML views.

## Running

The server reads `TMDB_READ_ACCESS_TOKEN`, `DATABASE_URL` (e.g. `sqlite:stream_stash.db`)
and `GOOGLE_CLIENT_ID` from the environment or a `.env` file, and listens on port 8000.
